//! The coupling of every audited operation to the ledger.

use crate::protocol::{DocumentView, ReplyView, StepView};
use crate::repository::audit::AuditView;
use crate::services::audit::{audited, released, resume_audited, AuditedView};
use crate::storage::{honest, play, Storage};
use vstd::prelude::*;

verus! {

/// How an audited operation takes a reply.
pub open spec fn auditing<S, X, E>(
    resume: spec_fn(S, ReplyView) -> StepView<S, X, E>,
    refused: spec_fn(crate::protocol::FailureView) -> E,
) -> spec_fn(AuditedView<S, X, E>, ReplyView) -> StepView<AuditedView<S, X, E>, X, E> {
    |state: AuditedView<S, X, E>, reply: ReplyView| resume_audited(state, reply, resume, refused)
}

/// Whether an operation, however it is resumed, leaves a collection as it
/// is.
pub open spec fn confined<S, X, E>(
    resume: spec_fn(S, ReplyView) -> StepView<S, X, E>,
    collection: Seq<char>,
) -> bool {
    forall|state: S, reply: ReplyView|
        (#[trigger] resume(state, reply)) matches StepView::Ask(_, request) ==> request.spares(
            collection,
        )
}

/// Whether a step asks for nothing that changes a collection.
pub open spec fn sparing<S, X, E>(step: StepView<S, X, E>, collection: Seq<char>) -> bool {
    step matches StepView::Ask(_, request) ==> request.spares(collection)
}

/// A request that spares a collection leaves its records as they are.
pub proof fn spared_collection_is_unchanged(
    storage: Storage,
    request: crate::protocol::RequestView,
    reply: ReplyView,
    collection: Seq<char>,
)
    requires
        request.spares(collection),
    ensures
        storage.after(request, reply).records(collection) == storage.records(collection),
{
}

/// Once its entry is written, an audited operation that is confined away
/// from the ledger leaves the ledger as it is, whatever replies it gets.
pub proof fn released_operation_spares_ledger<S, X, E>(
    resume: spec_fn(S, ReplyView) -> StepView<S, X, E>,
    refused: spec_fn(crate::protocol::FailureView) -> E,
    step: StepView<AuditedView<S, X, E>, X, E>,
    storage: Storage,
    replies: Seq<ReplyView>,
    ledger: Seq<char>,
)
    requires
        confined(resume, ledger),
        step matches StepView::Ask(state, request) ==> state is Running && request.spares(ledger),
    ensures
        play(auditing(resume, refused), step, storage, replies).1.records(ledger)
            == storage.records(ledger),
    decreases replies.len(),
{
    if replies.len() > 0 {
        match step {
            StepView::Ask(state, request) => {
                let inner = state->Running_0;
                let next = resume_audited(state, replies[0], resume, refused);
                let taken = resume(inner, replies[0]);
                spared_collection_is_unchanged(storage, request, replies[0], ledger);
                released_operation_spares_ledger(
                    resume,
                    refused,
                    next,
                    storage.after(request, replies[0]),
                    replies.drop_first(),
                    ledger,
                );
            },
            _ => {},
        }
    }
}

/// Every audited operation enters exactly one entry in the ledger, and
/// enters it first. Where that write fails, the operation ends with the
/// failure of the ledger, and the store is as it was: the operation itself
/// has asked for nothing. Where it succeeds, the ledger holds the one new
/// entry, whatever the operation then does.
pub proof fn audited_operation_enters_one_entry<S, X, E>(
    ledger: Seq<char>,
    entry: AuditView,
    operation: StepView<S, X, E>,
    resume: spec_fn(S, ReplyView) -> StepView<S, X, E>,
    refused: spec_fn(crate::protocol::FailureView) -> E,
    storage: Storage,
    replies: Seq<ReplyView>,
)
    requires
        replies.len() > 0,
        honest(auditing(resume, refused), audited(ledger, entry, operation), storage, replies),
        confined(resume, ledger),
        sparing(operation, ledger),
    ensures
        ({
            let end = play(
                auditing(resume, refused),
                audited(ledger, entry, operation),
                storage,
                replies,
            );
            &&& replies[0] is Written || replies[0] is Failed
            &&& replies[0] is Written ==> end.1.records(ledger) == storage.records(ledger).push(
                DocumentView::Audit(entry),
            )
            &&& replies[0] is Failed ==> end.0 == StepView::<AuditedView<S, X, E>, X, E>::Failed(
                refused(replies[0].failure()),
            ) && end.1 == storage
        }),
{
    reveal_with_fuel(play, 2);
    reveal_with_fuel(honest, 2);
    let first = audited(ledger, entry, operation);
    let request = first->Ask_1;
    let state = first->Ask_0;
    let next = resume_audited(state, replies[0], resume, refused);
    if replies[0] is Written {
        released_operation_spares_ledger(
            resume,
            refused,
            next,
            storage.after(request, replies[0]),
            replies.drop_first(),
            ledger,
        );
    }
}

/// Once its entry is written, an audited operation runs as the operation
/// itself would: it asks for the same and ends the same, and is honest where
/// the operation is.
pub proof fn released_run_follows_operation<S, X, E>(
    resume: spec_fn(S, ReplyView) -> StepView<S, X, E>,
    refused: spec_fn(crate::protocol::FailureView) -> E,
    step: StepView<S, X, E>,
    storage: Storage,
    replies: Seq<ReplyView>,
)
    ensures
        play(auditing(resume, refused), released(step), storage, replies).0 == released(
            play(resume, step, storage, replies).0,
        ),
        play(auditing(resume, refused), released(step), storage, replies).1 == play(
            resume,
            step,
            storage,
            replies,
        ).1,
        honest(auditing(resume, refused), released(step), storage, replies) == honest(
            resume,
            step,
            storage,
            replies,
        ),
    decreases replies.len(),
{
    if replies.len() > 0 {
        match step {
            StepView::Ask(state, request) => {
                released_run_follows_operation(
                    resume,
                    refused,
                    resume(state, replies[0]),
                    storage.after(request, replies[0]),
                    replies.drop_first(),
                );
            },
            _ => {},
        }
    }
}

/// An audited operation whose entry is written runs, from there on, as the
/// operation itself would against the store that holds the new entry.
pub proof fn audited_run_follows_operation<S, X, E>(
    ledger: Seq<char>,
    entry: AuditView,
    operation: StepView<S, X, E>,
    resume: spec_fn(S, ReplyView) -> StepView<S, X, E>,
    refused: spec_fn(crate::protocol::FailureView) -> E,
    storage: Storage,
    replies: Seq<ReplyView>,
)
    requires
        replies.len() > 0,
        replies[0] is Written,
    ensures
        ({
            let entered = storage.inserted(ledger, DocumentView::Audit(entry));
            let end = play(
                auditing(resume, refused),
                audited(ledger, entry, operation),
                storage,
                replies,
            );
            let inner = play(resume, operation, entered, replies.drop_first());
            &&& end.0 == released(inner.0)
            &&& end.1 == inner.1
            &&& honest(
                auditing(resume, refused),
                audited(ledger, entry, operation),
                storage,
                replies,
            ) ==> honest(resume, operation, entered, replies.drop_first())
        }),
{
    reveal_with_fuel(play, 2);
    reveal_with_fuel(honest, 2);
    released_run_follows_operation(
        resume,
        refused,
        operation,
        storage.inserted(ledger, DocumentView::Audit(entry)),
        replies.drop_first(),
    );
}

} // verus!

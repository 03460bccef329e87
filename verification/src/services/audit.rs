//! The service that writes the ledger, and the coupling of every other
//! operation to it.
//!
//! An audited operation first asks for its entry to be written. While that
//! request is outstanding the operation itself is held back; it is let go
//! only once the entry is written, and dropped if the write fails.

use crate::protocol::{
    DocumentView, Failure, FailureView, Reply, ReplyView, RequestView, Step, StepView,
};
use crate::repository::audit::{
    Action, Audit, AuditRepository, AuditRepositoryView, AuditView, Error, ResourceId,
    ResourceIdView, ResourceType,
};
use vstd::prelude::*;

verus! {

/// Where an audited operation stands.
#[derive(Clone, Debug, PartialEq, Eq)]
pub enum Audited<S, X, E> {
    /// The entry is being written; the operation is held back.
    Recording(Step<S, X, E>),
    /// The entry is written; the operation runs.
    Running(S),
}

/// What an `Audited` stands for in contracts.
pub ghost enum AuditedView<S, X, E> {
    Recording(StepView<S, X, E>),
    Running(S),
}

impl<S: DeepView, X: DeepView, E: DeepView> DeepView for Audited<S, X, E> {
    type V = AuditedView<S::V, X::V, E::V>;

    open spec fn deep_view(&self) -> AuditedView<S::V, X::V, E::V> {
        match self {
            Audited::Recording(operation) => AuditedView::Recording(operation.deep_view()),
            Audited::Running(state) => AuditedView::Running(state.deep_view()),
        }
    }
}

/// A step of an operation, seen as a step of the audited operation whose
/// entry is written.
pub open spec fn released<S, X, E>(operation: StepView<S, X, E>) -> StepView<
    AuditedView<S, X, E>,
    X,
    E,
> {
    match operation {
        StepView::Ask(state, request) => StepView::Ask(AuditedView::Running(state), request),
        StepView::Done(value) => StepView::Done(value),
        StepView::Failed(error) => StepView::Failed(error),
    }
}

/// An operation behind its entry: the entry is to be appended to the ledger,
/// and the operation waits.
pub open spec fn audited<S, X, E>(
    ledger: Seq<char>,
    entry: AuditView,
    operation: StepView<S, X, E>,
) -> StepView<AuditedView<S, X, E>, X, E> {
    StepView::Ask(
        AuditedView::Recording(operation),
        AuditRepositoryView { collection: ledger }.insertion(entry),
    )
}

/// Whether a step is an operation behind an entry that describes it: the one
/// request is to append, to the ledger, an entry with the given actor, action
/// and resource, and the operation waits unchanged.
pub open spec fn audited_as<S, X, E>(
    step: StepView<AuditedView<S, X, E>, X, E>,
    ledger: Seq<char>,
    user_id: Seq<char>,
    action: Action,
    resource_id: ResourceIdView,
    resource_type: ResourceType,
    operation: StepView<S, X, E>,
) -> bool {
    &&& step matches StepView::Ask(
        AuditedView::Recording(held),
        RequestView::InsertOne { collection, document: DocumentView::Audit(entry) },
    )
    &&& held == operation
    &&& collection == ledger
    &&& entry.describes(user_id, action, resource_id, resource_type)
}

/// How an audited operation takes a reply. While the entry is being written,
/// only `Written` lets the operation go; anything else ends it with the
/// failure of the ledger, and the operation has asked for nothing. Afterwards
/// the operation takes its replies itself.
pub open spec fn resume_audited<S, X, E>(
    state: AuditedView<S, X, E>,
    reply: ReplyView,
    resume: spec_fn(S, ReplyView) -> StepView<S, X, E>,
    refused: spec_fn(FailureView) -> E,
) -> StepView<AuditedView<S, X, E>, X, E> {
    match state {
        AuditedView::Recording(operation) => match reply {
            ReplyView::Written => released(operation),
            _ => StepView::Failed(refused(reply.failure())),
        },
        AuditedView::Running(inner) => released(resume(inner, reply)),
    }
}

/// Sees a step of an operation as a step of the audited operation whose
/// entry is written.
pub fn release<S: DeepView, X: DeepView, E: DeepView>(operation: Step<S, X, E>) -> (step: Step<
    Audited<S, X, E>,
    X,
    E,
>)
    ensures
        step.deep_view() == released(operation.deep_view()),
{
    match operation {
        Step::Ask(state, request) => Step::Ask(Audited::Running(state), request),
        Step::Done(value) => Step::Done(value),
        Step::Failed(error) => Step::Failed(error),
    }
}

/// Takes the reply to the writing of an entry: the operation that was held
/// back is let go if the entry is written, and dropped with the failure of
/// the ledger if not.
pub fn recorded<S: DeepView, X: DeepView, E: DeepView>(
    operation: Step<S, X, E>,
    reply: Reply,
) -> (step: Result<Step<Audited<S, X, E>, X, E>, Failure>)
    ensures
        step matches Ok(released_step) ==> reply@ is Written && released_step.deep_view()
            == released(operation.deep_view()),
        step matches Err(failure) ==> reply@ !is Written && failure@ == reply@.failure(),
{
    match reply.into_written() {
        Ok(()) => Ok(release(operation)),
        Err(failure) => Err(failure),
    }
}

/// Writes the ledger.
#[derive(Clone, Debug, PartialEq, Eq)]
pub struct AuditService {
    pub audit_repository: AuditRepository,
}

impl View for AuditService {
    type V = AuditRepositoryView;

    open spec fn view(&self) -> AuditRepositoryView {
        self.audit_repository@
    }
}

impl AuditService {
    /// A service over a ledger.
    pub fn new(audit_repository: AuditRepository) -> (service: AuditService)
        ensures
            service.audit_repository == audit_repository,
    {
        AuditService { audit_repository }
    }

    /// Begins to append an entry.
    pub fn create(&self, audit: Audit) -> (step: Step<Audit, Audit, Error>)
        ensures
            step.deep_view() == self@.create(audit@),
    {
        self.audit_repository.create(audit)
    }

    /// Ends the appending of an entry.
    pub fn resume_create(&self, state: Audit, reply: Reply) -> (step: Step<Audit, Audit, Error>)
        ensures
            step.deep_view() == self@.resume_create(state@, reply@),
    {
        self.audit_repository.resume_create(state, reply)
    }

    /// Puts an operation behind the entry that describes it.
    pub fn record<S: DeepView, X: DeepView, E: DeepView>(
        &self,
        audit: Audit,
        operation: Step<S, X, E>,
    ) -> (step: Step<Audited<S, X, E>, X, E>)
        ensures
            step.deep_view() == audited(self@.collection, audit@, operation.deep_view()),
    {
        Step::Ask(Audited::Recording(operation), self.audit_repository.insertion(audit))
    }

    /// Puts an operation behind a new entry that describes it.
    pub fn guard<S: DeepView, X: DeepView, E: DeepView>(
        &self,
        user_id: &str,
        action: Action,
        resource_id: ResourceId,
        resource_type: ResourceType,
        operation: Step<S, X, E>,
    ) -> (step: Step<Audited<S, X, E>, X, E>)
        ensures
            audited_as(
                step.deep_view(),
                self@.collection,
                user_id@,
                action,
                resource_id@,
                resource_type,
                operation.deep_view(),
            ),
    {
        let audit = Audit::new(user_id, action, resource_id, resource_type);
        self.record(audit, operation)
    }
}

} // verus!

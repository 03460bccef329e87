//! What a registration can and cannot come to.

use crate::configuration::{default_role_name, ConfigView};
use crate::guarantees::ledger::spared_collection_is_unchanged;
use crate::protocol::{DocumentView, Field, Kind, ReplyView, StepView};
use crate::repository::audit::Stamp;
use crate::password::{argon2_phc, is_valid_salt};
use crate::repository::user::{CreateUserView, ErrorView, UserView};
use crate::storage::{honest, play, unfailing, Storage};
use crate::web::authentication::RegistrationView;
use crate::web::response::{ResponseView, BAD_REQUEST, OK};
use vstd::prelude::*;

verus! {

/// How a registration takes a reply, where the new user is stamped with
/// `fresh` and the entry of its creation with `stamp`.
pub open spec fn registering(config: ConfigView, fresh: Stamp, stamp: Stamp) -> spec_fn(
    RegistrationView,
    ReplyView,
) -> StepView<RegistrationView, ResponseView, ResponseView> {
    |state: RegistrationView, reply: ReplyView| config.resume_register(state, reply, fresh, stamp)
}

/// A registration never authenticates: where it succeeds the answer has no
/// body, and where it is refused the answer holds a message and nothing
/// else. No answer of a registration carries a token.
pub proof fn registration_hands_out_no_token(
    config: ConfigView,
    request: CreateUserView,
    state: RegistrationView,
    reply: ReplyView,
    fresh: Stamp,
    stamp: Stamp,
)
    ensures
        !(config.register(request, stamp) is Done),
        config.register(request, stamp) matches StepView::Failed(response) ==> response.body
            is BadRequest,
        config.resume_register(state, reply, fresh, stamp) matches StepView::Done(response)
            ==> response == ResponseView::ok(),
        config.resume_register(state, reply, fresh, stamp) matches StepView::Failed(response) ==> {
            ||| response.body is BadRequest
            ||| response.body is InternalServerError
        },
{
}

/// Where the store holds a user with the username, a registration under
/// that username never succeeds, whatever else the request holds. Where the
/// store does not fail, the salt is well formed and the password can be
/// hashed, it is answered as a bad request, and, the request's fields being
/// filled in, as a taken username.
pub proof fn registration_of_taken_username_is_refused(
    config: ConfigView,
    request: CreateUserView,
    first: Stamp,
    fresh: Stamp,
    stamp: Stamp,
    storage: Storage,
    replies: Seq<ReplyView>,
)
    requires
        storage.holds(config.users.collection, Kind::User, Field::Username, request.username),
        honest(
            registering(config, fresh, stamp),
            config.register(request, first),
            storage,
            replies,
        ),
        play(
            registering(config, fresh, stamp),
            config.register(request, first),
            storage,
            replies,
        ).0.is_finished(),
    ensures
        ({
            let end = play(
                registering(config, fresh, stamp),
                config.register(request, first),
                storage,
                replies,
            ).0;
            let settled = unfailing(replies) && is_valid_salt(config.salt) && argon2_phc(
                request.password,
                config.salt,
            ) is Some;
            &&& end matches StepView::Failed(response) && response.status != OK
            &&& settled ==> (end matches StepView::Failed(response) && response.status
                == BAD_REQUEST)
            &&& settled && request.username.len() > 0 && request.password.len() > 0
                && request.email.len() > 0 ==> end == StepView::<
                RegistrationView,
                ResponseView,
                ResponseView,
            >::Failed(ResponseView::bad_request(ErrorView::UsernameAlreadyTaken.message()))
        }),
{
    reveal_with_fuel(play, 6);
    reveal_with_fuel(honest, 6);
    reveal_strlit("DEFAULT");
    if unfailing(replies) {
        assert(forall|i: int|
            0 <= i < replies.len() && i < 4 ==> !(#[trigger] replies[i] is Failed));
    }
    let users = config.users.collection;
    let start = config.register(request, first);
    if let StepView::Ask(s0, q0) = start {
        let r0 = replies[0];
        let after0 = storage.after(q0, r0);
        assert(after0.holds(users, Kind::User, Field::Username, request.username)) by {
            kept_kind_is_still_held(
                storage,
                after0,
                users,
                Kind::User,
                Field::Username,
                request.username,
            );
        }
        let step1 = config.resume_register(s0, r0, fresh, stamp);
        if let StepView::Ask(s1, q1) = step1 {
            let r1 = replies[1];
            let after1 = after0.after(q1, r1);
            let step2 = config.resume_register(s1, r1, fresh, stamp);
            if let StepView::Ask(s2, q2) = step2 {
                let r2 = replies[2];
                let after2 = after1.after(q2, r2);
                assert(after2.holds(users, Kind::User, Field::Username, request.username)) by {
                    kept_kind_is_still_held(
                        after1,
                        after2,
                        users,
                        Kind::User,
                        Field::Username,
                        request.username,
                    );
                }
                let step3 = config.resume_register(s2, r2, fresh, stamp);
                if let StepView::Ask(s3, q3) = step3 {
                    let r3 = replies[3];
                    let step4 = config.resume_register(s3, r3, fresh, stamp);
                    assert(step4 is Failed);
                }
            }
        }
    }
}

/// A registration that succeeds has stored the new user and no other: a
/// user with a generated stamp, enabled, under the request's username and
/// email, with the hash in place of the password, and with the default role
/// alone where the store holds one, and no role where it does not.
pub proof fn successful_registration_stores_the_user(
    config: ConfigView,
    request: CreateUserView,
    first: Stamp,
    fresh: Stamp,
    stamp: Stamp,
    storage: Storage,
    replies: Seq<ReplyView>,
)
    requires
        config.ledger != config.users.collection,
        honest(
            registering(config, fresh, stamp),
            config.register(request, first),
            storage,
            replies,
        ),
        play(registering(config, fresh, stamp), config.register(request, first), storage, replies).0
            is Done,
    ensures
        ({
            let end = play(
                registering(config, fresh, stamp),
                config.register(request, first),
                storage,
                replies,
            );
            let hash = argon2_phc(request.password, config.salt);
            let role = replies[1]->Role_0;
            let user = ConfigView::enrolled(
                UserView::assemble(request, fresh.id, fresh.now),
                role,
                hash->0,
            );
            &&& replies.len() == 7
            &&& replies[1] is Role
            &&& role is None <==> !storage.holds(
                config.roles.collection,
                Kind::Role,
                Field::Name,
                default_role_name(),
            )
            &&& role matches Some(found) ==> found.name == default_role_name()
            &&& hash is Some
            &&& end.0 == StepView::<RegistrationView, ResponseView, ResponseView>::Done(
                ResponseView::ok(),
            )
            &&& end.1.records(config.users.collection) == storage.records(
                config.users.collection,
            ).push(DocumentView::User(user))
            &&& user.id == fresh.id
            &&& user.username == request.username
            &&& user.email == request.email
            &&& user.password == hash->0
            &&& user.created_at == user.updated_at
            &&& user.enabled
            &&& user.roles == match role {
                Some(found) => Some(seq![found.id]),
                None => None,
            }
        }),
{
    reveal_with_fuel(play, 9);
    reveal_with_fuel(honest, 9);
    reveal_strlit("DEFAULT");
    let users = config.users.collection;
    let resume = registering(config, fresh, stamp);
    let s0 = config.register(request, first);
    let q0 = s0->Ask_1;
    let st1 = storage.after(q0, replies[0]);
    spared_collection_is_unchanged(storage, q0, replies[0], users);
    let s1 = resume(s0->Ask_0, replies[0]);
    let r1 = replies.drop_first();
    let st2 = st1.after(s1->Ask_1, r1[0]);
    assert(st2 == st1);
    if config.ledger == config.roles.collection {
        if storage.holds(config.roles.collection, Kind::Role, Field::Name, default_role_name()) {
            kept_kind_is_still_held(
                storage,
                st1,
                config.roles.collection,
                Kind::Role,
                Field::Name,
                default_role_name(),
            );
        }
        if st1.holds(config.roles.collection, Kind::Role, Field::Name, default_role_name()) {
            let at = choose|i: int|
                0 <= i < st1.records(config.roles.collection).len() && (
                #[trigger] st1.records(config.roles.collection)[i]).has(
                    Kind::Role,
                    Field::Name,
                    default_role_name(),
                );
            assert(at < storage.records(config.roles.collection).len());
            assert(storage.records(config.roles.collection)[at] == st1.records(
                config.roles.collection,
            )[at]);
        }
    } else {
        spared_collection_is_unchanged(storage, q0, replies[0], config.roles.collection);
    }
    let s2 = resume(s1->Ask_0, r1[0]);
    let r2 = r1.drop_first();
    let st3 = st2.after(s2->Ask_1, r2[0]);
    spared_collection_is_unchanged(st2, s2->Ask_1, r2[0], users);
    let s3 = resume(s2->Ask_0, r2[0]);
    let r3 = r2.drop_first();
    let s4 = resume(s3->Ask_0, r3[0]);
    let r4 = r3.drop_first();
    let s5 = resume(s4->Ask_0, r4[0]);
    let r5 = r4.drop_first();
    let st6 = st3.after(s5->Ask_1, r5[0]);
    let s6 = resume(s5->Ask_0, r5[0]);
    let r6 = r5.drop_first();
    let s7 = resume(s6->Ask_0, r6[0]);
    assert(s7 is Done);
}

/// A store that has only gained a record still holds what it held.
proof fn kept_kind_is_still_held(
    before: Storage,
    after: Storage,
    collection: Seq<char>,
    kind: Kind,
    field: Field,
    value: Seq<char>,
)
    requires
        before.holds(collection, kind, field, value),
        after.records(collection) == before.records(collection) || exists|document: DocumentView|
            after.records(collection) == before.records(collection).push(document),
    ensures
        after.holds(collection, kind, field, value),
{
    let at = choose|i: int|
        0 <= i < before.records(collection).len() && (#[trigger] before.records(collection)[i]).has(
            kind,
            field,
            value,
        );
    assert(after.records(collection)[at] == before.records(collection)[at]);
}

} // verus!

//! A caller with a valid token is identified, and shown with exactly the
//! roles attached to it.

use crate::configuration::ConfigView;
use crate::guarantees::ledger::spared_collection_is_unchanged;
use crate::protocol::{DocumentView, Field, Kind, ReplyView, RequestView, StepView};
use crate::repository::audit::Stamp;
use crate::repository::role::RoleView;
use crate::repository::user::UserView;
use crate::storage::{honest_stamped, play_stamped, unfailing, Storage};
use crate::web::authentication::{presented, SessionView};
use crate::web::dto::{named, SimpleRoleDtoView, SimpleUserDtoView};
use crate::web::extractors::{verification, ExtractionView};
use crate::web::response::{BodyView, ResponseView, OK};
use vstd::prelude::*;

verus! {

/// How the resolution of the current user takes a reply and a new stamp.
pub open spec fn resolving_caller(config: ConfigView) -> spec_fn(
    SessionView,
    ReplyView,
    Stamp,
) -> StepView<SessionView, ResponseView, ResponseView> {
    |state: SessionView, reply: ReplyView, stamp: Stamp|
        config.resume_current_user(state, reply, stamp)
}

/// Whether what is shown is the role, by identifier and name.
pub open spec fn shows(shown: SimpleRoleDtoView, role: RoleView) -> bool {
    shown.id == role.id && shown.name == role.name
}

/// Whether the response is a success that shows the user with the given
/// roles, one for one and in their order.
pub open spec fn shows_with_roles(
    response: ResponseView,
    user: SimpleUserDtoView,
    roles: Seq<RoleView>,
) -> bool {
    &&& response.status == OK
    &&& response.body matches BodyView::User(dto)
    &&& dto.roles matches Some(shown)
    &&& dto == SimpleUserDtoView { roles: Some(shown), ..user }
    &&& shown.len() == roles.len()
    &&& forall|i: int| 0 <= i < roles.len() ==> shows(#[trigger] shown[i], roles[i])
}

/// Whether the store holds the role and the user names it.
pub open spec fn attached(
    storage: Storage,
    config: ConfigView,
    user: UserView,
    role: RoleView,
) -> bool {
    &&& storage.records(config.roles.collection).contains(DocumentView::Role(role))
    &&& named(user.roles).contains(role.id)
}

/// Whether what is shown is one of the stored roles that the user names.
pub open spec fn is_attached_role(
    shown: SimpleRoleDtoView,
    storage: Storage,
    config: ConfigView,
    user: UserView,
) -> bool {
    exists|role: RoleView| #[trigger] attached(storage, config, user, role) && shows(shown, role)
}

/// Whether the role is among those shown.
pub open spec fn is_shown(role: RoleView, shown: Seq<SimpleRoleDtoView>) -> bool {
    exists|i: int| 0 <= i < shown.len() && shows(#[trigger] shown[i], role)
}

/// Whether the roles shown are exactly the stored roles that the user
/// names: every one shown is such a role, and every such role is shown.
pub open spec fn lists_exactly(
    shown: Seq<SimpleRoleDtoView>,
    storage: Storage,
    config: ConfigView,
    user: UserView,
) -> bool {
    &&& (forall|i: int|
        0 <= i < shown.len() ==> is_attached_role(#[trigger] shown[i], storage, config, user))
    &&& (forall|role: RoleView| #[trigger]
        attached(storage, config, user, role) ==> is_shown(role, shown))
}

/// Replies without a failure stay so when the first is taken away.
pub proof fn unfailing_rest(replies: Seq<ReplyView>)
    requires
        unfailing(replies),
        replies.len() > 0,
    ensures
        unfailing(replies.drop_first()),
        !(replies[0] is Failed),
{
    assert forall|i: int| 0 <= i < replies.drop_first().len() implies !(
    #[trigger] replies.drop_first()[i] is Failed) by {
        assert(replies.drop_first()[i] == replies[i + 1]);
    }
}

/// Once the roles of a user are found, resolving them to the end shows the
/// user with every one of them, in their order, where the store does not
/// fail.
pub proof fn resolved_roles_are_all_shown(
    config: ConfigView,
    user: SimpleUserDtoView,
    roles: Seq<RoleView>,
    next: nat,
    resolved: Seq<SimpleRoleDtoView>,
    first: Stamp,
    storage: Storage,
    replies: Seq<ReplyView>,
    stamps: Seq<Stamp>,
)
    requires
        next <= roles.len(),
        resolved.len() == next,
        forall|i: int| 0 <= i < next ==> shows(#[trigger] resolved[i], roles[i]),
        replies.len() == stamps.len(),
        unfailing(replies),
        honest_stamped(
            resolving_caller(config),
            presented(config.resolve(user, roles, next, resolved, first)),
            storage,
            replies,
            stamps,
        ),
        play_stamped(
            resolving_caller(config),
            presented(config.resolve(user, roles, next, resolved, first)),
            storage,
            replies,
            stamps,
        ).0.is_finished(),
    ensures
        play_stamped(
            resolving_caller(config),
            presented(config.resolve(user, roles, next, resolved, first)),
            storage,
            replies,
            stamps,
        ).0 matches StepView::Done(response) && shows_with_roles(response, user, roles),
    decreases roles.len() - next,
{
    reveal_with_fuel(play_stamped, 3);
    reveal_with_fuel(honest_stamped, 3);
    let step = presented(config.resolve(user, roles, next, resolved, first));
    if next >= roles.len() {
        assert(step is Done);
    } else if named(roles[next as int].permissions).len() == 0 {
        let grown = resolved.push(SimpleRoleDtoView::from(roles[next as int], Seq::empty()));
        assert forall|i: int| 0 <= i < next + 1 implies shows(#[trigger] grown[i], roles[i]) by {
            if i < next {
                assert(grown[i] == resolved[i]);
            }
        }
        resolved_roles_are_all_shown(
            config,
            user,
            roles,
            next + 1,
            grown,
            first,
            storage,
            replies,
            stamps,
        );
    } else {
        assert(step is Ask);
        assert(replies.len() >= 1);
        unfailing_rest(replies);
        let second = stamps[0];
        let taken = resolving_caller(config)(step->Ask_0, replies[0], second);
        assert(taken is Ask);
        let rest = replies.drop_first();
        assert(rest.len() >= 1);
        unfailing_rest(rest);
        let third = stamps.drop_first()[0];
        let found = rest[0]->Permissions_0;
        assert(rest[0] is Permissions);
        let grown = resolved.push(SimpleRoleDtoView::from(roles[next as int], found));
        let after = resolving_caller(config)(taken->Ask_0, rest[0], third);
        assert(after == presented(config.resolve(user, roles, next + 1, grown, third)));
        assert forall|i: int| 0 <= i < next + 1 implies shows(#[trigger] grown[i], roles[i]) by {
            if i < next {
                assert(grown[i] == resolved[i]);
            }
        }
        resolved_roles_are_all_shown(
            config,
            user,
            roles,
            next + 1,
            grown,
            third,
            storage.after(step->Ask_1, replies[0]).after(taken->Ask_1, rest[0]),
            rest.drop_first(),
            stamps.drop_first().drop_first(),
        );
    }
}

/// Roles shown one for one are listed exactly where the roles found are
/// exactly those attached.
proof fn found_roles_are_listed_exactly(
    shown: Seq<SimpleRoleDtoView>,
    found: Seq<RoleView>,
    storage: Storage,
    config: ConfigView,
    user: UserView,
)
    requires
        shown.len() == found.len(),
        forall|i: int| 0 <= i < found.len() ==> shows(#[trigger] shown[i], found[i]),
        forall|role: RoleView| #[trigger]
            attached(storage, config, user, role) <==> found.contains(role),
    ensures
        lists_exactly(shown, storage, config, user),
{
    assert forall|i: int| 0 <= i < shown.len() implies is_attached_role(
        #[trigger] shown[i],
        storage,
        config,
        user,
    ) by {
        assert(found.contains(found[i]));
        assert(attached(storage, config, user, found[i]) && shows(shown[i], found[i]));
    }
    assert forall|role: RoleView| #[trigger]
        attached(storage, config, user, role) implies is_shown(role, shown) by {
        let i = found.index_of(role);
        assert(0 <= i < shown.len() && shows(shown[i], found[i]));
    }
}

/// Whether the store holds the user, enabled, and no other user has its
/// email.
pub open spec fn is_the_user_of(
    storage: Storage,
    config: ConfigView,
    user: UserView,
    subject: Seq<char>,
) -> bool {
    let users = storage.records(config.users.collection);
    &&& subject.len() > 0
    &&& user.email == subject
    &&& user.enabled
    &&& users.contains(DocumentView::User(user))
    &&& forall|i: int|
        0 <= i < users.len() && (#[trigger] users[i]).has(Kind::User, Field::Email, subject)
            ==> users[i] == DocumentView::User(user)
}

/// Whether the response is a success that shows the user, and with it
/// exactly the stored roles that the user names: no list where there is
/// none of them, and otherwise a list of them all and of nothing else.
pub open spec fn shows_user_with_attached_roles(
    response: ResponseView,
    storage: Storage,
    config: ConfigView,
    user: UserView,
) -> bool {
    &&& response.status == OK
    &&& response.body matches BodyView::User(dto)
    &&& dto == SimpleUserDtoView { roles: dto.roles, ..SimpleUserDtoView::from(user) }
    &&& match dto.roles {
        Some(shown) => shown.len() > 0 && lists_exactly(shown, storage, config, user),
        None => forall|role: RoleView| !attached(storage, config, user, role),
    }
}

/// A caller whose token is valid and names, by email, one enabled user of
/// the store is answered with that user and exactly the roles attached to
/// it, where the store does not fail: every stored role that the user names
/// is shown, nothing else is, and without any such role no list is shown.
pub proof fn current_user_is_shown_with_its_roles(
    config: ConfigView,
    authorization: Option<Seq<char>>,
    subject: Seq<char>,
    user: UserView,
    storage: Storage,
    replies: Seq<ReplyView>,
    stamps: Seq<Stamp>,
)
    requires
        config.ledger != config.users.collection,
        config.ledger != config.roles.collection,
        verification(authorization) is Some,
        replies.len() == stamps.len(),
        replies.len() > 0,
        replies[0] == ReplyView::Subject(Some(subject)),
        is_the_user_of(storage, config, user, subject),
        unfailing(replies),
        honest_stamped(
            resolving_caller(config),
            config.current_user(authorization),
            storage,
            replies,
            stamps,
        ),
        play_stamped(
            resolving_caller(config),
            config.current_user(authorization),
            storage,
            replies,
            stamps,
        ).0.is_finished(),
    ensures
        play_stamped(
            resolving_caller(config),
            config.current_user(authorization),
            storage,
            replies,
            stamps,
        ).0 matches StepView::Done(response) && shows_user_with_attached_roles(
            response,
            storage,
            config,
            user,
        ),
{
    reveal_with_fuel(play_stamped, 6);
    reveal_with_fuel(honest_stamped, 6);
    let resume = resolving_caller(config);
    let users = config.users.collection;
    let roles = config.roles.collection;
    let shown_user = SimpleUserDtoView::from(user);
    // The token is verified.
    let s0 = config.current_user(authorization);
    let s1 = resume(s0->Ask_0, replies[0], stamps[0]);
    let st1 = storage.after(s0->Ask_1, replies[0]);
    assert(st1 == storage);
    let r1 = replies.drop_first();
    let t1 = stamps.drop_first();
    unfailing_rest(replies);
    // The search for the user is entered in the ledger.
    assert(s1 is Ask);
    assert(r1.len() > 0);
    unfailing_rest(r1);
    let s2 = resume(s1->Ask_0, r1[0], t1[0]);
    let st2 = st1.after(s1->Ask_1, r1[0]);
    spared_collection_is_unchanged(st1, s1->Ask_1, r1[0], users);
    spared_collection_is_unchanged(st1, s1->Ask_1, r1[0], roles);
    let r2 = r1.drop_first();
    let t2 = t1.drop_first();
    // The user is found.
    assert(s2 is Ask);
    assert(r2.len() > 0);
    unfailing_rest(r2);
    let at = storage.records(users).index_of(DocumentView::User(user));
    assert(storage.records(users)[at].has(Kind::User, Field::Email, subject));
    assert(st2.holds(users, Kind::User, Field::Email, subject));
    assert(r2[0] == ReplyView::User(Some(user))) by {
        let record = r2[0].found(Kind::User)->0->0;
        let i = st2.records(users).index_of(record);
        assert(storage.records(users)[i] == record);
    }
    let s3 = resume(s2->Ask_0, r2[0], t2[0]);
    let st3 = st2.after(s2->Ask_1, r2[0]);
    assert(st3 == st2);
    assert(s3 == presented(config.convert(user, t2[0])));
    let r3 = r2.drop_first();
    let t3 = t2.drop_first();
    let ids = named(user.roles);
    if ids.len() == 0 {
        assert(s3 == StepView::<SessionView, ResponseView, ResponseView>::Done(
            ResponseView::user(shown_user),
        ));
        assert forall|role: RoleView| !attached(storage, config, user, role) by {
            if ids.contains(role.id) {
                let i = ids.index_of(role.id);
            }
        }
    } else {
        // The search for the roles is entered in the ledger.
        assert(s3 is Ask);
        assert(r3.len() > 0);
        unfailing_rest(r3);
        let s4 = resume(s3->Ask_0, r3[0], t3[0]);
        let st4 = st3.after(s3->Ask_1, r3[0]);
        spared_collection_is_unchanged(st3, s3->Ask_1, r3[0], roles);
        let r4 = r3.drop_first();
        let t4 = t3.drop_first();
        // The roles are found.
        assert(s4 is Ask);
        assert(r4.len() > 0);
        unfailing_rest(r4);
        assert(r4[0] is Roles);
        let found = r4[0]->Roles_0;
        let listed = found.map_values(|role: RoleView| DocumentView::Role(role));
        assert(r4[0].listed(Kind::Role) == Some(listed));
        let s5 = resume(s4->Ask_0, r4[0], t4[0]);
        let st5 = st4.after(s4->Ask_1, r4[0]);
        let r5 = r4.drop_first();
        let t5 = t4.drop_first();
        assert(st4.records(roles) == storage.records(roles));
        assert(s4->Ask_1 == (RequestView::FindMany { collection: roles, kind: Kind::Role, ids }));
        assert(st4.answers(s4->Ask_1, r4[0]));
        assert(r4[0].listed(Kind::Role) matches Some(records) && forall|record: DocumentView|
            #[trigger] records.contains(record) <==> {
                &&& st4.records(roles).contains(record)
                &&& record.kind() == Some(Kind::Role)
                &&& ids.contains(record.id())
            });
        assert(r4[0].listed(Kind::Role)->0 == listed);
        assert(forall|record: DocumentView| #[trigger]
            listed.contains(record) <==> {
                &&& st4.records(roles).contains(record)
                &&& record.kind() == Some(Kind::Role)
                &&& ids.contains(record.id())
            });
        // What is found is exactly what is attached.
        assert forall|role: RoleView| #[trigger]
            attached(storage, config, user, role) <==> found.contains(role) by {
            let record = DocumentView::Role(role);
            if found.contains(role) {
                let i = found.index_of(role);
                assert(listed[i] == record);
                assert(listed.contains(record));
            }
            if attached(storage, config, user, role) {
                assert(listed.contains(record));
                let i = listed.index_of(record);
                assert(found[i] == role);
            }
        }
        if found.len() == 0 {
            assert(s5 == StepView::<SessionView, ResponseView, ResponseView>::Done(
                ResponseView::user(shown_user),
            ));
            assert forall|role: RoleView| !attached(storage, config, user, role) by {
                if found.contains(role) {
                    let i = found.index_of(role);
                }
            }
        } else {
            assert(s5 == presented(
                config.resolve(shown_user, found, 0, Seq::empty(), t4[0]),
            ));
            resolved_roles_are_all_shown(
                config,
                shown_user,
                found,
                0,
                Seq::empty(),
                t4[0],
                st5,
                r5,
                t5,
            );
            let end = play_stamped(resume, s5, st5, r5, t5).0;
            let response = end->Done_0;
            let shown = response.body->User_0.roles->0;
            found_roles_are_listed_exactly(shown, found, storage, config, user);
        }
    }
}

/// How the identification of a caller takes a reply and a new stamp.
pub open spec fn identifying(config: ConfigView) -> spec_fn(
    ExtractionView,
    ReplyView,
    Stamp,
) -> StepView<ExtractionView, Seq<char>, ()> {
    |state: ExtractionView, reply: ReplyView, stamp: Stamp|
        config.resume_get_user_id(state, reply, stamp)
}

/// A caller whose token is valid and names, by email, one enabled user of
/// the store is identified as that user, where the store does not fail.
pub proof fn caller_is_identified_by_email(
    config: ConfigView,
    authorization: Option<Seq<char>>,
    subject: Seq<char>,
    user: UserView,
    storage: Storage,
    replies: Seq<ReplyView>,
    stamps: Seq<Stamp>,
)
    requires
        config.ledger != config.users.collection,
        verification(authorization) is Some,
        replies.len() == stamps.len(),
        replies.len() > 0,
        replies[0] == ReplyView::Subject(Some(subject)),
        is_the_user_of(storage, config, user, subject),
        unfailing(replies),
        honest_stamped(
            identifying(config),
            config.get_user_id_from_token(authorization),
            storage,
            replies,
            stamps,
        ),
        play_stamped(
            identifying(config),
            config.get_user_id_from_token(authorization),
            storage,
            replies,
            stamps,
        ).0.is_finished(),
    ensures
        play_stamped(
            identifying(config),
            config.get_user_id_from_token(authorization),
            storage,
            replies,
            stamps,
        ).0 == StepView::<ExtractionView, Seq<char>, ()>::Done(user.id),
{
    reveal_with_fuel(play_stamped, 4);
    reveal_with_fuel(honest_stamped, 4);
    let resume = identifying(config);
    let users = config.users.collection;
    let s0 = config.get_user_id_from_token(authorization);
    let s1 = resume(s0->Ask_0, replies[0], stamps[0]);
    let r1 = replies.drop_first();
    let t1 = stamps.drop_first();
    unfailing_rest(replies);
    assert(s1 is Ask);
    assert(r1.len() > 0);
    unfailing_rest(r1);
    let s2 = resume(s1->Ask_0, r1[0], t1[0]);
    let st2 = storage.after(s1->Ask_1, r1[0]);
    spared_collection_is_unchanged(storage, s1->Ask_1, r1[0], users);
    let r2 = r1.drop_first();
    assert(s2 is Ask);
    assert(r2.len() > 0);
    unfailing_rest(r2);
    let at = storage.records(users).index_of(DocumentView::User(user));
    assert(storage.records(users)[at].has(Kind::User, Field::Email, subject));
    assert(st2.holds(users, Kind::User, Field::Email, subject));
    assert(r2[0] == ReplyView::User(Some(user))) by {
        let record = r2[0].found(Kind::User)->0->0;
        let i = st2.records(users).index_of(record);
        assert(storage.records(users)[i] == record);
    }
}

} // verus!

//! Uniqueness of the names of roles.

use crate::protocol::{DocumentView, ErrorKind, FailureView, Field, Kind, ReplyView, StepView};
use crate::repository::role::{
    CreationView, ErrorView, RoleRepositoryView, RoleView, RevisionView,
};
use crate::storage::{honest, play, unfailing, Storage};
use vstd::prelude::*;

verus! {

/// Whether the error is a duplicate name, or a failure that the store itself
/// reported.
pub open spec fn name_taken_or_store_failed(error: ErrorView) -> bool {
    ||| error == ErrorView::NameAlreadyTaken
    ||| error matches ErrorView::MongoDbError(FailureView::Backend(_))
}

/// Where the store holds a role with the name, the creation of a
/// role with that name is refused as a duplicate and writes nothing.
/// Only a failure of the store can put another error in its place.
pub proof fn create_refuses_taken_name(
    repository: RoleRepositoryView,
    role: RoleView,
    storage: Storage,
    replies: Seq<ReplyView>,
)
    requires
        role.name.len() > 0,
        storage.holds(repository.collection, Kind::Role, Field::Name, role.name),
        honest(repository.creating(), repository.create(role), storage, replies),
        play(repository.creating(), repository.create(role), storage, replies).0.is_finished(),
    ensures
        ({
            let end = play(repository.creating(), repository.create(role), storage, replies);
            &&& end.0 matches StepView::Failed(error) && name_taken_or_store_failed(error)
            &&& unfailing(replies) ==> end.0 == StepView::<
                CreationView,
                RoleView,
                ErrorView,
            >::Failed(ErrorView::NameAlreadyTaken)
            &&& end.1 == storage
        }),
{
    reveal_with_fuel(play, 3);
    reveal_with_fuel(honest, 3);
}

/// A creation that succeeds has added exactly the new role to the
/// collection, and hands back a stored role with the new one's
/// identifier. The name was not empty and nobody had it.
pub proof fn create_stores_the_role(
    repository: RoleRepositoryView,
    role: RoleView,
    storage: Storage,
    replies: Seq<ReplyView>,
)
    requires
        honest(repository.creating(), repository.create(role), storage, replies),
        play(repository.creating(), repository.create(role), storage, replies).0 is Done,
    ensures
        ({
            let end = play(repository.creating(), repository.create(role), storage, replies);
            &&& end.1 == storage.inserted(
                repository.collection,
                DocumentView::Role(role),
            )
            &&& end.0 matches StepView::Done(stored) && stored.id == role.id
            &&& role.name.len() > 0
            &&& !storage.holds(
                repository.collection,
                Kind::Role,
                Field::Name,
                role.name,
            )
        }),
{
    reveal_with_fuel(play, 5);
    reveal_with_fuel(honest, 5);
}

/// Two roles with one name cannot both be created: once the first
/// creation has succeeded, the second is refused as a duplicate.
pub proof fn second_role_with_same_name_is_refused(
    repository: RoleRepositoryView,
    first: RoleView,
    second: RoleView,
    storage: Storage,
    replies: Seq<ReplyView>,
    later: Seq<ReplyView>,
)
    requires
        first.name == second.name,
        honest(repository.creating(), repository.create(first), storage, replies),
        play(repository.creating(), repository.create(first), storage, replies).0 is Done,
        honest(
            repository.creating(),
            repository.create(second),
            play(repository.creating(), repository.create(first), storage, replies).1,
            later,
        ),
        play(
            repository.creating(),
            repository.create(second),
            play(repository.creating(), repository.create(first), storage, replies).1,
            later,
        ).0.is_finished(),
    ensures
        ({
            let between = play(repository.creating(), repository.create(first), storage, replies).1;
            let end = play(repository.creating(), repository.create(second), between, later);
            &&& end.0 matches StepView::Failed(error) && name_taken_or_store_failed(error)
            &&& unfailing(later) ==> end.0 == StepView::<
                CreationView,
                RoleView,
                ErrorView,
            >::Failed(ErrorView::NameAlreadyTaken)
            &&& end.1 == between
        }),
{
    create_stores_the_role(repository, first, storage, replies);
    let between = play(repository.creating(), repository.create(first), storage, replies).1;
    let records = between.records(repository.collection);
    assert(records == storage.records(repository.collection).push(
        DocumentView::Role(first),
    ));
    assert(records[records.len() - 1].has(Kind::Role, Field::Name, second.name));
    create_refuses_taken_name(repository, second, between, later);
}

/// An update that would give a role the name of another is refused
/// as a duplicate and writes nothing. Only a failure of the store can put
/// another error in its place.
pub proof fn update_refuses_name_of_another(
    repository: RoleRepositoryView,
    role: RoleView,
    storage: Storage,
    replies: Seq<ReplyView>,
)
    requires
        role.name.len() > 0,
        storage.held_by_another(
            repository.collection,
            Kind::Role,
            Field::Name,
            role.name,
            role.id,
        ),
        honest(repository.revising(), repository.update(role), storage, replies),
        play(repository.revising(), repository.update(role), storage, replies).0.is_finished(),
    ensures
        ({
            let end = play(repository.revising(), repository.update(role), storage, replies);
            &&& end.0 matches StepView::Failed(error) && name_taken_or_store_failed(error)
            &&& unfailing(replies) ==> (end.0 matches StepView::Failed(error) && error.kind()
                == ErrorKind::DuplicateKey)
            &&& end.1 == storage
        }),
{
    reveal_with_fuel(play, 3);
    reveal_with_fuel(honest, 3);
}

/// An update that leaves a stored role its own name, or takes one
/// that nobody has, succeeds where the store does not fail. It writes the
/// new values to the role's record and to no other.
pub proof fn update_keeping_own_name_succeeds(
    repository: RoleRepositoryView,
    role: RoleView,
    storage: Storage,
    replies: Seq<ReplyView>,
)
    requires
        role.name.len() > 0,
        storage.holds(repository.collection, Kind::Role, Field::Id, role.id),
        storage.only_held_by(
            repository.collection,
            Kind::Role,
            Field::Name,
            role.name,
            role.id,
        ),
        unfailing(replies),
        honest(repository.revising(), repository.update(role), storage, replies),
        play(repository.revising(), repository.update(role), storage, replies).0.is_finished(),
    ensures
        ({
            let end = play(repository.revising(), repository.update(role), storage, replies);
            &&& end.0 matches StepView::Done(stored) && stored.id == role.id
            &&& end.1 == storage.updated(
                repository.collection,
                DocumentView::Role(role),
            )
        }),
{
    reveal_with_fuel(play, 4);
    reveal_with_fuel(honest, 4);
    assert(!(replies[0] is Failed));
    if replies.len() > 1 {
        assert(!(replies[1] is Failed));
    }
}

/// An update of a role that the store does not hold ends as not found
/// and changes nothing, where the name is free and the store does not fail.
pub proof fn update_of_unknown_role_is_not_found(
    repository: RoleRepositoryView,
    role: RoleView,
    storage: Storage,
    replies: Seq<ReplyView>,
)
    requires
        role.name.len() > 0,
        !storage.holds(repository.collection, Kind::Role, Field::Id, role.id),
        storage.only_held_by(
            repository.collection,
            Kind::Role,
            Field::Name,
            role.name,
            role.id,
        ),
        unfailing(replies),
        honest(repository.revising(), repository.update(role), storage, replies),
        play(repository.revising(), repository.update(role), storage, replies).0.is_finished(),
    ensures
        ({
            let end = play(repository.revising(), repository.update(role), storage, replies);
            &&& end.0 == StepView::<RevisionView, RoleView, ErrorView>::Failed(
                ErrorView::RoleNotFound,
            )
            &&& end.1.records(repository.collection) =~= storage.records(repository.collection)
        }),
{
    reveal_with_fuel(play, 4);
    reveal_with_fuel(honest, 4);
    assert(!(replies[0] is Failed));
    if replies.len() > 1 {
        assert(!(replies[1] is Failed));
    }
}

} // verus!

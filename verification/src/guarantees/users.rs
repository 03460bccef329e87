//! Uniqueness of usernames and emails.

use crate::protocol::{DocumentView, ErrorKind, FailureView, Field, Kind, ReplyView, StepView};
use crate::repository::user::{
    CreationView, ErrorView, RevisionView, UserRepositoryView, UserView,
};
use crate::storage::{honest, play, unfailing, Storage};
use vstd::prelude::*;

verus! {

/// Whether the error is a duplicate username, or a failure that the store
/// itself reported.
pub open spec fn username_taken_or_store_failed(error: ErrorView) -> bool {
    ||| error == ErrorView::UsernameAlreadyTaken
    ||| error matches ErrorView::MongoDbError(FailureView::Backend(_))
}

/// Whether the error is a duplicate email, or a failure that the store
/// itself reported.
pub open spec fn email_taken_or_store_failed(error: ErrorView) -> bool {
    ||| error == ErrorView::EmailAlreadyTaken
    ||| error matches ErrorView::MongoDbError(FailureView::Backend(_))
}

/// Where the store holds a user with the username, the creation of a user
/// with that username is refused as a duplicate and writes nothing. Only a
/// failure of the store can put another error in its place.
pub proof fn create_refuses_taken_username(
    repository: UserRepositoryView,
    user: UserView,
    storage: Storage,
    replies: Seq<ReplyView>,
)
    requires
        user.username.len() > 0,
        storage.holds(repository.collection, Kind::User, Field::Username, user.username),
        honest(repository.creating(), repository.create(user), storage, replies),
        play(repository.creating(), repository.create(user), storage, replies).0.is_finished(),
    ensures
        ({
            let end = play(repository.creating(), repository.create(user), storage, replies);
            &&& end.0 matches StepView::Failed(error) && username_taken_or_store_failed(error)
            &&& unfailing(replies) ==> end.0 == StepView::<CreationView, UserView, ErrorView>::Failed(
                ErrorView::UsernameAlreadyTaken,
            )
            &&& end.1 == storage
        }),
{
    reveal_with_fuel(play, 3);
    reveal_with_fuel(honest, 3);
}

/// A creation that succeeds has added exactly the new user to the
/// collection, and hands back a stored user with the new user's identifier.
pub proof fn create_stores_the_user(
    repository: UserRepositoryView,
    user: UserView,
    storage: Storage,
    replies: Seq<ReplyView>,
)
    requires
        honest(repository.creating(), repository.create(user), storage, replies),
        play(repository.creating(), repository.create(user), storage, replies).0 is Done,
    ensures
        ({
            let end = play(repository.creating(), repository.create(user), storage, replies);
            &&& end.1 == storage.inserted(repository.collection, DocumentView::User(user))
            &&& end.0 matches StepView::Done(stored) && stored.id == user.id
            &&& user.username.len() > 0
            &&& user.email.len() > 0
            &&& !storage.holds(repository.collection, Kind::User, Field::Username, user.username)
            &&& !storage.holds(repository.collection, Kind::User, Field::Email, user.email)
        }),
{
    reveal_with_fuel(play, 6);
    reveal_with_fuel(honest, 6);
}

/// Two users with one username cannot both be created: once the first
/// creation has succeeded, the second is refused as a duplicate, whatever
/// else the two users hold.
pub proof fn second_user_with_same_username_is_refused(
    repository: UserRepositoryView,
    first: UserView,
    second: UserView,
    storage: Storage,
    replies: Seq<ReplyView>,
    later: Seq<ReplyView>,
)
    requires
        first.username == second.username,
        honest(repository.creating(), repository.create(first), storage, replies),
        play(repository.creating(), repository.create(first), storage, replies).0 is Done,
        honest(
            repository.creating(),
            repository.create(second),
            play(repository.creating(), repository.create(first), storage, replies).1,
            later,
        ),
        play(
            repository.creating(),
            repository.create(second),
            play(repository.creating(), repository.create(first), storage, replies).1,
            later,
        ).0.is_finished(),
    ensures
        ({
            let between = play(repository.creating(), repository.create(first), storage, replies).1;
            let end = play(repository.creating(), repository.create(second), between, later);
            &&& end.0 matches StepView::Failed(error) && username_taken_or_store_failed(error)
            &&& unfailing(later) ==> end.0 == StepView::<CreationView, UserView, ErrorView>::Failed(
                ErrorView::UsernameAlreadyTaken,
            )
            &&& end.1 == between
        }),
{
    create_stores_the_user(repository, first, storage, replies);
    let between = play(repository.creating(), repository.create(first), storage, replies).1;
    let records = between.records(repository.collection);
    assert(records == storage.records(repository.collection).push(DocumentView::User(first)));
    assert(records[records.len() - 1].has(Kind::User, Field::Username, second.username));
    create_refuses_taken_username(repository, second, between, later);
}

/// An update that would give a user the username or the email of another
/// user is refused as a duplicate and writes nothing. Only a failure of the
/// store can put another error in its place.
pub proof fn update_refuses_key_of_another(
    repository: UserRepositoryView,
    user: UserView,
    now: Seq<char>,
    storage: Storage,
    replies: Seq<ReplyView>,
)
    requires
        user.username.len() > 0,
        user.email.len() > 0,
        storage.held_by_another(
            repository.collection,
            Kind::User,
            Field::Username,
            user.username,
            user.id,
        ) || storage.held_by_another(
            repository.collection,
            Kind::User,
            Field::Email,
            user.email,
            user.id,
        ),
        honest(repository.revising(now), repository.update(user), storage, replies),
        play(repository.revising(now), repository.update(user), storage, replies).0.is_finished(),
    ensures
        ({
            let end = play(repository.revising(now), repository.update(user), storage, replies);
            &&& end.0 matches StepView::Failed(error) && {
                ||| error.kind() == ErrorKind::DuplicateKey
                ||| error matches ErrorView::MongoDbError(FailureView::Backend(_))
            }
            &&& unfailing(replies) ==> (end.0 matches StepView::Failed(error) && error.kind()
                == ErrorKind::DuplicateKey)
            &&& end.1 == storage
        }),
{
    reveal_with_fuel(play, 4);
    reveal_with_fuel(honest, 4);
}

/// An update that leaves a stored user its own username and email, or takes
/// ones that nobody has, succeeds where the store does not fail. It writes
/// the new values, stamped with the time of the update, to the user's record
/// and to no other.
pub proof fn update_keeping_own_keys_succeeds(
    repository: UserRepositoryView,
    user: UserView,
    now: Seq<char>,
    storage: Storage,
    replies: Seq<ReplyView>,
)
    requires
        user.username.len() > 0,
        user.email.len() > 0,
        storage.holds(repository.collection, Kind::User, Field::Id, user.id),
        storage.only_held_by(
            repository.collection,
            Kind::User,
            Field::Username,
            user.username,
            user.id,
        ),
        storage.only_held_by(repository.collection, Kind::User, Field::Email, user.email, user.id),
        unfailing(replies),
        honest(repository.revising(now), repository.update(user), storage, replies),
        play(repository.revising(now), repository.update(user), storage, replies).0.is_finished(),
    ensures
        ({
            let end = play(repository.revising(now), repository.update(user), storage, replies);
            &&& end.0 matches StepView::Done(stored) && stored.id == user.id
            &&& end.1 == storage.updated(
                repository.collection,
                DocumentView::User(UserView { updated_at: now, ..user }),
            )
        }),
{
    reveal_with_fuel(play, 5);
    reveal_with_fuel(honest, 5);
    assert(!(replies[0] is Failed));
    if replies.len() > 1 {
        assert(!(replies[1] is Failed));
    }
    if replies.len() > 2 {
        assert(!(replies[2] is Failed));
    }
}

/// An update of a user that the store does not hold ends as not found and
/// changes nothing, where the keys are free and the store does not fail.
pub proof fn update_of_unknown_user_is_not_found(
    repository: UserRepositoryView,
    user: UserView,
    now: Seq<char>,
    storage: Storage,
    replies: Seq<ReplyView>,
)
    requires
        user.username.len() > 0,
        user.email.len() > 0,
        !storage.holds(repository.collection, Kind::User, Field::Id, user.id),
        storage.only_held_by(
            repository.collection,
            Kind::User,
            Field::Username,
            user.username,
            user.id,
        ),
        storage.only_held_by(repository.collection, Kind::User, Field::Email, user.email, user.id),
        unfailing(replies),
        honest(repository.revising(now), repository.update(user), storage, replies),
        play(repository.revising(now), repository.update(user), storage, replies).0.is_finished(),
    ensures
        ({
            let end = play(repository.revising(now), repository.update(user), storage, replies);
            &&& end.0 == StepView::<RevisionView, UserView, ErrorView>::Failed(
                ErrorView::UserNotFound,
            )
            &&& end.1.records(repository.collection) =~= storage.records(repository.collection)
        }),
{
    reveal_with_fuel(play, 5);
    reveal_with_fuel(honest, 5);
    assert(!(replies[0] is Failed));
    if replies.len() > 1 {
        assert(!(replies[1] is Failed));
    }
    if replies.len() > 2 {
        assert(!(replies[2] is Failed));
    }
}

} // verus!

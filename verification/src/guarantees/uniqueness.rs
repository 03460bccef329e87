//! Natural keys and identifiers stay unique.

use crate::protocol::{DocumentView, Field, Kind, ReplyView};
use crate::repository::user::{UserRepositoryView, UserView};
use crate::storage::{honest, play, Storage};
use vstd::prelude::*;

verus! {

impl Storage {
    /// Whether no two records of the kind have the same value in the field.
    pub open spec fn unique(self, collection: Seq<char>, kind: Kind, field: Field) -> bool {
        forall|i: int, j: int|
            #![trigger self.records(collection)[i], self.records(collection)[j]]
            0 <= i < self.records(collection).len() && 0 <= j < self.records(collection).len()
                && self.records(collection)[i].kind() == Some(kind) && self.records(
                collection,
            )[j].kind() == Some(kind) && self.records(collection)[i].field(field) == self.records(
                collection,
            )[j].field(field) ==> i == j
    }

    /// Whether the users of a collection are told apart by identifier, by
    /// username and by email.
    pub open spec fn users_are_distinct(self, collection: Seq<char>) -> bool {
        &&& self.unique(collection, Kind::User, Field::Id)
        &&& self.unique(collection, Kind::User, Field::Username)
        &&& self.unique(collection, Kind::User, Field::Email)
    }
}

/// A record whose value in a field nobody has can be added without two
/// records sharing a value in that field.
pub proof fn insertion_of_a_free_key_keeps_unique(
    storage: Storage,
    collection: Seq<char>,
    document: DocumentView,
    kind: Kind,
    field: Field,
)
    requires
        storage.unique(collection, kind, field),
        document.kind() == Some(kind) ==> (document.field(field) matches Some(value)
            && !storage.holds(collection, kind, field, value)),
    ensures
        storage.inserted(collection, document).unique(collection, kind, field),
{
    let before = storage.records(collection);
    let after = storage.inserted(collection, document).records(collection);
    assert(after == before.push(document));
    assert forall|i: int, j: int|
        #![trigger after[i], after[j]]
        0 <= i < after.len() && 0 <= j < after.len() && after[i].kind() == Some(kind)
            && after[j].kind() == Some(kind) && after[i].field(field) == after[j].field(
            field,
        ) implies i == j by {
        if i < before.len() && j < before.len() {
            assert(before[i] == after[i] && before[j] == after[j]);
        } else if i < before.len() {
            assert(before[i].has(kind, field, document.field(field)->0));
        } else if j < before.len() {
            assert(before[j].has(kind, field, document.field(field)->0));
        }
    }
}

/// The creation of a user keeps the users distinct, however far it gets and
/// however it ends: no two users come to share an identifier, a username or
/// an email.
pub proof fn create_keeps_users_distinct(
    repository: UserRepositoryView,
    user: UserView,
    storage: Storage,
    replies: Seq<ReplyView>,
)
    requires
        storage.users_are_distinct(repository.collection),
        honest(repository.creating(), repository.create(user), storage, replies),
    ensures
        play(
            repository.creating(),
            repository.create(user),
            storage,
            replies,
        ).1.users_are_distinct(repository.collection),
{
    reveal_with_fuel(play, 6);
    reveal_with_fuel(honest, 6);
    let end = play(repository.creating(), repository.create(user), storage, replies).1;
    let document = DocumentView::User(user);
    if end != storage {
        assert(end == storage.inserted(repository.collection, document));
        assert(!storage.holds(repository.collection, Kind::User, Field::Username, user.username));
        assert(!storage.holds(repository.collection, Kind::User, Field::Email, user.email));
        assert(!storage.holds(repository.collection, Kind::User, Field::Id, user.id)) by {
            if storage.holds(repository.collection, Kind::User, Field::Id, user.id) {
                let at = choose|at: int|
                    0 <= at < storage.records(repository.collection).len() && (
                    #[trigger] storage.records(repository.collection)[at]).has(
                        Kind::User,
                        Field::Id,
                        user.id,
                    );
                assert(storage.records(repository.collection)[at].id() == document.id());
            }
        }
        insertion_of_a_free_key_keeps_unique(
            storage,
            repository.collection,
            document,
            Kind::User,
            Field::Id,
        );
        insertion_of_a_free_key_keeps_unique(
            storage,
            repository.collection,
            document,
            Kind::User,
            Field::Username,
        );
        insertion_of_a_free_key_keeps_unique(
            storage,
            repository.collection,
            document,
            Kind::User,
            Field::Email,
        );
    }
}

/// Writing new values to the one record that has an identifier keeps a key
/// unique where the new value of the key is free or that record's own.
pub proof fn update_with_own_or_free_key_keeps_unique(
    storage: Storage,
    collection: Seq<char>,
    change: UserView,
    field: Field,
)
    requires
        field == Field::Username || field == Field::Email,
        storage.unique(collection, Kind::User, Field::Id),
        storage.unique(collection, Kind::User, field),
        storage.only_held_by(
            collection,
            Kind::User,
            field,
            DocumentView::User(change).field(field)->0,
            change.id,
        ),
    ensures
        storage.updated(collection, DocumentView::User(change)).unique(
            collection,
            Kind::User,
            field,
        ),
        storage.updated(collection, DocumentView::User(change)).unique(
            collection,
            Kind::User,
            Field::Id,
        ),
{
    let document = DocumentView::User(change);
    let before = storage.records(collection);
    let after = storage.updated(collection, document).records(collection);
    assert(after.len() == before.len());
    assert forall|i: int| 0 <= i < after.len() implies #[trigger] after[i].id() == before[i].id()
        && after[i].kind() == before[i].kind() by {}
    assert forall|i: int, j: int|
        #![trigger after[i], after[j]]
        0 <= i < after.len() && 0 <= j < after.len() && after[i].kind() == Some(Kind::User)
            && after[j].kind() == Some(Kind::User) && after[i].field(field) == after[j].field(
            field,
        ) implies i == j by {
        let changed_i = before[i].id() == change.id;
        let changed_j = before[j].id() == change.id;
        assert(before[i].kind() == Some(Kind::User) && before[j].kind() == Some(Kind::User));
        if changed_i && changed_j {
            assert(before[i].field(Field::Id) == before[j].field(Field::Id));
        } else if changed_i {
            assert(after[j] == before[j]);
            assert(before[j].has(Kind::User, field, document.field(field)->0));
        } else if changed_j {
            assert(after[i] == before[i]);
            assert(before[i].has(Kind::User, field, document.field(field)->0));
        } else {
            assert(after[i] == before[i] && after[j] == before[j]);
        }
    }
    assert forall|i: int, j: int|
        #![trigger after[i], after[j]]
        0 <= i < after.len() && 0 <= j < after.len() && after[i].kind() == Some(Kind::User)
            && after[j].kind() == Some(Kind::User) && after[i].field(Field::Id) == after[j].field(
            Field::Id,
        ) implies i == j by {
        assert(before[i].field(Field::Id) == before[j].field(Field::Id));
    }
}

/// The update of a user keeps the users distinct, however far it gets and
/// however it ends.
pub proof fn update_keeps_users_distinct(
    repository: UserRepositoryView,
    user: UserView,
    now: Seq<char>,
    storage: Storage,
    replies: Seq<ReplyView>,
)
    requires
        storage.users_are_distinct(repository.collection),
        honest(repository.revising(now), repository.update(user), storage, replies),
    ensures
        play(
            repository.revising(now),
            repository.update(user),
            storage,
            replies,
        ).1.users_are_distinct(repository.collection),
{
    reveal_with_fuel(play, 5);
    reveal_with_fuel(honest, 5);
    let collection = repository.collection;
    let end = play(repository.revising(now), repository.update(user), storage, replies).1;
    let change = UserView { updated_at: now, ..user };
    if end != storage {
        assert(end == storage.updated(collection, DocumentView::User(change)));
        let records = storage.records(collection);
        assert(storage.only_held_by(collection, Kind::User, Field::Username, user.username, user.id))
            by {
            assert forall|i: int|
                0 <= i < records.len() && (#[trigger] records[i]).has(
                    Kind::User,
                    Field::Username,
                    user.username,
                ) implies records[i].id() == user.id by {
                let holder = replies[0]->User_0;
                if holder is Some {
                    let at = records.index_of(DocumentView::User(holder->0));
                    assert(records[at].field(Field::Username) == records[i].field(Field::Username));
                } else {
                    assert(!storage.holds(collection, Kind::User, Field::Username, user.username));
                }
            }
        }
        assert(storage.only_held_by(collection, Kind::User, Field::Email, user.email, user.id)) by {
            assert forall|i: int|
                0 <= i < records.len() && (#[trigger] records[i]).has(
                    Kind::User,
                    Field::Email,
                    user.email,
                ) implies records[i].id() == user.id by {
                let holder = replies[1]->User_0;
                if holder is Some {
                    let at = records.index_of(DocumentView::User(holder->0));
                    assert(records[at].field(Field::Email) == records[i].field(Field::Email));
                } else {
                    assert(!storage.holds(collection, Kind::User, Field::Email, user.email));
                }
            }
        }
        update_with_own_or_free_key_keeps_unique(storage, collection, change, Field::Username);
        update_with_own_or_free_key_keeps_unique(storage, collection, change, Field::Email);
    }
}

} // verus!

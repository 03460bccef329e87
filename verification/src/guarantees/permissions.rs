//! A deleted permission is granted by no role.

use crate::guarantees::ledger::{audited_run_follows_operation, auditing};
use crate::protocol::{DocumentView, Field, Kind, ReplyView};
use crate::repository::audit::AuditView;
use crate::repository::permission::PermissionRepositoryView;
use crate::repository::role::RoleRepositoryView;
use crate::services::audit::audited;
use crate::services::permission::refused;
use crate::storage::{honest, play, Storage};
use vstd::prelude::*;

verus! {

impl Storage {
    /// Whether no role of a collection grants the permission.
    pub open spec fn grants_nowhere(self, collection: Seq<char>, permission_id: Seq<char>) -> bool {
        forall|i: int|
            0 <= i < self.records(collection).len() ==> !(
            #[trigger] self.records(collection)[i] matches DocumentView::Role(role) && role.grants(
                permission_id,
            ))
    }
}

/// Once a permission is taken out of every role of a collection, no role
/// there grants it, and the collection holds as many records as before.
pub proof fn detached_permission_is_granted_nowhere(
    storage: Storage,
    collection: Seq<char>,
    permission_id: Seq<char>,
)
    ensures
        storage.detached(collection, permission_id).grants_nowhere(collection, permission_id),
        storage.detached(collection, permission_id).records(collection).len() == storage.records(
            collection,
        ).len(),
{
    let after = storage.detached(collection, permission_id);
    assert forall|i: int| 0 <= i < after.records(collection).len() implies !(
    #[trigger] after.records(collection)[i] matches DocumentView::Role(role) && role.grants(
        permission_id,
    )) by {
        let before = storage.records(collection)[i];
        assert(after.records(collection)[i] == before.detached(permission_id));
        if let DocumentView::Role(role) = before {
            if let Some(ids) = role.permissions {
                let kept = ids.filter(|id: Seq<char>| id != permission_id);
                if kept.contains(permission_id) {
                    let at = choose|at: int| 0 <= at < kept.len() && kept[at] == permission_id;
                    ids.lemma_filter_pred(|id: Seq<char>| id != permission_id, at);
                }
            }
        }
    }
}

/// A deletion that is done has deleted the permission and taken it out of
/// every role: afterwards the collection of permissions holds no record
/// with the identifier, and no role grants it.
pub proof fn deleted_permission_is_detached(
    repository: PermissionRepositoryView,
    roles: RoleRepositoryView,
    id: Seq<char>,
    storage: Storage,
    replies: Seq<ReplyView>,
)
    requires
        honest(repository.deleting(roles), repository.delete(id), storage, replies),
        play(repository.deleting(roles), repository.delete(id), storage, replies).0 is Done,
    ensures
        ({
            let end = play(repository.deleting(roles), repository.delete(id), storage, replies);
            &&& end.1 == storage.deleted(repository.collection, id).detached(roles.collection, id)
            &&& end.1.grants_nowhere(roles.collection, id)
            &&& !end.1.holds(repository.collection, Kind::Permission, Field::Id, id)
        }),
{
    reveal_with_fuel(play, 4);
    reveal_with_fuel(honest, 4);
    let deleted = storage.deleted(repository.collection, id);
    let end = deleted.detached(roles.collection, id);
    detached_permission_is_granted_nowhere(deleted, roles.collection, id);
    assert forall|i: int| 0 <= i < deleted.records(repository.collection).len() implies (
    #[trigger] deleted.records(repository.collection)[i]).id() != id by {
        storage.records(repository.collection).lemma_filter_pred(
            |record: DocumentView| record.id() != id,
            i,
        );
    }
    assert forall|i: int| 0 <= i < end.records(repository.collection).len() implies !(
    #[trigger] end.records(repository.collection)[i]).has(Kind::Permission, Field::Id, id) by {
        if roles.collection == repository.collection {
            assert(end.records(repository.collection)[i] == deleted.records(
                repository.collection,
            )[i].detached(id));
        }
    }
}

/// The audited deletion of a permission that is done has entered the
/// deletion in the ledger, deleted the permission, and taken it out of every
/// role.
pub proof fn audited_deletion_detaches_permission(
    repository: PermissionRepositoryView,
    roles: RoleRepositoryView,
    ledger: Seq<char>,
    entry: AuditView,
    id: Seq<char>,
    storage: Storage,
    replies: Seq<ReplyView>,
)
    requires
        honest(
            auditing(repository.deleting(roles), refused()),
            audited(ledger, entry, repository.delete(id)),
            storage,
            replies,
        ),
        play(
            auditing(repository.deleting(roles), refused()),
            audited(ledger, entry, repository.delete(id)),
            storage,
            replies,
        ).0 is Done,
    ensures
        ({
            let end = play(
                auditing(repository.deleting(roles), refused()),
                audited(ledger, entry, repository.delete(id)),
                storage,
                replies,
            );
            &&& end.1 == storage.inserted(ledger, DocumentView::Audit(entry)).deleted(
                repository.collection,
                id,
            ).detached(roles.collection, id)
            &&& end.1.grants_nowhere(roles.collection, id)
            &&& !end.1.holds(repository.collection, Kind::Permission, Field::Id, id)
        }),
{
    reveal_with_fuel(play, 2);
    reveal_with_fuel(honest, 2);
    audited_run_follows_operation(
        ledger,
        entry,
        repository.delete(id),
        repository.deleting(roles),
        refused(),
        storage,
        replies,
    );
    deleted_permission_is_detached(
        repository,
        roles,
        id,
        storage.inserted(ledger, DocumentView::Audit(entry)),
        replies.drop_first(),
    );
}

} // verus!

//! Every repository keeps to its own collection.

use crate::guarantees::ledger::{confined, sparing};
use crate::repository::permission::{PermissionRepositoryView, PermissionView};
use crate::repository::role::{RoleRepositoryView, RoleView};
use crate::repository::user::{UserRepositoryView, UserView};
use vstd::prelude::*;

verus! {

/// No operation on users changes a collection other than the repository's
/// own.
pub proof fn user_operations_are_confined(repository: UserRepositoryView, collection: Seq<char>)
    requires
        repository.collection != collection,
    ensures
        confined(repository.creating(), collection),
        forall|now: Seq<char>| confined(#[trigger] repository.revising(now), collection),
        confined(repository.finding(), collection),
        confined(repository.listing(), collection),
        confined(repository.deleting(), collection),
        forall|user: UserView| sparing(#[trigger] repository.create(user), collection),
        forall|user: UserView| sparing(#[trigger] repository.update(user), collection),
        forall|id: Seq<char>| sparing(#[trigger] repository.find_by_id(id), collection),
        forall|name: Seq<char>| sparing(#[trigger] repository.find_by_username(name), collection),
        forall|email: Seq<char>| sparing(#[trigger] repository.find_by_email(email), collection),
        forall|ids: Seq<Seq<char>>| sparing(#[trigger] repository.find_by_id_vec(ids), collection),
        forall|text: Seq<char>| sparing(#[trigger] repository.search(text), collection),
        forall|id: Seq<char>| sparing(#[trigger] repository.delete(id), collection),
        sparing(repository.find_all(), collection),
{
}

/// No operation on roles changes a collection other than the repository's
/// own.
pub proof fn role_operations_are_confined(repository: RoleRepositoryView, collection: Seq<char>)
    requires
        repository.collection != collection,
    ensures
        confined(repository.creating(), collection),
        confined(repository.revising(), collection),
        confined(repository.finding(), collection),
        confined(repository.listing(), collection),
        confined(repository.deleting(), collection),
        forall|role: RoleView| sparing(#[trigger] repository.create(role), collection),
        forall|role: RoleView| sparing(#[trigger] repository.update(role), collection),
        forall|id: Seq<char>| sparing(#[trigger] repository.find_by_id(id), collection),
        forall|name: Seq<char>| sparing(#[trigger] repository.find_by_name(name), collection),
        forall|ids: Seq<Seq<char>>| sparing(#[trigger] repository.find_by_id_vec(ids), collection),
        forall|text: Seq<char>| sparing(#[trigger] repository.search(text), collection),
        forall|id: Seq<char>| sparing(#[trigger] repository.delete(id), collection),
        sparing(repository.find_all(), collection),
{
}

/// No operation on permissions changes a collection other than the
/// repository's own and, where a permission is deleted, that of the roles.
pub proof fn permission_operations_are_confined(
    repository: PermissionRepositoryView,
    roles: RoleRepositoryView,
    collection: Seq<char>,
)
    requires
        repository.collection != collection,
        roles.collection != collection,
    ensures
        confined(repository.creating(), collection),
        confined(repository.revising(), collection),
        confined(repository.finding(), collection),
        confined(repository.listing(), collection),
        confined(repository.deleting(roles), collection),
        forall|permission: PermissionView|
            sparing(#[trigger] repository.create(permission), collection),
        forall|permission: PermissionView|
            sparing(#[trigger] repository.update(permission), collection),
        forall|id: Seq<char>| sparing(#[trigger] repository.find_by_id(id), collection),
        forall|name: Seq<char>| sparing(#[trigger] repository.find_by_name(name), collection),
        forall|ids: Seq<Seq<char>>| sparing(#[trigger] repository.find_by_id_vec(ids), collection),
        forall|text: Seq<char>| sparing(#[trigger] repository.search(text), collection),
        forall|id: Seq<char>| sparing(#[trigger] repository.delete(id), collection),
        sparing(repository.find_all(), collection),
{
}

} // verus!

//! The permission service.

use crate::protocol::{copy_ids, FailureView, Pending, Reply, Step};
use crate::repository::audit::{Action, ResourceId, ResourceIdView, ResourceType};
use crate::repository::permission::{
    Creation, Error, ErrorView, Permission, PermissionRepository, PermissionRepositoryView,
    Removal, Revision,
};
use crate::services::audit::{audited_as, recorded, release, resume_audited, Audited, AuditService};
use crate::services::role::RoleService;
use vstd::prelude::*;

verus! {

/// Every operation on permissions, coupled to the ledger: the entry that
/// describes an operation is written first, and the operation is begun only
/// once that write has succeeded.
#[derive(Clone, Debug, PartialEq, Eq)]
pub struct PermissionService {
    pub permission_repository: PermissionRepository,
}

impl View for PermissionService {
    type V = PermissionRepositoryView;

    open spec fn view(&self) -> PermissionRepositoryView {
        self.permission_repository@
    }
}

/// The error of an operation whose entry could not be written.
pub open spec fn refused() -> spec_fn(FailureView) -> ErrorView {
    |failure: FailureView| ErrorView::Audit(failure)
}

impl PermissionService {
    /// A service over a repository.
    pub fn new(permission_repository: PermissionRepository) -> (service: PermissionService)
        ensures
            service.permission_repository == permission_repository,
    {
        PermissionService { permission_repository }
    }

    /// Begins the audited creation of a permission.
    pub fn create(&self, new_permission: Permission, user_id: &str, audit: &AuditService) -> (step:
        Step<Audited<Creation, Permission, Error>, Permission, Error>)
        ensures
            audited_as(
                step.deep_view(),
                audit@.collection,
                user_id@,
                Action::Create,
                ResourceIdView::Id(new_permission@.id),
                ResourceType::Permission,
                self@.create(new_permission@),
            ),
    {
        let resource = ResourceId::Id(new_permission.id.clone());
        let operation = self.permission_repository.create(new_permission);
        audit.guard(user_id, Action::Create, resource, ResourceType::Permission, operation)
    }

    /// Takes the audited creation of a permission one reply further.
    pub fn resume_create(
        &self,
        state: Audited<Creation, Permission, Error>,
        reply: Reply,
    ) -> (step: Step<Audited<Creation, Permission, Error>, Permission, Error>)
        ensures
            step.deep_view() == resume_audited(
                state.deep_view(),
                reply@,
                self@.creating(),
                refused(),
            ),
    {
        match state {
            Audited::Recording(operation) => match recorded(operation, reply) {
                Ok(step) => step,
                Err(failure) => Step::Failed(Error::Audit(failure)),
            },
            Audited::Running(inner) => release(
                self.permission_repository.resume_create(inner, reply),
            ),
        }
    }

    /// Begins the audited search for every permission.
    pub fn find_all(&self, user_id: &str, audit: &AuditService) -> (step: Step<
        Audited<Pending, Vec<Permission>, Error>,
        Vec<Permission>,
        Error,
    >)
        ensures
            audited_as(
                step.deep_view(),
                audit@.collection,
                user_id@,
                Action::Read,
                ResourceIdView::Unspecified,
                ResourceType::Permission,
                self@.find_all(),
            ),
    {
        let operation = self.permission_repository.find_all();
        audit.guard(
            user_id,
            Action::Read,
            ResourceId::Unspecified,
            ResourceType::Permission,
            operation,
        )
    }

    /// Begins the audited search for the permissions with the given
    /// identifiers.
    pub fn find_by_id_vec(&self, id_vec: Vec<String>, user_id: &str, audit: &AuditService) -> (step:
        Step<Audited<Pending, Vec<Permission>, Error>, Vec<Permission>, Error>)
        ensures
            audited_as(
                step.deep_view(),
                audit@.collection,
                user_id@,
                Action::Read,
                ResourceIdView::IdVec(id_vec.deep_view()),
                ResourceType::Permission,
                self@.find_by_id_vec(id_vec.deep_view()),
            ),
    {
        let resource = ResourceId::IdVec(copy_ids(&id_vec));
        let operation = self.permission_repository.find_by_id_vec(id_vec);
        audit.guard(user_id, Action::Read, resource, ResourceType::Permission, operation)
    }

    /// Begins the audited search for the permissions that match a text.
    pub fn search(&self, text: &str, user_id: &str, audit: &AuditService) -> (step: Step<
        Audited<Pending, Vec<Permission>, Error>,
        Vec<Permission>,
        Error,
    >)
        ensures
            audited_as(
                step.deep_view(),
                audit@.collection,
                user_id@,
                Action::Search,
                ResourceIdView::Text(text@),
                ResourceType::Permission,
                self@.search(text@),
            ),
    {
        let operation = self.permission_repository.search(text);
        audit.guard(
            user_id,
            Action::Search,
            ResourceId::Text(text.to_owned()),
            ResourceType::Permission,
            operation,
        )
    }

    /// Takes an audited search for several permissions one reply further.
    pub fn resume_list(
        &self,
        state: Audited<Pending, Vec<Permission>, Error>,
        reply: Reply,
    ) -> (step: Step<Audited<Pending, Vec<Permission>, Error>, Vec<Permission>, Error>)
        ensures
            step.deep_view() == resume_audited(
                state.deep_view(),
                reply@,
                self@.listing(),
                refused(),
            ),
    {
        match state {
            Audited::Recording(operation) => match recorded(operation, reply) {
                Ok(step) => step,
                Err(failure) => Step::Failed(Error::Audit(failure)),
            },
            Audited::Running(_) => release(self.permission_repository.resume_list(reply)),
        }
    }

    /// Begins the audited search for the permission with an identifier.
    pub fn find_by_id(&self, id: &str, user_id: &str, audit: &AuditService) -> (step: Step<
        Audited<Pending, Option<Permission>, Error>,
        Option<Permission>,
        Error,
    >)
        ensures
            audited_as(
                step.deep_view(),
                audit@.collection,
                user_id@,
                Action::Read,
                ResourceIdView::Id(id@),
                ResourceType::Permission,
                self@.find_by_id(id@),
            ),
    {
        let operation = self.permission_repository.find_by_id(id);
        audit.guard(
            user_id,
            Action::Read,
            ResourceId::Id(id.to_owned()),
            ResourceType::Permission,
            operation,
        )
    }

    /// Begins the audited search for the permission with a name.
    pub fn find_by_name(&self, name: &str, user_id: &str, audit: &AuditService) -> (step: Step<
        Audited<Pending, Option<Permission>, Error>,
        Option<Permission>,
        Error,
    >)
        ensures
            audited_as(
                step.deep_view(),
                audit@.collection,
                user_id@,
                Action::Read,
                ResourceIdView::Name(name@),
                ResourceType::Permission,
                self@.find_by_name(name@),
            ),
    {
        let operation = self.permission_repository.find_by_name(name);
        audit.guard(
            user_id,
            Action::Read,
            ResourceId::Name(name.to_owned()),
            ResourceType::Permission,
            operation,
        )
    }

    /// Takes an audited search for one permission one reply further.
    pub fn resume_find(
        &self,
        state: Audited<Pending, Option<Permission>, Error>,
        reply: Reply,
    ) -> (step: Step<Audited<Pending, Option<Permission>, Error>, Option<Permission>, Error>)
        ensures
            step.deep_view() == resume_audited(
                state.deep_view(),
                reply@,
                self@.finding(),
                refused(),
            ),
    {
        match state {
            Audited::Recording(operation) => match recorded(operation, reply) {
                Ok(step) => step,
                Err(failure) => Step::Failed(Error::Audit(failure)),
            },
            Audited::Running(_) => release(self.permission_repository.resume_find(reply)),
        }
    }

    /// Begins the audited update of a permission.
    pub fn update(&self, permission: Permission, user_id: &str, audit: &AuditService) -> (step:
        Step<Audited<Revision, Permission, Error>, Permission, Error>)
        ensures
            audited_as(
                step.deep_view(),
                audit@.collection,
                user_id@,
                Action::Update,
                ResourceIdView::Id(permission@.id),
                ResourceType::Permission,
                self@.update(permission@),
            ),
    {
        let resource = ResourceId::Id(permission.id.clone());
        let operation = self.permission_repository.update(permission);
        audit.guard(user_id, Action::Update, resource, ResourceType::Permission, operation)
    }

    /// Takes the audited update of a permission one reply further.
    pub fn resume_update(
        &self,
        state: Audited<Revision, Permission, Error>,
        reply: Reply,
    ) -> (step: Step<Audited<Revision, Permission, Error>, Permission, Error>)
        ensures
            step.deep_view() == resume_audited(
                state.deep_view(),
                reply@,
                self@.revising(),
                refused(),
            ),
    {
        match state {
            Audited::Recording(operation) => match recorded(operation, reply) {
                Ok(step) => step,
                Err(failure) => Step::Failed(Error::Audit(failure)),
            },
            Audited::Running(inner) => release(
                self.permission_repository.resume_update(inner, reply),
            ),
        }
    }

    /// Begins the audited deletion of the permission with an identifier.
    pub fn delete(&self, id: &str, user_id: &str, audit: &AuditService) -> (step: Step<
        Audited<Removal, (), Error>,
        (),
        Error,
    >)
        ensures
            audited_as(
                step.deep_view(),
                audit@.collection,
                user_id@,
                Action::Delete,
                ResourceIdView::Id(id@),
                ResourceType::Permission,
                self@.delete(id@),
            ),
    {
        let operation = self.permission_repository.delete(id);
        audit.guard(
            user_id,
            Action::Delete,
            ResourceId::Id(id.to_owned()),
            ResourceType::Permission,
            operation,
        )
    }

    /// Takes the audited deletion of a permission one reply further. The
    /// role service says how the permission is taken out of the roles.
    pub fn resume_delete(
        &self,
        state: Audited<Removal, (), Error>,
        reply: Reply,
        role_service: &RoleService,
    ) -> (step: Step<Audited<Removal, (), Error>, (), Error>)
        ensures
            step.deep_view() == resume_audited(
                state.deep_view(),
                reply@,
                self@.deleting(role_service@),
                refused(),
            ),
    {
        match state {
            Audited::Recording(operation) => match recorded(operation, reply) {
                Ok(step) => step,
                Err(failure) => Step::Failed(Error::Audit(failure)),
            },
            Audited::Running(inner) => release(
                self.permission_repository.resume_delete(inner, reply, role_service),
            ),
        }
    }
}

} // verus!

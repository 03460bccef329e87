//! The role service.

use crate::protocol::{copy_ids, FailureView, Pending, Reply, Request, Step};
use crate::repository::audit::{Action, ResourceId, ResourceIdView, ResourceType};
use crate::repository::role::{
    Creation, Error, ErrorView, Revision, Role, RoleRepository, RoleRepositoryView,
};
use crate::services::audit::{audited_as, recorded, release, resume_audited, Audited, AuditService};
use vstd::prelude::*;

verus! {

/// Every operation on roles, coupled to the ledger: the entry that
/// describes an operation is written first, and the operation is begun only
/// once that write has succeeded.
#[derive(Clone, Debug, PartialEq, Eq)]
pub struct RoleService {
    pub role_repository: RoleRepository,
}

impl View for RoleService {
    type V = RoleRepositoryView;

    open spec fn view(&self) -> RoleRepositoryView {
        self.role_repository@
    }
}

/// The error of an operation whose entry could not be written.
pub open spec fn refused() -> spec_fn(FailureView) -> ErrorView {
    |failure: FailureView| ErrorView::Audit(failure)
}

impl RoleService {
    /// A service over a repository.
    pub fn new(role_repository: RoleRepository) -> (service: RoleService)
        ensures
            service.role_repository == role_repository,
    {
        RoleService { role_repository }
    }

    /// Begins the audited creation of a role.
    pub fn create(&self, new_role: Role, user_id: &str, audit: &AuditService) -> (step:
        Step<Audited<Creation, Role, Error>, Role, Error>)
        ensures
            audited_as(
                step.deep_view(),
                audit@.collection,
                user_id@,
                Action::Create,
                ResourceIdView::Id(new_role@.id),
                ResourceType::Role,
                self@.create(new_role@),
            ),
    {
        let resource = ResourceId::Id(new_role.id.clone());
        let operation = self.role_repository.create(new_role);
        audit.guard(user_id, Action::Create, resource, ResourceType::Role, operation)
    }

    /// Takes the audited creation of a role one reply further.
    pub fn resume_create(
        &self,
        state: Audited<Creation, Role, Error>,
        reply: Reply,
    ) -> (step: Step<Audited<Creation, Role, Error>, Role, Error>)
        ensures
            step.deep_view() == resume_audited(
                state.deep_view(),
                reply@,
                self@.creating(),
                refused(),
            ),
    {
        match state {
            Audited::Recording(operation) => match recorded(operation, reply) {
                Ok(step) => step,
                Err(failure) => Step::Failed(Error::Audit(failure)),
            },
            Audited::Running(inner) => release(
                self.role_repository.resume_create(inner, reply),
            ),
        }
    }

    /// Begins the audited search for every role.
    pub fn find_all(&self, user_id: &str, audit: &AuditService) -> (step: Step<
        Audited<Pending, Vec<Role>, Error>,
        Vec<Role>,
        Error,
    >)
        ensures
            audited_as(
                step.deep_view(),
                audit@.collection,
                user_id@,
                Action::Read,
                ResourceIdView::Unspecified,
                ResourceType::Role,
                self@.find_all(),
            ),
    {
        let operation = self.role_repository.find_all();
        audit.guard(
            user_id,
            Action::Read,
            ResourceId::Unspecified,
            ResourceType::Role,
            operation,
        )
    }

    /// Begins the audited search for the roles with the given
    /// identifiers.
    pub fn find_by_id_vec(&self, id_vec: Vec<String>, user_id: &str, audit: &AuditService) -> (step:
        Step<Audited<Pending, Vec<Role>, Error>, Vec<Role>, Error>)
        ensures
            audited_as(
                step.deep_view(),
                audit@.collection,
                user_id@,
                Action::Read,
                ResourceIdView::IdVec(id_vec.deep_view()),
                ResourceType::Role,
                self@.find_by_id_vec(id_vec.deep_view()),
            ),
    {
        let resource = ResourceId::IdVec(copy_ids(&id_vec));
        let operation = self.role_repository.find_by_id_vec(id_vec);
        audit.guard(user_id, Action::Read, resource, ResourceType::Role, operation)
    }

    /// Begins the audited search for the roles that match a text.
    pub fn search(&self, text: &str, user_id: &str, audit: &AuditService) -> (step: Step<
        Audited<Pending, Vec<Role>, Error>,
        Vec<Role>,
        Error,
    >)
        ensures
            audited_as(
                step.deep_view(),
                audit@.collection,
                user_id@,
                Action::Search,
                ResourceIdView::Text(text@),
                ResourceType::Role,
                self@.search(text@),
            ),
    {
        let operation = self.role_repository.search(text);
        audit.guard(
            user_id,
            Action::Search,
            ResourceId::Text(text.to_owned()),
            ResourceType::Role,
            operation,
        )
    }

    /// Takes an audited search for several roles one reply further.
    pub fn resume_list(
        &self,
        state: Audited<Pending, Vec<Role>, Error>,
        reply: Reply,
    ) -> (step: Step<Audited<Pending, Vec<Role>, Error>, Vec<Role>, Error>)
        ensures
            step.deep_view() == resume_audited(
                state.deep_view(),
                reply@,
                self@.listing(),
                refused(),
            ),
    {
        match state {
            Audited::Recording(operation) => match recorded(operation, reply) {
                Ok(step) => step,
                Err(failure) => Step::Failed(Error::Audit(failure)),
            },
            Audited::Running(_) => release(self.role_repository.resume_list(reply)),
        }
    }

    /// Begins the audited search for the role with an identifier.
    pub fn find_by_id(&self, id: &str, user_id: &str, audit: &AuditService) -> (step: Step<
        Audited<Pending, Option<Role>, Error>,
        Option<Role>,
        Error,
    >)
        ensures
            audited_as(
                step.deep_view(),
                audit@.collection,
                user_id@,
                Action::Read,
                ResourceIdView::Id(id@),
                ResourceType::Role,
                self@.find_by_id(id@),
            ),
    {
        let operation = self.role_repository.find_by_id(id);
        audit.guard(
            user_id,
            Action::Read,
            ResourceId::Id(id.to_owned()),
            ResourceType::Role,
            operation,
        )
    }

    /// Begins the audited search for the role with a name.
    pub fn find_by_name(&self, name: &str, user_id: &str, audit: &AuditService) -> (step: Step<
        Audited<Pending, Option<Role>, Error>,
        Option<Role>,
        Error,
    >)
        ensures
            audited_as(
                step.deep_view(),
                audit@.collection,
                user_id@,
                Action::Read,
                ResourceIdView::Name(name@),
                ResourceType::Role,
                self@.find_by_name(name@),
            ),
    {
        let operation = self.role_repository.find_by_name(name);
        audit.guard(
            user_id,
            Action::Read,
            ResourceId::Name(name.to_owned()),
            ResourceType::Role,
            operation,
        )
    }

    /// Takes an audited search for one role one reply further.
    pub fn resume_find(
        &self,
        state: Audited<Pending, Option<Role>, Error>,
        reply: Reply,
    ) -> (step: Step<Audited<Pending, Option<Role>, Error>, Option<Role>, Error>)
        ensures
            step.deep_view() == resume_audited(
                state.deep_view(),
                reply@,
                self@.finding(),
                refused(),
            ),
    {
        match state {
            Audited::Recording(operation) => match recorded(operation, reply) {
                Ok(step) => step,
                Err(failure) => Step::Failed(Error::Audit(failure)),
            },
            Audited::Running(_) => release(self.role_repository.resume_find(reply)),
        }
    }

    /// Begins the audited update of a role.
    pub fn update(&self, role: Role, user_id: &str, audit: &AuditService) -> (step:
        Step<Audited<Revision, Role, Error>, Role, Error>)
        ensures
            audited_as(
                step.deep_view(),
                audit@.collection,
                user_id@,
                Action::Update,
                ResourceIdView::Id(role@.id),
                ResourceType::Role,
                self@.update(role@),
            ),
    {
        let resource = ResourceId::Id(role.id.clone());
        let operation = self.role_repository.update(role);
        audit.guard(user_id, Action::Update, resource, ResourceType::Role, operation)
    }

    /// Takes the audited update of a role one reply further.
    pub fn resume_update(
        &self,
        state: Audited<Revision, Role, Error>,
        reply: Reply,
    ) -> (step: Step<Audited<Revision, Role, Error>, Role, Error>)
        ensures
            step.deep_view() == resume_audited(
                state.deep_view(),
                reply@,
                self@.revising(),
                refused(),
            ),
    {
        match state {
            Audited::Recording(operation) => match recorded(operation, reply) {
                Ok(step) => step,
                Err(failure) => Step::Failed(Error::Audit(failure)),
            },
            Audited::Running(inner) => release(
                self.role_repository.resume_update(inner, reply),
            ),
        }
    }

    /// Begins the audited deletion of the role with an identifier.
    pub fn delete(&self, id: &str, user_id: &str, audit: &AuditService) -> (step: Step<
        Audited<Pending, (), Error>,
        (),
        Error,
    >)
        ensures
            audited_as(
                step.deep_view(),
                audit@.collection,
                user_id@,
                Action::Delete,
                ResourceIdView::Id(id@),
                ResourceType::Role,
                self@.delete(id@),
            ),
    {
        let operation = self.role_repository.delete(id);
        audit.guard(
            user_id,
            Action::Delete,
            ResourceId::Id(id.to_owned()),
            ResourceType::Role,
            operation,
        )
    }

    /// Takes the audited deletion of a role one reply further.
    pub fn resume_delete(&self, state: Audited<Pending, (), Error>, reply: Reply) -> (step: Step<
        Audited<Pending, (), Error>,
        (),
        Error,
    >)
        ensures
            step.deep_view() == resume_audited(
                state.deep_view(),
                reply@,
                self@.deleting(),
                refused(),
            ),
    {
        match state {
            Audited::Recording(operation) => match recorded(operation, reply) {
                Ok(step) => step,
                Err(failure) => Step::Failed(Error::Audit(failure)),
            },
            Audited::Running(_) => release(self.role_repository.resume_delete(reply)),
        }
    }

    /// The request that takes a permission out of every role.
    pub fn detach_permission(&self, permission_id: &str) -> (request: Request)
        ensures
            request@ == self@.detach_permission(permission_id@),
    {
        self.role_repository.detach_permission(permission_id)
    }
}

} // verus!

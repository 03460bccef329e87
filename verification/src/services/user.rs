//! The user service.

use crate::protocol::{copy_ids, FailureView, Pending, Reply, Step};
use crate::repository::audit::{Action, ResourceId, ResourceIdView, ResourceType};
use crate::repository::user::{
    Creation, Error, ErrorView, Revision, User, UserRepository, UserRepositoryView,
};
use crate::services::audit::{audited_as, recorded, release, resume_audited, Audited, AuditService};
use crate::stamp::timestamp;
use vstd::prelude::*;

verus! {

/// Every operation on users, coupled to the ledger: the entry that describes
/// an operation is written first, and the operation is begun only once that
/// write has succeeded.
#[derive(Clone, Debug, PartialEq, Eq)]
pub struct UserService {
    pub user_repository: UserRepository,
}

impl View for UserService {
    type V = UserRepositoryView;

    open spec fn view(&self) -> UserRepositoryView {
        self.user_repository@
    }
}

/// The error of an operation whose entry could not be written.
pub open spec fn refused() -> spec_fn(FailureView) -> ErrorView {
    |failure: FailureView| ErrorView::Audit(failure)
}

impl UserService {
    /// A service over a repository.
    pub fn new(user_repository: UserRepository) -> (service: UserService)
        ensures
            service.user_repository == user_repository,
    {
        UserService { user_repository }
    }

    /// Begins the audited creation of a user.
    pub fn create(&self, new_user: User, user_id: &str, audit: &AuditService) -> (step: Step<
        Audited<Creation, User, Error>,
        User,
        Error,
    >)
        ensures
            audited_as(
                step.deep_view(),
                audit@.collection,
                user_id@,
                Action::Create,
                ResourceIdView::Id(new_user@.id),
                ResourceType::User,
                self@.create(new_user@),
            ),
    {
        let resource = ResourceId::Id(new_user.id.clone());
        let operation = self.user_repository.create(new_user);
        audit.guard(user_id, Action::Create, resource, ResourceType::User, operation)
    }

    /// Takes the audited creation of a user one reply further.
    pub fn resume_create(&self, state: Audited<Creation, User, Error>, reply: Reply) -> (step: Step<
        Audited<Creation, User, Error>,
        User,
        Error,
    >)
        ensures
            step.deep_view() == resume_audited(
                state.deep_view(),
                reply@,
                self@.creating(),
                refused(),
            ),
    {
        match state {
            Audited::Recording(operation) => match recorded(operation, reply) {
                Ok(step) => step,
                Err(failure) => Step::Failed(Error::Audit(failure)),
            },
            Audited::Running(inner) => release(self.user_repository.resume_create(inner, reply)),
        }
    }

    /// Begins the audited search for every user.
    pub fn find_all(&self, user_id: &str, audit: &AuditService) -> (step: Step<
        Audited<Pending, Vec<User>, Error>,
        Vec<User>,
        Error,
    >)
        ensures
            audited_as(
                step.deep_view(),
                audit@.collection,
                user_id@,
                Action::Read,
                ResourceIdView::Unspecified,
                ResourceType::User,
                self@.find_all(),
            ),
    {
        let operation = self.user_repository.find_all();
        audit.guard(user_id, Action::Read, ResourceId::Unspecified, ResourceType::User, operation)
    }

    /// Begins the audited search for the users with the given identifiers.
    pub fn find_by_id_vec(&self, id_vec: Vec<String>, user_id: &str, audit: &AuditService) -> (step:
        Step<Audited<Pending, Vec<User>, Error>, Vec<User>, Error>)
        ensures
            audited_as(
                step.deep_view(),
                audit@.collection,
                user_id@,
                Action::Read,
                ResourceIdView::IdVec(id_vec.deep_view()),
                ResourceType::User,
                self@.find_by_id_vec(id_vec.deep_view()),
            ),
    {
        let resource = ResourceId::IdVec(copy_ids(&id_vec));
        let operation = self.user_repository.find_by_id_vec(id_vec);
        audit.guard(user_id, Action::Read, resource, ResourceType::User, operation)
    }

    /// Begins the audited search for the users that match a text.
    pub fn search(&self, text: &str, user_id: &str, audit: &AuditService) -> (step: Step<
        Audited<Pending, Vec<User>, Error>,
        Vec<User>,
        Error,
    >)
        ensures
            audited_as(
                step.deep_view(),
                audit@.collection,
                user_id@,
                Action::Search,
                ResourceIdView::Text(text@),
                ResourceType::User,
                self@.search(text@),
            ),
    {
        let operation = self.user_repository.search(text);
        audit.guard(
            user_id,
            Action::Search,
            ResourceId::Text(text.to_owned()),
            ResourceType::User,
            operation,
        )
    }

    /// Takes an audited search for several users one reply further.
    pub fn resume_list(&self, state: Audited<Pending, Vec<User>, Error>, reply: Reply) -> (step:
        Step<Audited<Pending, Vec<User>, Error>, Vec<User>, Error>)
        ensures
            step.deep_view() == resume_audited(
                state.deep_view(),
                reply@,
                self@.listing(),
                refused(),
            ),
    {
        match state {
            Audited::Recording(operation) => match recorded(operation, reply) {
                Ok(step) => step,
                Err(failure) => Step::Failed(Error::Audit(failure)),
            },
            Audited::Running(_) => release(self.user_repository.resume_list(reply)),
        }
    }

    /// Begins the audited search for the user with an identifier.
    pub fn find_by_id(&self, id: &str, user_id: &str, audit: &AuditService) -> (step: Step<
        Audited<Pending, Option<User>, Error>,
        Option<User>,
        Error,
    >)
        ensures
            audited_as(
                step.deep_view(),
                audit@.collection,
                user_id@,
                Action::Read,
                ResourceIdView::Id(id@),
                ResourceType::User,
                self@.find_by_id(id@),
            ),
    {
        let operation = self.user_repository.find_by_id(id);
        audit.guard(
            user_id,
            Action::Read,
            ResourceId::Id(id.to_owned()),
            ResourceType::User,
            operation,
        )
    }

    /// Begins the audited search for the user with a username.
    pub fn find_by_username(&self, username: &str, user_id: &str, audit: &AuditService) -> (step:
        Step<Audited<Pending, Option<User>, Error>, Option<User>, Error>)
        ensures
            audited_as(
                step.deep_view(),
                audit@.collection,
                user_id@,
                Action::Read,
                ResourceIdView::Name(username@),
                ResourceType::User,
                self@.find_by_username(username@),
            ),
    {
        let operation = self.user_repository.find_by_username(username);
        audit.guard(
            user_id,
            Action::Read,
            ResourceId::Name(username.to_owned()),
            ResourceType::User,
            operation,
        )
    }

    /// Begins the audited search for the user with an email.
    pub fn find_by_email(&self, email: &str, user_id: &str, audit: &AuditService) -> (step: Step<
        Audited<Pending, Option<User>, Error>,
        Option<User>,
        Error,
    >)
        ensures
            audited_as(
                step.deep_view(),
                audit@.collection,
                user_id@,
                Action::Read,
                ResourceIdView::Name(email@),
                ResourceType::User,
                self@.find_by_email(email@),
            ),
    {
        let operation = self.user_repository.find_by_email(email);
        audit.guard(
            user_id,
            Action::Read,
            ResourceId::Name(email.to_owned()),
            ResourceType::User,
            operation,
        )
    }

    /// Takes an audited search for one user one reply further.
    pub fn resume_find(&self, state: Audited<Pending, Option<User>, Error>, reply: Reply) -> (step:
        Step<Audited<Pending, Option<User>, Error>, Option<User>, Error>)
        ensures
            step.deep_view() == resume_audited(
                state.deep_view(),
                reply@,
                self@.finding(),
                refused(),
            ),
    {
        match state {
            Audited::Recording(operation) => match recorded(operation, reply) {
                Ok(step) => step,
                Err(failure) => Step::Failed(Error::Audit(failure)),
            },
            Audited::Running(_) => release(self.user_repository.resume_find(reply)),
        }
    }

    /// Begins the audited update of a user.
    pub fn update(&self, user: User, user_id: &str, audit: &AuditService) -> (step: Step<
        Audited<Revision, User, Error>,
        User,
        Error,
    >)
        ensures
            audited_as(
                step.deep_view(),
                audit@.collection,
                user_id@,
                Action::Update,
                ResourceIdView::Id(user@.id),
                ResourceType::User,
                self@.update(user@),
            ),
    {
        let resource = ResourceId::Id(user.id.clone());
        let operation = self.user_repository.update(user);
        audit.guard(user_id, Action::Update, resource, ResourceType::User, operation)
    }

    /// Takes the audited update of a user one reply further, stamping what is
    /// written with the given time.
    pub fn resume_update_at(
        &self,
        state: Audited<Revision, User, Error>,
        reply: Reply,
        now: String,
    ) -> (step: Step<Audited<Revision, User, Error>, User, Error>)
        ensures
            step.deep_view() == resume_audited(
                state.deep_view(),
                reply@,
                self@.revising(now@),
                refused(),
            ),
    {
        match state {
            Audited::Recording(operation) => match recorded(operation, reply) {
                Ok(step) => step,
                Err(failure) => Step::Failed(Error::Audit(failure)),
            },
            Audited::Running(inner) => release(
                self.user_repository.resume_update_at(inner, reply, now),
            ),
        }
    }

    /// Takes the audited update of a user one reply further, stamping what is
    /// written with the current time.
    pub fn resume_update(&self, state: Audited<Revision, User, Error>, reply: Reply) -> (step: Step<
        Audited<Revision, User, Error>,
        User,
        Error,
    >)
        ensures
            exists|now: Seq<char>|
                step.deep_view() == resume_audited(
                    state.deep_view(),
                    reply@,
                    #[trigger] self@.revising(now),
                    refused(),
                ),
    {
        let now = timestamp();
        self.resume_update_at(state, reply, now)
    }

    /// Begins the audited deletion of the user with an identifier.
    pub fn delete(&self, id: &str, user_id: &str, audit: &AuditService) -> (step: Step<
        Audited<Pending, (), Error>,
        (),
        Error,
    >)
        ensures
            audited_as(
                step.deep_view(),
                audit@.collection,
                user_id@,
                Action::Delete,
                ResourceIdView::Id(id@),
                ResourceType::User,
                self@.delete(id@),
            ),
    {
        let operation = self.user_repository.delete(id);
        audit.guard(
            user_id,
            Action::Delete,
            ResourceId::Id(id.to_owned()),
            ResourceType::User,
            operation,
        )
    }

    /// Takes the audited deletion of a user one reply further.
    pub fn resume_delete(&self, state: Audited<Pending, (), Error>, reply: Reply) -> (step: Step<
        Audited<Pending, (), Error>,
        (),
        Error,
    >)
        ensures
            step.deep_view() == resume_audited(
                state.deep_view(),
                reply@,
                self@.deleting(),
                refused(),
            ),
    {
        match state {
            Audited::Recording(operation) => match recorded(operation, reply) {
                Ok(step) => step,
                Err(failure) => Step::Failed(Error::Audit(failure)),
            },
            Audited::Running(_) => release(self.user_repository.resume_delete(reply)),
        }
    }
}

} // verus!

//! Roles and the repository that keeps them.

use crate::protocol::{
    Document, DocumentView, ErrorKind, Failure, FailureView, Field, Kind, Pending, Reply, ReplyView,
    Request, RequestView, Step, StepView,
};
use crate::stamp::{fresh_id, ID_LENGTH};
use vstd::prelude::*;

verus! {

/// A named set of permissions.
#[derive(Clone, Debug, PartialEq, Eq)]
pub struct Role {
    pub id: String,
    pub name: String,
    pub permissions: Option<Vec<String>>,
}

/// What a `Role` stands for in contracts.
pub ghost struct RoleView {
    pub id: Seq<char>,
    pub name: Seq<char>,
    pub permissions: Option<Seq<Seq<char>>>,
}

impl View for Role {
    type V = RoleView;

    open spec fn view(&self) -> RoleView {
        RoleView { id: self.id@, name: self.name@, permissions: self.permissions.deep_view() }
    }
}

impl DeepView for Role {
    type V = RoleView;

    open spec fn deep_view(&self) -> RoleView {
        self@
    }
}

impl RoleView {
    /// Whether the role grants the permission with the given identifier.
    pub open spec fn grants(self, permission_id: Seq<char>) -> bool {
        self.permissions matches Some(ids) && ids.contains(permission_id)
    }
}

impl Role {
    /// Builds a role from its parts.
    pub fn assemble(id: String, name: String, permissions: Option<Vec<String>>) -> (role: Role)
        ensures
            role@ == (RoleView { id: id@, name: name@, permissions: permissions.deep_view() }),
    {
        Role { id, name, permissions }
    }

    /// A role with a freshly generated identifier.
    pub fn new(name: String, permissions: Option<Vec<String>>) -> (role: Role)
        ensures
            role@.id.len() == ID_LENGTH,
            role@.name == name@,
            role@.permissions == permissions.deep_view(),
    {
        Role::assemble(fresh_id(), name, permissions)
    }
}

/// Why an operation on roles failed.
#[derive(Clone, Debug, PartialEq, Eq)]
pub enum Error {
    EmptyId,
    EmptyName,
    EmptyCollection,
    EmptyIdVec,
    RoleNotFound,
    NameAlreadyTaken,
    MongoDbError(Failure),
    Audit(Failure),
}

/// What an `Error` stands for in contracts.
pub ghost enum ErrorView {
    EmptyId,
    EmptyName,
    EmptyCollection,
    EmptyIdVec,
    RoleNotFound,
    NameAlreadyTaken,
    MongoDbError(FailureView),
    Audit(FailureView),
}

impl View for Error {
    type V = ErrorView;

    open spec fn view(&self) -> ErrorView {
        match self {
            Error::EmptyId => ErrorView::EmptyId,
            Error::EmptyName => ErrorView::EmptyName,
            Error::EmptyCollection => ErrorView::EmptyCollection,
            Error::EmptyIdVec => ErrorView::EmptyIdVec,
            Error::RoleNotFound => ErrorView::RoleNotFound,
            Error::NameAlreadyTaken => ErrorView::NameAlreadyTaken,
            Error::MongoDbError(failure) => ErrorView::MongoDbError(failure@),
            Error::Audit(failure) => ErrorView::Audit(failure@),
        }
    }
}

impl DeepView for Error {
    type V = ErrorView;

    open spec fn deep_view(&self) -> ErrorView {
        self@
    }
}

impl ErrorView {
    /// The class of the error.
    pub open spec fn kind(self) -> ErrorKind {
        match self {
            ErrorView::EmptyId
            | ErrorView::EmptyName
            | ErrorView::EmptyCollection
            | ErrorView::EmptyIdVec => ErrorKind::Validation,
            ErrorView::RoleNotFound => ErrorKind::NotFound,
            ErrorView::NameAlreadyTaken => ErrorKind::DuplicateKey,
            ErrorView::MongoDbError(_) => ErrorKind::StoreBackendFailure,
            ErrorView::Audit(_) => ErrorKind::AuditFailure,
        }
    }

    /// The text of the error.
    pub open spec fn message(self) -> Seq<char> {
        match self {
            ErrorView::EmptyId => "Empty Role ID"@,
            ErrorView::EmptyName => "Empty name"@,
            ErrorView::EmptyCollection => "Empty collection"@,
            ErrorView::EmptyIdVec => "Empty ID vector"@,
            ErrorView::RoleNotFound => "Role not found"@,
            ErrorView::NameAlreadyTaken => "Name already taken"@,
            ErrorView::MongoDbError(failure) => "MongoDB error: "@ + failure.message(),
            ErrorView::Audit(failure) => "Audit error: "@ + failure.message(),
        }
    }
}

impl Error {
    /// The class of the error.
    pub fn kind(&self) -> (kind: ErrorKind)
        ensures
            kind == self@.kind(),
    {
        match self {
            Error::EmptyId | Error::EmptyName | Error::EmptyCollection | Error::EmptyIdVec => {
                ErrorKind::Validation
            },
            Error::RoleNotFound => ErrorKind::NotFound,
            Error::NameAlreadyTaken => ErrorKind::DuplicateKey,
            Error::MongoDbError(_) => ErrorKind::StoreBackendFailure,
            Error::Audit(_) => ErrorKind::AuditFailure,
        }
    }

    /// The text of the error.
    pub fn to_string(&self) -> (text: String)
        ensures
            text@ == self@.message(),
    {
        match self {
            Error::EmptyId => "Empty Role ID".to_owned(),
            Error::EmptyName => "Empty name".to_owned(),
            Error::EmptyCollection => "Empty collection".to_owned(),
            Error::EmptyIdVec => "Empty ID vector".to_owned(),
            Error::RoleNotFound => "Role not found".to_owned(),
            Error::NameAlreadyTaken => "Name already taken".to_owned(),
            Error::MongoDbError(failure) => {
                let reason = failure.to_string();
                "MongoDB error: ".to_owned().concat(reason.as_str())
            },
            Error::Audit(failure) => {
                let reason = failure.to_string();
                "Audit error: ".to_owned().concat(reason.as_str())
            },
        }
    }
}

/// Where the creation of a role stands.
#[derive(Clone, Debug, PartialEq, Eq)]
pub enum Creation {
    /// Asked whether the name is taken.
    CheckingName(Role),
    /// Asked to insert the role with this identifier.
    Inserting(String),
    /// Asked for the role as the store now holds it.
    Rereading,
}

/// What a `Creation` stands for in contracts.
pub ghost enum CreationView {
    CheckingName(RoleView),
    Inserting(Seq<char>),
    Rereading,
}

impl View for Creation {
    type V = CreationView;

    open spec fn view(&self) -> CreationView {
        match self {
            Creation::CheckingName(role) => CreationView::CheckingName(role@),
            Creation::Inserting(id) => CreationView::Inserting(id@),
            Creation::Rereading => CreationView::Rereading,
        }
    }
}

impl DeepView for Creation {
    type V = CreationView;

    open spec fn deep_view(&self) -> CreationView {
        self@
    }
}

/// Where the update of a role stands.
#[derive(Clone, Debug, PartialEq, Eq)]
pub enum Revision {
    /// Asked who has the name.
    CheckingName(Role),
    /// Asked to write the new values.
    Writing,
}

/// What a `Revision` stands for in contracts.
pub ghost enum RevisionView {
    CheckingName(RoleView),
    Writing,
}

impl View for Revision {
    type V = RevisionView;

    open spec fn view(&self) -> RevisionView {
        match self {
            Revision::CheckingName(role) => RevisionView::CheckingName(role@),
            Revision::Writing => RevisionView::Writing,
        }
    }
}

impl DeepView for Revision {
    type V = RevisionView;

    open spec fn deep_view(&self) -> RevisionView {
        self@
    }
}

/// Keeps roles in one collection of the document store.
#[derive(Clone, Debug, PartialEq, Eq)]
pub struct RoleRepository {
    pub collection: String,
}

/// What a `RoleRepository` stands for in contracts.
pub ghost struct RoleRepositoryView {
    pub collection: Seq<char>,
}

impl View for RoleRepository {
    type V = RoleRepositoryView;

    open spec fn view(&self) -> RoleRepositoryView {
        RoleRepositoryView { collection: self.collection@ }
    }
}

impl RoleRepositoryView {
    /// The request for the one role whose field has the value.
    pub open spec fn find_one(self, field: Field, value: Seq<char>) -> RequestView {
        RequestView::FindOne { collection: self.collection, kind: Kind::Role, field, value }
    }

    /// A search by identifier; an empty identifier is refused before the
    /// store is asked.
    pub open spec fn find_by_id(self, id: Seq<char>) -> StepView<
        Pending,
        Option<RoleView>,
        ErrorView,
    > {
        if id.len() == 0 {
            StepView::Failed(ErrorView::EmptyId)
        } else {
            StepView::Ask(Pending, self.find_one(Field::Id, id))
        }
    }

    /// A search by name; an empty name is refused before the store is asked.
    pub open spec fn find_by_name(self, name: Seq<char>) -> StepView<
        Pending,
        Option<RoleView>,
        ErrorView,
    > {
        if name.len() == 0 {
            StepView::Failed(ErrorView::EmptyName)
        } else {
            StepView::Ask(Pending, self.find_one(Field::Name, name))
        }
    }

    /// How a search for one role ends.
    pub open spec fn resume_find(self, reply: ReplyView) -> StepView<
        Pending,
        Option<RoleView>,
        ErrorView,
    > {
        match reply {
            ReplyView::Role(found) => StepView::Done(found),
            _ => StepView::Failed(ErrorView::MongoDbError(reply.failure())),
        }
    }

    /// A search for every role.
    pub open spec fn find_all(self) -> StepView<Pending, Seq<RoleView>, ErrorView> {
        StepView::Ask(
            Pending,
            RequestView::FindAll { collection: self.collection, kind: Kind::Role },
        )
    }

    /// A search by several identifiers; an empty list is refused before the
    /// store is asked.
    pub open spec fn find_by_id_vec(self, ids: Seq<Seq<char>>) -> StepView<
        Pending,
        Seq<RoleView>,
        ErrorView,
    > {
        if ids.len() == 0 {
            StepView::Failed(ErrorView::EmptyIdVec)
        } else {
            StepView::Ask(
                Pending,
                RequestView::FindMany { collection: self.collection, kind: Kind::Role, ids },
            )
        }
    }

    /// A search by free text.
    pub open spec fn search(self, text: Seq<char>) -> StepView<
        Pending,
        Seq<RoleView>,
        ErrorView,
    > {
        StepView::Ask(
            Pending,
            RequestView::Search { collection: self.collection, kind: Kind::Role, text },
        )
    }

    /// How a search for several roles ends.
    pub open spec fn resume_list(self, reply: ReplyView) -> StepView<
        Pending,
        Seq<RoleView>,
        ErrorView,
    > {
        match reply {
            ReplyView::Roles(found) => StepView::Done(found),
            _ => StepView::Failed(ErrorView::MongoDbError(reply.failure())),
        }
    }

    /// Creation begins by asking who has the name.
    pub open spec fn create(self, role: RoleView) -> StepView<
        CreationView,
        RoleView,
        ErrorView,
    > {
        if role.name.len() == 0 {
            StepView::Failed(ErrorView::EmptyName)
        } else {
            StepView::Ask(
                CreationView::CheckingName(role),
                self.find_one(Field::Name, role.name),
            )
        }
    }

    /// Creation goes on: the name must be free, the role is inserted,
    /// and the stored record is read back by identifier.
    pub open spec fn resume_create(self, state: CreationView, reply: ReplyView) -> StepView<
        CreationView,
        RoleView,
        ErrorView,
    > {
        match (state, reply) {
            (CreationView::CheckingName(_), ReplyView::Role(Some(_))) => StepView::Failed(
                ErrorView::NameAlreadyTaken,
            ),
            (CreationView::CheckingName(role), ReplyView::Role(None)) => StepView::Ask(
                CreationView::Inserting(role.id),
                RequestView::InsertOne {
                    collection: self.collection,
                    document: DocumentView::Role(role),
                },
            ),
            (CreationView::Inserting(id), ReplyView::Written) => {
                if id.len() == 0 {
                    StepView::Failed(ErrorView::EmptyId)
                } else {
                    StepView::Ask(CreationView::Rereading, self.find_one(Field::Id, id))
                }
            },
            (CreationView::Rereading, ReplyView::Role(Some(stored))) => StepView::Done(
                stored,
            ),
            (CreationView::Rereading, ReplyView::Role(None)) => StepView::Failed(
                ErrorView::RoleNotFound,
            ),
            _ => StepView::Failed(ErrorView::MongoDbError(reply.failure())),
        }
    }

    /// An update begins by asking who has the name.
    pub open spec fn update(self, role: RoleView) -> StepView<
        RevisionView,
        RoleView,
        ErrorView,
    > {
        if role.name.len() == 0 {
            StepView::Failed(ErrorView::EmptyName)
        } else {
            StepView::Ask(
                RevisionView::CheckingName(role),
                self.find_one(Field::Name, role.name),
            )
        }
    }

    /// An update goes on: the name must be free or the role's own, and
    /// the new values are written.
    pub open spec fn resume_update(self, state: RevisionView, reply: ReplyView) -> StepView<
        RevisionView,
        RoleView,
        ErrorView,
    > {
        match (state, reply) {
            (RevisionView::CheckingName(role), ReplyView::Role(holder)) => {
                if holder matches Some(other) && other.id != role.id {
                    StepView::Failed(ErrorView::NameAlreadyTaken)
                } else {
                    StepView::Ask(
                        RevisionView::Writing,
                        RequestView::UpdateOne {
                            collection: self.collection,
                            document: DocumentView::Role(role),
                        },
                    )
                }
            },
            (RevisionView::Writing, ReplyView::Role(Some(stored))) => StepView::Done(stored),
            (RevisionView::Writing, ReplyView::Role(None)) => StepView::Failed(
                ErrorView::RoleNotFound,
            ),
            _ => StepView::Failed(ErrorView::MongoDbError(reply.failure())),
        }
    }

    /// A deletion; an empty identifier is refused before the store is asked.
    pub open spec fn delete(self, id: Seq<char>) -> StepView<Pending, (), ErrorView> {
        if id.len() == 0 {
            StepView::Failed(ErrorView::EmptyId)
        } else {
            StepView::Ask(Pending, RequestView::DeleteOne { collection: self.collection, id })
        }
    }

    /// How a deletion ends.
    pub open spec fn resume_delete(self, reply: ReplyView) -> StepView<Pending, (), ErrorView> {
        match reply {
            ReplyView::Written => StepView::Done(()),
            _ => StepView::Failed(ErrorView::MongoDbError(reply.failure())),
        }
    }

    /// The request that takes a permission out of every role.
    pub open spec fn detach_permission(self, permission_id: Seq<char>) -> RequestView {
        RequestView::DetachPermission { collection: self.collection, permission_id }
    }

    /// How the creation of a role takes a reply.
    pub open spec fn creating(self) -> spec_fn(CreationView, ReplyView) -> StepView<
        CreationView,
        RoleView,
        ErrorView,
    > {
        |state: CreationView, reply: ReplyView| self.resume_create(state, reply)
    }

    /// How the update of a role takes a reply.
    pub open spec fn revising(self) -> spec_fn(RevisionView, ReplyView) -> StepView<
        RevisionView,
        RoleView,
        ErrorView,
    > {
        |state: RevisionView, reply: ReplyView| self.resume_update(state, reply)
    }

    /// How a search for one role takes a reply.
    pub open spec fn finding(self) -> spec_fn(Pending, ReplyView) -> StepView<
        Pending,
        Option<RoleView>,
        ErrorView,
    > {
        |state: Pending, reply: ReplyView| self.resume_find(reply)
    }

    /// How a search for several roles takes a reply.
    pub open spec fn listing(self) -> spec_fn(Pending, ReplyView) -> StepView<
        Pending,
        Seq<RoleView>,
        ErrorView,
    > {
        |state: Pending, reply: ReplyView| self.resume_list(reply)
    }

    /// How the deletion of a role takes a reply.
    pub open spec fn deleting(self) -> spec_fn(Pending, ReplyView) -> StepView<
        Pending,
        (),
        ErrorView,
    > {
        |state: Pending, reply: ReplyView| self.resume_delete(reply)
    }
}

impl RoleRepository {
    /// A repository over the named collection; the name must not be empty.
    pub fn new(collection: String) -> (repository: Result<RoleRepository, Error>)
        ensures
            collection@.len() == 0 ==> (repository matches Err(error) && error@
                == ErrorView::EmptyCollection),
            collection@.len() > 0 ==> (repository matches Ok(r) && r.collection == collection),
    {
        if collection.as_str().is_empty() {
            return Err(Error::EmptyCollection);
        }
        Ok(RoleRepository { collection })
    }

    fn find_one(&self, field: Field, value: &str) -> (request: Request)
        ensures
            request@ == self@.find_one(field, value@),
    {
        Request::FindOne {
            collection: self.collection.clone(),
            kind: Kind::Role,
            field,
            value: value.to_owned(),
        }
    }

    /// Begins the creation of a role.
    pub fn create(&self, role: Role) -> (step: Step<Creation, Role, Error>)
        ensures
            step.deep_view() == self@.create(role@),
    {
        if role.name.as_str().is_empty() {
            return Step::Failed(Error::EmptyName);
        }
        let request = self.find_one(Field::Name, role.name.as_str());
        Step::Ask(Creation::CheckingName(role), request)
    }

    /// Takes the creation of a role one reply further.
    pub fn resume_create(&self, state: Creation, reply: Reply) -> (step: Step<
        Creation,
        Role,
        Error,
    >)
        ensures
            step.deep_view() == self@.resume_create(state@, reply@),
    {
        match state {
            Creation::CheckingName(role) => match reply.into_role() {
                Ok(Some(_)) => Step::Failed(Error::NameAlreadyTaken),
                Ok(None) => {
                    let id = role.id.clone();
                    Step::Ask(
                        Creation::Inserting(id),
                        Request::InsertOne {
                            collection: self.collection.clone(),
                            document: Document::Role(role),
                        },
                    )
                },
                Err(failure) => Step::Failed(Error::MongoDbError(failure)),
            },
            Creation::Inserting(id) => match reply.into_written() {
                Ok(()) => {
                    if id.as_str().is_empty() {
                        return Step::Failed(Error::EmptyId);
                    }
                    Step::Ask(Creation::Rereading, self.find_one(Field::Id, id.as_str()))
                },
                Err(failure) => Step::Failed(Error::MongoDbError(failure)),
            },
            Creation::Rereading => match reply.into_role() {
                Ok(Some(stored)) => Step::Done(stored),
                Ok(None) => Step::Failed(Error::RoleNotFound),
                Err(failure) => Step::Failed(Error::MongoDbError(failure)),
            },
        }
    }

    /// Begins the search for every role.
    pub fn find_all(&self) -> (step: Step<Pending, Vec<Role>, Error>)
        ensures
            step.deep_view() == self@.find_all(),
    {
        Step::Ask(
            Pending,
            Request::FindAll { collection: self.collection.clone(), kind: Kind::Role },
        )
    }

    /// Begins the search for the roles with the given identifiers.
    pub fn find_by_id_vec(&self, id_vec: Vec<String>) -> (step: Step<
        Pending,
        Vec<Role>,
        Error,
    >)
        ensures
            step.deep_view() == self@.find_by_id_vec(id_vec.deep_view()),
    {
        if id_vec.len() == 0 {
            return Step::Failed(Error::EmptyIdVec);
        }
        Step::Ask(
            Pending,
            Request::FindMany {
                collection: self.collection.clone(),
                kind: Kind::Role,
                ids: id_vec,
            },
        )
    }

    /// Begins the search for the roles that match a text.
    pub fn search(&self, text: &str) -> (step: Step<Pending, Vec<Role>, Error>)
        ensures
            step.deep_view() == self@.search(text@),
    {
        Step::Ask(
            Pending,
            Request::Search {
                collection: self.collection.clone(),
                kind: Kind::Role,
                text: text.to_owned(),
            },
        )
    }

    /// Ends a search for several roles.
    pub fn resume_list(&self, reply: Reply) -> (step: Step<Pending, Vec<Role>, Error>)
        ensures
            step.deep_view() == self@.resume_list(reply@),
    {
        match reply.into_roles() {
            Ok(roles) => Step::Done(roles),
            Err(failure) => Step::Failed(Error::MongoDbError(failure)),
        }
    }

    /// Begins the search for the role with an identifier.
    pub fn find_by_id(&self, id: &str) -> (step: Step<Pending, Option<Role>, Error>)
        ensures
            step.deep_view() == self@.find_by_id(id@),
    {
        if id.is_empty() {
            return Step::Failed(Error::EmptyId);
        }
        Step::Ask(Pending, self.find_one(Field::Id, id))
    }

    /// Begins the search for the role with a name.
    pub fn find_by_name(&self, name: &str) -> (step: Step<Pending, Option<Role>, Error>)
        ensures
            step.deep_view() == self@.find_by_name(name@),
    {
        if name.is_empty() {
            return Step::Failed(Error::EmptyName);
        }
        Step::Ask(Pending, self.find_one(Field::Name, name))
    }

    /// Ends a search for one role.
    pub fn resume_find(&self, reply: Reply) -> (step: Step<Pending, Option<Role>, Error>)
        ensures
            step.deep_view() == self@.resume_find(reply@),
    {
        match reply.into_role() {
            Ok(found) => Step::Done(found),
            Err(failure) => Step::Failed(Error::MongoDbError(failure)),
        }
    }

    /// Begins the update of a role.
    pub fn update(&self, role: Role) -> (step: Step<Revision, Role, Error>)
        ensures
            step.deep_view() == self@.update(role@),
    {
        if role.name.as_str().is_empty() {
            return Step::Failed(Error::EmptyName);
        }
        let request = self.find_one(Field::Name, role.name.as_str());
        Step::Ask(Revision::CheckingName(role), request)
    }

    /// Takes the update of a role one reply further.
    pub fn resume_update(&self, state: Revision, reply: Reply) -> (step: Step<
        Revision,
        Role,
        Error,
    >)
        ensures
            step.deep_view() == self@.resume_update(state@, reply@),
    {
        match state {
            Revision::CheckingName(role) => match reply.into_role() {
                Ok(holder) => {
                    if taken_by_another(&holder, &role) {
                        return Step::Failed(Error::NameAlreadyTaken);
                    }
                    Step::Ask(
                        Revision::Writing,
                        Request::UpdateOne {
                            collection: self.collection.clone(),
                            document: Document::Role(role),
                        },
                    )
                },
                Err(failure) => Step::Failed(Error::MongoDbError(failure)),
            },
            Revision::Writing => match reply.into_role() {
                Ok(Some(stored)) => Step::Done(stored),
                Ok(None) => Step::Failed(Error::RoleNotFound),
                Err(failure) => Step::Failed(Error::MongoDbError(failure)),
            },
        }
    }

    /// Begins the deletion of the role with an identifier.
    pub fn delete(&self, id: &str) -> (step: Step<Pending, (), Error>)
        ensures
            step.deep_view() == self@.delete(id@),
    {
        if id.is_empty() {
            return Step::Failed(Error::EmptyId);
        }
        Step::Ask(
            Pending,
            Request::DeleteOne { collection: self.collection.clone(), id: id.to_owned() },
        )
    }

    /// Ends a deletion.
    pub fn resume_delete(&self, reply: Reply) -> (step: Step<Pending, (), Error>)
        ensures
            step.deep_view() == self@.resume_delete(reply@),
    {
        match reply.into_written() {
            Ok(()) => Step::Done(()),
            Err(failure) => Step::Failed(Error::MongoDbError(failure)),
        }
    }

    /// The request that takes a permission out of every role.
    pub fn detach_permission(&self, permission_id: &str) -> (request: Request)
        ensures
            request@ == self@.detach_permission(permission_id@),
    {
        Request::DetachPermission {
            collection: self.collection.clone(),
            permission_id: permission_id.to_owned(),
        }
    }
}

/// Whether a name is held by a role other than the given one.
fn taken_by_another(holder: &Option<Role>, role: &Role) -> (taken: bool)
    ensures
        taken == (holder.deep_view() matches Some(other) && other.id != role@.id),
{
    match holder {
        Some(other) => other.id != role.id,
        None => false,
    }
}

} // verus!

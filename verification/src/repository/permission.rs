//! Permissions and the repository that keeps them.

use crate::protocol::{
    Document, DocumentView, ErrorKind, Failure, FailureView, Field, Kind, Pending, Reply, ReplyView,
    Request, RequestView, Step, StepView,
};
use crate::repository::role::RoleRepositoryView;
use crate::services::role::RoleService;
use crate::stamp::{fresh_id, ID_LENGTH};
use vstd::prelude::*;

verus! {

/// Something a role may grant.
#[derive(Clone, Debug, PartialEq, Eq)]
pub struct Permission {
    pub id: String,
    pub name: String,
    pub description: String,
}

/// What a `Permission` stands for in contracts.
pub ghost struct PermissionView {
    pub id: Seq<char>,
    pub name: Seq<char>,
    pub description: Seq<char>,
}

impl View for Permission {
    type V = PermissionView;

    open spec fn view(&self) -> PermissionView {
        PermissionView { id: self.id@, name: self.name@, description: self.description@ }
    }
}

impl DeepView for Permission {
    type V = PermissionView;

    open spec fn deep_view(&self) -> PermissionView {
        self@
    }
}

impl Permission {
    /// Builds a permission from its parts.
    pub fn assemble(id: String, name: String, description: String) -> (permission: Permission)
        ensures
            permission@ == (PermissionView { id: id@, name: name@, description: description@ }),
    {
        Permission { id, name, description }
    }

    /// A permission with a freshly generated identifier.
    pub fn new(name: String, description: String) -> (permission: Permission)
        ensures
            permission@.id.len() == ID_LENGTH,
            permission@.name == name@,
            permission@.description == description@,
    {
        Permission::assemble(fresh_id(), name, description)
    }
}

/// Why an operation on permissions failed.
#[derive(Clone, Debug, PartialEq, Eq)]
pub enum Error {
    EmptyId,
    EmptyName,
    EmptyCollection,
    EmptyIdVec,
    PermissionNotFound,
    NameAlreadyTaken,
    MongoDbError(Failure),
    Audit(Failure),
}

/// What an `Error` stands for in contracts.
pub ghost enum ErrorView {
    EmptyId,
    EmptyName,
    EmptyCollection,
    EmptyIdVec,
    PermissionNotFound,
    NameAlreadyTaken,
    MongoDbError(FailureView),
    Audit(FailureView),
}

impl View for Error {
    type V = ErrorView;

    open spec fn view(&self) -> ErrorView {
        match self {
            Error::EmptyId => ErrorView::EmptyId,
            Error::EmptyName => ErrorView::EmptyName,
            Error::EmptyCollection => ErrorView::EmptyCollection,
            Error::EmptyIdVec => ErrorView::EmptyIdVec,
            Error::PermissionNotFound => ErrorView::PermissionNotFound,
            Error::NameAlreadyTaken => ErrorView::NameAlreadyTaken,
            Error::MongoDbError(failure) => ErrorView::MongoDbError(failure@),
            Error::Audit(failure) => ErrorView::Audit(failure@),
        }
    }
}

impl DeepView for Error {
    type V = ErrorView;

    open spec fn deep_view(&self) -> ErrorView {
        self@
    }
}

impl ErrorView {
    /// The class of the error.
    pub open spec fn kind(self) -> ErrorKind {
        match self {
            ErrorView::EmptyId
            | ErrorView::EmptyName
            | ErrorView::EmptyCollection
            | ErrorView::EmptyIdVec => ErrorKind::Validation,
            ErrorView::PermissionNotFound => ErrorKind::NotFound,
            ErrorView::NameAlreadyTaken => ErrorKind::DuplicateKey,
            ErrorView::MongoDbError(_) => ErrorKind::StoreBackendFailure,
            ErrorView::Audit(_) => ErrorKind::AuditFailure,
        }
    }

    /// The text of the error.
    pub open spec fn message(self) -> Seq<char> {
        match self {
            ErrorView::EmptyId => "Empty Permission ID"@,
            ErrorView::EmptyName => "Empty name"@,
            ErrorView::EmptyCollection => "Empty collection"@,
            ErrorView::EmptyIdVec => "Empty ID vector"@,
            ErrorView::PermissionNotFound => "Permission not found"@,
            ErrorView::NameAlreadyTaken => "Name already taken"@,
            ErrorView::MongoDbError(failure) => "MongoDB error: "@ + failure.message(),
            ErrorView::Audit(failure) => "Audit error: "@ + failure.message(),
        }
    }
}

impl Error {
    /// The class of the error.
    pub fn kind(&self) -> (kind: ErrorKind)
        ensures
            kind == self@.kind(),
    {
        match self {
            Error::EmptyId | Error::EmptyName | Error::EmptyCollection | Error::EmptyIdVec => {
                ErrorKind::Validation
            },
            Error::PermissionNotFound => ErrorKind::NotFound,
            Error::NameAlreadyTaken => ErrorKind::DuplicateKey,
            Error::MongoDbError(_) => ErrorKind::StoreBackendFailure,
            Error::Audit(_) => ErrorKind::AuditFailure,
        }
    }

    /// The text of the error.
    pub fn to_string(&self) -> (text: String)
        ensures
            text@ == self@.message(),
    {
        match self {
            Error::EmptyId => "Empty Permission ID".to_owned(),
            Error::EmptyName => "Empty name".to_owned(),
            Error::EmptyCollection => "Empty collection".to_owned(),
            Error::EmptyIdVec => "Empty ID vector".to_owned(),
            Error::PermissionNotFound => "Permission not found".to_owned(),
            Error::NameAlreadyTaken => "Name already taken".to_owned(),
            Error::MongoDbError(failure) => {
                let reason = failure.to_string();
                "MongoDB error: ".to_owned().concat(reason.as_str())
            },
            Error::Audit(failure) => {
                let reason = failure.to_string();
                "Audit error: ".to_owned().concat(reason.as_str())
            },
        }
    }
}

/// Where the creation of a permission stands.
#[derive(Clone, Debug, PartialEq, Eq)]
pub enum Creation {
    /// Asked whether the name is taken.
    CheckingName(Permission),
    /// Asked to insert the permission with this identifier.
    Inserting(String),
    /// Asked for the permission as the store now holds it.
    Rereading,
}

/// What a `Creation` stands for in contracts.
pub ghost enum CreationView {
    CheckingName(PermissionView),
    Inserting(Seq<char>),
    Rereading,
}

impl View for Creation {
    type V = CreationView;

    open spec fn view(&self) -> CreationView {
        match self {
            Creation::CheckingName(permission) => CreationView::CheckingName(permission@),
            Creation::Inserting(id) => CreationView::Inserting(id@),
            Creation::Rereading => CreationView::Rereading,
        }
    }
}

impl DeepView for Creation {
    type V = CreationView;

    open spec fn deep_view(&self) -> CreationView {
        self@
    }
}

/// Where the update of a permission stands.
#[derive(Clone, Debug, PartialEq, Eq)]
pub enum Revision {
    /// Asked who has the name.
    CheckingName(Permission),
    /// Asked to write the new values.
    Writing,
}

/// What a `Revision` stands for in contracts.
pub ghost enum RevisionView {
    CheckingName(PermissionView),
    Writing,
}

impl View for Revision {
    type V = RevisionView;

    open spec fn view(&self) -> RevisionView {
        match self {
            Revision::CheckingName(permission) => RevisionView::CheckingName(permission@),
            Revision::Writing => RevisionView::Writing,
        }
    }
}

impl DeepView for Revision {
    type V = RevisionView;

    open spec fn deep_view(&self) -> RevisionView {
        self@
    }
}

/// Where the deletion of a permission stands.
#[derive(Clone, Debug, PartialEq, Eq)]
pub enum Removal {
    /// Asked to delete the permission with this identifier; it is taken out
    /// of the roles next.
    Deleting(String),
    /// Asked to take the permission out of the roles.
    Detaching,
}

/// What a `Removal` stands for in contracts.
pub ghost enum RemovalView {
    Deleting(Seq<char>),
    Detaching,
}

impl View for Removal {
    type V = RemovalView;

    open spec fn view(&self) -> RemovalView {
        match self {
            Removal::Deleting(id) => RemovalView::Deleting(id@),
            Removal::Detaching => RemovalView::Detaching,
        }
    }
}

impl DeepView for Removal {
    type V = RemovalView;

    open spec fn deep_view(&self) -> RemovalView {
        self@
    }
}

/// Keeps permissions in one collection of the document store.
#[derive(Clone, Debug, PartialEq, Eq)]
pub struct PermissionRepository {
    pub collection: String,
}

/// What a `PermissionRepository` stands for in contracts.
pub ghost struct PermissionRepositoryView {
    pub collection: Seq<char>,
}

impl View for PermissionRepository {
    type V = PermissionRepositoryView;

    open spec fn view(&self) -> PermissionRepositoryView {
        PermissionRepositoryView { collection: self.collection@ }
    }
}

impl PermissionRepositoryView {
    /// The request for the one permission whose field has the value.
    pub open spec fn find_one(self, field: Field, value: Seq<char>) -> RequestView {
        RequestView::FindOne { collection: self.collection, kind: Kind::Permission, field, value }
    }

    /// A search by identifier; an empty identifier is refused before the
    /// store is asked.
    pub open spec fn find_by_id(self, id: Seq<char>) -> StepView<
        Pending,
        Option<PermissionView>,
        ErrorView,
    > {
        if id.len() == 0 {
            StepView::Failed(ErrorView::EmptyId)
        } else {
            StepView::Ask(Pending, self.find_one(Field::Id, id))
        }
    }

    /// A search by name; an empty name is refused before the store is asked.
    pub open spec fn find_by_name(self, name: Seq<char>) -> StepView<
        Pending,
        Option<PermissionView>,
        ErrorView,
    > {
        if name.len() == 0 {
            StepView::Failed(ErrorView::EmptyName)
        } else {
            StepView::Ask(Pending, self.find_one(Field::Name, name))
        }
    }

    /// How a search for one permission ends.
    pub open spec fn resume_find(self, reply: ReplyView) -> StepView<
        Pending,
        Option<PermissionView>,
        ErrorView,
    > {
        match reply {
            ReplyView::Permission(found) => StepView::Done(found),
            _ => StepView::Failed(ErrorView::MongoDbError(reply.failure())),
        }
    }

    /// A search for every permission.
    pub open spec fn find_all(self) -> StepView<Pending, Seq<PermissionView>, ErrorView> {
        StepView::Ask(
            Pending,
            RequestView::FindAll { collection: self.collection, kind: Kind::Permission },
        )
    }

    /// A search by several identifiers; an empty list is refused before the
    /// store is asked.
    pub open spec fn find_by_id_vec(self, ids: Seq<Seq<char>>) -> StepView<
        Pending,
        Seq<PermissionView>,
        ErrorView,
    > {
        if ids.len() == 0 {
            StepView::Failed(ErrorView::EmptyIdVec)
        } else {
            StepView::Ask(
                Pending,
                RequestView::FindMany { collection: self.collection, kind: Kind::Permission, ids },
            )
        }
    }

    /// A search by free text.
    pub open spec fn search(self, text: Seq<char>) -> StepView<
        Pending,
        Seq<PermissionView>,
        ErrorView,
    > {
        StepView::Ask(
            Pending,
            RequestView::Search { collection: self.collection, kind: Kind::Permission, text },
        )
    }

    /// How a search for several permissions ends.
    pub open spec fn resume_list(self, reply: ReplyView) -> StepView<
        Pending,
        Seq<PermissionView>,
        ErrorView,
    > {
        match reply {
            ReplyView::Permissions(found) => StepView::Done(found),
            _ => StepView::Failed(ErrorView::MongoDbError(reply.failure())),
        }
    }

    /// Creation begins by asking who has the name.
    pub open spec fn create(self, permission: PermissionView) -> StepView<
        CreationView,
        PermissionView,
        ErrorView,
    > {
        if permission.name.len() == 0 {
            StepView::Failed(ErrorView::EmptyName)
        } else {
            StepView::Ask(
                CreationView::CheckingName(permission),
                self.find_one(Field::Name, permission.name),
            )
        }
    }

    /// Creation goes on: the name must be free, the permission is inserted,
    /// and the stored record is read back by identifier.
    pub open spec fn resume_create(self, state: CreationView, reply: ReplyView) -> StepView<
        CreationView,
        PermissionView,
        ErrorView,
    > {
        match (state, reply) {
            (CreationView::CheckingName(_), ReplyView::Permission(Some(_))) => StepView::Failed(
                ErrorView::NameAlreadyTaken,
            ),
            (CreationView::CheckingName(permission), ReplyView::Permission(None)) => StepView::Ask(
                CreationView::Inserting(permission.id),
                RequestView::InsertOne {
                    collection: self.collection,
                    document: DocumentView::Permission(permission),
                },
            ),
            (CreationView::Inserting(id), ReplyView::Written) => {
                if id.len() == 0 {
                    StepView::Failed(ErrorView::EmptyId)
                } else {
                    StepView::Ask(CreationView::Rereading, self.find_one(Field::Id, id))
                }
            },
            (CreationView::Rereading, ReplyView::Permission(Some(stored))) => StepView::Done(
                stored,
            ),
            (CreationView::Rereading, ReplyView::Permission(None)) => StepView::Failed(
                ErrorView::PermissionNotFound,
            ),
            _ => StepView::Failed(ErrorView::MongoDbError(reply.failure())),
        }
    }

    /// An update begins by asking who has the name.
    pub open spec fn update(self, permission: PermissionView) -> StepView<
        RevisionView,
        PermissionView,
        ErrorView,
    > {
        if permission.name.len() == 0 {
            StepView::Failed(ErrorView::EmptyName)
        } else {
            StepView::Ask(
                RevisionView::CheckingName(permission),
                self.find_one(Field::Name, permission.name),
            )
        }
    }

    /// An update goes on: the name must be free or the permission's own, and
    /// the new values are written.
    pub open spec fn resume_update(self, state: RevisionView, reply: ReplyView) -> StepView<
        RevisionView,
        PermissionView,
        ErrorView,
    > {
        match (state, reply) {
            (RevisionView::CheckingName(permission), ReplyView::Permission(holder)) => {
                if holder matches Some(other) && other.id != permission.id {
                    StepView::Failed(ErrorView::NameAlreadyTaken)
                } else {
                    StepView::Ask(
                        RevisionView::Writing,
                        RequestView::UpdateOne {
                            collection: self.collection,
                            document: DocumentView::Permission(permission),
                        },
                    )
                }
            },
            (RevisionView::Writing, ReplyView::Permission(Some(stored))) => StepView::Done(stored),
            (RevisionView::Writing, ReplyView::Permission(None)) => StepView::Failed(
                ErrorView::PermissionNotFound,
            ),
            _ => StepView::Failed(ErrorView::MongoDbError(reply.failure())),
        }
    }

    /// A deletion begins by asking the store to delete the permission; an
    /// empty identifier is refused before the store is asked.
    pub open spec fn delete(self, id: Seq<char>) -> StepView<RemovalView, (), ErrorView> {
        if id.len() == 0 {
            StepView::Failed(ErrorView::EmptyId)
        } else {
            StepView::Ask(
                RemovalView::Deleting(id),
                RequestView::DeleteOne { collection: self.collection, id },
            )
        }
    }

    /// A deletion goes on: once the permission is deleted it is taken out of
    /// the roles, and only then is the deletion done.
    pub open spec fn resume_delete(
        self,
        state: RemovalView,
        reply: ReplyView,
        roles: RoleRepositoryView,
    ) -> StepView<RemovalView, (), ErrorView> {
        match (state, reply) {
            (RemovalView::Deleting(id), ReplyView::Written) => StepView::Ask(
                RemovalView::Detaching,
                roles.detach_permission(id),
            ),
            (RemovalView::Detaching, ReplyView::Written) => StepView::Done(()),
            _ => StepView::Failed(ErrorView::MongoDbError(reply.failure())),
        }
    }

    /// How the creation of a permission takes a reply.
    pub open spec fn creating(self) -> spec_fn(CreationView, ReplyView) -> StepView<
        CreationView,
        PermissionView,
        ErrorView,
    > {
        |state: CreationView, reply: ReplyView| self.resume_create(state, reply)
    }

    /// How the update of a permission takes a reply.
    pub open spec fn revising(self) -> spec_fn(RevisionView, ReplyView) -> StepView<
        RevisionView,
        PermissionView,
        ErrorView,
    > {
        |state: RevisionView, reply: ReplyView| self.resume_update(state, reply)
    }

    /// How a search for one permission takes a reply.
    pub open spec fn finding(self) -> spec_fn(Pending, ReplyView) -> StepView<
        Pending,
        Option<PermissionView>,
        ErrorView,
    > {
        |state: Pending, reply: ReplyView| self.resume_find(reply)
    }

    /// How a search for several permissions takes a reply.
    pub open spec fn listing(self) -> spec_fn(Pending, ReplyView) -> StepView<
        Pending,
        Seq<PermissionView>,
        ErrorView,
    > {
        |state: Pending, reply: ReplyView| self.resume_list(reply)
    }

    /// How the deletion of a permission takes a reply, where the roles are
    /// kept by the given repository.
    pub open spec fn deleting(self, roles: RoleRepositoryView) -> spec_fn(
        RemovalView,
        ReplyView,
    ) -> StepView<RemovalView, (), ErrorView> {
        |state: RemovalView, reply: ReplyView| self.resume_delete(state, reply, roles)
    }
}

impl PermissionRepository {
    /// A repository over the named collection; the name must not be empty.
    pub fn new(collection: String) -> (repository: Result<PermissionRepository, Error>)
        ensures
            collection@.len() == 0 ==> (repository matches Err(error) && error@
                == ErrorView::EmptyCollection),
            collection@.len() > 0 ==> (repository matches Ok(r) && r.collection == collection),
    {
        if collection.as_str().is_empty() {
            return Err(Error::EmptyCollection);
        }
        Ok(PermissionRepository { collection })
    }

    fn find_one(&self, field: Field, value: &str) -> (request: Request)
        ensures
            request@ == self@.find_one(field, value@),
    {
        Request::FindOne {
            collection: self.collection.clone(),
            kind: Kind::Permission,
            field,
            value: value.to_owned(),
        }
    }

    /// Begins the creation of a permission.
    pub fn create(&self, permission: Permission) -> (step: Step<Creation, Permission, Error>)
        ensures
            step.deep_view() == self@.create(permission@),
    {
        if permission.name.as_str().is_empty() {
            return Step::Failed(Error::EmptyName);
        }
        let request = self.find_one(Field::Name, permission.name.as_str());
        Step::Ask(Creation::CheckingName(permission), request)
    }

    /// Takes the creation of a permission one reply further.
    pub fn resume_create(&self, state: Creation, reply: Reply) -> (step: Step<
        Creation,
        Permission,
        Error,
    >)
        ensures
            step.deep_view() == self@.resume_create(state@, reply@),
    {
        match state {
            Creation::CheckingName(permission) => match reply.into_permission() {
                Ok(Some(_)) => Step::Failed(Error::NameAlreadyTaken),
                Ok(None) => {
                    let id = permission.id.clone();
                    Step::Ask(
                        Creation::Inserting(id),
                        Request::InsertOne {
                            collection: self.collection.clone(),
                            document: Document::Permission(permission),
                        },
                    )
                },
                Err(failure) => Step::Failed(Error::MongoDbError(failure)),
            },
            Creation::Inserting(id) => match reply.into_written() {
                Ok(()) => {
                    if id.as_str().is_empty() {
                        return Step::Failed(Error::EmptyId);
                    }
                    Step::Ask(Creation::Rereading, self.find_one(Field::Id, id.as_str()))
                },
                Err(failure) => Step::Failed(Error::MongoDbError(failure)),
            },
            Creation::Rereading => match reply.into_permission() {
                Ok(Some(stored)) => Step::Done(stored),
                Ok(None) => Step::Failed(Error::PermissionNotFound),
                Err(failure) => Step::Failed(Error::MongoDbError(failure)),
            },
        }
    }

    /// Begins the search for every permission.
    pub fn find_all(&self) -> (step: Step<Pending, Vec<Permission>, Error>)
        ensures
            step.deep_view() == self@.find_all(),
    {
        Step::Ask(
            Pending,
            Request::FindAll { collection: self.collection.clone(), kind: Kind::Permission },
        )
    }

    /// Begins the search for the permissions with the given identifiers.
    pub fn find_by_id_vec(&self, id_vec: Vec<String>) -> (step: Step<
        Pending,
        Vec<Permission>,
        Error,
    >)
        ensures
            step.deep_view() == self@.find_by_id_vec(id_vec.deep_view()),
    {
        if id_vec.len() == 0 {
            return Step::Failed(Error::EmptyIdVec);
        }
        Step::Ask(
            Pending,
            Request::FindMany {
                collection: self.collection.clone(),
                kind: Kind::Permission,
                ids: id_vec,
            },
        )
    }

    /// Begins the search for the permissions that match a text.
    pub fn search(&self, text: &str) -> (step: Step<Pending, Vec<Permission>, Error>)
        ensures
            step.deep_view() == self@.search(text@),
    {
        Step::Ask(
            Pending,
            Request::Search {
                collection: self.collection.clone(),
                kind: Kind::Permission,
                text: text.to_owned(),
            },
        )
    }

    /// Ends a search for several permissions.
    pub fn resume_list(&self, reply: Reply) -> (step: Step<Pending, Vec<Permission>, Error>)
        ensures
            step.deep_view() == self@.resume_list(reply@),
    {
        match reply.into_permissions() {
            Ok(permissions) => Step::Done(permissions),
            Err(failure) => Step::Failed(Error::MongoDbError(failure)),
        }
    }

    /// Begins the search for the permission with an identifier.
    pub fn find_by_id(&self, id: &str) -> (step: Step<Pending, Option<Permission>, Error>)
        ensures
            step.deep_view() == self@.find_by_id(id@),
    {
        if id.is_empty() {
            return Step::Failed(Error::EmptyId);
        }
        Step::Ask(Pending, self.find_one(Field::Id, id))
    }

    /// Begins the search for the permission with a name.
    pub fn find_by_name(&self, name: &str) -> (step: Step<Pending, Option<Permission>, Error>)
        ensures
            step.deep_view() == self@.find_by_name(name@),
    {
        if name.is_empty() {
            return Step::Failed(Error::EmptyName);
        }
        Step::Ask(Pending, self.find_one(Field::Name, name))
    }

    /// Ends a search for one permission.
    pub fn resume_find(&self, reply: Reply) -> (step: Step<Pending, Option<Permission>, Error>)
        ensures
            step.deep_view() == self@.resume_find(reply@),
    {
        match reply.into_permission() {
            Ok(found) => Step::Done(found),
            Err(failure) => Step::Failed(Error::MongoDbError(failure)),
        }
    }

    /// Begins the update of a permission.
    pub fn update(&self, permission: Permission) -> (step: Step<Revision, Permission, Error>)
        ensures
            step.deep_view() == self@.update(permission@),
    {
        if permission.name.as_str().is_empty() {
            return Step::Failed(Error::EmptyName);
        }
        let request = self.find_one(Field::Name, permission.name.as_str());
        Step::Ask(Revision::CheckingName(permission), request)
    }

    /// Takes the update of a permission one reply further.
    pub fn resume_update(&self, state: Revision, reply: Reply) -> (step: Step<
        Revision,
        Permission,
        Error,
    >)
        ensures
            step.deep_view() == self@.resume_update(state@, reply@),
    {
        match state {
            Revision::CheckingName(permission) => match reply.into_permission() {
                Ok(holder) => {
                    if taken_by_another(&holder, &permission) {
                        return Step::Failed(Error::NameAlreadyTaken);
                    }
                    Step::Ask(
                        Revision::Writing,
                        Request::UpdateOne {
                            collection: self.collection.clone(),
                            document: Document::Permission(permission),
                        },
                    )
                },
                Err(failure) => Step::Failed(Error::MongoDbError(failure)),
            },
            Revision::Writing => match reply.into_permission() {
                Ok(Some(stored)) => Step::Done(stored),
                Ok(None) => Step::Failed(Error::PermissionNotFound),
                Err(failure) => Step::Failed(Error::MongoDbError(failure)),
            },
        }
    }

    /// Begins the deletion of the permission with an identifier.
    pub fn delete(&self, id: &str) -> (step: Step<Removal, (), Error>)
        ensures
            step.deep_view() == self@.delete(id@),
    {
        if id.is_empty() {
            return Step::Failed(Error::EmptyId);
        }
        Step::Ask(
            Removal::Deleting(id.to_owned()),
            Request::DeleteOne { collection: self.collection.clone(), id: id.to_owned() },
        )
    }

    /// Takes the deletion of a permission one reply further. The role
    /// service says how the permission is taken out of the roles.
    pub fn resume_delete(&self, state: Removal, reply: Reply, role_service: &RoleService) -> (step:
        Step<Removal, (), Error>)
        ensures
            step.deep_view() == self@.resume_delete(state@, reply@, role_service@),
    {
        match reply.into_written() {
            Ok(()) => match state {
                Removal::Deleting(id) => Step::Ask(
                    Removal::Detaching,
                    role_service.detach_permission(id.as_str()),
                ),
                Removal::Detaching => Step::Done(()),
            },
            Err(failure) => Step::Failed(Error::MongoDbError(failure)),
        }
    }
}

/// Whether a name is held by a permission other than the given one.
fn taken_by_another(holder: &Option<Permission>, permission: &Permission) -> (taken: bool)
    ensures
        taken == (holder.deep_view() matches Some(other) && other.id != permission@.id),
{
    match holder {
        Some(other) => other.id != permission.id,
        None => false,
    }
}

} // verus!

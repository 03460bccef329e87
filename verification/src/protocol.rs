//! What the library asks of its surroundings, and what it is told in return.
//!
//! An operation is started by the function that bears its name and yields a
//! [`Step`]. `Ask` carries a request for the caller to perform and the state
//! to resume with; `Done` and `Failed` end the operation.

use crate::repository::audit::{Audit, AuditView};
use crate::repository::permission::{Permission, PermissionView};
use crate::repository::role::{Role, RoleView};
use crate::repository::user::{User, UserView};
use vstd::prelude::*;

verus! {

/// The shape of the records that a collection holds.
#[derive(Clone, Copy, Debug, PartialEq, Eq, Structural)]
pub enum Kind {
    User,
    Role,
    Permission,
}

/// A field that a filter compares with a value.
#[derive(Clone, Copy, Debug, PartialEq, Eq, Structural)]
pub enum Field {
    Id,
    Username,
    Email,
    Name,
}

/// A record on its way to the store.
#[derive(Clone, Debug, PartialEq, Eq)]
pub enum Document {
    User(User),
    Role(Role),
    Permission(Permission),
    Audit(Audit),
}

/// What a `Document` stands for in contracts.
pub ghost enum DocumentView {
    User(UserView),
    Role(RoleView),
    Permission(PermissionView),
    Audit(AuditView),
}

impl View for Document {
    type V = DocumentView;

    open spec fn view(&self) -> DocumentView {
        match self {
            Document::User(user) => DocumentView::User(user@),
            Document::Role(role) => DocumentView::Role(role@),
            Document::Permission(permission) => DocumentView::Permission(permission@),
            Document::Audit(audit) => DocumentView::Audit(audit@),
        }
    }
}

impl DocumentView {
    /// The identifier under which the record is stored.
    pub open spec fn id(self) -> Seq<char> {
        match self {
            DocumentView::User(user) => user.id,
            DocumentView::Role(role) => role.id,
            DocumentView::Permission(permission) => permission.id,
            DocumentView::Audit(audit) => audit.id,
        }
    }
}

/// Something for the caller to perform.
#[derive(Clone, Debug, PartialEq, Eq)]
pub enum Request {
    /// Find one record whose field equals the value.
    FindOne { collection: String, kind: Kind, field: Field, value: String },
    /// Find the records whose identifier is among those given.
    FindMany { collection: String, kind: Kind, ids: Vec<String> },
    /// Find every record of the collection.
    FindAll { collection: String, kind: Kind },
    /// Find the records that match a free text.
    Search { collection: String, kind: Kind, text: String },
    /// Insert a record.
    InsertOne { collection: String, document: Document },
    /// Find the record with the document's identifier, write the document's
    /// changeable fields to it, and hand the record back.
    UpdateOne { collection: String, document: Document },
    /// Delete the record with the identifier.
    DeleteOne { collection: String, id: String },
    /// Take a permission out of every role that grants it.
    DetachPermission { collection: String, permission_id: String },
    /// Issue a session token for a subject.
    IssueToken { subject: String },
    /// Verify a session token.
    VerifyToken { token: String },
}

/// What a `Request` stands for in contracts.
pub ghost enum RequestView {
    FindOne { collection: Seq<char>, kind: Kind, field: Field, value: Seq<char> },
    FindMany { collection: Seq<char>, kind: Kind, ids: Seq<Seq<char>> },
    FindAll { collection: Seq<char>, kind: Kind },
    Search { collection: Seq<char>, kind: Kind, text: Seq<char> },
    InsertOne { collection: Seq<char>, document: DocumentView },
    UpdateOne { collection: Seq<char>, document: DocumentView },
    DeleteOne { collection: Seq<char>, id: Seq<char> },
    DetachPermission { collection: Seq<char>, permission_id: Seq<char> },
    IssueToken { subject: Seq<char> },
    VerifyToken { token: Seq<char> },
}

impl View for Request {
    type V = RequestView;

    open spec fn view(&self) -> RequestView {
        match self {
            Request::FindOne { collection, kind, field, value } => RequestView::FindOne {
                collection: collection@,
                kind: *kind,
                field: *field,
                value: value@,
            },
            Request::FindMany { collection, kind, ids } => RequestView::FindMany {
                collection: collection@,
                kind: *kind,
                ids: ids.deep_view(),
            },
            Request::FindAll { collection, kind } => RequestView::FindAll {
                collection: collection@,
                kind: *kind,
            },
            Request::Search { collection, kind, text } => RequestView::Search {
                collection: collection@,
                kind: *kind,
                text: text@,
            },
            Request::InsertOne { collection, document } => RequestView::InsertOne {
                collection: collection@,
                document: document@,
            },
            Request::UpdateOne { collection, document } => RequestView::UpdateOne {
                collection: collection@,
                document: document@,
            },
            Request::DeleteOne { collection, id } => RequestView::DeleteOne {
                collection: collection@,
                id: id@,
            },
            Request::DetachPermission { collection, permission_id } => {
                RequestView::DetachPermission {
                    collection: collection@,
                    permission_id: permission_id@,
                }
            },
            Request::IssueToken { subject } => RequestView::IssueToken { subject: subject@ },
            Request::VerifyToken { token } => RequestView::VerifyToken { token: token@ },
        }
    }
}

impl DeepView for Request {
    type V = RequestView;

    open spec fn deep_view(&self) -> RequestView {
        self@
    }
}

impl RequestView {
    /// Whether the request leaves a collection as it is: it only reads, or
    /// it writes elsewhere.
    pub open spec fn spares(self, collection: Seq<char>) -> bool {
        match self {
            RequestView::InsertOne { collection: written, .. }
            | RequestView::UpdateOne { collection: written, .. }
            | RequestView::DeleteOne { collection: written, .. }
            | RequestView::DetachPermission { collection: written, .. } => written != collection,
            _ => true,
        }
    }
}

/// What the caller reports of a request it has performed.
#[derive(Clone, Debug, PartialEq, Eq)]
pub enum Reply {
    /// The user that was looked for, if there is one.
    User(Option<User>),
    /// The users that were found.
    Users(Vec<User>),
    /// The role that was looked for, if there is one.
    Role(Option<Role>),
    /// The roles that were found.
    Roles(Vec<Role>),
    /// The permission that was looked for, if there is one.
    Permission(Option<Permission>),
    /// The permissions that were found.
    Permissions(Vec<Permission>),
    /// The write was carried out.
    Written,
    /// The token that was issued, if one could be.
    Token(Option<String>),
    /// The subject of a verified token; `None` for a token that is not valid.
    Subject(Option<String>),
    /// The request failed, with the backend's message.
    Failed(String),
}

/// What a `Reply` stands for in contracts.
pub ghost enum ReplyView {
    User(Option<UserView>),
    Users(Seq<UserView>),
    Role(Option<RoleView>),
    Roles(Seq<RoleView>),
    Permission(Option<PermissionView>),
    Permissions(Seq<PermissionView>),
    Written,
    Token(Option<Seq<char>>),
    Subject(Option<Seq<char>>),
    Failed(Seq<char>),
}

impl View for Reply {
    type V = ReplyView;

    open spec fn view(&self) -> ReplyView {
        match self {
            Reply::User(user) => ReplyView::User(user.deep_view()),
            Reply::Users(users) => ReplyView::Users(users.deep_view()),
            Reply::Role(role) => ReplyView::Role(role.deep_view()),
            Reply::Roles(roles) => ReplyView::Roles(roles.deep_view()),
            Reply::Permission(permission) => ReplyView::Permission(permission.deep_view()),
            Reply::Permissions(permissions) => ReplyView::Permissions(permissions.deep_view()),
            Reply::Written => ReplyView::Written,
            Reply::Token(token) => ReplyView::Token(token.deep_view()),
            Reply::Subject(subject) => ReplyView::Subject(subject.deep_view()),
            Reply::Failed(message) => ReplyView::Failed(message@),
        }
    }
}

/// Why a request brought no usable reply.
#[derive(Clone, Debug, PartialEq, Eq)]
pub enum Failure {
    /// The backend failed and said why.
    Backend(String),
    /// The reply does not answer the request that was made.
    Protocol,
}

/// What a `Failure` stands for in contracts.
pub ghost enum FailureView {
    Backend(Seq<char>),
    Protocol,
}

impl View for Failure {
    type V = FailureView;

    open spec fn view(&self) -> FailureView {
        match self {
            Failure::Backend(message) => FailureView::Backend(message@),
            Failure::Protocol => FailureView::Protocol,
        }
    }
}

impl DeepView for Failure {
    type V = FailureView;

    open spec fn deep_view(&self) -> FailureView {
        self@
    }
}

impl ReplyView {
    /// The failure that a reply amounts to where it is not the one awaited.
    pub open spec fn failure(self) -> FailureView {
        match self {
            ReplyView::Failed(message) => FailureView::Backend(message),
            _ => FailureView::Protocol,
        }
    }
}

impl Failure {
    /// The text of the failure.
    pub fn to_string(&self) -> (text: String)
        ensures
            text@ == self@.message(),
    {
        match self {
            Failure::Backend(message) => message.clone(),
            Failure::Protocol => "unexpected reply".to_owned(),
        }
    }
}

impl FailureView {
    /// The text of the failure.
    pub open spec fn message(self) -> Seq<char> {
        match self {
            FailureView::Backend(message) => message,
            FailureView::Protocol => "unexpected reply"@,
        }
    }
}

impl Reply {
    /// The failure that this reply amounts to where another was awaited.
    pub fn into_failure(self) -> (failure: Failure)
        ensures
            failure@ == self@.failure(),
    {
        match self {
            Reply::Failed(message) => Failure::Backend(message),
            _ => Failure::Protocol,
        }
    }

    /// Reads the reply to a write.
    pub fn into_written(self) -> (written: Result<(), Failure>)
        ensures
            written is Ok <==> self@ is Written,
            written matches Err(failure) ==> failure@ == self@.failure(),
    {
        match self {
            Reply::Written => Ok(()),
            other => Err(other.into_failure()),
        }
    }

    /// Reads the reply to a search for one user.
    pub fn into_user(self) -> (found: Result<Option<User>, Failure>)
        ensures
            found matches Ok(user) ==> self@ == ReplyView::User(user.deep_view()),
            found matches Err(failure) ==> self@ !is User && failure@ == self@.failure(),
    {
        match self {
            Reply::User(user) => Ok(user),
            other => Err(other.into_failure()),
        }
    }

    /// Reads the reply to a search for several users.
    pub fn into_users(self) -> (found: Result<Vec<User>, Failure>)
        ensures
            found matches Ok(users) ==> self@ == ReplyView::Users(users.deep_view()),
            found matches Err(failure) ==> self@ !is Users && failure@ == self@.failure(),
    {
        match self {
            Reply::Users(users) => Ok(users),
            other => Err(other.into_failure()),
        }
    }

    /// Reads the reply to a search for one role.
    pub fn into_role(self) -> (found: Result<Option<Role>, Failure>)
        ensures
            found matches Ok(role) ==> self@ == ReplyView::Role(role.deep_view()),
            found matches Err(failure) ==> self@ !is Role && failure@ == self@.failure(),
    {
        match self {
            Reply::Role(role) => Ok(role),
            other => Err(other.into_failure()),
        }
    }

    /// Reads the reply to a search for several roles.
    pub fn into_roles(self) -> (found: Result<Vec<Role>, Failure>)
        ensures
            found matches Ok(roles) ==> self@ == ReplyView::Roles(roles.deep_view()),
            found matches Err(failure) ==> self@ !is Roles && failure@ == self@.failure(),
    {
        match self {
            Reply::Roles(roles) => Ok(roles),
            other => Err(other.into_failure()),
        }
    }

    /// Reads the reply to a search for one permission.
    pub fn into_permission(self) -> (found: Result<Option<Permission>, Failure>)
        ensures
            found matches Ok(permission) ==> self@ == ReplyView::Permission(
                permission.deep_view(),
            ),
            found matches Err(failure) ==> self@ !is Permission && failure@ == self@.failure(),
    {
        match self {
            Reply::Permission(permission) => Ok(permission),
            other => Err(other.into_failure()),
        }
    }

    /// Reads the reply to a search for several permissions.
    pub fn into_permissions(self) -> (found: Result<Vec<Permission>, Failure>)
        ensures
            found matches Ok(permissions) ==> self@ == ReplyView::Permissions(
                permissions.deep_view(),
            ),
            found matches Err(failure) ==> self@ !is Permissions && failure@ == self@.failure(),
    {
        match self {
            Reply::Permissions(permissions) => Ok(permissions),
            other => Err(other.into_failure()),
        }
    }
}

/// The state of an operation that has made its only request.
#[derive(Clone, Copy, Debug, PartialEq, Eq, Structural)]
pub struct Pending;

impl View for Pending {
    type V = Pending;

    open spec fn view(&self) -> Pending {
        *self
    }
}

impl DeepView for Pending {
    type V = Pending;

    open spec fn deep_view(&self) -> Pending {
        *self
    }
}

/// Where an operation stands.
#[derive(Clone, Debug, PartialEq, Eq)]
pub enum Step<S, X, E> {
    /// The caller performs the request and resumes the operation with the
    /// state and the reply.
    Ask(S, Request),
    /// The operation has succeeded.
    Done(X),
    /// The operation has failed.
    Failed(E),
}

/// What a `Step` stands for in contracts.
pub ghost enum StepView<S, X, E> {
    Ask(S, RequestView),
    Done(X),
    Failed(E),
}

impl<S: DeepView, X: DeepView, E: DeepView> DeepView for Step<S, X, E> {
    type V = StepView<S::V, X::V, E::V>;

    open spec fn deep_view(&self) -> StepView<S::V, X::V, E::V> {
        match self {
            Step::Ask(state, request) => StepView::Ask(state.deep_view(), request@),
            Step::Done(value) => StepView::Done(value.deep_view()),
            Step::Failed(error) => StepView::Failed(error.deep_view()),
        }
    }
}

impl<S, X, E> StepView<S, X, E> {
    /// Whether the operation has ended.
    pub open spec fn is_finished(self) -> bool {
        self !is Ask
    }
}

/// The broad classes into which the errors of the repositories and services
/// fall.
#[derive(Clone, Copy, Debug, PartialEq, Eq, Structural)]
pub enum ErrorKind {
    /// A required input is empty.
    Validation,
    /// Another entity already has the natural key.
    DuplicateKey,
    /// No such entity.
    NotFound,
    /// The audit entry could not be written; the operation was not begun.
    AuditFailure,
    /// The store failed.
    StoreBackendFailure,
}

/// A copy of a list of identifiers.
pub fn copy_ids(ids: &Vec<String>) -> (copy: Vec<String>)
    ensures
        copy.deep_view() == ids.deep_view(),
{
    let copy = ids.clone();
    assert(copy.deep_view() =~= ids.deep_view()) by {
        assert forall|i: int| 0 <= i < ids.len() implies copy[i] == ids[i] by {
            assert(cloned::<String>(ids[i], copy[i]));
        }
    }
    copy
}

} // verus!

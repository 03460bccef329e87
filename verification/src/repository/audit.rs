//! The audit ledger: who did what to which resource.

use crate::protocol::{
    copy_ids, Document, DocumentView, ErrorKind, Failure, FailureView, Reply, ReplyView, Request,
    RequestView, Step, StepView,
};
use crate::stamp::{fresh_id, timestamp, ID_LENGTH};
use vstd::prelude::*;

verus! {

/// What was done.
#[derive(Clone, Copy, Debug, PartialEq, Eq, Structural)]
pub enum Action {
    Create,
    Read,
    Update,
    Delete,
    Search,
}

/// The kind of entity an action was aimed at.
#[derive(Clone, Copy, Debug, PartialEq, Eq, Structural)]
pub enum ResourceType {
    User,
    Role,
    Permission,
}

/// How the resource of an action was named.
#[derive(Clone, Debug, PartialEq, Eq)]
pub enum ResourceId {
    /// One entity, by identifier.
    Id(String),
    /// Several entities, by identifier.
    IdVec(Vec<String>),
    /// One entity, by a natural key.
    Name(String),
    /// Whatever matches a free text.
    Text(String),
    /// The whole collection.
    Unspecified,
}

/// What a `ResourceId` stands for in contracts.
pub ghost enum ResourceIdView {
    Id(Seq<char>),
    IdVec(Seq<Seq<char>>),
    Name(Seq<char>),
    Text(Seq<char>),
    Unspecified,
}

impl View for ResourceId {
    type V = ResourceIdView;

    open spec fn view(&self) -> ResourceIdView {
        match self {
            ResourceId::Id(id) => ResourceIdView::Id(id@),
            ResourceId::IdVec(ids) => ResourceIdView::IdVec(ids.deep_view()),
            ResourceId::Name(name) => ResourceIdView::Name(name@),
            ResourceId::Text(text) => ResourceIdView::Text(text@),
            ResourceId::Unspecified => ResourceIdView::Unspecified,
        }
    }
}

impl DeepView for ResourceId {
    type V = ResourceIdView;

    open spec fn deep_view(&self) -> ResourceIdView {
        self@
    }
}

/// One entry of the ledger. Entries are written once and never changed.
#[derive(Clone, Debug, PartialEq, Eq)]
pub struct Audit {
    pub id: String,
    pub user_id: String,
    pub action: Action,
    pub resource_id: ResourceId,
    pub resource_type: ResourceType,
    pub created_at: String,
}

/// What an `Audit` stands for in contracts.
pub ghost struct AuditView {
    pub id: Seq<char>,
    pub user_id: Seq<char>,
    pub action: Action,
    pub resource_id: ResourceIdView,
    pub resource_type: ResourceType,
    pub created_at: Seq<char>,
}

impl View for Audit {
    type V = AuditView;

    open spec fn view(&self) -> AuditView {
        AuditView {
            id: self.id@,
            user_id: self.user_id@,
            action: self.action,
            resource_id: self.resource_id@,
            resource_type: self.resource_type,
            created_at: self.created_at@,
        }
    }
}

impl DeepView for Audit {
    type V = AuditView;

    open spec fn deep_view(&self) -> AuditView {
        self@
    }
}

/// What the generator of identifiers and the clock gave to a new record.
pub ghost struct Stamp {
    pub id: Seq<char>,
    pub now: Seq<char>,
}

impl Stamp {
    /// Whether the identifier has the length of a generated one.
    pub open spec fn is_fresh(self) -> bool {
        self.id.len() == ID_LENGTH
    }
}

impl AuditView {
    /// The entry for an action by an actor, with the identifier and the time
    /// of the stamp.
    pub open spec fn stamped(
        stamp: Stamp,
        user_id: Seq<char>,
        action: Action,
        resource_id: ResourceIdView,
        resource_type: ResourceType,
    ) -> AuditView {
        AuditView {
            id: stamp.id,
            user_id,
            action,
            resource_id,
            resource_type,
            created_at: stamp.now,
        }
    }

    /// The generated identifier and the time of the entry.
    pub open spec fn stamp(self) -> Stamp {
        Stamp { id: self.id, now: self.created_at }
    }

    /// Whether the entry describes the given action by the given actor, under
    /// some generated identifier and some time.
    pub open spec fn describes(
        self,
        user_id: Seq<char>,
        action: Action,
        resource_id: ResourceIdView,
        resource_type: ResourceType,
    ) -> bool {
        &&& self.id.len() == ID_LENGTH
        &&& self.user_id == user_id
        &&& self.action == action
        &&& self.resource_id == resource_id
        &&& self.resource_type == resource_type
    }
}

impl Audit {
    /// Builds an entry from its parts.
    pub fn assemble(
        id: String,
        created_at: String,
        user_id: &str,
        action: Action,
        resource_id: ResourceId,
        resource_type: ResourceType,
    ) -> (audit: Audit)
        ensures
            audit@ == (AuditView {
                id: id@,
                user_id: user_id@,
                action,
                resource_id: resource_id@,
                resource_type,
                created_at: created_at@,
            }),
    {
        Audit { id, user_id: user_id.to_owned(), action, resource_id, resource_type, created_at }
    }

    /// A new entry with a freshly generated identifier, stamped now.
    pub fn new(
        user_id: &str,
        action: Action,
        resource_id: ResourceId,
        resource_type: ResourceType,
    ) -> (audit: Audit)
        ensures
            audit@.describes(user_id@, action, resource_id@, resource_type),
    {
        let now = timestamp();
        let id = fresh_id();
        Audit::assemble(id, now, user_id, action, resource_id, resource_type)
    }
}

impl ResourceId {
    /// A copy of the resource's name.
    pub fn copy(&self) -> (copy: ResourceId)
        ensures
            copy@ == self@,
    {
        match self {
            ResourceId::Id(id) => ResourceId::Id(id.clone()),
            ResourceId::IdVec(ids) => ResourceId::IdVec(copy_ids(ids)),
            ResourceId::Name(name) => ResourceId::Name(name.clone()),
            ResourceId::Text(text) => ResourceId::Text(text.clone()),
            ResourceId::Unspecified => ResourceId::Unspecified,
        }
    }
}

impl Audit {
    /// A copy of the entry.
    pub fn copy(&self) -> (copy: Audit)
        ensures
            copy@ == self@,
    {
        Audit {
            id: self.id.clone(),
            user_id: self.user_id.clone(),
            action: self.action,
            resource_id: self.resource_id.copy(),
            resource_type: self.resource_type,
            created_at: self.created_at.clone(),
        }
    }
}

/// Why the ledger could not take an entry.
#[derive(Clone, Debug, PartialEq, Eq)]
pub enum Error {
    EmptyCollection,
    MongoDbError(Failure),
}

/// What an `Error` stands for in contracts.
pub ghost enum ErrorView {
    EmptyCollection,
    MongoDbError(FailureView),
}

impl View for Error {
    type V = ErrorView;

    open spec fn view(&self) -> ErrorView {
        match self {
            Error::EmptyCollection => ErrorView::EmptyCollection,
            Error::MongoDbError(failure) => ErrorView::MongoDbError(failure@),
        }
    }
}

impl DeepView for Error {
    type V = ErrorView;

    open spec fn deep_view(&self) -> ErrorView {
        self@
    }
}

impl ErrorView {
    /// The class of the error.
    pub open spec fn kind(self) -> ErrorKind {
        match self {
            ErrorView::EmptyCollection => ErrorKind::Validation,
            ErrorView::MongoDbError(_) => ErrorKind::StoreBackendFailure,
        }
    }

    /// The text of the error.
    pub open spec fn message(self) -> Seq<char> {
        match self {
            ErrorView::EmptyCollection => "Empty collection"@,
            ErrorView::MongoDbError(failure) => "MongoDB error: "@ + failure.message(),
        }
    }
}

impl Error {
    /// The class of the error.
    pub fn kind(&self) -> (kind: ErrorKind)
        ensures
            kind == self@.kind(),
    {
        match self {
            Error::EmptyCollection => ErrorKind::Validation,
            Error::MongoDbError(_) => ErrorKind::StoreBackendFailure,
        }
    }

    /// The text of the error.
    pub fn to_string(&self) -> (text: String)
        ensures
            text@ == self@.message(),
    {
        match self {
            Error::EmptyCollection => "Empty collection".to_owned(),
            Error::MongoDbError(failure) => {
                let reason = failure.to_string();
                "MongoDB error: ".to_owned().concat(reason.as_str())
            },
        }
    }
}

/// Appends entries to one collection of the document store. There is no way
/// to change or remove an entry.
#[derive(Clone, Debug, PartialEq, Eq)]
pub struct AuditRepository {
    pub collection: String,
}

/// What an `AuditRepository` stands for in contracts.
pub ghost struct AuditRepositoryView {
    pub collection: Seq<char>,
}

impl View for AuditRepository {
    type V = AuditRepositoryView;

    open spec fn view(&self) -> AuditRepositoryView {
        AuditRepositoryView { collection: self.collection@ }
    }
}

impl AuditRepositoryView {
    /// The request that appends an entry.
    pub open spec fn insertion(self, audit: AuditView) -> RequestView {
        RequestView::InsertOne { collection: self.collection, document: DocumentView::Audit(audit) }
    }

    /// An entry is appended, and kept to be handed back.
    pub open spec fn create(self, audit: AuditView) -> StepView<AuditView, AuditView, ErrorView> {
        StepView::Ask(audit, self.insertion(audit))
    }

    /// Once the store has written the entry, it is handed back.
    pub open spec fn resume_create(self, state: AuditView, reply: ReplyView) -> StepView<
        AuditView,
        AuditView,
        ErrorView,
    > {
        match reply {
            ReplyView::Written => StepView::Done(state),
            _ => StepView::Failed(ErrorView::MongoDbError(reply.failure())),
        }
    }
}

impl AuditRepository {
    /// A ledger over the named collection; the name must not be empty.
    pub fn new(collection: String) -> (repository: Result<AuditRepository, Error>)
        ensures
            collection@.len() == 0 ==> (repository matches Err(error) && error@
                == ErrorView::EmptyCollection),
            collection@.len() > 0 ==> (repository matches Ok(r) && r.collection == collection),
    {
        if collection.as_str().is_empty() {
            return Err(Error::EmptyCollection);
        }
        Ok(AuditRepository { collection })
    }

    /// The request that appends an entry.
    pub fn insertion(&self, audit: Audit) -> (request: Request)
        ensures
            request@ == self@.insertion(audit@),
    {
        Request::InsertOne { collection: self.collection.clone(), document: Document::Audit(audit) }
    }

    /// Begins to append an entry.
    pub fn create(&self, audit: Audit) -> (step: Step<Audit, Audit, Error>)
        ensures
            step.deep_view() == self@.create(audit@),
    {
        let kept = audit.copy();
        Step::Ask(kept, self.insertion(audit))
    }

    /// Ends the appending of an entry.
    pub fn resume_create(&self, state: Audit, reply: Reply) -> (step: Step<Audit, Audit, Error>)
        ensures
            step.deep_view() == self@.resume_create(state@, reply@),
    {
        match reply.into_written() {
            Ok(()) => Step::Done(state),
            Err(failure) => Step::Failed(Error::MongoDbError(failure)),
        }
    }
}

} // verus!

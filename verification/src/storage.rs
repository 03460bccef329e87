//! A model of the document store, for stating what the operations achieve.
//!
//! Nothing here runs. A [`Storage`] is what a store holds; `answers` says
//! which replies a store in that state may give to a request, and `after`
//! what it holds once the request has been performed. Any request may fail,
//! and one that failed has changed nothing.

use crate::protocol::{DocumentView, Field, Kind, ReplyView, RequestView, StepView};
use crate::repository::audit::Stamp;
use crate::repository::role::RoleView;
use crate::repository::user::UserView;
use vstd::prelude::*;

verus! {

impl DocumentView {
    /// The shape of the record; entries of the ledger are never searched for
    /// and have none.
    pub open spec fn kind(self) -> Option<Kind> {
        match self {
            DocumentView::User(_) => Some(Kind::User),
            DocumentView::Role(_) => Some(Kind::Role),
            DocumentView::Permission(_) => Some(Kind::Permission),
            DocumentView::Audit(_) => None,
        }
    }

    /// The value of a field, where the record has that field.
    pub open spec fn field(self, field: Field) -> Option<Seq<char>> {
        match (self, field) {
            (_, Field::Id) => Some(self.id()),
            (DocumentView::User(user), Field::Username) => Some(user.username),
            (DocumentView::User(user), Field::Email) => Some(user.email),
            (DocumentView::Role(role), Field::Name) => Some(role.name),
            (DocumentView::Permission(permission), Field::Name) => Some(permission.name),
            _ => None,
        }
    }

    /// Whether the record is of the kind and has the value in the field.
    pub open spec fn has(self, kind: Kind, field: Field, value: Seq<char>) -> bool {
        self.kind() == Some(kind) && self.field(field) == Some(value)
    }

    /// The record once the changeable fields of `change` are written to it.
    /// The identifier always stays; a user also keeps the password hash and
    /// the time of creation. Entries of the ledger do not change.
    pub open spec fn revised(self, change: DocumentView) -> DocumentView {
        match (self, change) {
            (DocumentView::User(old), DocumentView::User(new)) => DocumentView::User(
                UserView { id: old.id, password: old.password, created_at: old.created_at, ..new },
            ),
            (DocumentView::Role(old), DocumentView::Role(new)) => DocumentView::Role(
                RoleView { id: old.id, ..new },
            ),
            (DocumentView::Permission(old), DocumentView::Permission(new)) => {
                DocumentView::Permission(
                    crate::repository::permission::PermissionView { id: old.id, ..new },
                )
            },
            _ => self,
        }
    }

    /// The record once a permission is taken out of it: a role loses the
    /// identifier from its permissions, any other record stays as it is.
    pub open spec fn detached(self, permission_id: Seq<char>) -> DocumentView {
        match self {
            DocumentView::Role(role) => DocumentView::Role(
                RoleView {
                    permissions: match role.permissions {
                        Some(ids) => Some(ids.filter(|id: Seq<char>| id != permission_id)),
                        None => None,
                    },
                    ..role
                },
            ),
            _ => self,
        }
    }
}

impl ReplyView {
    /// The record that the reply reports as found, where the reply is the
    /// answer to a search for one record of the kind.
    pub open spec fn found(self, kind: Kind) -> Option<Option<DocumentView>> {
        match (self, kind) {
            (ReplyView::User(Some(user)), Kind::User) => Some(Some(DocumentView::User(user))),
            (ReplyView::User(None), Kind::User) => Some(None),
            (ReplyView::Role(Some(role)), Kind::Role) => Some(Some(DocumentView::Role(role))),
            (ReplyView::Role(None), Kind::Role) => Some(None),
            (ReplyView::Permission(Some(permission)), Kind::Permission) => Some(
                Some(DocumentView::Permission(permission)),
            ),
            (ReplyView::Permission(None), Kind::Permission) => Some(None),
            _ => None,
        }
    }

    /// The records that the reply lists, where the reply is the answer to a
    /// search for several records of the kind.
    pub open spec fn listed(self, kind: Kind) -> Option<Seq<DocumentView>> {
        match (self, kind) {
            (ReplyView::Users(users), Kind::User) => Some(
                users.map_values(|user: UserView| DocumentView::User(user)),
            ),
            (ReplyView::Roles(roles), Kind::Role) => Some(
                roles.map_values(|role: RoleView| DocumentView::Role(role)),
            ),
            (ReplyView::Permissions(permissions), Kind::Permission) => Some(
                permissions.map_values(
                    |permission: crate::repository::permission::PermissionView|
                        DocumentView::Permission(permission),
                ),
            ),
            _ => None,
        }
    }
}

/// What a document store holds: for each collection, its records.
pub ghost struct Storage {
    pub collections: Map<Seq<char>, Seq<DocumentView>>,
}

impl Storage {
    /// The records of a collection; a collection never written to is empty.
    pub open spec fn records(self, collection: Seq<char>) -> Seq<DocumentView> {
        if self.collections.dom().contains(collection) {
            self.collections[collection]
        } else {
            Seq::empty()
        }
    }

    /// The store with the records of one collection replaced.
    pub open spec fn with(self, collection: Seq<char>, records: Seq<DocumentView>) -> Storage {
        Storage { collections: self.collections.insert(collection, records) }
    }

    /// Whether a collection holds a record of the kind with the value in the
    /// field.
    pub open spec fn holds(self, collection: Seq<char>, kind: Kind, field: Field, value: Seq<char>)
        -> bool {
        exists|i: int|
            0 <= i < self.records(collection).len() && (#[trigger] self.records(collection)[i]).has(
                kind,
                field,
                value,
            )
    }

    /// Whether a store in this state may give the reply to the request.
    pub open spec fn answers(self, request: RequestView, reply: ReplyView) -> bool {
        reply is Failed || match request {
            RequestView::FindOne { collection, kind, field, value } => {
                match reply.found(kind) {
                    Some(Some(record)) => self.records(collection).contains(record) && record.has(
                        kind,
                        field,
                        value,
                    ),
                    Some(None) => !self.holds(collection, kind, field, value),
                    None => false,
                }
            },
            RequestView::FindMany { collection, kind, ids } => {
                reply.listed(kind) matches Some(records) && forall|record: DocumentView|
                    #[trigger] records.contains(record) <==> {
                        &&& self.records(collection).contains(record)
                        &&& record.kind() == Some(kind)
                        &&& ids.contains(record.id())
                    }
            },
            RequestView::FindAll { collection, kind } => {
                reply.listed(kind) matches Some(records) && forall|record: DocumentView|
                    #[trigger] records.contains(record) <==> {
                        &&& self.records(collection).contains(record)
                        &&& record.kind() == Some(kind)
                    }
            },
            RequestView::Search { collection, kind, text } => {
                reply.listed(kind) matches Some(records) && forall|record: DocumentView|
                    #[trigger] records.contains(record) ==> {
                        &&& self.records(collection).contains(record)
                        &&& record.kind() == Some(kind)
                    }
            },
            RequestView::InsertOne { collection, document } => {
                &&& reply is Written
                &&& forall|i: int|
                    0 <= i < self.records(collection).len() ==> (
                    #[trigger] self.records(collection)[i]).id() != document.id()
            },
            RequestView::UpdateOne { collection, document } => {
                match document.kind() {
                    Some(kind) => match reply.found(kind) {
                        Some(Some(record)) => record.id() == document.id() && self.holds(
                            collection,
                            kind,
                            Field::Id,
                            document.id(),
                        ),
                        Some(None) => !self.holds(collection, kind, Field::Id, document.id()),
                        None => false,
                    },
                    None => false,
                }
            },
            RequestView::DeleteOne { .. } => reply is Written,
            RequestView::DetachPermission { .. } => reply is Written,
            RequestView::IssueToken { .. } => reply is Token,
            RequestView::VerifyToken { .. } => reply is Subject,
        }
    }

    /// The store with a record added to a collection.
    pub open spec fn inserted(self, collection: Seq<char>, document: DocumentView) -> Storage {
        self.with(collection, self.records(collection).push(document))
    }

    /// The store with the changeable fields of a document written to the
    /// records of its kind that have its identifier.
    pub open spec fn updated(self, collection: Seq<char>, document: DocumentView) -> Storage {
        self.with(
            collection,
            self.records(collection).map_values(
                |record: DocumentView|
                    if record.id() == document.id() && record.kind() == document.kind() {
                        record.revised(document)
                    } else {
                        record
                    },
            ),
        )
    }

    /// The store without the records of a collection that have the
    /// identifier.
    pub open spec fn deleted(self, collection: Seq<char>, id: Seq<char>) -> Storage {
        self.with(
            collection,
            self.records(collection).filter(|record: DocumentView| record.id() != id),
        )
    }

    /// The store with a permission taken out of every role of a collection.
    pub open spec fn detached(self, collection: Seq<char>, permission_id: Seq<char>) -> Storage {
        self.with(
            collection,
            self.records(collection).map_values(
                |record: DocumentView| record.detached(permission_id),
            ),
        )
    }

    /// What the store holds once the request has been answered with the
    /// reply.
    pub open spec fn after(self, request: RequestView, reply: ReplyView) -> Storage {
        if reply is Failed {
            self
        } else {
            match request {
                RequestView::InsertOne { collection, document } => self.inserted(
                    collection,
                    document,
                ),
                RequestView::UpdateOne { collection, document } => self.updated(
                    collection,
                    document,
                ),
                RequestView::DeleteOne { collection, id } => self.deleted(collection, id),
                RequestView::DetachPermission { collection, permission_id } => self.detached(
                    collection,
                    permission_id,
                ),
                _ => self,
            }
        }
    }

    /// Whether every record of the kind that has the value in the field has
    /// the identifier: the value is free, or its holder's own.
    pub open spec fn only_held_by(
        self,
        collection: Seq<char>,
        kind: Kind,
        field: Field,
        value: Seq<char>,
        id: Seq<char>,
    ) -> bool {
        forall|i: int|
            0 <= i < self.records(collection).len() && (#[trigger] self.records(collection)[i]).has(
                kind,
                field,
                value,
            ) ==> self.records(collection)[i].id() == id
    }

    /// Whether a record of the kind has the value in the field, and none
    /// that does has the identifier: the value is another's.
    pub open spec fn held_by_another(
        self,
        collection: Seq<char>,
        kind: Kind,
        field: Field,
        value: Seq<char>,
        id: Seq<char>,
    ) -> bool {
        &&& self.holds(collection, kind, field, value)
        &&& forall|i: int|
            0 <= i < self.records(collection).len() && (#[trigger] self.records(collection)[i]).has(
                kind,
                field,
                value,
            ) ==> self.records(collection)[i].id() != id
    }
}

/// Where an operation stands, and what the store holds, once the replies
/// have been given to it one after the other.
pub open spec fn play<S, X, E>(
    resume: spec_fn(S, ReplyView) -> StepView<S, X, E>,
    step: StepView<S, X, E>,
    storage: Storage,
    replies: Seq<ReplyView>,
) -> (StepView<S, X, E>, Storage)
    decreases replies.len(),
{
    if replies.len() == 0 {
        (step, storage)
    } else {
        match step {
            StepView::Ask(state, request) => play(
                resume,
                resume(state, replies[0]),
                storage.after(request, replies[0]),
                replies.drop_first(),
            ),
            _ => (step, storage),
        }
    }
}

/// Whether each of the replies is one that the store may give to the request
/// then outstanding.
pub open spec fn honest<S, X, E>(
    resume: spec_fn(S, ReplyView) -> StepView<S, X, E>,
    step: StepView<S, X, E>,
    storage: Storage,
    replies: Seq<ReplyView>,
) -> bool
    decreases replies.len(),
{
    replies.len() == 0 || match step {
        StepView::Ask(state, request) => {
            &&& storage.answers(request, replies[0])
            &&& honest(
                resume,
                resume(state, replies[0]),
                storage.after(request, replies[0]),
                replies.drop_first(),
            )
        },
        _ => false,
    }
}

/// Where an operation stands, and what the store holds, once the replies
/// have been given to it one after the other, where the operation draws a
/// new stamp at every reply.
pub open spec fn play_stamped<S, X, E>(
    resume: spec_fn(S, ReplyView, Stamp) -> StepView<S, X, E>,
    step: StepView<S, X, E>,
    storage: Storage,
    replies: Seq<ReplyView>,
    stamps: Seq<Stamp>,
) -> (StepView<S, X, E>, Storage)
    decreases replies.len(),
{
    if replies.len() == 0 || stamps.len() == 0 {
        (step, storage)
    } else {
        match step {
            StepView::Ask(state, request) => play_stamped(
                resume,
                resume(state, replies[0], stamps[0]),
                storage.after(request, replies[0]),
                replies.drop_first(),
                stamps.drop_first(),
            ),
            _ => (step, storage),
        }
    }
}

/// Whether each of the replies is one that the store may give to the request
/// then outstanding, where the operation draws a new stamp at every reply.
pub open spec fn honest_stamped<S, X, E>(
    resume: spec_fn(S, ReplyView, Stamp) -> StepView<S, X, E>,
    step: StepView<S, X, E>,
    storage: Storage,
    replies: Seq<ReplyView>,
    stamps: Seq<Stamp>,
) -> bool
    decreases replies.len(),
{
    replies.len() == 0 || stamps.len() == 0 || match step {
        StepView::Ask(state, request) => {
            &&& storage.answers(request, replies[0])
            &&& honest_stamped(
                resume,
                resume(state, replies[0], stamps[0]),
                storage.after(request, replies[0]),
                replies.drop_first(),
                stamps.drop_first(),
            )
        },
        _ => false,
    }
}

/// Whether none of the replies reports a failure.
pub open spec fn unfailing(replies: Seq<ReplyView>) -> bool {
    forall|i: int| 0 <= i < replies.len() ==> !(#[trigger] replies[i] is Failed)
}

} // verus!

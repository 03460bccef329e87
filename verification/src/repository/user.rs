//! Users and the repository that keeps them.

use crate::protocol::{
    Document, DocumentView, ErrorKind, Failure, FailureView, Field, Kind, Pending, Reply, ReplyView,
    Request, RequestView, Step, StepView,
};
use crate::stamp::{fresh_id, timestamp, ID_LENGTH};
use vstd::prelude::*;

verus! {

/// A stored user. `password` holds the password hash, never the plain text.
#[derive(Clone, Debug, PartialEq, Eq)]
pub struct User {
    pub id: String,
    pub username: String,
    pub email: String,
    pub first_name: String,
    pub last_name: String,
    pub password: String,
    pub roles: Option<Vec<String>>,
    pub created_at: String,
    pub updated_at: String,
    pub enabled: bool,
}

/// What a `User` stands for in contracts.
pub ghost struct UserView {
    pub id: Seq<char>,
    pub username: Seq<char>,
    pub email: Seq<char>,
    pub first_name: Seq<char>,
    pub last_name: Seq<char>,
    pub password: Seq<char>,
    pub roles: Option<Seq<Seq<char>>>,
    pub created_at: Seq<char>,
    pub updated_at: Seq<char>,
    pub enabled: bool,
}

impl View for User {
    type V = UserView;

    open spec fn view(&self) -> UserView {
        UserView {
            id: self.id@,
            username: self.username@,
            email: self.email@,
            first_name: self.first_name@,
            last_name: self.last_name@,
            password: self.password@,
            roles: self.roles.deep_view(),
            created_at: self.created_at@,
            updated_at: self.updated_at@,
            enabled: self.enabled,
        }
    }
}

impl DeepView for User {
    type V = UserView;

    open spec fn deep_view(&self) -> UserView {
        self@
    }
}

/// A request to create a user.
#[derive(Clone, Debug, PartialEq, Eq)]
pub struct CreateUser {
    pub username: String,
    pub email: String,
    pub first_name: String,
    pub last_name: String,
    pub password: String,
    pub roles: Option<Vec<String>>,
}

/// What a `CreateUser` stands for in contracts.
pub ghost struct CreateUserView {
    pub username: Seq<char>,
    pub email: Seq<char>,
    pub first_name: Seq<char>,
    pub last_name: Seq<char>,
    pub password: Seq<char>,
    pub roles: Option<Seq<Seq<char>>>,
}

impl View for CreateUser {
    type V = CreateUserView;

    open spec fn view(&self) -> CreateUserView {
        CreateUserView {
            username: self.username@,
            email: self.email@,
            first_name: self.first_name@,
            last_name: self.last_name@,
            password: self.password@,
            roles: self.roles.deep_view(),
        }
    }
}

impl DeepView for CreateUser {
    type V = CreateUserView;

    open spec fn deep_view(&self) -> CreateUserView {
        self@
    }
}

impl UserView {
    /// The user that a creation request becomes under a given identifier
    /// and creation time: enabled, created and updated at the same moment.
    pub open spec fn assemble(value: CreateUserView, id: Seq<char>, now: Seq<char>) -> UserView {
        UserView {
            id,
            username: value.username,
            email: value.email,
            first_name: value.first_name,
            last_name: value.last_name,
            password: value.password,
            roles: value.roles,
            created_at: now,
            updated_at: now,
            enabled: true,
        }
    }

    /// Whether this user is what the request becomes under some generated
    /// identifier and some creation time.
    pub open spec fn created_from(self, value: CreateUserView) -> bool {
        &&& self.id.len() == ID_LENGTH
        &&& self == UserView::assemble(value, self.id, self.created_at)
    }
}

impl User {
    /// Builds the user of a request from an identifier and a creation time.
    pub fn assemble(value: CreateUser, id: String, now: String) -> (user: User)
        ensures
            user@ == UserView::assemble(value@, id@, now@),
    {
        User {
            id,
            username: value.username,
            email: value.email,
            first_name: value.first_name,
            last_name: value.last_name,
            password: value.password,
            roles: value.roles,
            created_at: now.clone(),
            updated_at: now,
            enabled: true,
        }
    }

    /// Turns a creation request into a user with a freshly generated
    /// identifier, created and updated now.
    pub fn from(value: CreateUser) -> (user: User)
        ensures
            user@.created_from(value@),
    {
        let now = timestamp();
        let id = fresh_id();
        User::assemble(value, id, now)
    }
}

/// Why an operation on users failed.
#[derive(Clone, Debug, PartialEq, Eq)]
pub enum Error {
    EmptyId,
    EmptyUsername,
    EmptyCollection,
    EmptyEmail,
    EmptyIdVec,
    UserNotFound,
    UsernameAlreadyTaken,
    EmailAlreadyTaken,
    MongoDbError(Failure),
    Audit(Failure),
}

/// What an `Error` stands for in contracts.
pub ghost enum ErrorView {
    EmptyId,
    EmptyUsername,
    EmptyCollection,
    EmptyEmail,
    EmptyIdVec,
    UserNotFound,
    UsernameAlreadyTaken,
    EmailAlreadyTaken,
    MongoDbError(FailureView),
    Audit(FailureView),
}

impl View for Error {
    type V = ErrorView;

    open spec fn view(&self) -> ErrorView {
        match self {
            Error::EmptyId => ErrorView::EmptyId,
            Error::EmptyUsername => ErrorView::EmptyUsername,
            Error::EmptyCollection => ErrorView::EmptyCollection,
            Error::EmptyEmail => ErrorView::EmptyEmail,
            Error::EmptyIdVec => ErrorView::EmptyIdVec,
            Error::UserNotFound => ErrorView::UserNotFound,
            Error::UsernameAlreadyTaken => ErrorView::UsernameAlreadyTaken,
            Error::EmailAlreadyTaken => ErrorView::EmailAlreadyTaken,
            Error::MongoDbError(failure) => ErrorView::MongoDbError(failure@),
            Error::Audit(failure) => ErrorView::Audit(failure@),
        }
    }
}

impl DeepView for Error {
    type V = ErrorView;

    open spec fn deep_view(&self) -> ErrorView {
        self@
    }
}

impl ErrorView {
    /// The class of the error.
    pub open spec fn kind(self) -> ErrorKind {
        match self {
            ErrorView::EmptyId
            | ErrorView::EmptyUsername
            | ErrorView::EmptyCollection
            | ErrorView::EmptyEmail
            | ErrorView::EmptyIdVec => ErrorKind::Validation,
            ErrorView::UserNotFound => ErrorKind::NotFound,
            ErrorView::UsernameAlreadyTaken | ErrorView::EmailAlreadyTaken => {
                ErrorKind::DuplicateKey
            },
            ErrorView::MongoDbError(_) => ErrorKind::StoreBackendFailure,
            ErrorView::Audit(_) => ErrorKind::AuditFailure,
        }
    }

    /// The text of the error.
    pub open spec fn message(self) -> Seq<char> {
        match self {
            ErrorView::EmptyId => "Empty User ID"@,
            ErrorView::EmptyUsername => "Empty username"@,
            ErrorView::EmptyCollection => "Empty collection"@,
            ErrorView::EmptyEmail => "Empty email"@,
            ErrorView::EmptyIdVec => "Empty ID vector"@,
            ErrorView::UserNotFound => "User not found"@,
            ErrorView::UsernameAlreadyTaken => "Username already taken"@,
            ErrorView::EmailAlreadyTaken => "Email already taken"@,
            ErrorView::MongoDbError(failure) => "MongoDB error: "@ + failure.message(),
            ErrorView::Audit(failure) => "Audit error: "@ + failure.message(),
        }
    }
}

impl Error {
    /// The class of the error.
    pub fn kind(&self) -> (kind: ErrorKind)
        ensures
            kind == self@.kind(),
    {
        match self {
            Error::EmptyId
            | Error::EmptyUsername
            | Error::EmptyCollection
            | Error::EmptyEmail
            | Error::EmptyIdVec => ErrorKind::Validation,
            Error::UserNotFound => ErrorKind::NotFound,
            Error::UsernameAlreadyTaken | Error::EmailAlreadyTaken => ErrorKind::DuplicateKey,
            Error::MongoDbError(_) => ErrorKind::StoreBackendFailure,
            Error::Audit(_) => ErrorKind::AuditFailure,
        }
    }

    /// The text of the error.
    pub fn to_string(&self) -> (text: String)
        ensures
            text@ == self@.message(),
    {
        match self {
            Error::EmptyId => "Empty User ID".to_owned(),
            Error::EmptyUsername => "Empty username".to_owned(),
            Error::EmptyCollection => "Empty collection".to_owned(),
            Error::EmptyEmail => "Empty email".to_owned(),
            Error::EmptyIdVec => "Empty ID vector".to_owned(),
            Error::UserNotFound => "User not found".to_owned(),
            Error::UsernameAlreadyTaken => "Username already taken".to_owned(),
            Error::EmailAlreadyTaken => "Email already taken".to_owned(),
            Error::MongoDbError(failure) => {
                let reason = failure.to_string();
                "MongoDB error: ".to_owned().concat(reason.as_str())
            },
            Error::Audit(failure) => {
                let reason = failure.to_string();
                "Audit error: ".to_owned().concat(reason.as_str())
            },
        }
    }
}

/// Where the creation of a user stands.
#[derive(Clone, Debug, PartialEq, Eq)]
pub enum Creation {
    /// Asked whether the username is taken.
    CheckingUsername(User),
    /// Asked whether the email is taken.
    CheckingEmail(User),
    /// Asked to insert the user with this identifier.
    Inserting(String),
    /// Asked for the user as the store now holds it.
    Rereading,
}

/// What a `Creation` stands for in contracts.
pub ghost enum CreationView {
    CheckingUsername(UserView),
    CheckingEmail(UserView),
    Inserting(Seq<char>),
    Rereading,
}

impl View for Creation {
    type V = CreationView;

    open spec fn view(&self) -> CreationView {
        match self {
            Creation::CheckingUsername(user) => CreationView::CheckingUsername(user@),
            Creation::CheckingEmail(user) => CreationView::CheckingEmail(user@),
            Creation::Inserting(id) => CreationView::Inserting(id@),
            Creation::Rereading => CreationView::Rereading,
        }
    }
}

impl DeepView for Creation {
    type V = CreationView;

    open spec fn deep_view(&self) -> CreationView {
        self@
    }
}

/// Where the update of a user stands.
#[derive(Clone, Debug, PartialEq, Eq)]
pub enum Revision {
    /// Asked who has the username.
    CheckingUsername(User),
    /// Asked who has the email.
    CheckingEmail(User),
    /// Asked to write the new values.
    Writing,
}

/// What a `Revision` stands for in contracts.
pub ghost enum RevisionView {
    CheckingUsername(UserView),
    CheckingEmail(UserView),
    Writing,
}

impl View for Revision {
    type V = RevisionView;

    open spec fn view(&self) -> RevisionView {
        match self {
            Revision::CheckingUsername(user) => RevisionView::CheckingUsername(user@),
            Revision::CheckingEmail(user) => RevisionView::CheckingEmail(user@),
            Revision::Writing => RevisionView::Writing,
        }
    }
}

impl DeepView for Revision {
    type V = RevisionView;

    open spec fn deep_view(&self) -> RevisionView {
        self@
    }
}

/// Keeps users in one collection of the document store.
#[derive(Clone, Debug, PartialEq, Eq)]
pub struct UserRepository {
    pub collection: String,
}

/// What a `UserRepository` stands for in contracts.
pub ghost struct UserRepositoryView {
    pub collection: Seq<char>,
}

impl View for UserRepository {
    type V = UserRepositoryView;

    open spec fn view(&self) -> UserRepositoryView {
        UserRepositoryView { collection: self.collection@ }
    }
}

impl UserRepositoryView {
    /// The request for the one user whose field has the value.
    pub open spec fn find_one(self, field: Field, value: Seq<char>) -> RequestView {
        RequestView::FindOne { collection: self.collection, kind: Kind::User, field, value }
    }

    /// How a search for one user begins: an empty value is refused before
    /// the store is asked.
    pub open spec fn find_by(self, field: Field, value: Seq<char>, empty: ErrorView) -> StepView<
        Pending,
        Option<UserView>,
        ErrorView,
    > {
        if value.len() == 0 {
            StepView::Failed(empty)
        } else {
            StepView::Ask(Pending, self.find_one(field, value))
        }
    }

    /// A search by identifier.
    pub open spec fn find_by_id(self, id: Seq<char>) -> StepView<
        Pending,
        Option<UserView>,
        ErrorView,
    > {
        self.find_by(Field::Id, id, ErrorView::EmptyId)
    }

    /// A search by username.
    pub open spec fn find_by_username(self, username: Seq<char>) -> StepView<
        Pending,
        Option<UserView>,
        ErrorView,
    > {
        self.find_by(Field::Username, username, ErrorView::EmptyUsername)
    }

    /// A search by email.
    pub open spec fn find_by_email(self, email: Seq<char>) -> StepView<
        Pending,
        Option<UserView>,
        ErrorView,
    > {
        self.find_by(Field::Email, email, ErrorView::EmptyEmail)
    }

    /// How a search for one user ends.
    pub open spec fn resume_find(self, reply: ReplyView) -> StepView<
        Pending,
        Option<UserView>,
        ErrorView,
    > {
        match reply {
            ReplyView::User(found) => StepView::Done(found),
            _ => StepView::Failed(ErrorView::MongoDbError(reply.failure())),
        }
    }

    /// A search for every user.
    pub open spec fn find_all(self) -> StepView<Pending, Seq<UserView>, ErrorView> {
        StepView::Ask(Pending, RequestView::FindAll { collection: self.collection, kind: Kind::User })
    }

    /// A search by several identifiers; an empty list is refused before the
    /// store is asked.
    pub open spec fn find_by_id_vec(self, ids: Seq<Seq<char>>) -> StepView<
        Pending,
        Seq<UserView>,
        ErrorView,
    > {
        if ids.len() == 0 {
            StepView::Failed(ErrorView::EmptyIdVec)
        } else {
            StepView::Ask(
                Pending,
                RequestView::FindMany { collection: self.collection, kind: Kind::User, ids },
            )
        }
    }

    /// A search by free text.
    pub open spec fn search(self, text: Seq<char>) -> StepView<Pending, Seq<UserView>, ErrorView> {
        StepView::Ask(
            Pending,
            RequestView::Search { collection: self.collection, kind: Kind::User, text },
        )
    }

    /// How a search for several users ends.
    pub open spec fn resume_list(self, reply: ReplyView) -> StepView<
        Pending,
        Seq<UserView>,
        ErrorView,
    > {
        match reply {
            ReplyView::Users(found) => StepView::Done(found),
            _ => StepView::Failed(ErrorView::MongoDbError(reply.failure())),
        }
    }

    /// A deletion; an empty identifier is refused before the store is asked.
    pub open spec fn delete(self, id: Seq<char>) -> StepView<Pending, (), ErrorView> {
        if id.len() == 0 {
            StepView::Failed(ErrorView::EmptyId)
        } else {
            StepView::Ask(Pending, RequestView::DeleteOne { collection: self.collection, id })
        }
    }

    /// How a deletion ends.
    pub open spec fn resume_delete(self, reply: ReplyView) -> StepView<Pending, (), ErrorView> {
        match reply {
            ReplyView::Written => StepView::Done(()),
            _ => StepView::Failed(ErrorView::MongoDbError(reply.failure())),
        }
    }

    /// Creation begins by asking who has the username.
    pub open spec fn create(self, user: UserView) -> StepView<CreationView, UserView, ErrorView> {
        if user.username.len() == 0 {
            StepView::Failed(ErrorView::EmptyUsername)
        } else {
            StepView::Ask(
                CreationView::CheckingUsername(user),
                self.find_one(Field::Username, user.username),
            )
        }
    }

    /// Creation goes on: the username and then the email must be free, the
    /// user is inserted, and the stored record is read back by identifier.
    pub open spec fn resume_create(self, state: CreationView, reply: ReplyView) -> StepView<
        CreationView,
        UserView,
        ErrorView,
    > {
        match (state, reply) {
            (CreationView::CheckingUsername(_), ReplyView::User(Some(_))) => StepView::Failed(
                ErrorView::UsernameAlreadyTaken,
            ),
            (CreationView::CheckingUsername(user), ReplyView::User(None)) => {
                if user.email.len() == 0 {
                    StepView::Failed(ErrorView::EmptyEmail)
                } else {
                    StepView::Ask(
                        CreationView::CheckingEmail(user),
                        self.find_one(Field::Email, user.email),
                    )
                }
            },
            (CreationView::CheckingEmail(_), ReplyView::User(Some(_))) => StepView::Failed(
                ErrorView::EmailAlreadyTaken,
            ),
            (CreationView::CheckingEmail(user), ReplyView::User(None)) => StepView::Ask(
                CreationView::Inserting(user.id),
                RequestView::InsertOne {
                    collection: self.collection,
                    document: DocumentView::User(user),
                },
            ),
            (CreationView::Inserting(id), ReplyView::Written) => {
                if id.len() == 0 {
                    StepView::Failed(ErrorView::EmptyId)
                } else {
                    StepView::Ask(CreationView::Rereading, self.find_one(Field::Id, id))
                }
            },
            (CreationView::Rereading, ReplyView::User(Some(stored))) => StepView::Done(stored),
            (CreationView::Rereading, ReplyView::User(None)) => StepView::Failed(
                ErrorView::UserNotFound,
            ),
            _ => StepView::Failed(ErrorView::MongoDbError(reply.failure())),
        }
    }

    /// An update begins by asking who has the username.
    pub open spec fn update(self, user: UserView) -> StepView<RevisionView, UserView, ErrorView> {
        if user.username.len() == 0 {
            StepView::Failed(ErrorView::EmptyUsername)
        } else {
            StepView::Ask(
                RevisionView::CheckingUsername(user),
                self.find_one(Field::Username, user.username),
            )
        }
    }

    /// An update goes on: the username and then the email must be free or
    /// the user's own, and the new values are written, stamped with `now`.
    pub open spec fn resume_update(
        self,
        state: RevisionView,
        reply: ReplyView,
        now: Seq<char>,
    ) -> StepView<RevisionView, UserView, ErrorView> {
        match (state, reply) {
            (RevisionView::CheckingUsername(user), ReplyView::User(holder)) => {
                if holder matches Some(other) && other.id != user.id {
                    StepView::Failed(ErrorView::UsernameAlreadyTaken)
                } else if user.email.len() == 0 {
                    StepView::Failed(ErrorView::EmptyEmail)
                } else {
                    StepView::Ask(
                        RevisionView::CheckingEmail(user),
                        self.find_one(Field::Email, user.email),
                    )
                }
            },
            (RevisionView::CheckingEmail(user), ReplyView::User(holder)) => {
                if holder matches Some(other) && other.id != user.id {
                    StepView::Failed(ErrorView::EmailAlreadyTaken)
                } else {
                    StepView::Ask(
                        RevisionView::Writing,
                        RequestView::UpdateOne {
                            collection: self.collection,
                            document: DocumentView::User(UserView { updated_at: now, ..user }),
                        },
                    )
                }
            },
            (RevisionView::Writing, ReplyView::User(Some(stored))) => StepView::Done(stored),
            (RevisionView::Writing, ReplyView::User(None)) => StepView::Failed(
                ErrorView::UserNotFound,
            ),
            _ => StepView::Failed(ErrorView::MongoDbError(reply.failure())),
        }
    }

    /// How the creation of a user takes a reply.
    pub open spec fn creating(self) -> spec_fn(CreationView, ReplyView) -> StepView<
        CreationView,
        UserView,
        ErrorView,
    > {
        |state: CreationView, reply: ReplyView| self.resume_create(state, reply)
    }

    /// How the update of a user takes a reply, where what is written is
    /// stamped with `now`.
    pub open spec fn revising(self, now: Seq<char>) -> spec_fn(RevisionView, ReplyView) -> StepView<
        RevisionView,
        UserView,
        ErrorView,
    > {
        |state: RevisionView, reply: ReplyView| self.resume_update(state, reply, now)
    }

    /// How a search for one user takes a reply.
    pub open spec fn finding(self) -> spec_fn(Pending, ReplyView) -> StepView<
        Pending,
        Option<UserView>,
        ErrorView,
    > {
        |state: Pending, reply: ReplyView| self.resume_find(reply)
    }

    /// How a search for several users takes a reply.
    pub open spec fn listing(self) -> spec_fn(Pending, ReplyView) -> StepView<
        Pending,
        Seq<UserView>,
        ErrorView,
    > {
        |state: Pending, reply: ReplyView| self.resume_list(reply)
    }

    /// How the deletion of a user takes a reply.
    pub open spec fn deleting(self) -> spec_fn(Pending, ReplyView) -> StepView<
        Pending,
        (),
        ErrorView,
    > {
        |state: Pending, reply: ReplyView| self.resume_delete(reply)
    }
}

impl UserRepository {
    /// A repository over the named collection; the name must not be empty.
    pub fn new(collection: String) -> (repository: Result<UserRepository, Error>)
        ensures
            collection@.len() == 0 ==> (repository matches Err(error) && error@
                == ErrorView::EmptyCollection),
            collection@.len() > 0 ==> (repository matches Ok(r) && r.collection == collection),
    {
        if collection.as_str().is_empty() {
            return Err(Error::EmptyCollection);
        }
        Ok(UserRepository { collection })
    }

    fn find_one(&self, field: Field, value: &str) -> (request: Request)
        ensures
            request@ == self@.find_one(field, value@),
    {
        Request::FindOne {
            collection: self.collection.clone(),
            kind: Kind::User,
            field,
            value: value.to_owned(),
        }
    }

    /// Begins the creation of a user.
    pub fn create(&self, user: User) -> (step: Step<Creation, User, Error>)
        ensures
            step.deep_view() == self@.create(user@),
    {
        if user.username.as_str().is_empty() {
            return Step::Failed(Error::EmptyUsername);
        }
        let request = self.find_one(Field::Username, user.username.as_str());
        Step::Ask(Creation::CheckingUsername(user), request)
    }

    /// Takes the creation of a user one reply further.
    pub fn resume_create(&self, state: Creation, reply: Reply) -> (step: Step<
        Creation,
        User,
        Error,
    >)
        ensures
            step.deep_view() == self@.resume_create(state@, reply@),
    {
        match state {
            Creation::CheckingUsername(user) => match reply.into_user() {
                Ok(Some(_)) => Step::Failed(Error::UsernameAlreadyTaken),
                Ok(None) => {
                    if user.email.as_str().is_empty() {
                        return Step::Failed(Error::EmptyEmail);
                    }
                    let request = self.find_one(Field::Email, user.email.as_str());
                    Step::Ask(Creation::CheckingEmail(user), request)
                },
                Err(failure) => Step::Failed(Error::MongoDbError(failure)),
            },
            Creation::CheckingEmail(user) => match reply.into_user() {
                Ok(Some(_)) => Step::Failed(Error::EmailAlreadyTaken),
                Ok(None) => {
                    let id = user.id.clone();
                    Step::Ask(
                        Creation::Inserting(id),
                        Request::InsertOne {
                            collection: self.collection.clone(),
                            document: Document::User(user),
                        },
                    )
                },
                Err(failure) => Step::Failed(Error::MongoDbError(failure)),
            },
            Creation::Inserting(id) => match reply.into_written() {
                Ok(()) => {
                    if id.as_str().is_empty() {
                        return Step::Failed(Error::EmptyId);
                    }
                    Step::Ask(Creation::Rereading, self.find_one(Field::Id, id.as_str()))
                },
                Err(failure) => Step::Failed(Error::MongoDbError(failure)),
            },
            Creation::Rereading => match reply.into_user() {
                Ok(Some(stored)) => Step::Done(stored),
                Ok(None) => Step::Failed(Error::UserNotFound),
                Err(failure) => Step::Failed(Error::MongoDbError(failure)),
            },
        }
    }

    /// Begins the search for every user.
    pub fn find_all(&self) -> (step: Step<Pending, Vec<User>, Error>)
        ensures
            step.deep_view() == self@.find_all(),
    {
        Step::Ask(
            Pending,
            Request::FindAll { collection: self.collection.clone(), kind: Kind::User },
        )
    }

    /// Begins the search for the users with the given identifiers.
    pub fn find_by_id_vec(&self, id_vec: Vec<String>) -> (step: Step<Pending, Vec<User>, Error>)
        ensures
            step.deep_view() == self@.find_by_id_vec(id_vec.deep_view()),
    {
        if id_vec.len() == 0 {
            return Step::Failed(Error::EmptyIdVec);
        }
        Step::Ask(
            Pending,
            Request::FindMany { collection: self.collection.clone(), kind: Kind::User, ids: id_vec },
        )
    }

    /// Begins the search for the users that match a text.
    pub fn search(&self, text: &str) -> (step: Step<Pending, Vec<User>, Error>)
        ensures
            step.deep_view() == self@.search(text@),
    {
        Step::Ask(
            Pending,
            Request::Search {
                collection: self.collection.clone(),
                kind: Kind::User,
                text: text.to_owned(),
            },
        )
    }

    /// Ends a search for several users.
    pub fn resume_list(&self, reply: Reply) -> (step: Step<Pending, Vec<User>, Error>)
        ensures
            step.deep_view() == self@.resume_list(reply@),
    {
        match reply.into_users() {
            Ok(users) => Step::Done(users),
            Err(failure) => Step::Failed(Error::MongoDbError(failure)),
        }
    }

    /// Begins the search for the user with an identifier.
    pub fn find_by_id(&self, id: &str) -> (step: Step<Pending, Option<User>, Error>)
        ensures
            step.deep_view() == self@.find_by_id(id@),
    {
        if id.is_empty() {
            return Step::Failed(Error::EmptyId);
        }
        Step::Ask(Pending, self.find_one(Field::Id, id))
    }

    /// Begins the search for the user with a username.
    pub fn find_by_username(&self, username: &str) -> (step: Step<Pending, Option<User>, Error>)
        ensures
            step.deep_view() == self@.find_by_username(username@),
    {
        if username.is_empty() {
            return Step::Failed(Error::EmptyUsername);
        }
        Step::Ask(Pending, self.find_one(Field::Username, username))
    }

    /// Begins the search for the user with an email.
    pub fn find_by_email(&self, email: &str) -> (step: Step<Pending, Option<User>, Error>)
        ensures
            step.deep_view() == self@.find_by_email(email@),
    {
        if email.is_empty() {
            return Step::Failed(Error::EmptyEmail);
        }
        Step::Ask(Pending, self.find_one(Field::Email, email))
    }

    /// Ends a search for one user.
    pub fn resume_find(&self, reply: Reply) -> (step: Step<Pending, Option<User>, Error>)
        ensures
            step.deep_view() == self@.resume_find(reply@),
    {
        match reply.into_user() {
            Ok(found) => Step::Done(found),
            Err(failure) => Step::Failed(Error::MongoDbError(failure)),
        }
    }

    /// Begins the update of a user.
    pub fn update(&self, user: User) -> (step: Step<Revision, User, Error>)
        ensures
            step.deep_view() == self@.update(user@),
    {
        if user.username.as_str().is_empty() {
            return Step::Failed(Error::EmptyUsername);
        }
        let request = self.find_one(Field::Username, user.username.as_str());
        Step::Ask(Revision::CheckingUsername(user), request)
    }

    /// Takes the update of a user one reply further, stamping what is
    /// written with the given time.
    pub fn resume_update_at(&self, state: Revision, reply: Reply, now: String) -> (step: Step<
        Revision,
        User,
        Error,
    >)
        ensures
            step.deep_view() == self@.resume_update(state@, reply@, now@),
    {
        match state {
            Revision::CheckingUsername(user) => match reply.into_user() {
                Ok(holder) => {
                    if taken_by_another(&holder, &user) {
                        return Step::Failed(Error::UsernameAlreadyTaken);
                    }
                    if user.email.as_str().is_empty() {
                        return Step::Failed(Error::EmptyEmail);
                    }
                    let request = self.find_one(Field::Email, user.email.as_str());
                    Step::Ask(Revision::CheckingEmail(user), request)
                },
                Err(failure) => Step::Failed(Error::MongoDbError(failure)),
            },
            Revision::CheckingEmail(user) => match reply.into_user() {
                Ok(holder) => {
                    if taken_by_another(&holder, &user) {
                        return Step::Failed(Error::EmailAlreadyTaken);
                    }
                    let mut user = user;
                    user.updated_at = now;
                    Step::Ask(
                        Revision::Writing,
                        Request::UpdateOne {
                            collection: self.collection.clone(),
                            document: Document::User(user),
                        },
                    )
                },
                Err(failure) => Step::Failed(Error::MongoDbError(failure)),
            },
            Revision::Writing => match reply.into_user() {
                Ok(Some(stored)) => Step::Done(stored),
                Ok(None) => Step::Failed(Error::UserNotFound),
                Err(failure) => Step::Failed(Error::MongoDbError(failure)),
            },
        }
    }

    /// Takes the update of a user one reply further, stamping what is
    /// written with the current time.
    pub fn resume_update(&self, state: Revision, reply: Reply) -> (step: Step<
        Revision,
        User,
        Error,
    >)
        ensures
            exists|now: Seq<char>| step.deep_view() == self@.resume_update(state@, reply@, now),
    {
        let now = timestamp();
        self.resume_update_at(state, reply, now)
    }

    /// Begins the deletion of the user with an identifier.
    pub fn delete(&self, id: &str) -> (step: Step<Pending, (), Error>)
        ensures
            step.deep_view() == self@.delete(id@),
    {
        if id.is_empty() {
            return Step::Failed(Error::EmptyId);
        }
        Step::Ask(
            Pending,
            Request::DeleteOne { collection: self.collection.clone(), id: id.to_owned() },
        )
    }

    /// Ends a deletion.
    pub fn resume_delete(&self, reply: Reply) -> (step: Step<Pending, (), Error>)
        ensures
            step.deep_view() == self@.resume_delete(reply@),
    {
        match reply.into_written() {
            Ok(()) => Step::Done(()),
            Err(failure) => Step::Failed(Error::MongoDbError(failure)),
        }
    }
}

/// Whether a natural key is held by a user other than the given one.
fn taken_by_another(holder: &Option<User>, user: &User) -> (taken: bool)
    ensures
        taken == (holder.deep_view() matches Some(other) && other.id != user@.id),
{
    match holder {
        Some(other) => other.id != user.id,
        None => false,
    }
}

} // verus!

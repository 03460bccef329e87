#![allow(dead_code, unused_imports)]

use auth_rs::configuration::{Config, Services};
use auth_rs::protocol::{Document, ErrorKind, Failure, Field, Kind, Pending, Reply, Request, Step};
use auth_rs::repository::audit::{Action, Audit, AuditRepository, ResourceId, ResourceType};
use auth_rs::repository::permission::{Permission, PermissionRepository};
use auth_rs::repository::role::{Role, RoleRepository};
use auth_rs::repository::user::{CreateUser, User, UserRepository};
use auth_rs::services::audit::{Audited, AuditService};
use auth_rs::services::permission::PermissionService;
use auth_rs::services::role::RoleService;
use auth_rs::services::user::UserService;
use auth_rs::repository::user::{Creation, Error, Revision};

/// A document store and token service kept in memory, answering as a
/// healthy backend would. `fail_at` makes the n-th request fail.
struct Backend {
    users: Vec<User>,
    roles: Vec<Role>,
    permissions: Vec<Permission>,
    audits: Vec<Audit>,
    asked: usize,
    fail_at: Option<usize>,
    ledger_down: bool,
    tokens_down: bool,
}

impl Backend {
    fn new() -> Backend {
        Backend {
            users: vec![],
            roles: vec![],
            permissions: vec![],
            audits: vec![],
            asked: 0,
            fail_at: None,
            ledger_down: false,
            tokens_down: false,
        }
    }

    fn perform(&mut self, request: Request) -> Reply {
        self.asked += 1;
        if self.fail_at == Some(self.asked) {
            return Reply::Failed(String::from("backend down"));
        }
        match request {
            Request::FindOne { kind, field, value, .. } => match kind {
                Kind::User => Reply::User(
                    self.users
                        .iter()
                        .find(|u| match field {
                            Field::Id => u.id == value,
                            Field::Username => u.username == value,
                            Field::Email => u.email == value,
                            Field::Name => false,
                        })
                        .cloned(),
                ),
                Kind::Role => Reply::Role(
                    self.roles
                        .iter()
                        .find(|r| match field {
                            Field::Id => r.id == value,
                            Field::Name => r.name == value,
                            _ => false,
                        })
                        .cloned(),
                ),
                Kind::Permission => Reply::Permission(
                    self.permissions
                        .iter()
                        .find(|p| match field {
                            Field::Id => p.id == value,
                            Field::Name => p.name == value,
                            _ => false,
                        })
                        .cloned(),
                ),
            },
            Request::FindMany { kind, ids, .. } => match kind {
                Kind::User => {
                    Reply::Users(self.users.iter().filter(|u| ids.contains(&u.id)).cloned().collect())
                }
                Kind::Role => {
                    Reply::Roles(self.roles.iter().filter(|r| ids.contains(&r.id)).cloned().collect())
                }
                Kind::Permission => Reply::Permissions(
                    self.permissions.iter().filter(|p| ids.contains(&p.id)).cloned().collect(),
                ),
            },
            Request::FindAll { kind, .. } => match kind {
                Kind::User => Reply::Users(self.users.clone()),
                Kind::Role => Reply::Roles(self.roles.clone()),
                Kind::Permission => Reply::Permissions(self.permissions.clone()),
            },
            Request::Search { kind, text, .. } => match kind {
                Kind::User => Reply::Users(
                    self.users.iter().filter(|u| u.username.contains(&text)).cloned().collect(),
                ),
                Kind::Role => {
                    Reply::Roles(self.roles.iter().filter(|r| r.name.contains(&text)).cloned().collect())
                }
                Kind::Permission => Reply::Permissions(
                    self.permissions.iter().filter(|p| p.name.contains(&text)).cloned().collect(),
                ),
            },
            Request::InsertOne { document, .. } => match document {
                Document::User(user) => {
                    if self.users.iter().any(|u| u.id == user.id) {
                        return Reply::Failed(String::from("duplicate key"));
                    }
                    self.users.push(user);
                    Reply::Written
                }
                Document::Role(role) => {
                    if self.roles.iter().any(|r| r.id == role.id) {
                        return Reply::Failed(String::from("duplicate key"));
                    }
                    self.roles.push(role);
                    Reply::Written
                }
                Document::Permission(permission) => {
                    if self.permissions.iter().any(|p| p.id == permission.id) {
                        return Reply::Failed(String::from("duplicate key"));
                    }
                    self.permissions.push(permission);
                    Reply::Written
                }
                Document::Audit(audit) => {
                    if self.ledger_down {
                        return Reply::Failed(String::from("ledger down"));
                    }
                    self.audits.push(audit);
                    Reply::Written
                }
            },
            Request::UpdateOne { document, .. } => match document {
                Document::User(new) => {
                    match self.users.iter_mut().find(|u| u.id == new.id) {
                        Some(old) => {
                            old.username = new.username;
                            old.email = new.email;
                            old.first_name = new.first_name;
                            old.last_name = new.last_name;
                            old.roles = new.roles;
                            old.updated_at = new.updated_at;
                            old.enabled = new.enabled;
                            Reply::User(Some(old.clone()))
                        }
                        None => Reply::User(None),
                    }
                }
                Document::Role(new) => match self.roles.iter_mut().find(|r| r.id == new.id) {
                    Some(old) => {
                        old.name = new.name;
                        old.permissions = new.permissions;
                        Reply::Role(Some(old.clone()))
                    }
                    None => Reply::Role(None),
                },
                Document::Permission(new) => {
                    match self.permissions.iter_mut().find(|p| p.id == new.id) {
                        Some(old) => {
                            old.name = new.name;
                            old.description = new.description;
                            Reply::Permission(Some(old.clone()))
                        }
                        None => Reply::Permission(None),
                    }
                }
                Document::Audit(_) => Reply::Failed(String::from("the ledger is append-only")),
            },
            Request::DeleteOne { collection, id } => {
                match collection.as_str() {
                    "users" => self.users.retain(|u| u.id != id),
                    "roles" => self.roles.retain(|r| r.id != id),
                    "permissions" => self.permissions.retain(|p| p.id != id),
                    _ => return Reply::Failed(String::from("unknown collection")),
                }
                Reply::Written
            }
            Request::DetachPermission { permission_id, .. } => {
                for role in self.roles.iter_mut() {
                    if let Some(ids) = role.permissions.as_mut() {
                        ids.retain(|id| *id != permission_id);
                    }
                }
                Reply::Written
            }
            Request::IssueToken { subject } => {
                if self.tokens_down {
                    Reply::Token(None)
                } else {
                    Reply::Token(Some(format!("signed[{}]", subject)))
                }
            }
            Request::VerifyToken { token } => Reply::Subject(
                token
                    .strip_prefix("signed[")
                    .and_then(|rest| rest.strip_suffix("]"))
                    .map(String::from),
            ),
        }
    }
}

/// Performs the requests of an operation until it ends.
fn run<S, X, E>(
    backend: &mut Backend,
    first: Step<S, X, E>,
    resume: impl Fn(S, Reply) -> Step<S, X, E>,
) -> Result<X, E> {
    let mut step = first;
    loop {
        match step {
            Step::Ask(state, request) => {
                let reply = backend.perform(request);
                step = resume(state, reply);
            }
            Step::Done(value) => return Ok(value),
            Step::Failed(error) => return Err(error),
        }
    }
}

fn config() -> Config {
    config_with_salt("c29tZXNhbHR2YWx1ZQ")
}

fn config_with_salt(salt: &str) -> Config {
    Config::new(
        String::from(salt),
        Services {
            user_service: UserService::new(UserRepository::new(String::from("users")).unwrap()),
            role_service: RoleService::new(RoleRepository::new(String::from("roles")).unwrap()),
            permission_service: PermissionService::new(
                PermissionRepository::new(String::from("permissions")).unwrap(),
            ),
            audit_service: AuditService::new(
                AuditRepository::new(String::from("audits")).unwrap(),
            ),
        },
    )
}

fn user(id: &str, username: &str, email: &str) -> User {
    User {
        id: String::from(id),
        username: String::from(username),
        email: String::from(email),
        first_name: String::from("First"),
        last_name: String::from("Last"),
        password: String::from("hash"),
        roles: None,
        created_at: String::from("2024-01-01T00:00:00+00:00"),
        updated_at: String::from("2024-01-01T00:00:00+00:00"),
        enabled: true,
    }
}

fn role(id: &str, name: &str, permissions: Option<Vec<&str>>) -> Role {
    Role {
        id: String::from(id),
        name: String::from(name),
        permissions: permissions.map(|ids| ids.into_iter().map(String::from).collect()),
    }
}

fn permission(id: &str, name: &str) -> Permission {
    Permission {
        id: String::from(id),
        name: String::from(name),
        description: String::from("described"),
    }
}


fn repository() -> UserRepository {
    UserRepository::new(String::from("users")).unwrap()
}

fn find_one(field: Field, value: &str) -> Request {
    Request::FindOne {
        collection: String::from("users"),
        kind: Kind::User,
        field,
        value: String::from(value),
    }
}

#[test]
fn new_refuses_an_empty_collection() {
    assert_eq!(UserRepository::new(String::new()), Err(Error::EmptyCollection));
    assert_eq!(repository().collection, "users");
}

#[test]
fn create_asks_for_the_username_first() {
    let alice = user("1", "alice", "alice@x.com");
    assert_eq!(
        repository().create(alice.clone()),
        Step::Ask(Creation::CheckingUsername(alice), find_one(Field::Username, "alice"))
    );
}

#[test]
fn create_refuses_an_empty_username_before_asking() {
    assert_eq!(repository().create(user("1", "", "a@x.com")), Step::Failed(Error::EmptyUsername));
}

#[test]
fn create_refuses_an_empty_email_after_the_username_check() {
    let nameless = user("1", "alice", "");
    assert_eq!(
        repository().resume_create(Creation::CheckingUsername(nameless), Reply::User(None)),
        Step::Failed(Error::EmptyEmail)
    );
}

#[test]
fn create_goes_through_its_four_requests() {
    let repository = repository();
    let alice = user("1", "alice", "alice@x.com");
    let step = repository.resume_create(Creation::CheckingUsername(alice.clone()), Reply::User(None));
    assert_eq!(
        step,
        Step::Ask(Creation::CheckingEmail(alice.clone()), find_one(Field::Email, "alice@x.com"))
    );
    let step = repository.resume_create(Creation::CheckingEmail(alice.clone()), Reply::User(None));
    assert_eq!(
        step,
        Step::Ask(
            Creation::Inserting(String::from("1")),
            Request::InsertOne {
                collection: String::from("users"),
                document: Document::User(alice.clone()),
            }
        )
    );
    let step = repository.resume_create(Creation::Inserting(String::from("1")), Reply::Written);
    assert_eq!(step, Step::Ask(Creation::Rereading, find_one(Field::Id, "1")));
    let step = repository.resume_create(Creation::Rereading, Reply::User(Some(alice.clone())));
    assert_eq!(step, Step::Done(alice));
}

#[test]
fn create_stores_the_user_and_hands_back_the_stored_one() {
    let mut backend = Backend::new();
    let repository = repository();
    let alice = user("1", "alice", "alice@x.com");
    let created = run(&mut backend, repository.create(alice.clone()), |s, r| {
        repository.resume_create(s, r)
    });
    assert_eq!(created, Ok(alice.clone()));
    assert_eq!(backend.users, vec![alice]);
    assert_eq!(backend.asked, 4);
}

#[test]
fn second_user_with_the_same_username_is_a_duplicate() {
    let mut backend = Backend::new();
    let repository = repository();
    let first = user("1", "alice", "alice@x.com");
    let mut second = user("2", "alice", "other@y.org");
    second.first_name = String::from("Another");
    second.enabled = false;
    assert!(run(&mut backend, repository.create(first.clone()), |s, r| repository
        .resume_create(s, r))
    .is_ok());
    let refused =
        run(&mut backend, repository.create(second), |s, r| repository.resume_create(s, r));
    assert_eq!(refused, Err(Error::UsernameAlreadyTaken));
    assert_eq!(backend.users, vec![first]);
}

#[test]
fn second_user_with_the_same_email_is_a_duplicate() {
    let mut backend = Backend::new();
    let repository = repository();
    backend.users.push(user("1", "alice", "alice@x.com"));
    let refused = run(&mut backend, repository.create(user("2", "bob", "alice@x.com")), |s, r| {
        repository.resume_create(s, r)
    });
    assert_eq!(refused, Err(Error::EmailAlreadyTaken));
    assert_eq!(backend.users.len(), 1);
}

#[test]
fn create_fails_as_not_found_when_the_stored_user_cannot_be_read_back() {
    assert_eq!(
        repository().resume_create(Creation::Rereading, Reply::User(None)),
        Step::Failed(Error::UserNotFound)
    );
}

#[test]
fn create_refuses_to_read_back_an_empty_id() {
    assert_eq!(
        repository().resume_create(Creation::Inserting(String::new()), Reply::Written),
        Step::Failed(Error::EmptyId)
    );
}

#[test]
fn create_passes_a_failure_of_the_store_on() {
    let repository = repository();
    for fail_at in 1..=4 {
        let mut backend = Backend::new();
        backend.fail_at = Some(fail_at);
        let outcome = run(&mut backend, repository.create(user("1", "alice", "a@x.com")), |s, r| {
            repository.resume_create(s, r)
        });
        assert_eq!(
            outcome,
            Err(Error::MongoDbError(Failure::Backend(String::from("backend down"))))
        );
        assert_eq!(backend.asked, fail_at);
    }
}

#[test]
fn a_reply_that_does_not_fit_is_a_failure_of_the_store() {
    let repository = repository();
    let alice = user("1", "alice", "alice@x.com");
    assert_eq!(
        repository.resume_create(Creation::CheckingUsername(alice.clone()), Reply::Written),
        Step::Failed(Error::MongoDbError(Failure::Protocol))
    );
    assert_eq!(
        repository.resume_create(Creation::Inserting(String::from("1")), Reply::User(None)),
        Step::Failed(Error::MongoDbError(Failure::Protocol))
    );
    assert_eq!(
        repository.resume_find(Reply::Roles(vec![])),
        Step::Failed(Error::MongoDbError(Failure::Protocol))
    );
    assert_eq!(
        repository.resume_list(Reply::User(None)),
        Step::Failed(Error::MongoDbError(Failure::Protocol))
    );
    assert_eq!(
        repository.resume_delete(Reply::Token(None)),
        Step::Failed(Error::MongoDbError(Failure::Protocol))
    );
    assert_eq!(
        repository.resume_update_at(Revision::Writing, Reply::Written, String::from("now")),
        Step::Failed(Error::MongoDbError(Failure::Protocol))
    );
}

#[test]
fn find_by_id_refuses_an_empty_id() {
    assert_eq!(repository().find_by_id(""), Step::Failed(Error::EmptyId));
    assert_eq!(repository().find_by_id("7"), Step::Ask(Pending, find_one(Field::Id, "7")));
}

#[test]
fn find_by_username_refuses_an_empty_username() {
    assert_eq!(repository().find_by_username(""), Step::Failed(Error::EmptyUsername));
    assert_eq!(
        repository().find_by_username("alice"),
        Step::Ask(Pending, find_one(Field::Username, "alice"))
    );
}

#[test]
fn find_by_email_refuses_an_empty_email() {
    assert_eq!(repository().find_by_email(""), Step::Failed(Error::EmptyEmail));
    assert_eq!(
        repository().find_by_email("a@x.com"),
        Step::Ask(Pending, find_one(Field::Email, "a@x.com"))
    );
}

#[test]
fn find_hands_back_what_the_store_found() {
    let alice = user("1", "alice", "alice@x.com");
    assert_eq!(repository().resume_find(Reply::User(Some(alice.clone()))), Step::Done(Some(alice)));
    assert_eq!(repository().resume_find(Reply::User(None)), Step::Done(None));
    assert_eq!(
        repository().resume_find(Reply::Failed(String::from("boom"))),
        Step::Failed(Error::MongoDbError(Failure::Backend(String::from("boom"))))
    );
}

#[test]
fn find_all_lists_every_user() {
    let mut backend = Backend::new();
    let repository = repository();
    backend.users.push(user("1", "alice", "alice@x.com"));
    backend.users.push(user("2", "bob", "bob@x.com"));
    assert_eq!(
        repository.find_all(),
        Step::Ask(Pending, Request::FindAll { collection: String::from("users"), kind: Kind::User })
    );
    let all = run(&mut backend, repository.find_all(), |_, r| repository.resume_list(r)).unwrap();
    assert_eq!(all.len(), 2);
}

#[test]
fn searches_for_several_users() {
    let mut backend = Backend::new();
    let repository = repository();
    backend.users.push(user("1", "alice", "alice@x.com"));
    backend.users.push(user("2", "bob", "bob@x.com"));
    assert_eq!(repository.find_by_id_vec(vec![]), Step::Failed(Error::EmptyIdVec));
    assert_eq!(
        repository.find_by_id_vec(vec![String::from("2")]),
        Step::Ask(
            Pending,
            Request::FindMany {
                collection: String::from("users"),
                kind: Kind::User,
                ids: vec![String::from("2")],
            }
        )
    );
    assert_eq!(
        repository.search("ali"),
        Step::Ask(
            Pending,
            Request::Search {
                collection: String::from("users"),
                kind: Kind::User,
                text: String::from("ali"),
            }
        )
    );
    let some = run(
        &mut backend,
        repository.find_by_id_vec(vec![String::from("2"), String::from("7")]),
        |_, r| repository.resume_list(r),
    );
    assert_eq!(some, Ok(vec![user("2", "bob", "bob@x.com")]));
    let hits = run(&mut backend, repository.search("ali"), |_, r| repository.resume_list(r));
    assert_eq!(hits, Ok(vec![user("1", "alice", "alice@x.com")]));
}

#[test]
fn update_to_own_username_and_email_succeeds() {
    let mut backend = Backend::new();
    let repository = repository();
    backend.users.push(user("1", "alice", "alice@x.com"));
    backend.users.push(user("2", "bob", "bob@x.com"));
    let mut changed = user("1", "alice", "alice@x.com");
    changed.first_name = String::from("Alicia");
    let updated = run(&mut backend, repository.update(changed), |s, r| {
        repository.resume_update_at(s, r, String::from("2025-05-05T05:05:05+00:00"))
    })
    .unwrap();
    assert_eq!(updated.first_name, "Alicia");
    assert_eq!(updated.updated_at, "2025-05-05T05:05:05+00:00");
    assert_eq!(updated.created_at, "2024-01-01T00:00:00+00:00");
    assert_eq!(backend.users[0].first_name, "Alicia");
    assert_eq!(backend.users[1], user("2", "bob", "bob@x.com"));
}

#[test]
fn update_into_the_username_of_another_is_a_duplicate() {
    let mut backend = Backend::new();
    let repository = repository();
    backend.users.push(user("1", "alice", "alice@x.com"));
    backend.users.push(user("2", "bob", "bob@x.com"));
    let outcome = run(&mut backend, repository.update(user("2", "alice", "bob@x.com")), |s, r| {
        repository.resume_update(s, r)
    });
    assert_eq!(outcome, Err(Error::UsernameAlreadyTaken));
    assert_eq!(backend.users[1].username, "bob");
}

#[test]
fn update_into_the_email_of_another_is_a_duplicate() {
    let mut backend = Backend::new();
    let repository = repository();
    backend.users.push(user("1", "alice", "alice@x.com"));
    backend.users.push(user("2", "bob", "bob@x.com"));
    let outcome = run(&mut backend, repository.update(user("2", "bob", "alice@x.com")), |s, r| {
        repository.resume_update(s, r)
    });
    assert_eq!(outcome, Err(Error::EmailAlreadyTaken));
    assert_eq!(backend.users[1].email, "bob@x.com");
}

#[test]
fn update_of_an_unknown_user_is_not_found() {
    let mut backend = Backend::new();
    let repository = repository();
    let outcome = run(&mut backend, repository.update(user("9", "zed", "zed@x.com")), |s, r| {
        repository.resume_update(s, r)
    });
    assert_eq!(outcome, Err(Error::UserNotFound));
}

#[test]
fn update_stamps_what_it_writes_with_the_time_given() {
    let repository = repository();
    let alice = user("1", "alice", "alice@x.com");
    let step = repository.resume_update_at(
        Revision::CheckingEmail(alice.clone()),
        Reply::User(Some(alice.clone())),
        String::from("later"),
    );
    let mut written = alice;
    written.updated_at = String::from("later");
    assert_eq!(
        step,
        Step::Ask(
            Revision::Writing,
            Request::UpdateOne {
                collection: String::from("users"),
                document: Document::User(written),
            }
        )
    );
}

#[test]
fn update_with_the_clock_changes_only_the_time_of_update() {
    let repository = repository();
    let alice = user("1", "alice", "alice@x.com");
    match repository.resume_update(Revision::CheckingEmail(alice.clone()), Reply::User(None)) {
        Step::Ask(Revision::Writing, Request::UpdateOne { document: Document::User(written), .. }) => {
            assert!(!written.updated_at.is_empty());
            assert_ne!(written.updated_at, alice.updated_at);
            assert_eq!(User { updated_at: alice.updated_at.clone(), ..written }, alice);
        }
        other => panic!("unexpected step: {:?}", other),
    }
}

#[test]
fn update_refuses_empty_keys() {
    assert_eq!(repository().update(user("1", "", "a@x.com")), Step::Failed(Error::EmptyUsername));
    assert_eq!(
        repository().resume_update(
            Revision::CheckingUsername(user("1", "alice", "")),
            Reply::User(None)
        ),
        Step::Failed(Error::EmptyEmail)
    );
}

#[test]
fn delete_refuses_an_empty_id() {
    assert_eq!(repository().delete(""), Step::Failed(Error::EmptyId));
}

#[test]
fn delete_removes_the_user() {
    let mut backend = Backend::new();
    let repository = repository();
    backend.users.push(user("1", "alice", "alice@x.com"));
    assert_eq!(
        repository.delete("1"),
        Step::Ask(
            Pending,
            Request::DeleteOne { collection: String::from("users"), id: String::from("1") }
        )
    );
    assert_eq!(run(&mut backend, repository.delete("1"), |_, r| repository.resume_delete(r)), Ok(()));
    assert!(backend.users.is_empty());
}

#[test]
fn errors_say_what_went_wrong() {
    assert_eq!(Error::EmptyId.to_string(), "Empty User ID");
    assert_eq!(Error::EmptyUsername.to_string(), "Empty username");
    assert_eq!(Error::EmptyCollection.to_string(), "Empty collection");
    assert_eq!(Error::EmptyEmail.to_string(), "Empty email");
    assert_eq!(Error::EmptyIdVec.to_string(), "Empty ID vector");
    assert_eq!(Error::UserNotFound.to_string(), "User not found");
    assert_eq!(Error::UsernameAlreadyTaken.to_string(), "Username already taken");
    assert_eq!(Error::EmailAlreadyTaken.to_string(), "Email already taken");
    assert_eq!(
        Error::MongoDbError(Failure::Backend(String::from("timeout"))).to_string(),
        "MongoDB error: timeout"
    );
    assert_eq!(Error::MongoDbError(Failure::Protocol).to_string(), "MongoDB error: unexpected reply");
    assert_eq!(
        Error::Audit(Failure::Backend(String::from("full"))).to_string(),
        "Audit error: full"
    );
}

#[test]
fn errors_fall_into_their_classes() {
    assert_eq!(Error::EmptyId.kind(), ErrorKind::Validation);
    assert_eq!(Error::EmptyUsername.kind(), ErrorKind::Validation);
    assert_eq!(Error::EmptyEmail.kind(), ErrorKind::Validation);
    assert_eq!(Error::EmptyCollection.kind(), ErrorKind::Validation);
    assert_eq!(Error::EmptyIdVec.kind(), ErrorKind::Validation);
    assert_eq!(Error::UserNotFound.kind(), ErrorKind::NotFound);
    assert_eq!(Error::UsernameAlreadyTaken.kind(), ErrorKind::DuplicateKey);
    assert_eq!(Error::EmailAlreadyTaken.kind(), ErrorKind::DuplicateKey);
    assert_eq!(Error::MongoDbError(Failure::Protocol).kind(), ErrorKind::StoreBackendFailure);
    assert_eq!(Error::Audit(Failure::Protocol).kind(), ErrorKind::AuditFailure);
}

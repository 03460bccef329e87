#![allow(dead_code, unused_imports)]

use auth_rs::configuration::{Config, Services};
use auth_rs::protocol::{Document, ErrorKind, Failure, Field, Kind, Pending, Reply, Request, Step};
use auth_rs::repository::audit::{Action, Audit, AuditRepository, ResourceId, ResourceType};
use auth_rs::repository::permission::{Permission, PermissionRepository};
use auth_rs::repository::role::{Role, RoleRepository};
use auth_rs::repository::user::{CreateUser, User, UserRepository};
use auth_rs::services::audit::{Audited, AuditService};
use auth_rs::services::permission::PermissionService;
use auth_rs::services::role::RoleService;
use auth_rs::services::user::UserService;
use auth_rs::repository::role::{Creation, Error, Revision};

/// A document store and token service kept in memory, answering as a
/// healthy backend would. `fail_at` makes the n-th request fail.
struct Backend {
    users: Vec<User>,
    roles: Vec<Role>,
    permissions: Vec<Permission>,
    audits: Vec<Audit>,
    asked: usize,
    fail_at: Option<usize>,
    ledger_down: bool,
    tokens_down: bool,
}

impl Backend {
    fn new() -> Backend {
        Backend {
            users: vec![],
            roles: vec![],
            permissions: vec![],
            audits: vec![],
            asked: 0,
            fail_at: None,
            ledger_down: false,
            tokens_down: false,
        }
    }

    fn perform(&mut self, request: Request) -> Reply {
        self.asked += 1;
        if self.fail_at == Some(self.asked) {
            return Reply::Failed(String::from("backend down"));
        }
        match request {
            Request::FindOne { kind, field, value, .. } => match kind {
                Kind::User => Reply::User(
                    self.users
                        .iter()
                        .find(|u| match field {
                            Field::Id => u.id == value,
                            Field::Username => u.username == value,
                            Field::Email => u.email == value,
                            Field::Name => false,
                        })
                        .cloned(),
                ),
                Kind::Role => Reply::Role(
                    self.roles
                        .iter()
                        .find(|r| match field {
                            Field::Id => r.id == value,
                            Field::Name => r.name == value,
                            _ => false,
                        })
                        .cloned(),
                ),
                Kind::Permission => Reply::Permission(
                    self.permissions
                        .iter()
                        .find(|p| match field {
                            Field::Id => p.id == value,
                            Field::Name => p.name == value,
                            _ => false,
                        })
                        .cloned(),
                ),
            },
            Request::FindMany { kind, ids, .. } => match kind {
                Kind::User => {
                    Reply::Users(self.users.iter().filter(|u| ids.contains(&u.id)).cloned().collect())
                }
                Kind::Role => {
                    Reply::Roles(self.roles.iter().filter(|r| ids.contains(&r.id)).cloned().collect())
                }
                Kind::Permission => Reply::Permissions(
                    self.permissions.iter().filter(|p| ids.contains(&p.id)).cloned().collect(),
                ),
            },
            Request::FindAll { kind, .. } => match kind {
                Kind::User => Reply::Users(self.users.clone()),
                Kind::Role => Reply::Roles(self.roles.clone()),
                Kind::Permission => Reply::Permissions(self.permissions.clone()),
            },
            Request::Search { kind, text, .. } => match kind {
                Kind::User => Reply::Users(
                    self.users.iter().filter(|u| u.username.contains(&text)).cloned().collect(),
                ),
                Kind::Role => {
                    Reply::Roles(self.roles.iter().filter(|r| r.name.contains(&text)).cloned().collect())
                }
                Kind::Permission => Reply::Permissions(
                    self.permissions.iter().filter(|p| p.name.contains(&text)).cloned().collect(),
                ),
            },
            Request::InsertOne { document, .. } => match document {
                Document::User(user) => {
                    if self.users.iter().any(|u| u.id == user.id) {
                        return Reply::Failed(String::from("duplicate key"));
                    }
                    self.users.push(user);
                    Reply::Written
                }
                Document::Role(role) => {
                    if self.roles.iter().any(|r| r.id == role.id) {
                        return Reply::Failed(String::from("duplicate key"));
                    }
                    self.roles.push(role);
                    Reply::Written
                }
                Document::Permission(permission) => {
                    if self.permissions.iter().any(|p| p.id == permission.id) {
                        return Reply::Failed(String::from("duplicate key"));
                    }
                    self.permissions.push(permission);
                    Reply::Written
                }
                Document::Audit(audit) => {
                    if self.ledger_down {
                        return Reply::Failed(String::from("ledger down"));
                    }
                    self.audits.push(audit);
                    Reply::Written
                }
            },
            Request::UpdateOne { document, .. } => match document {
                Document::User(new) => {
                    match self.users.iter_mut().find(|u| u.id == new.id) {
                        Some(old) => {
                            old.username = new.username;
                            old.email = new.email;
                            old.first_name = new.first_name;
                            old.last_name = new.last_name;
                            old.roles = new.roles;
                            old.updated_at = new.updated_at;
                            old.enabled = new.enabled;
                            Reply::User(Some(old.clone()))
                        }
                        None => Reply::User(None),
                    }
                }
                Document::Role(new) => match self.roles.iter_mut().find(|r| r.id == new.id) {
                    Some(old) => {
                        old.name = new.name;
                        old.permissions = new.permissions;
                        Reply::Role(Some(old.clone()))
                    }
                    None => Reply::Role(None),
                },
                Document::Permission(new) => {
                    match self.permissions.iter_mut().find(|p| p.id == new.id) {
                        Some(old) => {
                            old.name = new.name;
                            old.description = new.description;
                            Reply::Permission(Some(old.clone()))
                        }
                        None => Reply::Permission(None),
                    }
                }
                Document::Audit(_) => Reply::Failed(String::from("the ledger is append-only")),
            },
            Request::DeleteOne { collection, id } => {
                match collection.as_str() {
                    "users" => self.users.retain(|u| u.id != id),
                    "roles" => self.roles.retain(|r| r.id != id),
                    "permissions" => self.permissions.retain(|p| p.id != id),
                    _ => return Reply::Failed(String::from("unknown collection")),
                }
                Reply::Written
            }
            Request::DetachPermission { permission_id, .. } => {
                for role in self.roles.iter_mut() {
                    if let Some(ids) = role.permissions.as_mut() {
                        ids.retain(|id| *id != permission_id);
                    }
                }
                Reply::Written
            }
            Request::IssueToken { subject } => {
                if self.tokens_down {
                    Reply::Token(None)
                } else {
                    Reply::Token(Some(format!("signed[{}]", subject)))
                }
            }
            Request::VerifyToken { token } => Reply::Subject(
                token
                    .strip_prefix("signed[")
                    .and_then(|rest| rest.strip_suffix("]"))
                    .map(String::from),
            ),
        }
    }
}

/// Performs the requests of an operation until it ends.
fn run<S, X, E>(
    backend: &mut Backend,
    first: Step<S, X, E>,
    resume: impl Fn(S, Reply) -> Step<S, X, E>,
) -> Result<X, E> {
    let mut step = first;
    loop {
        match step {
            Step::Ask(state, request) => {
                let reply = backend.perform(request);
                step = resume(state, reply);
            }
            Step::Done(value) => return Ok(value),
            Step::Failed(error) => return Err(error),
        }
    }
}

fn config() -> Config {
    config_with_salt("c29tZXNhbHR2YWx1ZQ")
}

fn config_with_salt(salt: &str) -> Config {
    Config::new(
        String::from(salt),
        Services {
            user_service: UserService::new(UserRepository::new(String::from("users")).unwrap()),
            role_service: RoleService::new(RoleRepository::new(String::from("roles")).unwrap()),
            permission_service: PermissionService::new(
                PermissionRepository::new(String::from("permissions")).unwrap(),
            ),
            audit_service: AuditService::new(
                AuditRepository::new(String::from("audits")).unwrap(),
            ),
        },
    )
}

fn user(id: &str, username: &str, email: &str) -> User {
    User {
        id: String::from(id),
        username: String::from(username),
        email: String::from(email),
        first_name: String::from("First"),
        last_name: String::from("Last"),
        password: String::from("hash"),
        roles: None,
        created_at: String::from("2024-01-01T00:00:00+00:00"),
        updated_at: String::from("2024-01-01T00:00:00+00:00"),
        enabled: true,
    }
}

fn role(id: &str, name: &str, permissions: Option<Vec<&str>>) -> Role {
    Role {
        id: String::from(id),
        name: String::from(name),
        permissions: permissions.map(|ids| ids.into_iter().map(String::from).collect()),
    }
}

fn permission(id: &str, name: &str) -> Permission {
    Permission {
        id: String::from(id),
        name: String::from(name),
        description: String::from("described"),
    }
}


fn repository() -> RoleRepository {
    RoleRepository::new(String::from("roles")).unwrap()
}

fn find_one(field: Field, value: &str) -> Request {
    Request::FindOne {
        collection: String::from("roles"),
        kind: Kind::Role,
        field,
        value: String::from(value),
    }
}

#[test]
fn role_repository_needs_a_collection() {
    assert_eq!(RoleRepository::new(String::new()), Err(Error::EmptyCollection));
}

#[test]
fn role_creation_stores_the_role() {
    let mut backend = Backend::new();
    let repository = repository();
    let admin = role("r1", "ADMIN", Some(vec!["p1"]));
    assert_eq!(
        repository.create(admin.clone()),
        Step::Ask(Creation::CheckingName(admin.clone()), find_one(Field::Name, "ADMIN"))
    );
    let created =
        run(&mut backend, repository.create(admin.clone()), |s, r| repository.resume_create(s, r));
    assert_eq!(created, Ok(admin.clone()));
    assert_eq!(backend.roles, vec![admin]);
    assert_eq!(backend.asked, 3);
}

#[test]
fn role_creation_refuses_an_empty_or_taken_name() {
    let mut backend = Backend::new();
    let repository = repository();
    assert_eq!(repository.create(role("r1", "", None)), Step::Failed(Error::EmptyName));
    backend.roles.push(role("r1", "ADMIN", None));
    let refused = run(&mut backend, repository.create(role("r2", "ADMIN", None)), |s, r| {
        repository.resume_create(s, r)
    });
    assert_eq!(refused, Err(Error::NameAlreadyTaken));
    assert_eq!(
        repository.resume_create(Creation::Rereading, Reply::Role(None)),
        Step::Failed(Error::RoleNotFound)
    );
    assert_eq!(
        repository.resume_create(Creation::Inserting(String::new()), Reply::Written),
        Step::Failed(Error::EmptyId)
    );
}

#[test]
fn role_searches_refuse_empty_input() {
    let repository = repository();
    assert_eq!(repository.find_by_id(""), Step::Failed(Error::EmptyId));
    assert_eq!(repository.find_by_name(""), Step::Failed(Error::EmptyName));
    assert_eq!(repository.find_by_id_vec(vec![]), Step::Failed(Error::EmptyIdVec));
    assert_eq!(repository.find_by_name("ADMIN"), Step::Ask(Pending, find_one(Field::Name, "ADMIN")));
    assert_eq!(repository.find_by_id("r1"), Step::Ask(Pending, find_one(Field::Id, "r1")));
}

#[test]
fn role_searches_return_what_is_found() {
    let mut backend = Backend::new();
    let repository = repository();
    backend.roles.push(role("r1", "ADMIN", None));
    backend.roles.push(role("r2", "GUEST", None));
    let all = run(&mut backend, repository.find_all(), |_, r| repository.resume_list(r)).unwrap();
    assert_eq!(all.len(), 2);
    let some = run(
        &mut backend,
        repository.find_by_id_vec(vec![String::from("r2"), String::from("zz")]),
        |_, r| repository.resume_list(r),
    )
    .unwrap();
    assert_eq!(some, vec![role("r2", "GUEST", None)]);
    let hit = run(&mut backend, repository.search("ADM"), |_, r| repository.resume_list(r)).unwrap();
    assert_eq!(hit, vec![role("r1", "ADMIN", None)]);
    let one =
        run(&mut backend, repository.find_by_id("r1"), |_, r| repository.resume_find(r)).unwrap();
    assert_eq!(one, Some(role("r1", "ADMIN", None)));
    assert_eq!(
        repository.resume_find(Reply::User(None)),
        Step::Failed(Error::MongoDbError(Failure::Protocol))
    );
    assert_eq!(
        repository.resume_list(Reply::Users(vec![])),
        Step::Failed(Error::MongoDbError(Failure::Protocol))
    );
}

#[test]
fn role_update_keeps_its_own_name_and_refuses_that_of_another() {
    let mut backend = Backend::new();
    let repository = repository();
    backend.roles.push(role("r1", "ADMIN", None));
    backend.roles.push(role("r2", "GUEST", None));
    let changed = role("r1", "ADMIN", Some(vec!["p1"]));
    let updated =
        run(&mut backend, repository.update(changed.clone()), |s, r| repository.resume_update(s, r));
    assert_eq!(updated, Ok(changed));
    let refused = run(&mut backend, repository.update(role("r2", "ADMIN", None)), |s, r| {
        repository.resume_update(s, r)
    });
    assert_eq!(refused, Err(Error::NameAlreadyTaken));
    let missing = run(&mut backend, repository.update(role("r9", "NEW", None)), |s, r| {
        repository.resume_update(s, r)
    });
    assert_eq!(missing, Err(Error::RoleNotFound));
    assert_eq!(repository.update(role("r1", "", None)), Step::Failed(Error::EmptyName));
    assert_eq!(
        repository.resume_update(Revision::Writing, Reply::Failed(String::from("no"))),
        Step::Failed(Error::MongoDbError(Failure::Backend(String::from("no"))))
    );
}

#[test]
fn role_deletion_removes_the_role() {
    let mut backend = Backend::new();
    let repository = repository();
    backend.roles.push(role("r1", "ADMIN", None));
    assert_eq!(repository.delete(""), Step::Failed(Error::EmptyId));
    assert_eq!(run(&mut backend, repository.delete("r1"), |_, r| repository.resume_delete(r)), Ok(()));
    assert!(backend.roles.is_empty());
    assert_eq!(
        repository.resume_delete(Reply::Role(None)),
        Step::Failed(Error::MongoDbError(Failure::Protocol))
    );
}

#[test]
fn detaching_is_asked_of_the_collection_of_roles() {
    assert_eq!(
        repository().detach_permission("p1"),
        Request::DetachPermission {
            collection: String::from("roles"),
            permission_id: String::from("p1"),
        }
    );
    assert_eq!(
        RoleService::new(repository()).detach_permission("p2"),
        Request::DetachPermission {
            collection: String::from("roles"),
            permission_id: String::from("p2"),
        }
    );
}

#[test]
fn role_errors_say_what_went_wrong() {
    assert_eq!(Error::EmptyId.to_string(), "Empty Role ID");
    assert_eq!(Error::EmptyName.to_string(), "Empty name");
    assert_eq!(Error::EmptyCollection.to_string(), "Empty collection");
    assert_eq!(Error::EmptyIdVec.to_string(), "Empty ID vector");
    assert_eq!(Error::RoleNotFound.to_string(), "Role not found");
    assert_eq!(Error::NameAlreadyTaken.to_string(), "Name already taken");
    assert_eq!(Error::MongoDbError(Failure::Protocol).to_string(), "MongoDB error: unexpected reply");
    assert_eq!(Error::Audit(Failure::Backend(String::from("x"))).to_string(), "Audit error: x");
    assert_eq!(Error::EmptyId.kind(), ErrorKind::Validation);
    assert_eq!(Error::RoleNotFound.kind(), ErrorKind::NotFound);
    assert_eq!(Error::NameAlreadyTaken.kind(), ErrorKind::DuplicateKey);
    assert_eq!(Error::MongoDbError(Failure::Protocol).kind(), ErrorKind::StoreBackendFailure);
    assert_eq!(Error::Audit(Failure::Protocol).kind(), ErrorKind::AuditFailure);
}

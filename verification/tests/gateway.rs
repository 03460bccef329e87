#![allow(dead_code, unused_imports)]

use auth_rs::configuration::{Config, Services};
use auth_rs::protocol::{Document, ErrorKind, Failure, Field, Kind, Pending, Reply, Request, Step};
use auth_rs::repository::audit::{Action, Audit, AuditRepository, ResourceId, ResourceType};
use auth_rs::repository::permission::{Permission, PermissionRepository};
use auth_rs::repository::role::{Role, RoleRepository};
use auth_rs::repository::user::{CreateUser, User, UserRepository};
use auth_rs::services::audit::{Audited, AuditService};
use auth_rs::services::permission::PermissionService;
use auth_rs::services::role::RoleService;
use auth_rs::services::user::UserService;
use auth_rs::web::authentication::{
    current_user, enroll, login, login_verdict, present, refuse, register, resume_current_user,
    resume_login, resume_register, Login, LoginRequest, Registration, Session,
};
use auth_rs::repository::user::Error;
use auth_rs::web::dto::{ConvertError, SimpleUserDto};
use auth_rs::web::extractors::{get_user_id_from_token, resume_get_user_id, Extraction};
use auth_rs::web::response::{
    Body, LoginResponse, Response, BAD_REQUEST, FORBIDDEN, INTERNAL_SERVER_ERROR, OK,
};

/// A document store and token service kept in memory, answering as a
/// healthy backend would. `fail_at` makes the n-th request fail.
struct Backend {
    users: Vec<User>,
    roles: Vec<Role>,
    permissions: Vec<Permission>,
    audits: Vec<Audit>,
    asked: usize,
    fail_at: Option<usize>,
    ledger_down: bool,
    tokens_down: bool,
}

impl Backend {
    fn new() -> Backend {
        Backend {
            users: vec![],
            roles: vec![],
            permissions: vec![],
            audits: vec![],
            asked: 0,
            fail_at: None,
            ledger_down: false,
            tokens_down: false,
        }
    }

    fn perform(&mut self, request: Request) -> Reply {
        self.asked += 1;
        if self.fail_at == Some(self.asked) {
            return Reply::Failed(String::from("backend down"));
        }
        match request {
            Request::FindOne { kind, field, value, .. } => match kind {
                Kind::User => Reply::User(
                    self.users
                        .iter()
                        .find(|u| match field {
                            Field::Id => u.id == value,
                            Field::Username => u.username == value,
                            Field::Email => u.email == value,
                            Field::Name => false,
                        })
                        .cloned(),
                ),
                Kind::Role => Reply::Role(
                    self.roles
                        .iter()
                        .find(|r| match field {
                            Field::Id => r.id == value,
                            Field::Name => r.name == value,
                            _ => false,
                        })
                        .cloned(),
                ),
                Kind::Permission => Reply::Permission(
                    self.permissions
                        .iter()
                        .find(|p| match field {
                            Field::Id => p.id == value,
                            Field::Name => p.name == value,
                            _ => false,
                        })
                        .cloned(),
                ),
            },
            Request::FindMany { kind, ids, .. } => match kind {
                Kind::User => {
                    Reply::Users(self.users.iter().filter(|u| ids.contains(&u.id)).cloned().collect())
                }
                Kind::Role => {
                    Reply::Roles(self.roles.iter().filter(|r| ids.contains(&r.id)).cloned().collect())
                }
                Kind::Permission => Reply::Permissions(
                    self.permissions.iter().filter(|p| ids.contains(&p.id)).cloned().collect(),
                ),
            },
            Request::FindAll { kind, .. } => match kind {
                Kind::User => Reply::Users(self.users.clone()),
                Kind::Role => Reply::Roles(self.roles.clone()),
                Kind::Permission => Reply::Permissions(self.permissions.clone()),
            },
            Request::Search { kind, text, .. } => match kind {
                Kind::User => Reply::Users(
                    self.users.iter().filter(|u| u.username.contains(&text)).cloned().collect(),
                ),
                Kind::Role => {
                    Reply::Roles(self.roles.iter().filter(|r| r.name.contains(&text)).cloned().collect())
                }
                Kind::Permission => Reply::Permissions(
                    self.permissions.iter().filter(|p| p.name.contains(&text)).cloned().collect(),
                ),
            },
            Request::InsertOne { document, .. } => match document {
                Document::User(user) => {
                    if self.users.iter().any(|u| u.id == user.id) {
                        return Reply::Failed(String::from("duplicate key"));
                    }
                    self.users.push(user);
                    Reply::Written
                }
                Document::Role(role) => {
                    if self.roles.iter().any(|r| r.id == role.id) {
                        return Reply::Failed(String::from("duplicate key"));
                    }
                    self.roles.push(role);
                    Reply::Written
                }
                Document::Permission(permission) => {
                    if self.permissions.iter().any(|p| p.id == permission.id) {
                        return Reply::Failed(String::from("duplicate key"));
                    }
                    self.permissions.push(permission);
                    Reply::Written
                }
                Document::Audit(audit) => {
                    if self.ledger_down {
                        return Reply::Failed(String::from("ledger down"));
                    }
                    self.audits.push(audit);
                    Reply::Written
                }
            },
            Request::UpdateOne { document, .. } => match document {
                Document::User(new) => {
                    match self.users.iter_mut().find(|u| u.id == new.id) {
                        Some(old) => {
                            old.username = new.username;
                            old.email = new.email;
                            old.first_name = new.first_name;
                            old.last_name = new.last_name;
                            old.roles = new.roles;
                            old.updated_at = new.updated_at;
                            old.enabled = new.enabled;
                            Reply::User(Some(old.clone()))
                        }
                        None => Reply::User(None),
                    }
                }
                Document::Role(new) => match self.roles.iter_mut().find(|r| r.id == new.id) {
                    Some(old) => {
                        old.name = new.name;
                        old.permissions = new.permissions;
                        Reply::Role(Some(old.clone()))
                    }
                    None => Reply::Role(None),
                },
                Document::Permission(new) => {
                    match self.permissions.iter_mut().find(|p| p.id == new.id) {
                        Some(old) => {
                            old.name = new.name;
                            old.description = new.description;
                            Reply::Permission(Some(old.clone()))
                        }
                        None => Reply::Permission(None),
                    }
                }
                Document::Audit(_) => Reply::Failed(String::from("the ledger is append-only")),
            },
            Request::DeleteOne { collection, id } => {
                match collection.as_str() {
                    "users" => self.users.retain(|u| u.id != id),
                    "roles" => self.roles.retain(|r| r.id != id),
                    "permissions" => self.permissions.retain(|p| p.id != id),
                    _ => return Reply::Failed(String::from("unknown collection")),
                }
                Reply::Written
            }
            Request::DetachPermission { permission_id, .. } => {
                for role in self.roles.iter_mut() {
                    if let Some(ids) = role.permissions.as_mut() {
                        ids.retain(|id| *id != permission_id);
                    }
                }
                Reply::Written
            }
            Request::IssueToken { subject } => {
                if self.tokens_down {
                    Reply::Token(None)
                } else {
                    Reply::Token(Some(format!("signed[{}]", subject)))
                }
            }
            Request::VerifyToken { token } => Reply::Subject(
                token
                    .strip_prefix("signed[")
                    .and_then(|rest| rest.strip_suffix("]"))
                    .map(String::from),
            ),
        }
    }
}

/// Performs the requests of an operation until it ends.
fn run<S, X, E>(
    backend: &mut Backend,
    first: Step<S, X, E>,
    resume: impl Fn(S, Reply) -> Step<S, X, E>,
) -> Result<X, E> {
    let mut step = first;
    loop {
        match step {
            Step::Ask(state, request) => {
                let reply = backend.perform(request);
                step = resume(state, reply);
            }
            Step::Done(value) => return Ok(value),
            Step::Failed(error) => return Err(error),
        }
    }
}

fn config() -> Config {
    config_with_salt("c29tZXNhbHR2YWx1ZQ")
}

fn config_with_salt(salt: &str) -> Config {
    Config::new(
        String::from(salt),
        Services {
            user_service: UserService::new(UserRepository::new(String::from("users")).unwrap()),
            role_service: RoleService::new(RoleRepository::new(String::from("roles")).unwrap()),
            permission_service: PermissionService::new(
                PermissionRepository::new(String::from("permissions")).unwrap(),
            ),
            audit_service: AuditService::new(
                AuditRepository::new(String::from("audits")).unwrap(),
            ),
        },
    )
}

fn user(id: &str, username: &str, email: &str) -> User {
    User {
        id: String::from(id),
        username: String::from(username),
        email: String::from(email),
        first_name: String::from("First"),
        last_name: String::from("Last"),
        password: String::from("hash"),
        roles: None,
        created_at: String::from("2024-01-01T00:00:00+00:00"),
        updated_at: String::from("2024-01-01T00:00:00+00:00"),
        enabled: true,
    }
}

fn role(id: &str, name: &str, permissions: Option<Vec<&str>>) -> Role {
    Role {
        id: String::from(id),
        name: String::from(name),
        permissions: permissions.map(|ids| ids.into_iter().map(String::from).collect()),
    }
}

fn permission(id: &str, name: &str) -> Permission {
    Permission {
        id: String::from(id),
        name: String::from(name),
        description: String::from("described"),
    }
}


fn registration(username: &str, email: &str, password: &str) -> CreateUser {
    CreateUser {
        username: String::from(username),
        email: String::from(email),
        first_name: String::from("First"),
        last_name: String::from("Last"),
        password: String::from(password),
        roles: None,
    }
}

fn credentials(username: &str, password: &str) -> LoginRequest {
    LoginRequest { username: String::from(username), password: String::from(password) }
}

/// Either way an exchange ends, there is one response.
fn answer(outcome: Result<Response, Response>) -> Response {
    match outcome {
        Ok(response) => response,
        Err(response) => response,
    }
}

fn do_register(backend: &mut Backend, pool: &Config, request: CreateUser) -> Response {
    answer(run(backend, register(request, pool), |s, r| resume_register(s, r, pool)))
}

fn do_login(backend: &mut Backend, pool: &Config, request: LoginRequest) -> Response {
    answer(run(backend, login(request, pool), |s, r| resume_login(s, r, pool)))
}

fn do_current(backend: &mut Backend, pool: &Config, header: Option<&str>) -> Response {
    answer(run(backend, current_user(header, pool), |s, r| resume_current_user(s, r, pool)))
}

fn token_of(response: &Response) -> String {
    match &response.body {
        Body::Login(login) => login.token.clone(),
        other => panic!("no token in {:?}", other),
    }
}

#[test]
fn register_login_and_current_user() {
    let mut backend = Backend::new();
    let pool = config();
    backend.roles.push(role("r-default", "DEFAULT", Some(vec!["p1"])));
    backend.permissions.push(permission("p1", "CAN_READ"));

    let registered = do_register(&mut backend, &pool, registration("alice", "alice@x.com", "pw1"));
    assert_eq!(registered, Response { status: 200, body: Body::Empty });

    let logged_in = do_login(&mut backend, &pool, credentials("alice", "pw1"));
    assert_eq!(logged_in.status, 200);
    let token = token_of(&logged_in);
    assert_eq!(token, "signed[alice@x.com]");

    let header = format!("Bearer {}", token);
    let current = do_current(&mut backend, &pool, Some(header.as_str()));
    assert_eq!(current.status, 200);
    match current.body {
        Body::User(shown) => {
            assert_eq!(shown.username, "alice");
            assert_eq!(shown.email, "alice@x.com");
            let roles = shown.roles.expect("the default role");
            assert_eq!(roles.len(), 1);
            assert_eq!(roles[0].name, "DEFAULT");
            let permissions = roles[0].permissions.as_ref().expect("its permission");
            assert_eq!(permissions.len(), 1);
            assert_eq!(permissions[0].name, "CAN_READ");
        }
        other => panic!("no user in {:?}", other),
    }

    let tampered = format!("Bearer {}x", token);
    let refused = do_current(&mut backend, &pool, Some(tampered.as_str()));
    assert_eq!(refused, Response { status: 403, body: Body::Empty });
}

#[test]
fn a_registered_password_is_stored_hashed() {
    let mut backend = Backend::new();
    let pool = config();
    do_register(&mut backend, &pool, registration("alice", "alice@x.com", "pw1"));
    let stored = &backend.users[0];
    assert_ne!(stored.password, "pw1");
    assert!(stored.password.starts_with("$argon2id$v=19$m=19456,t=2,p=1$c29tZXNhbHR2YWx1ZQ$"));
    assert_eq!(stored.id.len(), 36);
    assert_eq!(stored.created_at, stored.updated_at);
    assert!(stored.enabled);
    assert_eq!(stored.roles, None);
}

#[test]
fn hashing_is_deterministic_under_one_salt() {
    let mut backend = Backend::new();
    let pool = config();
    do_register(&mut backend, &pool, registration("alice", "alice@x.com", "same"));
    do_register(&mut backend, &pool, registration("bob", "bob@x.com", "same"));
    do_register(&mut backend, &pool, registration("carol", "carol@x.com", "other"));
    assert_eq!(backend.users.len(), 3);
    assert_eq!(backend.users[0].password, backend.users[1].password);
    assert_ne!(backend.users[0].password, backend.users[2].password);
}

#[test]
fn a_registered_user_gets_the_default_role_alone() {
    let mut backend = Backend::new();
    let pool = config();
    backend.roles.push(role("r-default", "DEFAULT", None));
    let mut request = registration("alice", "alice@x.com", "pw1");
    request.roles = Some(vec![String::from("r-admin")]);
    assert_eq!(do_register(&mut backend, &pool, request).status, OK);
    assert_eq!(backend.users[0].roles, Some(vec![String::from("r-default")]));
}

#[test]
fn registration_refuses_empty_fields() {
    let pool = config();
    assert_eq!(
        register(registration("", "a@x.com", "pw"), &pool),
        Step::Failed(Response {
            status: 400,
            body: Body::BadRequest(String::from("Empty usernames are not allowed")),
        })
    );
    assert_eq!(
        register(registration("alice", "a@x.com", ""), &pool),
        Step::Failed(Response {
            status: 400,
            body: Body::BadRequest(String::from("Empty passwords are not allowed")),
        })
    );
    assert_eq!(
        register(registration("alice", "", "pw"), &pool),
        Step::Failed(Response {
            status: 400,
            body: Body::BadRequest(String::from("Empty email addresses are not allowed")),
        })
    );
}

#[test]
fn registration_refuses_duplicates_as_bad_requests() {
    let mut backend = Backend::new();
    let pool = config();
    assert_eq!(do_register(&mut backend, &pool, registration("alice", "alice@x.com", "pw1")).status, 200);
    assert_eq!(
        do_register(&mut backend, &pool, registration("alice", "else@x.com", "pw2")),
        Response { status: 400, body: Body::BadRequest(String::from("Username already taken")) }
    );
    assert_eq!(
        do_register(&mut backend, &pool, registration("bob", "alice@x.com", "pw2")),
        Response { status: 400, body: Body::BadRequest(String::from("Email already taken")) }
    );
    assert_eq!(backend.users.len(), 1);
}

#[test]
fn registration_fails_when_the_backend_does() {
    let pool = config();
    for fail_at in 1..=6 {
        let mut backend = Backend::new();
        backend.fail_at = Some(fail_at);
        let response = do_register(&mut backend, &pool, registration("alice", "a@x.com", "pw1"));
        assert_eq!(response.status, INTERNAL_SERVER_ERROR);
        let expected = if fail_at == 1 || fail_at == 3 {
            "Audit error: backend down"
        } else {
            "MongoDB error: backend down"
        };
        assert_eq!(response.body, Body::InternalServerError(String::from(expected)));
    }
}

#[test]
fn registration_fails_on_a_salt_that_is_not_one() {
    let mut backend = Backend::new();
    for salt in ["", "abc", "has space", "not*base64", &"a".repeat(65)] {
        let pool = config_with_salt(salt);
        assert_eq!(
            do_register(&mut backend, &pool, registration("alice", "a@x.com", "pw1")),
            Response {
                status: 500,
                body: Body::InternalServerError(String::from("Failed to generate salt")),
            }
        );
    }
    assert!(backend.users.is_empty());
}

#[test]
fn registration_fails_on_a_salt_that_cannot_be_used_to_hash() {
    let mut backend = Backend::new();
    let pool = config_with_salt("abcd");
    assert_eq!(
        do_register(&mut backend, &pool, registration("alice", "a@x.com", "pw1")),
        Response {
            status: 500,
            body: Body::InternalServerError(String::from("Failed to hash password")),
        }
    );
    assert!(backend.users.is_empty());
}

#[test]
fn enrolling_without_a_hash_is_a_failure_of_the_gateway() {
    let pool = config();
    assert_eq!(
        enroll(user("1", "alice", "a@x.com"), None, None, &pool),
        Step::Failed(Response {
            status: 500,
            body: Body::InternalServerError(String::from("Failed to hash password")),
        })
    );
}

#[test]
fn enrolling_hands_the_user_with_hash_and_role_to_the_user_service() {
    let pool = config();
    let step = enroll(
        user("1", "alice", "a@x.com"),
        Some(role("r1", "DEFAULT", None)),
        Some(String::from("$hash")),
        &pool,
    );
    let mut enrolled = user("1", "alice", "a@x.com");
    enrolled.password = String::from("$hash");
    enrolled.roles = Some(vec![String::from("r1")]);
    match step {
        Step::Ask(
            Registration::CreatingUser(Audited::Recording(held)),
            Request::InsertOne { document: Document::Audit(audit), .. },
        ) => {
            assert_eq!(held, pool.services.user_service.user_repository.create(enrolled));
            assert_eq!(audit.user_id, "AUTH-RS");
            assert_eq!(audit.action, Action::Create);
            assert_eq!(audit.resource_id, ResourceId::Id(String::from("1")));
            assert_eq!(audit.resource_type, ResourceType::User);
        }
        other => panic!("unexpected step: {:?}", other),
    }
}

#[test]
fn refusals_of_the_user_service_map_to_statuses() {
    assert_eq!(refuse(&Error::UsernameAlreadyTaken).status, BAD_REQUEST);
    assert_eq!(refuse(&Error::EmailAlreadyTaken).status, BAD_REQUEST);
    assert_eq!(refuse(&Error::EmptyEmail).status, BAD_REQUEST);
    assert_eq!(refuse(&Error::UserNotFound).status, INTERNAL_SERVER_ERROR);
    assert_eq!(refuse(&Error::Audit(Failure::Protocol)).status, INTERNAL_SERVER_ERROR);
    assert_eq!(
        refuse(&Error::MongoDbError(Failure::Backend(String::from("x")))),
        Response { status: 500, body: Body::InternalServerError(String::from("MongoDB error: x")) }
    );
}

#[test]
fn login_refuses_empty_fields() {
    let pool = config();
    assert_eq!(
        login(credentials("", "pw"), &pool),
        Step::Failed(Response { status: 400, body: Body::Text(String::from("Username is required")) })
    );
    assert_eq!(
        login(credentials("alice", ""), &pool),
        Step::Failed(Response { status: 400, body: Body::Text(String::from("Password is required")) })
    );
}

#[test]
fn login_looks_the_user_up_under_the_name_of_the_gateway() {
    let pool = config();
    match login(credentials("alice", "pw1"), &pool) {
        Step::Ask(
            Login::FindingUser { password, lookup: Audited::Recording(held) },
            Request::InsertOne { collection, document: Document::Audit(audit) },
        ) => {
            assert_eq!(password, "pw1");
            assert_eq!(collection, "audits");
            assert_eq!(held, pool.services.user_service.user_repository.find_by_username("alice"));
            assert_eq!(audit.user_id, "AUTH-RS");
            assert_eq!(audit.action, Action::Read);
            assert_eq!(audit.resource_id, ResourceId::Name(String::from("alice")));
            assert_eq!(audit.resource_type, ResourceType::User);
        }
        other => panic!("unexpected step: {:?}", other),
    }
}

#[test]
fn denied_logins_cannot_be_told_apart() {
    let mut backend = Backend::new();
    let pool = config();
    do_register(&mut backend, &pool, registration("alice", "alice@x.com", "pw1"));
    do_register(&mut backend, &pool, registration("bob", "bob@x.com", "pw2"));
    backend.users[1].enabled = false;

    let wrong_password = do_login(&mut backend, &pool, credentials("alice", "wrong"));
    let disabled = do_login(&mut backend, &pool, credentials("bob", "pw2"));
    let unknown = do_login(&mut backend, &pool, credentials("nobody", "pw1"));
    let disabled_and_wrong = do_login(&mut backend, &pool, credentials("bob", "wrong"));

    assert_eq!(wrong_password, Response { status: 400, body: Body::Empty });
    assert_eq!(wrong_password, disabled);
    assert_eq!(wrong_password, unknown);
    assert_eq!(wrong_password, disabled_and_wrong);

    assert_eq!(do_login(&mut backend, &pool, credentials("alice", "pw1")).status, 200);
}

#[test]
fn a_failed_lookup_is_denied_like_a_wrong_password() {
    let pool = config();
    for fail_at in 1..=2 {
        let mut backend = Backend::new();
        do_register(&mut backend, &pool, registration("alice", "alice@x.com", "pw1"));
        backend.fail_at = Some(backend.asked + fail_at);
        assert_eq!(
            do_login(&mut backend, &pool, credentials("alice", "pw1")),
            Response { status: 400, body: Body::Empty }
        );
    }
}

#[test]
fn the_verdict_depends_on_hash_and_account_alone() {
    let mut alice = user("1", "alice", "alice@x.com");
    alice.password = String::from("$stored");
    assert_eq!(
        login_verdict(alice.clone(), Some(String::from("$stored"))),
        Step::Ask(Login::IssuingToken, Request::IssueToken { subject: String::from("alice@x.com") })
    );
    let denied = Step::Failed(Response { status: 400, body: Body::Empty });
    assert_eq!(login_verdict(alice.clone(), Some(String::from("$other"))), denied);
    assert_eq!(login_verdict(alice.clone(), Some(String::from("$store"))), denied);
    assert_eq!(login_verdict(alice.clone(), Some(String::new())), denied);
    let mut disabled = alice.clone();
    disabled.enabled = false;
    assert_eq!(login_verdict(disabled, Some(String::from("$stored"))), denied);
    assert_eq!(
        login_verdict(alice, None),
        Step::Failed(Response {
            status: 500,
            body: Body::InternalServerError(String::from("Failed to hash password")),
        })
    );
}

#[test]
fn login_fails_on_a_salt_that_is_not_one() {
    let mut backend = Backend::new();
    backend.users.push(user("1", "alice", "alice@x.com"));
    let pool = config_with_salt("no");
    assert_eq!(
        do_login(&mut backend, &pool, credentials("alice", "pw1")),
        Response {
            status: 500,
            body: Body::InternalServerError(String::from("Failed to generate salt")),
        }
    );
    let pool = config_with_salt("abcd");
    assert_eq!(
        do_login(&mut backend, &pool, credentials("alice", "pw1")),
        Response {
            status: 500,
            body: Body::InternalServerError(String::from("Failed to hash password")),
        }
    );
}

#[test]
fn login_fails_when_no_token_can_be_issued() {
    let mut backend = Backend::new();
    let pool = config();
    do_register(&mut backend, &pool, registration("alice", "alice@x.com", "pw1"));
    backend.tokens_down = true;
    assert_eq!(
        do_login(&mut backend, &pool, credentials("alice", "pw1")),
        Response {
            status: 500,
            body: Body::InternalServerError(String::from("Failed to generate JWT token")),
        }
    );
    assert_eq!(
        resume_login(Login::IssuingToken, Reply::Written, &pool),
        Step::Failed(Response {
            status: 500,
            body: Body::InternalServerError(String::from("Failed to generate JWT token")),
        })
    );
    assert_eq!(
        resume_login(Login::IssuingToken, Reply::Token(Some(String::from("t"))), &pool),
        Step::Done(Response {
            status: 200,
            body: Body::Login(LoginResponse { token: String::from("t") }),
        })
    );
}

#[test]
fn current_user_needs_a_bearer_token() {
    let pool = config();
    let forbidden = Step::Failed(Response { status: 403, body: Body::Empty });
    assert_eq!(current_user(None, &pool), forbidden);
    assert_eq!(current_user(Some(""), &pool), forbidden);
    assert_eq!(current_user(Some("Basic abc"), &pool), forbidden);
    assert_eq!(current_user(Some("bearer abc"), &pool), forbidden);
    assert_eq!(current_user(Some("Bearer"), &pool), forbidden);
    assert_eq!(
        current_user(Some("Bearer abc.def"), &pool),
        Step::Ask(Session::VerifyingToken, Request::VerifyToken { token: String::from("abc.def") })
    );
}

#[test]
fn current_user_refuses_whatever_goes_wrong_with_one_answer() {
    let pool = config();
    let forbidden = Response { status: FORBIDDEN, body: Body::Empty };

    let mut backend = Backend::new();
    backend.users.push(user("1", "alice", "alice@x.com"));
    assert_eq!(do_current(&mut backend, &pool, Some("Bearer forged")), forbidden);
    assert_eq!(do_current(&mut backend, &pool, Some("Bearer signed[ghost@x.com]")), forbidden);
    assert_eq!(do_current(&mut backend, &pool, Some("Bearer signed[]")), forbidden);

    backend.users[0].enabled = false;
    assert_eq!(do_current(&mut backend, &pool, Some("Bearer signed[alice@x.com]")), forbidden);
    backend.users[0].enabled = true;
    assert_eq!(do_current(&mut backend, &pool, Some("Bearer signed[alice@x.com]")).status, 200);

    backend.users[0].roles = Some(vec![String::from("r1")]);
    backend.roles.push(role("r1", "ADMIN", Some(vec!["p1"])));
    for fail_at in 1..=7 {
        let asked = backend.asked;
        backend.fail_at = Some(asked + fail_at);
        assert_eq!(do_current(&mut backend, &pool, Some("Bearer signed[alice@x.com]")), forbidden);
    }
    backend.fail_at = None;
    assert_eq!(do_current(&mut backend, &pool, Some("Bearer signed[alice@x.com]")).status, 200);

    assert_eq!(
        resume_current_user(Session::VerifyingToken, Reply::Written, &pool),
        Step::Failed(forbidden.clone())
    );
    assert_eq!(
        resume_current_user(Session::VerifyingToken, Reply::Subject(None), &pool),
        Step::Failed(forbidden)
    );
}

#[test]
fn presenting_wraps_the_assembly() {
    let shown = SimpleUserDto::from(user("1", "alice", "alice@x.com"));
    assert_eq!(
        present(Step::Done(shown.clone())),
        Step::Done(Response { status: 200, body: Body::User(shown) })
    );
    assert_eq!(
        present(Step::Failed(ConvertError::RoleError(auth_rs::repository::role::Error::EmptyIdVec))),
        Step::Failed(Response { status: 403, body: Body::Empty })
    );
}

#[test]
fn responses_have_their_statuses() {
    assert_eq!((OK, BAD_REQUEST, FORBIDDEN, INTERNAL_SERVER_ERROR), (200, 400, 403, 500));
    assert_eq!(Response::ok(), Response { status: 200, body: Body::Empty });
    assert_eq!(Response::denied(), Response { status: 400, body: Body::Empty });
    assert_eq!(Response::forbidden(), Response { status: 403, body: Body::Empty });
    assert_eq!(
        Response::missing("m"),
        Response { status: 400, body: Body::Text(String::from("m")) }
    );
    assert_eq!(
        Response::bad_request(String::from("b")),
        Response { status: 400, body: Body::BadRequest(String::from("b")) }
    );
    assert_eq!(
        Response::internal(String::from("i")),
        Response { status: 500, body: Body::InternalServerError(String::from("i")) }
    );
    assert_eq!(
        Response::token(String::from("t")),
        Response { status: 200, body: Body::Login(LoginResponse { token: String::from("t") }) }
    );
}

#[test]
fn the_caller_is_identified_by_the_email_in_the_token() {
    let mut backend = Backend::new();
    let pool = config();
    backend.users.push(user("u-1", "alice", "alice@x.com"));
    backend.users.push(user("u-2", "bob@x.com", "robert@x.com"));
    let identify = |backend: &mut Backend, header: Option<&str>| {
        run(backend, get_user_id_from_token(header, &pool), |s, r| resume_get_user_id(s, r, &pool))
    };
    assert_eq!(identify(&mut backend, Some("Bearer signed[alice@x.com]")), Ok(String::from("u-1")));
    assert_eq!(backend.audits.len(), 1);
    assert_eq!(backend.audits[0].user_id, "AUTH-RS");
    assert_eq!(backend.audits[0].action, Action::Read);
    assert_eq!(backend.audits[0].resource_id, ResourceId::Name(String::from("alice@x.com")));
    assert_eq!(backend.audits[0].resource_type, ResourceType::User);
    assert_eq!(identify(&mut backend, Some("Bearer signed[alice]")), Err(()));
    assert_eq!(identify(&mut backend, Some("Bearer signed[bob@x.com]")), Err(()));
    assert_eq!(identify(&mut backend, Some("Bearer signed[robert@x.com]")), Ok(String::from("u-2")));
    assert_eq!(identify(&mut backend, Some("Bearer signed[]")), Err(()));
    assert_eq!(identify(&mut backend, Some("Bearer forged")), Err(()));
    assert_eq!(identify(&mut backend, Some("signed[alice@x.com]")), Err(()));
    assert_eq!(identify(&mut backend, None), Err(()));
    backend.users[0].enabled = false;
    assert_eq!(identify(&mut backend, Some("Bearer signed[alice@x.com]")), Err(()));
    backend.users[0].enabled = true;
    backend.ledger_down = true;
    assert_eq!(identify(&mut backend, Some("Bearer signed[alice@x.com]")), Err(()));
    assert_eq!(
        get_user_id_from_token(Some("Bearer t"), &pool),
        Step::Ask(Extraction::VerifyingToken, Request::VerifyToken { token: String::from("t") })
    );
    assert_eq!(
        resume_get_user_id(Extraction::VerifyingToken, Reply::Users(vec![]), &pool),
        Step::Failed(())
    );
}

#[test]
fn the_token_that_login_issues_identifies_the_caller() {
    let mut backend = Backend::new();
    let pool = config();
    assert_eq!(do_register(&mut backend, &pool, registration("alice", "alice@x.com", "pw1")).status, 200);
    let token = token_of(&do_login(&mut backend, &pool, credentials("alice", "pw1")));
    let header = format!("Bearer {}", token);
    let caller = run(&mut backend, get_user_id_from_token(Some(header.as_str()), &pool), |s, r| {
        resume_get_user_id(s, r, &pool)
    });
    assert_eq!(caller, Ok(backend.users[0].id.clone()));
}

#[test]
fn the_caller_is_looked_up_by_email() {
    let pool = config();
    match resume_get_user_id(
        Extraction::VerifyingToken,
        Reply::Subject(Some(String::from("alice@x.com"))),
        &pool,
    ) {
        Step::Ask(Extraction::FindingUser(Audited::Recording(held)), _) => {
            assert_eq!(held, pool.services.user_service.user_repository.find_by_email("alice@x.com"));
        }
        other => panic!("unexpected step: {:?}", other),
    }
}

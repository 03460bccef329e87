//! Registration, login, and the resolution of the current user.
//!
//! Credentials that are not accepted get one answer, whatever the reason:
//! an unknown user, a wrong password and a disabled account cannot be told
//! apart. The same holds of a caller that cannot be identified.

use crate::configuration::{default_role_name, entry_stamp, idle_stamp, Config, ConfigView};
use crate::password::{argon2_phc, constant_time_eq, hash_password, is_valid_salt, salt_accepted};
use crate::protocol::{ErrorKind, Pending, Reply, ReplyView, Request, RequestView, Step, StepView};
use crate::repository::audit::{Action, ResourceIdView, ResourceType, Stamp};
use crate::repository::role::{Role, RoleView};
use crate::repository::user::{
    CreateUser, CreateUserView, Creation, CreationView, Error, ErrorView, User, UserView,
};
use crate::services::audit::{resume_audited, Audited, AuditedView};
use crate::web::dto::{
    convert_user_to_simple_dto, resume_convert, Assembly, AssemblyView, ConvertError,
    ConvertErrorView, SimpleUserDto, SimpleUserDtoView,
};
use crate::web::extractors::{verification, verify_bearer};
use crate::web::response::{Response, ResponseView};
use vstd::prelude::*;

verus! {

/// The credentials of a login.
#[derive(Clone, Debug, PartialEq, Eq)]
pub struct LoginRequest {
    pub username: String,
    pub password: String,
}

/// What a `LoginRequest` stands for in contracts.
pub ghost struct LoginRequestView {
    pub username: Seq<char>,
    pub password: Seq<char>,
}

impl View for LoginRequest {
    type V = LoginRequestView;

    open spec fn view(&self) -> LoginRequestView {
        LoginRequestView { username: self.username@, password: self.password@ }
    }
}

/// Where a login stands.
#[derive(Clone, Debug, PartialEq, Eq)]
pub enum Login {
    /// Asked for the user with the username; the password waits.
    FindingUser { password: String, lookup: Audited<Pending, Option<User>, Error> },
    /// Asked for a token.
    IssuingToken,
}

/// What a `Login` stands for in contracts.
pub ghost enum LoginView {
    FindingUser { password: Seq<char>, lookup: AuditedView<Pending, Option<UserView>, ErrorView> },
    IssuingToken,
}

impl View for Login {
    type V = LoginView;

    open spec fn view(&self) -> LoginView {
        match self {
            Login::FindingUser { password, lookup } => LoginView::FindingUser {
                password: password@,
                lookup: lookup.deep_view(),
            },
            Login::IssuingToken => LoginView::IssuingToken,
        }
    }
}

impl DeepView for Login {
    type V = LoginView;

    open spec fn deep_view(&self) -> LoginView {
        self@
    }
}

/// Where a registration stands.
#[derive(Clone, Debug, PartialEq, Eq)]
pub enum Registration {
    /// Asked for the default role; the request waits.
    ResolvingDefaultRole {
        request: CreateUser,
        lookup: Audited<Pending, Option<Role>, crate::repository::role::Error>,
    },
    /// Asked to create the user.
    CreatingUser(Audited<Creation, User, Error>),
}

/// What a `Registration` stands for in contracts.
pub ghost enum RegistrationView {
    ResolvingDefaultRole {
        request: CreateUserView,
        lookup: AuditedView<Pending, Option<RoleView>, crate::repository::role::ErrorView>,
    },
    CreatingUser(AuditedView<CreationView, UserView, ErrorView>),
}

impl View for Registration {
    type V = RegistrationView;

    open spec fn view(&self) -> RegistrationView {
        match self {
            Registration::ResolvingDefaultRole { request, lookup } => {
                RegistrationView::ResolvingDefaultRole {
                    request: request@,
                    lookup: lookup.deep_view(),
                }
            },
            Registration::CreatingUser(creation) => RegistrationView::CreatingUser(
                creation.deep_view(),
            ),
        }
    }
}

impl DeepView for Registration {
    type V = RegistrationView;

    open spec fn deep_view(&self) -> RegistrationView {
        self@
    }
}

/// Where the resolution of the current user stands.
#[derive(Clone, Debug, PartialEq, Eq)]
pub enum Session {
    /// Asked whether the token is valid.
    VerifyingToken,
    /// Asked for the user that the token names.
    FindingUser(Audited<Pending, Option<User>, Error>),
    /// Putting together what is shown of the user.
    Assembling(Assembly),
}

/// What a `Session` stands for in contracts.
pub ghost enum SessionView {
    VerifyingToken,
    FindingUser(AuditedView<Pending, Option<UserView>, ErrorView>),
    Assembling(AssemblyView),
}

impl View for Session {
    type V = SessionView;

    open spec fn view(&self) -> SessionView {
        match self {
            Session::VerifyingToken => SessionView::VerifyingToken,
            Session::FindingUser(lookup) => SessionView::FindingUser(lookup.deep_view()),
            Session::Assembling(assembly) => SessionView::Assembling(assembly@),
        }
    }
}

impl DeepView for Session {
    type V = SessionView;

    open spec fn deep_view(&self) -> SessionView {
        self@
    }
}

/// The answer to a login once the password has been hashed. A hash that
/// could not be computed is a failure of the gateway. Credentials are
/// accepted where the hash equals the stored one and the account is enabled,
/// and a token for the user's email is asked for; all others are denied
/// alike.
pub open spec fn verdict(user: UserView, hash: Option<Seq<char>>) -> StepView<
    LoginView,
    ResponseView,
    ResponseView,
> {
    match hash {
        None => StepView::Failed(ResponseView::internal("Failed to hash password"@)),
        Some(hash) => if hash == user.password && user.enabled {
            StepView::Ask(LoginView::IssuingToken, RequestView::IssueToken { subject: user.email })
        } else {
            StepView::Failed(ResponseView::denied())
        },
    }
}

/// The answer to a registration that the user service refused: a bad
/// request where a field is empty or a key is taken, a failure of the
/// gateway otherwise.
pub open spec fn refusal(error: ErrorView) -> ResponseView {
    if error.kind() == ErrorKind::Validation || error.kind() == ErrorKind::DuplicateKey {
        ResponseView::bad_request(error.message())
    } else {
        ResponseView::internal(error.message())
    }
}

/// The answer to the caller once what is shown of it is put together, or
/// the next request of the assembly.
pub open spec fn presented(
    assembly: StepView<AssemblyView, SimpleUserDtoView, ConvertErrorView>,
) -> StepView<SessionView, ResponseView, ResponseView> {
    match assembly {
        StepView::Ask(state, request) => StepView::Ask(SessionView::Assembling(state), request),
        StepView::Done(user) => StepView::Done(ResponseView::user(user)),
        StepView::Failed(_) => StepView::Failed(ResponseView::forbidden()),
    }
}

impl ConfigView {
    /// A login begins by looking the user up; an empty username or password
    /// is refused before anything is asked.
    pub open spec fn login(self, request: LoginRequestView, stamp: Stamp) -> StepView<
        LoginView,
        ResponseView,
        ResponseView,
    > {
        if request.username.len() == 0 {
            StepView::Failed(ResponseView::missing("Username is required"@))
        } else if request.password.len() == 0 {
            StepView::Failed(ResponseView::missing("Password is required"@))
        } else {
            StepView::Ask(
                LoginView::FindingUser {
                    password: request.password,
                    lookup: AuditedView::Recording(self.users.find_by_username(request.username)),
                },
                self.entered(
                    stamp,
                    Action::Read,
                    ResourceIdView::Name(request.username),
                    ResourceType::User,
                ),
            )
        }
    }

    /// The answer to a login once the user is found: the password is hashed
    /// under the configured salt and judged.
    pub open spec fn authenticate(self, user: UserView, password: Seq<char>) -> StepView<
        LoginView,
        ResponseView,
        ResponseView,
    > {
        if !is_valid_salt(self.salt) {
            StepView::Failed(ResponseView::internal("Failed to generate salt"@))
        } else {
            verdict(user, argon2_phc(password, self.salt))
        }
    }

    /// How a login takes a reply. A user that is not found, and a search
    /// that failed, are denied like a wrong password.
    pub open spec fn resume_login(self, state: LoginView, reply: ReplyView) -> StepView<
        LoginView,
        ResponseView,
        ResponseView,
    > {
        match state {
            LoginView::FindingUser { password, lookup } => {
                match resume_audited(
                    lookup,
                    reply,
                    self.users.finding(),
                    crate::services::user::refused(),
                ) {
                    StepView::Ask(lookup, request) => StepView::Ask(
                        LoginView::FindingUser { password, lookup },
                        request,
                    ),
                    StepView::Done(Some(user)) => self.authenticate(user, password),
                    _ => StepView::Failed(ResponseView::denied()),
                }
            },
            LoginView::IssuingToken => match reply {
                ReplyView::Token(Some(token)) => StepView::Done(ResponseView::token(token)),
                _ => StepView::Failed(ResponseView::internal("Failed to generate JWT token"@)),
            },
        }
    }

    /// A registration begins by looking the default role up; an empty
    /// username, password or email is refused before anything is asked.
    pub open spec fn register(self, request: CreateUserView, stamp: Stamp) -> StepView<
        RegistrationView,
        ResponseView,
        ResponseView,
    > {
        if request.username.len() == 0 {
            StepView::Failed(ResponseView::bad_request("Empty usernames are not allowed"@))
        } else if request.password.len() == 0 {
            StepView::Failed(ResponseView::bad_request("Empty passwords are not allowed"@))
        } else if request.email.len() == 0 {
            StepView::Failed(ResponseView::bad_request("Empty email addresses are not allowed"@))
        } else {
            StepView::Ask(
                RegistrationView::ResolvingDefaultRole {
                    request,
                    lookup: AuditedView::Recording(self.roles.find_by_name(default_role_name())),
                },
                self.entered(
                    stamp,
                    Action::Read,
                    ResourceIdView::Name(default_role_name()),
                    ResourceType::Role,
                ),
            )
        }
    }

    /// The user that is registered: the new user with the hash in place of
    /// the password, and with the default role alone where there is one.
    pub open spec fn enrolled(user: UserView, role: Option<RoleView>, hash: Seq<char>) -> UserView {
        UserView {
            password: hash,
            roles: match role {
                Some(role) => Some(seq![role.id]),
                None => None,
            },
            ..user
        }
    }

    /// The step of a registration once the password has been hashed: a hash
    /// that could not be computed is a failure of the gateway; with a hash
    /// the user is handed to the user service.
    pub open spec fn enroll(
        self,
        user: UserView,
        role: Option<RoleView>,
        hash: Option<Seq<char>>,
        stamp: Stamp,
    ) -> StepView<RegistrationView, ResponseView, ResponseView> {
        match hash {
            None => StepView::Failed(ResponseView::internal("Failed to hash password"@)),
            Some(hash) => {
                let user = Self::enrolled(user, role, hash);
                StepView::Ask(
                    RegistrationView::CreatingUser(AuditedView::Recording(self.users.create(user))),
                    self.entered(
                        stamp,
                        Action::Create,
                        ResourceIdView::Id(user.id),
                        ResourceType::User,
                    ),
                )
            },
        }
    }

    /// How a registration takes a reply. Once the default role is resolved,
    /// the request becomes a user under the identifier and time of `fresh`,
    /// and its password is hashed under the configured salt. A failed search
    /// for the role is a failure of the gateway; a missing role is not.
    pub open spec fn resume_register(
        self,
        state: RegistrationView,
        reply: ReplyView,
        fresh: Stamp,
        stamp: Stamp,
    ) -> StepView<RegistrationView, ResponseView, ResponseView> {
        match state {
            RegistrationView::ResolvingDefaultRole { request, lookup } => {
                match resume_audited(
                    lookup,
                    reply,
                    self.roles.finding(),
                    crate::services::role::refused(),
                ) {
                    StepView::Ask(lookup, request_to_make) => StepView::Ask(
                        RegistrationView::ResolvingDefaultRole { request, lookup },
                        request_to_make,
                    ),
                    StepView::Failed(error) => StepView::Failed(
                        ResponseView::internal(error.message()),
                    ),
                    StepView::Done(role) => {
                        if !is_valid_salt(self.salt) {
                            StepView::Failed(ResponseView::internal("Failed to generate salt"@))
                        } else {
                            self.enroll(
                                UserView::assemble(request, fresh.id, fresh.now),
                                role,
                                argon2_phc(request.password, self.salt),
                                stamp,
                            )
                        }
                    },
                }
            },
            RegistrationView::CreatingUser(creation) => {
                match resume_audited(
                    creation,
                    reply,
                    self.users.creating(),
                    crate::services::user::refused(),
                ) {
                    StepView::Ask(creation, request) => StepView::Ask(
                        RegistrationView::CreatingUser(creation),
                        request,
                    ),
                    StepView::Done(_) => StepView::Done(ResponseView::ok()),
                    StepView::Failed(error) => StepView::Failed(refusal(error)),
                }
            },
        }
    }

    /// The resolution of the current user begins with the verification of
    /// the token; without a bearer token the caller is refused.
    pub open spec fn current_user(self, authorization: Option<Seq<char>>) -> StepView<
        SessionView,
        ResponseView,
        ResponseView,
    > {
        match verification(authorization) {
            Some(request) => StepView::Ask(SessionView::VerifyingToken, request),
            None => StepView::Failed(ResponseView::forbidden()),
        }
    }

    /// How the resolution of the current user takes a reply: the subject of
    /// a valid token is looked up as an email, and an enabled user that has
    /// it is shown with its roles and permissions. Anything else is refused
    /// with one and the same answer.
    pub open spec fn resume_current_user(self, state: SessionView, reply: ReplyView, stamp: Stamp)
        -> StepView<SessionView, ResponseView, ResponseView> {
        match state {
            SessionView::VerifyingToken => match reply {
                ReplyView::Subject(Some(subject)) => StepView::Ask(
                    SessionView::FindingUser(
                        AuditedView::Recording(self.users.find_by_email(subject)),
                    ),
                    self.entered(
                        stamp,
                        Action::Read,
                        ResourceIdView::Name(subject),
                        ResourceType::User,
                    ),
                ),
                _ => StepView::Failed(ResponseView::forbidden()),
            },
            SessionView::FindingUser(lookup) => {
                match resume_audited(
                    lookup,
                    reply,
                    self.users.finding(),
                    crate::services::user::refused(),
                ) {
                    StepView::Ask(lookup, request) => StepView::Ask(
                        SessionView::FindingUser(lookup),
                        request,
                    ),
                    StepView::Done(Some(user)) => if user.enabled {
                        presented(self.convert(user, stamp))
                    } else {
                        StepView::Failed(ResponseView::forbidden())
                    },
                    _ => StepView::Failed(ResponseView::forbidden()),
                }
            },
            SessionView::Assembling(assembly) => presented(
                self.resume_convert(assembly, reply, stamp),
            ),
        }
    }
}

/// Begins a login.
pub fn login(login_request: LoginRequest, pool: &Config) -> (step: Step<Login, Response, Response>)
    ensures
        exists|stamp: Stamp|
            stamp.is_fresh() && step.deep_view() == #[trigger] pool@.login(login_request@, stamp),
{
    let ghost wanted = login_request@;
    let ghost mut stamp = idle_stamp();
    let step = if login_request.username.as_str().is_empty() {
        Step::Failed(Response::missing("Username is required"))
    } else if login_request.password.as_str().is_empty() {
        Step::Failed(Response::missing("Password is required"))
    } else {
        let lookup = pool.services.user_service.find_by_username(
            login_request.username.as_str(),
            "AUTH-RS",
            &pool.services.audit_service,
        );
        match lookup {
            Step::Ask(lookup, request) => {
                proof {
                    stamp = entry_stamp(request@);
                }
                Step::Ask(Login::FindingUser { password: login_request.password, lookup }, request)
            },
            _ => unreached(),
        }
    };
    proof {
        assert(stamp.is_fresh());
        assert(step.deep_view() == pool@.login(wanted, stamp));
    }
    step
}

/// Judges the credentials of a login, given the hash of the password that
/// was offered.
pub fn login_verdict(user: User, hash: Option<String>) -> (step: Step<Login, Response, Response>)
    ensures
        step.deep_view() == verdict(user@, hash.deep_view()),
{
    match hash {
        None => Step::Failed(Response::internal("Failed to hash password".to_owned())),
        Some(hash) => {
            let same = constant_time_eq(hash.as_str(), user.password.as_str());
            if same && user.enabled {
                Step::Ask(Login::IssuingToken, Request::IssueToken { subject: user.email })
            } else {
                Step::Failed(Response::denied())
            }
        },
    }
}

/// Hashes the password that was offered and judges the credentials.
fn authenticate(user: User, password: &str, pool: &Config) -> (step: Step<
    Login,
    Response,
    Response,
>)
    ensures
        step.deep_view() == pool@.authenticate(user@, password@),
{
    if !salt_accepted(pool.salt.as_str()) {
        return Step::Failed(Response::internal("Failed to generate salt".to_owned()));
    }
    let hash = hash_password(password, pool.salt.as_str());
    login_verdict(user, hash)
}

/// Takes a login one reply further.
pub fn resume_login(state: Login, reply: Reply, pool: &Config) -> (step: Step<
    Login,
    Response,
    Response,
>)
    ensures
        step.deep_view() == pool@.resume_login(state@, reply@),
{
    match state {
        Login::FindingUser { password, lookup } => {
            match pool.services.user_service.resume_find(lookup, reply) {
                Step::Ask(lookup, request) => Step::Ask(
                    Login::FindingUser { password, lookup },
                    request,
                ),
                Step::Done(Some(user)) => authenticate(user, password.as_str(), pool),
                _ => Step::Failed(Response::denied()),
            }
        },
        Login::IssuingToken => match reply {
            Reply::Token(Some(token)) => Step::Done(Response::token(token)),
            _ => Step::Failed(Response::internal("Failed to generate JWT token".to_owned())),
        },
    }
}

/// Begins a registration.
pub fn register(register_request: CreateUser, pool: &Config) -> (step: Step<
    Registration,
    Response,
    Response,
>)
    ensures
        exists|stamp: Stamp|
            stamp.is_fresh() && step.deep_view() == #[trigger] pool@.register(
                register_request@,
                stamp,
            ),
{
    let ghost wanted = register_request@;
    let ghost mut stamp = idle_stamp();
    let step = if register_request.username.as_str().is_empty() {
        Step::Failed(Response::bad_request("Empty usernames are not allowed".to_owned()))
    } else if register_request.password.as_str().is_empty() {
        Step::Failed(Response::bad_request("Empty passwords are not allowed".to_owned()))
    } else if register_request.email.as_str().is_empty() {
        Step::Failed(Response::bad_request("Empty email addresses are not allowed".to_owned()))
    } else {
        let lookup = pool.services.role_service.find_by_name(
            "DEFAULT",
            "AUTH-RS",
            &pool.services.audit_service,
        );
        match lookup {
            Step::Ask(lookup, request) => {
                proof {
                    stamp = entry_stamp(request@);
                }
                Step::Ask(
                    Registration::ResolvingDefaultRole { request: register_request, lookup },
                    request,
                )
            },
            _ => unreached(),
        }
    };
    proof {
        assert(stamp.is_fresh());
        assert(step.deep_view() == pool@.register(wanted, stamp));
    }
    step
}

/// Hands a new user to the user service, given the default role, if there
/// is one, and the hash of the user's password.
pub fn enroll(user: User, role: Option<Role>, hash: Option<String>, pool: &Config) -> (step: Step<
    Registration,
    Response,
    Response,
>)
    ensures
        exists|stamp: Stamp|
            stamp.is_fresh() && step.deep_view() == #[trigger] pool@.enroll(
                user@,
                role.deep_view(),
                hash.deep_view(),
                stamp,
            ),
{
    let ghost new = user@;
    let ghost given = role.deep_view();
    let ghost hashed = hash.deep_view();
    let ghost mut stamp = idle_stamp();
    let step = match hash {
        None => Step::Failed(Response::internal("Failed to hash password".to_owned())),
        Some(hash) => {
            let mut user = user;
            user.password = hash;
            user.roles = match role {
                Some(role) => {
                    let mut ids: Vec<String> = Vec::new();
                    ids.push(role.id);
                    assert(ids.deep_view() =~= seq![role.id@]);
                    Some(ids)
                },
                None => None,
            };
            assert(user@ == ConfigView::enrolled(new, given, hashed->0));
            let creation = pool.services.user_service.create(
                user,
                "AUTH-RS",
                &pool.services.audit_service,
            );
            match creation {
                Step::Ask(creation, request) => {
                    proof {
                        stamp = entry_stamp(request@);
                    }
                    Step::Ask(Registration::CreatingUser(creation), request)
                },
                _ => unreached(),
            }
        },
    };
    proof {
        assert(stamp.is_fresh());
        assert(step.deep_view() == pool@.enroll(new, given, hashed, stamp));
    }
    step
}

/// The answer to a registration that the user service refused.
pub fn refuse(error: &Error) -> (response: Response)
    ensures
        response@ == refusal(error@),
{
    match error.kind() {
        ErrorKind::Validation | ErrorKind::DuplicateKey => Response::bad_request(
            error.to_string(),
        ),
        _ => Response::internal(error.to_string()),
    }
}

/// Takes a registration one reply further.
pub fn resume_register(state: Registration, reply: Reply, pool: &Config) -> (step: Step<
    Registration,
    Response,
    Response,
>)
    ensures
        exists|fresh: Stamp, stamp: Stamp|
            fresh.is_fresh() && stamp.is_fresh() && step.deep_view()
                == #[trigger] pool@.resume_register(state@, reply@, fresh, stamp),
{
    let ghost before = state@;
    let ghost answer = reply@;
    let ghost mut fresh = idle_stamp();
    let ghost mut stamp = idle_stamp();
    let step = match state {
        Registration::ResolvingDefaultRole { request, lookup } => {
            match pool.services.role_service.resume_find(lookup, reply) {
                Step::Ask(lookup, request_to_make) => Step::Ask(
                    Registration::ResolvingDefaultRole { request, lookup },
                    request_to_make,
                ),
                Step::Failed(error) => Step::Failed(Response::internal(error.to_string())),
                Step::Done(role) => {
                    let user = User::from(request);
                    proof {
                        fresh = Stamp { id: user@.id, now: user@.created_at };
                    }
                    if !salt_accepted(pool.salt.as_str()) {
                        Step::Failed(Response::internal("Failed to generate salt".to_owned()))
                    } else {
                        let hash = hash_password(user.password.as_str(), pool.salt.as_str());
                        let ghost given = role.deep_view();
                        let ghost hashed = hash.deep_view();
                        let ghost new = user@;
                        let step = enroll(user, role, hash, pool);
                        proof {
                            stamp = choose|stamp: Stamp|
                                stamp.is_fresh() && step.deep_view() == #[trigger] pool@.enroll(
                                    new,
                                    given,
                                    hashed,
                                    stamp,
                                );
                        }
                        step
                    }
                },
            }
        },
        Registration::CreatingUser(creation) => {
            match pool.services.user_service.resume_create(creation, reply) {
                Step::Ask(creation, request) => Step::Ask(
                    Registration::CreatingUser(creation),
                    request,
                ),
                Step::Done(_) => Step::Done(Response::ok()),
                Step::Failed(error) => Step::Failed(refuse(&error)),
            }
        },
    };
    proof {
        assert(fresh.is_fresh() && stamp.is_fresh());
        assert(step.deep_view() == pool@.resume_register(before, answer, fresh, stamp));
    }
    step
}

/// Begins the resolution of the current user from the `Authorization`
/// header, if the request has one.
pub fn current_user(authorization: Option<&str>, pool: &Config) -> (step: Step<
    Session,
    Response,
    Response,
>)
    ensures
        step.deep_view() == pool@.current_user(authorization.deep_view()),
{
    match verify_bearer(authorization) {
        Some(request) => Step::Ask(Session::VerifyingToken, request),
        None => Step::Failed(Response::forbidden()),
    }
}

/// Answers the caller once what is shown of it is put together, or goes on
/// with the assembly.
pub fn present(assembly: Step<Assembly, SimpleUserDto, ConvertError>) -> (step: Step<
    Session,
    Response,
    Response,
>)
    ensures
        step.deep_view() == presented(assembly.deep_view()),
{
    match assembly {
        Step::Ask(state, request) => Step::Ask(Session::Assembling(state), request),
        Step::Done(user) => Step::Done(Response::user(user)),
        Step::Failed(_) => Step::Failed(Response::forbidden()),
    }
}

/// Takes the resolution of the current user one reply further.
pub fn resume_current_user(state: Session, reply: Reply, pool: &Config) -> (step: Step<
    Session,
    Response,
    Response,
>)
    ensures
        exists|stamp: Stamp|
            stamp.is_fresh() && step.deep_view() == #[trigger] pool@.resume_current_user(
                state@,
                reply@,
                stamp,
            ),
{
    let ghost before = state@;
    let ghost answer = reply@;
    let ghost mut stamp = idle_stamp();
    let step = match state {
        Session::VerifyingToken => match reply {
            Reply::Subject(Some(subject)) => {
                let lookup = pool.services.user_service.find_by_email(
                    subject.as_str(),
                    "AUTH-RS",
                    &pool.services.audit_service,
                );
                match lookup {
                    Step::Ask(lookup, request) => {
                        proof {
                            stamp = entry_stamp(request@);
                        }
                        Step::Ask(Session::FindingUser(lookup), request)
                    },
                    _ => unreached(),
                }
            },
            _ => Step::Failed(Response::forbidden()),
        },
        Session::FindingUser(lookup) => {
            match pool.services.user_service.resume_find(lookup, reply) {
                Step::Ask(lookup, request) => Step::Ask(Session::FindingUser(lookup), request),
                Step::Done(Some(user)) => if user.enabled {
                    let ghost found = user@;
                    let assembly = convert_user_to_simple_dto(user, pool);
                    proof {
                        stamp = choose|stamp: Stamp|
                            stamp.is_fresh() && assembly.deep_view() == #[trigger] pool@.convert(
                                found,
                                stamp,
                            );
                    }
                    present(assembly)
                } else {
                    Step::Failed(Response::forbidden())
                },
                _ => Step::Failed(Response::forbidden()),
            }
        },
        Session::Assembling(assembly) => {
            let ghost held = assembly@;
            let assembly = resume_convert(assembly, reply, pool);
            proof {
                stamp = choose|stamp: Stamp|
                    stamp.is_fresh() && assembly.deep_view() == #[trigger] pool@.resume_convert(
                        held,
                        answer,
                        stamp,
                    );
            }
            present(assembly)
        },
    };
    proof {
        assert(stamp.is_fresh());
        assert(step.deep_view() == pool@.resume_current_user(before, answer, stamp));
    }
    step
}

} // verus!

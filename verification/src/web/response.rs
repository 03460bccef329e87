//! What the gateway answers.

use crate::web::dto::{SimpleUserDto, SimpleUserDtoView};
use vstd::prelude::*;

verus! {

/// The request was carried out.
pub const OK: u16 = 200;

/// The request is malformed, or the credentials are not accepted.
pub const BAD_REQUEST: u16 = 400;

/// The caller could not be identified.
pub const FORBIDDEN: u16 = 403;

/// The gateway failed.
pub const INTERNAL_SERVER_ERROR: u16 = 500;

/// What a login hands out.
#[derive(Clone, Debug, PartialEq, Eq)]
pub struct LoginResponse {
    pub token: String,
}

/// The body of a response.
#[derive(Clone, Debug, PartialEq, Eq)]
pub enum Body {
    /// No body.
    Empty,
    /// A bare message.
    Text(String),
    /// A bad-request object with its message.
    BadRequest(String),
    /// An internal-server-error object with its message.
    InternalServerError(String),
    /// The token of a login.
    Login(LoginResponse),
    /// The current user with its roles and permissions.
    User(SimpleUserDto),
}

/// What a `Body` stands for in contracts.
pub ghost enum BodyView {
    Empty,
    Text(Seq<char>),
    BadRequest(Seq<char>),
    InternalServerError(Seq<char>),
    Login(Seq<char>),
    User(SimpleUserDtoView),
}

impl View for Body {
    type V = BodyView;

    open spec fn view(&self) -> BodyView {
        match self {
            Body::Empty => BodyView::Empty,
            Body::Text(message) => BodyView::Text(message@),
            Body::BadRequest(message) => BodyView::BadRequest(message@),
            Body::InternalServerError(message) => BodyView::InternalServerError(message@),
            Body::Login(login) => BodyView::Login(login.token@),
            Body::User(user) => BodyView::User(user@),
        }
    }
}

/// A response of the gateway: a status and a body.
#[derive(Clone, Debug, PartialEq, Eq)]
pub struct Response {
    pub status: u16,
    pub body: Body,
}

/// What a `Response` stands for in contracts.
pub ghost struct ResponseView {
    pub status: u16,
    pub body: BodyView,
}

impl View for Response {
    type V = ResponseView;

    open spec fn view(&self) -> ResponseView {
        ResponseView { status: self.status, body: self.body@ }
    }
}

impl DeepView for Response {
    type V = ResponseView;

    open spec fn deep_view(&self) -> ResponseView {
        self@
    }
}

impl ResponseView {
    /// Success without a body.
    pub open spec fn ok() -> ResponseView {
        ResponseView { status: OK, body: BodyView::Empty }
    }

    /// Success with the token of a login.
    pub open spec fn token(token: Seq<char>) -> ResponseView {
        ResponseView { status: OK, body: BodyView::Login(token) }
    }

    /// Success with the current user.
    pub open spec fn user(user: SimpleUserDtoView) -> ResponseView {
        ResponseView { status: OK, body: BodyView::User(user) }
    }

    /// The one answer to credentials that are not accepted, whatever the
    /// reason.
    pub open spec fn denied() -> ResponseView {
        ResponseView { status: BAD_REQUEST, body: BodyView::Empty }
    }

    /// A required field is missing; the message says which.
    pub open spec fn missing(message: Seq<char>) -> ResponseView {
        ResponseView { status: BAD_REQUEST, body: BodyView::Text(message) }
    }

    /// The request cannot be accepted; the message says why.
    pub open spec fn bad_request(message: Seq<char>) -> ResponseView {
        ResponseView { status: BAD_REQUEST, body: BodyView::BadRequest(message) }
    }

    /// The one answer to a caller that could not be identified, whatever the
    /// reason.
    pub open spec fn forbidden() -> ResponseView {
        ResponseView { status: FORBIDDEN, body: BodyView::Empty }
    }

    /// The gateway failed; the message says where.
    pub open spec fn internal(message: Seq<char>) -> ResponseView {
        ResponseView { status: INTERNAL_SERVER_ERROR, body: BodyView::InternalServerError(message) }
    }
}

impl Response {
    /// Success without a body.
    pub fn ok() -> (response: Response)
        ensures
            response@ == ResponseView::ok(),
    {
        Response { status: OK, body: Body::Empty }
    }

    /// Success with the token of a login.
    pub fn token(token: String) -> (response: Response)
        ensures
            response@ == ResponseView::token(token@),
    {
        Response { status: OK, body: Body::Login(LoginResponse { token }) }
    }

    /// Success with the current user.
    pub fn user(user: SimpleUserDto) -> (response: Response)
        ensures
            response@ == ResponseView::user(user@),
    {
        Response { status: OK, body: Body::User(user) }
    }

    /// The one answer to credentials that are not accepted.
    pub fn denied() -> (response: Response)
        ensures
            response@ == ResponseView::denied(),
    {
        Response { status: BAD_REQUEST, body: Body::Empty }
    }

    /// A required field is missing; the message says which.
    pub fn missing(message: &str) -> (response: Response)
        ensures
            response@ == ResponseView::missing(message@),
    {
        Response { status: BAD_REQUEST, body: Body::Text(message.to_owned()) }
    }

    /// The request cannot be accepted; the message says why.
    pub fn bad_request(message: String) -> (response: Response)
        ensures
            response@ == ResponseView::bad_request(message@),
    {
        Response { status: BAD_REQUEST, body: Body::BadRequest(message) }
    }

    /// The one answer to a caller that could not be identified.
    pub fn forbidden() -> (response: Response)
        ensures
            response@ == ResponseView::forbidden(),
    {
        Response { status: FORBIDDEN, body: Body::Empty }
    }

    /// The gateway failed; the message says where.
    pub fn internal(message: String) -> (response: Response)
        ensures
            response@ == ResponseView::internal(message@),
    {
        Response { status: INTERNAL_SERVER_ERROR, body: Body::InternalServerError(message) }
    }
}

} // verus!

//! Who is calling: from the `Authorization` header to the caller's
//! identifier.

use crate::configuration::{entry_stamp, idle_stamp, Config, ConfigView};
use crate::protocol::{Pending, Reply, ReplyView, Request, RequestView, Step, StepView};
use crate::repository::audit::{Action, ResourceIdView, ResourceType, Stamp};
use crate::repository::user::{Error, ErrorView, User, UserView};
use crate::services::audit::{resume_audited, Audited, AuditedView};
use vstd::prelude::*;

verus! {

/// Length of the scheme that precedes a bearer token, the space included.
pub const BEARER_LENGTH: usize = 7;

/// The token of an `Authorization` header: what follows `Bearer `, where the
/// header begins with it.
pub open spec fn bearer(header: Seq<char>) -> Option<Seq<char>> {
    if header.len() >= BEARER_LENGTH && header.subrange(0, BEARER_LENGTH as int) == "Bearer "@ {
        Some(header.subrange(BEARER_LENGTH as int, header.len() as int))
    } else {
        None
    }
}

/// Reads the token of an `Authorization` header.
pub fn bearer_token(header: &str) -> (token: Option<String>)
    ensures
        token.deep_view() == bearer(header@),
{
    let scheme = "Bearer ";
    proof {
        reveal_strlit("Bearer ");
    }
    let length = header.unicode_len();
    if length < BEARER_LENGTH {
        return None;
    }
    let mut i: usize = 0;
    while i < BEARER_LENGTH
        invariant
            i <= BEARER_LENGTH <= length == header@.len(),
            scheme@ == "Bearer "@,
            scheme@.len() == BEARER_LENGTH,
            header@.subrange(0, i as int) =~= scheme@.subrange(0, i as int),
        decreases BEARER_LENGTH - i,
    {
        if header.get_char(i) != scheme.get_char(i) {
            proof {
                assert(header@.subrange(0, BEARER_LENGTH as int)[i as int] != scheme@[i as int]);
            }
            return None;
        }
        proof {
            assert(header@.subrange(0, i + 1) =~= header@.subrange(0, i as int).push(
                header@[i as int],
            ));
            assert(scheme@.subrange(0, i + 1) =~= scheme@.subrange(0, i as int).push(
                scheme@[i as int],
            ));
        }
        i = i + 1;
    }
    proof {
        assert(scheme@.subrange(0, BEARER_LENGTH as int) =~= scheme@);
    }
    Some(header.substring_char(BEARER_LENGTH, length).to_owned())
}

/// Where the identification of a caller stands.
#[derive(Clone, Debug, PartialEq, Eq)]
pub enum Extraction {
    /// Asked whether the token is valid.
    VerifyingToken,
    /// Asked for the user that the token names.
    FindingUser(Audited<Pending, Option<User>, Error>),
}

/// What an `Extraction` stands for in contracts.
pub ghost enum ExtractionView {
    VerifyingToken,
    FindingUser(AuditedView<Pending, Option<UserView>, ErrorView>),
}

impl View for Extraction {
    type V = ExtractionView;

    open spec fn view(&self) -> ExtractionView {
        match self {
            Extraction::VerifyingToken => ExtractionView::VerifyingToken,
            Extraction::FindingUser(lookup) => ExtractionView::FindingUser(lookup.deep_view()),
        }
    }
}

impl DeepView for Extraction {
    type V = ExtractionView;

    open spec fn deep_view(&self) -> ExtractionView {
        self@
    }
}

/// The request with which the verification of a header begins, where the
/// header holds a bearer token.
pub open spec fn verification(authorization: Option<Seq<char>>) -> Option<RequestView> {
    match authorization {
        Some(header) => match bearer(header) {
            Some(token) => Some(RequestView::VerifyToken { token }),
            None => None,
        },
        None => None,
    }
}

impl ConfigView {
    /// The identification of a caller begins with the verification of the
    /// token; without a bearer token there is no caller.
    pub open spec fn get_user_id_from_token(self, authorization: Option<Seq<char>>) -> StepView<
        ExtractionView,
        Seq<char>,
        (),
    > {
        match verification(authorization) {
            Some(request) => StepView::Ask(ExtractionView::VerifyingToken, request),
            None => StepView::Failed(()),
        }
    }

    /// How the identification of a caller takes a reply: the subject of a
    /// valid token is the email of its user, so it is looked up as an email,
    /// and an enabled user that has it is the caller. Anything else leaves
    /// the caller unknown.
    pub open spec fn resume_get_user_id(self, state: ExtractionView, reply: ReplyView, stamp: Stamp)
        -> StepView<ExtractionView, Seq<char>, ()> {
        match state {
            ExtractionView::VerifyingToken => match reply {
                ReplyView::Subject(Some(subject)) => StepView::Ask(
                    ExtractionView::FindingUser(
                        AuditedView::Recording(self.users.find_by_email(subject)),
                    ),
                    self.entered(
                        stamp,
                        Action::Read,
                        ResourceIdView::Name(subject),
                        ResourceType::User,
                    ),
                ),
                _ => StepView::Failed(()),
            },
            ExtractionView::FindingUser(lookup) => {
                match resume_audited(
                    lookup,
                    reply,
                    self.users.finding(),
                    crate::services::user::refused(),
                ) {
                    StepView::Ask(lookup, request) => StepView::Ask(
                        ExtractionView::FindingUser(lookup),
                        request,
                    ),
                    StepView::Done(Some(user)) => if user.enabled {
                        StepView::Done(user.id)
                    } else {
                        StepView::Failed(())
                    },
                    _ => StepView::Failed(()),
                }
            },
        }
    }
}

/// The request with which the verification of a header begins.
pub fn verify_bearer(authorization: Option<&str>) -> (request: Option<Request>)
    ensures
        request.deep_view() == verification(authorization.deep_view()),
{
    match authorization {
        Some(header) => match bearer_token(header) {
            Some(token) => Some(Request::VerifyToken { token }),
            None => None,
        },
        None => None,
    }
}

/// Begins the identification of the caller from the `Authorization` header,
/// if the request has one.
pub fn get_user_id_from_token(authorization: Option<&str>, config: &Config) -> (step: Step<
    Extraction,
    String,
    (),
>)
    ensures
        step.deep_view() == config@.get_user_id_from_token(authorization.deep_view()),
{
    match verify_bearer(authorization) {
        Some(request) => Step::Ask(Extraction::VerifyingToken, request),
        None => Step::Failed(()),
    }
}

/// Takes the identification of the caller one reply further.
pub fn resume_get_user_id(state: Extraction, reply: Reply, config: &Config) -> (step: Step<
    Extraction,
    String,
    (),
>)
    ensures
        exists|stamp: Stamp|
            stamp.is_fresh() && step.deep_view() == #[trigger] config@.resume_get_user_id(
                state@,
                reply@,
                stamp,
            ),
{
    let ghost before = state@;
    let ghost answer = reply@;
    let ghost mut stamp = idle_stamp();
    let step = match state {
        Extraction::VerifyingToken => match reply {
            Reply::Subject(Some(subject)) => {
                let lookup = config.services.user_service.find_by_email(
                    subject.as_str(),
                    "AUTH-RS",
                    &config.services.audit_service,
                );
                match lookup {
                    Step::Ask(lookup, request) => {
                        proof {
                            stamp = entry_stamp(request@);
                        }
                        Step::Ask(Extraction::FindingUser(lookup), request)
                    },
                    _ => unreached(),
                }
            },
            _ => Step::Failed(()),
        },
        Extraction::FindingUser(lookup) => {
            match config.services.user_service.resume_find(lookup, reply) {
                Step::Ask(lookup, request) => Step::Ask(Extraction::FindingUser(lookup), request),
                Step::Done(Some(user)) => if user.enabled {
                    Step::Done(user.id)
                } else {
                    Step::Failed(())
                },
                _ => Step::Failed(()),
            }
        },
    };
    proof {
        assert(stamp.is_fresh());
        assert(step.deep_view() == config@.resume_get_user_id(before, answer, stamp));
    }
    step
}

} // verus!

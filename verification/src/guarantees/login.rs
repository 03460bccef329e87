//! Credentials that are not accepted cannot be told apart.

use crate::configuration::ConfigView;
use crate::password::{argon2_phc, is_valid_salt};
use crate::protocol::{Pending, ReplyView, StepView};
use crate::repository::user::UserView;
use crate::services::audit::AuditedView;
use crate::web::authentication::{verdict, LoginView};
use crate::web::response::ResponseView;
use vstd::prelude::*;

verus! {

/// A login that waits for the user to be found.
pub open spec fn finding_user(password: Seq<char>) -> LoginView {
    LoginView::FindingUser { password, lookup: AuditedView::Running(Pending) }
}

/// A wrong password and a disabled account get the same answer: whenever
/// the hash differs from the stored one, or the account is disabled, the
/// login is denied, and the denial holds nothing of the user or the hash.
pub proof fn denied_credentials_are_alike(
    user: UserView,
    hash: Seq<char>,
    other: UserView,
    other_hash: Seq<char>,
)
    requires
        hash != user.password || !user.enabled,
        other_hash != other.password || !other.enabled,
    ensures
        verdict(user, Some(hash)) == verdict(other, Some(other_hash)),
        verdict(user, Some(hash)) == StepView::<LoginView, ResponseView, ResponseView>::Failed(
            ResponseView::denied(),
        ),
{
}

/// An unknown user, a wrong password and a disabled account all end a login
/// with one and the same answer.
pub proof fn denied_logins_are_alike(config: ConfigView, password: Seq<char>, user: UserView)
    ensures
        config.resume_login(finding_user(password), ReplyView::User(None)) == StepView::<
            LoginView,
            ResponseView,
            ResponseView,
        >::Failed(ResponseView::denied()),
        is_valid_salt(config.salt) && (argon2_phc(password, config.salt) matches Some(hash) && (
        hash != user.password || !user.enabled)) ==> config.resume_login(
            finding_user(password),
            ReplyView::User(Some(user)),
        ) == StepView::<LoginView, ResponseView, ResponseView>::Failed(ResponseView::denied()),
{
}

/// Credentials are accepted only where the hash of the password equals the
/// stored hash and the account is enabled; the token is then asked for the
/// user's email.
pub proof fn accepted_login_asks_for_token(user: UserView, hash: Option<Seq<char>>)
    ensures
        verdict(user, hash) is Ask <==> hash == Some(user.password) && user.enabled,
        verdict(user, hash) matches StepView::Ask(_, request) ==> request
            == (crate::protocol::RequestView::IssueToken { subject: user.email }),
{
}

} // verus!

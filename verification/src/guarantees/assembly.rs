//! What an assembly can come to, and what a refused caller is told.

use crate::configuration::ConfigView;
use crate::protocol::{ReplyView, StepView};
use crate::repository::audit::Stamp;
use crate::repository::role::RoleView;
use crate::repository::user::UserView;
use crate::services::audit::resume_audited;
use crate::web::authentication::SessionView;
use crate::web::dto::{named, AssemblyView, ConvertErrorView, SimpleRoleDtoView, SimpleUserDtoView};
use crate::web::response::ResponseView;
use vstd::prelude::*;

verus! {

/// Going through the roles never fails: it either asks for the permissions
/// of a role or is done.
pub proof fn resolving_never_fails(
    config: ConfigView,
    user: SimpleUserDtoView,
    roles: Seq<RoleView>,
    next: nat,
    resolved: Seq<SimpleRoleDtoView>,
    stamp: Stamp,
)
    ensures
        !(config.resolve(user, roles, next, resolved, stamp) is Failed),
    decreases roles.len() - next,
{
    if next < roles.len() && named(roles[next as int].permissions).len() == 0 {
        resolving_never_fails(
            config,
            user,
            roles,
            next + 1,
            resolved.push(SimpleRoleDtoView::from(roles[next as int], Seq::empty())),
            stamp,
        );
    }
}

/// A user that names no role is shown at once, without roles and without a
/// request, whether the list is missing or empty.
pub proof fn user_without_roles_is_shown_at_once(config: ConfigView, user: UserView, stamp: Stamp)
    ensures
        !(config.convert(user, stamp) is Failed),
        user.roles is None || user.roles == Some(Seq::<Seq<char>>::empty()) ==> config.convert(
            user,
            stamp,
        ) == StepView::<AssemblyView, SimpleUserDtoView, ConvertErrorView>::Done(
            SimpleUserDtoView::from(user),
        ),
{
}

/// An assembly fails only where a service fails, and says which: a failure
/// while the roles are resolved is the role service's, one while the
/// permissions are resolved is the permission service's. What is missing
/// from the store never makes it fail.
pub proof fn assembly_fails_only_with_a_service(
    config: ConfigView,
    state: AssemblyView,
    reply: ReplyView,
    stamp: Stamp,
)
    ensures
        config.resume_convert(state, reply, stamp) matches StepView::Failed(error) ==> match state {
            AssemblyView::ResolvingRoles { lookup, .. } => {
                resume_audited(
                    lookup,
                    reply,
                    config.roles.listing(),
                    crate::services::role::refused(),
                ) matches StepView::Failed(cause) && error == ConvertErrorView::RoleError(cause)
            },
            AssemblyView::ResolvingPermissions { lookup, .. } => {
                resume_audited(
                    lookup,
                    reply,
                    config.permissions.listing(),
                    crate::services::permission::refused(),
                ) matches StepView::Failed(cause) && error == ConvertErrorView::PermissionError(
                    cause,
                )
            },
        },
{
    match state {
        AssemblyView::ResolvingRoles { user, lookup } => {
            let taken = resume_audited(
                lookup,
                reply,
                config.roles.listing(),
                crate::services::role::refused(),
            );
            if let StepView::Done(roles) = taken {
                resolving_never_fails(config, user, roles, 0, Seq::empty(), stamp);
            }
        },
        AssemblyView::ResolvingPermissions { user, roles, next, resolved, lookup } => {
            let taken = resume_audited(
                lookup,
                reply,
                config.permissions.listing(),
                crate::services::permission::refused(),
            );
            if let StepView::Done(permissions) = taken {
                if next < roles.len() {
                    resolving_never_fails(
                        config,
                        user,
                        roles,
                        next + 1,
                        resolved.push(SimpleRoleDtoView::from(roles[next as int], permissions)),
                        stamp,
                    );
                } else {
                    resolving_never_fails(config, user, roles, next, resolved, stamp);
                }
            }
        },
    }
}

/// A caller that is refused is always told the same: whatever went wrong
/// with the header, the token, the user or the assembly, the answer is the
/// one forbidden response.
pub proof fn refused_callers_are_told_the_same(
    config: ConfigView,
    authorization: Option<Seq<char>>,
    state: SessionView,
    reply: ReplyView,
    stamp: Stamp,
)
    ensures
        config.current_user(authorization) matches StepView::Failed(response) ==> response
            == ResponseView::forbidden(),
        config.resume_current_user(state, reply, stamp) matches StepView::Failed(response)
            ==> response == ResponseView::forbidden(),
{
}

} // verus!

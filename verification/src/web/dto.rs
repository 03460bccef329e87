//! What is shown of a user, and how it is put together.
//!
//! A user names its roles and a role its permissions by identifier. The
//! assembly resolves both tiers through the services and nests what it finds.

use crate::configuration::{entry_stamp, idle_stamp, Config, ConfigView};
use crate::protocol::{copy_ids, Pending, Reply, ReplyView, Step, StepView};
use crate::repository::audit::{Action, ResourceIdView, ResourceType, Stamp};
use crate::repository::permission::{Permission, PermissionView};
use crate::repository::role::{Role, RoleView};
use crate::repository::user::{User, UserView};
use crate::services::audit::{resume_audited, Audited, AuditedView};
use vstd::prelude::*;

verus! {

/// A permission as it is shown.
#[derive(Clone, Debug, PartialEq, Eq)]
pub struct SimplePermissionDto {
    pub id: String,
    pub name: String,
    pub description: String,
}

/// What a `SimplePermissionDto` stands for in contracts.
pub ghost struct SimplePermissionDtoView {
    pub id: Seq<char>,
    pub name: Seq<char>,
    pub description: Seq<char>,
}

impl View for SimplePermissionDto {
    type V = SimplePermissionDtoView;

    open spec fn view(&self) -> SimplePermissionDtoView {
        SimplePermissionDtoView { id: self.id@, name: self.name@, description: self.description@ }
    }
}

impl DeepView for SimplePermissionDto {
    type V = SimplePermissionDtoView;

    open spec fn deep_view(&self) -> SimplePermissionDtoView {
        self@
    }
}

/// A role as it is shown, with the permissions it grants.
#[derive(Clone, Debug, PartialEq, Eq)]
pub struct SimpleRoleDto {
    pub id: String,
    pub name: String,
    pub permissions: Option<Vec<SimplePermissionDto>>,
}

/// What a `SimpleRoleDto` stands for in contracts.
pub ghost struct SimpleRoleDtoView {
    pub id: Seq<char>,
    pub name: Seq<char>,
    pub permissions: Option<Seq<SimplePermissionDtoView>>,
}

impl View for SimpleRoleDto {
    type V = SimpleRoleDtoView;

    open spec fn view(&self) -> SimpleRoleDtoView {
        SimpleRoleDtoView {
            id: self.id@,
            name: self.name@,
            permissions: self.permissions.deep_view(),
        }
    }
}

impl DeepView for SimpleRoleDto {
    type V = SimpleRoleDtoView;

    open spec fn deep_view(&self) -> SimpleRoleDtoView {
        self@
    }
}

/// A user as it is shown, with its roles; the password hash is left out.
#[derive(Clone, Debug, PartialEq, Eq)]
pub struct SimpleUserDto {
    pub id: String,
    pub username: String,
    pub email: String,
    pub first_name: String,
    pub last_name: String,
    pub roles: Option<Vec<SimpleRoleDto>>,
    pub created_at: String,
    pub updated_at: String,
    pub enabled: bool,
}

/// What a `SimpleUserDto` stands for in contracts.
pub ghost struct SimpleUserDtoView {
    pub id: Seq<char>,
    pub username: Seq<char>,
    pub email: Seq<char>,
    pub first_name: Seq<char>,
    pub last_name: Seq<char>,
    pub roles: Option<Seq<SimpleRoleDtoView>>,
    pub created_at: Seq<char>,
    pub updated_at: Seq<char>,
    pub enabled: bool,
}

impl View for SimpleUserDto {
    type V = SimpleUserDtoView;

    open spec fn view(&self) -> SimpleUserDtoView {
        SimpleUserDtoView {
            id: self.id@,
            username: self.username@,
            email: self.email@,
            first_name: self.first_name@,
            last_name: self.last_name@,
            roles: self.roles.deep_view(),
            created_at: self.created_at@,
            updated_at: self.updated_at@,
            enabled: self.enabled,
        }
    }
}

impl DeepView for SimpleUserDto {
    type V = SimpleUserDtoView;

    open spec fn deep_view(&self) -> SimpleUserDtoView {
        self@
    }
}

impl SimplePermissionDtoView {
    /// What is shown of a permission.
    pub open spec fn from(permission: PermissionView) -> SimplePermissionDtoView {
        SimplePermissionDtoView {
            id: permission.id,
            name: permission.name,
            description: permission.description,
        }
    }
}

impl SimpleRoleDtoView {
    /// What is shown of a role whose permissions have been resolved. A role
    /// for which none was found shows no list at all.
    pub open spec fn from(role: RoleView, permissions: Seq<PermissionView>) -> SimpleRoleDtoView {
        SimpleRoleDtoView {
            id: role.id,
            name: role.name,
            permissions: if permissions.len() == 0 {
                None
            } else {
                Some(
                    permissions.map_values(
                        |permission: PermissionView| SimplePermissionDtoView::from(permission),
                    ),
                )
            },
        }
    }
}

impl SimpleUserDtoView {
    /// What is shown of a user before its roles are resolved.
    pub open spec fn from(user: UserView) -> SimpleUserDtoView {
        SimpleUserDtoView {
            id: user.id,
            username: user.username,
            email: user.email,
            first_name: user.first_name,
            last_name: user.last_name,
            roles: None,
            created_at: user.created_at,
            updated_at: user.updated_at,
            enabled: user.enabled,
        }
    }
}

impl SimplePermissionDto {
    /// What is shown of a permission.
    pub fn from(permission: Permission) -> (dto: SimplePermissionDto)
        ensures
            dto@ == SimplePermissionDtoView::from(permission@),
    {
        SimplePermissionDto {
            id: permission.id,
            name: permission.name,
            description: permission.description,
        }
    }
}

impl SimpleRoleDto {
    /// What is shown of a role whose permissions have been resolved.
    pub fn from(role: &Role, permissions: Vec<Permission>) -> (dto: SimpleRoleDto)
        ensures
            dto@ == SimpleRoleDtoView::from(role@, permissions.deep_view()),
    {
        let ghost found = permissions.deep_view();
        let mut permissions = permissions;
        let mut shown: Vec<SimplePermissionDto> = Vec::new();
        while permissions.len() > 0
            invariant
                shown.len() + permissions.len() == found.len(),
                forall|i: int|
                    0 <= i < shown.len() ==> shown.deep_view()[i] == SimplePermissionDtoView::from(
                        found[found.len() - 1 - i],
                    ),
                forall|i: int|
                    0 <= i < permissions.len() ==> permissions.deep_view()[i] == found[i],
            decreases permissions.len(),
        {
            let ghost before = shown.deep_view();
            let permission = permissions.pop().unwrap();
            shown.push(SimplePermissionDto::from(permission));
            assert forall|i: int| 0 <= i < shown.len() implies shown.deep_view()[i]
                == SimplePermissionDtoView::from(found[found.len() - 1 - i]) by {
                if i < shown.len() - 1 {
                    assert(shown.deep_view()[i] == before[i]);
                }
            }
        }
        let mut ordered: Vec<SimplePermissionDto> = Vec::new();
        while shown.len() > 0
            invariant
                shown.len() + ordered.len() == found.len(),
                forall|i: int|
                    0 <= i < shown.len() ==> shown.deep_view()[i] == SimplePermissionDtoView::from(
                        found[found.len() - 1 - i],
                    ),
                forall|i: int|
                    0 <= i < ordered.len() ==> ordered.deep_view()[i]
                        == SimplePermissionDtoView::from(found[i]),
            decreases shown.len(),
        {
            let ghost before = ordered.deep_view();
            let ghost rest = shown.deep_view();
            let dto = shown.pop().unwrap();
            assert(dto@ == rest[rest.len() - 1]);
            ordered.push(dto);
            assert forall|i: int| 0 <= i < ordered.len() implies ordered.deep_view()[i]
                == SimplePermissionDtoView::from(found[i]) by {
                if i < ordered.len() - 1 {
                    assert(ordered.deep_view()[i] == before[i]);
                }
            }
            assert forall|i: int| 0 <= i < shown.len() implies shown.deep_view()[i]
                == SimplePermissionDtoView::from(found[found.len() - 1 - i]) by {
                assert(shown.deep_view()[i] == rest[i]);
            }
        }
        let listed = if ordered.len() == 0 {
            None
        } else {
            Some(ordered)
        };
        proof {
            if found.len() > 0 {
                assert(ordered.deep_view() =~= found.map_values(
                    |permission: PermissionView| SimplePermissionDtoView::from(permission),
                ));
            }
        }
        SimpleRoleDto { id: role.id.clone(), name: role.name.clone(), permissions: listed }
    }
}

impl SimpleUserDto {
    /// What is shown of a user before its roles are resolved.
    pub fn from(user: User) -> (dto: SimpleUserDto)
        ensures
            dto@ == SimpleUserDtoView::from(user@),
    {
        SimpleUserDto {
            id: user.id,
            username: user.username,
            email: user.email,
            first_name: user.first_name,
            last_name: user.last_name,
            roles: None,
            created_at: user.created_at,
            updated_at: user.updated_at,
            enabled: user.enabled,
        }
    }
}

/// Why an assembly failed: which tier could not be resolved, and the
/// service's error.
#[derive(Clone, Debug, PartialEq, Eq)]
pub enum ConvertError {
    RoleError(crate::repository::role::Error),
    PermissionError(crate::repository::permission::Error),
}

/// What a `ConvertError` stands for in contracts.
pub ghost enum ConvertErrorView {
    RoleError(crate::repository::role::ErrorView),
    PermissionError(crate::repository::permission::ErrorView),
}

impl View for ConvertError {
    type V = ConvertErrorView;

    open spec fn view(&self) -> ConvertErrorView {
        match self {
            ConvertError::RoleError(error) => ConvertErrorView::RoleError(error@),
            ConvertError::PermissionError(error) => ConvertErrorView::PermissionError(error@),
        }
    }
}

impl DeepView for ConvertError {
    type V = ConvertErrorView;

    open spec fn deep_view(&self) -> ConvertErrorView {
        self@
    }
}

impl ConvertErrorView {
    /// The text of the error.
    pub open spec fn message(self) -> Seq<char> {
        match self {
            ConvertErrorView::RoleError(error) => "Role error: "@ + error.message(),
            ConvertErrorView::PermissionError(error) => "Permission error: "@ + error.message(),
        }
    }
}

impl ConvertError {
    /// The text of the error.
    pub fn to_string(&self) -> (text: String)
        ensures
            text@ == self@.message(),
    {
        match self {
            ConvertError::RoleError(error) => {
                let reason = error.to_string();
                "Role error: ".to_owned().concat(reason.as_str())
            },
            ConvertError::PermissionError(error) => {
                let reason = error.to_string();
                "Permission error: ".to_owned().concat(reason.as_str())
            },
        }
    }
}

/// Where the assembly of a user stands.
#[derive(Clone, Debug, PartialEq, Eq)]
#[allow(inconsistent_fields)]
pub enum Assembly {
    /// Asked for the roles of the user.
    ResolvingRoles {
        user: SimpleUserDto,
        lookup: Audited<Pending, Vec<Role>, crate::repository::role::Error>,
    },
    /// Asked for the permissions of the role at `next`; the roles before it
    /// are resolved.
    ResolvingPermissions {
        user: SimpleUserDto,
        roles: Vec<Role>,
        next: usize,
        resolved: Vec<SimpleRoleDto>,
        lookup: Audited<Pending, Vec<Permission>, crate::repository::permission::Error>,
    },
}

/// What an `Assembly` stands for in contracts.
#[allow(inconsistent_fields)]
pub ghost enum AssemblyView {
    ResolvingRoles {
        user: SimpleUserDtoView,
        lookup: AuditedView<Pending, Seq<RoleView>, crate::repository::role::ErrorView>,
    },
    ResolvingPermissions {
        user: SimpleUserDtoView,
        roles: Seq<RoleView>,
        next: nat,
        resolved: Seq<SimpleRoleDtoView>,
        lookup: AuditedView<Pending, Seq<PermissionView>, crate::repository::permission::ErrorView>,
    },
}

impl View for Assembly {
    type V = AssemblyView;

    open spec fn view(&self) -> AssemblyView {
        match self {
            Assembly::ResolvingRoles { user, lookup } => AssemblyView::ResolvingRoles {
                user: user@,
                lookup: lookup.deep_view(),
            },
            Assembly::ResolvingPermissions { user, roles, next, resolved, lookup } => {
                AssemblyView::ResolvingPermissions {
                    user: user@,
                    roles: roles.deep_view(),
                    next: *next as nat,
                    resolved: resolved.deep_view(),
                    lookup: lookup.deep_view(),
                }
            },
        }
    }
}

impl DeepView for Assembly {
    type V = AssemblyView;

    open spec fn deep_view(&self) -> AssemblyView {
        self@
    }
}

/// The identifiers that an optional list names: those of the list, or none.
pub open spec fn named(ids: Option<Seq<Seq<char>>>) -> Seq<Seq<char>> {
    match ids {
        Some(ids) => ids,
        None => Seq::empty(),
    }
}

impl ConfigView {
    /// An assembly begins with what is shown of the user alone. A user that
    /// names no role is done at once; for any other the roles are asked for.
    pub open spec fn convert(self, user: UserView, stamp: Stamp) -> StepView<
        AssemblyView,
        SimpleUserDtoView,
        ConvertErrorView,
    > {
        let shown = SimpleUserDtoView::from(user);
        let ids = named(user.roles);
        if ids.len() > 0 {
            StepView::Ask(
                AssemblyView::ResolvingRoles {
                    user: shown,
                    lookup: AuditedView::Recording(self.roles.find_by_id_vec(ids)),
                },
                self.entered(stamp, Action::Read, ResourceIdView::IdVec(ids), ResourceType::Role),
            )
        } else {
            StepView::Done(shown)
        }
    }

    /// Goes through the roles from `next` on. A role that names no permission
    /// is shown without any; at the first role that names some, these are
    /// asked for. Once every role is resolved the user is shown with them.
    pub open spec fn resolve(
        self,
        user: SimpleUserDtoView,
        roles: Seq<RoleView>,
        next: nat,
        resolved: Seq<SimpleRoleDtoView>,
        stamp: Stamp,
    ) -> StepView<AssemblyView, SimpleUserDtoView, ConvertErrorView>
        decreases roles.len() - next,
    {
        if next >= roles.len() {
            StepView::Done(SimpleUserDtoView { roles: Some(resolved), ..user })
        } else if named(roles[next as int].permissions).len() > 0 {
            let ids = named(roles[next as int].permissions);
            StepView::Ask(
                AssemblyView::ResolvingPermissions {
                    user,
                    roles,
                    next,
                    resolved,
                    lookup: AuditedView::Recording(self.permissions.find_by_id_vec(ids)),
                },
                self.entered(
                    stamp,
                    Action::Read,
                    ResourceIdView::IdVec(ids),
                    ResourceType::Permission,
                ),
            )
        } else {
            self.resolve(
                user,
                roles,
                next + 1,
                resolved.push(SimpleRoleDtoView::from(roles[next as int], Seq::empty())),
                stamp,
            )
        }
    }

    /// How an assembly takes a reply. A failure of the role service or of the
    /// permission service ends it and is reported under its tier. Roles that
    /// were not found are simply not shown, and where none was found the
    /// user is shown without a list of roles.
    pub open spec fn resume_convert(self, state: AssemblyView, reply: ReplyView, stamp: Stamp)
        -> StepView<AssemblyView, SimpleUserDtoView, ConvertErrorView> {
        match state {
            AssemblyView::ResolvingRoles { user, lookup } => {
                match resume_audited(
                    lookup,
                    reply,
                    self.roles.listing(),
                    crate::services::role::refused(),
                ) {
                    StepView::Ask(lookup, request) => StepView::Ask(
                        AssemblyView::ResolvingRoles { user, lookup },
                        request,
                    ),
                    StepView::Failed(error) => StepView::Failed(
                        ConvertErrorView::RoleError(error),
                    ),
                    StepView::Done(roles) => {
                        if roles.len() == 0 {
                            StepView::Done(user)
                        } else {
                            self.resolve(user, roles, 0, Seq::empty(), stamp)
                        }
                    },
                }
            },
            AssemblyView::ResolvingPermissions { user, roles, next, resolved, lookup } => {
                match resume_audited(
                    lookup,
                    reply,
                    self.permissions.listing(),
                    crate::services::permission::refused(),
                ) {
                    StepView::Ask(lookup, request) => StepView::Ask(
                        AssemblyView::ResolvingPermissions { user, roles, next, resolved, lookup },
                        request,
                    ),
                    StepView::Failed(error) => StepView::Failed(
                        ConvertErrorView::PermissionError(error),
                    ),
                    StepView::Done(permissions) => {
                        if next < roles.len() {
                            self.resolve(
                                user,
                                roles,
                                next + 1,
                                resolved.push(
                                    SimpleRoleDtoView::from(roles[next as int], permissions),
                                ),
                                stamp,
                            )
                        } else {
                            self.resolve(user, roles, next, resolved, stamp)
                        }
                    },
                }
            },
        }
    }
}

/// Whether an optional list names any identifier.
fn names_any(ids: &Option<Vec<String>>) -> (any: bool)
    ensures
        any == (named(ids.deep_view()).len() > 0),
{
    match ids {
        Some(ids) => ids.len() > 0,
        None => false,
    }
}

/// A copy of the identifiers that an optional list names.
fn copy_named(ids: &Option<Vec<String>>) -> (copy: Vec<String>)
    ensures
        copy.deep_view() == named(ids.deep_view()),
{
    match ids {
        Some(ids) => copy_ids(ids),
        None => {
            let copy: Vec<String> = Vec::new();
            assert(copy.deep_view() =~= Seq::<Seq<char>>::empty());
            copy
        },
    }
}

/// Asks for the permissions of the role at `next`.
fn ask_permissions(
    user: SimpleUserDto,
    roles: Vec<Role>,
    next: usize,
    resolved: Vec<SimpleRoleDto>,
    pool: &Config,
) -> (out: (Step<Assembly, SimpleUserDto, ConvertError>, Ghost<Stamp>))
    requires
        next < roles.len(),
        named(roles.deep_view()[next as int].permissions).len() > 0,
    ensures
        out.1@.is_fresh(),
        out.0.deep_view() == pool@.resolve(
            user@,
            roles.deep_view(),
            next as nat,
            resolved.deep_view(),
            out.1@,
        ),
{
    let ids = copy_named(&roles[next].permissions);
    let lookup = pool.services.permission_service.find_by_id_vec(
        ids,
        "AUTH-RS",
        &pool.services.audit_service,
    );
    match lookup {
        Step::Ask(lookup, request) => {
            let ghost stamp = entry_stamp(request@);
            (
                Step::Ask(
                    Assembly::ResolvingPermissions { user, roles, next, resolved, lookup },
                    request,
                ),
                Ghost(stamp),
            )
        },
        _ => unreached(),
    }
}

/// Goes through the roles from `next` on, as far as the first that names
/// permissions.
fn resolve(
    user: SimpleUserDto,
    roles: Vec<Role>,
    next: usize,
    resolved: Vec<SimpleRoleDto>,
    pool: &Config,
) -> (out: (Step<Assembly, SimpleUserDto, ConvertError>, Ghost<Stamp>))
    ensures
        out.1@.is_fresh(),
        out.0.deep_view() == pool@.resolve(
            user@,
            roles.deep_view(),
            next as nat,
            resolved.deep_view(),
            out.1@,
        ),
{
    let ghost first = next as nat;
    let ghost before = resolved.deep_view();
    let ghost all = roles.deep_view();
    let ghost shown = user@;
    let mut index = next;
    let mut listed = resolved;
    while index < roles.len()
        invariant
            roles.deep_view() == all,
            user@ == shown,
            first == next as nat,
            before == resolved.deep_view(),
            forall|stamp: Stamp|
                #[trigger] pool@.resolve(shown, all, index as nat, listed.deep_view(), stamp)
                    == pool@.resolve(shown, all, first, before, stamp),
        decreases roles.len() - index,
    {
        if names_any(&roles[index].permissions) {
            let ghost kept = listed.deep_view();
            let ghost at = index as nat;
            let out = ask_permissions(user, roles, index, listed, pool);
            proof {
                assert(pool@.resolve(shown, all, at, kept, out.1@) == pool@.resolve(
                    shown,
                    all,
                    first,
                    before,
                    out.1@,
                ));
            }
            return out;
        }
        let ghost kept = listed.deep_view();
        let none: Vec<Permission> = Vec::new();
        assert(none.deep_view() =~= Seq::<PermissionView>::empty());
        listed.push(SimpleRoleDto::from(&roles[index], none));
        proof {
            let grown = kept.push(SimpleRoleDtoView::from(all[index as int], Seq::empty()));
            assert(listed.deep_view() =~= grown);
            assert forall|stamp: Stamp|
                #[trigger] pool@.resolve(shown, all, (index + 1) as nat, grown, stamp)
                    == pool@.resolve(shown, all, first, before, stamp) by {
                assert(pool@.resolve(shown, all, index as nat, kept, stamp) == pool@.resolve(
                    shown,
                    all,
                    (index + 1) as nat,
                    grown,
                    stamp,
                ));
            }
        }
        index = index + 1;
    }
    let ghost last = listed.deep_view();
    let mut done = user;
    done.roles = Some(listed);
    proof {
        assert(pool@.resolve(shown, all, index as nat, last, idle_stamp()) == pool@.resolve(
            shown,
            all,
            first,
            before,
            idle_stamp(),
        ));
        assert(done@ == (SimpleUserDtoView { roles: Some(last), ..shown }));
    }
    (Step::Done(done), Ghost(idle_stamp()))
}

/// Begins the assembly of what is shown of a user: the user, its roles, and
/// the permissions of each role.
pub fn convert_user_to_simple_dto(user: User, pool: &Config) -> (step: Step<
    Assembly,
    SimpleUserDto,
    ConvertError,
>)
    ensures
        exists|stamp: Stamp|
            stamp.is_fresh() && step.deep_view() == #[trigger] pool@.convert(user@, stamp),
{
    let ghost wanted = user@;
    if !names_any(&user.roles) {
        let step = Step::Done(SimpleUserDto::from(user));
        proof {
            assert(idle_stamp().is_fresh());
            assert(step.deep_view() == pool@.convert(wanted, idle_stamp()));
        }
        return step;
    }
    let ids = copy_named(&user.roles);
    let lookup = pool.services.role_service.find_by_id_vec(
        ids,
        "AUTH-RS",
        &pool.services.audit_service,
    );
    let shown = SimpleUserDto::from(user);
    match lookup {
        Step::Ask(lookup, request) => {
            let step = Step::Ask(Assembly::ResolvingRoles { user: shown, lookup }, request);
            proof {
                let stamp = entry_stamp(request@);
                assert(stamp.is_fresh());
                assert(step.deep_view() == pool@.convert(wanted, stamp));
            }
            step
        },
        _ => unreached(),
    }
}

/// Takes the reply to the search for the roles of a user.
fn roles_resolved(
    user: SimpleUserDto,
    lookup: Audited<Pending, Vec<Role>, crate::repository::role::Error>,
    reply: Reply,
    pool: &Config,
) -> (out: (Step<Assembly, SimpleUserDto, ConvertError>, Ghost<Stamp>))
    ensures
        out.1@.is_fresh(),
        out.0.deep_view() == pool@.resume_convert(
            AssemblyView::ResolvingRoles { user: user@, lookup: lookup.deep_view() },
            reply@,
            out.1@,
        ),
{
    match pool.services.role_service.resume_list(lookup, reply) {
        Step::Ask(lookup, request) => (
            Step::Ask(Assembly::ResolvingRoles { user, lookup }, request),
            Ghost(idle_stamp()),
        ),
        Step::Failed(error) => (Step::Failed(ConvertError::RoleError(error)), Ghost(idle_stamp())),
        Step::Done(roles) => {
            if roles.len() == 0 {
                return (Step::Done(user), Ghost(idle_stamp()));
            }
            let resolved: Vec<SimpleRoleDto> = Vec::new();
            assert(resolved.deep_view() =~= Seq::<SimpleRoleDtoView>::empty());
            resolve(user, roles, 0, resolved, pool)
        },
    }
}

/// Takes the reply to the search for the permissions of the role at `next`.
fn permissions_resolved(
    user: SimpleUserDto,
    roles: Vec<Role>,
    next: usize,
    resolved: Vec<SimpleRoleDto>,
    lookup: Audited<Pending, Vec<Permission>, crate::repository::permission::Error>,
    reply: Reply,
    pool: &Config,
) -> (out: (Step<Assembly, SimpleUserDto, ConvertError>, Ghost<Stamp>))
    ensures
        out.1@.is_fresh(),
        out.0.deep_view() == pool@.resume_convert(
            AssemblyView::ResolvingPermissions {
                user: user@,
                roles: roles.deep_view(),
                next: next as nat,
                resolved: resolved.deep_view(),
                lookup: lookup.deep_view(),
            },
            reply@,
            out.1@,
        ),
{
    match pool.services.permission_service.resume_list(lookup, reply) {
        Step::Ask(lookup, request) => (
            Step::Ask(
                Assembly::ResolvingPermissions { user, roles, next, resolved, lookup },
                request,
            ),
            Ghost(idle_stamp()),
        ),
        Step::Failed(error) => (
            Step::Failed(ConvertError::PermissionError(error)),
            Ghost(idle_stamp()),
        ),
        Step::Done(permissions) => {
            if next < roles.len() {
                let ghost kept = resolved.deep_view();
                let ghost found = permissions.deep_view();
                let mut resolved = resolved;
                resolved.push(SimpleRoleDto::from(&roles[next], permissions));
                proof {
                    assert(resolved.deep_view() =~= kept.push(
                        SimpleRoleDtoView::from(roles.deep_view()[next as int], found),
                    ));
                }
                resolve(user, roles, next + 1, resolved, pool)
            } else {
                resolve(user, roles, next, resolved, pool)
            }
        },
    }
}

/// Takes the assembly of a user one reply further.
pub fn resume_convert(state: Assembly, reply: Reply, pool: &Config) -> (step: Step<
    Assembly,
    SimpleUserDto,
    ConvertError,
>)
    ensures
        exists|stamp: Stamp|
            stamp.is_fresh() && step.deep_view() == #[trigger] pool@.resume_convert(
                state@,
                reply@,
                stamp,
            ),
{
    let ghost before = state@;
    let ghost answer = reply@;
    let out = match state {
        Assembly::ResolvingRoles { user, lookup } => roles_resolved(user, lookup, reply, pool),
        Assembly::ResolvingPermissions { user, roles, next, resolved, lookup } => {
            permissions_resolved(user, roles, next, resolved, lookup, reply, pool)
        },
    };
    proof {
        assert(out.1@.is_fresh());
        assert(out.0.deep_view() == pool@.resume_convert(before, answer, out.1@));
    }
    out.0
}

} // verus!

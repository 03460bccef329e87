//! What the gateway is configured with: the salt and the services.

use crate::protocol::{DocumentView, RequestView};
use crate::repository::audit::{
    Action, AuditRepositoryView, AuditView, ResourceIdView, ResourceType, Stamp,
};
use crate::repository::permission::PermissionRepositoryView;
use crate::repository::role::RoleRepositoryView;
use crate::repository::user::UserRepositoryView;
use crate::services::audit::AuditService;
use crate::services::permission::PermissionService;
use crate::services::role::RoleService;
use crate::services::user::UserService;
use crate::stamp::ID_LENGTH;
use vstd::prelude::*;

verus! {

/// The services of the system.
#[derive(Clone, Debug, PartialEq, Eq)]
pub struct Services {
    pub user_service: UserService,
    pub role_service: RoleService,
    pub permission_service: PermissionService,
    pub audit_service: AuditService,
}

/// The configuration, made once and handed to whatever needs it.
#[derive(Clone, Debug, PartialEq, Eq)]
pub struct Config {
    /// The salt under which every password is hashed.
    pub salt: String,
    pub services: Services,
}

/// What a `Config` stands for in contracts.
pub ghost struct ConfigView {
    pub salt: Seq<char>,
    pub users: UserRepositoryView,
    pub roles: RoleRepositoryView,
    pub permissions: PermissionRepositoryView,
    /// The collection of the ledger.
    pub ledger: Seq<char>,
}

impl View for Config {
    type V = ConfigView;

    open spec fn view(&self) -> ConfigView {
        ConfigView {
            salt: self.salt@,
            users: self.services.user_service@,
            roles: self.services.role_service@,
            permissions: self.services.permission_service@,
            ledger: self.services.audit_service@.collection,
        }
    }
}

/// The actor under which the gateway's own reads and writes are entered in
/// the ledger.
pub open spec fn gateway_actor() -> Seq<char> {
    "AUTH-RS"@
}

/// The name of the role that every newly registered user is given.
pub open spec fn default_role_name() -> Seq<char> {
    "DEFAULT"@
}

impl Config {
    /// A configuration from its parts.
    pub fn new(salt: String, services: Services) -> (config: Config)
        ensures
            config.salt == salt,
            config.services == services,
    {
        Config { salt, services }
    }
}

impl ConfigView {
    /// The entry for something the gateway does under its own name.
    pub open spec fn gateway_entry(
        self,
        stamp: Stamp,
        action: Action,
        resource_id: ResourceIdView,
        resource_type: ResourceType,
    ) -> AuditView {
        AuditView::stamped(stamp, gateway_actor(), action, resource_id, resource_type)
    }

    /// The request that enters something the gateway does in the ledger.
    pub open spec fn entered(
        self,
        stamp: Stamp,
        action: Action,
        resource_id: ResourceIdView,
        resource_type: ResourceType,
    ) -> RequestView {
        AuditRepositoryView { collection: self.ledger }.insertion(
            self.gateway_entry(stamp, action, resource_id, resource_type),
        )
    }
}

/// A stamp with an identifier of the generated length, for a step that
/// enters nothing in the ledger.
pub open spec fn idle_stamp() -> Stamp {
    Stamp { id: Seq::new(ID_LENGTH as nat, |i: int| '0'), now: Seq::empty() }
}

/// The stamp of the entry that a request appends to the ledger.
pub open spec fn entry_stamp(request: RequestView) -> Stamp {
    match request {
        RequestView::InsertOne { document: DocumentView::Audit(entry), .. } => entry.stamp(),
        _ => idle_stamp(),
    }
}

} // verus!

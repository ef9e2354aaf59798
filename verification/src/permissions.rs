//! Permission manifest of the Boson console.
use vstd::prelude::*;

verus! {

/// Domain key under which the console's permissions are synced.
pub const BOSON_PERMISSION_DOMAIN_KEY: &'static str = "boson";

/// Display name of the permission domain.
pub const BOSON_PERMISSION_DOMAIN_NAME: &'static str = "Boson";

/// Description of the permission domain.
pub const BOSON_PERMISSION_DOMAIN_DESCRIPTION: &'static str = "Boson background-work administration";

/// Permission that gates the console's mutating server functions.
pub const BOSON_ADMIN_PERMISSION: &'static str = "BosonAdmin";

/// Permissions of the Boson console.
#[derive(Clone, Copy, Debug, PartialEq, Eq, Structural)]
pub enum BosonPermission {
    /// Cancel jobs and update task configuration.
    BosonAdmin,
}

impl BosonPermission {
    /// Every permission of the manifest.
    pub fn all() -> (r: Vec<BosonPermission>)
        ensures
            r@ == seq![BosonPermission::BosonAdmin],
    {
        vec![BosonPermission::BosonAdmin]
    }

    /// The permission's name as the server functions check it.
    pub fn name(&self) -> (r: &'static str)
        ensures
            r@ == "BosonAdmin"@,
    {
        match self {
            BosonPermission::BosonAdmin => BOSON_ADMIN_PERMISSION,
        }
    }

    /// What the permission allows.
    pub fn description(&self) -> (r: &'static str)
        ensures
            r@ == "Administer Boson job cancellation and task configuration"@,
    {
        match self {
            BosonPermission::BosonAdmin => "Administer Boson job cancellation and task configuration",
        }
    }
}

} // verus!

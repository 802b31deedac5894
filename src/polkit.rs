use vstd::prelude::*;

verus! {

/// The PolicyKit action for applying updates.
pub const POLKIT_ACTION_UPDATE: &'static str = "com.github.cosmic-ext.package-updater.update";

/// The PolicyKit action for checking for updates.
pub const POLKIT_ACTION_CHECK: &'static str = "com.github.cosmic-ext.package-updater.check";

} // verus!

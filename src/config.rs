use vstd::prelude::*;
use crate::package_manager::PackageManager;
use crate::text::string_from;

verus! {

/// How a NixOS system is configured: legacy channels or flakes.
#[derive(Clone, Copy, Debug, PartialEq, Eq, Structural)]
pub enum NixOSMode {
    Channels,
    Flakes,
}

/// Settings for checking a NixOS system. `config_path` names a directory;
/// a `flake.nix` in it means the flakes mode.
#[derive(Clone, Debug)]
pub struct NixOSConfig {
    pub mode: NixOSMode,
    pub config_path: String,
    pub hostname: Option<String>,
}

impl Default for NixOSConfig {
    fn default() -> (r: Self)
        ensures
            r.mode == NixOSMode::Flakes,
            r.config_path@ == "/etc/nixos"@,
            r.hostname is None,
    {
        NixOSConfig { mode: NixOSMode::Flakes, config_path: string_from("/etc/nixos"), hostname: None }
    }
}

/// The applet's settings.
#[derive(Clone, Debug)]
pub struct PackageUpdaterConfig {
    pub package_manager: Option<PackageManager>,
    pub check_interval_minutes: u32,
    pub auto_check_on_startup: bool,
    pub include_aur_updates: bool,
    pub show_notifications: bool,
    pub show_update_count: bool,
    pub preferred_terminal: String,
    pub nixos_config: NixOSConfig,
}

impl Default for PackageUpdaterConfig {
    fn default() -> (r: Self)
        ensures
            r.package_manager is None,
            r.check_interval_minutes == 60,
            r.auto_check_on_startup,
            r.include_aur_updates,
            r.show_notifications,
            r.show_update_count,
            r.preferred_terminal@ == "cosmic-term"@,
            r.nixos_config.mode == NixOSMode::Flakes,
            r.nixos_config.config_path@ == "/etc/nixos"@,
            r.nixos_config.hostname is None,
    {
        PackageUpdaterConfig {
            package_manager: None,
            check_interval_minutes: 60,
            auto_check_on_startup: true,
            include_aur_updates: true,
            show_notifications: true,
            show_update_count: true,
            preferred_terminal: string_from("cosmic-term"),
            nixos_config: NixOSConfig::default(),
        }
    }
}

} // verus!

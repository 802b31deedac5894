//! Update-check engine for a desktop package-updater applet: output parsers for
//! several Linux package managers, the check orchestration as a state machine,
//! and the small decisions around cross-instance locking and syncing.
pub mod check;
pub mod config;
pub mod laws;
pub mod nixos;
pub mod package_manager;
pub mod paths;
pub mod polkit;
pub mod sync;
pub mod terminal;
pub mod text;
pub mod virtualized_list;

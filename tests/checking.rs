use package_updater::check::{
    CheckRun, CommandOutput, PhaseError, Stage, Step, LOCK_RETRY_DELAY_SECS, UPDATE_RETRY_DELAY_SECS,
};
use package_updater::package_manager::{PackageManager, PackageUpdate, UpdateChecker, UpdateInfo};

fn failed(code: Option<i32>, stdout: &str, stderr: &str) -> CommandOutput {
    CommandOutput { success: false, exit_code: code, stdout: stdout.to_string(), stderr: stderr.to_string() }
}

fn update(name: &str) -> PackageUpdate {
    PackageUpdate {
        name: name.to_string(),
        current_version: "1".to_string(),
        new_version: "2".to_string(),
        is_aur: false,
    }
}

#[test]
fn test_update_info_has_updates() {
    let mut info = UpdateInfo::new();
    assert!(!info.has_updates());

    info.total_updates = 5;
    assert!(info.has_updates());
}

#[test]
fn has_updates_boundary() {
    let mut info = UpdateInfo::new();
    info.total_updates = 0;
    assert!(!info.has_updates());
    info.total_updates = 1;
    assert!(info.has_updates());
}

#[test]
fn checkupdates_exit_two_means_no_updates() {
    let checker = UpdateChecker::new(PackageManager::Pacman);
    let r = checker.parse_update_output("checkupdates", &failed(Some(2), "", ""), false).unwrap();
    assert!(r.is_empty());
}

#[test]
fn aur_helper_exit_one_means_no_updates() {
    let checker = UpdateChecker::new(PackageManager::Paru);
    let r = checker.parse_update_output("paru", &failed(Some(1), "foo 1 -> 2", ""), true).unwrap();
    assert!(r.is_empty());
    let checker = UpdateChecker::new(PackageManager::Yay);
    let r = checker.parse_update_output("yay", &failed(Some(1), "", ""), true).unwrap();
    assert!(r.is_empty());
}

#[test]
fn dnf_exit_hundred_lists_updates() {
    let checker = UpdateChecker::new(PackageManager::Dnf);
    let out = failed(Some(100), "\nkernel.x86_64 6.5.0-1.fc38 updates\nvim.x86_64 9.1 updates\n", "");
    let r = checker.parse_update_output("dnf", &out, false).unwrap();
    assert_eq!(r.len(), 2);
    assert_eq!(r[0].name, "kernel");
    assert_eq!(r[1].name, "vim");
    assert_eq!(r[1].new_version, "9.1");
}

#[test]
fn failure_with_output_is_still_parsed() {
    let checker = UpdateChecker::new(PackageManager::Apt);
    let out = failed(Some(1), "firefox/jammy 120.0 amd64 [upgradable from: 119.0]\n", "E: oops");
    let r = checker.parse_update_output("apt", &out, false).unwrap();
    assert_eq!(r.len(), 1);
    assert_eq!(r[0].current_version, "119.0");
}

#[test]
fn failure_without_output_is_an_error() {
    let checker = UpdateChecker::new(PackageManager::Apt);
    let e = checker.parse_update_output("apt", &failed(Some(100), " \n", "E: no lock"), false).unwrap_err();
    assert_eq!(e, "Failed to check for updates (exit 100): E: no lock");
    let e = checker.parse_update_output("apt", &failed(None, "", "killed"), false).unwrap_err();
    assert_eq!(e, "Failed to check for updates (exit -1): killed");
    let checker = UpdateChecker::new(PackageManager::Pacman);
    let e = checker.parse_update_output("checkupdates", &failed(Some(1), "", "no db"), false).unwrap_err();
    assert_eq!(e, "Failed to check for updates (exit 1): no db");
}

#[test]
fn commands_per_manager() {
    let q = UpdateChecker::new(PackageManager::Yay).official_command().unwrap();
    assert_eq!(q.program, "checkupdates");
    assert!(q.args.is_empty());
    let q = UpdateChecker::new(PackageManager::Apt).official_command().unwrap();
    assert_eq!(q.program, "apt");
    assert_eq!(q.args, vec!["list".to_string(), "--upgradable".to_string()]);
    let q = UpdateChecker::new(PackageManager::Zypper).official_command().unwrap();
    assert_eq!(q.args, vec!["list-updates".to_string()]);
    assert!(UpdateChecker::new(PackageManager::NixOS).official_command().is_none());
    let q = UpdateChecker::new(PackageManager::Paru).aur_command().unwrap();
    assert_eq!(q.program, "paru");
    assert_eq!(q.args, vec!["-Qu".to_string(), "--aur".to_string()]);
    assert!(UpdateChecker::new(PackageManager::Pacman).aur_command().is_none());
}

#[test]
fn run_without_aur_completes_with_total() {
    let mut run = CheckRun::new(PackageManager::Pacman, true);
    assert!(matches!(run.start(), Step::AcquireLock));
    assert!(matches!(run.on_lock(Ok(())), Step::RunOfficial));
    match run.on_phase(Ok(vec![update("a"), update("b")])) {
        Step::Complete(info) => {
            assert_eq!(info.total_updates, 2);
            assert_eq!(info.official_updates, 2);
            assert_eq!(info.aur_updates, 0);
            assert_eq!(info.packages.len(), 2);
            assert_eq!(info.packages[1].name, "b");
        }
        other => panic!("unexpected step {:?}", other),
    }
    assert_eq!(run.stage(), Stage::Finished);
}

#[test]
fn run_with_aur_aggregates_both_phases() {
    let mut run = CheckRun::new(PackageManager::Paru, true);
    assert!(matches!(run.on_lock(Ok(())), Step::RunOfficial));
    assert!(matches!(run.on_phase(Ok(vec![update("a")])), Step::RunAur));
    match run.on_phase(Ok(vec![update("x"), update("y")])) {
        Step::Complete(info) => {
            assert_eq!(info.total_updates, 3);
            assert_eq!(info.official_updates, 1);
            assert_eq!(info.aur_updates, 2);
            assert_eq!(info.packages[0].name, "a");
            assert_eq!(info.packages[2].name, "y");
        }
        other => panic!("unexpected step {:?}", other),
    }
}

#[test]
fn run_with_zero_updates_has_zero_total() {
    let mut run = CheckRun::new(PackageManager::Apt, false);
    run.on_lock(Ok(()));
    match run.on_phase(Ok(Vec::new())) {
        Step::Complete(info) => {
            assert_eq!(info.total_updates, 0);
            assert!(info.packages.is_empty());
            assert!(!info.has_updates());
        }
        other => panic!("unexpected step {:?}", other),
    }
}

#[test]
fn phase_failure_is_retried_once_then_skipped() {
    let mut run = CheckRun::new(PackageManager::Yay, true);
    run.on_lock(Ok(()));
    match run.on_phase(Err(PhaseError::Retry("boom".to_string()))) {
        Step::Wait(secs) => assert_eq!(secs, UPDATE_RETRY_DELAY_SECS),
        other => panic!("unexpected step {:?}", other),
    }
    assert!(matches!(run.resume(), Step::RunOfficial));
    assert!(matches!(run.on_phase(Err(PhaseError::Retry("boom".to_string()))), Step::RunAur));
    match run.on_phase(Err(PhaseError::Retry("aur down".to_string()))) {
        Step::Wait(secs) => assert_eq!(secs, UPDATE_RETRY_DELAY_SECS),
        other => panic!("unexpected step {:?}", other),
    }
    assert!(matches!(run.resume(), Step::RunAur));
    match run.on_phase(Ok(vec![update("z")])) {
        Step::Complete(info) => {
            assert_eq!(info.total_updates, 1);
            assert_eq!(info.official_updates, 0);
            assert_eq!(info.aur_updates, 1);
        }
        other => panic!("unexpected step {:?}", other),
    }
}

#[test]
fn busy_lock_is_retried_once_then_fails() {
    let mut run = CheckRun::new(PackageManager::Pacman, false);
    match run.on_lock(Err("Another instance is checking for updates".to_string())) {
        Step::Wait(secs) => assert_eq!(secs, LOCK_RETRY_DELAY_SECS),
        other => panic!("unexpected step {:?}", other),
    }
    assert!(matches!(run.resume(), Step::AcquireLock));
    match run.on_lock(Err("Another instance is checking for updates".to_string())) {
        Step::Abort(m) => {
            assert_eq!(m, "Update check already in progress: Another instance is checking for updates")
        }
        other => panic!("unexpected step {:?}", other),
    }
    assert_eq!(run.stage(), Stage::Finished);
}

#[test]
fn busy_lock_then_free_proceeds() {
    let mut run = CheckRun::new(PackageManager::Pacman, false);
    assert!(matches!(run.on_lock(Err("busy".to_string())), Step::Wait(_)));
    assert!(matches!(run.on_lock(Ok(())), Step::RunOfficial));
    assert_eq!(run.stage(), Stage::Official);
}

#[test]
fn fatal_phase_failure_ends_the_check() {
    let mut run = CheckRun::new(PackageManager::NixOS, false);
    run.on_lock(Ok(()));
    let lock_error = UpdateChecker::require_flake_lock("/etc/nixos", false).unwrap_err();
    match run.on_phase(Err(lock_error)) {
        Step::Abort(m) => assert_eq!(m, "flake.lock not found in /etc/nixos. Run 'nix flake update' first."),
        other => panic!("unexpected step {:?}", other),
    }
    assert_eq!(run.stage(), Stage::Finished);
}

#[test]
fn fatal_aur_failure_ends_the_check() {
    let mut run = CheckRun::new(PackageManager::Paru, true);
    run.on_lock(Ok(()));
    assert!(matches!(run.on_phase(Ok(vec![update("a")])), Step::RunAur));
    match run.on_phase(Err(PhaseError::Fatal("denied".to_string()))) {
        Step::Abort(m) => assert_eq!(m, "denied"),
        other => panic!("unexpected step {:?}", other),
    }
}

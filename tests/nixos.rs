use package_updater::check::{CommandOutput, PhaseError};
use package_updater::nixos::combined_output;
use package_updater::package_manager::{PackageManager, UpdateChecker};

fn output(success: bool, stdout: &str, stderr: &str) -> CommandOutput {
    CommandOutput {
        success,
        exit_code: Some(if success { 0 } else { 1 }),
        stdout: stdout.to_string(),
        stderr: stderr.to_string(),
    }
}

#[test]
fn test_parse_nixos_rebuild_output() {
    let checker = UpdateChecker::new(PackageManager::NixOS);
    let output = "these 47 derivations will be built:\n  /nix/store/abc...\nthese 23 paths will be fetched (15.2 MiB download, 89.3 MiB unpacked):";
    let updates = checker.parse_nixos_rebuild_output(output).unwrap();

    assert_eq!(updates.len(), 2);
    assert_eq!(updates[0].name, "System Update");
    assert!(updates[0].current_version.contains("47"));
    assert_eq!(updates[1].name, "Downloads");
    assert!(updates[1].current_version.contains("23"));
}

#[test]
fn test_parse_nixos_up_to_date() {
    let checker = UpdateChecker::new(PackageManager::NixOS);
    let output = "System is up to date";
    let updates = checker.parse_nixos_rebuild_output(output).unwrap();

    assert_eq!(updates.len(), 0);
}

#[test]
fn rebuild_summary_fields_are_exact() {
    let checker = UpdateChecker::new(PackageManager::NixOS);
    let updates = checker
        .parse_nixos_rebuild_output("these 47 derivations will be built:\nthese 23 paths will be fetched")
        .unwrap();
    assert_eq!(updates.len(), 2);
    assert_eq!(updates[0].current_version, "47 packages");
    assert_eq!(updates[0].new_version, "will be built");
    assert_eq!(updates[1].current_version, "23 packages");
    assert_eq!(updates[1].new_version, "will be fetched");
}

#[test]
fn rebuild_summary_counts_only_fetches() {
    let checker = UpdateChecker::new(PackageManager::NixOS);
    let updates = checker
        .parse_nixos_rebuild_output("these 1050 paths will be fetched (1 MiB download)\n")
        .unwrap();
    assert_eq!(updates.len(), 1);
    assert_eq!(updates[0].name, "Downloads");
    assert_eq!(updates[0].current_version, "1050 packages");
    assert_eq!(updates[0].new_version, "will be fetched");
    assert!(!updates[0].is_aur);
}

#[test]
fn rebuild_summary_last_count_wins() {
    let checker = UpdateChecker::new(PackageManager::NixOS);
    let updates = checker
        .parse_nixos_rebuild_output("these 3 derivations will be built:\nthese 9 derivations will be built:\n")
        .unwrap();
    assert_eq!(updates.len(), 1);
    assert_eq!(updates[0].name, "System Update");
    assert_eq!(updates[0].current_version, "9 packages");
    assert_eq!(updates[0].new_version, "will be built");
}

#[test]
fn rebuild_summary_ignores_unreadable_counts() {
    let checker = UpdateChecker::new(PackageManager::NixOS);
    let updates = checker
        .parse_nixos_rebuild_output("these many derivations will be built:\nthese 99999999999999999999999 paths will be fetched")
        .unwrap();
    assert_eq!(updates.len(), 0);
}

#[test]
fn test_extract_commit_hash_from_github_ref() {
    let git_ref = "github:NixOS/nixpkgs/abc123def456789";
    let hash = UpdateChecker::extract_commit_hash(git_ref);

    assert_eq!(hash, "abc123d");
}

#[test]
fn test_extract_commit_hash_from_plain_hash() {
    let git_ref = "abc123def456789012345678901234567890";
    let hash = UpdateChecker::extract_commit_hash(git_ref);

    assert_eq!(hash, "abc123d");
}

#[test]
fn test_extract_commit_hash_short_string() {
    let git_ref = "v1.2.3";
    let hash = UpdateChecker::extract_commit_hash(git_ref);

    assert_eq!(hash, "v1.2.3");
}

#[test]
fn extract_commit_hash_cuts_long_references() {
    assert_eq!(UpdateChecker::extract_commit_hash("release-23.11-beta-long"), "release-23.1");
    assert_eq!(UpdateChecker::extract_commit_hash("github:owner/repo/short"), "github:owner");
}

#[test]
fn test_parse_flake_updates() {
    let checker = UpdateChecker::new(PackageManager::NixOS);
    let output = "Updated input 'nixpkgs': 'github:NixOS/nixpkgs/abc123def' -> 'github:NixOS/nixpkgs/def456abc'";
    let updates = checker.parse_flake_updates(output);

    assert_eq!(updates.len(), 1);
    assert_eq!(updates[0].name, "flake:nixpkgs");
    assert_eq!(updates[0].current_version, "abc123d");
    assert_eq!(updates[0].new_version, "def456a");
}

#[test]
fn parse_flake_updates_reads_every_arrow_form() {
    let checker = UpdateChecker::new(PackageManager::NixOS);
    let output = "• Updated input 'home-manager':\n    'github:nix-community/home-manager/1111111aaaa' \u{2192} 'github:nix-community/home-manager/2222222bbbb'\nupdating input 'utils': 'github:numtide/flake-utils/3333333cccc' to 'github:numtide/flake-utils/4444444dddd'\n";
    let updates = checker.parse_flake_updates(output);
    assert_eq!(updates.len(), 2);
    assert_eq!(updates[0].name, "flake:home-manager");
    assert_eq!(updates[0].current_version, "1111111");
    assert_eq!(updates[0].new_version, "2222222");
    assert_eq!(updates[1].name, "flake:utils");
    assert_eq!(updates[1].current_version, "3333333");
    assert_eq!(updates[1].new_version, "4444444");
}

#[test]
fn parse_flake_updates_without_changes() {
    let checker = UpdateChecker::new(PackageManager::NixOS);
    assert!(checker.parse_flake_updates("warning: Git tree is dirty\n").is_empty());
}

#[test]
fn flake_updates_from_given_captures() {
    let captures = vec![
        ("nixpkgs".to_string(), "github:NixOS/nixpkgs/abc123def".to_string(), "0123456789abcdef".to_string()),
        ("tiny".to_string(), "v1".to_string(), "v2".to_string()),
    ];
    let updates = UpdateChecker::flake_updates_from_captures(&captures);
    assert_eq!(updates.len(), 2);
    assert_eq!(updates[0].name, "flake:nixpkgs");
    assert_eq!(updates[0].current_version, "abc123d");
    assert_eq!(updates[0].new_version, "0123456");
    assert_eq!(updates[1].name, "flake:tiny");
    assert_eq!(updates[1].current_version, "v1");
    assert_eq!(updates[1].new_version, "v2");
}

#[test]
fn flake_update_entries_stop_at_up_to_date() {
    let checker = UpdateChecker::new(PackageManager::NixOS);
    let out = output(
        true,
        "",
        "Updated input 'nixpkgs': 'github:NixOS/nixpkgs/abc123def' -> 'github:NixOS/nixpkgs/def456abc'\nall inputs are up to date",
    );
    assert!(checker.flake_update_entries(&out).is_empty());
    let out = output(
        true,
        "",
        "Updated input 'nixpkgs': 'github:NixOS/nixpkgs/abc123def' -> 'github:NixOS/nixpkgs/def456abc'",
    );
    let entries = checker.flake_update_entries(&out);
    assert_eq!(entries.len(), 1);
    assert_eq!(entries[0].name, "flake:nixpkgs");
}

#[test]
fn combined_output_joins_with_newline() {
    assert_eq!(combined_output(&output(true, "out", "err")), "out\nerr");
}

#[test]
fn require_flake_lock_reports_the_directory() {
    assert!(UpdateChecker::require_flake_lock("/etc/nixos", true).is_ok());
    match UpdateChecker::require_flake_lock("/etc/nixos", false) {
        Err(PhaseError::Fatal(m)) => {
            assert_eq!(m, "flake.lock not found in /etc/nixos. Run 'nix flake update' first.")
        }
        other => panic!("unexpected {:?}", other),
    }
}

#[test]
fn rebuild_check_result_outcomes() {
    let checker = UpdateChecker::new(PackageManager::NixOS);
    let ok = checker
        .rebuild_check_result(&output(true, "", "these 2 derivations will be built:"))
        .unwrap();
    assert_eq!(ok.len(), 1);
    assert_eq!(ok[0].current_version, "2 packages");

    match checker.rebuild_check_result(&output(false, "", "sudo: a password is required")) {
        Err(PhaseError::Fatal(denied)) => {
            assert!(denied.starts_with("Permission denied. Use PolicyKit"));
            assert!(denied.ends_with("NOPASSWD: /run/current-system/sw/bin/nixos-rebuild"));
        }
        other => panic!("unexpected {:?}", other),
    }

    match checker.rebuild_check_result(&output(false, "", "error: evaluation aborted")) {
        Err(PhaseError::Retry(failed)) => {
            assert_eq!(failed, "Failed to check NixOS updates: error: evaluation aborted")
        }
        other => panic!("unexpected {:?}", other),
    }
}

#[test]
fn up_to_date_text_overrides_counts() {
    let checker = UpdateChecker::new(PackageManager::NixOS);
    let updates = checker
        .parse_nixos_rebuild_output("these 5 derivations will be built:\nup to date")
        .unwrap();
    assert!(updates.is_empty());
    let updates = checker
        .parse_nixos_rebuild_output("these 23 paths will be fetched\nall paths already built")
        .unwrap();
    assert!(updates.is_empty());
}

#[test]
fn flake_check_entries_append_the_dry_build_summary() {
    let checker = UpdateChecker::new(PackageManager::NixOS);
    let flake = checker.parse_flake_updates(
        "Updated input 'nixpkgs': 'github:NixOS/nixpkgs/abc123def' -> 'github:NixOS/nixpkgs/def456abc'",
    );
    let rebuild = output(true, "these 4 derivations will be built:", "these 2 paths will be fetched");
    let all = checker.flake_check_entries(flake, Some(&rebuild));
    assert_eq!(all.len(), 3);
    assert_eq!(all[0].name, "flake:nixpkgs");
    assert_eq!(all[1].current_version, "4 packages");
    assert_eq!(all[2].current_version, "2 packages");

    let none = checker.flake_check_entries(Vec::new(), Some(&rebuild));
    assert!(none.is_empty());

    let flake = checker.parse_flake_updates(
        "Updated input 'nixpkgs': 'github:NixOS/nixpkgs/abc123def' -> 'github:NixOS/nixpkgs/def456abc'",
    );
    assert_eq!(checker.flake_check_entries(flake, None).len(), 1);
}

use package_updater::package_manager::{PackageManager, UpdateChecker};

#[test]
fn test_parse_arch_package_line_with_arrow() {
    let checker = UpdateChecker::new(PackageManager::Pacman);
    let line = "linux 6.1.0-1 -> 6.2.0-1";
    let update = checker.parse_package_line(line, false).unwrap();

    assert_eq!(update.name, "linux");
    assert_eq!(update.current_version, "6.1.0-1");
    assert_eq!(update.new_version, "6.2.0-1");
    assert!(!update.is_aur);
}

#[test]
fn test_parse_arch_package_line_without_arrow() {
    let checker = UpdateChecker::new(PackageManager::Pacman);
    let line = "firefox 120.0-1";
    let update = checker.parse_package_line(line, false).unwrap();

    assert_eq!(update.name, "firefox");
    assert_eq!(update.current_version, "unknown");
    assert_eq!(update.new_version, "120.0-1");
    assert!(!update.is_aur);
}

#[test]
fn test_parse_aur_package_line() {
    let checker = UpdateChecker::new(PackageManager::Paru);
    let line = "yay-bin 12.0.0-1 -> 12.1.0-1";
    let update = checker.parse_package_line(line, true).unwrap();

    assert_eq!(update.name, "yay-bin");
    assert_eq!(update.current_version, "12.0.0-1");
    assert_eq!(update.new_version, "12.1.0-1");
    assert!(update.is_aur);
}

#[test]
fn test_parse_apt_package_line() {
    let checker = UpdateChecker::new(PackageManager::Apt);
    let line = "firefox/jammy-updates 120.0+build1-0ubuntu0.22.04.1 amd64 [upgradable from: 119.0+build2-0ubuntu0.22.04.1]";
    let update = checker.parse_package_line(line, false).unwrap();

    assert_eq!(update.name, "firefox");
    assert_eq!(update.new_version, "120.0+build1-0ubuntu0.22.04.1");
    assert_eq!(update.current_version, "119.0+build2-0ubuntu0.22.04.1");
    assert!(!update.is_aur);
}

#[test]
fn test_parse_dnf_package_line() {
    let checker = UpdateChecker::new(PackageManager::Dnf);
    let line = "kernel.x86_64 6.5.0-1.fc38 updates";
    let update = checker.parse_package_line(line, false).unwrap();

    assert_eq!(update.name, "kernel");
    assert_eq!(update.new_version, "6.5.0-1.fc38");
    assert_eq!(update.current_version, "unknown");
    assert!(!update.is_aur);
}

#[test]
fn test_parse_zypper_package_line() {
    let checker = UpdateChecker::new(PackageManager::Zypper);
    let line = "v | firefox | package | 120.0-1.1 | x86_64";
    let update = checker.parse_package_line(line, false).unwrap();

    assert_eq!(update.name, "firefox");
    assert_eq!(update.new_version, "120.0-1.1");
    assert!(!update.is_aur);
}

#[test]
fn test_parse_flatpak_package_line() {
    let checker = UpdateChecker::new(PackageManager::Flatpak);
    let line = "Firefox\torg.mozilla.firefox\t120.0\tstable\tflathub";
    let update = checker.parse_package_line(line, false).unwrap();

    assert_eq!(update.name, "Firefox");
    assert_eq!(update.new_version, "120.0");
    assert!(!update.is_aur);
}

#[test]
fn test_skip_header_lines() {
    let checker = UpdateChecker::new(PackageManager::Apt);
    let header1 = "Listing...";
    let header2 = "Done";
    let header3 = "WARNING: some warning";

    assert!(checker.parse_package_line(header1, false).is_none());
    assert!(checker.parse_package_line(header2, false).is_none());
    assert!(checker.parse_package_line(header3, false).is_none());
}

#[test]
fn noise_lines_yield_nothing_for_every_manager() {
    let managers = [
        PackageManager::Pacman,
        PackageManager::Paru,
        PackageManager::Yay,
        PackageManager::Apt,
        PackageManager::Dnf,
        PackageManager::Zypper,
        PackageManager::Apk,
        PackageManager::Flatpak,
        PackageManager::NixOS,
    ];
    let noise = [
        "Listing... Done",
        "Done",
        "WARNING: apt does not have a stable CLI interface.",
        "",
        "   \t ",
        "S | Repository | Name | Current Version | Available Version | Arch",
        "--+------------+------",
    ];
    for pm in managers {
        let checker = UpdateChecker::new(pm);
        for line in noise {
            assert!(checker.parse_package_line(line, false).is_none(), "{:?} {:?}", pm, line);
        }
    }
}

#[test]
fn parse_apk_package_line() {
    let checker = UpdateChecker::new(PackageManager::Apk);
    let line = "busybox-1.36.1-r5 x86_64 {busybox} (GPL-2.0-only) [upgradable from: busybox-1.36.1-r4]";
    let update = checker.parse_package_line(line, false).unwrap();

    assert_eq!(update.name, "busybox-1.36.1");
    assert_eq!(update.new_version, "x86_64");
    assert_eq!(update.current_version, "busybox-1.36.1-r4");
    assert!(!update.is_aur);
}

#[test]
fn parse_apk_line_without_marker_is_skipped() {
    let checker = UpdateChecker::new(PackageManager::Apk);
    assert!(checker.parse_package_line("busybox-1.36.1-r5 x86_64", false).is_none());
}

#[test]
fn parse_apt_line_without_closing_bracket() {
    let checker = UpdateChecker::new(PackageManager::Apt);
    let update = checker
        .parse_package_line("vim/stable 9.1 amd64 [upgradable from: 9.0", false)
        .unwrap();
    assert_eq!(update.name, "vim");
    assert_eq!(update.new_version, "9.1");
    assert_eq!(update.current_version, "unknown");
}

#[test]
fn parse_arch_line_with_misplaced_arrow_is_skipped() {
    let checker = UpdateChecker::new(PackageManager::Yay);
    assert!(checker.parse_package_line("linux -> 6.2.0-1", false).is_none());
    assert!(checker.parse_package_line("linux", false).is_none());
}

#[test]
fn parse_zypper_line_with_too_few_columns_is_skipped() {
    let checker = UpdateChecker::new(PackageManager::Zypper);
    assert!(checker.parse_package_line("v | firefox | package", false).is_none());
}

#[test]
fn parse_flatpak_line_with_too_few_fields_is_skipped() {
    let checker = UpdateChecker::new(PackageManager::Flatpak);
    assert!(checker.parse_package_line("Firefox\torg.mozilla.firefox", false).is_none());
}

#[test]
fn nixos_lines_are_not_parsed_as_packages() {
    let checker = UpdateChecker::new(PackageManager::NixOS);
    assert!(checker.parse_package_line("linux 6.1 -> 6.2", false).is_none());
}

#[test]
fn parse_listing_keeps_order_and_skips_noise() {
    let checker = UpdateChecker::new(PackageManager::Pacman);
    let raw = "linux 6.1.0-1 -> 6.2.0-1\r\n\nDone\nfirefox 120.0-1\n";
    let updates = checker.parse_listing_output(raw, false);
    assert_eq!(updates.len(), 2);
    assert_eq!(updates[0].name, "linux");
    assert_eq!(updates[0].new_version, "6.2.0-1");
    assert_eq!(updates[1].name, "firefox");
    assert_eq!(updates[1].current_version, "unknown");
}

#[test]
fn parsing_twice_gives_the_same_result() {
    let checker = UpdateChecker::new(PackageManager::Apt);
    let raw = "Listing... Done\nfirefox/jammy 120.0 amd64 [upgradable from: 119.0]\nvim/jammy 9.1 amd64 [upgradable from: 9.0]\n";
    let a = checker.parse_listing_output(raw, false);
    let b = checker.parse_listing_output(raw, false);
    assert_eq!(a.len(), 2);
    assert_eq!(a.len(), b.len());
    for (x, y) in a.iter().zip(b.iter()) {
        assert_eq!(x.name, y.name);
        assert_eq!(x.current_version, y.current_version);
        assert_eq!(x.new_version, y.new_version);
        assert_eq!(x.is_aur, y.is_aur);
    }
}

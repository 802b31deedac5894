use vstd::prelude::*;
use crate::config::{NixOSConfig, NixOSMode};
use crate::text::{
    chars_of, contains, occurs_at, contains_in, find, find_in, lemma_split_on_nonempty, rfind, rfind_char,
    same_chars, same_seq, slice_of, split_char, split_on, split_whitespace, starts_with, string_from, string_of,
    tokens, trim, trimmed, views,
};

verus! {

/// The package managers whose updates can be checked.
#[derive(Debug, Clone, Copy, PartialEq, Eq, Structural)]
pub enum PackageManager {
    Pacman,
    Paru,
    Yay,
    Apt,
    Dnf,
    Zypper,
    Apk,
    Flatpak,
    NixOS,
}

/// The canonical name of a package manager.
pub open spec fn manager_name(pm: PackageManager) -> Seq<char> {
    match pm {
        PackageManager::Pacman => "pacman"@,
        PackageManager::Paru => "paru"@,
        PackageManager::Yay => "yay"@,
        PackageManager::Apt => "apt"@,
        PackageManager::Dnf => "dnf"@,
        PackageManager::Zypper => "zypper"@,
        PackageManager::Apk => "apk"@,
        PackageManager::Flatpak => "flatpak"@,
        PackageManager::NixOS => "nixos"@,
    }
}

/// The managers that also report AUR updates.
pub open spec fn manager_supports_aur(pm: PackageManager) -> bool {
    pm == PackageManager::Paru || pm == PackageManager::Yay
}

/// The shell command that applies a full system update; for NixOS it depends
/// on the mode and the configuration directory, when they are known.
pub open spec fn update_command(pm: PackageManager, nixos: Option<(NixOSMode, Seq<char>)>) -> Seq<char> {
    match pm {
        PackageManager::Pacman => "sudo pacman -Syu"@,
        PackageManager::Paru => "paru -Syu"@,
        PackageManager::Yay => "yay -Syu"@,
        PackageManager::Apt => "sudo apt update && sudo apt upgrade"@,
        PackageManager::Dnf => "sudo dnf upgrade"@,
        PackageManager::Zypper => "sudo zypper update"@,
        PackageManager::Apk => "sudo apk upgrade"@,
        PackageManager::Flatpak => "flatpak update"@,
        PackageManager::NixOS => match nixos {
            Some((NixOSMode::Channels, _)) =>
                "sudo nix-channel --update && sudo nixos-rebuild switch --upgrade"@,
            Some((NixOSMode::Flakes, path)) =>
                "cd "@ + path + " && nix flake update && sudo nixos-rebuild switch --flake .#"@,
            None => "sudo nixos-rebuild switch"@,
        },
    }
}

impl PackageManager {
    pub fn name(&self) -> (r: &'static str)
        ensures
            r@ == manager_name(*self),
    {
        match self {
            PackageManager::Pacman => "pacman",
            PackageManager::Paru => "paru",
            PackageManager::Yay => "yay",
            PackageManager::Apt => "apt",
            PackageManager::Dnf => "dnf",
            PackageManager::Zypper => "zypper",
            PackageManager::Apk => "apk",
            PackageManager::Flatpak => "flatpak",
            PackageManager::NixOS => "nixos",
        }
    }

    pub fn supports_aur(&self) -> (r: bool)
        ensures
            r == manager_supports_aur(*self),
    {
        matches!(self, PackageManager::Paru | PackageManager::Yay)
    }

    /// The command that applies a full system update.
    pub fn system_update_command(&self, nixos_config: Option<&NixOSConfig>) -> (r: String)
        ensures
            nixos_config is None ==> r@ == update_command(*self, None),
            nixos_config matches Some(c) ==> r@ == update_command(*self, Some((c.mode, c.config_path@))),
    {
        match self {
            PackageManager::Pacman => string_from("sudo pacman -Syu"),
            PackageManager::Paru => string_from("paru -Syu"),
            PackageManager::Yay => string_from("yay -Syu"),
            PackageManager::Apt => string_from("sudo apt update && sudo apt upgrade"),
            PackageManager::Dnf => string_from("sudo dnf upgrade"),
            PackageManager::Zypper => string_from("sudo zypper update"),
            PackageManager::Apk => string_from("sudo apk upgrade"),
            PackageManager::Flatpak => string_from("flatpak update"),
            PackageManager::NixOS => match nixos_config {
                Some(config) => match config.mode {
                    NixOSMode::Channels => string_from(
                        "sudo nix-channel --update && sudo nixos-rebuild switch --upgrade",
                    ),
                    NixOSMode::Flakes => {
                        let mut s = string_from("cd ");
                        s.append(config.config_path.as_str());
                        s.append(" && nix flake update && sudo nixos-rebuild switch --flake .#");
                        s
                    },
                },
                None => string_from("sudo nixos-rebuild switch"),
            },
        }
    }
}

/// One available package update.
#[derive(Debug, Clone)]
pub struct PackageUpdate {
    pub name: String,
    /// The installed version, `"unknown"` where the tool does not say.
    pub current_version: String,
    pub new_version: String,
    /// Whether the package comes from the AUR.
    pub is_aur: bool,
}

/// A package update as plain character sequences.
pub struct UpdateView {
    pub name: Seq<char>,
    pub current_version: Seq<char>,
    pub new_version: Seq<char>,
    pub is_aur: bool,
}

impl View for PackageUpdate {
    type V = UpdateView;

    open spec fn view(&self) -> UpdateView {
        UpdateView {
            name: self.name@,
            current_version: self.current_version@,
            new_version: self.new_version@,
            is_aur: self.is_aur,
        }
    }
}

/// The views of a list of updates.
pub open spec fn update_views(us: Seq<PackageUpdate>) -> Seq<UpdateView> {
    us.map_values(|u: PackageUpdate| u@)
}

/// The result of one update check.
#[derive(Debug, Clone)]
pub struct UpdateInfo {
    pub total_updates: usize,
    pub official_updates: usize,
    pub aur_updates: usize,
    pub packages: Vec<PackageUpdate>,
}

impl UpdateInfo {
    /// The total counts the package list.
    pub open spec fn wf(&self) -> bool {
        self.total_updates == self.packages@.len()
    }

    pub fn new() -> (r: Self)
        ensures
            r.total_updates == 0,
            r.official_updates == 0,
            r.aur_updates == 0,
            r.packages@.len() == 0,
            r.wf(),
    {
        UpdateInfo { total_updates: 0, official_updates: 0, aur_updates: 0, packages: Vec::new() }
    }

    pub fn has_updates(&self) -> (r: bool)
        ensures
            r == (self.total_updates > 0),
    {
        self.total_updates > 0
    }
}

// ---------------------------------------------------------------------------
// Line grammars
// ---------------------------------------------------------------------------

/// Banner, table-rule and blank lines that no manager's grammar reads.
pub open spec fn is_noise(line: Seq<char>) -> bool {
    "Listing..."@.is_prefix_of(line) || "Done"@.is_prefix_of(line) || "WARNING:"@.is_prefix_of(line)
        || "S |"@.is_prefix_of(line) || "--+"@.is_prefix_of(line) || trim(line).len() == 0
}

/// An update built from its four fields.
pub open spec fn entry(name: Seq<char>, current: Seq<char>, new: Seq<char>, is_aur: bool) -> UpdateView {
    UpdateView { name, current_version: current, new_version: new, is_aur }
}

/// The old version inside `[upgradable from: X]`, `"unknown"` without a closing bracket.
pub open spec fn upgradable_from(line: Seq<char>) -> Seq<char> {
    match find(line, "[upgradable from: "@) {
        Some(i) => {
            let rest = line.subrange(i + "[upgradable from: "@.len(), line.len() as int);
            match find(rest, "]"@) {
                Some(e) => rest.subrange(0, e),
                None => "unknown"@,
            }
        },
        None => "unknown"@,
    }
}

/// pacman, paru, yay: `name old -> new`, or `name new`.
pub open spec fn arch_entry(line: Seq<char>, is_aur: bool) -> Option<UpdateView> {
    let t = tokens(line);
    if contains(line, " -> "@) {
        if t.len() >= 4 && t[2] == "->"@ {
            Some(entry(t[0], t[1], t[3], is_aur))
        } else {
            None
        }
    } else if t.len() >= 2 {
        Some(entry(t[0], "unknown"@, t[1], is_aur))
    } else {
        None
    }
}

/// apt: `name/suite new arch [upgradable from: old]`.
pub open spec fn apt_entry(line: Seq<char>) -> Option<UpdateView> {
    let t = tokens(line);
    if contains(line, "[upgradable from:"@) {
        let new = if t.len() >= 2 { t[1] } else { "unknown"@ };
        Some(entry(split_on(line, '/')[0], upgradable_from(line), new, false))
    } else {
        None
    }
}

/// dnf: `name.arch new repo`.
pub open spec fn dnf_entry(line: Seq<char>) -> Option<UpdateView> {
    let t = tokens(line);
    if t.len() >= 2 {
        Some(entry(split_on(t[0], '.')[0], "unknown"@, t[1], false))
    } else {
        None
    }
}

/// zypper: a `|` table with the name in column 1 and the new version in column 3.
pub open spec fn zypper_entry(line: Seq<char>) -> Option<UpdateView> {
    let f = split_on(line, '|');
    if f.len() >= 4 {
        Some(entry(trim(f[1]), "unknown"@, trim(f[3]), false))
    } else {
        None
    }
}

/// apk: `name-version new ... [upgradable from: old]`.
pub open spec fn apk_entry(line: Seq<char>) -> Option<UpdateView> {
    let t = tokens(line);
    if contains(line, "[upgradable from:"@) && t.len() >= 1 {
        let name = match rfind(t[0], '-') {
            Some(k) => t[0].subrange(0, k),
            None => t[0],
        };
        let new = if t.len() >= 2 { t[1] } else { "unknown"@ };
        Some(entry(name, upgradable_from(line), new, false))
    } else {
        None
    }
}

/// flatpak: tab-separated, name in field 0 and the new version in field 2.
pub open spec fn flatpak_entry(line: Seq<char>) -> Option<UpdateView> {
    let f = split_on(line, '\t');
    if f.len() >= 3 {
        Some(entry(f[0], "unknown"@, f[2], false))
    } else {
        None
    }
}

/// What one line of a manager's update listing yields.
pub open spec fn parse_line(pm: PackageManager, line: Seq<char>, is_aur: bool) -> Option<UpdateView> {
    if is_noise(line) {
        None
    } else {
        match pm {
            PackageManager::Pacman | PackageManager::Paru | PackageManager::Yay => arch_entry(line, is_aur),
            PackageManager::Apt => apt_entry(line),
            PackageManager::Dnf => dnf_entry(line),
            PackageManager::Zypper => zypper_entry(line),
            PackageManager::Apk => apk_entry(line),
            PackageManager::Flatpak => flatpak_entry(line),
            PackageManager::NixOS => None,
        }
    }
}

/// The view of an optional update.
pub open spec fn opt_view(r: Option<PackageUpdate>) -> Option<UpdateView> {
    match r {
        Some(u) => Some(u@),
        None => None,
    }
}

/// Checks one package manager for updates.
pub struct UpdateChecker {
    package_manager: PackageManager,
}

impl UpdateChecker {
    pub fn new(package_manager: PackageManager) -> (r: Self)
        ensures
            r.manager() == package_manager,
    {
        UpdateChecker { package_manager }
    }

    /// The manager this checker reads.
    pub closed spec fn manager(&self) -> PackageManager {
        self.package_manager
    }

    pub(crate) fn manager_exec(&self) -> (r: PackageManager)
        ensures
            r == self.manager(),
    {
        self.package_manager
    }

    /// The update that one line of the manager's listing describes, if any.
    pub fn parse_package_line(&self, line: &str, is_aur: bool) -> (r: Option<PackageUpdate>)
        ensures
            opt_view(r) == parse_line(self.manager(), line@, is_aur),
            is_noise(line@) ==> r is None,
    {
        self.parse_line_chars(&chars_of(line), is_aur)
    }

    pub(crate) fn parse_line_chars(&self, v: &Vec<char>, is_aur: bool) -> (r: Option<PackageUpdate>)
        ensures
            opt_view(r) == parse_line(self.manager(), v@, is_aur),
    {
        if is_noise_line(v) {
            return None;
        }
        match self.package_manager {
            PackageManager::Pacman | PackageManager::Paru | PackageManager::Yay => parse_arch(v, is_aur),
            PackageManager::Apt => parse_apt(v),
            PackageManager::Dnf => parse_dnf(v),
            PackageManager::Zypper => parse_zypper(v),
            PackageManager::Apk => parse_apk(v),
            PackageManager::Flatpak => parse_flatpak(v),
            PackageManager::NixOS => None,
        }
    }
}

fn lit(s: &str) -> (r: Vec<char>)
    ensures
        r@ == s@,
{
    chars_of(s)
}

fn is_noise_line(v: &Vec<char>) -> (r: bool)
    ensures
        r == is_noise(v@),
{
    starts_with(v, &lit("Listing...")) || starts_with(v, &lit("Done")) || starts_with(v, &lit("WARNING:"))
        || starts_with(v, &lit("S |")) || starts_with(v, &lit("--+")) || trimmed(v).len() == 0
}

fn make_update(name: &Vec<char>, current: &Vec<char>, new: &Vec<char>, is_aur: bool) -> (r: PackageUpdate)
    ensures
        r@ == entry(name@, current@, new@, is_aur),
{
    PackageUpdate { name: string_of(name), current_version: string_of(current), new_version: string_of(new), is_aur }
}

fn parse_arch(v: &Vec<char>, is_aur: bool) -> (r: Option<PackageUpdate>)
    ensures
        opt_view(r) == arch_entry(v@, is_aur),
{
    let t = split_whitespace(v);
    assert(views(t@).len() == t@.len());
    if contains_in(v, &lit(" -> ")) {
        if t.len() >= 4 && same_seq(&t[2], &lit("->")) {
            return Some(make_update(&t[0], &t[1], &t[3], is_aur));
        }
        None
    } else if t.len() >= 2 {
        Some(make_update(&t[0], &lit("unknown"), &t[1], is_aur))
    } else {
        None
    }
}

fn upgradable_from_of(v: &Vec<char>) -> (r: Vec<char>)
    ensures
        r@ == upgradable_from(v@),
{
    let marker = lit("[upgradable from: ");
    match find_in(v, &marker) {
        Some(i) => {
            let n = v.len();
            assert(occurs_at(v@, marker@, i as int));
            let start = i + marker.len();
            let rest = slice_of(v, start, n);
            match find_in(&rest, &lit("]")) {
                Some(e) => slice_of(&rest, 0, e),
                None => lit("unknown"),
            }
        },
        None => lit("unknown"),
    }
}

fn parse_apt(v: &Vec<char>) -> (r: Option<PackageUpdate>)
    ensures
        opt_view(r) == apt_entry(v@),
{
    if !contains_in(v, &lit("[upgradable from:")) {
        return None;
    }
    let t = split_whitespace(v);
    assert(views(t@).len() == t@.len());
    let pieces = split_char(v, '/');
    proof {
        lemma_split_on_nonempty(v@, '/');
    }
    assert(views(pieces@).len() == pieces@.len());
    let new = if t.len() >= 2 { slice_of(&t[1], 0, t[1].len()) } else { lit("unknown") };
    assert(t@.len() >= 2 ==> t@[1]@.subrange(0, t@[1]@.len() as int) =~= t@[1]@);
    let current = upgradable_from_of(v);
    Some(make_update(&pieces[0], &current, &new, false))
}

fn parse_dnf(v: &Vec<char>) -> (r: Option<PackageUpdate>)
    ensures
        opt_view(r) == dnf_entry(v@),
{
    let t = split_whitespace(v);
    assert(views(t@).len() == t@.len());
    if t.len() < 2 {
        return None;
    }
    let pieces = split_char(&t[0], '.');
    proof {
        lemma_split_on_nonempty(t@[0]@, '.');
    }
    assert(views(pieces@).len() == pieces@.len());
    Some(make_update(&pieces[0], &lit("unknown"), &t[1], false))
}

fn parse_zypper(v: &Vec<char>) -> (r: Option<PackageUpdate>)
    ensures
        opt_view(r) == zypper_entry(v@),
{
    let f = split_char(v, '|');
    assert(views(f@).len() == f@.len());
    if f.len() < 4 {
        return None;
    }
    Some(make_update(&trimmed(&f[1]), &lit("unknown"), &trimmed(&f[3]), false))
}

fn parse_apk(v: &Vec<char>) -> (r: Option<PackageUpdate>)
    ensures
        opt_view(r) == apk_entry(v@),
{
    if !contains_in(v, &lit("[upgradable from:")) {
        return None;
    }
    let t = split_whitespace(v);
    assert(views(t@).len() == t@.len());
    if t.len() < 1 {
        return None;
    }
    let first = &t[0];
    let name = match rfind_char(first, '-') {
        Some(k) => slice_of(first, 0, k),
        None => slice_of(first, 0, first.len()),
    };
    assert(first@.subrange(0, first@.len() as int) =~= first@);
    let new = if t.len() >= 2 { slice_of(&t[1], 0, t[1].len()) } else { lit("unknown") };
    assert(t@.len() >= 2 ==> t@[1]@.subrange(0, t@[1]@.len() as int) =~= t@[1]@);
    let current = upgradable_from_of(v);
    Some(make_update(&name, &current, &new, false))
}

fn parse_flatpak(v: &Vec<char>) -> (r: Option<PackageUpdate>)
    ensures
        opt_view(r) == flatpak_entry(v@),
{
    let f = split_char(v, '\t');
    assert(views(f@).len() == f@.len());
    if f.len() < 3 {
        return None;
    }
    Some(make_update(&f[0], &lit("unknown"), &f[2], false))
}

/// The managers in order of preference: AUR helpers first, then the system
/// managers, NixOS, and Flatpak last.
pub open spec fn preference_order() -> Seq<PackageManager> {
    seq![
        PackageManager::Paru,
        PackageManager::Yay,
        PackageManager::Pacman,
        PackageManager::Apt,
        PackageManager::Dnf,
        PackageManager::Zypper,
        PackageManager::Apk,
        PackageManager::NixOS,
        PackageManager::Flatpak,
    ]
}

/// The usable managers, in order of preference.
pub open spec fn available_in_order(usable: Seq<PackageManager>) -> Seq<PackageManager> {
    preference_order().filter_map(|pm: PackageManager| if usable.contains(pm) { Some(pm) } else { None })
}

/// The directories from which a manager's executable is trusted.
pub open spec fn in_system_location(path: Seq<char>) -> bool {
    "/usr/"@.is_prefix_of(path) || "/bin/"@.is_prefix_of(path) || "/sbin/"@.is_prefix_of(path)
        || "/nix/store/"@.is_prefix_of(path) || "/run/current-system/"@.is_prefix_of(path)
        || "/opt/"@.is_prefix_of(path)
}

/// Picks the package manager to use from those found on the system.
pub struct PackageManagerDetector;

impl PackageManagerDetector {
    /// Every manager, in order of preference.
    pub fn candidates() -> (r: Vec<PackageManager>)
        ensures
            r@ == preference_order(),
    {
        let r = vec![
            PackageManager::Paru,
            PackageManager::Yay,
            PackageManager::Pacman,
            PackageManager::Apt,
            PackageManager::Dnf,
            PackageManager::Zypper,
            PackageManager::Apk,
            PackageManager::NixOS,
            PackageManager::Flatpak,
        ];
        assert(r@ =~= preference_order());
        r
    }

    /// The managers of `usable`, in order of preference, each once.
    pub fn detect_available(usable: &Vec<PackageManager>) -> (r: Vec<PackageManager>)
        ensures
            r@ == available_in_order(usable@),
    {
        let order = Self::candidates();
        let ghost f = |pm: PackageManager| if usable@.contains(pm) { Some(pm) } else { None };
        let mut out: Vec<PackageManager> = Vec::new();
        let mut i: usize = 0;
        while i < order.len()
            invariant
                i <= order@.len(),
                order@ == preference_order(),
                f == (|pm: PackageManager| if usable@.contains(pm) { Some(pm) } else { None }),
                out@ == order@.subrange(0, i as int).filter_map(f),
            decreases order.len() - i,
        {
            let pm = order[i];
            let ghost next = order@.subrange(0, i + 1);
            assert(next.drop_last() =~= order@.subrange(0, i as int));
            let mut found = false;
            let mut k: usize = 0;
            while k < usable.len()
                invariant
                    k <= usable@.len(),
                    found <==> exists|j: int| 0 <= j < k && usable@[j] == pm,
                decreases usable.len() - k,
            {
                if usable[k] == pm {
                    found = true;
                }
                k = k + 1;
            }
            if found {
                out.push(pm);
                assert(out@ =~= next.drop_last().filter_map(f) + seq![pm]);
            }
            i = i + 1;
        }
        assert(order@.subrange(0, i as int) =~= order@);
        out
    }

    /// The most preferred manager of `usable`.
    pub fn get_preferred(usable: &Vec<PackageManager>) -> (r: Option<PackageManager>)
        ensures
            available_in_order(usable@).len() == 0 ==> r is None,
            available_in_order(usable@).len() > 0 ==> r == Some(available_in_order(usable@)[0]),
    {
        let all = Self::detect_available(usable);
        if all.len() > 0 {
            Some(all[0])
        } else {
            None
        }
    }

    /// Whether the path that `which` printed lies in a system directory
    /// (surrounding whitespace ignored).
    pub fn is_system_location(which_output: &str) -> (r: bool)
        ensures
            r == in_system_location(trim(which_output@)),
    {
        let p = trimmed(&chars_of(which_output));
        starts_with(&p, &lit("/usr/")) || starts_with(&p, &lit("/bin/")) || starts_with(&p, &lit("/sbin/"))
            || starts_with(&p, &lit("/nix/store/")) || starts_with(&p, &lit("/run/current-system/"))
            || starts_with(&p, &lit("/opt/"))
    }

    /// The NixOS mode that a configuration directory implies: flakes where it
    /// holds a `flake.nix`.
    pub fn detect_nixos_mode(has_flake_nix: bool) -> (r: NixOSMode)
        ensures
            r == (if has_flake_nix { NixOSMode::Flakes } else { NixOSMode::Channels }),
    {
        if has_flake_nix {
            NixOSMode::Flakes
        } else {
            NixOSMode::Channels
        }
    }
}

/// How an update is shown in a list: with both versions where the installed
/// one is known.
pub open spec fn package_text(u: UpdateView) -> Seq<char> {
    if u.current_version != "unknown"@ {
        "  "@ + u.name + " "@ + u.current_version + " \u{2192} "@ + u.new_version
    } else {
        "  "@ + u.name + " \u{2192} "@ + u.new_version
    }
}

/// The line that shows one update in a list.
pub fn format_package_text(package: &PackageUpdate) -> (r: String)
    ensures
        r@ == package_text(package@),
{
    let mut s = string_from("  ");
    s.append(package.name.as_str());
    if !same_chars(package.current_version.as_str(), "unknown") {
        s.append(" ");
        s.append(package.current_version.as_str());
    }
    s.append(" \u{2192} ");
    s.append(package.new_version.as_str());
    s
}

} // verus!

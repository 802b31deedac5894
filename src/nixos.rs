use vstd::prelude::*;
use crate::check::{CommandOutput, PhaseError};
use crate::package_manager::{entry, update_views, PackageUpdate, UpdateChecker, UpdateView};
use crate::text::{
    chars_of, contains, contains_in, decimal, lines, lines_of, parse_count, parse_usize,
    push_decimal, rfind, rfind_char, slice_of, split_whitespace, string_from, string_of, tokens,
    views,
};

verus! {

/// Matches one flake input change, such as
/// `Updated input 'nixpkgs': 'github:NixOS/nixpkgs/abc' -> 'github:NixOS/nixpkgs/def'`;
/// groups: the input's name, the old reference, the new reference.
pub const FLAKE_INPUT_PATTERN: &'static str = "(?:Updated|updated|updating|Will update)\\s+(?:input\\s+)?['\"]?([^\\s':]+)['\"]?:?\\s+['\"]?([^'\"]+)['\"]?\\s+(?:->|\u{2192}|to)\\s+['\"]?([^'\"]+)['\"]?";

/// For each successive non-overlapping match of `pattern` in `text`, the texts
/// of capture groups 1, 2 and 3, as the `regex` crate finds them.
pub uninterp spec fn regex_captures(pattern: Seq<char>, text: Seq<char>) -> Seq<(Seq<char>, Seq<char>, Seq<char>)>;

/// The character sequences of a list of string triples.
pub open spec fn triple_views(ts: Seq<(String, String, String)>) -> Seq<(Seq<char>, Seq<char>, Seq<char>)> {
    ts.map_values(|t: (String, String, String)| (t.0@, t.1@, t.2@))
}

/// Relies on `regex::Regex::new` and `regex::Regex::captures_iter`: the
/// groups 1, 2 and 3 of each match, in order (a group that took no part gives
/// an empty string); no match at all where the pattern does not compile.
#[verifier::external_body]
fn capture_triples(pattern: &str, text: &str) -> (r: Vec<(String, String, String)>)
    ensures
        triple_views(r@) == regex_captures(pattern@, text@),
{
    let Ok(re) = regex::Regex::new(pattern) else { return Vec::new() };
    re.captures_iter(text).map(|c| {
        let group = |i: usize| c.get(i).map_or(String::new(), |m| m.as_str().to_string());
        (group(1), group(2), group(3))
    }).collect()
}

/// An ASCII hexadecimal digit.
pub open spec fn is_hex(c: char) -> bool {
    let u = c as u32;
    (48 <= u && u <= 57) || (97 <= u && u <= 102) || (65 <= u && u <= 70)
}

/// A short form of a git reference for display: the first 7 characters after
/// the last `/` when there are that many, else the first 7 characters of a
/// bare hexadecimal hash, else the reference cut to 12 characters.
pub open spec fn short_ref(r: Seq<char>) -> Seq<char> {
    match rfind(r, '/') {
        Some(k) if r.len() - (k + 1) >= 7 => r.subrange(k + 1, k + 8),
        _ => if r.len() >= 7 && (forall|i: int| 0 <= i < r.len() ==> is_hex(#[trigger] r[i])) {
            r.subrange(0, 7)
        } else if r.len() > 12 {
            r.subrange(0, 12)
        } else {
            r
        },
    }
}

/// The entry that one flake input change yields.
pub open spec fn flake_entry(c: (Seq<char>, Seq<char>, Seq<char>)) -> UpdateView {
    entry("flake:"@ + c.0, short_ref(c.1), short_ref(c.2), false)
}

/// The entries that a list of flake input changes yields, in order.
pub open spec fn flake_entries(cs: Seq<(Seq<char>, Seq<char>, Seq<char>)>) -> Seq<UpdateView> {
    cs.map_values(|c: (Seq<char>, Seq<char>, Seq<char>)| flake_entry(c))
}

/// The count that a rebuild line reports after one of two phrases: its second
/// word read as an unsigned integer.
pub open spec fn line_count(line: Seq<char>, phrase: Seq<char>, variant: Seq<char>) -> Option<nat> {
    if contains(line, phrase) || contains(line, variant) {
        let t = tokens(line);
        if t.len() >= 2 {
            parse_usize(t[1])
        } else {
            None
        }
    } else {
        None
    }
}

/// The count of the last line that reports one, or zero.
pub open spec fn last_count(ls: Seq<Seq<char>>, phrase: Seq<char>, variant: Seq<char>) -> nat
    decreases ls.len(),
{
    if ls.len() == 0 {
        0
    } else {
        match line_count(ls.last(), phrase, variant) {
            Some(n) => n,
            None => last_count(ls.drop_last(), phrase, variant),
        }
    }
}

/// The number of derivations that a dry build reports it would build.
pub open spec fn build_count(output: Seq<char>) -> nat {
    last_count(lines(output), "derivations will be built"@, "derivation will be built"@)
}

/// The number of paths that a dry build reports it would fetch.
pub open spec fn fetch_count(output: Seq<char>) -> nat {
    last_count(lines(output), "paths will be fetched"@, "path will be fetched"@)
}

/// A dry build's output says that the system is already current.
pub open spec fn says_up_to_date(output: Seq<char>) -> bool {
    contains(output, "up to date"@) || contains(output, "already built"@)
}

/// The summary entries for a dry build's output: none where it says that the
/// system is up to date; else one for what is built and one for what is
/// fetched, each only where its count is positive.
pub open spec fn rebuild_summary(output: Seq<char>) -> Seq<UpdateView> {
    let b = build_count(output);
    let f = fetch_count(output);
    if says_up_to_date(output) {
        seq![]
    } else {
        (if b > 0 {
            seq![entry("System Update"@, decimal(b) + " packages"@, "will be built"@, false)]
        } else {
            seq![]
        }) + (if f > 0 {
            seq![entry("Downloads"@, decimal(f) + " packages"@, "will be fetched"@, false)]
        } else {
            seq![]
        })
    }
}

fn count_of_line(line: &Vec<char>, phrase: &str, variant: &str) -> (r: Option<usize>)
    ensures
        r matches Some(n) ==> line_count(line@, phrase@, variant@) == Some(n as nat),
        r is None ==> line_count(line@, phrase@, variant@) is None,
{
    if contains_in(line, &chars_of(phrase)) || contains_in(line, &chars_of(variant)) {
        let t = split_whitespace(line);
        assert(views(t@).len() == t@.len());
        if t.len() >= 2 {
            parse_count(&t[1])
        } else {
            None
        }
    } else {
        None
    }
}

fn summary_entry(name: &str, count: usize, what: &str) -> (r: PackageUpdate)
    ensures
        r@ == entry(name@, decimal(count as nat) + " packages"@, what@, false),
{
    let mut current = String::new();
    push_decimal(&mut current, count as u64);
    current.append(" packages");
    assert(Seq::<char>::empty() + decimal(count as nat) =~= decimal(count as nat));
    PackageUpdate { name: string_from(name), current_version: current, new_version: string_from(what), is_aur: false }
}

fn short_ref_of(r: &Vec<char>) -> (s: Vec<char>)
    ensures
        s@ == short_ref(r@),
{
    let n = r.len();
    match rfind_char(r, '/') {
        Some(k) => {
            if n - (k + 1) >= 7 {
                return slice_of(r, k + 1, k + 8);
            }
        },
        None => {},
    }
    let mut all_hex = true;
    let mut i: usize = 0;
    while i < n
        invariant
            n == r@.len(),
            i <= n,
            all_hex == forall|j: int| 0 <= j < i ==> is_hex(#[trigger] r@[j]),
        decreases n - i,
    {
        let u = r[i] as u32;
        let h = (48 <= u && u <= 57) || (97 <= u && u <= 102) || (65 <= u && u <= 70);
        if !h {
            assert(!is_hex(r@[i as int]));
        }
        all_hex = all_hex && h;
        i = i + 1;
    }
    if n >= 7 && all_hex {
        slice_of(r, 0, 7)
    } else if n > 12 {
        slice_of(r, 0, 12)
    } else {
        assert(r@.subrange(0, n as int) =~= r@);
        slice_of(r, 0, n)
    }
}

impl UpdateChecker {
    /// A short form of a git reference for display (see `short_ref`).
    pub fn extract_commit_hash(git_ref: &str) -> (r: String)
        ensures
            r@ == short_ref(git_ref@),
    {
        string_of(&short_ref_of(&chars_of(git_ref)))
    }

    /// The entries for flake input changes already picked out of a flake
    /// update's output.
    pub fn flake_updates_from_captures(captures: &Vec<(String, String, String)>) -> (r: Vec<PackageUpdate>)
        ensures
            update_views(r@) == flake_entries(triple_views(captures@)),
    {
        let mut out: Vec<PackageUpdate> = Vec::new();
        let mut i: usize = 0;
        while i < captures.len()
            invariant
                i <= captures@.len(),
                update_views(out@) == flake_entries(triple_views(captures@.subrange(0, i as int))),
            decreases captures.len() - i,
        {
            let c = &captures[i];
            let mut name = string_from("flake:");
            name.append(c.0.as_str());
            let u = PackageUpdate {
                name,
                current_version: Self::extract_commit_hash(c.1.as_str()),
                new_version: Self::extract_commit_hash(c.2.as_str()),
                is_aur: false,
            };
            let ghost before = update_views(out@);
            out.push(u);
            i = i + 1;
            assert(update_views(out@) =~= before.push(u@));
            assert(triple_views(captures@.subrange(0, i as int)) =~= triple_views(
                captures@.subrange(0, i - 1),
            ).push((c.0@, c.1@, c.2@)));
            assert(update_views(out@) =~= flake_entries(triple_views(captures@.subrange(0, i as int))));
        }
        assert(captures@.subrange(0, i as int) =~= captures@);
        out
    }

    /// The flake input changes that a flake update's output reports.
    pub fn parse_flake_updates(&self, output: &str) -> (r: Vec<PackageUpdate>)
        ensures
            update_views(r@) == flake_entries(regex_captures(FLAKE_INPUT_PATTERN@, output@)),
    {
        let captures = capture_triples(FLAKE_INPUT_PATTERN, output);
        Self::flake_updates_from_captures(&captures)
    }

    /// Summary entries for what a dry rebuild would build and fetch.
    pub fn parse_nixos_rebuild_output(&self, output: &str) -> (r: Result<Vec<PackageUpdate>, String>)
        ensures
            r matches Ok(v) && update_views(v@) == rebuild_summary(output@),
            says_up_to_date(output@) ==> (r matches Ok(v) && v@.len() == 0),
    {
        let text = chars_of(output);
        if contains_in(&text, &chars_of("up to date")) || contains_in(&text, &chars_of("already built")) {
            let none: Vec<PackageUpdate> = Vec::new();
            assert(update_views(none@) =~= rebuild_summary(output@));
            return Ok(none);
        }
        let ls = lines_of(&text);
        let ghost lv = views(ls@);
        let mut build: usize = 0;
        let mut fetch: usize = 0;
        let mut i: usize = 0;
        while i < ls.len()
            invariant
                i <= ls@.len(),
                lv == views(ls@),
                build as nat == last_count(lv.subrange(0, i as int), "derivations will be built"@, "derivation will be built"@),
                fetch as nat == last_count(lv.subrange(0, i as int), "paths will be fetched"@, "path will be fetched"@),
            decreases ls.len() - i,
        {
            let line = &ls[i];
            let ghost next = lv.subrange(0, i + 1);
            assert(next.drop_last() =~= lv.subrange(0, i as int));
            assert(next.last() == line@);
            match count_of_line(line, "derivations will be built", "derivation will be built") {
                Some(n) => {
                    build = n;
                },
                None => {},
            }
            match count_of_line(line, "paths will be fetched", "path will be fetched") {
                Some(n) => {
                    fetch = n;
                },
                None => {},
            }
            i = i + 1;
        }
        assert(lv.subrange(0, i as int) =~= lv);
        let mut updates: Vec<PackageUpdate> = Vec::new();
        if build > 0 {
            updates.push(summary_entry("System Update", build, "will be built"));
        }
        if fetch > 0 {
            updates.push(summary_entry("Downloads", fetch, "will be fetched"));
        }
        assert(update_views(updates@) =~= rebuild_summary(output@));
        Ok(updates)
    }
}

/// A command's stdout and stderr joined by a newline, as the NixOS tools
/// spread their reports over both.
pub open spec fn combined(out: CommandOutput) -> Seq<char> {
    out.stdout@ + "\n"@ + out.stderr@
}

/// A flake update's output says there is nothing to update.
pub open spec fn reports_up_to_date(s: Seq<char>) -> bool {
    contains(s, "up to date"@) || contains(s, "no updates"@)
}

/// The stderr of a failed privileged run points at missing permissions.
pub open spec fn permission_problem(stderr: Seq<char>) -> bool {
    contains(stderr, "not allowed"@) || contains(stderr, "password"@) || contains(stderr, "sudo"@)
}

/// The advice given when the dry rebuild was refused for want of permissions.
pub open spec fn permission_advice() -> Seq<char> {
    "Permission denied. Use PolicyKit or configure passwordless sudo for nixos-rebuild:\nAdd to /etc/sudoers.d/nixos-rebuild:\n%wheel ALL=(ALL) NOPASSWD: /run/current-system/sw/bin/nixos-rebuild"@
}

/// `stdout`, a newline, and `stderr` of a command.
pub fn combined_output(output: &CommandOutput) -> (r: String)
    ensures
        r@ == combined(*output),
{
    let mut s = string_from(output.stdout.as_str());
    s.append("\n");
    s.append(output.stderr.as_str());
    s
}

impl UpdateChecker {
    /// The flakes mode needs a `flake.lock` in the configuration directory;
    /// without one the check fails at once.
    pub fn require_flake_lock(config_path: &str, lock_exists: bool) -> (r: Result<(), PhaseError>)
        ensures
            r is Ok <==> lock_exists,
            r matches Err(e) ==> e matches PhaseError::Fatal(m) && m@ == "flake.lock not found in "@
                + config_path@ + ". Run 'nix flake update' first."@,
    {
        if lock_exists {
            Ok(())
        } else {
            let mut m = string_from("flake.lock not found in ");
            m.append(config_path);
            m.append(". Run 'nix flake update' first.");
            Err(PhaseError::Fatal(m))
        }
    }

    /// The flake input changes that a dry flake update reports; none where it
    /// says that everything is up to date.
    pub fn flake_update_entries(&self, output: &CommandOutput) -> (r: Vec<PackageUpdate>)
        ensures
            reports_up_to_date(combined(*output)) ==> r@.len() == 0,
            !reports_up_to_date(combined(*output)) ==> update_views(r@) == flake_entries(
                regex_captures(FLAKE_INPUT_PATTERN@, combined(*output)),
            ),
    {
        let all = combined_output(output);
        let v = chars_of(all.as_str());
        if contains_in(&v, &chars_of("up to date")) || contains_in(&v, &chars_of("no updates")) {
            return Vec::new();
        }
        self.parse_flake_updates(all.as_str())
    }

    /// What a dry rebuild's result means for a channels-mode check: its
    /// summary on success; refused permissions end the check with advice,
    /// which is not retried; any other failure may be retried.
    pub fn rebuild_check_result(&self, output: &CommandOutput) -> (r: Result<Vec<PackageUpdate>, PhaseError>)
        ensures
            output.success ==> (r matches Ok(v) && update_views(v@) == rebuild_summary(combined(*output))),
            !output.success && permission_problem(output.stderr@) ==> (r matches Err(PhaseError::Fatal(m))
                && m@ == permission_advice()),
            !output.success && !permission_problem(output.stderr@) ==> (r matches Err(PhaseError::Retry(m))
                && m@ == "Failed to check NixOS updates: "@ + output.stderr@),
    {
        if output.success {
            let all = combined_output(output);
            return match self.parse_nixos_rebuild_output(all.as_str()) {
                Ok(v) => Ok(v),
                Err(e) => Err(PhaseError::Retry(e)),
            };
        }
        let err = chars_of(output.stderr.as_str());
        if contains_in(&err, &chars_of("not allowed")) || contains_in(&err, &chars_of("password"))
            || contains_in(&err, &chars_of("sudo")) {
            return Err(PhaseError::Fatal(string_from(
                "Permission denied. Use PolicyKit or configure passwordless sudo for nixos-rebuild:\nAdd to /etc/sudoers.d/nixos-rebuild:\n%wheel ALL=(ALL) NOPASSWD: /run/current-system/sw/bin/nixos-rebuild",
            )));
        }
        let mut m = string_from("Failed to check NixOS updates: ");
        m.append(output.stderr.as_str());
        Err(PhaseError::Retry(m))
    }

    /// The result of a flakes-mode check: the flake input changes, followed by
    /// the dry build's summary where there are changes and the dry build ran.
    pub fn flake_check_entries(&self, flake: Vec<PackageUpdate>, rebuild: Option<&CommandOutput>) -> (r: Vec<
        PackageUpdate,
    >)
        ensures
            update_views(r@) == update_views(flake@) + (if flake@.len() > 0 && rebuild is Some {
                rebuild_summary(combined(*rebuild->0))
            } else {
                seq![]
            }),
    {
        let ghost first = update_views(flake@);
        let mut all = flake;
        if all.len() > 0 {
            if let Some(out) = rebuild {
                let text = combined_output(out);
                if let Ok(mut summary) = self.parse_nixos_rebuild_output(text.as_str()) {
                    let ghost added = update_views(summary@);
                    all.append(&mut summary);
                    assert(update_views(all@) =~= first + added);
                    return all;
                }
            }
        }
        assert(update_views(all@) =~= first + seq![]);
        all
    }
}

} // verus!

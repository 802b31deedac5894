use vstd::prelude::*;
use crate::package_manager::{
    manager_supports_aur, parse_line, update_views, PackageManager, PackageUpdate, UpdateChecker,
    UpdateInfo, UpdateView,
};
use crate::text::{
    chars_of, lines, lines_of, push_signed_decimal, same_chars, signed_decimal, string_from, trim,
    trimmed, views,
};

verus! {

/// Seconds to wait before the second attempt at the lock.
pub const LOCK_RETRY_DELAY_SECS: u64 = 2;

/// Seconds to wait before the second attempt at a failed phase.
pub const UPDATE_RETRY_DELAY_SECS: u64 = 1;

/// What a finished external command reported.
#[derive(Debug, Clone)]
pub struct CommandOutput {
    pub success: bool,
    /// The exit code; `None` when a signal ended the process.
    pub exit_code: Option<i32>,
    pub stdout: String,
    pub stderr: String,
}

/// A program and its arguments.
#[derive(Debug, Clone)]
pub struct Query {
    pub program: String,
    pub args: Vec<String>,
}

/// The character sequences of a list of strings.
pub open spec fn string_views(ss: Seq<String>) -> Seq<Seq<char>> {
    ss.map_values(|s: String| s@)
}

/// The program and arguments that list a manager's official updates; NixOS has
/// its own procedure.
pub open spec fn official_query(pm: PackageManager) -> Option<(Seq<char>, Seq<Seq<char>>)> {
    match pm {
        PackageManager::Pacman | PackageManager::Paru | PackageManager::Yay => Some(("checkupdates"@, seq![])),
        PackageManager::Apt => Some(("apt"@, seq!["list"@, "--upgradable"@])),
        PackageManager::Dnf => Some(("dnf"@, seq!["check-update"@, "-q"@])),
        PackageManager::Zypper => Some(("zypper"@, seq!["list-updates"@])),
        PackageManager::Apk => Some(("apk"@, seq!["-u"@, "list"@])),
        PackageManager::Flatpak => Some(("flatpak"@, seq!["remote-ls"@, "--updates"@])),
        PackageManager::NixOS => None,
    }
}

/// The program and arguments that list a manager's AUR updates, for the
/// managers that have them.
pub open spec fn aur_query(pm: PackageManager) -> Option<(Seq<char>, Seq<Seq<char>>)> {
    match pm {
        PackageManager::Paru => Some(("paru"@, seq!["-Qu"@, "--aur"@])),
        PackageManager::Yay => Some(("yay"@, seq!["-Qu"@, "--aur"@])),
        _ => None,
    }
}

/// The view of an optional query.
pub open spec fn query_view(q: Option<Query>) -> Option<(Seq<char>, Seq<Seq<char>>)> {
    match q {
        Some(q) => Some((q.program@, string_views(q.args@))),
        None => None,
    }
}

/// The updates that a manager's listing holds, one per line that its grammar reads.
pub open spec fn parse_listing(pm: PackageManager, stdout: Seq<char>, is_aur: bool) -> Seq<UpdateView> {
    lines(stdout).filter_map(|l: Seq<char>| parse_line(pm, l, is_aur))
}

/// A nonzero exit that means "no updates": `checkupdates` with 2, an AUR
/// helper with 1.
pub open spec fn means_no_updates(cmd: Seq<char>, code: int) -> bool {
    (cmd == "checkupdates"@ && code == 2) || ((cmd == "paru"@ || cmd == "yay"@) && code == 1)
}

/// The exit code, or -1 where a signal ended the process.
pub open spec fn code_of(out: CommandOutput) -> int {
    match out.exit_code {
        Some(c) => c as int,
        None => -1,
    }
}

/// The message of a listing that failed with no output.
pub open spec fn listing_failure(code: int, stderr: Seq<char>) -> Seq<char> {
    "Failed to check for updates (exit "@ + signed_decimal(code) + "): "@ + stderr
}

/// What a listing command's result means: a list of updates, or the failure.
/// A nonzero exit is a failure only where stdout is blank and the code is none
/// of the tolerated ones (`dnf` exits with 100 when it lists updates).
pub open spec fn listing_result(pm: PackageManager, cmd: Seq<char>, out: CommandOutput, is_aur: bool) -> Result<
    Seq<UpdateView>,
    Seq<char>,
> {
    let code = code_of(out);
    if out.success {
        Ok(parse_listing(pm, out.stdout@, is_aur))
    } else if means_no_updates(cmd, code) {
        Ok(seq![])
    } else if cmd == "dnf"@ && code == 100 {
        Ok(parse_listing(pm, out.stdout@, is_aur))
    } else if trim(out.stdout@).len() == 0 {
        Err(listing_failure(code, out.stderr@))
    } else {
        Ok(parse_listing(pm, out.stdout@, is_aur))
    }
}

/// The view of a listing result.
pub open spec fn listing_view(r: Result<Vec<PackageUpdate>, String>) -> Result<Seq<UpdateView>, Seq<char>> {
    match r {
        Ok(v) => Ok(update_views(v@)),
        Err(e) => Err(e@),
    }
}

fn strings_of(a: &str, b: &str) -> (r: Vec<String>)
    ensures
        string_views(r@) == seq![a@, b@],
{
    let mut r: Vec<String> = Vec::new();
    r.push(string_from(a));
    r.push(string_from(b));
    assert(string_views(r@) =~= seq![a@, b@]);
    r
}

fn query(program: &str, args: Vec<String>) -> (r: Query)
    ensures
        r.program@ == program@,
        r.args == args,
{
    Query { program: string_from(program), args }
}

impl UpdateChecker {
    /// The command that lists official updates; `None` for NixOS.
    pub fn official_command(&self) -> (r: Option<Query>)
        ensures
            query_view(r) == official_query(self.manager()),
    {
        match self.manager_exec() {
            PackageManager::Pacman | PackageManager::Paru | PackageManager::Yay => {
                let args: Vec<String> = Vec::new();
                assert(string_views(args@) =~= seq![]);
                Some(query("checkupdates", args))
            },
            PackageManager::Apt => Some(query("apt", strings_of("list", "--upgradable"))),
            PackageManager::Dnf => Some(query("dnf", strings_of("check-update", "-q"))),
            PackageManager::Zypper => {
                let mut args: Vec<String> = Vec::new();
                args.push(string_from("list-updates"));
                assert(string_views(args@) =~= seq!["list-updates"@]);
                Some(query("zypper", args))
            },
            PackageManager::Apk => Some(query("apk", strings_of("-u", "list"))),
            PackageManager::Flatpak => Some(query("flatpak", strings_of("remote-ls", "--updates"))),
            PackageManager::NixOS => None,
        }
    }

    /// The command that lists AUR updates; `None` where there are none to list.
    pub fn aur_command(&self) -> (r: Option<Query>)
        ensures
            query_view(r) == aur_query(self.manager()),
    {
        match self.manager_exec() {
            PackageManager::Paru => Some(query("paru", strings_of("-Qu", "--aur"))),
            PackageManager::Yay => Some(query("yay", strings_of("-Qu", "--aur"))),
            _ => None,
        }
    }

    /// Every update that a listing's lines describe, in order.
    pub fn parse_listing_output(&self, stdout: &str, is_aur: bool) -> (r: Vec<PackageUpdate>)
        ensures
            update_views(r@) == parse_listing(self.manager(), stdout@, is_aur),
    {
        let ls = lines_of(&chars_of(stdout));
        let ghost lv = views(ls@);
        let ghost f = |l: Seq<char>| parse_line(self.manager(), l, is_aur);
        let mut out: Vec<PackageUpdate> = Vec::new();
        let mut i: usize = 0;
        while i < ls.len()
            invariant
                i <= ls@.len(),
                lv == views(ls@),
                f == (|l: Seq<char>| parse_line(self.manager(), l, is_aur)),
                update_views(out@) == lv.subrange(0, i as int).filter_map(f),
            decreases ls.len() - i,
        {
            let ghost next = lv.subrange(0, i + 1);
            assert(next.drop_last() =~= lv.subrange(0, i as int));
            assert(next.last() == ls@[i as int]@);
            let ghost before = update_views(out@);
            match self.parse_line_chars(&ls[i], is_aur) {
                Some(u) => {
                    out.push(u);
                    assert(update_views(out@) =~= before + seq![u@]);
                },
                None => {},
            }
            i = i + 1;
        }
        assert(lv.subrange(0, i as int) =~= lv);
        out
    }

    /// What a listing command's result means (see `listing_result`).
    pub fn parse_update_output(&self, cmd: &str, output: &CommandOutput, is_aur: bool) -> (r: Result<
        Vec<PackageUpdate>,
        String,
    >)
        ensures
            listing_view(r) == listing_result(self.manager(), cmd@, *output, is_aur),
    {
        let code: i32 = match output.exit_code {
            Some(c) => c,
            None => -1,
        };
        if !output.success {
            let tolerated = (same_chars(cmd, "checkupdates") && code == 2) || ((same_chars(cmd, "paru")
                || same_chars(cmd, "yay")) && code == 1);
            if tolerated {
                let none: Vec<PackageUpdate> = Vec::new();
                assert(update_views(none@) =~= seq![]);
                return Ok(none);
            }
            if !(same_chars(cmd, "dnf") && code == 100) && trimmed(&chars_of(output.stdout.as_str())).len()
                == 0 {
                let mut msg = string_from("Failed to check for updates (exit ");
                push_signed_decimal(&mut msg, code);
                msg.append("): ");
                msg.append(output.stderr.as_str());
                return Err(msg);
            }
        }
        Ok(self.parse_listing_output(output.stdout.as_str(), is_aur))
    }
}

/// Where a check run stands.
#[derive(Debug, Clone, Copy, PartialEq, Eq, Structural)]
pub enum Stage {
    Locking,
    Official,
    Aur,
    Finished,
}

/// What the caller does next for a check run.
#[derive(Debug)]
pub enum Step {
    /// Try the cross-process lock once, without blocking.
    AcquireLock,
    /// Sleep this many seconds, then call `resume`.
    Wait(u64),
    /// List the official updates.
    RunOfficial,
    /// List the AUR updates.
    RunAur,
    /// Notify the other instances, release the lock, and return the result.
    Complete(UpdateInfo),
    /// Return this error, releasing the lock if one is held.
    Abort(String),
}

/// Why a listing phase failed.
#[derive(Debug)]
pub enum PhaseError {
    /// A failure that one more attempt may cure; after that the phase is
    /// skipped.
    Retry(String),
    /// A failure that ends the whole check at once (missing required state,
    /// refused permissions).
    Fatal(String),
}

/// The outcome is a failure that may be retried.
pub open spec fn retryable(outcome: Result<Vec<PackageUpdate>, PhaseError>) -> bool {
    outcome matches Err(PhaseError::Retry(_))
}

/// One update check, from taking the lock to the aggregated result. The caller
/// performs each `Step` and reports back; all decisions are made here.
pub struct CheckRun {
    manager: PackageManager,
    include_aur: bool,
    stage: Stage,
    retried: bool,
    info: UpdateInfo,
}

/// The state of a check run.
pub struct RunView {
    pub manager: PackageManager,
    pub include_aur: bool,
    pub stage: Stage,
    /// Whether the current stage already had its second attempt granted.
    pub retried: bool,
    pub official: nat,
    pub aur: nat,
    pub packages: Seq<UpdateView>,
}

impl View for CheckRun {
    type V = RunView;

    closed spec fn view(&self) -> RunView {
        RunView {
            manager: self.manager,
            include_aur: self.include_aur,
            stage: self.stage,
            retried: self.retried,
            official: self.info.official_updates as nat,
            aur: self.info.aur_updates as nat,
            packages: update_views(self.info.packages@),
        }
    }
}

/// The state after a phase's result is taken in.
pub open spec fn recorded(v: RunView, us: Seq<UpdateView>) -> RunView {
    if v.stage == Stage::Official {
        RunView { official: us.len(), packages: v.packages + us, ..v }
    } else {
        RunView { aur: us.len(), packages: v.packages + us, ..v }
    }
}

/// The state after moving on from the current phase: to the AUR phase after
/// the official one where it is asked for and supported, else to the end.
pub open spec fn moved_on(v: RunView) -> RunView {
    if v.stage == Stage::Official && v.include_aur && manager_supports_aur(v.manager) {
        RunView { stage: Stage::Aur, retried: false, ..v }
    } else {
        RunView { stage: Stage::Finished, ..v }
    }
}

/// The result handed out at the end of a run: its counts and packages, with
/// the total taken from the package list.
pub open spec fn completes_with(step: Step, v: RunView) -> bool {
    step matches Step::Complete(info) && info.wf() && update_views(info.packages@) == v.packages
        && info.official_updates == v.official && info.aur_updates == v.aur
}

/// Whether `step` is what the run does in the state `v` after moving on.
pub open spec fn step_after_move(step: Step, v: RunView) -> bool {
    if v.stage == Stage::Aur {
        step is RunAur
    } else {
        completes_with(step, v)
    }
}

impl CheckRun {
    pub fn new(manager: PackageManager, include_aur: bool) -> (r: Self)
        ensures
            r@ == (RunView {
                manager,
                include_aur,
                stage: Stage::Locking,
                retried: false,
                official: 0,
                aur: 0,
                packages: seq![],
            }),
    {
        let r = CheckRun { manager, include_aur, stage: Stage::Locking, retried: false, info: UpdateInfo::new() };
        assert(update_views(r.info.packages@) =~= seq![]);
        r
    }

    /// The first thing to do: take the lock.
    pub fn start(&self) -> (r: Step)
        ensures
            r is AcquireLock,
    {
        Step::AcquireLock
    }

    pub fn stage(&self) -> (r: Stage)
        ensures
            r == self@.stage,
    {
        self.stage
    }

    /// The second attempt at the current stage, after a wait.
    pub fn resume(&self) -> (r: Step)
        requires
            self@.stage != Stage::Finished,
        ensures
            self@.stage == Stage::Locking ==> r is AcquireLock,
            self@.stage == Stage::Official ==> r is RunOfficial,
            self@.stage == Stage::Aur ==> r is RunAur,
    {
        match self.stage {
            Stage::Locking => Step::AcquireLock,
            Stage::Official => Step::RunOfficial,
            _ => Step::RunAur,
        }
    }

    /// Takes in the outcome of an attempt at the lock: on success the official
    /// phase starts; a first failure waits and tries again; a second one ends
    /// the run.
    pub fn on_lock(&mut self, outcome: Result<(), String>) -> (r: Step)
        requires
            old(self)@.stage == Stage::Locking,
        ensures
            outcome is Ok ==> r is RunOfficial && final(self)@ == (RunView {
                stage: Stage::Official,
                retried: false,
                ..old(self)@
            }),
            outcome is Err && !old(self)@.retried ==> r == Step::Wait(LOCK_RETRY_DELAY_SECS)
                && final(self)@ == (RunView { retried: true, ..old(self)@ }),
            match outcome {
                Err(e) => old(self)@.retried ==> (r matches Step::Abort(m) && m@
                    == "Update check already in progress: "@ + e@) && final(self)@ == (RunView {
                    stage: Stage::Finished,
                    ..old(self)@
                }),
                Ok(_) => true,
            },
    {
        match outcome {
            Ok(()) => {
                self.stage = Stage::Official;
                self.retried = false;
                Step::RunOfficial
            },
            Err(e) => {
                if !self.retried {
                    self.retried = true;
                    Step::Wait(LOCK_RETRY_DELAY_SECS)
                } else {
                    self.stage = Stage::Finished;
                    let mut m = string_from("Update check already in progress: ");
                    m.append(e.as_str());
                    Step::Abort(m)
                }
            },
        }
    }

    fn move_on(&mut self) -> (r: Step)
        requires
            old(self)@.stage == Stage::Official || old(self)@.stage == Stage::Aur,
        ensures
            moved_on(old(self)@).stage == Stage::Aur ==> r is RunAur && final(self)@ == moved_on(old(self)@),
            moved_on(old(self)@).stage == Stage::Finished ==> final(self)@.stage == Stage::Finished
                && completes_with(r, moved_on(old(self)@)),
    {
        if self.stage == Stage::Official && self.include_aur && self.manager.supports_aur() {
            self.stage = Stage::Aur;
            self.retried = false;
            Step::RunAur
        } else {
            self.stage = Stage::Finished;
            let mut packages: Vec<PackageUpdate> = Vec::new();
            core::mem::swap(&mut packages, &mut self.info.packages);
            let info = UpdateInfo {
                total_updates: packages.len(),
                official_updates: self.info.official_updates,
                aur_updates: self.info.aur_updates,
                packages,
            };
            Step::Complete(info)
        }
    }

    /// Takes in the outcome of a listing phase. A fatal failure ends the run
    /// with its message. Otherwise the phase's updates are added and counted;
    /// a first retryable failure waits and tries again, a second one leaves
    /// the phase with no updates. Then the run moves on: to the AUR phase where
    /// it is asked for and supported, else to the end, where the aggregated
    /// result is handed out.
    pub fn on_phase(&mut self, outcome: Result<Vec<PackageUpdate>, PhaseError>) -> (r: Step)
        requires
            old(self)@.stage == Stage::Official || old(self)@.stage == Stage::Aur,
        ensures
            match outcome {
                Err(PhaseError::Fatal(m)) => (r matches Step::Abort(x) && x@ == m@) && final(self)@.stage
                    == Stage::Finished,
                _ => true,
            },
            retryable(outcome) && !old(self)@.retried ==> r == Step::Wait(UPDATE_RETRY_DELAY_SECS)
                && final(self)@ == (RunView { retried: true, ..old(self)@ }),
            ({
                let v = match outcome {
                    Ok(us) => recorded(old(self)@, update_views(us@)),
                    Err(_) => old(self)@,
                };
                (outcome is Ok || (retryable(outcome) && old(self)@.retried)) ==> {
                    &&& moved_on(v).stage == Stage::Aur ==> r is RunAur && final(self)@ == moved_on(v)
                    &&& moved_on(v).stage == Stage::Finished ==> final(self)@.stage == Stage::Finished
                        && completes_with(r, moved_on(v))
                }
            }),
    {
        match outcome {
            Ok(mut us) => {
                let ghost added = update_views(us@);
                let ghost before = update_views(self.info.packages@);
                let n = us.len();
                if self.stage == Stage::Official {
                    self.info.official_updates = n;
                } else {
                    self.info.aur_updates = n;
                }
                self.info.packages.append(&mut us);
                assert(update_views(self.info.packages@) =~= before + added);
                self.move_on()
            },
            Err(PhaseError::Fatal(m)) => {
                self.stage = Stage::Finished;
                Step::Abort(m)
            },
            Err(PhaseError::Retry(_)) => {
                if !self.retried {
                    self.retried = true;
                    Step::Wait(UPDATE_RETRY_DELAY_SECS)
                } else {
                    self.move_on()
                }
            },
        }
    }
}

} // verus!

use vstd::prelude::*;
use crate::text::{decimal, push_decimal};

verus! {

/// A peer's notification re-triggers a check only if this instance's own last
/// check is more than this many seconds old.
pub const SYNC_DEBOUNCE_SECS: u64 = 10;

/// Whether a peer's notification should re-trigger a check: not while one is
/// running, not without a configured manager, and not right after one.
pub open spec fn should_recheck(checking: bool, has_manager: bool, secs_since_last_check: Option<u64>) -> bool {
    !checking && has_manager && match secs_since_last_check {
        Some(s) => s > SYNC_DEBOUNCE_SECS,
        None => true,
    }
}

/// Filters the events of a watch on the sync file. The first event after
/// subscribing comes from creating the file, not from a peer, and is dropped.
pub struct SyncGate {
    pub ignore_next: bool,
}

impl SyncGate {
    /// A gate for a fresh subscription.
    pub fn new() -> (r: Self)
        ensures
            r.ignore_next,
    {
        SyncGate { ignore_next: true }
    }

    /// Whether this change of the sync file should start a check.
    pub fn on_sync_event(&mut self, checking: bool, has_manager: bool, secs_since_last_check: Option<u64>) -> (r:
        bool)
        ensures
            !final(self).ignore_next,
            old(self).ignore_next ==> !r,
            !old(self).ignore_next ==> r == should_recheck(checking, has_manager, secs_since_last_check),
    {
        if self.ignore_next {
            self.ignore_next = false;
            return false;
        }
        !checking && has_manager && match secs_since_last_check {
            Some(s) => s > SYNC_DEBOUNCE_SECS,
            None => true,
        }
    }
}

/// The content written to the sync file (or the lock file): a number and a
/// newline.
pub fn stamp_line(n: u64) -> (r: String)
    ensures
        r@ == decimal(n as nat).push('\n'),
{
    let mut s = String::new();
    push_decimal(&mut s, n);
    s.push('\n');
    assert(Seq::<char>::empty() + decimal(n as nat) =~= decimal(n as nat));
    s
}

} // verus!

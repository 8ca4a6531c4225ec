//! Per-surface commit sequencing.
//!
//! Every surface carries a monotonic commit counter, held in an explicit side
//! table keyed by surface identity rather than hung off the surface object
//! itself.  The commit handler runs with the compositor's single lock held, so
//! commits to one surface are totally ordered; commits to distinct surfaces
//! never touch each other's counters.

use std::collections::HashMap;
use vstd::prelude::*;

verus! {

broadcast use vstd::std_specs::hash::group_hash_axioms;

/// How many commits a surface has received so far: zero for a surface that has
/// never been observed.
pub open spec fn commit_count(counters: Map<u64, u64>, surface: u64) -> nat {
    if counters.contains_key(surface) {
        counters[surface] as nat
    } else {
        0
    }
}

/// How one commit changes the side table: the committed surface's count grows
/// by one and every other surface is untouched.
pub open spec fn commit_step(counters: Map<u64, u64>, surface: u64) -> Map<u64, u64> {
    counters.insert(surface, (commit_count(counters, surface) + 1) as u64)
}

/// The side table after `n` commits to one surface, starting from `counters`.
pub open spec fn commits_applied(counters: Map<u64, u64>, surface: u64, n: nat) -> Map<u64, u64>
    decreases n,
{
    if n == 0 {
        counters
    } else {
        commit_step(commits_applied(counters, surface, (n - 1) as nat), surface)
    }
}

/// Side table attaching a commit counter to each surface, keyed by surface
/// identity.  Counters are created lazily on a surface's first commit and are
/// not removed when a surface goes away.
pub struct SurfaceCommitTracker {
    counters: HashMap<u64, u64>,
}

impl View for SurfaceCommitTracker {
    type V = Map<u64, u64>;

    closed spec fn view(&self) -> Map<u64, u64> {
        self.counters@
    }
}

impl SurfaceCommitTracker {
    /// A fresh tracker: no surface has committed yet.
    pub fn new() -> (tracker: Self)
        ensures
            tracker@ == Map::<u64, u64>::empty(),
    {
        SurfaceCommitTracker { counters: HashMap::new() }
    }

    /// Record one commit and hand out its sequence number: the number of
    /// commits the surface had before this one.  A surface seen for the first
    /// time gets sequence 0.
    pub fn on_commit(&mut self, surface: u64) -> (sequence: u64)
        requires
            commit_count(old(self)@, surface) < u64::MAX,
        ensures
            sequence == commit_count(old(self)@, surface),
            final(self)@ == commit_step(old(self)@, surface),
    {
        let current: u64 = match self.counters.get(&surface) {
            Some(count) => *count,
            None => 0,
        };
        self.counters.insert(surface, current + 1);
        current
    }

    /// The count stored for a surface, zero when the surface was never seen.
    pub fn count_of(&self, surface: u64) -> (count: u64)
        ensures
            count == commit_count(self@, surface),
    {
        match self.counters.get(&surface) {
            Some(count) => *count,
            None => 0,
        }
    }
}

/// A surface that was never observed gets sequence 0 on its first commit.
pub proof fn lemma_first_commit_sequence(counters: Map<u64, u64>, surface: u64)
    requires
        !counters.contains_key(surface),
    ensures
        commit_count(counters, surface) == 0,
{
}

/// Sequence numbers handed out for one surface strictly increase from one
/// commit to the next, so they never decrease across the surface's lifetime.
pub proof fn lemma_sequences_never_decrease(counters: Map<u64, u64>, surface: u64)
    requires
        commit_count(counters, surface) < u64::MAX,
    ensures
        commit_count(counters, surface) < commit_count(commit_step(counters, surface), surface),
{
}

/// A commit to one surface leaves every other surface's counter alone:
/// concurrent commit streams to distinct surfaces do not perturb each other.
pub proof fn lemma_distinct_surfaces_independent(counters: Map<u64, u64>, s1: u64, s2: u64)
    requires
        s1 != s2,
    ensures
        commit_count(commit_step(counters, s1), s2) == commit_count(counters, s2),
{
}

/// After `n` commits to a freshly observed surface its stored count is `n`.
pub proof fn lemma_commit_count_after(counters: Map<u64, u64>, surface: u64, n: nat)
    requires
        !counters.contains_key(surface),
        n <= u64::MAX,
    ensures
        commit_count(commits_applied(counters, surface, n), surface) == n,
    decreases n,
{
    if n > 0 {
        lemma_commit_count_after(counters, surface, (n - 1) as nat);
    }
}

/// The Nth commit to a freshly observed surface yields sequence N - 1: the
/// sequence handed out is the count before the commit, which after N - 1
/// commits is exactly N - 1.
pub proof fn lemma_nth_commit_sequence(counters: Map<u64, u64>, surface: u64, n: nat)
    requires
        !counters.contains_key(surface),
        1 <= n <= u64::MAX,
    ensures
        commit_count(commits_applied(counters, surface, (n - 1) as nat), surface) == n - 1,
{
    lemma_commit_count_after(counters, surface, (n - 1) as nat);
}

} // verus!

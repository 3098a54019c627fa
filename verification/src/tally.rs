//! Counts of resolved trials, and sums over the finalized stats ledger.

use vstd::prelude::*;

verus! {

/// Running counts of how the trials of one block were resolved: selected
/// correctly, selected incorrectly, or missed by letting the timeout expire.
#[derive(Clone, Copy, PartialEq, Eq, Structural, Debug)]
pub struct Tally {
    pub correct: u32,
    pub wrong: u32,
    pub missed: u32,
}

impl Tally {
    /// The tally of a block with no resolved trials yet.
    pub open spec fn zero() -> Tally {
        Tally { correct: 0, wrong: 0, missed: 0 }
    }

    /// How many trials this tally has recorded in all.
    pub open spec fn total(self) -> int {
        self.correct + self.wrong + self.missed
    }

    /// An empty tally.
    pub fn new() -> (t: Tally)
        ensures
            t == Tally::zero(),
    {
        Tally { correct: 0, wrong: 0, missed: 0 }
    }
}

/// The tally a ledger slot holds, counting an unwritten slot as empty.
pub open spec fn slot_tally(o: Option<Tally>) -> Tally {
    match o {
        Some(t) => t,
        None => Tally::zero(),
    }
}

/// Correct resolutions recorded across all written ledger slots.
pub open spec fn recorded_correct(s: Seq<Option<Tally>>) -> int
    decreases s.len(),
{
    if s.len() == 0 {
        0
    } else {
        recorded_correct(s.drop_last()) + slot_tally(s.last()).correct
    }
}

/// Incorrect resolutions recorded across all written ledger slots.
pub open spec fn recorded_wrong(s: Seq<Option<Tally>>) -> int
    decreases s.len(),
{
    if s.len() == 0 {
        0
    } else {
        recorded_wrong(s.drop_last()) + slot_tally(s.last()).wrong
    }
}

/// Missed trials recorded across all written ledger slots.
pub open spec fn recorded_missed(s: Seq<Option<Tally>>) -> int
    decreases s.len(),
{
    if s.len() == 0 {
        0
    } else {
        recorded_missed(s.drop_last()) + slot_tally(s.last()).missed
    }
}

/// Writing a tally into an empty slot adds exactly that tally to each
/// recorded sum.
pub proof fn lemma_recorded_update(s: Seq<Option<Tally>>, i: int, t: Tally)
    requires
        0 <= i < s.len(),
        s[i] is None,
    ensures
        recorded_correct(s.update(i, Some(t))) == recorded_correct(s) + t.correct,
        recorded_wrong(s.update(i, Some(t))) == recorded_wrong(s) + t.wrong,
        recorded_missed(s.update(i, Some(t))) == recorded_missed(s) + t.missed,
    decreases s.len(),
{
    let u = s.update(i, Some(t));
    if i == s.len() - 1 {
        assert(u.drop_last() =~= s.drop_last());
        assert(u.last() == Some(t));
        assert(slot_tally(s.last()) == Tally::zero());
    } else {
        assert(u.drop_last() =~= s.drop_last().update(i, Some(t)));
        assert(u.last() == s.last());
        lemma_recorded_update(s.drop_last(), i, t);
    }
}

} // verus!

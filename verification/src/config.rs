//! Session configuration: the symbol alphabet, the input modality, and the
//! difficulty (timeout) policy.

use vstd::prelude::*;

verus! {

/// Milliseconds taken off the timeout by one correct resolution under
/// `TimeoutPolicy::Decay`.
pub const DECAY_STEP_MS: u64 = 500;

/// Smallest timeout the decay policy ever produces; a timeout already at or
/// below the floor is left as it is, so the timeout never lengthens.
pub const DECAY_FLOOR_MS: u64 = 5000;

/// How the trial timeout evolves over a session.  A configuration commits to
/// one policy; the engine never mixes them within a session.
pub enum TimeoutPolicy {
    /// Each correct resolution shortens the timeout by `DECAY_STEP_MS`,
    /// never below `DECAY_FLOOR_MS`; incorrect and missed trials leave it
    /// unchanged.
    Decay,
    /// Entering block `b` sets the timeout to `table[b]`, or to 0 once the
    /// table is exhausted, regardless of the previous value or of how the
    /// block's trials were resolved.
    Stepped { table: Vec<u64> },
}

/// What the timeout becomes when the session enters block `block` under the
/// stepped policy.
pub open spec fn stepped_timeout(table: Seq<u64>, block: int) -> u64 {
    if 0 <= block < table.len() {
        table[block]
    } else {
        0
    }
}

/// One decay step: the timeout shrinks by `DECAY_STEP_MS` but never below
/// `DECAY_FLOOR_MS`, and never grows.
pub open spec fn decayed(t: u64) -> u64 {
    if t <= DECAY_FLOOR_MS {
        t
    } else if t >= DECAY_FLOOR_MS + DECAY_STEP_MS {
        (t - DECAY_STEP_MS) as u64
    } else {
        DECAY_FLOOR_MS
    }
}

/// Executable counterpart of `decayed`.
pub fn decay_timeout(t: u64) -> (r: u64)
    ensures
        r == decayed(t),
{
    if t <= DECAY_FLOOR_MS {
        t
    } else if t >= DECAY_FLOOR_MS + DECAY_STEP_MS {
        t - DECAY_STEP_MS
    } else {
        DECAY_FLOOR_MS
    }
}

/// True when the sequence holds at least two different symbols, so that a
/// decoy different from any given target can always be found.
pub open spec fn has_two_symbols(s: Seq<char>) -> bool {
    exists|i: int, j: int| 0 <= i < s.len() && 0 <= j < s.len() && s[i] != s[j]
}

/// True for the ASCII digits and letters, the symbols the canonical
/// configurations draw from.
pub open spec fn is_alnum(c: char) -> bool {
    ||| 48 <= c as u32 <= 57
    ||| 65 <= c as u32 <= 90
    ||| 97 <= c as u32 <= 122
}

/// Everything a session commits to up front.  `Reset` restores the state
/// these values describe; nothing here changes while the engine runs.
pub struct Config {
    /// Symbols the round generator draws targets and decoys from.
    pub alphabet: Vec<char>,
    /// Number of candidates shown per trial, the target included.
    pub k: usize,
    /// Dwell time in milliseconds that must be strictly exceeded to resolve
    /// a trial by pointer presence; 0 disables dwell mode and enables click
    /// mode instead.
    pub dwell_threshold_ms: u64,
    /// Timeout of the first trial, and the value `Reset` restores.
    pub initial_timeout_ms: u64,
    /// How the timeout changes as the session progresses.
    pub policy: TimeoutPolicy,
    /// Number of concluded trials after which the session is finished.
    pub level_bound: u32,
    /// Number of trials per stats block.
    pub block_size: u32,
    /// When true, decoys never equal the target, so the target occurs
    /// exactly once among the candidates; when false, decoys are drawn
    /// independently and may coincide with it.
    pub filtered_decoys: bool,
}

impl Config {
    /// Number of ledger slots: one per whole block below the level bound.
    pub open spec fn num_blocks(self) -> int {
        self.level_bound as int / self.block_size as int
    }

    /// A usable configuration: at least one candidate per trial, at least
    /// one trial per block and per session, a non-empty alphabet, and, when
    /// decoys are filtered, an alphabet from which a decoy different from
    /// any target can be drawn.
    pub open spec fn wf(self) -> bool {
        &&& self.k >= 1
        &&& self.block_size >= 1
        &&& self.level_bound >= 1
        &&& self.alphabet@.len() >= 1
        &&& (self.filtered_decoys ==> has_two_symbols(self.alphabet@))
    }
}

/// The ASCII digits and letters in code-point order, the alphabet of the
/// canonical configurations.
pub fn alnum_alphabet() -> (r: Vec<char>)
    ensures
        r@.len() == 62,
        forall|i: int| 0 <= i < r@.len() ==> is_alnum(#[trigger] r@[i]),
        r@[0] == '0',
        r@[1] == '1',
{
    let mut r: Vec<char> = Vec::new();
    r.push('0');
    r.push('1');
    let mut b: u8 = 50;
    while b <= 57
        invariant
            50 <= b <= 58,
            r@.len() == b - 48,
            forall|i: int| 0 <= i < r@.len() ==> is_alnum(#[trigger] r@[i]),
            r@[0] == '0',
            r@[1] == '1',
        decreases 58 - b,
    {
        r.push(b as char);
        b = b + 1;
    }
    let mut u: u8 = 65;
    while u <= 90
        invariant
            65 <= u <= 91,
            r@.len() == 10 + u - 65,
            forall|i: int| 0 <= i < r@.len() ==> is_alnum(#[trigger] r@[i]),
            r@[0] == '0',
            r@[1] == '1',
        decreases 91 - u,
    {
        r.push(u as char);
        u = u + 1;
    }
    let mut l: u8 = 97;
    while l <= 122
        invariant
            97 <= l <= 123,
            r@.len() == 36 + l - 97,
            forall|i: int| 0 <= i < r@.len() ==> is_alnum(#[trigger] r@[i]),
            r@[0] == '0',
            r@[1] == '1',
        decreases 123 - l,
    {
        r.push(l as char);
        l = l + 1;
    }
    r
}

impl Config {
    /// The canonical dwell-driven configuration: alphanumeric alphabet, four
    /// candidates, a 700 ms dwell threshold, a 10 s first timeout, the
    /// stepped table 10 s / 7 s / 5 s, thirty trials in blocks of ten, and
    /// filtered decoys.
    pub fn dwell_default() -> (c: Config)
        ensures
            c.wf(),
            c.alphabet@.len() == 62,
            (forall|i: int| 0 <= i < c.alphabet@.len() ==> is_alnum(#[trigger] c.alphabet@[i])),
            c.k == 4,
            c.dwell_threshold_ms == 700,
            c.initial_timeout_ms == 10000,
            (c.policy matches TimeoutPolicy::Stepped { table } && table@ =~= seq![10000u64, 7000u64, 5000u64]),
            c.level_bound == 30,
            c.block_size == 10,
            c.filtered_decoys,
    {
        let alphabet = alnum_alphabet();
        let mut table: Vec<u64> = Vec::new();
        table.push(10000);
        table.push(7000);
        table.push(5000);
        proof {
            assert(has_two_symbols(alphabet@));
        }
        Config {
            alphabet,
            k: 4,
            dwell_threshold_ms: 700,
            initial_timeout_ms: 10000,
            policy: TimeoutPolicy::Stepped { table },
            level_bound: 30,
            block_size: 10,
            filtered_decoys: true,
        }
    }

    /// A click-driven variant of the canonical configuration: no dwell,
    /// continuous timeout decay from 10 s, otherwise as `dwell_default`.
    pub fn click_default() -> (c: Config)
        ensures
            c.wf(),
            c.alphabet@.len() == 62,
            (forall|i: int| 0 <= i < c.alphabet@.len() ==> is_alnum(#[trigger] c.alphabet@[i])),
            c.k == 4,
            c.dwell_threshold_ms == 0,
            c.initial_timeout_ms == 10000,
            c.policy is Decay,
            c.level_bound == 30,
            c.block_size == 10,
            c.filtered_decoys,
    {
        let alphabet = alnum_alphabet();
        proof {
            assert(has_two_symbols(alphabet@));
        }
        Config {
            alphabet,
            k: 4,
            dwell_threshold_ms: 0,
            initial_timeout_ms: 10000,
            policy: TimeoutPolicy::Decay,
            level_bound: 30,
            block_size: 10,
            filtered_decoys: true,
        }
    }
}

} // verus!

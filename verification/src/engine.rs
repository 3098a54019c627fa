//! The trial engine: a pure state machine that generates rounds, resolves
//! them from clicks or pointer dwell, tracks the per-trial clock and
//! timeout, advances the level, and finalizes per-block tallies into a
//! write-once stats ledger.

use vstd::prelude::*;
use vstd::arithmetic::div_mod::{
    lemma_fundamental_div_mod,
    lemma_fundamental_div_mod_converse,
    lemma_mod_pos_bound,
    lemma_div_is_ordered,
    lemma_div_pos_is_pos,
};
use crate::config::{Config, TimeoutPolicy, decayed, stepped_timeout, decay_timeout};
use crate::entropy::Entropy;
use crate::tally::Tally;
use crate::trial::{trial_contents_wf, generate_trial};

verus! {

/// Inputs the presentation shell feeds the engine, in wall-clock order.
#[derive(Clone, Copy, Debug)]
pub enum Event {
    /// A periodic clock reading; `now_ms` is a monotonic timestamp in
    /// milliseconds.  A reading behind the previous one counts as no time
    /// passed.
    Tick { now_ms: u64 },
    /// A discrete selection of the candidate showing `symbol` (click mode).
    Click { symbol: char },
    /// The pointer moved onto the candidate showing `symbol` (dwell mode).
    PointerEnter { symbol: char },
    /// The pointer left whatever candidate it was on (dwell mode).
    PointerExit,
    /// Start the session over from the configured initial state.
    Reset,
}

/// How one trial was resolved: by a correct selection, an incorrect one, or
/// by letting the timeout expire.
#[derive(Clone, Copy, PartialEq, Eq, Structural, Debug)]
pub enum Outcome {
    Correct,
    Incorrect,
    Missed,
}

/// `a + b`, stopping at the largest representable value instead of wrapping.
pub open spec fn sat_add(a: u64, b: u64) -> u64 {
    if a + b <= u64::MAX {
        (a + b) as u64
    } else {
        u64::MAX
    }
}

/// `a - b`, stopping at zero.
pub open spec fn sat_sub(a: u64, b: u64) -> u64 {
    if a >= b {
        (a - b) as u64
    } else {
        0
    }
}

/// Executable counterpart of `sat_add`.
pub fn sat_add_u64(a: u64, b: u64) -> (r: u64)
    ensures
        r == sat_add(a, b),
{
    if a <= u64::MAX - b {
        a + b
    } else {
        u64::MAX
    }
}

/// Executable counterpart of `sat_sub`.
pub fn sat_sub_u64(a: u64, b: u64) -> (r: u64)
    ensures
        r == sat_sub(a, b),
{
    if a >= b {
        a - b
    } else {
        0
    }
}

/// Time passed since the previous tick: zero before the first tick of a
/// session, and clamped to zero when the clock reads behind the previous
/// tick.
pub open spec fn delta_of(last: Option<u64>, now: u64) -> u64 {
    match last {
        None => 0,
        Some(l) => if now >= l {
            (now - l) as u64
        } else {
            0
        },
    }
}

/// `j` is the position of the first candidate showing `c`.
pub open spec fn is_first_index(s: Seq<char>, c: char, j: int) -> bool {
    &&& 0 <= j < s.len()
    &&& s[j] == c
    &&& forall|t: int| 0 <= t < j ==> s[t] != c
}

/// The whole engine state; `apply` is its only transition.
pub struct Engine {
    /// What the session committed to at construction; never changes.
    pub config: Config,
    /// The symbol the participant must find.
    pub target: char,
    /// The candidate symbols in display order; one of them shows the target.
    pub candidates: Vec<char>,
    /// The candidate position the pointer is on, if any (dwell mode only).
    pub focus: Option<usize>,
    /// Per-position dwell accumulators in milliseconds; at most the focused
    /// position is ever non-zero.
    pub dwell_ms: Vec<u64>,
    /// Time spent on the current trial.
    pub elapsed_ms: u64,
    /// Ceiling for `elapsed_ms`; a tick that finds it strictly exceeded
    /// concludes the trial as missed.
    pub timeout_ms: u64,
    /// The clock reading of the last tick, if any tick arrived yet.
    pub last_tick_ms: Option<u64>,
    /// Resolutions counted since the current block began.
    pub tally: Tally,
    /// One slot per finished block, each written exactly once.
    pub ledger: Vec<Option<Tally>>,
    /// Trials concluded so far in this session.
    pub level: u32,
}

impl Engine {
    /// The session no longer accepts trial input; only `Reset` acts.
    pub open spec fn finished(self) -> bool {
        self.level >= self.config.level_bound
    }

    /// Index of the block the session is currently in.
    pub open spec fn block_of(self) -> int {
        self.level as int / self.config.block_size as int
    }

    /// The engine's invariant: every state `new` returns or `apply`
    /// produces satisfies it.
    pub open spec fn wf(self) -> bool {
        &&& self.config.wf()
        &&& trial_contents_wf(self.config, self.target, self.candidates@)
        &&& self.dwell_ms@.len() == self.config.k as int
        &&& (match self.focus {
            Some(i) => i < self.config.k && self.config.dwell_threshold_ms > 0,
            None => true,
        })
        &&& (forall|j: int|
            0 <= j < self.dwell_ms@.len() && self.focus != Some(j as usize) ==> #[trigger] self
                .dwell_ms@[j] == 0)
        &&& self.tally.total() <= self.level as int
        &&& self.level <= self.config.level_bound
        &&& self.ledger@.len() == self.config.num_blocks()
        &&& (forall|b: int|
            0 <= b < self.ledger@.len() ==> ((#[trigger] self.ledger@[b]) is Some <==> b
                < self.block_of()))
    }

    /// The state a session starts in, and the state `Reset` restores.
    pub open spec fn is_initial(self, cfg: Config) -> bool {
        &&& self.config == cfg
        &&& self.level == 0
        &&& self.tally == Tally::zero()
        &&& self.elapsed_ms == 0
        &&& self.timeout_ms == cfg.initial_timeout_ms
        &&& self.last_tick_ms is None
        &&& self.focus is None
        &&& self.dwell_ms@.len() == cfg.k as int
        &&& (forall|j: int| 0 <= j < self.dwell_ms@.len() ==> #[trigger] self.dwell_ms@[j] == 0)
        &&& self.ledger@.len() == cfg.num_blocks()
        &&& (forall|b: int| 0 <= b < self.ledger@.len() ==> (#[trigger] self.ledger@[b]) is None)
    }
}

/// The tally after one more trial resolved with outcome `v`.
pub open spec fn bump(t: Tally, v: Outcome) -> Tally {
    match v {
        Outcome::Correct => Tally { correct: (t.correct + 1) as u32, wrong: t.wrong, missed: t.missed },
        Outcome::Incorrect => Tally { correct: t.correct, wrong: (t.wrong + 1) as u32, missed: t.missed },
        Outcome::Missed => Tally { correct: t.correct, wrong: t.wrong, missed: (t.missed + 1) as u32 },
    }
}

/// The timeout a conclusion leaves behind: under decay, a correct resolution
/// shrinks it; under the stepped table, entering a new block resets it to
/// the table's value for that block.
pub open spec fn timeout_after(cfg: Config, t: u64, v: Outcome, new_level: u32) -> u64 {
    match cfg.policy {
        TimeoutPolicy::Decay => if v is Correct {
            decayed(t)
        } else {
            t
        },
        TimeoutPolicy::Stepped { table } => if new_level as int % cfg.block_size as int == 0 {
            stepped_timeout(table@, new_level as int / cfg.block_size as int)
        } else {
            t
        },
    }
}

/// The trial and candidate contents are the same in both states.
pub open spec fn same_trial(pre: Engine, post: Engine) -> bool {
    &&& post.target == pre.target
    &&& post.candidates@ == pre.candidates@
}

/// Level, tally, timeout and ledger are the same in both states.
pub open spec fn same_progress(pre: Engine, post: Engine) -> bool {
    &&& post.level == pre.level
    &&& post.tally == pre.tally
    &&& post.timeout_ms == pre.timeout_ms
    &&& post.ledger@ == pre.ledger@
}

/// No field of the engine changed.
pub open spec fn same_state(pre: Engine, post: Engine) -> bool {
    &&& post.config == pre.config
    &&& same_trial(pre, post)
    &&& same_progress(pre, post)
    &&& post.elapsed_ms == pre.elapsed_ms
    &&& post.last_tick_ms == pre.last_tick_ms
    &&& post.focus == pre.focus
    &&& post.dwell_ms@ == pre.dwell_ms@
}

/// One trial concluded with outcome `v`: exactly one tally count steps up,
/// the level advances, the clock and the dwell accumulators restart, a
/// fresh trial is generated, pointer focus carries over to the same
/// position, and, when the new level closes a block, the block's tally is
/// written into its ledger slot and the live tally restarts.  Says nothing
/// about `last_tick_ms`.
pub open spec fn concludes(pre: Engine, post: Engine, v: Outcome) -> bool {
    let lvl = pre.level as int + 1;
    let bs = pre.config.block_size as int;
    &&& post.config == pre.config
    &&& post.level as int == lvl
    &&& post.elapsed_ms == 0
    &&& post.focus == pre.focus
    &&& post.dwell_ms@.len() == pre.config.k as int
    &&& (forall|j: int| 0 <= j < post.dwell_ms@.len() ==> #[trigger] post.dwell_ms@[j] == 0)
    &&& trial_contents_wf(post.config, post.target, post.candidates@)
    &&& post.timeout_ms == timeout_after(pre.config, pre.timeout_ms, v, post.level)
    &&& (if lvl % bs == 0 {
        let idx = lvl / bs - 1;
        &&& 0 <= idx < pre.ledger@.len()
        &&& post.ledger@ == pre.ledger@.update(idx, Some(bump(pre.tally, v)))
        &&& post.tally == Tally::zero()
    } else {
        &&& post.ledger@ == pre.ledger@
        &&& post.tally == bump(pre.tally, v)
    })
}

/// What a tick does when the engine is in progress: time advances by the
/// clamped delta; a focused accumulator that strictly crosses the dwell
/// threshold resolves the trial against the target; otherwise an elapsed
/// time strictly past the timeout concludes the trial as missed; otherwise
/// the state only records the passed time.
pub open spec fn tick_rel(pre: Engine, post: Engine, now: u64) -> bool {
    let delta = delta_of(pre.last_tick_ms, now);
    let e1 = sat_add(pre.elapsed_ms, delta);
    &&& post.last_tick_ms == Some(now)
    &&& (match pre.focus {
        Some(i) => {
            if pre.config.dwell_threshold_ms > 0 {
                let d1 = sat_add(pre.dwell_ms@[i as int], delta);
                if d1 > pre.config.dwell_threshold_ms {
                    let v = if pre.candidates@[i as int] == pre.target {
                        Outcome::Correct
                    } else {
                        Outcome::Incorrect
                    };
                    concludes(pre, post, v)
                } else if e1 > pre.timeout_ms {
                    concludes(pre, post, Outcome::Missed)
                } else {
                    &&& post.config == pre.config
                    &&& same_trial(pre, post)
                    &&& same_progress(pre, post)
                    &&& post.elapsed_ms == e1
                    &&& post.focus == pre.focus
                    &&& post.dwell_ms@ == pre.dwell_ms@.update(i as int, d1)
                }
            } else {
                if e1 > pre.timeout_ms {
                    concludes(pre, post, Outcome::Missed)
                } else {
                    &&& post.config == pre.config
                    &&& same_trial(pre, post)
                    &&& same_progress(pre, post)
                    &&& post.elapsed_ms == e1
                    &&& post.focus == pre.focus
                    &&& post.dwell_ms@ == pre.dwell_ms@
                }
            }
        },
        None => {
            if e1 > pre.timeout_ms {
                concludes(pre, post, Outcome::Missed)
            } else {
                &&& post.config == pre.config
                &&& same_trial(pre, post)
                &&& same_progress(pre, post)
                &&& post.elapsed_ms == e1
                &&& post.focus == pre.focus
                &&& post.dwell_ms@ == pre.dwell_ms@
            }
        },
    })
}

/// What a click does when the engine is in progress: in dwell mode, or on a
/// symbol no candidate shows, nothing; otherwise it concludes the trial,
/// correctly exactly when the clicked symbol is the target.
pub open spec fn click_rel(pre: Engine, post: Engine, sym: char) -> bool {
    if pre.config.dwell_threshold_ms > 0 {
        same_state(pre, post)
    } else if !pre.candidates@.contains(sym) {
        same_state(pre, post)
    } else {
        let v = if sym == pre.target {
            Outcome::Correct
        } else {
            Outcome::Incorrect
        };
        &&& concludes(pre, post, v)
        &&& post.last_tick_ms == pre.last_tick_ms
    }
}

/// What a pointer entry does when the engine is in progress: in click mode,
/// on a symbol no candidate shows, or when the pointer is already on a
/// candidate showing that symbol, nothing; otherwise focus moves to the
/// first candidate showing the symbol and every accumulator restarts from
/// zero, so no dwell credit ever transfers between candidates.
pub open spec fn enter_rel(pre: Engine, post: Engine, sym: char) -> bool {
    let already = match pre.focus {
        Some(i) => (i as int) < pre.candidates@.len() && pre.candidates@[i as int] == sym,
        None => false,
    };
    if pre.config.dwell_threshold_ms == 0 {
        same_state(pre, post)
    } else if !pre.candidates@.contains(sym) {
        same_state(pre, post)
    } else if already {
        same_state(pre, post)
    } else {
        &&& post.config == pre.config
        &&& same_trial(pre, post)
        &&& same_progress(pre, post)
        &&& post.elapsed_ms == pre.elapsed_ms
        &&& post.last_tick_ms == pre.last_tick_ms
        &&& (match post.focus {
            Some(j) => is_first_index(pre.candidates@, sym, j as int),
            None => false,
        })
        &&& post.dwell_ms@.len() == pre.dwell_ms@.len()
        &&& (forall|j: int| 0 <= j < post.dwell_ms@.len() ==> #[trigger] post.dwell_ms@[j] == 0)
    }
}

/// What a pointer exit does when the engine is in progress: focus is
/// dropped and all dwell progress is discarded; nothing else changes.
pub open spec fn exit_rel(pre: Engine, post: Engine) -> bool {
    &&& post.config == pre.config
    &&& same_trial(pre, post)
    &&& same_progress(pre, post)
    &&& post.elapsed_ms == pre.elapsed_ms
    &&& post.last_tick_ms == pre.last_tick_ms
    &&& post.focus is None
    &&& post.dwell_ms@.len() == pre.dwell_ms@.len()
    &&& (forall|j: int| 0 <= j < post.dwell_ms@.len() ==> #[trigger] post.dwell_ms@[j] == 0)
}

/// The full transition relation of `apply`: `Reset` always restores the
/// initial state; any other event is ignored once the session is finished;
/// otherwise the event's own relation holds.
pub open spec fn apply_rel(pre: Engine, post: Engine, ev: Event) -> bool {
    match ev {
        Event::Reset => post.is_initial(pre.config),
        _ => if pre.finished() {
            same_state(pre, post)
        } else {
            match ev {
                Event::Tick { now_ms } => tick_rel(pre, post, now_ms),
                Event::Click { symbol } => click_rel(pre, post, symbol),
                Event::PointerEnter { symbol } => enter_rel(pre, post, symbol),
                Event::PointerExit => exit_rel(pre, post),
                Event::Reset => true,
            }
        },
    }
}

/// A vector of `n` zeroed dwell accumulators.
fn zero_vec(n: usize) -> (r: Vec<u64>)
    ensures
        r@.len() == n,
        forall|j: int| 0 <= j < r@.len() ==> #[trigger] r@[j] == 0,
{
    let mut r: Vec<u64> = Vec::new();
    while r.len() < n
        invariant
            r@.len() <= n,
            forall|j: int| 0 <= j < r@.len() ==> #[trigger] r@[j] == 0,
        decreases n - r@.len(),
    {
        r.push(0);
    }
    r
}

/// A ledger of `n` unwritten slots.
fn none_vec(n: usize) -> (r: Vec<Option<Tally>>)
    ensures
        r@.len() == n,
        forall|j: int| 0 <= j < r@.len() ==> (#[trigger] r@[j]) is None,
{
    let mut r: Vec<Option<Tally>> = Vec::new();
    while r.len() < n
        invariant
            r@.len() <= n,
            forall|j: int| 0 <= j < r@.len() ==> (#[trigger] r@[j]) is None,
        decreases n - r@.len(),
    {
        r.push(None);
    }
    r
}

/// An element-for-element copy of a vector of plain values.
fn copy_vec<T: Copy>(v: &Vec<T>) -> (r: Vec<T>)
    ensures
        r@ == v@,
{
    let mut r: Vec<T> = Vec::new();
    let mut i: usize = 0;
    while i < v.len()
        invariant
            i <= v@.len(),
            r@ == v@.subrange(0, i as int),
        decreases v@.len() - i,
    {
        let x = v[i];
        r.push(x);
        proof {
            assert(r@ =~= v@.subrange(0, i + 1));
        }
        i = i + 1;
    }
    proof {
        assert(r@ =~= v@);
    }
    r
}

/// Position of the first candidate showing `sym`, if any does.
fn find_symbol(candidates: &Vec<char>, sym: char) -> (r: Option<usize>)
    ensures
        (match r {
            Some(j) => is_first_index(candidates@, sym, j as int),
            None => !candidates@.contains(sym),
        }),
{
    let mut i: usize = 0;
    while i < candidates.len()
        invariant
            i <= candidates@.len(),
            forall|t: int| 0 <= t < i ==> candidates@[t] != sym,
        decreases candidates@.len() - i,
    {
        if candidates[i] == sym {
            return Some(i);
        }
        i = i + 1;
    }
    None
}

/// Division and remainder of a successor: adding one trial either steps
/// into the next block or stays inside the current one.
pub(crate) proof fn lemma_div_succ(l: int, bs: int)
    requires
        l >= 0,
        bs >= 1,
    ensures
        (l + 1) % bs == 0 ==> (l + 1) / bs == l / bs + 1,
        (l + 1) % bs != 0 ==> (l + 1) / bs == l / bs,
{
    lemma_fundamental_div_mod(l + 1, bs);
    lemma_mod_pos_bound(l + 1, bs);
    let q = (l + 1) / bs;
    let r = (l + 1) % bs;
    assert(l + 1 == bs * q + r);
    if r == 0 {
        assert(bs * (q - 1) == bs * q - bs) by (nonlinear_arith);
        assert(l == (q - 1) * bs + (bs - 1)) by (nonlinear_arith)
            requires
                l + 1 == bs * q,
                bs >= 1,
        ;
        lemma_fundamental_div_mod_converse(l, bs, q - 1, bs - 1);
    } else {
        assert(l == q * bs + (r - 1)) by (nonlinear_arith)
            requires
                l + 1 == bs * q + r,
        ;
        lemma_fundamental_div_mod_converse(l, bs, q, r - 1);
    }
}

/// The read-only projection the presentation shell renders once per tick.
#[derive(Clone, Debug, PartialEq)]
pub struct ViewModel {
    /// The symbol to find.
    pub target: char,
    /// Candidate symbols in display order.
    pub candidates: Vec<char>,
    /// Dwell progress per candidate position, in milliseconds.
    pub dwell_ms: Vec<u64>,
    /// Time spent on the current trial.
    pub elapsed_ms: u64,
    /// The current trial's timeout.
    pub timeout_ms: u64,
    /// Time left before the trial counts as missed.
    pub remaining_ms: u64,
    /// Trials concluded so far.
    pub level: u32,
    /// Index of the block the session is in.
    pub block: u32,
    /// Trials concluded within the current block.
    pub trial_in_block: u32,
    /// Live tally of the current block.
    pub tally: Tally,
    /// Finalized per-block tallies.
    pub ledger: Vec<Option<Tally>>,
    /// The session has used up its level bound.
    pub finished: bool,
}

impl Engine {
    /// A fresh session for `config`, with its first trial generated.
    pub fn new(config: Config, entropy: &mut Entropy) -> (s: Engine)
        requires
            config.wf(),
        ensures
            s.wf(),
            s.is_initial(config),
    {
        let (target, candidates) = generate_trial(entropy, &config);
        let k = config.k;
        let blocks = (config.level_bound / config.block_size) as usize;
        Engine {
            target,
            candidates,
            focus: None,
            dwell_ms: zero_vec(k),
            elapsed_ms: 0,
            timeout_ms: config.initial_timeout_ms,
            last_tick_ms: None,
            tally: Tally::new(),
            ledger: none_vec(blocks),
            level: 0,
            config,
        }
    }

    /// A snapshot of everything the shell may render; never mutates.
    pub fn snapshot(&self) -> (vm: ViewModel)
        requires
            self.wf(),
        ensures
            vm.target == self.target,
            vm.candidates@ == self.candidates@,
            vm.dwell_ms@ == self.dwell_ms@,
            vm.elapsed_ms == self.elapsed_ms,
            vm.timeout_ms == self.timeout_ms,
            vm.remaining_ms == sat_sub(self.timeout_ms, self.elapsed_ms),
            vm.level == self.level,
            vm.block as int == self.block_of(),
            vm.trial_in_block as int == self.level as int % self.config.block_size as int,
            vm.tally == self.tally,
            vm.ledger@ == self.ledger@,
            vm.finished == self.finished(),
    {
        ViewModel {
            target: self.target,
            candidates: copy_vec(&self.candidates),
            dwell_ms: copy_vec(&self.dwell_ms),
            elapsed_ms: self.elapsed_ms,
            timeout_ms: self.timeout_ms,
            remaining_ms: sat_sub_u64(self.timeout_ms, self.elapsed_ms),
            level: self.level,
            block: self.level / self.config.block_size,
            trial_in_block: self.level % self.config.block_size,
            tally: self.tally,
            ledger: copy_vec(&self.ledger),
            finished: self.level >= self.config.level_bound,
        }
    }

    /// Concludes the current trial with outcome `v`: counts it, advances
    /// the level, restarts the clock and the dwell accumulators, generates
    /// the next trial, adapts the timeout, and, when the new level closes a
    /// block, writes the block's tally into its still-empty ledger slot.
    fn conclude(&mut self, v: Outcome, entropy: &mut Entropy)
        requires
            old(self).wf(),
            !old(self).finished(),
        ensures
            final(self).wf(),
            concludes(*old(self), *final(self), v),
            final(self).last_tick_ms == old(self).last_tick_ms,
    {
        proof {
            lemma_div_succ(self.level as int, self.config.block_size as int);
            lemma_div_pos_is_pos(self.level as int, self.config.block_size as int);
            assert(self.tally.correct <= self.tally.total());
            assert(self.tally.wrong <= self.tally.total());
            assert(self.tally.missed <= self.tally.total());
        }
        match v {
            Outcome::Correct => {
                self.tally.correct = self.tally.correct + 1;
            },
            Outcome::Incorrect => {
                self.tally.wrong = self.tally.wrong + 1;
            },
            Outcome::Missed => {
                self.tally.missed = self.tally.missed + 1;
            },
        }
        let is_correct = match v {
            Outcome::Correct => true,
            _ => false,
        };
        match self.config.policy {
            TimeoutPolicy::Decay => {
                if is_correct {
                    self.timeout_ms = decay_timeout(self.timeout_ms);
                }
            },
            TimeoutPolicy::Stepped { .. } => {},
        }
        self.level = self.level + 1;
        self.elapsed_ms = 0;
        let (t, cand) = generate_trial(entropy, &self.config);
        self.target = t;
        self.candidates = cand;
        self.dwell_ms = zero_vec(self.config.k);
        let bs = self.config.block_size;
        if self.level % bs == 0 {
            proof {
                lemma_div_is_ordered(
                    self.level as int,
                    self.config.level_bound as int,
                    bs as int,
                );
            }
            let idx = (self.level / bs - 1) as usize;
            if self.ledger[idx].is_none() {
                self.ledger[idx] = Some(self.tally);
                self.tally = Tally::new();
            }
            match self.config.policy {
                TimeoutPolicy::Stepped { ref table } => {
                    let nb = (self.level / bs) as usize;
                    self.timeout_ms = if nb < table.len() {
                        table[nb]
                    } else {
                        0
                    };
                },
                TimeoutPolicy::Decay => {},
            }
        }
    }

    /// Handles a tick while the session is in progress.
    fn on_tick(&mut self, now_ms: u64, entropy: &mut Entropy)
        requires
            old(self).wf(),
            !old(self).finished(),
        ensures
            final(self).wf(),
            tick_rel(*old(self), *final(self), now_ms),
    {
        let delta = match self.last_tick_ms {
            None => 0u64,
            Some(l) => if now_ms >= l {
                now_ms - l
            } else {
                0u64
            },
        };
        self.last_tick_ms = Some(now_ms);
        self.elapsed_ms = sat_add_u64(self.elapsed_ms, delta);
        let mut concluded = false;
        if self.config.dwell_threshold_ms > 0 {
            match self.focus {
                Some(i) => {
                    let d1 = sat_add_u64(self.dwell_ms[i], delta);
                    self.dwell_ms[i] = d1;
                    if d1 > self.config.dwell_threshold_ms {
                        let v = if self.candidates[i] == self.target {
                            Outcome::Correct
                        } else {
                            Outcome::Incorrect
                        };
                        self.conclude(v, entropy);
                        concluded = true;
                    }
                },
                None => {},
            }
        }
        if !concluded && self.elapsed_ms > self.timeout_ms {
            self.conclude(Outcome::Missed, entropy);
        }
    }

    /// Handles a click while the session is in progress.
    fn on_click(&mut self, symbol: char, entropy: &mut Entropy)
        requires
            old(self).wf(),
            !old(self).finished(),
        ensures
            final(self).wf(),
            click_rel(*old(self), *final(self), symbol),
    {
        if self.config.dwell_threshold_ms > 0 {
            return;
        }
        match find_symbol(&self.candidates, symbol) {
            None => {},
            Some(_j) => {
                let v = if symbol == self.target {
                    Outcome::Correct
                } else {
                    Outcome::Incorrect
                };
                self.conclude(v, entropy);
            },
        }
    }

    /// Handles a pointer entry while the session is in progress.
    fn on_pointer_enter(&mut self, symbol: char)
        requires
            old(self).wf(),
            !old(self).finished(),
        ensures
            final(self).wf(),
            enter_rel(*old(self), *final(self), symbol),
    {
        if self.config.dwell_threshold_ms == 0 {
            return;
        }
        let mut already = false;
        match self.focus {
            Some(i) => {
                if self.candidates[i] == symbol {
                    already = true;
                }
            },
            None => {},
        }
        if already {
            return;
        }
        match find_symbol(&self.candidates, symbol) {
            None => {},
            Some(j) => {
                self.focus = Some(j);
                self.dwell_ms = zero_vec(self.config.k);
            },
        }
    }

    /// Handles a pointer exit while the session is in progress.
    fn on_pointer_exit(&mut self)
        requires
            old(self).wf(),
            !old(self).finished(),
        ensures
            final(self).wf(),
            exit_rel(*old(self), *final(self)),
    {
        self.focus = None;
        self.dwell_ms = zero_vec(self.config.k);
    }

    /// Starts the session over: every clock, tally, accumulator and ledger
    /// slot is cleared, the timeout returns to its configured initial
    /// value, and a fresh first trial is generated.
    fn on_reset(&mut self, entropy: &mut Entropy)
        requires
            old(self).wf(),
        ensures
            final(self).wf(),
            final(self).is_initial(old(self).config),
    {
        let (t, cand) = generate_trial(entropy, &self.config);
        self.target = t;
        self.candidates = cand;
        self.focus = None;
        self.dwell_ms = zero_vec(self.config.k);
        self.elapsed_ms = 0;
        self.timeout_ms = self.config.initial_timeout_ms;
        self.last_tick_ms = None;
        self.tally = Tally::new();
        let blocks = (self.config.level_bound / self.config.block_size) as usize;
        self.ledger = none_vec(blocks);
        self.level = 0;
    }

    /// The engine's single transition function.  `Reset` always restores
    /// the initial state; once the session is finished every other event is
    /// ignored; otherwise ticks advance the clock and may resolve or miss
    /// the trial, clicks resolve it in click mode, and pointer events steer
    /// dwell accumulation in dwell mode.
    pub fn apply(&mut self, event: Event, entropy: &mut Entropy)
        requires
            old(self).wf(),
        ensures
            final(self).wf(),
            apply_rel(*old(self), *final(self), event),
    {
        match event {
            Event::Reset => {
                self.on_reset(entropy);
            },
            _ => {
                if self.level >= self.config.level_bound {
                    return;
                }
                match event {
                    Event::Tick { now_ms } => self.on_tick(now_ms, entropy),
                    Event::Click { symbol } => self.on_click(symbol, entropy),
                    Event::PointerEnter { symbol } => self.on_pointer_enter(symbol),
                    Event::PointerExit => self.on_pointer_exit(),
                    Event::Reset => {},
                }
            },
        }
    }
}

} // verus!

//! Session-wide laws of the engine, proved from the transition relation
//! alone: tally conservation, the decay-policy timeout formula, and the
//! write-once ledger.

use vstd::prelude::*;
use crate::config::{DECAY_STEP_MS, DECAY_FLOOR_MS};
use crate::engine::{
    Engine,
    Event,
    Outcome,
    concludes,
    apply_rel,
    bump,
    delta_of,
    sat_add,
    lemma_div_succ,
};
use crate::tally::{
    recorded_correct,
    recorded_wrong,
    recorded_missed,
    lemma_recorded_update,
};

verus! {

/// Correct resolutions over the whole session: the live tally plus every
/// written ledger slot.
pub open spec fn total_correct(e: Engine) -> int {
    e.tally.correct + recorded_correct(e.ledger@)
}

/// Incorrect resolutions over the whole session.
pub open spec fn total_wrong(e: Engine) -> int {
    e.tally.wrong + recorded_wrong(e.ledger@)
}

/// Missed trials over the whole session.
pub open spec fn total_missed(e: Engine) -> int {
    e.tally.missed + recorded_missed(e.ledger@)
}

/// Tally conservation: one concluded trial steps exactly one of the three
/// session-wide counts up by one and leaves the other two unchanged,
/// whether or not the conclusion also finalized a block.
pub proof fn lemma_tally_conservation(pre: Engine, post: Engine, v: Outcome)
    requires
        pre.wf(),
        concludes(pre, post, v),
    ensures
        total_correct(post) == total_correct(pre) + if v is Correct {
            1int
        } else {
            0int
        },
        total_wrong(post) == total_wrong(pre) + if v is Incorrect {
            1int
        } else {
            0int
        },
        total_missed(post) == total_missed(pre) + if v is Missed {
            1int
        } else {
            0int
        },
{
    let lvl = pre.level as int + 1;
    let bs = pre.config.block_size as int;
    lemma_div_succ(pre.level as int, bs);
    if lvl % bs == 0 {
        let idx = lvl / bs - 1;
        assert(idx == pre.level as int / bs);
        assert(pre.ledger@[idx] is None);
        lemma_recorded_update(pre.ledger@, idx, bump(pre.tally, v));
    }
}

/// A conclusion never rewrites an already-written ledger slot: when it
/// finalizes a block, the slot it writes was still empty.
pub proof fn lemma_concludes_preserves_written(pre: Engine, post: Engine, v: Outcome)
    requires
        pre.wf(),
        concludes(pre, post, v),
    ensures
        forall|b: int|
            0 <= b < pre.ledger@.len() && (#[trigger] pre.ledger@[b]) is Some ==> post.ledger@[b]
                == pre.ledger@[b],
{
    let lvl = pre.level as int + 1;
    let bs = pre.config.block_size as int;
    lemma_div_succ(pre.level as int, bs);
    if lvl % bs == 0 {
        let idx = lvl / bs - 1;
        assert(pre.ledger@[idx] is None);
        assert forall|b: int|
            0 <= b < pre.ledger@.len() && (#[trigger] pre.ledger@[b]) is Some implies post.ledger@[b]
            == pre.ledger@[b] by {
            assert(b != idx);
        }
    }
}

/// Write-once ledger: a transition by any event other than `Reset` leaves
/// every already-written ledger slot exactly as it was, even when the same
/// block boundary condition holds over several ticks.
pub proof fn lemma_ledger_write_once(pre: Engine, post: Engine, ev: Event)
    requires
        pre.wf(),
        apply_rel(pre, post, ev),
        !(ev is Reset),
    ensures
        forall|b: int|
            0 <= b < pre.ledger@.len() && (#[trigger] pre.ledger@[b]) is Some ==> post.ledger@[b]
                == pre.ledger@[b],
{
    if !pre.finished() {
        match ev {
            Event::Tick { now_ms } => {
                let delta = delta_of(pre.last_tick_ms, now_ms);
                let e1 = sat_add(pre.elapsed_ms, delta);
                match pre.focus {
                    Some(i) => {
                        if pre.config.dwell_threshold_ms > 0 {
                            let d1 = sat_add(pre.dwell_ms@[i as int], delta);
                            if d1 > pre.config.dwell_threshold_ms {
                                let v = if pre.candidates@[i as int] == pre.target {
                                    Outcome::Correct
                                } else {
                                    Outcome::Incorrect
                                };
                                lemma_concludes_preserves_written(pre, post, v);
                            } else if e1 > pre.timeout_ms {
                                lemma_concludes_preserves_written(pre, post, Outcome::Missed);
                            }
                        } else if e1 > pre.timeout_ms {
                            lemma_concludes_preserves_written(pre, post, Outcome::Missed);
                        }
                    },
                    None => {
                        if e1 > pre.timeout_ms {
                            lemma_concludes_preserves_written(pre, post, Outcome::Missed);
                        }
                    },
                }
            },
            Event::Click { symbol } => {
                if pre.config.dwell_threshold_ms == 0 && pre.candidates@.contains(symbol) {
                    let v = if symbol == pre.target {
                        Outcome::Correct
                    } else {
                        Outcome::Incorrect
                    };
                    lemma_concludes_preserves_written(pre, post, v);
                }
            },
            _ => {},
        }
    }
}

/// The level never goes down within a session: a transition by any event
/// other than `Reset` keeps it or steps it up by one.
pub proof fn lemma_level_monotonic(pre: Engine, post: Engine, ev: Event)
    requires
        pre.wf(),
        apply_rel(pre, post, ev),
        !(ev is Reset),
    ensures
        pre.level <= post.level,
        post.level <= pre.level + 1,
{
}

/// When the session finishes, every ledger slot has been written: the
/// level bound is only reached after each block was finalized.
pub proof fn lemma_finished_ledger_complete(e: Engine)
    requires
        e.wf(),
        e.finished(),
    ensures
        forall|b: int| 0 <= b < e.ledger@.len() ==> (#[trigger] e.ledger@[b]) is Some,
{
    assert(e.level == e.config.level_bound);
}

/// Monotonic timeout under the decay policy: a chain of states linked by
/// consecutive correct resolutions, starting from a timeout of at least the
/// floor, ends with timeout `max(t0 - n * DECAY_STEP_MS, DECAY_FLOOR_MS)`
/// where `n` is the number of resolutions; in particular the timeout never
/// lengthens.
pub proof fn lemma_monotonic_timeout(states: Seq<Engine>)
    requires
        states.len() >= 1,
        states[0].config.policy is Decay,
        states[0].timeout_ms >= DECAY_FLOOR_MS,
        forall|i: int, j: int|
            0 <= i && j == i + 1 && j < states.len() ==> #[trigger] concludes(
                states[i],
                states[j],
                Outcome::Correct,
            ),
    ensures
        states.last().config.policy is Decay,
        states.last().timeout_ms as int == if states[0].timeout_ms - (states.len() - 1)
            * DECAY_STEP_MS >= DECAY_FLOOR_MS {
            states[0].timeout_ms - (states.len() - 1) * DECAY_STEP_MS
        } else {
            DECAY_FLOOR_MS as int
        },
        states.last().timeout_ms <= states[0].timeout_ms,
    decreases states.len(),
{
    if states.len() > 1 {
        let prefix = states.drop_last();
        assert forall|i: int, j: int|
            0 <= i && j == i + 1 && j < prefix.len() implies #[trigger] concludes(
            prefix[i],
            prefix[j],
            Outcome::Correct,
        ) by {
            assert(concludes(states[i], states[j], Outcome::Correct));
        }
        lemma_monotonic_timeout(prefix);
        let n = states.len() - 1;
        let pre = states[n - 1];
        let post = states[n];
        assert(concludes(states[n - 1], states[n], Outcome::Correct));
        assert(prefix.last() == pre);
    }
}

} // verus!

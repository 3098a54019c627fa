//! Dwell-mode behaviour: exclusive accumulation, the strict threshold,
//! focus carry-over, and exit discarding progress.

use gyro::config::Config;
use gyro::engine::{Engine, Event};
use gyro::entropy::Entropy;

fn tick(engine: &mut Engine, entropy: &mut Entropy, now_ms: u64) {
    engine.apply(Event::Tick { now_ms }, entropy);
}

fn enter(engine: &mut Engine, entropy: &mut Entropy, symbol: char) {
    engine.apply(Event::PointerEnter { symbol }, entropy);
}

fn exit(engine: &mut Engine, entropy: &mut Entropy) {
    engine.apply(Event::PointerExit, entropy);
}

#[test]
fn dwell_accumulates_on_the_focused_candidate() {
    let mut entropy = Entropy::new();
    let mut engine = Engine::new(Config::dwell_default(), &mut entropy);
    tick(&mut engine, &mut entropy, 1000);
    let vm = engine.snapshot();
    let pos = vm.candidates.iter().position(|&c| c == vm.target).unwrap();
    enter(&mut engine, &mut entropy, vm.target);
    tick(&mut engine, &mut entropy, 1400);
    let vm = engine.snapshot();
    assert_eq!(vm.dwell_ms[pos], 400);
    for (i, &d) in vm.dwell_ms.iter().enumerate() {
        if i != pos {
            assert_eq!(d, 0, "only the focused accumulator moves");
        }
    }
}

#[test]
fn dwell_is_exclusive_between_candidates() {
    let mut entropy = Entropy::new();
    let mut engine = Engine::new(Config::dwell_default(), &mut entropy);
    tick(&mut engine, &mut entropy, 1000);
    let vm = engine.snapshot();
    let a = vm.target;
    let pos_a = vm.candidates.iter().position(|&c| c == a).unwrap();
    let b = *vm.candidates.iter().find(|&&c| c != a).unwrap();
    let pos_b = vm.candidates.iter().position(|&c| c == b).unwrap();

    enter(&mut engine, &mut entropy, a);
    tick(&mut engine, &mut entropy, 1400);
    assert_eq!(engine.snapshot().dwell_ms[pos_a], 400);

    // Moving onto another candidate without an exit drops all credit.
    enter(&mut engine, &mut entropy, b);
    let vm = engine.snapshot();
    assert!(vm.dwell_ms.iter().all(|&d| d == 0), "entering a new candidate clears every accumulator");

    tick(&mut engine, &mut entropy, 1500);
    let vm = engine.snapshot();
    assert_eq!(vm.dwell_ms[pos_b], 100, "the new candidate starts from zero");
    assert_eq!(vm.dwell_ms[pos_a], 0, "no credit transfers from the old candidate");
}

#[test]
fn dwell_threshold_is_strict() {
    let mut entropy = Entropy::new();
    let mut engine = Engine::new(Config::dwell_default(), &mut entropy);
    tick(&mut engine, &mut entropy, 1000);
    let vm = engine.snapshot();
    let pos = vm.candidates.iter().position(|&c| c == vm.target).unwrap();
    enter(&mut engine, &mut entropy, vm.target);
    tick(&mut engine, &mut entropy, 1700);
    let vm = engine.snapshot();
    assert_eq!(vm.dwell_ms[pos], 700, "an accumulator exactly at the threshold does not resolve");
    assert_eq!(vm.level, 0);
    assert_eq!(vm.tally.correct, 0);
    tick(&mut engine, &mut entropy, 1701);
    let vm = engine.snapshot();
    assert_eq!(vm.level, 1, "one millisecond past the threshold resolves");
    assert_eq!(vm.tally.correct, 1);
    assert!(vm.dwell_ms.iter().all(|&d| d == 0));
    assert_eq!(vm.elapsed_ms, 0);
}

#[test]
fn focus_carries_over_to_the_next_trial() {
    let mut entropy = Entropy::new();
    let mut engine = Engine::new(Config::dwell_default(), &mut entropy);
    tick(&mut engine, &mut entropy, 1000);
    let vm = engine.snapshot();
    enter(&mut engine, &mut entropy, vm.target);
    tick(&mut engine, &mut entropy, 1701);
    assert_eq!(engine.snapshot().level, 1);

    // Without any new pointer event, dwell re-arms on the candidate now at
    // the same position.
    tick(&mut engine, &mut entropy, 2402);
    let vm = engine.snapshot();
    assert_eq!(vm.level, 2, "the second trial resolves from carried-over focus");
    let total = vm.tally.correct + vm.tally.wrong + vm.tally.missed;
    assert_eq!(total, 2);
}

#[test]
fn pointer_exit_discards_progress() {
    let mut entropy = Entropy::new();
    let mut engine = Engine::new(Config::dwell_default(), &mut entropy);
    tick(&mut engine, &mut entropy, 1000);
    let vm = engine.snapshot();
    let pos = vm.candidates.iter().position(|&c| c == vm.target).unwrap();
    enter(&mut engine, &mut entropy, vm.target);
    tick(&mut engine, &mut entropy, 1400);
    assert_eq!(engine.snapshot().dwell_ms[pos], 400);
    exit(&mut engine, &mut entropy);
    let vm = engine.snapshot();
    assert!(vm.dwell_ms.iter().all(|&d| d == 0), "exiting discards all dwell progress");
    tick(&mut engine, &mut entropy, 1800);
    let vm = engine.snapshot();
    assert!(vm.dwell_ms.iter().all(|&d| d == 0), "time without focus accumulates nowhere");
    assert_eq!(vm.level, 0);
    assert_eq!(vm.elapsed_ms, 800, "trial time still passes while unfocused");
}

#[test]
fn entering_an_absent_symbol_is_a_no_op() {
    let mut entropy = Entropy::new();
    let mut engine = Engine::new(Config::dwell_default(), &mut entropy);
    tick(&mut engine, &mut entropy, 1000);
    let before = engine.snapshot();
    assert!(!before.candidates.contains(&'?'));
    enter(&mut engine, &mut entropy, '?');
    let after = engine.snapshot();
    assert!(before == after, "pointer events for absent symbols are ignored");
}

#[test]
fn clicks_are_ignored_in_dwell_mode() {
    let mut entropy = Entropy::new();
    let mut engine = Engine::new(Config::dwell_default(), &mut entropy);
    let before = engine.snapshot();
    let target = before.target;
    engine.apply(Event::Click { symbol: target }, &mut entropy);
    let after = engine.snapshot();
    assert!(before == after, "a dwell-mode session does not resolve by click");
}

#[test]
fn reset_clears_dwell_state() {
    let mut entropy = Entropy::new();
    let mut engine = Engine::new(Config::dwell_default(), &mut entropy);
    tick(&mut engine, &mut entropy, 1000);
    let vm = engine.snapshot();
    enter(&mut engine, &mut entropy, vm.target);
    tick(&mut engine, &mut entropy, 1400);
    engine.apply(Event::Reset, &mut entropy);
    let vm = engine.snapshot();
    assert!(vm.dwell_ms.iter().all(|&d| d == 0));
    assert_eq!(vm.elapsed_ms, 0);
    assert_eq!(vm.level, 0);
    // After a reset the clock re-synchronizes: the next tick adds no time.
    tick(&mut engine, &mut entropy, 5000);
    assert_eq!(engine.snapshot().elapsed_ms, 0);
}

//! Click-mode behaviour: round generation, tallies, timeout policies,
//! reset, and ill-formed input.

use gyro::config::{alnum_alphabet, Config, TimeoutPolicy};
use gyro::engine::{Engine, Event, ViewModel};
use gyro::entropy::Entropy;

fn click(engine: &mut Engine, entropy: &mut Entropy, symbol: char) {
    engine.apply(Event::Click { symbol }, entropy);
}

fn tick(engine: &mut Engine, entropy: &mut Entropy, now_ms: u64) {
    engine.apply(Event::Tick { now_ms }, entropy);
}

/// A click-mode configuration with a stepped timeout table and room for
/// four blocks of ten trials.
fn stepped_click_config() -> Config {
    Config {
        alphabet: alnum_alphabet(),
        k: 4,
        dwell_threshold_ms: 0,
        initial_timeout_ms: 10000,
        policy: TimeoutPolicy::Stepped { table: vec![10000, 7000, 5000] },
        level_bound: 40,
        block_size: 10,
        filtered_decoys: true,
    }
}

fn count_target(vm: &ViewModel) -> usize {
    vm.candidates.iter().filter(|&&c| c == vm.target).count()
}

#[test]
fn initial_state_matches_config() {
    let mut entropy = Entropy::new();
    let engine = Engine::new(Config::dwell_default(), &mut entropy);
    let vm = engine.snapshot();
    assert_eq!(vm.level, 0);
    assert_eq!(vm.block, 0);
    assert_eq!(vm.trial_in_block, 0);
    assert_eq!(vm.tally.correct, 0);
    assert_eq!(vm.tally.wrong, 0);
    assert_eq!(vm.tally.missed, 0);
    assert_eq!(vm.elapsed_ms, 0);
    assert_eq!(vm.timeout_ms, 10000);
    assert_eq!(vm.remaining_ms, 10000);
    assert_eq!(vm.ledger.len(), 3);
    assert!(vm.ledger.iter().all(|s| s.is_none()));
    assert!(!vm.finished);
    assert_eq!(vm.candidates.len(), 4);
    assert_eq!(count_target(&vm), 1);
}

#[test]
fn target_present_exactly_once_across_rounds() {
    let mut entropy = Entropy::new();
    let mut engine = Engine::new(Config::click_default(), &mut entropy);
    for _ in 0..8 {
        let vm = engine.snapshot();
        assert_eq!(count_target(&vm), 1, "target must occur exactly once");
        assert!(vm.candidates.iter().all(|c| c.is_ascii_alphanumeric()));
        let target = vm.target;
        click(&mut engine, &mut entropy, target);
    }
    assert_eq!(engine.snapshot().tally.correct, 8);
}

#[test]
fn click_tallies_exactly_one_outcome() {
    let mut entropy = Entropy::new();
    let mut engine = Engine::new(Config::click_default(), &mut entropy);

    let vm = engine.snapshot();
    click(&mut engine, &mut entropy, vm.target);
    let vm = engine.snapshot();
    assert_eq!((vm.tally.correct, vm.tally.wrong, vm.tally.missed), (1, 0, 0));
    assert_eq!(vm.level, 1);

    let wrong = *vm.candidates.iter().find(|&&c| c != vm.target).unwrap();
    click(&mut engine, &mut entropy, wrong);
    let vm = engine.snapshot();
    assert_eq!((vm.tally.correct, vm.tally.wrong, vm.tally.missed), (1, 1, 0));
    assert_eq!(vm.level, 2);
}

#[test]
fn timeout_expiry_counts_as_missed() {
    let mut entropy = Entropy::new();
    let mut engine = Engine::new(Config::click_default(), &mut entropy);
    tick(&mut engine, &mut entropy, 1000);
    let vm = engine.snapshot();
    assert_eq!(vm.elapsed_ms, 0, "first tick only synchronizes the clock");
    tick(&mut engine, &mut entropy, 11000);
    let vm = engine.snapshot();
    assert_eq!(vm.elapsed_ms, 10000, "elapsed equal to the timeout is not a miss");
    assert_eq!(vm.tally.missed, 0);
    tick(&mut engine, &mut entropy, 11001);
    let vm = engine.snapshot();
    assert_eq!((vm.tally.correct, vm.tally.wrong, vm.tally.missed), (0, 0, 1));
    assert_eq!(vm.level, 1);
    assert_eq!(vm.elapsed_ms, 0, "a concluded trial restarts the clock");
}

#[test]
fn mixed_outcomes_conserve_tally() {
    let mut entropy = Entropy::new();
    let mut engine = Engine::new(Config::click_default(), &mut entropy);
    let vm = engine.snapshot();
    click(&mut engine, &mut entropy, vm.target);
    let vm = engine.snapshot();
    let wrong = *vm.candidates.iter().find(|&&c| c != vm.target).unwrap();
    click(&mut engine, &mut entropy, wrong);
    tick(&mut engine, &mut entropy, 1000);
    tick(&mut engine, &mut entropy, 12000);
    let vm = engine.snapshot();
    assert_eq!((vm.tally.correct, vm.tally.wrong, vm.tally.missed), (1, 1, 1));
    assert_eq!(vm.level, 3);
}

#[test]
fn decay_three_correct_resolutions() {
    let mut entropy = Entropy::new();
    let mut engine = Engine::new(Config::click_default(), &mut entropy);
    for _ in 0..3 {
        let target = engine.snapshot().target;
        click(&mut engine, &mut entropy, target);
    }
    assert_eq!(engine.snapshot().timeout_ms, 8500);
}

#[test]
fn decay_reaches_floor_and_stays() {
    let mut entropy = Entropy::new();
    let mut engine = Engine::new(Config::click_default(), &mut entropy);
    for _ in 0..20 {
        let target = engine.snapshot().target;
        click(&mut engine, &mut entropy, target);
    }
    assert_eq!(engine.snapshot().timeout_ms, 5000);
}

#[test]
fn decay_ignores_wrong_clicks() {
    let mut entropy = Entropy::new();
    let mut engine = Engine::new(Config::click_default(), &mut entropy);
    let vm = engine.snapshot();
    let wrong = *vm.candidates.iter().find(|&&c| c != vm.target).unwrap();
    click(&mut engine, &mut entropy, wrong);
    assert_eq!(engine.snapshot().timeout_ms, 10000);
}

#[test]
fn stepped_table_applies_on_block_entry() {
    let mut entropy = Entropy::new();
    let mut engine = Engine::new(stepped_click_config(), &mut entropy);
    for round in 0..30 {
        let vm = engine.snapshot();
        let expected = match round / 10 {
            0 => 10000,
            1 => 7000,
            _ => 5000,
        };
        assert_eq!(vm.timeout_ms, expected, "round {round}");
        let target = vm.target;
        click(&mut engine, &mut entropy, target);
    }
    let vm = engine.snapshot();
    assert_eq!(vm.level, 30);
    assert_eq!(vm.timeout_ms, 0, "past the table the timeout is zero");
    assert!(!vm.finished);
    tick(&mut engine, &mut entropy, 5);
    tick(&mut engine, &mut entropy, 6);
    let vm = engine.snapshot();
    assert_eq!(vm.tally.missed, 1, "any passing time past the table is an immediate miss");
}

#[test]
fn ledger_written_once_per_block() {
    let mut entropy = Entropy::new();
    let mut engine = Engine::new(stepped_click_config(), &mut entropy);
    for _ in 0..10 {
        let target = engine.snapshot().target;
        click(&mut engine, &mut entropy, target);
    }
    let vm = engine.snapshot();
    let first = vm.ledger[0].expect("block 0 must be finalized");
    assert_eq!((first.correct, first.wrong, first.missed), (10, 0, 0));
    assert_eq!(vm.tally.correct, 0, "the live tally restarts with the new block");
    assert!(vm.ledger[1].is_none());

    // Two more ticks while the block-boundary condition still holds must
    // not touch the written slot.
    tick(&mut engine, &mut entropy, 100);
    tick(&mut engine, &mut entropy, 200);
    let vm = engine.snapshot();
    let again = vm.ledger[0].expect("slot must stay written");
    assert_eq!((again.correct, again.wrong, again.missed), (10, 0, 0));
    assert_eq!(vm.tally.correct, 0);
}

#[test]
fn reset_restores_the_initial_state() {
    let mut entropy = Entropy::new();
    let mut engine = Engine::new(stepped_click_config(), &mut entropy);
    for _ in 0..12 {
        let target = engine.snapshot().target;
        click(&mut engine, &mut entropy, target);
    }
    tick(&mut engine, &mut entropy, 1000);
    tick(&mut engine, &mut entropy, 2000);
    engine.apply(Event::Reset, &mut entropy);
    let vm = engine.snapshot();
    assert_eq!(vm.level, 0);
    assert_eq!((vm.tally.correct, vm.tally.wrong, vm.tally.missed), (0, 0, 0));
    assert!(vm.ledger.iter().all(|s| s.is_none()));
    assert_eq!(vm.timeout_ms, 10000, "the timeout returns to the configured initial value");
    assert_eq!(vm.elapsed_ms, 0);
    assert!(!vm.finished);
}

#[test]
fn stale_click_changes_nothing() {
    let mut entropy = Entropy::new();
    let mut engine = Engine::new(Config::click_default(), &mut entropy);
    tick(&mut engine, &mut entropy, 1000);
    tick(&mut engine, &mut entropy, 1500);
    let before = engine.snapshot();
    assert!(!before.candidates.contains(&'!'));
    click(&mut engine, &mut entropy, '!');
    let after = engine.snapshot();
    assert!(before == after, "a click on an absent symbol is a no-op");
}

#[test]
fn clock_skew_clamps_to_zero() {
    let mut entropy = Entropy::new();
    let mut engine = Engine::new(Config::click_default(), &mut entropy);
    tick(&mut engine, &mut entropy, 1000);
    tick(&mut engine, &mut entropy, 500);
    let vm = engine.snapshot();
    assert_eq!(vm.elapsed_ms, 0, "a clock reading behind the last tick adds no time");
    tick(&mut engine, &mut entropy, 1500);
    let vm = engine.snapshot();
    assert_eq!(vm.elapsed_ms, 1000, "time then accumulates from the rewound reading");
}

#[test]
fn finished_session_accepts_only_reset() {
    let mut entropy = Entropy::new();
    let config = Config {
        alphabet: alnum_alphabet(),
        k: 4,
        dwell_threshold_ms: 0,
        initial_timeout_ms: 10000,
        policy: TimeoutPolicy::Decay,
        level_bound: 2,
        block_size: 1,
        filtered_decoys: true,
    };
    let mut engine = Engine::new(config, &mut entropy);
    for _ in 0..2 {
        let target = engine.snapshot().target;
        click(&mut engine, &mut entropy, target);
    }
    let vm = engine.snapshot();
    assert!(vm.finished);
    assert_eq!(vm.ledger.len(), 2);
    let (b0, b1) = (vm.ledger[0].unwrap(), vm.ledger[1].unwrap());
    assert_eq!((b0.correct, b0.wrong, b0.missed), (1, 0, 0));
    assert_eq!((b1.correct, b1.wrong, b1.missed), (1, 0, 0));

    let before = engine.snapshot();
    let target = before.target;
    click(&mut engine, &mut entropy, target);
    tick(&mut engine, &mut entropy, 99000);
    let after = engine.snapshot();
    assert!(before == after, "a finished session ignores everything but Reset");

    engine.apply(Event::Reset, &mut entropy);
    let vm = engine.snapshot();
    assert!(!vm.finished);
    assert_eq!(vm.level, 0);
}

use game_loop::Accumulator;
use game_loop::Clock;
use game_loop::OnceSlot;

#[test]
fn clock_first_sample_reports_zero() {
    let mut clock = Clock::new();
    assert_eq!(clock.sample(123_456), 0);
    assert_eq!(clock.last_sample_ns, 123_456);
}

#[test]
fn clock_reports_difference_between_samples() {
    let mut clock = Clock::new();
    clock.sample(100);
    assert_eq!(clock.sample(350), 250);
    assert_eq!(clock.sample(350), 0);
}

#[test]
fn clock_clamps_backward_step_to_zero() {
    let mut clock = Clock::new();
    clock.sample(1_000);
    assert_eq!(clock.sample(400), 0);
    assert_eq!(clock.last_sample_ns, 400);
    assert_eq!(clock.sample(500), 100);
}

#[test]
fn accumulator_absorbs_unclamped_elapsed() {
    let mut acc = Accumulator::new();
    let clamped = acc.absorb(70, 100);
    assert_eq!(clamped, 70);
    assert_eq!(acc.time_debt_ns, 70);
}

#[test]
fn accumulator_clamps_to_max_frame_time() {
    let mut acc = Accumulator::new();
    let clamped = acc.absorb(250_000_000, 100_000_000);
    assert_eq!(clamped, 100_000_000);
    assert_eq!(acc.time_debt_ns, 100_000_000);
}

#[test]
fn accumulator_drains_in_fixed_steps() {
    let mut acc = Accumulator::new();
    acc.absorb(95, 1_000);
    assert!(acc.step_ready(30));
    acc.consume(30);
    acc.consume(30);
    acc.consume(30);
    assert_eq!(acc.time_debt_ns, 5);
    assert!(!acc.step_ready(30));
}

#[test]
fn once_slot_starts_empty() {
    let slot: OnceSlot<u32> = OnceSlot::empty();
    assert!(!slot.is_set());
    assert!(slot.get().is_none());
}

#[test]
fn once_slot_holds_single_assignment() {
    let mut slot: OnceSlot<u32> = OnceSlot::empty();
    slot.set(17);
    assert!(slot.is_set());
    assert_eq!(slot.get(), Some(&17));
}

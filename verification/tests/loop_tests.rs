use game_loop::GameLoop;
use game_loop::LoopState;
use game_loop::RenderFn;
use game_loop::UpdateFn;

/// Simulation payload counting the callback invocations it received.
#[derive(Default)]
struct Counters {
    updates: u64,
    renders: u64,
}

struct CountUpdate;

impl<W> UpdateFn<Counters, W> for CountUpdate {
    fn update(&mut self, game_loop: &mut GameLoop<Counters, W>) {
        game_loop.game.updates += 1;
    }
}

struct CountRender;

impl<W> RenderFn<Counters, W> for CountRender {
    fn render(&mut self, game_loop: &mut GameLoop<Counters, W>) {
        game_loop.game.renders += 1;
    }
}

struct ExitingUpdate;

impl<W> UpdateFn<Counters, W> for ExitingUpdate {
    fn update(&mut self, game_loop: &mut GameLoop<Counters, W>) {
        game_loop.game.updates += 1;
        game_loop.exit();
    }
}

struct ExitingRender;

impl<W> RenderFn<Counters, W> for ExitingRender {
    fn render(&mut self, game_loop: &mut GameLoop<Counters, W>) {
        game_loop.game.renders += 1;
        game_loop.exit();
    }
}

/// Retunes the update rate on its first invocation, then counts like
/// `CountUpdate`.
struct RetuningUpdate {
    retuned: bool,
    new_ups: u32,
}

impl<W> UpdateFn<Counters, W> for RetuningUpdate {
    fn update(&mut self, game_loop: &mut GameLoop<Counters, W>) {
        if !self.retuned {
            self.retuned = true;
            game_loop.set_updates_per_second(self.new_ups);
        }
        game_loop.game.updates += 1;
    }
}

fn fresh(ups: u32, max_frame_ns: u64) -> GameLoop<Counters, ()> {
    GameLoop::new(Counters::default(), (), ups, max_frame_ns)
}

#[test]
fn new_loop_starts_running_with_zeroed_counters() {
    let gl = fresh(60, 100_000_000);
    assert_eq!(gl.state(), LoopState::Running);
    assert_eq!(gl.updates_per_second(), 60);
    assert_eq!(gl.fixed_time_step_ns(), 16_666_666);
    assert_eq!(gl.max_frame_time_ns(), 100_000_000);
    assert_eq!(gl.number_of_updates(), 0);
    assert_eq!(gl.number_of_renders(), 0);
    assert_eq!(gl.total_time_elapsed_ns(), 0);
    assert_eq!(gl.accumulated_time_ns(), 0);
    assert!(!gl.window_occluded());
    assert!(gl.can_advance());
}

#[test]
fn one_second_at_sixty_hertz_yields_sixty_updates() {
    let mut gl = fresh(60, 2_000_000_000);
    let (mut u, mut r) = (CountUpdate, CountRender);
    assert!(gl.next_frame(&mut u, &mut r, 0));
    assert!(gl.next_frame(&mut u, &mut r, 1_000_000_000));
    assert_eq!(gl.number_of_updates(), 60);
    assert_eq!(gl.game.updates, 60);
    let (numer, denom) = gl.blending_factor_parts();
    assert_eq!(denom, 16_666_666);
    assert_eq!(numer, 1_000_000_000 - 60 * 16_666_666);
    assert!(numer < denom);
}

#[test]
fn clamped_frame_yields_single_update_and_zero_blending() {
    let mut gl = fresh(10, 100_000_000);
    let (mut u, mut r) = (CountUpdate, CountRender);
    assert!(gl.next_frame(&mut u, &mut r, 0));
    assert!(gl.next_frame(&mut u, &mut r, 250_000_000));
    assert_eq!(gl.last_frame_time_ns(), 100_000_000);
    assert_eq!(gl.number_of_updates(), 1);
    assert_eq!(gl.blending_factor_parts(), (0, 100_000_000));
}

#[test]
fn zero_elapsed_yields_no_update_and_one_render() {
    let mut gl = fresh(60, 100_000_000);
    let (mut u, mut r) = (CountUpdate, CountRender);
    assert!(gl.next_frame(&mut u, &mut r, 5_000));
    assert!(gl.next_frame(&mut u, &mut r, 5_000));
    assert_eq!(gl.number_of_updates(), 0);
    assert_eq!(gl.game.updates, 0);
    assert_eq!(gl.number_of_renders(), 2);
    assert_eq!(gl.game.renders, 2);
}

#[test]
fn lockstep_feeding_never_drifts_update_count() {
    let step: u64 = 16_666_666;
    let mut gl = fresh(60, 1_000_000_000);
    let (mut u, mut r) = (CountUpdate, CountRender);
    let mut now: u64 = 0;
    assert!(gl.next_frame(&mut u, &mut r, now));
    for i in 1..=1000u64 {
        now += step;
        assert!(gl.can_advance());
        assert!(gl.next_frame(&mut u, &mut r, now));
        assert_eq!(gl.number_of_updates(), i);
        assert_eq!(gl.blending_factor_parts(), (0, step));
        assert_eq!(gl.total_time_elapsed_ns(), i * step);
    }
}

#[test]
fn exit_during_update_still_renders_then_stops() {
    let mut gl = fresh(10, 1_000_000_000);
    let (mut e, mut r) = (ExitingUpdate, CountRender);
    assert!(gl.next_frame(&mut e, &mut r, 0));
    assert_eq!(gl.number_of_renders(), 1);
    assert!(!gl.next_frame(&mut e, &mut r, 100_000_000));
    assert_eq!(gl.game.updates, 1);
    assert_eq!(gl.number_of_renders(), 2);
    assert_eq!(gl.game.renders, 2);
    assert_eq!(gl.state(), LoopState::ExitRequested);
    assert!(!gl.next_frame(&mut e, &mut r, 200_000_000));
    assert_eq!(gl.state(), LoopState::Stopped);
    assert_eq!(gl.number_of_renders(), 2);
    assert!(!gl.next_frame(&mut e, &mut r, 300_000_000));
    assert_eq!(gl.number_of_renders(), 2);
    assert_eq!(gl.number_of_updates(), 1);
}

#[test]
fn exit_during_render_finishes_the_frame() {
    let mut gl = fresh(10, 1_000_000_000);
    let (mut u, mut r) = (CountUpdate, ExitingRender);
    assert!(!gl.next_frame(&mut u, &mut r, 0));
    assert_eq!(gl.game.renders, 1);
    assert_eq!(gl.number_of_renders(), 1);
    assert!(!gl.next_frame(&mut u, &mut r, 100_000_000));
    assert_eq!(gl.number_of_renders(), 1);
}

#[test]
fn exit_before_any_frame_stops_without_callbacks() {
    let mut gl = fresh(60, 100_000_000);
    gl.exit();
    assert_eq!(gl.state(), LoopState::ExitRequested);
    let (mut u, mut r) = (CountUpdate, CountRender);
    assert!(!gl.next_frame(&mut u, &mut r, 1_000_000));
    assert_eq!(gl.state(), LoopState::Stopped);
    assert_eq!(gl.number_of_updates(), 0);
    assert_eq!(gl.number_of_renders(), 0);
}

#[test]
fn retune_takes_effect_at_next_drain_check_in_same_frame() {
    // At 30 updates per second the step is 33_333_333 ns. A tenth of a second
    // of debt drains once at the old rate; the first update retunes to 60, so
    // the remaining 66_666_667 ns drain in four steps of 16_666_666 ns.
    let mut gl = fresh(30, 1_000_000_000);
    let mut u = RetuningUpdate { retuned: false, new_ups: 60 };
    let mut r = CountRender;
    assert!(gl.next_frame(&mut u, &mut r, 0));
    assert!(gl.next_frame(&mut u, &mut r, 100_000_000));
    assert_eq!(gl.updates_per_second(), 60);
    assert_eq!(gl.fixed_time_step_ns(), 16_666_666);
    assert_eq!(gl.number_of_updates(), 5);
    assert_eq!(gl.game.updates, 5);
    assert_eq!(gl.total_time_elapsed_ns(), 33_333_333 + 4 * 16_666_666);
    assert_eq!(gl.blending_factor_parts(), (3, 16_666_666));
}

#[test]
fn accounting_holds_over_irregular_samples() {
    let step: u64 = 16_666_666;
    let max_frame: u64 = 50_000_000;
    let mut gl = fresh(60, max_frame);
    let (mut u, mut r) = (CountUpdate, CountRender);
    let deltas: [u64; 7] = [5_000_000, 70_000_000, 0, 123_456_789, 16_666_666, 999, 49_999_999];
    let mut now: u64 = 0;
    let mut clamped_total: u64 = 0;
    assert!(gl.next_frame(&mut u, &mut r, now));
    for delta in deltas {
        now += delta;
        clamped_total += delta.min(max_frame);
        assert!(gl.next_frame(&mut u, &mut r, now));
        // No time is lost except what the clamp discarded, and every update
        // consumed exactly one fixed step.
        assert_eq!(gl.total_time_elapsed_ns() + gl.accumulated_time_ns(), clamped_total);
        assert_eq!(gl.total_time_elapsed_ns(), gl.number_of_updates() * step);
        assert!(gl.accumulated_time_ns() < step);
    }
    assert_eq!(gl.number_of_updates(), clamped_total / step);
}

#[test]
fn occlusion_hint_never_affects_update_cadence() {
    let mut gl = fresh(10, 1_000_000_000);
    gl.set_window_occluded(true);
    assert!(gl.window_occluded());
    let (mut u, mut r) = (CountUpdate, CountRender);
    assert!(gl.next_frame(&mut u, &mut r, 0));
    assert!(gl.next_frame(&mut u, &mut r, 300_000_000));
    assert_eq!(gl.number_of_updates(), 3);
    assert_eq!(gl.number_of_renders(), 2);
    gl.set_window_occluded(false);
    assert!(!gl.window_occluded());
}

#[test]
fn backward_timestamp_counts_as_zero_elapsed() {
    let mut gl = fresh(60, 100_000_000);
    let (mut u, mut r) = (CountUpdate, CountRender);
    assert!(gl.next_frame(&mut u, &mut r, 1_000_000_000));
    assert!(gl.next_frame(&mut u, &mut r, 400_000_000));
    assert_eq!(gl.number_of_updates(), 0);
    assert_eq!(gl.number_of_renders(), 2);
    assert_eq!(gl.last_frame_time_ns(), 0);
}

#[test]
fn exit_on_a_stopped_loop_keeps_it_stopped() {
    let mut gl = fresh(60, 100_000_000);
    gl.exit();
    let (mut u, mut r) = (CountUpdate, CountRender);
    assert!(!gl.next_frame(&mut u, &mut r, 0));
    assert_eq!(gl.state(), LoopState::Stopped);
    gl.exit();
    assert_eq!(gl.state(), LoopState::Stopped);
}

#[test]
fn window_slot_travels_with_the_loop() {
    let mut gl: GameLoop<Counters, game_loop::OnceSlot<String>> = GameLoop::new(
        Counters::default(),
        game_loop::OnceSlot::empty(),
        60,
        100_000_000,
    );
    assert!(!gl.window.is_set());
    gl.window.set(String::from("surface"));
    let (mut u, mut r) = (CountUpdate, CountRender);
    assert!(gl.next_frame(&mut u, &mut r, 0));
    assert_eq!(gl.window.get(), Some(&String::from("surface")));
}

#[test]
fn max_frame_time_is_retunable() {
    let mut gl = fresh(10, 100_000_000);
    gl.set_max_frame_time_ns(200_000_000);
    assert_eq!(gl.max_frame_time_ns(), 200_000_000);
    let (mut u, mut r) = (CountUpdate, CountRender);
    assert!(gl.next_frame(&mut u, &mut r, 0));
    assert!(gl.next_frame(&mut u, &mut r, 250_000_000));
    assert_eq!(gl.last_frame_time_ns(), 200_000_000);
    assert_eq!(gl.number_of_updates(), 2);
}

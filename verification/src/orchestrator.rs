//! The loop orchestrator: owns the simulation payload, the clock, the
//! accumulator and the frame counters, and exposes the single per-frame
//! operation that runs zero or more fixed-step updates followed by exactly one
//! render.

use vstd::arithmetic::mul::lemma_mul_inequality;
use vstd::prelude::*;
use crate::accumulator::Accumulator;
use crate::clock::Clock;

verus! {

/// One second, in nanoseconds. Also the largest admissible update rate (one
/// update per nanosecond) and so the largest possible fixed time step.
pub const NANOS_PER_SECOND: u64 = 1_000_000_000;

/// Lifecycle of the loop. `exit` moves a running loop to `ExitRequested`; the
/// per-frame operation observes that state at entry, moves to `Stopped` and
/// reports a stop signal without running update or render.
#[derive(Clone, Copy, Debug, PartialEq, Eq, Structural)]
pub enum LoopState {
    Running,
    ExitRequested,
    Stopped,
}

/// Mathematical model of a `GameLoop`, exposed through its view. All durations
/// are nanoseconds.
pub ghost struct LoopModel {
    /// Lifecycle state.
    pub state: LoopState,
    /// Updates per second; the fixed step is derived from it.
    pub ups: nat,
    /// The fixed time step, `1_000_000_000 / ups`.
    pub step_ns: nat,
    /// Upper clamp on a single frame's contribution to the time debt.
    pub max_frame_ns: nat,
    /// Hint that the attached surface is occluded; never affects scheduling.
    pub occluded: bool,
    /// How many updates have run.
    pub updates: nat,
    /// How many renders have run.
    pub renders: nat,
    /// Simulated time: the sum of all consumed steps.
    pub total_ns: nat,
    /// Unspent time debt held by the accumulator.
    pub debt_ns: nat,
    /// The clamped elapsed duration of the most recent frame.
    pub last_frame_ns: nat,
    /// Numerator of the render interpolation fraction: the debt left after the
    /// most recent frame's drain.
    pub blend_numer_ns: nat,
    /// Denominator of the render interpolation fraction: the fixed step in
    /// force after the most recent frame's drain.
    pub blend_denom_ns: nat,
    /// Whether the clock has taken a first sample.
    pub clock_started: bool,
    /// The clock's most recent timestamp.
    pub clock_last_ns: nat,
    /// The size of every step consumed so far, in order.
    pub consumed: Seq<nat>,
}

/// The sum of a sequence of step sizes.
pub open spec fn sum_ns(s: Seq<nat>) -> nat
    decreases s.len(),
{
    if s.len() == 0 {
        0
    } else {
        sum_ns(s.drop_last()) + s.last()
    }
}

/// The elapsed duration the clock reports for a frame entered at `now_ns`.
pub open spec fn spec_elapsed_ns(m: LoopModel, now_ns: nat) -> nat {
    if !m.clock_started {
        0
    } else if now_ns >= m.clock_last_ns {
        (now_ns - m.clock_last_ns) as nat
    } else {
        0
    }
}

/// The contribution of a frame entered at `now_ns` to the time debt: the
/// elapsed duration, clamped to the configured maximum frame time.
pub open spec fn spec_clamped_ns(m: LoopModel, now_ns: nat) -> nat {
    if spec_elapsed_ns(m, now_ns) > m.max_frame_ns {
        m.max_frame_ns
    } else {
        spec_elapsed_ns(m, now_ns)
    }
}

/// Holds between the loop as a callback found it and as the callback left it:
/// a callback may mutate the payload, the attached resource, the lifecycle
/// state and the configuration knobs, but the frame bookkeeping (counters,
/// time debt, clock, interpolation fraction) belongs to the loop alone.
pub open spec fn timing_preserved<G, W>(pre: GameLoop<G, W>, post: GameLoop<G, W>) -> bool {
    &&& post@.updates == pre@.updates
    &&& post@.renders == pre@.renders
    &&& post@.total_ns == pre@.total_ns
    &&& post@.debt_ns == pre@.debt_ns
    &&& post@.last_frame_ns == pre@.last_frame_ns
    &&& post@.blend_numer_ns == pre@.blend_numer_ns
    &&& post@.blend_denom_ns == pre@.blend_denom_ns
    &&& post@.clock_started == pre@.clock_started
    &&& post@.clock_last_ns == pre@.clock_last_ns
    &&& post@.consumed == pre@.consumed
}

/// Holds between the loop as a callback found it and as the callback left it
/// when the callback promises to steer nothing: the lifecycle state and the
/// configuration knobs are unchanged.
pub open spec fn config_preserved<G, W>(pre: GameLoop<G, W>, post: GameLoop<G, W>) -> bool {
    &&& post@.state == pre@.state
    &&& post@.ups == pre@.ups
    &&& post@.step_ns == pre@.step_ns
    &&& post@.max_frame_ns == pre@.max_frame_ns
}

/// The simulation step callback. Invoked once per consumed fixed step, with
/// exclusive mutable access to the loop; it may mutate the payload, request
/// exit or retune the update rate, but must leave the frame bookkeeping to the
/// loop itself and must not re-enter the per-frame operation.
pub trait UpdateFn<G, W> {
    /// Whether this callback promises to leave the lifecycle state and the
    /// configuration knobs alone. For such callbacks the per-frame operation
    /// promises the exact update count and residual debt. False unless a
    /// verified implementation overrides it with that promise.
    open spec fn keeps_config() -> bool {
        false
    }

    fn update(&mut self, game_loop: &mut GameLoop<G, W>)
        requires
            old(game_loop).wf(),
        ensures
            final(game_loop).wf(),
            timing_preserved(*old(game_loop), *final(game_loop)),
            Self::keeps_config() ==> config_preserved(*old(game_loop), *final(game_loop)),
    ;
}

/// The render callback. Invoked exactly once per frame, after the drain, with
/// the interpolation fraction available for reading; the same discipline as
/// for `UpdateFn` applies.
pub trait RenderFn<G, W> {
    /// As for `UpdateFn::keeps_config`.
    open spec fn keeps_config() -> bool {
        false
    }

    fn render(&mut self, game_loop: &mut GameLoop<G, W>)
        requires
            old(game_loop).wf(),
        ensures
            final(game_loop).wf(),
            timing_preserved(*old(game_loop), *final(game_loop)),
            Self::keeps_config() ==> config_preserved(*old(game_loop), *final(game_loop)),
    ;
}

/// Handler for host events the loop does not interpret itself: an adapter
/// forwards them verbatim. `E` is the host's event type.
pub trait HandlerFn<G, W, E> {
    fn handle(&mut self, game_loop: &mut GameLoop<G, W>, event: &E)
        requires
            old(game_loop).wf(),
        ensures
            final(game_loop).wf(),
            timing_preserved(*old(game_loop), *final(game_loop)),
    ;
}

/// Builds the lazily attached resource (for instance a display surface) on
/// first activation, exactly once, before any per-frame call. `C` is the
/// host's creation context and `T` the resource it yields.
pub trait InitFn<G, W, C, T> {
    fn init(&mut self, game_loop: &mut GameLoop<G, W>, host: &C) -> (resource: T)
        requires
            old(game_loop).wf(),
        ensures
            final(game_loop).wf(),
            timing_preserved(*old(game_loop), *final(game_loop)),
    ;
}

/// The loop orchestrator. `G` is the simulation payload, owned exclusively for
/// the loop's lifetime; `W` is an attached resource handle (for instance a
/// window), opaque to the loop itself.
pub struct GameLoop<G, W> {
    /// The simulation payload.
    pub game: G,
    /// The attached resource handle.
    pub window: W,
    clock: Clock,
    accumulator: Accumulator,
    updates_per_second: u32,
    fixed_time_step_ns: u64,
    max_frame_time_ns: u64,
    state: LoopState,
    window_occluded: bool,
    number_of_updates: u64,
    number_of_renders: u64,
    total_time_elapsed_ns: u64,
    last_frame_time_ns: u64,
    blend_numer_ns: u64,
    blend_denom_ns: u64,
    consumed: Ghost<Seq<nat>>,
}

impl<G, W> View for GameLoop<G, W> {
    type V = LoopModel;

    closed spec fn view(&self) -> LoopModel {
        LoopModel {
            state: self.state,
            ups: self.updates_per_second as nat,
            step_ns: self.fixed_time_step_ns as nat,
            max_frame_ns: self.max_frame_time_ns as nat,
            occluded: self.window_occluded,
            updates: self.number_of_updates as nat,
            renders: self.number_of_renders as nat,
            total_ns: self.total_time_elapsed_ns as nat,
            debt_ns: self.accumulator.time_debt_ns as nat,
            last_frame_ns: self.last_frame_time_ns as nat,
            blend_numer_ns: self.blend_numer_ns as nat,
            blend_denom_ns: self.blend_denom_ns as nat,
            clock_started: self.clock.started,
            clock_last_ns: self.clock.last_sample_ns as nat,
            consumed: self.consumed@,
        }
    }
}

impl<G, W> GameLoop<G, W> {
    /// The simulation payload, as seen by contracts.
    pub closed spec fn spec_game(self) -> G {
        self.game
    }

    /// The attached resource handle, as seen by contracts.
    pub closed spec fn spec_window(self) -> W {
        self.window
    }

    /// Well-formedness: the update rate is a positive number of updates per
    /// second at nanosecond resolution, the fixed step is derived from it, the
    /// frame-time clamp leaves headroom for one second of debt, the counters
    /// agree with the record of consumed steps, and the interpolation fraction
    /// is a proper fraction.
    pub open spec fn wf(self) -> bool {
        let m = self@;
        &&& 1 <= m.ups <= NANOS_PER_SECOND
        &&& m.step_ns == NANOS_PER_SECOND as nat / m.ups
        &&& 1 <= m.step_ns <= NANOS_PER_SECOND
        &&& m.max_frame_ns <= u64::MAX - NANOS_PER_SECOND
        &&& m.updates == m.consumed.len()
        &&& m.total_ns == sum_ns(m.consumed)
        &&& (forall|i: int| 0 <= i < m.consumed.len() ==> 1 <= #[trigger] m.consumed[i] <= NANOS_PER_SECOND)
        &&& m.blend_numer_ns < m.blend_denom_ns
        &&& m.blend_denom_ns <= NANOS_PER_SECOND
    }

    proof fn lemma_step_in_range(ups: u64)
        requires
            1 <= ups <= NANOS_PER_SECOND,
        ensures
            1 <= NANOS_PER_SECOND as nat / ups as nat <= NANOS_PER_SECOND,
    {
        let n = NANOS_PER_SECOND as nat;
        let u = ups as nat;
        assert(n / u >= 1 && n / u <= n) by (nonlinear_arith)
            requires 1 <= u <= n,
        ;
    }

    /// Build a loop around `game` with the attached resource `window`. The
    /// update rate must be positive (a zero rate is a caller contract
    /// violation) and at most one update per nanosecond; the frame-time clamp
    /// must leave one second of headroom below the largest representable
    /// duration.
    pub fn new(game: G, window: W, updates_per_second: u32, max_frame_time_ns: u64) -> (game_loop: GameLoop<G, W>)
        requires
            1 <= updates_per_second <= NANOS_PER_SECOND,
            max_frame_time_ns <= u64::MAX - NANOS_PER_SECOND,
        ensures
            game_loop.wf(),
            game_loop.spec_game() == game,
            game_loop.spec_window() == window,
            game_loop@.state is Running,
            game_loop@.ups == updates_per_second,
            game_loop@.step_ns == NANOS_PER_SECOND as nat / updates_per_second as nat,
            game_loop@.max_frame_ns == max_frame_time_ns,
            !game_loop@.occluded,
            game_loop@.updates == 0,
            game_loop@.renders == 0,
            game_loop@.total_ns == 0,
            game_loop@.debt_ns == 0,
            game_loop@.last_frame_ns == 0,
            game_loop@.blend_numer_ns == 0,
            game_loop@.blend_denom_ns == game_loop@.step_ns,
            !game_loop@.clock_started,
            game_loop@.consumed == Seq::<nat>::empty(),
    {
        proof {
            Self::lemma_step_in_range(updates_per_second as u64);
        }
        let fixed_time_step_ns: u64 = NANOS_PER_SECOND / (updates_per_second as u64);
        GameLoop {
            game,
            window,
            clock: Clock::new(),
            accumulator: Accumulator::new(),
            updates_per_second,
            fixed_time_step_ns,
            max_frame_time_ns,
            state: LoopState::Running,
            window_occluded: false,
            number_of_updates: 0,
            number_of_renders: 0,
            total_time_elapsed_ns: 0,
            last_frame_time_ns: 0,
            blend_numer_ns: 0,
            blend_denom_ns: fixed_time_step_ns,
            consumed: Ghost(Seq::empty()),
        }
    }

    /// Request a cooperative stop: the next per-frame call will observe the
    /// request and signal stop without running update or render. A loop that
    /// has already stopped stays stopped.
    pub fn exit(&mut self)
        ensures
            final(self)@ == (LoopModel {
                state: if old(self)@.state is Stopped { LoopState::Stopped } else { LoopState::ExitRequested },
                ..old(self)@
            }),
            final(self).spec_game() == old(self).spec_game(),
            final(self).spec_window() == old(self).spec_window(),
            old(self).wf() ==> final(self).wf(),
    {
        match self.state {
            LoopState::Stopped => {}
            _ => {
                self.state = LoopState::ExitRequested;
            }
        }
    }

    /// Retune the update rate. The fixed time step is recomputed immediately:
    /// when called from an update callback, the very next drain check in the
    /// same frame already uses the new step.
    pub fn set_updates_per_second(&mut self, updates_per_second: u32)
        requires
            1 <= updates_per_second <= NANOS_PER_SECOND,
        ensures
            final(self)@ == (LoopModel {
                ups: updates_per_second as nat,
                step_ns: NANOS_PER_SECOND as nat / updates_per_second as nat,
                ..old(self)@
            }),
            final(self).spec_game() == old(self).spec_game(),
            final(self).spec_window() == old(self).spec_window(),
            old(self).wf() ==> final(self).wf(),
    {
        proof {
            Self::lemma_step_in_range(updates_per_second as u64);
        }
        self.updates_per_second = updates_per_second;
        self.fixed_time_step_ns = NANOS_PER_SECOND / (updates_per_second as u64);
    }

    /// Retune the clamp on a single frame's contribution to the time debt.
    pub fn set_max_frame_time_ns(&mut self, max_frame_time_ns: u64)
        requires
            max_frame_time_ns <= u64::MAX - NANOS_PER_SECOND,
        ensures
            final(self)@ == (LoopModel { max_frame_ns: max_frame_time_ns as nat, ..old(self)@ }),
            final(self).spec_game() == old(self).spec_game(),
            final(self).spec_window() == old(self).spec_window(),
            old(self).wf() ==> final(self).wf(),
    {
        self.max_frame_time_ns = max_frame_time_ns;
    }

    /// Record the host's hint that the attached surface is occluded. The hint
    /// never affects the update cadence; an adapter may use it to skip
    /// presentation.
    pub fn set_window_occluded(&mut self, occluded: bool)
        ensures
            final(self)@ == (LoopModel { occluded, ..old(self)@ }),
            final(self).spec_game() == old(self).spec_game(),
            final(self).spec_window() == old(self).spec_window(),
            old(self).wf() ==> final(self).wf(),
    {
        self.window_occluded = occluded;
    }

    pub fn state(&self) -> (state: LoopState)
        ensures
            state == self@.state,
    {
        self.state
    }

    pub fn updates_per_second(&self) -> (ups: u32)
        ensures
            ups == self@.ups,
    {
        self.updates_per_second
    }

    pub fn fixed_time_step_ns(&self) -> (step_ns: u64)
        ensures
            step_ns == self@.step_ns,
    {
        self.fixed_time_step_ns
    }

    pub fn max_frame_time_ns(&self) -> (max_ns: u64)
        ensures
            max_ns == self@.max_frame_ns,
    {
        self.max_frame_time_ns
    }

    pub fn window_occluded(&self) -> (occluded: bool)
        ensures
            occluded == self@.occluded,
    {
        self.window_occluded
    }

    pub fn number_of_updates(&self) -> (updates: u64)
        ensures
            updates == self@.updates,
    {
        self.number_of_updates
    }

    pub fn number_of_renders(&self) -> (renders: u64)
        ensures
            renders == self@.renders,
    {
        self.number_of_renders
    }

    /// The simulated time so far: every update advanced it by exactly the
    /// fixed step in force when that update was scheduled.
    pub fn total_time_elapsed_ns(&self) -> (total_ns: u64)
        ensures
            total_ns == self@.total_ns,
    {
        self.total_time_elapsed_ns
    }

    pub fn last_frame_time_ns(&self) -> (last_ns: u64)
        ensures
            last_ns == self@.last_frame_ns,
    {
        self.last_frame_time_ns
    }

    pub fn accumulated_time_ns(&self) -> (debt_ns: u64)
        ensures
            debt_ns == self@.debt_ns,
    {
        self.accumulator.time_debt_ns
    }

    /// The render interpolation fraction as a numerator and denominator:
    /// the fraction of one step's worth of extra time not yet simulated, in
    /// `[0, 1)`, for the renderer to interpolate between the last two
    /// simulated states.
    pub fn blending_factor_parts(&self) -> (parts: (u64, u64))
        ensures
            parts.0 == self@.blend_numer_ns,
            parts.1 == self@.blend_denom_ns,
            self.wf() ==> parts.0 < parts.1,
    {
        (self.blend_numer_ns, self.blend_denom_ns)
    }

    /// Whether the counters and totals leave the headroom the per-frame
    /// operation asks for. True for any realistic run (the totals would have
    /// to approach the largest representable duration to exhaust it); a host
    /// adapter checks it before each frame.
    pub fn can_advance(&self) -> (ready: bool)
        requires
            self.wf(),
        ensures
            ready == {
                &&& self@.debt_ns < NANOS_PER_SECOND
                &&& self@.updates + NANOS_PER_SECOND + self@.max_frame_ns <= u64::MAX
                &&& self@.total_ns + NANOS_PER_SECOND + self@.max_frame_ns <= u64::MAX
                &&& self@.renders < u64::MAX
            },
    {
        let limit = u64::MAX - NANOS_PER_SECOND - self.max_frame_time_ns;
        self.accumulator.time_debt_ns < NANOS_PER_SECOND
            && self.number_of_updates <= limit
            && self.total_time_elapsed_ns <= limit
            && self.number_of_renders < u64::MAX
    }

    /// The per-frame operation. In a running loop it samples the clock, clamps
    /// and absorbs the elapsed time, drains the debt one fixed step per update
    /// callback, computes the interpolation fraction, runs the render callback
    /// exactly once, and reports whether the host should keep driving the
    /// loop; an exit requested by a callback still lets the frame in progress
    /// finish, including its render. In a loop whose stop was already
    /// requested it runs neither update nor render and reports stop.
    pub fn next_frame<U: UpdateFn<G, W>, R: RenderFn<G, W>>(
        &mut self,
        update: &mut U,
        render: &mut R,
        now_ns: u64,
    ) -> (continue_running: bool)
        requires
            old(self).wf(),
            old(self)@.debt_ns < NANOS_PER_SECOND,
            old(self)@.updates + NANOS_PER_SECOND + old(self)@.max_frame_ns <= u64::MAX,
            old(self)@.total_ns + NANOS_PER_SECOND + old(self)@.max_frame_ns <= u64::MAX,
            old(self)@.renders < u64::MAX,
        ensures
            final(self).wf(),
            continue_running == (final(self)@.state is Running),
            !(old(self)@.state is Running) ==> {
                &&& final(self)@ == (LoopModel { state: LoopState::Stopped, ..old(self)@ })
                &&& final(self).spec_game() == old(self).spec_game()
                &&& final(self).spec_window() == old(self).spec_window()
            },
            old(self)@.state is Running ==> {
                let clamped = spec_clamped_ns(old(self)@, now_ns as nat);
                &&& final(self)@.renders == old(self)@.renders + 1
                &&& final(self)@.total_ns + final(self)@.debt_ns
                    == old(self)@.total_ns + old(self)@.debt_ns + clamped
                &&& final(self)@.last_frame_ns == clamped
                &&& final(self)@.clock_started
                &&& final(self)@.clock_last_ns == now_ns
                &&& old(self)@.consumed.is_prefix_of(final(self)@.consumed)
                &&& final(self)@.blend_numer_ns == final(self)@.debt_ns
                &&& final(self)@.debt_ns < final(self)@.blend_denom_ns
                &&& final(self)@.blend_denom_ns <= NANOS_PER_SECOND
                &&& (old(self)@.debt_ns + clamped < old(self)@.step_ns ==> {
                    &&& final(self)@.updates == old(self)@.updates
                    &&& final(self)@.consumed == old(self)@.consumed
                })
                &&& (old(self)@.debt_ns + clamped >= old(self)@.step_ns
                    ==> final(self)@.updates > old(self)@.updates)
            },
            (old(self)@.state is Running && U::keeps_config() && R::keeps_config()) ==> {
                let fed = old(self)@.debt_ns + spec_clamped_ns(old(self)@, now_ns as nat);
                let step = old(self)@.step_ns;
                &&& continue_running
                &&& config_preserved(*old(self), *final(self))
                &&& final(self)@.updates == old(self)@.updates + fed / step
                &&& final(self)@.debt_ns == fed % step
                &&& final(self)@.blend_numer_ns == fed % step
                &&& final(self)@.blend_denom_ns == step
                &&& (forall|i: int|
                    old(self)@.consumed.len() <= i < final(self)@.consumed.len()
                        ==> #[trigger] final(self)@.consumed[i] == step)
            },
    {
        match self.state {
            LoopState::Running => {}
            _ => {
                self.state = LoopState::Stopped;
                return false;
            }
        }

        let elapsed_ns = self.clock.sample(now_ns);
        let clamped_ns = self.accumulator.absorb(elapsed_ns, self.max_frame_time_ns);
        self.last_frame_time_ns = clamped_ns;

        let ghost m0 = old(self)@;
        let ghost clamped = spec_clamped_ns(m0, now_ns as nat);
        let ghost debt0 = self.accumulator.time_debt_ns as nat;
        assert(debt0 == m0.debt_ns + clamped);

        while self.accumulator.time_debt_ns >= self.fixed_time_step_ns
            invariant
                self.wf(),
                m0.updates + NANOS_PER_SECOND + m0.max_frame_ns <= u64::MAX,
                m0.total_ns + NANOS_PER_SECOND + m0.max_frame_ns <= u64::MAX,
                debt0 <= m0.debt_ns + m0.max_frame_ns,
                m0.debt_ns < NANOS_PER_SECOND,
                self@.updates + self@.debt_ns <= m0.updates + debt0,
                self@.total_ns + self@.debt_ns == m0.total_ns + debt0,
                m0.consumed.is_prefix_of(self@.consumed),
                self@.updates >= m0.updates,
                self@.renders == m0.renders,
                self@.last_frame_ns == clamped,
                self@.clock_started,
                self@.clock_last_ns == now_ns,
                self@.blend_numer_ns == m0.blend_numer_ns,
                self@.blend_denom_ns == m0.blend_denom_ns,
                debt0 < m0.step_ns ==> self@.updates == m0.updates,
                self@.updates == m0.updates ==> {
                    &&& self@.debt_ns == debt0
                    &&& self@.step_ns == m0.step_ns
                    &&& self@.consumed == m0.consumed
                },
                U::keeps_config() ==> {
                    &&& self@.state == m0.state
                    &&& self@.ups == m0.ups
                    &&& self@.step_ns == m0.step_ns
                    &&& self@.max_frame_ns == m0.max_frame_ns
                    &&& (self@.updates - m0.updates) * m0.step_ns + self@.debt_ns == debt0
                    &&& (forall|i: int|
                        m0.consumed.len() <= i < self@.consumed.len()
                            ==> #[trigger] self@.consumed[i] == m0.step_ns)
                },
            decreases self.accumulator.time_debt_ns,
        {
            // The step consumed is the one in force at the drain check above;
            // a rate change made by the callback governs the next check, and
            // the debt can never go below zero.
            let step_ns = self.fixed_time_step_ns;
            let ghost k0 = self@.updates - m0.updates;
            update.update(self);
            self.accumulator.consume(step_ns);
            self.number_of_updates = self.number_of_updates + 1;
            self.total_time_elapsed_ns = self.total_time_elapsed_ns + step_ns;
            proof {
                let s = self.consumed@;
                let pushed = s.push(step_ns as nat);
                assert(pushed.drop_last() =~= s);
                assert(pushed.subrange(0, m0.consumed.len() as int)
                    =~= s.subrange(0, m0.consumed.len() as int));
                assert(m0.consumed.is_prefix_of(pushed));
                assert((k0 + 1) * m0.step_ns == k0 * m0.step_ns + m0.step_ns) by (nonlinear_arith);
            }
            self.consumed = Ghost(self.consumed@.push(step_ns as nat));
        }

        self.blend_numer_ns = self.accumulator.time_debt_ns;
        self.blend_denom_ns = self.fixed_time_step_ns;

        proof {
            if U::keeps_config() {
                let s = m0.step_ns as int;
                let k = self@.updates - m0.updates;
                vstd::arithmetic::div_mod::lemma_fundamental_div_mod_converse(
                    debt0 as int, s, k, self@.debt_ns as int);
            }
        }

        render.render(self);
        self.number_of_renders = self.number_of_renders + 1;

        match self.state {
            LoopState::Running => true,
            _ => false,
        }
    }
}

/// Helper for the laws below: the sum of a run of equal steps is the count
/// times the step.
proof fn lemma_sum_constant(s: Seq<nat>, step: nat)
    requires
        forall|i: int| 0 <= i < s.len() ==> #[trigger] s[i] == step,
    ensures
        sum_ns(s) == s.len() * step,
    decreases s.len(),
{
    if s.len() > 0 {
        lemma_sum_constant(s.drop_last(), step);
        assert(s.last() == step);
        assert((s.len() - 1) * step + step == s.len() * step) by (nonlinear_arith);
    }
}

/// LAW: in a run whose every consumed step used the same fixed time step, the
/// simulated time equals the update count times that step, exactly: no update
/// is ever lost or invented except for elapsed time explicitly clamped away,
/// which never reaches the accumulator at all.
pub proof fn lemma_fixed_rate_accounting<G, W>(game_loop: GameLoop<G, W>)
    requires
        game_loop.wf(),
        forall|i: int| 0 <= i < game_loop@.consumed.len()
            ==> #[trigger] game_loop@.consumed[i] == game_loop@.step_ns,
    ensures
        game_loop@.total_ns == game_loop@.updates * game_loop@.step_ns,
{
    lemma_sum_constant(game_loop@.consumed, game_loop@.step_ns);
}

/// LAW: feeding the loop exactly `n` steps' worth of time, drained at one
/// unchanged fixed step and left with less than one step of debt, yields
/// exactly `n` updates and no residual debt, so the interpolation numerator is
/// exactly zero: running in lockstep with the host never drifts the update
/// count.
pub proof fn lemma_lockstep<G, W>(game_loop: GameLoop<G, W>, n: nat)
    requires
        game_loop.wf(),
        forall|i: int| 0 <= i < game_loop@.consumed.len()
            ==> #[trigger] game_loop@.consumed[i] == game_loop@.step_ns,
        game_loop@.total_ns + game_loop@.debt_ns == n * game_loop@.step_ns,
        game_loop@.debt_ns < game_loop@.step_ns,
    ensures
        game_loop@.updates == n,
        game_loop@.debt_ns == 0,
{
    lemma_fixed_rate_accounting(game_loop);
    let s = game_loop@.step_ns;
    let u = game_loop@.updates;
    let debt = game_loop@.debt_ns;
    assert(u * s + debt == n * s);
    assert(s >= 1);
    if u > n {
        lemma_mul_inequality(n as int + 1, u as int, s as int);
        assert((n + 1) * s == n * s + s) by (nonlinear_arith);
        assert(false);
    }
    if u < n {
        lemma_mul_inequality(u as int + 1, n as int, s as int);
        assert((u + 1) * s == u * s + s) by (nonlinear_arith);
        assert(false);
    }
}

} // verus!

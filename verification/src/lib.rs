//! A fixed-timestep frame loop: simulation updates advance in fixed,
//! deterministic time increments no matter how irregularly the host delivers
//! frames, and a clamp on each frame's contribution prevents runaway catch-up
//! after a long stall. All durations are integer nanoseconds.

pub mod accumulator;
pub mod clock;
pub mod once_slot;
pub mod orchestrator;

pub use accumulator::Accumulator;
pub use clock::Clock;
pub use once_slot::OnceSlot;
pub use orchestrator::GameLoop;
pub use orchestrator::HandlerFn;
pub use orchestrator::InitFn;
pub use orchestrator::LoopState;
pub use orchestrator::RenderFn;
pub use orchestrator::UpdateFn;

//! A terminal virtual-pet engine: an animation scheduler with a priority
//! preemption policy, a frame state machine driven by millisecond
//! timestamps, a particle simulator, and the pet life simulation that
//! feeds animation requests into the scheduler.

pub mod animated_pet;
pub mod decimal;
pub mod engine;
pub mod events;
pub mod frame;
pub mod game;
pub mod kinds;
pub mod library;
pub mod pet;
pub mod stats;

pub use kinds::AnimationPriority;
pub use kinds::AnimationType;

//! A hybrid logical clock: timestamps that stay close to physical time,
//! strictly increase on every local tick, and can be merged with timestamps
//! observed from other nodes so that the result follows both.

pub mod clock;
pub mod history;
pub mod laws;
pub mod source;
pub mod step;
pub mod timestamp;
pub mod wall;

pub use clock::State;
pub use source::{PhysicalClock, ScriptedClock, SystemClock};
pub use timestamp::HLTimespec;
pub use wall::Wall;

//! A clock that measures elapsed time and, when told that an authoritative
//! source disagrees with it, converges smoothly toward that source at a bounded
//! rate instead of jumping.

mod adjustment;
mod clock;
pub mod convergence;
mod model;
mod time;

pub use adjustment::{AdjustmentSettings, ConstantRate, Rate};
pub use clock::Clock;
pub use model::ClockState;
pub use time::{Duration, Instant, MAX_NANOS, NANOS_PER_MILLI};

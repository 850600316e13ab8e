//! A table of named stopwatches.
//!
//! A [`TicToc`] maps keys to timers. `tic` starts the timer of a key, `toc`
//! stops it, and `time` reports the measured duration in a chosen unit.
//! Every timer is measured on two clocks, UTC and the local wall clock.
//!
//! The clocks are read through `chrono`; everything else is verified.

pub mod clock;
pub mod error;
pub mod instant;
pub mod laws;
pub mod registry;
pub mod timer;
pub mod units;

pub use crate::error::TicTocError;
pub use crate::instant::{Reading, Span, Timestamp};
pub use crate::registry::TicToc;
pub use crate::timer::Timer;
pub use crate::units::TimeUnits;

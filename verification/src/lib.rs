//! Wrap a pull-driven sequence and get progress data as it is consumed.
//!
//! Calling `progress()` on a source yields pairs of a [`ProgressRecord`] and
//! the source's own element; the record answers questions such as how far
//! along the sequence is, how fast it is being consumed, and how long the
//! rest should take. All times are measured in nanoseconds since the wrapping
//! decorator was built, and all derived quantities (fractions, rates,
//! averages) are exact rationals, so every query has a precise contract.

mod clock;
pub mod exp;
pub mod ratio;
pub mod record;
pub mod recorder;
pub mod source;
pub mod window;

pub use crate::ratio::Ratio;
pub use crate::record::ProgressRecord;
pub use crate::recorder::OptionalProgressableIter;
pub use crate::recorder::OptionalProgressRecorderIter;
pub use crate::recorder::ProgressableIter;
pub use crate::recorder::ProgressRecorderIter;
pub use crate::source::NoHintSource;
pub use crate::source::ProgressSource;
pub use crate::source::VecSource;

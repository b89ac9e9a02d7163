//! Relative-time descriptions such as `in 1m 2w` or `20min ago`.
//!
//! An [`Elapsed`] relates a target instant to a reference instant, breaks the
//! distance between them into a small set of [`TimeFrame`] components and renders
//! those components as a short phrase.

pub mod text;
pub mod timeframe;
pub mod elapsed;
pub mod moment;

pub use timeframe::{Abbreviate, TimeFrame, UnrecognizedUnit};
pub use elapsed::{Component, DueDateTime, Elapsed, Slots, TimeBetween};
pub use moment::{Span, Timestamp};

//! A terminal system monitor's verified core: derived-metric computation,
//! bounded CPU history, clock color selection, seven-segment glyph rendering
//! for the large clock view, and the refresh loop's per-tick decisions.

pub mod clock;
pub mod color;
pub mod history;
pub mod metrics;
pub mod monitor;

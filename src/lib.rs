//! Multi-click disambiguation: turns a stream of pointer presses into
//! single, double and triple clicks.
mod click;
mod point;
mod time;
mod tracker;

pub use click::{
    kind_after, lemma_consecutive_press_advances, lemma_first_press_is_single,
    lemma_moved_press_is_single, lemma_same_side_of_window_same_kind, lemma_streak,
    lemma_window_boundary, streak_kind, Click, Kind, CONSECUTIVE_WINDOW_MILLIS,
    CONSECUTIVE_WINDOW_NANOS,
};
pub use point::{coordinates_equal, is_nan_bits, is_zero_bits, Point};
pub use time::{Timestamp, NANOS_PER_MILLI};
pub use tracker::ClickTracker;

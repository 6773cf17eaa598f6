//! The click memory of one pointer.
use vstd::prelude::*;

use crate::click::{kind_after, Click};
use crate::point::Point;
use crate::time::Timestamp;

verus! {

/// Classifies the presses of one pointer in arrival order, keeping only the
/// most recent click.
#[derive(Debug, Clone, Copy)]
pub struct ClickTracker {
    last: Option<Click>,
}

impl ClickTracker {
    pub closed spec fn spec_last(self) -> Option<Click> {
        self.last
    }

    /// A tracker that has seen no press.
    pub fn new() -> (r: ClickTracker)
        ensures
            r.spec_last() == None::<Click>,
    {
        ClickTracker { last: None }
    }

    /// The most recent click, if any.
    pub fn last(&self) -> (r: Option<Click>)
        ensures
            r == self.spec_last(),
    {
        self.last
    }

    /// Classifies a press against the most recent click and remembers the
    /// result in its place.
    pub fn press(&mut self, position: Point, time: Timestamp) -> (r: Click)
        ensures
            r.spec_kind() == kind_after(position, old(self).spec_last(), time),
            r.spec_position() == position,
            r.spec_time() == time,
            final(self).spec_last() == Some(r),
    {
        let click = Click::new(position, self.last, time);
        self.last = Some(click);
        click
    }

    /// Forgets the most recent click, so that the next press starts a streak.
    pub fn reset(&mut self)
        ensures
            final(self).spec_last() == None::<Click>,
    {
        self.last = None;
    }
}

} // verus!

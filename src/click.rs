//! Classified mouse clicks.
use vstd::prelude::*;

use crate::point::Point;
use crate::time::{Timestamp, NANOS_PER_MILLI};

verus! {

/// The longest time, in milliseconds, that may pass between two presses at
/// one position for the second to continue the streak of the first.
pub const CONSECUTIVE_WINDOW_MILLIS: u64 = 300;

/// The same window in nanoseconds, the resolution of a [`Timestamp`].
pub const CONSECUTIVE_WINDOW_NANOS: u64 = CONSECUTIVE_WINDOW_MILLIS * NANOS_PER_MILLI;

/// The kind of mouse click.
#[derive(Debug, Clone, Copy, PartialEq, Eq, Structural)]
pub enum Kind {
    /// A single click
    Single,
    /// A double click
    Double,
    /// A triple click
    Triple,
}

impl Kind {
    /// The kind that a further consecutive press turns this one into. After a
    /// triple click the streak folds back to a double click.
    pub open spec fn spec_next(self) -> Kind {
        match self {
            Kind::Single => Kind::Double,
            Kind::Double => Kind::Triple,
            Kind::Triple => Kind::Double,
        }
    }

    fn next(&self) -> (r: Kind)
        ensures
            r == self.spec_next(),
    {
        match self {
            Kind::Single => Kind::Double,
            Kind::Double => Kind::Triple,
            Kind::Triple => Kind::Double,
        }
    }
}

/// A mouse click: where and when the press happened, and how it was classified.
#[derive(Debug, Clone, Copy)]
pub struct Click {
    kind: Kind,
    position: Point,
    time: Timestamp,
}

/// The kind of a press at `position` and `time`, given the click before it.
pub open spec fn kind_after(position: Point, previous: Option<Click>, time: Timestamp) -> Kind {
    match previous {
        None => Kind::Single,
        Some(p) => if p.spec_is_consecutive(position, time) {
            p.spec_kind().spec_next()
        } else {
            Kind::Single
        },
    }
}

impl Click {
    pub closed spec fn spec_kind(self) -> Kind {
        self.kind
    }

    pub closed spec fn spec_position(self) -> Point {
        self.position
    }

    pub closed spec fn spec_time(self) -> Timestamp {
        self.time
    }

    /// A press at `new_position` and `time` continues this click's streak:
    /// same position, and at most the window's length later. A reading
    /// earlier than this click's counts as no time at all.
    pub open spec fn spec_is_consecutive(self, new_position: Point, time: Timestamp) -> bool {
        &&& self.spec_position().spec_same(new_position)
        &&& time.spec_nanos_since(self.spec_time()) <= CONSECUTIVE_WINDOW_NANOS
    }

    /// Classifies a press at `position`, read from the clock at `time`, given
    /// the click that came before it on the same pointer, if any.
    pub fn new(position: Point, previous: Option<Click>, time: Timestamp) -> (r: Click)
        ensures
            r.spec_kind() == kind_after(position, previous, time),
            r.spec_position() == position,
            r.spec_time() == time,
    {
        let kind = match previous {
            Some(previous) => {
                if previous.is_consecutive(position, time) {
                    previous.kind.next()
                } else {
                    Kind::Single
                }
            },
            None => Kind::Single,
        };
        Click { kind, position, time }
    }

    /// Returns the [`Kind`] of [`Click`].
    pub fn kind(&self) -> (r: Kind)
        ensures
            r == self.spec_kind(),
    {
        self.kind
    }

    /// Where the press happened.
    pub fn position(&self) -> (r: Point)
        ensures
            r == self.spec_position(),
    {
        self.position
    }

    /// When the press happened.
    pub fn time(&self) -> (r: Timestamp)
        ensures
            r == self.spec_time(),
    {
        self.time
    }

    fn is_consecutive(&self, new_position: Point, time: Timestamp) -> (r: bool)
        ensures
            r == self.spec_is_consecutive(new_position, time),
    {
        self.position.same_position(&new_position) && time.nanos_since(&self.time)
            <= CONSECUTIVE_WINDOW_NANOS
    }
}

/// The kind of the `n`-th press after the start of a streak, the start being
/// press zero: single, then double and triple in turn for ever.
pub open spec fn streak_kind(n: nat) -> Kind {
    if n == 0 {
        Kind::Single
    } else if n % 2 == 1 {
        Kind::Double
    } else {
        Kind::Triple
    }
}

proof fn lemma_streak_step(n: nat)
    ensures
        streak_kind(n).spec_next() == streak_kind(n + 1),
{
    assert((n + 1) % 2 == 1 <==> (n == 0 || n % 2 == 0)) by (nonlinear_arith);
}

/// A first press, with no click before it, is a single click.
pub proof fn lemma_first_press_is_single(position: Point, time: Timestamp)
    ensures
        kind_after(position, None, time) == Kind::Single,
{
}

/// A press at a position that is not coordinate-equal to the previous click's
/// starts a new streak, however soon it comes.
pub proof fn lemma_moved_press_is_single(previous: Click, position: Point, time: Timestamp)
    requires
        !previous.spec_position().spec_same(position),
    ensures
        kind_after(position, Some(previous), time) == Kind::Single,
{
}

/// A consecutive press advances the streak cyclically: single to double,
/// double to triple, triple back to double.
pub proof fn lemma_consecutive_press_advances(previous: Click, position: Point, time: Timestamp)
    requires
        previous.spec_is_consecutive(position, time),
    ensures
        kind_after(position, Some(previous), time) == previous.spec_kind().spec_next(),
        previous.spec_kind() == Kind::Single ==> kind_after(position, Some(previous), time)
            == Kind::Double,
        previous.spec_kind() == Kind::Double ==> kind_after(position, Some(previous), time)
            == Kind::Triple,
        previous.spec_kind() == Kind::Triple ==> kind_after(position, Some(previous), time)
            == Kind::Double,
{
}

/// In a streak that starts with a single click and where each click is the
/// classification of a press consecutive with the one before, the clicks
/// are single, double, triple, double, triple, and so on without end.
/// Consecutive presses share a coordinate-equal position, so a streak never
/// forms at a position with a NaN coordinate, which equals nothing.
pub proof fn lemma_streak(clicks: Seq<Click>)
    requires
        clicks.len() > 0,
        clicks[0].spec_kind() == Kind::Single,
        forall|i: int|
            0 < i < clicks.len() ==> clicks[i - 1].spec_is_consecutive(
                #[trigger] clicks[i].spec_position(),
                clicks[i].spec_time(),
            ),
        forall|i: int|
            0 < i < clicks.len() ==> #[trigger] clicks[i].spec_kind() == kind_after(
                clicks[i].spec_position(),
                Some(clicks[i - 1]),
                clicks[i].spec_time(),
            ),
    ensures
        forall|i: int| 0 <= i < clicks.len() ==> #[trigger] clicks[i].spec_kind() == streak_kind(
            i as nat,
        ),
    decreases clicks.len(),
{
    if clicks.len() > 1 {
        let shorter = clicks.drop_last();
        assert forall|i: int| 0 < i < shorter.len() implies shorter[i - 1].spec_is_consecutive(
            #[trigger] shorter[i].spec_position(),
            shorter[i].spec_time(),
        ) by {
            assert(clicks[i].spec_position() == shorter[i].spec_position());
        }
        assert forall|i: int| 0 < i < shorter.len() implies #[trigger] shorter[i].spec_kind()
            == kind_after(shorter[i].spec_position(), Some(shorter[i - 1]), shorter[i].spec_time()) by {
            assert(clicks[i].spec_kind() == shorter[i].spec_kind());
        }
        lemma_streak(shorter);
        let last = clicks.len() - 1;
        assert(shorter[last - 1].spec_kind() == streak_kind((last - 1) as nat));
        lemma_streak_step((last - 1) as nat);
        assert(clicks[last - 1].spec_is_consecutive(
            clicks[last].spec_position(),
            clicks[last].spec_time(),
        ));
        assert(clicks[last].spec_kind() == streak_kind(last as nat));
        assert forall|i: int| 0 <= i < clicks.len() implies #[trigger] clicks[i].spec_kind()
            == streak_kind(i as nat) by {
            if i < last {
                assert(clicks[i] == shorter[i]);
            }
        }
    }
}

/// A press at the previous click's position exactly the window's length later
/// still advances the streak; any time more, a millisecond or a single
/// nanosecond, resets it to a single click.
pub proof fn lemma_window_boundary(previous: Click, position: Point, time: Timestamp)
    requires
        previous.spec_position().spec_same(position),
    ensures
        time.nanos == previous.spec_time().nanos + CONSECUTIVE_WINDOW_MILLIS * NANOS_PER_MILLI
            ==> kind_after(position, Some(previous), time) == previous.spec_kind().spec_next(),
        time.nanos == previous.spec_time().nanos + (CONSECUTIVE_WINDOW_MILLIS + 1)
            * NANOS_PER_MILLI ==> kind_after(position, Some(previous), time) == Kind::Single,
        time.nanos > previous.spec_time().nanos + CONSECUTIVE_WINDOW_MILLIS * NANOS_PER_MILLI
            ==> kind_after(position, Some(previous), time) == Kind::Single,
{
}

/// Classifying the same press after the same click twice gives the same
/// kind, as long as the two clock readings lie on the same side of the
/// window's end; in particular whenever they are equal.
pub proof fn lemma_same_side_of_window_same_kind(
    position: Point,
    previous: Option<Click>,
    t1: Timestamp,
    t2: Timestamp,
)
    requires
        previous matches Some(p) ==> (t1.spec_nanos_since(p.spec_time())
            <= CONSECUTIVE_WINDOW_NANOS) == (t2.spec_nanos_since(p.spec_time())
            <= CONSECUTIVE_WINDOW_NANOS),
    ensures
        kind_after(position, previous, t1) == kind_after(position, previous, t2),
{
}

} // verus!

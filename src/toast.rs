use crate::duration::{duration_checked_add, duration_nanos, duration_new, max_duration_nanos};
use std::time::Duration;
use vstd::prelude::*;

verus! {

/// Length of the slide-in phase, in nanoseconds (half a second).
pub const OPEN_NANOS: u32 = 500_000_000;

/// Length of the slide-out phase, in seconds.
pub const CLOSE_SECS: u64 = 1;

/// Length of the slide-out phase, in nanoseconds.
pub const CLOSE_NANOS: u64 = 1_000_000_000;

/// Distance, in pixels, from the top of the window to a fully shown toast.
pub const SHOWN_TOP: i32 = 5;

/// Distance, in pixels, from the top of the window to a hidden toast: it
/// sits above the visible area.
pub const HIDDEN_TOP: i32 = -100;

/// Distance, in pixels, from the right edge of the window to the toast.
pub const RIGHT_MARGIN: i32 = 5;

/// A notification to display: its two lines of text and how long it stays
/// fully visible. The subtitle identifies the notification for
/// deduplication.
#[derive(Clone, Debug, PartialEq, Eq)]
pub struct ShowToast {
    pub title: String,
    pub subtitle: String,
    pub duration: Duration,
}

/// The easing curve of a slide.
#[derive(Clone, Copy, Debug, PartialEq, Eq, Structural)]
pub enum Easing {
    CubicInOut,
}

/// Where the toast sits, as pixel offsets from the top and right edges.
#[derive(Clone, Copy, Debug, PartialEq, Eq, Structural)]
pub struct Placement {
    pub top: i32,
    pub right: i32,
}

/// One moving phase of the animation.
#[derive(Clone, Copy, Debug, PartialEq, Eq)]
pub struct Slide {
    pub duration: Duration,
    pub easing: Easing,
    pub from: Placement,
    pub to: Placement,
}

/// The three phases a displayed toast goes through: it slides in, stays
/// still for `dwell`, then slides out.
#[derive(Clone, Copy, Debug, PartialEq, Eq)]
pub struct AnimationPlan {
    pub open: Slide,
    pub dwell: Duration,
    pub close: Slide,
}

pub open spec fn shown_placement() -> Placement {
    Placement { top: SHOWN_TOP, right: RIGHT_MARGIN }
}

pub open spec fn hidden_placement() -> Placement {
    Placement { top: HIDDEN_TOP, right: RIGHT_MARGIN }
}

/// The whole length of a plan, in nanoseconds.
pub open spec fn plan_total_nanos(p: AnimationPlan) -> nat {
    duration_nanos(p.open.duration) + duration_nanos(p.dwell) + duration_nanos(p.close.duration)
}

/// `p` is the plan of a toast that stays visible for `dwell`: half a second
/// sliding in from above, `dwell` still, one second sliding back out, both
/// slides eased in and out.
pub open spec fn is_plan_for(p: AnimationPlan, dwell: Duration) -> bool {
    &&& duration_nanos(p.open.duration) == OPEN_NANOS
    &&& p.open.easing == Easing::CubicInOut
    &&& p.open.from == hidden_placement()
    &&& p.open.to == shown_placement()
    &&& p.dwell == dwell
    &&& duration_nanos(p.close.duration) == CLOSE_NANOS
    &&& p.close.easing == Easing::CubicInOut
    &&& p.close.from == shown_placement()
    &&& p.close.to == hidden_placement()
}

/// A plan built for a dwell of `dwell` lasts half a second longer than the
/// dwell plus one second.
pub proof fn lemma_plan_duration(p: AnimationPlan, dwell: Duration)
    requires
        is_plan_for(p, dwell),
    ensures
        plan_total_nanos(p) == 500_000_000 + duration_nanos(dwell) + 1_000_000_000,
{
}

impl Placement {
    /// The resting place of a visible toast.
    pub fn shown() -> (r: Placement)
        ensures
            r == shown_placement(),
    {
        Placement { top: SHOWN_TOP, right: RIGHT_MARGIN }
    }

    /// The resting place of a hidden toast.
    pub fn hidden() -> (r: Placement)
        ensures
            r == hidden_placement(),
    {
        Placement { top: HIDDEN_TOP, right: RIGHT_MARGIN }
    }
}

impl ShowToast {
    /// The animation that displays this toast.
    pub fn get_animation(&self) -> (r: AnimationPlan)
        ensures
            is_plan_for(r, self.duration),
            plan_total_nanos(r) == 500_000_000 + duration_nanos(self.duration) + 1_000_000_000,
    {
        let open = Slide {
            duration: duration_new(0, OPEN_NANOS),
            easing: Easing::CubicInOut,
            from: Placement::hidden(),
            to: Placement::shown(),
        };
        let close = Slide {
            duration: duration_new(CLOSE_SECS, 0),
            easing: Easing::CubicInOut,
            from: Placement::shown(),
            to: Placement::hidden(),
        };
        AnimationPlan { open, dwell: self.duration, close }
    }
}

impl AnimationPlan {
    /// The whole length of the plan, or `None` when it exceeds what a
    /// `Duration` can hold.
    pub fn total_duration(&self) -> (r: Option<Duration>)
        ensures
            plan_total_nanos(*self) <= max_duration_nanos() ==> r is Some,
            r is None ==> plan_total_nanos(*self) > max_duration_nanos(),
            r matches Some(t) ==> duration_nanos(t) == plan_total_nanos(*self),
    {
        match duration_checked_add(self.open.duration, self.dwell) {
            Some(first) => duration_checked_add(first, self.close.duration),
            None => None,
        }
    }
}

} // verus!

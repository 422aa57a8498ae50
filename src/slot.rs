use crate::queue::{pop_front_spec, unique_subtitles, ToastQueue};
use crate::toast::{is_plan_for, AnimationPlan};
use vstd::prelude::*;

verus! {

/// How far the slot's current animation has played.
#[derive(Clone, Copy, Debug, PartialEq, Eq, Structural)]
pub enum SlotProgress {
    /// At the very start (progress 0): nothing installed yet, or rewound.
    NotStarted,
    /// Strictly between start and end.
    Playing,
    /// At the very end (progress 1): the toast has slid back out.
    Finished,
}

/// A slot whose animation is at its very start or its very end may take the
/// next toast; one in between may not.
pub open spec fn progress_is_idle(p: SlotProgress) -> bool {
    p == SlotProgress::NotStarted || p == SlotProgress::Finished
}

impl SlotProgress {
    /// Whether a slot at this progress may take the next toast.
    pub fn is_idle(&self) -> (r: bool)
        ensures
            r == progress_is_idle(*self),
            r == (*self != SlotProgress::Playing),
    {
        match self {
            SlotProgress::NotStarted => true,
            SlotProgress::Playing => false,
            SlotProgress::Finished => true,
        }
    }
}

/// The single place on screen where toasts appear: the text it shows, the
/// animation installed in it, and how far that animation has played.
#[derive(Debug)]
pub struct DisplaySlot {
    pub title: String,
    pub subtitle: String,
    pub plan: Option<AnimationPlan>,
    pub progress: SlotProgress,
}

impl DisplaySlot {
    /// A blank slot with no animation installed.
    pub fn new() -> (r: DisplaySlot)
        ensures
            r.title@ == Seq::<char>::empty(),
            r.subtitle@ == Seq::<char>::empty(),
            r.plan is None,
            r.progress == SlotProgress::NotStarted,
    {
        DisplaySlot {
            title: String::new(),
            subtitle: String::new(),
            plan: None,
            progress: SlotProgress::NotStarted,
        }
    }

    /// One dispatch step. When the slot is idle and a request is pending,
    /// the oldest request leaves the queue, its text goes into the slot, its
    /// animation is installed and rewound to the start, and `true` is
    /// returned. Otherwise neither the slot nor the queue changes, and
    /// `false` is returned: in particular a playing animation is never
    /// replaced.
    pub fn tick(&mut self, queue: &mut ToastQueue) -> (shown: bool)
        requires
            unique_subtitles(old(queue)@),
        ensures
            shown == (progress_is_idle(old(self).progress) && old(queue)@.len() > 0),
            unique_subtitles(final(queue)@),
            shown ==> {
                &&& final(queue)@ == pop_front_spec(old(queue)@)
                &&& final(self).title@ == old(queue)@[0].title@
                &&& final(self).subtitle@ == old(queue)@[0].subtitle@
                &&& final(self).plan matches Some(p) && is_plan_for(p, old(queue)@[0].duration)
                &&& final(self).progress == SlotProgress::NotStarted
            },
            !shown ==> *final(self) == *old(self) && final(queue)@ == old(queue)@,
            old(self).progress == SlotProgress::Playing ==> *final(self) == *old(self)
                && final(queue)@ == old(queue)@,
    {
        if !self.progress.is_idle() || queue.is_empty() {
            return false;
        }
        match queue.dequeue_front() {
            Some(next) => {
                let plan = next.get_animation();
                self.title = next.title;
                self.subtitle = next.subtitle;
                self.plan = Some(plan);
                self.progress = SlotProgress::NotStarted;
                true
            },
            None => false,
        }
    }
}

} // verus!

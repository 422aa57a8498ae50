//! A queue of on-screen notifications ("toasts") shown one at a time in a
//! single animated slot: requests are deduplicated by subtitle, kept in
//! arrival order, and each one displayed is given a slide-in, dwell and
//! slide-out animation plan.

mod duration;
mod queue;
mod slot;
mod toast;

pub use duration::{duration_nanos, max_duration_nanos};
pub use queue::{
    admitted, enqueue_all_spec, enqueue_spec, has_subtitle, lemma_enqueue_keeps_unique,
    lemma_fifo, lemma_replay_keeps_unique, pop_front_spec, replay, unique_subtitles, ToastQueue,
};
pub use slot::{progress_is_idle, DisplaySlot, SlotProgress};
pub use toast::{
    hidden_placement, is_plan_for, lemma_plan_duration, plan_total_nanos, shown_placement,
    AnimationPlan, Easing, Placement, ShowToast, Slide, CLOSE_NANOS, CLOSE_SECS, HIDDEN_TOP,
    OPEN_NANOS, RIGHT_MARGIN, SHOWN_TOP,
};

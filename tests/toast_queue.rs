use std::time::Duration;

use bevy_toast::{
    AnimationPlan, DisplaySlot, Easing, Placement, ShowToast, SlotProgress, ToastQueue,
};

fn toast(title: &str, subtitle: &str, secs: u64) -> ShowToast {
    ShowToast {
        title: title.to_string(),
        subtitle: subtitle.to_string(),
        duration: Duration::from_secs(secs),
    }
}

#[test]
fn duplicate_subtitle_is_dropped() {
    let mut queue = ToastQueue::new();
    queue.enqueue(toast("A", "x", 2));
    queue.enqueue(toast("B", "x", 1));
    assert_eq!(queue.len(), 1);
    assert_eq!(queue.get(0), Some(&toast("A", "x", 2)));
    assert_eq!(queue.get(1), None);
}

#[test]
fn idle_slot_takes_oldest_request() {
    let mut queue = ToastQueue::new();
    queue.enqueue(toast("A", "x", 2));
    queue.enqueue(toast("B", "y", 1));
    let mut slot = DisplaySlot::new();
    assert!(slot.tick(&mut queue));
    assert_eq!(slot.title, "A");
    assert_eq!(slot.subtitle, "x");
    assert_eq!(slot.progress, SlotProgress::NotStarted);
    let plan = slot.plan.unwrap();
    assert_eq!(plan.dwell, Duration::from_secs(2));
    assert_eq!(plan.total_duration(), Some(Duration::from_millis(3500)));
    assert_eq!(queue.len(), 1);
    assert_eq!(queue.get(0), Some(&toast("B", "y", 1)));
}

#[test]
fn playing_slot_is_not_preempted() {
    let mut queue = ToastQueue::new();
    queue.enqueue(toast("A", "x", 2));
    let mut slot = DisplaySlot::new();
    slot.title = "Old".to_string();
    slot.subtitle = "old".to_string();
    slot.progress = SlotProgress::Playing;
    assert!(!slot.tick(&mut queue));
    assert_eq!(slot.title, "Old");
    assert_eq!(slot.subtitle, "old");
    assert_eq!(slot.plan, None);
    assert_eq!(slot.progress, SlotProgress::Playing);
    assert_eq!(queue.len(), 1);
    assert_eq!(queue.get(0), Some(&toast("A", "x", 2)));
}

#[test]
fn finished_slot_with_empty_queue_is_untouched() {
    let mut queue = ToastQueue::new();
    queue.enqueue(toast("A", "x", 2));
    let mut slot = DisplaySlot::new();
    assert!(slot.tick(&mut queue));
    let installed = slot.plan;
    slot.progress = SlotProgress::Finished;
    assert!(!slot.tick(&mut queue));
    assert_eq!(slot.plan, installed);
    assert_eq!(slot.progress, SlotProgress::Finished);
    assert_eq!(slot.title, "A");
    assert!(queue.is_empty());
}

#[test]
fn idle_only_at_start_or_end() {
    assert!(SlotProgress::NotStarted.is_idle());
    assert!(SlotProgress::Finished.is_idle());
    assert!(!SlotProgress::Playing.is_idle());
}

#[test]
fn plan_has_fixed_slides_around_dwell() {
    let plan: AnimationPlan = toast("A", "x", 2).get_animation();
    let shown = Placement { top: 5, right: 5 };
    let hidden = Placement { top: -100, right: 5 };
    assert_eq!(Placement::shown(), shown);
    assert_eq!(Placement::hidden(), hidden);
    assert_eq!(plan.open.duration, Duration::from_millis(500));
    assert_eq!(plan.open.easing, Easing::CubicInOut);
    assert_eq!(plan.open.from, hidden);
    assert_eq!(plan.open.to, shown);
    assert_eq!(plan.dwell, Duration::from_secs(2));
    assert_eq!(plan.close.duration, Duration::from_secs(1));
    assert_eq!(plan.close.easing, Easing::CubicInOut);
    assert_eq!(plan.close.from, shown);
    assert_eq!(plan.close.to, hidden);
}

#[test]
fn zero_dwell_keeps_both_slides() {
    let plan = toast("A", "x", 0).get_animation();
    assert_eq!(plan.dwell, Duration::ZERO);
    assert_eq!(plan.total_duration(), Some(Duration::from_millis(1500)));
}

#[test]
fn plan_total_with_odd_dwell() {
    let request = ShowToast {
        title: "T".to_string(),
        subtitle: "s".to_string(),
        duration: Duration::new(7, 250_000_001),
    };
    let plan = request.get_animation();
    assert_eq!(plan.total_duration(), Some(Duration::new(8, 750_000_001)));
}

#[test]
fn plan_total_beyond_duration_range_is_none() {
    let request = ShowToast {
        title: "T".to_string(),
        subtitle: "s".to_string(),
        duration: Duration::MAX,
    };
    assert_eq!(request.get_animation().total_duration(), None);
}

#[test]
fn requests_leave_in_arrival_order() {
    let mut queue = ToastQueue::default();
    queue.enqueue(toast("A", "a", 1));
    queue.enqueue(toast("B", "b", 1));
    queue.enqueue(toast("A again", "a", 3));
    queue.enqueue(toast("C", "c", 1));
    assert_eq!(queue.dequeue_front(), Some(toast("A", "a", 1)));
    assert_eq!(queue.dequeue_front(), Some(toast("B", "b", 1)));
    assert_eq!(queue.dequeue_front(), Some(toast("C", "c", 1)));
    assert_eq!(queue.dequeue_front(), None);
    assert!(queue.is_empty());
}

#[test]
fn subtitle_may_return_once_taken_out() {
    let mut queue = ToastQueue::new();
    queue.enqueue(toast("A", "x", 2));
    assert_eq!(queue.dequeue_front(), Some(toast("A", "x", 2)));
    queue.enqueue(toast("B", "x", 1));
    assert_eq!(queue.len(), 1);
    assert_eq!(queue.get(0), Some(&toast("B", "x", 1)));
}

#[test]
fn enqueue_all_keeps_order_and_drops_duplicates() {
    let mut queue = ToastQueue::new();
    queue.enqueue(toast("P", "p", 1));
    queue.enqueue_all(vec![
        toast("A", "a", 1),
        toast("P again", "p", 1),
        toast("B", "b", 2),
        toast("A again", "a", 2),
    ]);
    assert_eq!(queue.len(), 3);
    assert_eq!(queue.get(0), Some(&toast("P", "p", 1)));
    assert_eq!(queue.get(1), Some(&toast("A", "a", 1)));
    assert_eq!(queue.get(2), Some(&toast("B", "b", 2)));
}

#[test]
fn ticks_show_requests_one_after_another() {
    let mut queue = ToastQueue::new();
    queue.enqueue_all(vec![toast("A", "a", 1), toast("B", "b", 4)]);
    let mut slot = DisplaySlot::new();
    assert!(slot.tick(&mut queue));
    assert_eq!(slot.title, "A");
    slot.progress = SlotProgress::Playing;
    assert!(!slot.tick(&mut queue));
    assert_eq!(slot.title, "A");
    slot.progress = SlotProgress::Finished;
    assert!(slot.tick(&mut queue));
    assert_eq!(slot.title, "B");
    assert_eq!(slot.subtitle, "b");
    assert_eq!(slot.progress, SlotProgress::NotStarted);
    assert_eq!(
        slot.plan.unwrap().total_duration(),
        Some(Duration::from_millis(5500))
    );
    assert!(queue.is_empty());
}

#[test]
fn empty_queue_idle_slot_shows_nothing() {
    let mut queue = ToastQueue::new();
    let mut slot = DisplaySlot::new();
    assert!(!slot.tick(&mut queue));
    assert_eq!(slot.title, "");
    assert_eq!(slot.plan, None);
}

use arcana::geometry::TriggerBounds;
use arcana::overlay::PopupAlign;
use arcana::trigger::{
    get_registered_triggers, register_hover_trigger, start_trigger_monitor,
    stop_trigger_monitor_if_empty, trigger_tick, unregister_hover_trigger,
    update_trigger_bounds, PopupTriggerOptions, TriggerError, TriggerRegistry,
    TRIGGER_MONITOR_INTERVAL_MS,
};

fn square(x: i32, y: i32) -> TriggerBounds {
    TriggerBounds { x, y, width: 50, height: 50 }
}

fn options() -> PopupTriggerOptions {
    PopupTriggerOptions::new(200, 100, None, None)
}

#[test]
fn options_defaults() {
    let o = options();
    assert_eq!(o.popup_align, PopupAlign::Center);
    assert_eq!(o.popup_offset_y, 8);
    let p = PopupTriggerOptions::new(1, 2, Some(PopupAlign::Start), Some(3));
    assert_eq!(p.popup_align, PopupAlign::Start);
    assert_eq!(p.popup_offset_y, 3);
    assert_eq!(TRIGGER_MONITOR_INTERVAL_MS, 50);
}

#[test]
fn monitor_runs_while_a_trigger_is_registered() {
    let mut r = TriggerRegistry::new();
    assert!(r.is_empty());
    assert_eq!(r.monitor_task(), None);
    assert!(register_hover_trigger(&mut r, "a", square(0, 0), options(), 10).start_monitor);
    assert_eq!(r.monitor_task(), Some(10));
    assert!(!register_hover_trigger(&mut r, "b", square(100, 0), options(), 11).start_monitor);
    assert_eq!(r.monitor_task(), Some(10));
    assert_eq!(unregister_hover_trigger(&mut r, "a"), None);
    assert_eq!(r.monitor_task(), Some(10));
    assert_eq!(unregister_hover_trigger(&mut r, "nobody"), None);
    assert_eq!(unregister_hover_trigger(&mut r, "b"), Some(10));
    assert_eq!(r.monitor_task(), None);
    assert!(r.is_empty());
    assert!(trigger_tick(&mut r, 0, 0).is_empty());
    assert_eq!(unregister_hover_trigger(&mut r, "b"), None);
    assert!(register_hover_trigger(&mut r, "c", square(0, 0), options(), 12).start_monitor);
    assert_eq!(r.monitor_task(), Some(12));
}

#[test]
fn a_monitor_is_never_started_twice() {
    let mut r = TriggerRegistry::new();
    assert!(start_trigger_monitor(&mut r, 1).start_monitor);
    assert!(!start_trigger_monitor(&mut r, 2).start_monitor);
    assert_eq!(r.monitor_task(), Some(1));
    assert_eq!(stop_trigger_monitor_if_empty(&mut r), Some(1));
    assert_eq!(stop_trigger_monitor_if_empty(&mut r), None);
    register_hover_trigger(&mut r, "a", square(0, 0), options(), 3);
    assert_eq!(stop_trigger_monitor_if_empty(&mut r), None);
    assert_eq!(r.monitor_task(), Some(3));
}

#[test]
fn registering_again_replaces_in_place() {
    let mut r = TriggerRegistry::new();
    register_hover_trigger(&mut r, "a", square(0, 0), options(), 1);
    register_hover_trigger(&mut r, "b", square(100, 0), options(), 1);
    trigger_tick(&mut r, 10, 10);
    assert_eq!(r.lookup("a").unwrap().2, true);
    register_hover_trigger(&mut r, "a", square(300, 300), options(), 1);
    assert_eq!(get_registered_triggers(&r), vec!["a".to_string(), "b".to_string()]);
    let a = r.lookup("a").unwrap();
    assert_eq!(a.0, square(300, 300));
    assert_eq!(a.2, false);
    assert!(r.lookup("zzz").is_none());
}

#[test]
fn bounds_of_an_unknown_trigger_cannot_be_updated() {
    let mut r = TriggerRegistry::new();
    assert_eq!(update_trigger_bounds(&mut r, "a", square(0, 0)), Err(TriggerError::NotFound));
    register_hover_trigger(&mut r, "a", square(0, 0), options(), 1);
    assert_eq!(update_trigger_bounds(&mut r, "a", square(500, 500)), Ok(()));
    assert_eq!(r.lookup("a").unwrap().0, square(500, 500));
    assert_eq!(update_trigger_bounds(&mut r, "b", square(0, 0)), Err(TriggerError::NotFound));
}

#[test]
fn one_event_per_change_of_hover_state() {
    let mut r = TriggerRegistry::new();
    register_hover_trigger(&mut r, "a", square(0, 0), options(), 1);
    register_hover_trigger(&mut r, "b", square(40, 0), options(), 1);
    let path: [(i32, i32); 8] =
        [(500, 500), (10, 10), (12, 10), (45, 10), (80, 10), (200, 10), (200, 10), (10, 10)];
    let mut for_a = Vec::new();
    let mut for_b = Vec::new();
    for (x, y) in path {
        for e in trigger_tick(&mut r, x, y) {
            if e.trigger_id == "a" {
                for_a.push(e.entered);
            } else {
                assert_eq!(e.trigger_id, "b");
                for_b.push(e.entered);
            }
        }
    }
    assert_eq!(for_a, vec![true, false, true]);
    assert_eq!(for_b, vec![true, false]);
}

#[test]
fn triggers_of_one_poll_are_reported_in_registry_order() {
    let mut r = TriggerRegistry::new();
    register_hover_trigger(&mut r, "left", square(0, 0), options(), 1);
    register_hover_trigger(&mut r, "right", square(40, 0), options(), 1);
    let both = trigger_tick(&mut r, 45, 10);
    assert_eq!(both.len(), 2);
    assert_eq!(both[0].trigger_id, "left");
    assert_eq!(both[1].trigger_id, "right");
    assert!(both[0].entered && both[1].entered);
    assert!(trigger_tick(&mut r, 45, 10).is_empty());
    let left_only = trigger_tick(&mut r, 110, 10);
    assert_eq!(left_only.len(), 2);
    assert!(!left_only[0].entered);
    assert!(!left_only[1].entered);
}

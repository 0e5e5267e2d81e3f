use arcana::controller::{resolve, surface_label, OverlayController};
use arcana::geometry::{MonitorBounds, PopoverAlign, PopoverAnchor, TriggerBounds};
use arcana::hover::{
    cancel_close_timer, cleanup_hover_coordinator, close_timer_fired, hover_tick,
    init_hover_coordinator, schedule_hover_close, set_monitor_task, set_window_number,
    HoverAction, ScheduleOutcome, HOVER_CLOSE_DELAY_MS, REQUIRED_OUTSIDE_COUNT,
    WINDOW_MONITOR_INTERVAL_MS,
};
use arcana::overlay::{
    HoverRelease, OverlayError, OverlayGeometry, OverlayKind, OverlayRequest, PopupAlign,
    PopupMode, PriorEntry, SurfaceAction,
};
use arcana::trigger::{
    register_hover_trigger, trigger_tick, PopupTriggerOptions, TriggerRegistry,
};

fn laptop() -> Vec<MonitorBounds> {
    vec![MonitorBounds { x: 0, y: 0, width: 1440, height: 900 }]
}

fn request(mode: PopupMode) -> OverlayRequest {
    OverlayRequest::new(
        PopoverAnchor { x: 0, y: 0, width: 50, height: 50 },
        200,
        100,
        None,
        None,
        Some(mode),
    )
}

#[test]
fn request_defaults() {
    let r = OverlayRequest::new(PopoverAnchor { x: 1, y: 2, width: 3, height: 4 }, 5, 6, None, None, None);
    assert_eq!(r.align, PopoverAlign::Center);
    assert_eq!(r.offset_y, 8);
    assert_eq!(r.mode, PopupMode::Toggle);
    assert_eq!(PopupMode::default(), PopupMode::Toggle);
    assert_eq!(PopupAlign::default(), PopupAlign::Center);
    assert_eq!(PopupAlign::End.to_alignment(), PopoverAlign::End);
}

#[test]
fn labels_carry_the_kind() {
    assert_eq!(surface_label(OverlayKind::Popover, "clock"), "popover-clock");
    assert_eq!(surface_label(OverlayKind::Popup, "clock"), "popup-clock");
}

#[test]
fn resolve_places_below_the_anchor() {
    let p = resolve(&request(PopupMode::Toggle), &laptop(), None).unwrap();
    assert_eq!(p.geometry, OverlayGeometry { x: 0, y: 58, width: 200, height: 100 });
    assert_eq!(p.max_height, 842);
    assert_eq!(resolve(&request(PopupMode::Toggle), &Vec::new(), None), Err(OverlayError::NoMonitors));
}

#[test]
fn second_toggle_closes() {
    let mut c = OverlayController::new(OverlayKind::Popover, true);
    let first = c.open_or_toggle("clock", &request(PopupMode::Toggle), &laptop(), None).unwrap();
    assert!(!first.closed);
    assert_eq!(first.id, "clock");
    assert_eq!(first.label, "popover-clock");
    assert_eq!(first.max_height, 842);
    assert_eq!(first.action, SurfaceAction::Create(OverlayGeometry { x: 0, y: 58, width: 200, height: 100 }));
    assert_eq!(first.previous, None);
    assert_eq!(c.list_open(), vec!["clock".to_string()]);

    let second = c.open_or_toggle("clock", &request(PopupMode::Toggle), &laptop(), None).unwrap();
    assert!(second.closed);
    assert_eq!(second.max_height, 0);
    assert_eq!(second.action, SurfaceAction::Hide);
    assert!(c.list_open().is_empty());
    assert!(!c.is_open("clock"));

    let third = c.open_or_toggle("clock", &request(PopupMode::Toggle), &laptop(), None).unwrap();
    assert!(!third.closed);
    assert_eq!(third.action, SurfaceAction::Show(OverlayGeometry { x: 0, y: 58, width: 200, height: 100 }));
    assert_eq!(
        third.previous,
        Some(PriorEntry {
            geometry: OverlayGeometry { x: 0, y: 58, width: 200, height: 100 },
            mode: PopupMode::Toggle
        })
    );
    assert_eq!(c.list_open().len(), 1);
    let info = third.popover_info();
    assert_eq!(info.id, "clock");
    assert_eq!(info.max_height, 842);
    assert!(!info.closed);
    assert_eq!(third.popup_info().label, "popover-clock");
}

#[test]
fn surfaces_that_cannot_be_reused_are_destroyed() {
    let mut c = OverlayController::new(OverlayKind::Popup, false);
    assert_eq!(c.kind(), OverlayKind::Popup);
    assert!(!c.supports_reuse());
    c.open_or_toggle("a", &request(PopupMode::Toggle), &laptop(), None).unwrap();
    let closed = c.open_or_toggle("a", &request(PopupMode::Toggle), &laptop(), None).unwrap();
    assert!(closed.closed);
    assert_eq!(closed.action, SurfaceAction::Destroy);
    assert_eq!(c.last_geometry("a"), None);
    let again = c.open_or_toggle("a", &request(PopupMode::Toggle), &laptop(), None).unwrap();
    assert!(matches!(again.action, SurfaceAction::Create(_)));
}

#[test]
fn opening_without_a_display_fails_and_changes_nothing() {
    let mut c = OverlayController::new(OverlayKind::Popover, true);
    let r = c.open_or_toggle("clock", &request(PopupMode::Toggle), &Vec::new(), None);
    assert!(matches!(r, Err(OverlayError::NoMonitors)));
    assert!(c.list_open().is_empty());
    assert_eq!(c.mode("clock"), None);
}

#[test]
fn close_is_quiet_about_what_is_not_open() {
    let mut c = OverlayController::new(OverlayKind::Popover, true);
    let nothing = c.close("ghost");
    assert!(!nothing.closed);
    assert_eq!(nothing.action, SurfaceAction::Nothing);
    assert_eq!(nothing.label, "popover-ghost");
    c.open_or_toggle("clock", &request(PopupMode::Toggle), &laptop(), None).unwrap();
    let closed = c.close("clock");
    assert!(closed.closed);
    assert_eq!(closed.action, SurfaceAction::Hide);
    assert_eq!(closed.id, "clock");
    let again = c.close("clock");
    assert!(!again.closed);
}

#[test]
fn close_all_reports_each_open_overlay_once() {
    let mut c = OverlayController::new(OverlayKind::Popover, true);
    c.open_or_toggle("a", &request(PopupMode::Toggle), &laptop(), None).unwrap();
    c.open_or_toggle("b", &request(PopupMode::Hover), &laptop(), None).unwrap();
    c.open_or_toggle("c", &request(PopupMode::Toggle), &laptop(), None).unwrap();
    c.close("a");
    set_monitor_task(&mut c, "b", 9);
    let closed = c.close_all();
    assert_eq!(closed.len(), 2);
    assert_eq!(closed[0].id, "b");
    assert_eq!(closed[0].released, HoverRelease { timer: None, task: Some(9) });
    assert_eq!(closed[1].id, "c");
    assert!(closed.iter().all(|o| o.closed && o.action == SurfaceAction::Hide));
    assert!(c.list_open().is_empty());
    assert!(c.close_all().is_empty());

    let mut d = OverlayController::new(OverlayKind::Popup, false);
    d.open_or_toggle("x", &request(PopupMode::Toggle), &laptop(), None).unwrap();
    let gone = d.close_all();
    assert_eq!(gone.len(), 1);
    assert_eq!(gone[0].action, SurfaceAction::Destroy);
    assert_eq!(gone[0].label, "popup-x");
}

#[test]
fn reposition_needs_an_open_overlay() {
    let mut c = OverlayController::new(OverlayKind::Popup, false);
    let moved = OverlayRequest::new(
        PopoverAnchor { x: 500, y: 300, width: 40, height: 20 },
        200,
        100,
        Some(PopoverAlign::Start),
        Some(4),
        None,
    );
    assert_eq!(c.reposition("a", &moved, &laptop(), None), Err(OverlayError::NotFound));
    c.open_or_toggle("a", &request(PopupMode::Toggle), &laptop(), None).unwrap();
    assert_eq!(c.reposition("a", &moved, &Vec::new(), None), Err(OverlayError::NoMonitors));
    let p = c.reposition("a", &moved, &laptop(), None).unwrap();
    assert_eq!(p.geometry, OverlayGeometry { x: 500, y: 324, width: 200, height: 100 });
    assert_eq!(c.last_geometry("a"), Some(p.geometry));
    assert!(c.is_open("a"));
    c.record_geometry("a", OverlayGeometry { x: 1, y: 2, width: 3, height: 4 });
    assert_eq!(c.last_geometry("a"), Some(OverlayGeometry { x: 1, y: 2, width: 3, height: 4 }));
}

#[test]
fn a_failed_opening_is_undone() {
    let mut c = OverlayController::new(OverlayKind::Popover, true);
    let opened = c.open_or_toggle("a", &request(PopupMode::Toggle), &laptop(), None).unwrap();
    c.revert_open("a", opened.previous);
    assert_eq!(c.last_geometry("a"), None);
    assert!(!c.is_open("a"));

    c.open_or_toggle("a", &request(PopupMode::Toggle), &laptop(), None).unwrap();
    c.close("a");
    let moved = OverlayRequest::new(
        PopoverAnchor { x: 500, y: 300, width: 40, height: 20 },
        200,
        100,
        None,
        None,
        Some(PopupMode::Hover),
    );
    let reopened = c.open_or_toggle("a", &moved, &laptop(), None).unwrap();
    assert!(c.hover_coordinator("a").is_some());
    c.revert_open("a", reopened.previous);
    assert!(!c.is_open("a"));
    assert_eq!(c.last_geometry("a"), Some(OverlayGeometry { x: 0, y: 58, width: 200, height: 100 }));
    assert_eq!(c.mode("a"), Some(PopupMode::Toggle));
    assert!(c.hover_coordinator("a").is_none());
}

#[test]
fn focus_loss_spares_hover_overlays() {
    let mut c = OverlayController::new(OverlayKind::Popup, false);
    c.open_or_toggle("t", &request(PopupMode::Toggle), &laptop(), None).unwrap();
    c.open_or_toggle("h", &request(PopupMode::Hover), &laptop(), None).unwrap();
    c.open_or_toggle("s", &request(PopupMode::HoverSticky), &laptop(), None).unwrap();
    assert!(c.focus_lost("t").closed);
    assert!(!c.focus_lost("h").closed);
    assert!(c.focus_lost("s").closed);
    assert!(!c.focus_lost("nobody").closed);
    assert_eq!(c.list_open(), vec!["h".to_string()]);
}

#[test]
fn only_hover_mode_gets_a_coordinator() {
    let mut c = OverlayController::new(OverlayKind::Popup, false);
    c.open_or_toggle("t", &request(PopupMode::Toggle), &laptop(), None).unwrap();
    c.open_or_toggle("h", &request(PopupMode::Hover), &laptop(), None).unwrap();
    assert!(c.hover_coordinator("t").is_none());
    let h = c.hover_coordinator("h").unwrap();
    assert_eq!(h.trigger_bounds, TriggerBounds { x: 0, y: 0, width: 50, height: 50 });
    assert_eq!(h.close_timer, None);
    assert_eq!(h.outside_count, 0);
    assert_eq!(hover_tick(&mut c, "t", 1, 0, 0), HoverAction::Exit);
    assert!(!init_hover_coordinator(&mut c, "t", h.trigger_bounds, Some(3)));
    assert!(init_hover_coordinator(&mut c, "h", TriggerBounds { x: 9, y: 9, width: 1, height: 1 }, Some(3)));
    let fresh = c.hover_coordinator("h").unwrap();
    assert_eq!(fresh.monitor_task, Some(3));
    assert_eq!(fresh.trigger_bounds, TriggerBounds { x: 9, y: 9, width: 1, height: 1 });
}

#[test]
fn nothing_is_watched_before_the_surface_is_known() {
    let mut c = OverlayController::new(OverlayKind::Popup, false);
    c.open_or_toggle("h", &request(PopupMode::Hover), &laptop(), None).unwrap();
    assert_eq!(hover_tick(&mut c, "h", 7, 1000, 1000), HoverAction::NotReady);
    assert_eq!(hover_tick(&mut c, "h", 7, 1000, 1000), HoverAction::NotReady);
    assert_eq!(c.hover_coordinator("h").unwrap().outside_count, 0);
    assert!(set_window_number(&mut c, "h", 7));
    assert!(!set_window_number(&mut c, "nobody", 7));
    assert!(!set_monitor_task(&mut c, "nobody", 7));
    assert_eq!(hover_tick(&mut c, "h", 7, 1000, 1000), HoverAction::Inside { cancelled: None });
}

#[test]
fn short_excursions_never_schedule_a_close() {
    let mut c = OverlayController::new(OverlayKind::Popup, false);
    c.open_or_toggle("h", &request(PopupMode::Hover), &laptop(), None).unwrap();
    set_window_number(&mut c, "h", 7);
    for _ in 0..20 {
        assert_eq!(hover_tick(&mut c, "h", 0, 1000, 1000), HoverAction::Outside);
        assert_eq!(hover_tick(&mut c, "h", 0, 25, 25), HoverAction::Inside { cancelled: None });
    }
    assert_eq!(c.hover_coordinator("h").unwrap().close_timer, None);
}

#[test]
fn a_long_stay_outside_schedules_exactly_one_close() {
    assert_eq!(REQUIRED_OUTSIDE_COUNT, 2);
    assert_eq!(HOVER_CLOSE_DELAY_MS, 150);
    assert_eq!(WINDOW_MONITOR_INTERVAL_MS, 100);
    let mut c = OverlayController::new(OverlayKind::Popup, false);
    c.open_or_toggle("h", &request(PopupMode::Hover), &laptop(), None).unwrap();
    set_window_number(&mut c, "h", 7);
    let mut scheduled = 0;
    for tick in 1..=50u64 {
        match hover_tick(&mut c, "h", 0, 1000, 1000) {
            HoverAction::ScheduleClose => {
                assert_eq!(tick, REQUIRED_OUTSIDE_COUNT);
                scheduled += 1;
                assert_eq!(schedule_hover_close(&mut c, "h", 40 + tick), ScheduleOutcome::Armed { replaced: None });
            }
            HoverAction::Outside => {}
            other => panic!("unexpected answer {:?}", other),
        }
    }
    assert_eq!(scheduled, 1);
    assert_eq!(c.hover_coordinator("h").unwrap().close_timer, Some(42));
    assert_eq!(c.hover_coordinator("h").unwrap().outside_count, 50);
}

#[test]
fn arming_replaces_the_pending_timer() {
    let mut c = OverlayController::new(OverlayKind::Popup, false);
    c.open_or_toggle("h", &request(PopupMode::Hover), &laptop(), None).unwrap();
    assert_eq!(schedule_hover_close(&mut c, "h", 1), ScheduleOutcome::Armed { replaced: None });
    assert_eq!(schedule_hover_close(&mut c, "h", 2), ScheduleOutcome::Armed { replaced: Some(1) });
    assert_eq!(c.hover_coordinator("h").unwrap().close_timer, Some(2));
    assert_eq!(schedule_hover_close(&mut c, "nobody", 3), ScheduleOutcome::Dropped);
    assert!(!close_timer_fired(&mut c, "h", 1).closed);
    assert!(c.is_open("h"));
    assert_eq!(cancel_close_timer(&mut c, "h"), Some(2));
    assert_eq!(cancel_close_timer(&mut c, "h"), None);
    assert_eq!(cancel_close_timer(&mut c, "nobody"), None);
    assert!(!close_timer_fired(&mut c, "h", 2).closed);
    assert!(c.is_open("h"));
}

#[test]
fn coming_back_cancels_the_pending_close() {
    let mut c = OverlayController::new(OverlayKind::Popup, false);
    c.open_or_toggle("h", &request(PopupMode::Hover), &laptop(), None).unwrap();
    set_window_number(&mut c, "h", 7);
    hover_tick(&mut c, "h", 0, 1000, 1000);
    assert_eq!(hover_tick(&mut c, "h", 0, 1000, 1000), HoverAction::ScheduleClose);
    schedule_hover_close(&mut c, "h", 11);
    assert_eq!(hover_tick(&mut c, "h", 0, 60, 60), HoverAction::Inside { cancelled: Some(11) });
    assert!(!close_timer_fired(&mut c, "h", 11).closed);
    assert_eq!(hover_tick(&mut c, "h", 0, 1000, 1000), HoverAction::Outside);
    assert_eq!(hover_tick(&mut c, "h", 0, 1000, 1000), HoverAction::ScheduleClose);
}

#[test]
fn teardown_hands_back_both_handles() {
    let mut c = OverlayController::new(OverlayKind::Popup, false);
    c.open_or_toggle("h", &request(PopupMode::Hover), &laptop(), None).unwrap();
    set_monitor_task(&mut c, "h", 5);
    schedule_hover_close(&mut c, "h", 6);
    assert_eq!(cleanup_hover_coordinator(&mut c, "h"), HoverRelease { timer: Some(6), task: Some(5) });
    assert_eq!(cleanup_hover_coordinator(&mut c, "h"), HoverRelease { timer: None, task: None });
    assert!(c.is_open("h"));
    assert_eq!(hover_tick(&mut c, "h", 0, 0, 0), HoverAction::Exit);
    assert!(!close_timer_fired(&mut c, "h", 6).closed);
}

#[test]
fn closing_releases_the_coordinator() {
    let mut c = OverlayController::new(OverlayKind::Popup, false);
    c.open_or_toggle("h", &request(PopupMode::Hover), &laptop(), None).unwrap();
    set_monitor_task(&mut c, "h", 5);
    schedule_hover_close(&mut c, "h", 6);
    let closed = c.close("h");
    assert!(closed.closed);
    assert_eq!(closed.released, HoverRelease { timer: Some(6), task: Some(5) });
}

#[test]
fn hover_overlay_from_trigger_to_close() {
    let mut triggers = TriggerRegistry::new();
    let bounds = TriggerBounds { x: 0, y: 0, width: 50, height: 50 };
    let options = PopupTriggerOptions::new(200, 100, None, None);
    assert!(register_hover_trigger(&mut triggers, "t1", bounds, options, 1).start_monitor);

    let mut overlays = OverlayController::new(OverlayKind::Popup, false);
    let events = trigger_tick(&mut triggers, 25, 25);
    assert_eq!(events.len(), 1);
    assert!(events[0].entered);
    let spawn = OverlayRequest::new(
        PopoverAnchor { x: bounds.x, y: bounds.y, width: bounds.width, height: bounds.height },
        options.popup_width,
        options.popup_height,
        Some(options.popup_align.to_alignment()),
        Some(options.popup_offset_y),
        Some(PopupMode::Hover),
    );
    let opened = overlays.open_or_toggle("o1", &spawn, &laptop(), None).unwrap();
    assert!(!opened.closed);
    assert!(set_window_number(&mut overlays, "o1", 31));

    for _ in 0..10 {
        assert_eq!(hover_tick(&mut overlays, "o1", 0, 25, 25), HoverAction::Inside { cancelled: None });
    }
    assert_eq!(overlays.hover_coordinator("o1").unwrap().close_timer, None);

    for tick in 1..REQUIRED_OUTSIDE_COUNT {
        let _ = tick;
        assert_eq!(hover_tick(&mut overlays, "o1", 0, 1000, 1000), HoverAction::Outside);
    }
    assert_eq!(hover_tick(&mut overlays, "o1", 0, 1000, 1000), HoverAction::ScheduleClose);
    assert_eq!(schedule_hover_close(&mut overlays, "o1", 900), ScheduleOutcome::Armed { replaced: None });
    assert_eq!(overlays.list_open(), vec!["o1".to_string()]);

    let closed = close_timer_fired(&mut overlays, "o1", 900);
    assert!(closed.closed);
    assert_eq!(closed.action, SurfaceAction::Destroy);
    assert!(!overlays.list_open().contains(&"o1".to_string()));
    assert_eq!(hover_tick(&mut overlays, "o1", 0, 1000, 1000), HoverAction::Exit);
}

//! Hover tracking of open overlays: one decision per poll, a debounced close
//! timer, and the teardown of a coordinator.
//!
//! The caller owns the clock and the cursor. On every poll it reports what
//! it sampled; the answer says which timer to cancel or that a close timer
//! is to be armed. Timers and polling tasks are known here by the numbers
//! the caller gave them.

use crate::controller::{surface_label, CloseOutcome, OverlayController};
use crate::geometry::{is_cursor_over_trigger, TriggerBounds};
use crate::keys::lemma_index_of;
use crate::overlay::{
    release_of, ControllerView, HoverCoordinator, HoverRelease, PopupMode, SurfaceAction,
};
use vstd::prelude::*;

verus! {

/// Consecutive polls outside before a close is scheduled.
pub const REQUIRED_OUTSIDE_COUNT: u64 = 2;

/// Delay of the close timer, in milliseconds.
pub const HOVER_CLOSE_DELAY_MS: u64 = 150;

/// Time between two polls of one overlay, in milliseconds.
pub const WINDOW_MONITOR_INTERVAL_MS: u64 = 100;

/// What a poll asks of the caller.
#[derive(Clone, Copy, Debug, PartialEq, Eq, Structural)]
pub enum HoverAction {
    /// The overlay has no coordinator any more: the polling loop ends.
    Exit,
    /// The identity of the overlay's surface is not known yet: nothing is watched.
    NotReady,
    /// The cursor is over the overlay or its trigger; the timer named, if
    /// any, was pending and is to be cancelled.
    Inside { cancelled: Option<u64> },
    /// The cursor is outside and nothing is to be done yet.
    Outside,
    /// The cursor has stayed outside long enough: arm a close timer.
    ScheduleClose,
}

/// What arming a close timer did.
#[derive(Clone, Copy, Debug, PartialEq, Eq, Structural)]
pub enum ScheduleOutcome {
    /// The timer is now the pending one; the timer named, if any, was
    /// pending before and is to be cancelled.
    Armed { replaced: Option<u64> },
    /// The overlay has no coordinator: the new timer is to be cancelled.
    Dropped,
}

impl HoverCoordinator {
    /// The cursor counts as inside: over the overlay's own surface, or over
    /// the padded trigger rectangle.
    pub open spec fn sees_inside(self, window_at_point: i64, mouse_x: int, mouse_y: int) -> bool {
        self.window_number == Some(window_at_point) || self.trigger_bounds.covers(mouse_x, mouse_y)
    }

    /// The outside counter after one more poll outside; it stops at the
    /// largest value it can hold.
    pub open spec fn counted(self) -> u64 {
        if self.outside_count < u64::MAX {
            (self.outside_count + 1) as u64
        } else {
            self.outside_count
        }
    }

    /// The coordinator after a poll that found the cursor inside or outside.
    pub open spec fn advanced(self, inside: bool) -> HoverCoordinator {
        if inside {
            HoverCoordinator { close_timer: None, outside_count: 0, ..self }
        } else {
            HoverCoordinator { outside_count: self.counted(), ..self }
        }
    }

    /// What such a poll asks of the caller.
    pub open spec fn advice(self, inside: bool) -> HoverAction {
        if inside {
            HoverAction::Inside { cancelled: self.close_timer }
        } else if self.counted() >= REQUIRED_OUTSIDE_COUNT && self.close_timer is None {
            HoverAction::ScheduleClose
        } else {
            HoverAction::Outside
        }
    }

    /// The coordinator after one poll with the given samples.
    pub open spec fn polled(self, window_at_point: i64, mouse_x: int, mouse_y: int) -> HoverCoordinator {
        if self.window_number is None {
            self
        } else {
            self.advanced(self.sees_inside(window_at_point, mouse_x, mouse_y))
        }
    }

    /// What one poll with the given samples asks of the caller.
    pub open spec fn poll_action(self, window_at_point: i64, mouse_x: int, mouse_y: int) -> HoverAction {
        if self.window_number is None {
            HoverAction::NotReady
        } else {
            self.advice(self.sees_inside(window_at_point, mouse_x, mouse_y))
        }
    }

    /// The coordinator with `timer` as its pending close timer.
    pub open spec fn armed(self, timer: u64) -> HoverCoordinator {
        HoverCoordinator { close_timer: Some(timer), ..self }
    }

    /// The coordinator after `n` polls in a row that found the cursor
    /// outside, where every close the polls ask for is armed at once with
    /// the timer `timer`.
    pub open spec fn after_outside_polls(self, n: nat, timer: u64) -> HoverCoordinator
        decreases n,
    {
        if n == 0 {
            self
        } else {
            let before = self.after_outside_polls((n - 1) as nat, timer);
            if before.advice(false) == HoverAction::ScheduleClose {
                before.advanced(false).armed(timer)
            } else {
                before.advanced(false)
            }
        }
    }

    /// How many of those `n` polls ask for a close timer.
    pub open spec fn closes_scheduled(self, n: nat, timer: u64) -> nat
        decreases n,
    {
        if n == 0 {
            0
        } else {
            let before = self.after_outside_polls((n - 1) as nat, timer);
            let earlier = self.closes_scheduled((n - 1) as nat, timer);
            if before.advice(false) == HoverAction::ScheduleClose {
                earlier + 1
            } else {
                earlier
            }
        }
    }
}

/// One poll of the overlay `popup_id`.
///
/// `window_at_point` is the surface the hit test found under the cursor and
/// `(mouse_x, mouse_y)` the cursor itself, both from one sample. Without a
/// coordinator the answer is `Exit` and nothing changes. Until the
/// overlay's own surface is known the answer is `NotReady`. Otherwise a
/// cursor inside clears the pending timer and the outside counter, and a
/// cursor outside counts up; once the counter has reached
/// `REQUIRED_OUTSIDE_COUNT` and no timer is pending, the answer is
/// `ScheduleClose`.
pub fn hover_tick(
    controller: &mut OverlayController,
    popup_id: &str,
    window_at_point: i64,
    mouse_x: i32,
    mouse_y: i32,
) -> (action: HoverAction)
    requires
        old(controller).wf(),
    ensures
        final(controller).wf(),
        match old(controller)@.hover_of(popup_id@) {
            Some(h) => {
                &&& final(controller)@ == old(controller)@.with_hover(
                    popup_id@,
                    Some(h.polled(window_at_point, mouse_x as int, mouse_y as int)),
                )
                &&& action == h.poll_action(window_at_point, mouse_x as int, mouse_y as int)
            },
            None => final(controller)@ == old(controller)@ && action == HoverAction::Exit,
        },
{
    let coordinator: HoverCoordinator = match controller.hover_coordinator(popup_id) {
        Some(h) => h,
        None => {
            return HoverAction::Exit;
        },
    };
    let own: i64 = match coordinator.window_number {
        Some(n) => n,
        None => {
            proof {
                let c = controller@;
                let k = c.position(popup_id@);
                lemma_index_of(c.ids(), popup_id@);
                assert(c.entries[k].hover == Some(coordinator));
                assert(c.entries.update(k, c.entries[k]) =~= c.entries);
            }
            return HoverAction::NotReady;
        },
    };
    let inside: bool = own == window_at_point || is_cursor_over_trigger(
        mouse_x,
        mouse_y,
        &coordinator.trigger_bounds,
    );
    if inside {
        let next = HoverCoordinator {
            trigger_bounds: coordinator.trigger_bounds,
            close_timer: None,
            monitor_task: coordinator.monitor_task,
            window_number: coordinator.window_number,
            outside_count: 0,
        };
        controller.set_hover(popup_id, Some(next));
        HoverAction::Inside { cancelled: coordinator.close_timer }
    } else {
        let count: u64 = if coordinator.outside_count < u64::MAX {
            coordinator.outside_count + 1
        } else {
            coordinator.outside_count
        };
        let next = HoverCoordinator {
            trigger_bounds: coordinator.trigger_bounds,
            close_timer: coordinator.close_timer,
            monitor_task: coordinator.monitor_task,
            window_number: coordinator.window_number,
            outside_count: count,
        };
        controller.set_hover(popup_id, Some(next));
        if count >= REQUIRED_OUTSIDE_COUNT && coordinator.close_timer.is_none() {
            HoverAction::ScheduleClose
        } else {
            HoverAction::Outside
        }
    }
}

/// Makes `timer` the pending close timer of `popup_id`.
///
/// Afterwards the coordinator holds exactly this one timer; the one it
/// held before is reported so that the caller cancels it. Without a
/// coordinator nothing changes and the answer is `Dropped`.
pub fn schedule_hover_close(controller: &mut OverlayController, popup_id: &str, timer: u64) -> (r:
    ScheduleOutcome)
    requires
        old(controller).wf(),
    ensures
        final(controller).wf(),
        match old(controller)@.hover_of(popup_id@) {
            Some(h) => {
                &&& final(controller)@ == old(controller)@.with_hover(popup_id@, Some(h.armed(timer)))
                &&& r == ScheduleOutcome::Armed { replaced: h.close_timer }
                &&& final(controller)@.hover_of(popup_id@) == Some(h.armed(timer))
            },
            None => final(controller)@ == old(controller)@ && r == ScheduleOutcome::Dropped,
        },
{
    match controller.hover_coordinator(popup_id) {
        Some(h) => {
            let next = HoverCoordinator {
                trigger_bounds: h.trigger_bounds,
                close_timer: Some(timer),
                monitor_task: h.monitor_task,
                window_number: h.window_number,
                outside_count: h.outside_count,
            };
            controller.set_hover(popup_id, Some(next));
            ScheduleOutcome::Armed { replaced: h.close_timer }
        },
        None => ScheduleOutcome::Dropped,
    }
}

/// Takes the pending close timer of `popup_id`, if there is one, and hands
/// it back for the caller to cancel. Nothing else changes.
pub fn cancel_close_timer(controller: &mut OverlayController, popup_id: &str) -> (cancelled: Option<u64>)
    requires
        old(controller).wf(),
    ensures
        final(controller).wf(),
        match old(controller)@.hover_of(popup_id@) {
            Some(h) => {
                &&& final(controller)@ == old(controller)@.with_hover(
                    popup_id@,
                    Some(HoverCoordinator { close_timer: None, ..h }),
                )
                &&& cancelled == h.close_timer
            },
            None => final(controller)@ == old(controller)@ && cancelled is None,
        },
{
    match controller.hover_coordinator(popup_id) {
        Some(h) => {
            let next = HoverCoordinator {
                trigger_bounds: h.trigger_bounds,
                close_timer: None,
                monitor_task: h.monitor_task,
                window_number: h.window_number,
                outside_count: h.outside_count,
            };
            controller.set_hover(popup_id, Some(next));
            h.close_timer
        },
        None => None,
    }
}

/// Tears down the coordinator of `popup_id` and hands back its timer and
/// its polling task for the caller to cancel. The overlay itself stays as
/// it is.
pub fn cleanup_hover_coordinator(controller: &mut OverlayController, popup_id: &str) -> (released:
    HoverRelease)
    requires
        old(controller).wf(),
    ensures
        final(controller).wf(),
        final(controller)@ == old(controller)@.with_hover(popup_id@, None),
        released == release_of(old(controller)@.hover_of(popup_id@)),
        final(controller)@.hover_of(popup_id@) is None,
{
    let released: HoverRelease = match controller.hover_coordinator(popup_id) {
        Some(h) => HoverRelease { timer: h.close_timer, task: h.monitor_task },
        None => HoverRelease { timer: None, task: None },
    };
    controller.set_hover(popup_id, None);
    released
}

/// Starts hover tracking of `popup_id` afresh, with `trigger_bounds` as the
/// rectangle that counts as inside and `monitor_task` as its polling task.
///
/// Only an overlay that is open in hover mode is watched: for any other
/// identifier nothing changes and the answer is `false`. What an earlier
/// coordinator held is lost; tear it down first.
pub fn init_hover_coordinator(
    controller: &mut OverlayController,
    popup_id: &str,
    trigger_bounds: TriggerBounds,
    monitor_task: Option<u64>,
) -> (started: bool)
    requires
        old(controller).wf(),
    ensures
        final(controller).wf(),
        started == old(controller)@.is_hover_tracked(popup_id@),
        final(controller)@ == (if started {
            old(controller)@.with_hover(
                popup_id@,
                Some(HoverCoordinator { monitor_task, ..HoverCoordinator::fresh(trigger_bounds) }),
            )
        } else {
            old(controller)@
        }),
{
    let watched: bool = controller.is_open(popup_id) && match controller.mode(popup_id) {
        Some(PopupMode::Hover) => true,
        _ => false,
    };
    if watched {
        controller.set_hover(
            popup_id,
            Some(
                HoverCoordinator {
                    trigger_bounds,
                    close_timer: None,
                    monitor_task,
                    window_number: None,
                    outside_count: 0,
                },
            ),
        );
    }
    watched
}

/// Records the identity of the surface of `popup_id`, from which on its
/// polls are watched. Without a coordinator nothing changes and the answer
/// is `false`.
pub fn set_window_number(controller: &mut OverlayController, popup_id: &str, window_number: i64) -> (known:
    bool)
    requires
        old(controller).wf(),
    ensures
        final(controller).wf(),
        match old(controller)@.hover_of(popup_id@) {
            Some(h) => {
                &&& known
                &&& final(controller)@ == old(controller)@.with_hover(
                    popup_id@,
                    Some(HoverCoordinator { window_number: Some(window_number), ..h }),
                )
            },
            None => !known && final(controller)@ == old(controller)@,
        },
{
    match controller.hover_coordinator(popup_id) {
        Some(h) => {
            let next = HoverCoordinator {
                trigger_bounds: h.trigger_bounds,
                close_timer: h.close_timer,
                monitor_task: h.monitor_task,
                window_number: Some(window_number),
                outside_count: h.outside_count,
            };
            controller.set_hover(popup_id, Some(next));
            true
        },
        None => false,
    }
}

/// Records the polling task of `popup_id`. Without a coordinator nothing
/// changes and the answer is `false`: the caller stops the task.
pub fn set_monitor_task(controller: &mut OverlayController, popup_id: &str, monitor_task: u64) -> (known:
    bool)
    requires
        old(controller).wf(),
    ensures
        final(controller).wf(),
        match old(controller)@.hover_of(popup_id@) {
            Some(h) => {
                &&& known
                &&& final(controller)@ == old(controller)@.with_hover(
                    popup_id@,
                    Some(HoverCoordinator { monitor_task: Some(monitor_task), ..h }),
                )
            },
            None => !known && final(controller)@ == old(controller)@,
        },
{
    match controller.hover_coordinator(popup_id) {
        Some(h) => {
            let next = HoverCoordinator {
                trigger_bounds: h.trigger_bounds,
                close_timer: h.close_timer,
                monitor_task: Some(monitor_task),
                window_number: h.window_number,
                outside_count: h.outside_count,
            };
            controller.set_hover(popup_id, Some(next));
            true
        },
        None => false,
    }
}

/// The timer `timer` is the one whose firing still closes `popup_id`.
pub open spec fn timer_is_pending(c: ControllerView, popup_id: Seq<char>, timer: u64) -> bool {
    c.hover_of(popup_id) matches Some(h) && h.close_timer == Some(timer)
}

/// Reacts to the close timer `timer` of `popup_id` having fired.
///
/// If the overlay still has a coordinator and `timer` is its pending
/// timer, the overlay is closed as by `close`. A timer that fires after
/// the coordinator was torn down, or after it was cancelled or replaced,
/// has lost the race: nothing changes and nothing is reported as closed.
pub fn close_timer_fired(controller: &mut OverlayController, popup_id: &str, timer: u64) -> (r: CloseOutcome)
    requires
        old(controller).wf(),
    ensures
        final(controller).wf(),
        final(controller)@ == (if timer_is_pending(old(controller)@, popup_id@, timer) {
            old(controller)@.close(popup_id@)
        } else {
            old(controller)@
        }),
        r@ == (if timer_is_pending(old(controller)@, popup_id@, timer) {
            old(controller)@.close_outcome(popup_id@)
        } else {
            old(controller)@.nothing_closed(popup_id@)
        }),
        r.closed == timer_is_pending(old(controller)@, popup_id@, timer),
        r.closed ==> !final(controller)@.is_open(popup_id@),
        r.closed ==> forall|later: u64| !timer_is_pending(final(controller)@, popup_id@, later),
{
    let pending: bool = match controller.hover_coordinator(popup_id) {
        Some(h) => match h.close_timer {
            Some(t) => t == timer,
            None => false,
        },
        None => false,
    };
    if pending {
        let ghost before = controller@;
        let r = controller.close(popup_id);
        proof {
            before.lemma_closed_is_not_open(popup_id@);
            before.lemma_closed_at(popup_id@);
        }
        r
    } else {
        CloseOutcome {
            id: popup_id.to_owned(),
            label: surface_label(controller.kind(), popup_id),
            closed: false,
            action: SurfaceAction::Nothing,
            released: HoverRelease { timer: None, task: None },
        }
    }
}

/// A cursor that stays outside does not ask for a close before
/// `REQUIRED_OUTSIDE_COUNT` polls have passed, and asks for exactly one
/// from then on, however long it stays: the timer armed on that poll is
/// still the pending one.
pub proof fn lemma_debounce(h: HoverCoordinator, n: nat, timer: u64)
    requires
        h.outside_count == 0,
        h.close_timer is None,
    ensures
        n < REQUIRED_OUTSIDE_COUNT ==> h.closes_scheduled(n, timer) == 0 && h.after_outside_polls(
            n,
            timer,
        ).close_timer is None,
        n >= REQUIRED_OUTSIDE_COUNT ==> h.closes_scheduled(n, timer) == 1 && h.after_outside_polls(
            n,
            timer,
        ).close_timer == Some(timer),
        h.after_outside_polls(n, timer).outside_count == (if n <= u64::MAX {
            n
        } else {
            u64::MAX as nat
        }),
    decreases n,
{
    if n > 0 {
        lemma_debounce(h, (n - 1) as nat, timer);
    }
}

/// Whatever was pending before, arming leaves exactly the new timer
/// pending and names the old one for cancelling.
pub proof fn lemma_single_timer(h: HoverCoordinator, first: u64, second: u64)
    ensures
        h.armed(first).armed(second).close_timer == Some(second),
        h.armed(first).armed(second) == h.armed(second),
{
}

} // verus!

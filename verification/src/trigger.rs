//! The registry of hover triggers and the decisions of its shared monitor.
//!
//! A trigger is a rectangle on screen that is watched whether or not any
//! overlay is open. One monitor polls the cursor for all of them; each poll
//! reports only the triggers whose hover state changed.

use crate::geometry::{is_cursor_over_trigger, TriggerBounds};
use crate::keys::{distinct, index_of, lemma_index_of, lemma_index_of_is};
use crate::overlay::PopupAlign;
use vstd::prelude::*;

verus! {

/// Time between two polls of the shared monitor, in milliseconds.
pub const TRIGGER_MONITOR_INTERVAL_MS: u64 = 50;

/// Vertical gap of a spawned popup when the caller names none.
pub const DEFAULT_TRIGGER_OFFSET_Y: i32 = 8;

/// How the popup of a trigger is to be placed once it is spawned.
#[derive(Clone, Copy, Debug, PartialEq, Eq, Structural)]
pub struct PopupTriggerOptions {
    pub popup_width: i32,
    pub popup_height: i32,
    pub popup_align: PopupAlign,
    pub popup_offset_y: i32,
}

impl PopupTriggerOptions {
    /// Fills in what the caller left out: centred, the default offset.
    pub fn new(popup_width: i32, popup_height: i32, popup_align: Option<PopupAlign>, popup_offset_y: Option<i32>) -> (r:
        PopupTriggerOptions)
        ensures
            r.popup_width == popup_width,
            r.popup_height == popup_height,
            r.popup_align == (match popup_align {
                Some(a) => a,
                None => PopupAlign::Center,
            }),
            r.popup_offset_y == (match popup_offset_y {
                Some(o) => o,
                None => DEFAULT_TRIGGER_OFFSET_Y,
            }),
    {
        PopupTriggerOptions {
            popup_width,
            popup_height,
            popup_align: match popup_align {
                Some(a) => a,
                None => PopupAlign::Center,
            },
            popup_offset_y: match popup_offset_y {
                Some(o) => o,
                None => DEFAULT_TRIGGER_OFFSET_Y,
            },
        }
    }
}

/// A trigger as the registry keeps it.
pub struct RegisteredTrigger {
    pub id: String,
    pub bounds: TriggerBounds,
    pub popup_options: PopupTriggerOptions,
    /// Whether the last poll found the cursor over this trigger.
    pub is_hovering: bool,
}

/// The mathematical value of a `RegisteredTrigger`.
pub struct TriggerView {
    pub id: Seq<char>,
    pub bounds: TriggerBounds,
    pub popup_options: PopupTriggerOptions,
    pub is_hovering: bool,
}

impl View for RegisteredTrigger {
    type V = TriggerView;

    open spec fn view(&self) -> TriggerView {
        TriggerView {
            id: self.id@,
            bounds: self.bounds,
            popup_options: self.popup_options,
            is_hovering: self.is_hovering,
        }
    }
}

impl TriggerView {
    /// The trigger after a poll with the cursor at `(mouse_x, mouse_y)`.
    pub open spec fn polled(self, mouse_x: int, mouse_y: int) -> TriggerView {
        TriggerView { is_hovering: self.bounds.covers(mouse_x, mouse_y), ..self }
    }

    /// That poll changes the hover state of the trigger.
    pub open spec fn flips(self, mouse_x: int, mouse_y: int) -> bool {
        self.is_hovering != self.bounds.covers(mouse_x, mouse_y)
    }
}

/// The cursor entered or left a trigger.
pub struct TriggerEvent {
    pub trigger_id: String,
    /// `true` for entering, `false` for leaving.
    pub entered: bool,
}

/// The mathematical value of a `TriggerEvent`.
pub struct TriggerEventView {
    pub trigger_id: Seq<char>,
    pub entered: bool,
}

impl View for TriggerEvent {
    type V = TriggerEventView;

    open spec fn view(&self) -> TriggerEventView {
        TriggerEventView { trigger_id: self.trigger_id@, entered: self.entered }
    }
}

/// The mathematical values of a list of events.
pub open spec fn event_views(list: Seq<TriggerEvent>) -> Seq<TriggerEventView> {
    Seq::new(list.len(), |i: int| list[i]@)
}

/// The mathematical values of a list of identifiers.
pub open spec fn id_views(list: Seq<String>) -> Seq<Seq<char>> {
    Seq::new(list.len(), |i: int| list[i]@)
}

/// Why an operation on a trigger failed.
#[derive(Clone, Copy, Debug, PartialEq, Eq, Structural)]
pub enum TriggerError {
    /// The identifier names no registered trigger.
    NotFound,
}

/// Writes the sentence that tells a caller why an operation on the
/// trigger `trigger_id` failed.
pub fn trigger_error_message(error: TriggerError, trigger_id: &str) -> (r: String)
    ensures
        r@ == "Trigger '"@ + trigger_id@ + "' not found"@,
{
    match error {
        TriggerError::NotFound => {
            let mut out: String = "Trigger '".to_owned();
            out.append(trigger_id);
            out.append("' not found");
            out
        },
    }
}

/// The mathematical value of a `TriggerRegistry`: the triggers in the order
/// in which they were first registered, and the task of the shared monitor
/// if one is running.
pub struct RegistryView {
    pub triggers: Seq<TriggerView>,
    pub monitor_task: Option<u64>,
}

impl RegistryView {
    pub open spec fn ids(self) -> Seq<Seq<char>> {
        Seq::new(self.triggers.len(), |i: int| self.triggers[i].id)
    }

    /// No identifier is registered twice.
    pub open spec fn wf(self) -> bool {
        distinct(self.ids())
    }

    /// The shared monitor runs if and only if a trigger is registered.
    pub open spec fn settled(self) -> bool {
        self.monitor_task is Some <==> self.triggers.len() > 0
    }

    pub open spec fn position(self, id: Seq<char>) -> int {
        index_of(self.ids(), id)
    }

    pub open spec fn is_registered(self, id: Seq<char>) -> bool {
        self.position(id) < self.triggers.len()
    }

    /// The triggers after `register`: the new one replaces the one of the
    /// same identifier, or goes to the end.
    pub open spec fn with_trigger(self, trigger: TriggerView) -> Seq<TriggerView> {
        if self.is_registered(trigger.id) {
            self.triggers.update(self.position(trigger.id), trigger)
        } else {
            self.triggers.push(trigger)
        }
    }

    /// The triggers after `unregister`.
    pub open spec fn without(self, id: Seq<char>) -> Seq<TriggerView> {
        if self.is_registered(id) {
            self.triggers.remove(self.position(id))
        } else {
            self.triggers
        }
    }

    /// The registry after `register`: a monitor runs, the one that ran
    /// before or else the task `monitor_task`.
    pub open spec fn registered(self, trigger: TriggerView, monitor_task: u64) -> RegistryView {
        RegistryView {
            triggers: self.with_trigger(trigger),
            monitor_task: match self.monitor_task {
                Some(t) => Some(t),
                None => Some(monitor_task),
            },
        }
    }

    /// The registry after `unregister`: once no trigger is left, no monitor
    /// runs.
    pub open spec fn unregistered(self, id: Seq<char>) -> RegistryView {
        RegistryView {
            triggers: self.without(id),
            monitor_task: if self.without(id).len() == 0 {
                None
            } else {
                self.monitor_task
            },
        }
    }

    /// The triggers after one poll with the cursor at `(mouse_x, mouse_y)`.
    pub open spec fn polled(self, mouse_x: int, mouse_y: int) -> Seq<TriggerView> {
        Seq::new(self.triggers.len(), |i: int| self.triggers[i].polled(mouse_x, mouse_y))
    }

    /// The events of that poll among the first `n` triggers: one for each
    /// trigger whose hover state changes, in registry order.
    pub open spec fn events_upto(self, mouse_x: int, mouse_y: int, n: int) -> Seq<TriggerEventView>
        decreases n,
    {
        if n <= 0 {
            Seq::empty()
        } else if self.triggers[n - 1].flips(mouse_x, mouse_y) {
            self.events_upto(mouse_x, mouse_y, n - 1).push(
                TriggerEventView {
                    trigger_id: self.triggers[n - 1].id,
                    entered: self.triggers[n - 1].bounds.covers(mouse_x, mouse_y),
                },
            )
        } else {
            self.events_upto(mouse_x, mouse_y, n - 1)
        }
    }

    /// The events of one poll.
    pub open spec fn events(self, mouse_x: int, mouse_y: int) -> Seq<TriggerEventView> {
        self.events_upto(mouse_x, mouse_y, self.triggers.len() as int)
    }

    /// The registry after one poll.
    pub open spec fn after_poll(self, mouse_x: int, mouse_y: int) -> RegistryView {
        RegistryView { triggers: self.polled(mouse_x, mouse_y), ..self }
    }

    /// The registry after the polls `cursors`, first to last.
    pub open spec fn after_polls(self, cursors: Seq<(int, int)>) -> RegistryView
        decreases cursors.len(),
    {
        if cursors.len() == 0 {
            self
        } else {
            self.after_polls(cursors.drop_last()).after_poll(cursors.last().0, cursors.last().1)
        }
    }

    /// How many events the polls `cursors` emit for the identifier `id`.
    pub open spec fn notifications(self, cursors: Seq<(int, int)>, id: Seq<char>) -> nat
        decreases cursors.len(),
    {
        if cursors.len() == 0 {
            0
        } else {
            self.notifications(cursors.drop_last(), id) + count_for(
                self.after_polls(cursors.drop_last()).events(cursors.last().0, cursors.last().1),
                id,
            )
        }
    }
}

/// How many events of a list carry the identifier `id`.
pub open spec fn count_for(events: Seq<TriggerEventView>, id: Seq<char>) -> nat
    decreases events.len(),
{
    if events.len() == 0 {
        0
    } else if events.last().trigger_id == id {
        count_for(events.drop_last(), id) + 1
    } else {
        count_for(events.drop_last(), id)
    }
}

/// How often a hover state changes when it starts as `hovering` and the
/// polls `cursors` are applied to a trigger with the bounds `bounds`.
pub open spec fn transitions(hovering: bool, bounds: TriggerBounds, cursors: Seq<(int, int)>) -> nat
    decreases cursors.len(),
{
    if cursors.len() == 0 {
        0
    } else {
        let earlier = cursors.drop_last();
        let before = hover_after(hovering, bounds, earlier);
        let now = bounds.covers(cursors.last().0, cursors.last().1);
        if before != now {
            transitions(hovering, bounds, earlier) + 1
        } else {
            transitions(hovering, bounds, earlier)
        }
    }
}

/// The hover state after the polls `cursors`.
pub open spec fn hover_after(hovering: bool, bounds: TriggerBounds, cursors: Seq<(int, int)>) -> bool {
    if cursors.len() == 0 {
        hovering
    } else {
        bounds.covers(cursors.last().0, cursors.last().1)
    }
}

/// The registry of hover triggers.
pub struct TriggerRegistry {
    triggers: Vec<RegisteredTrigger>,
    monitor_task: Option<u64>,
}

impl View for TriggerRegistry {
    type V = RegistryView;

    closed spec fn view(&self) -> RegistryView {
        RegistryView {
            triggers: Seq::new(self.triggers@.len(), |i: int| self.triggers@[i]@),
            monitor_task: self.monitor_task,
        }
    }
}

impl TriggerRegistry {
    /// The registry is consistent; every operation keeps it so.
    pub open spec fn wf(&self) -> bool {
        self@.wf()
    }

    /// A registry without triggers and without a monitor.
    pub fn new() -> (r: TriggerRegistry)
        ensures
            r.wf(),
            r@.settled(),
            r@.triggers.len() == 0,
            r@.monitor_task is None,
    {
        TriggerRegistry { triggers: Vec::new(), monitor_task: None }
    }

    fn find(&self, key: &String) -> (k: usize)
        ensures
            k == self@.position(key@),
            k <= self.triggers@.len(),
            k < self.triggers@.len() ==> self.triggers@[k as int].id@ == key@,
    {
        let ghost ids = self@.ids();
        let mut i: usize = 0;
        while i < self.triggers.len()
            invariant
                i <= self.triggers@.len(),
                ids == self@.ids(),
                ids.len() == self.triggers@.len(),
                forall|j: int| 0 <= j < i ==> #[trigger] ids[j] != key@,
            decreases self.triggers@.len() - i,
        {
            if self.triggers[i].id == *key {
                proof {
                    lemma_index_of_is(ids, key@, i as int);
                }
                return i;
            }
            i = i + 1;
        }
        proof {
            lemma_index_of_is(ids, key@, i as int);
        }
        i
    }

    /// The task of the shared monitor, if one is running.
    pub fn monitor_task(&self) -> (r: Option<u64>)
        ensures
            r == self@.monitor_task,
    {
        self.monitor_task
    }

    /// Tells whether no trigger is registered.
    pub fn is_empty(&self) -> (r: bool)
        ensures
            r == (self@.triggers.len() == 0),
    {
        self.triggers.len() == 0
    }

    /// The bounds and the hover state of a trigger, if it is registered.
    pub fn lookup(&self, trigger_id: &str) -> (r: Option<(TriggerBounds, PopupTriggerOptions, bool)>)
        ensures
            match r {
                Some(t) => {
                    &&& self@.is_registered(trigger_id@)
                    &&& t.0 == self@.triggers[self@.position(trigger_id@)].bounds
                    &&& t.1 == self@.triggers[self@.position(trigger_id@)].popup_options
                    &&& t.2 == self@.triggers[self@.position(trigger_id@)].is_hovering
                },
                None => !self@.is_registered(trigger_id@),
            },
    {
        let key: String = trigger_id.to_owned();
        let k: usize = self.find(&key);
        if k < self.triggers.len() {
            Some((self.triggers[k].bounds, self.triggers[k].popup_options, self.triggers[k].is_hovering))
        } else {
            None
        }
    }
}

/// What a registration asks of the caller.
#[derive(Clone, Copy, Debug, PartialEq, Eq, Structural)]
pub struct Registration {
    /// The shared monitor was not running: the caller starts it under the
    /// task number it offered.
    pub start_monitor: bool,
}

/// Registers the trigger `trigger_id`, or replaces it if it is registered.
///
/// The trigger starts as not hovered. If no monitor is running, the
/// registry takes `monitor_task` as its monitor and asks the caller to
/// start it; afterwards a monitor runs in every case.
pub fn register_hover_trigger(
    registry: &mut TriggerRegistry,
    trigger_id: &str,
    bounds: TriggerBounds,
    popup_options: PopupTriggerOptions,
    monitor_task: u64,
) -> (r: Registration)
    requires
        old(registry).wf(),
    ensures
        final(registry).wf(),
        final(registry)@.settled(),
        final(registry)@ == old(registry)@.registered(
            TriggerView { id: trigger_id@, bounds, popup_options, is_hovering: false },
            monitor_task,
        ),
        final(registry)@.is_registered(trigger_id@),
        r.start_monitor == (old(registry)@.monitor_task is None),
{
    let ghost before = registry@;
    let ghost entry = TriggerView { id: trigger_id@, bounds, popup_options, is_hovering: false };
    let key: String = trigger_id.to_owned();
    let k: usize = registry.find(&key);
    proof {
        lemma_index_of(before.ids(), trigger_id@);
    }
    if k < registry.triggers.len() {
        registry.triggers[k].bounds = bounds;
        registry.triggers[k].popup_options = popup_options;
        registry.triggers[k].is_hovering = false;
        proof {
            assert(registry@.triggers =~= before.with_trigger(entry));
            assert(registry@.ids() =~= before.ids());
        }
    } else {
        registry.triggers.push(RegisteredTrigger { id: key, bounds, popup_options, is_hovering: false });
        proof {
            assert(registry@.triggers =~= before.with_trigger(entry));
            let ids = registry@.ids();
            assert forall|i: int| 0 <= i < k implies #[trigger] ids[i] != trigger_id@ by {
                assert(ids[i] == before.ids()[i]);
            }
            lemma_index_of_is(ids, trigger_id@, k as int);
            assert forall|i: int, j: int| 0 <= i < j < ids.len() implies ids[i] != ids[j] by {
                assert(ids[i] == before.ids()[i]);
                if j < k {
                    assert(ids[j] == before.ids()[j]);
                }
            }
        }
    }
    start_trigger_monitor(registry, monitor_task)
}

/// Takes `monitor_task` as the shared monitor unless one is running.
///
/// The answer tells whether the caller is to start the task: a monitor is
/// never started twice.
pub fn start_trigger_monitor(registry: &mut TriggerRegistry, monitor_task: u64) -> (r: Registration)
    ensures
        final(registry)@.triggers == old(registry)@.triggers,
        r.start_monitor == (old(registry)@.monitor_task is None),
        final(registry)@.monitor_task == (match old(registry)@.monitor_task {
            Some(t) => Some(t),
            None => Some(monitor_task),
        }),
{
    match registry.monitor_task {
        Some(_) => Registration { start_monitor: false },
        None => {
            registry.monitor_task = Some(monitor_task);
            proof {
                assert(registry@.triggers =~= old(registry)@.triggers);
            }
            Registration { start_monitor: true }
        },
    }
}

/// Stops the shared monitor if no trigger is registered.
///
/// The task handed back, if any, is the monitor that was running against
/// an empty registry: the caller cancels it. Afterwards no monitor runs
/// against an empty registry.
pub fn stop_trigger_monitor_if_empty(registry: &mut TriggerRegistry) -> (stopped: Option<u64>)
    ensures
        final(registry)@.triggers == old(registry)@.triggers,
        stopped == (if old(registry)@.triggers.len() == 0 {
            old(registry)@.monitor_task
        } else {
            None
        }),
        final(registry)@.monitor_task == (if old(registry)@.triggers.len() == 0 {
            None
        } else {
            old(registry)@.monitor_task
        }),
        final(registry)@.triggers.len() == 0 ==> final(registry)@.monitor_task is None,
{
    if registry.triggers.len() == 0 {
        let stopped: Option<u64> = registry.monitor_task;
        registry.monitor_task = None;
        proof {
            assert(registry@.triggers =~= old(registry)@.triggers);
        }
        stopped
    } else {
        None
    }
}

/// Removes the trigger `trigger_id`; an unknown identifier changes nothing.
///
/// Once the last trigger is gone the shared monitor is stopped: its task is
/// handed back for the caller to cancel.
pub fn unregister_hover_trigger(registry: &mut TriggerRegistry, trigger_id: &str) -> (stopped: Option<u64>)
    requires
        old(registry).wf(),
    ensures
        final(registry).wf(),
        final(registry)@ == old(registry)@.unregistered(trigger_id@),
        !final(registry)@.is_registered(trigger_id@),
        stopped == (if final(registry)@.triggers.len() == 0 {
            old(registry)@.monitor_task
        } else {
            None
        }),
        final(registry)@.triggers.len() == 0 ==> final(registry)@.monitor_task is None,
        old(registry)@.settled() ==> final(registry)@.settled(),
{
    let ghost before = registry@;
    let key: String = trigger_id.to_owned();
    let k: usize = registry.find(&key);
    proof {
        lemma_index_of(before.ids(), trigger_id@);
    }
    if k < registry.triggers.len() {
        let _ = registry.triggers.remove(k);
        proof {
            assert(registry@.triggers =~= before.without(trigger_id@));
            let ids = registry@.ids();
            assert forall|i: int| 0 <= i < ids.len() implies #[trigger] ids[i] != trigger_id@ by {
                let a = if i < k { i } else { i + 1 };
                assert(ids[i] == before.ids()[a]);
                assert(before.ids()[k as int] == trigger_id@);
            }
            lemma_index_of_is(ids, trigger_id@, ids.len() as int);
            assert forall|i: int, j: int| 0 <= i < j < ids.len() implies ids[i] != ids[j] by {
                let a = if i < k { i } else { i + 1 };
                let b = if j < k { j } else { j + 1 };
                assert(ids[i] == before.ids()[a]);
                assert(ids[j] == before.ids()[b]);
            }
        }
    }
    stop_trigger_monitor_if_empty(registry)
}

/// Replaces the bounds of the trigger `trigger_id`.
///
/// Fails with `NotFound` exactly when the identifier is not registered;
/// the registry then stays as it was. The hover state is kept: the next
/// poll judges it against the new bounds.
pub fn update_trigger_bounds(registry: &mut TriggerRegistry, trigger_id: &str, bounds: TriggerBounds) -> (r:
    Result<(), TriggerError>)
    requires
        old(registry).wf(),
    ensures
        final(registry).wf(),
        r is Ok <==> old(registry)@.is_registered(trigger_id@),
        r is Err ==> r == Err::<(), TriggerError>(TriggerError::NotFound) && final(registry)@ == old(
            registry,
        )@,
        r is Ok ==> final(registry)@ == (RegistryView {
            triggers: old(registry)@.triggers.update(
                old(registry)@.position(trigger_id@),
                TriggerView { bounds, ..old(registry)@.triggers[old(registry)@.position(trigger_id@)] },
            ),
            ..old(registry)@
        }),
{
    let ghost before = registry@;
    let key: String = trigger_id.to_owned();
    let k: usize = registry.find(&key);
    if k < registry.triggers.len() {
        registry.triggers[k].bounds = bounds;
        proof {
            assert(registry@.triggers =~= before.triggers.update(
                k as int,
                TriggerView { bounds, ..before.triggers[k as int] },
            ));
            assert(registry@.ids() =~= before.ids());
        }
        Ok(())
    } else {
        Err(TriggerError::NotFound)
    }
}

/// The identifiers of the registered triggers, in registry order.
pub fn get_registered_triggers(registry: &TriggerRegistry) -> (r: Vec<String>)
    ensures
        id_views(r@) == registry@.ids(),
{
    let mut out: Vec<String> = Vec::new();
    let mut i: usize = 0;
    while i < registry.triggers.len()
        invariant
            i <= registry.triggers@.len(),
            registry@.triggers.len() == registry.triggers@.len(),
            out@.len() == i,
            forall|j: int| 0 <= j < i ==> (#[trigger] out@[j])@ == registry@.triggers[j].id,
        decreases registry.triggers@.len() - i,
    {
        out.push(registry.triggers[i].id.clone());
        i = i + 1;
    }
    proof {
        assert(id_views(out@) =~= registry@.ids());
    }
    out
}

/// One poll of the shared monitor with the cursor at `(mouse_x, mouse_y)`.
///
/// Every trigger is judged against this one sample. Afterwards each hover
/// state says whether the cursor is over the padded trigger. The answer
/// holds one event for each trigger whose state changed, entering or
/// leaving, in registry order, and none for the others.
pub fn trigger_tick(registry: &mut TriggerRegistry, mouse_x: i32, mouse_y: i32) -> (events: Vec<TriggerEvent>)
    requires
        old(registry).wf(),
    ensures
        final(registry).wf(),
        final(registry)@ == old(registry)@.after_poll(mouse_x as int, mouse_y as int),
        event_views(events@) == old(registry)@.events(mouse_x as int, mouse_y as int),
{
    let ghost before = registry@;
    let mut events: Vec<TriggerEvent> = Vec::new();
    let mut i: usize = 0;
    while i < registry.triggers.len()
        invariant
            i <= registry.triggers@.len(),
            before.triggers.len() == registry.triggers@.len(),
            registry.monitor_task == before.monitor_task,
            forall|j: int|
                0 <= j < i ==> (#[trigger] registry.triggers@[j])@ == before.triggers[j].polled(
                    mouse_x as int,
                    mouse_y as int,
                ),
            forall|j: int|
                i <= j < registry.triggers@.len() ==> (#[trigger] registry.triggers@[j])@ == before.triggers[j],
            event_views(events@) =~= before.events_upto(mouse_x as int, mouse_y as int, i as int),
        decreases registry.triggers@.len() - i,
    {
        let is_over: bool = is_cursor_over_trigger(mouse_x, mouse_y, &registry.triggers[i].bounds);
        if is_over != registry.triggers[i].is_hovering {
            registry.triggers[i].is_hovering = is_over;
            events.push(TriggerEvent { trigger_id: registry.triggers[i].id.clone(), entered: is_over });
        }
        i = i + 1;
    }
    proof {
        assert(registry@.triggers =~= before.polled(mouse_x as int, mouse_y as int));
        assert(registry@.ids() =~= before.ids());
    }
    events
}

/// A poll changes no identifier, no bounds and no monitor; only hover states.
pub proof fn lemma_polls_keep_triggers(r: RegistryView, cursors: Seq<(int, int)>, k: int)
    requires
        0 <= k < r.triggers.len(),
    ensures
        r.after_polls(cursors).triggers.len() == r.triggers.len(),
        r.after_polls(cursors).ids() == r.ids(),
        r.after_polls(cursors).monitor_task == r.monitor_task,
        r.after_polls(cursors).triggers[k].id == r.triggers[k].id,
        r.after_polls(cursors).triggers[k].bounds == r.triggers[k].bounds,
        r.after_polls(cursors).triggers[k].is_hovering == hover_after(
            r.triggers[k].is_hovering,
            r.triggers[k].bounds,
            cursors,
        ),
    decreases cursors.len(),
{
    if cursors.len() > 0 {
        lemma_polls_keep_triggers(r, cursors.drop_last(), k);
        let mid = r.after_polls(cursors.drop_last());
        assert(r.after_polls(cursors).ids() =~= mid.ids());
    } else {
        assert(r.after_polls(cursors).ids() =~= r.ids());
    }
}

/// In one poll a trigger gets one event if its hover state changes and none
/// if it does not.
pub proof fn lemma_one_event_per_flip(r: RegistryView, mouse_x: int, mouse_y: int, k: int, n: int)
    requires
        r.wf(),
        0 <= k < r.triggers.len(),
        0 <= n <= r.triggers.len(),
    ensures
        count_for(r.events_upto(mouse_x, mouse_y, n), r.triggers[k].id) == (if k < n && r.triggers[k].flips(
            mouse_x,
            mouse_y,
        ) {
            1nat
        } else {
            0nat
        }),
    decreases n,
{
    if n > 0 {
        lemma_one_event_per_flip(r, mouse_x, mouse_y, k, n - 1);
        let earlier = r.events_upto(mouse_x, mouse_y, n - 1);
        if r.triggers[n - 1].flips(mouse_x, mouse_y) {
            let all = r.events_upto(mouse_x, mouse_y, n);
            assert(all.drop_last() =~= earlier);
            assert(all.last().trigger_id == r.triggers[n - 1].id);
            if n - 1 != k {
                assert(r.ids()[n - 1] == r.triggers[n - 1].id);
                assert(r.ids()[k] == r.triggers[k].id);
                if n - 1 < k {
                    assert(r.ids()[n - 1] != r.ids()[k]);
                } else {
                    assert(r.ids()[k] != r.ids()[n - 1]);
                }
            }
        }
    }
}

/// Over any run of polls a trigger is notified exactly as often as its
/// hover state changes: never twice for one change, never for a poll that
/// changes nothing.
pub proof fn lemma_edge_only_notifications(r: RegistryView, cursors: Seq<(int, int)>, k: int)
    requires
        r.wf(),
        0 <= k < r.triggers.len(),
    ensures
        r.notifications(cursors, r.triggers[k].id) == transitions(
            r.triggers[k].is_hovering,
            r.triggers[k].bounds,
            cursors,
        ),
    decreases cursors.len(),
{
    if cursors.len() > 0 {
        let earlier = cursors.drop_last();
        lemma_edge_only_notifications(r, earlier, k);
        lemma_polls_keep_triggers(r, earlier, k);
        let mid = r.after_polls(earlier);
        lemma_one_event_per_flip(mid, cursors.last().0, cursors.last().1, k, mid.triggers.len() as int);
    }
}

/// Registering and unregistering keep the monitor in step with the
/// registry: a monitor runs exactly while a trigger is registered, so after
/// the last trigger is gone none is running.
pub proof fn lemma_monitor_follows_registry(r: RegistryView, trigger: TriggerView, task: u64, id: Seq<char>)
    requires
        r.wf(),
        r.settled(),
    ensures
        r.registered(trigger, task).settled(),
        r.unregistered(id).settled(),
        r.unregistered(id).triggers.len() == 0 ==> r.unregistered(id).monitor_task is None,
{
    lemma_index_of(r.ids(), id);
    lemma_index_of(r.ids(), trigger.id);
}

} // verus!

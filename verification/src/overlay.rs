//! The data of the overlay registry and the mathematical model of its
//! lifecycle: what opening, toggling, closing and repositioning do to it.

use crate::geometry::{
    available_height_spec, constrain_spec, locate_monitor_spec, place_spec, MonitorBounds,
    PopoverAlign, PopoverAnchor, TriggerBounds, DEFAULT_POPOVER_OFFSET_Y,
};
use crate::keys::{distinct, index_of, lemma_index_of, lemma_index_of_distinct, lemma_index_of_is};
use vstd::prelude::*;

verus! {

/// Horizontal placement asked for when a popup is spawned.
#[derive(Clone, Copy, Debug, PartialEq, Eq, Structural)]
pub enum PopupAlign {
    Start,
    Center,
    End,
}

impl Default for PopupAlign {
    fn default() -> (r: Self)
        ensures
            r == PopupAlign::Center,
    {
        PopupAlign::Center
    }
}

impl PopupAlign {
    pub open spec fn alignment(self) -> PopoverAlign {
        match self {
            PopupAlign::Start => PopoverAlign::Start,
            PopupAlign::Center => PopoverAlign::Center,
            PopupAlign::End => PopoverAlign::End,
        }
    }

    /// The placement rule this alignment stands for.
    pub fn to_alignment(self) -> (r: PopoverAlign)
        ensures
            r == self.alignment(),
    {
        match self {
            PopupAlign::Start => PopoverAlign::Start,
            PopupAlign::Center => PopoverAlign::Center,
            PopupAlign::End => PopoverAlign::End,
        }
    }
}

/// What opens and closes an overlay.
#[derive(Clone, Copy, Debug, PartialEq, Eq, Structural)]
pub enum PopupMode {
    /// Opens on a call, closes on the next call or when focus is lost.
    Toggle,
    /// Stays open while the cursor is over the overlay or its trigger.
    Hover,
    /// Opened by hovering, closed when focus is lost.
    HoverSticky,
}

impl Default for PopupMode {
    fn default() -> (r: Self)
        ensures
            r == PopupMode::Toggle,
    {
        PopupMode::Toggle
    }
}

impl PopupMode {
    /// Only plain hover overlays are watched by a hover coordinator.
    pub open spec fn tracks_hover(self) -> bool {
        self == PopupMode::Hover
    }

    /// Losing input focus closes every overlay but a plain hover one.
    pub open spec fn closes_on_focus_loss(self) -> bool {
        self != PopupMode::Hover
    }
}

/// The two families of overlay surface.
#[derive(Clone, Copy, Debug, PartialEq, Eq, Structural)]
pub enum OverlayKind {
    Popover,
    Popup,
}

/// Whether an overlay is shown.
#[derive(Clone, Copy, Debug, PartialEq, Eq, Structural)]
pub enum OverlayState {
    Open,
    Closed,
}

/// Where a surface is and how large.
#[derive(Clone, Copy, Debug, PartialEq, Eq, Structural)]
pub struct OverlayGeometry {
    pub x: i64,
    pub y: i64,
    pub width: i32,
    pub height: i32,
}

/// Cursor tracking of one open hover overlay.
#[derive(Clone, Copy, Debug, PartialEq, Eq, Structural)]
pub struct HoverCoordinator {
    /// The rectangle that counts as "inside" besides the overlay itself.
    pub trigger_bounds: TriggerBounds,
    /// The pending close timer, if one is armed.
    pub close_timer: Option<u64>,
    /// The polling task that feeds this coordinator, once it is known.
    pub monitor_task: Option<u64>,
    /// Identity of the overlay's own surface, once the windowing side reports it.
    pub window_number: Option<i64>,
    /// Consecutive polls that found the cursor outside.
    pub outside_count: u64,
}

impl HoverCoordinator {
    /// The coordinator of an overlay that has just been opened.
    pub open spec fn fresh(bounds: TriggerBounds) -> HoverCoordinator {
        HoverCoordinator {
            trigger_bounds: bounds,
            close_timer: None,
            monitor_task: None,
            window_number: None,
            outside_count: 0,
        }
    }
}

/// The handles a coordinator held when it was torn down; the caller cancels both.
#[derive(Clone, Copy, Debug, PartialEq, Eq, Structural)]
pub struct HoverRelease {
    pub timer: Option<u64>,
    pub task: Option<u64>,
}

pub open spec fn release_of(hover: Option<HoverCoordinator>) -> HoverRelease {
    match hover {
        Some(h) => HoverRelease { timer: h.close_timer, task: h.monitor_task },
        None => HoverRelease { timer: None, task: None },
    }
}

/// What the windowing side has to do after a decision of the controller.
#[derive(Clone, Copy, Debug, PartialEq, Eq, Structural)]
pub enum SurfaceAction {
    Nothing,
    /// Build a new surface with this geometry and show it.
    Create(OverlayGeometry),
    /// Move the hidden surface to this geometry and show it.
    Show(OverlayGeometry),
    /// Hide the surface and keep it for the next opening.
    Hide,
    /// Destroy the surface.
    Destroy,
}

/// What a registry entry held before an opening replaced it.
#[derive(Clone, Copy, Debug, PartialEq, Eq, Structural)]
pub struct PriorEntry {
    pub geometry: OverlayGeometry,
    pub mode: PopupMode,
}

/// Why an operation on an overlay failed.
#[derive(Clone, Copy, Debug, PartialEq, Eq, Structural)]
pub enum OverlayError {
    /// The operation needs an open overlay and the identifier names none.
    NotFound,
    /// No display is connected.
    NoMonitors,
}

/// Everything an opening or a repositioning asks for.
#[derive(Clone, Copy, Debug, PartialEq, Eq, Structural)]
pub struct OverlayRequest {
    pub anchor: PopoverAnchor,
    pub width: i32,
    pub height: i32,
    pub align: PopoverAlign,
    pub offset_y: i32,
    pub mode: PopupMode,
}

impl OverlayRequest {
    /// Fills in what the caller left out: centred, the default offset, toggle mode.
    pub fn new(
        anchor: PopoverAnchor,
        width: i32,
        height: i32,
        align: Option<PopoverAlign>,
        offset_y: Option<i32>,
        mode: Option<PopupMode>,
    ) -> (r: OverlayRequest)
        ensures
            r.anchor == anchor,
            r.width == width,
            r.height == height,
            r.align == (match align {
                Some(a) => a,
                None => PopoverAlign::Center,
            }),
            r.offset_y == (match offset_y {
                Some(o) => o,
                None => DEFAULT_POPOVER_OFFSET_Y,
            }),
            r.mode == (match mode {
                Some(m) => m,
                None => PopupMode::Toggle,
            }),
    {
        OverlayRequest {
            anchor,
            width,
            height,
            align: match align {
                Some(a) => a,
                None => PopoverAlign::Center,
            },
            offset_y: match offset_y {
                Some(o) => o,
                None => DEFAULT_POPOVER_OFFSET_Y,
            },
            mode: match mode {
                Some(m) => m,
                None => PopupMode::Toggle,
            },
        }
    }

    /// The anchor seen as the rectangle a hover coordinator treats as inside.
    pub open spec fn trigger_bounds(self) -> TriggerBounds {
        TriggerBounds {
            x: self.anchor.x,
            y: self.anchor.y,
            width: self.anchor.width,
            height: self.anchor.height,
        }
    }
}

/// A computed placement: the rectangle and the height the content may grow to.
#[derive(Clone, Copy, Debug, PartialEq, Eq, Structural)]
pub struct Placement {
    pub geometry: OverlayGeometry,
    pub max_height: i64,
}

/// Placement of a request on a given display: the size cut to the usable
/// area, the position below the anchor clamped onto the display.
pub open spec fn placement_on(request: OverlayRequest, monitor: MonitorBounds) -> Placement {
    let size = constrain_spec(request.width as int, request.height as int, monitor);
    let at = place_spec(request.anchor, size.0, size.1, request.align, request.offset_y as int, monitor);
    Placement {
        geometry: OverlayGeometry {
            x: at.0 as i64,
            y: at.1 as i64,
            width: size.0 as i32,
            height: size.1 as i32,
        },
        max_height: available_height_spec(request.anchor, request.offset_y as int, monitor) as i64,
    }
}

/// Placement of a request among the connected displays; the display is the
/// one that holds the anchor's top-left corner.
pub open spec fn resolve_spec(
    request: OverlayRequest,
    monitors: Seq<MonitorBounds>,
    primary: Option<MonitorBounds>,
) -> Result<Placement, OverlayError> {
    match locate_monitor_spec(monitors, primary, request.anchor.x as int, request.anchor.y as int) {
        Ok(m) => Ok(placement_on(request, m)),
        Err(_) => Err(OverlayError::NoMonitors),
    }
}

/// One overlay as the registry knows it.
pub struct OverlayEntry {
    pub id: String,
    pub state: OverlayState,
    pub geometry: OverlayGeometry,
    pub mode: PopupMode,
    pub hover: Option<HoverCoordinator>,
}

/// The mathematical value of an `OverlayEntry`.
pub struct OverlayEntryView {
    pub id: Seq<char>,
    pub state: OverlayState,
    pub geometry: OverlayGeometry,
    pub mode: PopupMode,
    pub hover: Option<HoverCoordinator>,
}

impl View for OverlayEntry {
    type V = OverlayEntryView;

    open spec fn view(&self) -> OverlayEntryView {
        OverlayEntryView {
            id: self.id@,
            state: self.state,
            geometry: self.geometry,
            mode: self.mode,
            hover: self.hover,
        }
    }
}

impl OverlayEntryView {
    /// The entry once its surface is hidden: closed, with no coordinator.
    pub open spec fn hidden(self) -> OverlayEntryView {
        OverlayEntryView { state: OverlayState::Closed, hover: None, ..self }
    }

    /// The entry an opening writes.
    pub open spec fn opened(id: Seq<char>, request: OverlayRequest, placement: Placement) -> OverlayEntryView {
        OverlayEntryView {
            id,
            state: OverlayState::Open,
            geometry: placement.geometry,
            mode: request.mode,
            hover: if request.mode.tracks_hover() {
                Some(HoverCoordinator::fresh(request.trigger_bounds()))
            } else {
                None
            },
        }
    }
}

/// What an operation that may close one overlay reports.
pub struct CloseOutcomeView {
    pub id: Seq<char>,
    pub label: Seq<char>,
    /// An open overlay was closed; the caller announces it.
    pub closed: bool,
    pub action: SurfaceAction,
    pub released: HoverRelease,
}

/// What an opening or toggling reports.
pub struct OverlayOutcomeView {
    pub id: Seq<char>,
    pub label: Seq<char>,
    /// The call closed the overlay instead of opening it.
    pub closed: bool,
    pub max_height: i64,
    pub action: SurfaceAction,
    pub released: HoverRelease,
    /// The entry the opening replaced, if there was one.
    pub previous: Option<PriorEntry>,
}

pub open spec fn label_prefix(kind: OverlayKind) -> Seq<char> {
    match kind {
        OverlayKind::Popover => "popover-"@,
        OverlayKind::Popup => "popup-"@,
    }
}

/// The name under which the windowing side knows the surface of an overlay.
pub open spec fn label_spec(kind: OverlayKind, id: Seq<char>) -> Seq<char> {
    label_prefix(kind) + id
}

/// The mathematical value of an `OverlayController`: its configuration and
/// its entries in the order in which they were first opened.
pub struct ControllerView {
    pub kind: OverlayKind,
    pub supports_reuse: bool,
    pub entries: Seq<OverlayEntryView>,
}

impl ControllerView {
    pub open spec fn ids(self) -> Seq<Seq<char>> {
        Seq::new(self.entries.len(), |i: int| self.entries[i].id)
    }

    /// No identifier has two entries; a coordinator exists only for an open
    /// hover overlay; where surfaces cannot be reused no closed entry is kept.
    pub open spec fn wf(self) -> bool {
        &&& distinct(self.ids())
        &&& forall|i: int|
            0 <= i < self.entries.len() && (#[trigger] self.entries[i]).hover is Some ==> {
                &&& self.entries[i].state == OverlayState::Open
                &&& self.entries[i].mode.tracks_hover()
            }
        &&& !self.supports_reuse ==> forall|i: int|
            0 <= i < self.entries.len() ==> (#[trigger] self.entries[i]).state == OverlayState::Open
    }

    /// Position of the entry of `id`, or the number of entries if it has none.
    pub open spec fn position(self, id: Seq<char>) -> int {
        index_of(self.ids(), id)
    }

    pub open spec fn has_entry(self, id: Seq<char>) -> bool {
        self.position(id) < self.entries.len()
    }

    pub open spec fn is_open(self, id: Seq<char>) -> bool {
        self.has_entry(id) && self.entries[self.position(id)].state == OverlayState::Open
    }

    /// The coordinator of `id`, if it has one.
    pub open spec fn hover_of(self, id: Seq<char>) -> Option<HoverCoordinator> {
        if self.has_entry(id) {
            self.entries[self.position(id)].hover
        } else {
            None
        }
    }

    pub open spec fn closing_action(self) -> SurfaceAction {
        if self.supports_reuse {
            SurfaceAction::Hide
        } else {
            SurfaceAction::Destroy
        }
    }

    /// The registry with the entry at position `k` closed: hidden where
    /// surfaces are reused, dropped where they are not.
    pub open spec fn closed_at(self, k: int) -> ControllerView {
        ControllerView {
            entries: if self.supports_reuse {
                self.entries.update(k, self.entries[k].hidden())
            } else {
                self.entries.remove(k)
            },
            ..self
        }
    }

    /// What closing the open entry at position `k` reports.
    pub open spec fn closing_outcome_at(self, k: int) -> CloseOutcomeView {
        CloseOutcomeView {
            id: self.entries[k].id,
            label: label_spec(self.kind, self.entries[k].id),
            closed: true,
            action: self.closing_action(),
            released: release_of(self.entries[k].hover),
        }
    }

    pub open spec fn nothing_closed(self, id: Seq<char>) -> CloseOutcomeView {
        CloseOutcomeView {
            id,
            label: label_spec(self.kind, id),
            closed: false,
            action: SurfaceAction::Nothing,
            released: release_of(None),
        }
    }

    /// The registry after `close(id)`.
    pub open spec fn close(self, id: Seq<char>) -> ControllerView {
        if self.is_open(id) {
            self.closed_at(self.position(id))
        } else {
            self
        }
    }

    /// What `close(id)` reports.
    pub open spec fn close_outcome(self, id: Seq<char>) -> CloseOutcomeView {
        if self.is_open(id) {
            self.closing_outcome_at(self.position(id))
        } else {
            self.nothing_closed(id)
        }
    }

    /// The registry after a focus loss of `id`.
    pub open spec fn focus_lost(self, id: Seq<char>) -> ControllerView {
        if self.is_open(id) && self.entries[self.position(id)].mode.closes_on_focus_loss() {
            self.closed_at(self.position(id))
        } else {
            self
        }
    }

    /// What a focus loss of `id` reports.
    pub open spec fn focus_lost_outcome(self, id: Seq<char>) -> CloseOutcomeView {
        if self.is_open(id) && self.entries[self.position(id)].mode.closes_on_focus_loss() {
            self.closing_outcome_at(self.position(id))
        } else {
            self.nothing_closed(id)
        }
    }

    /// The registry with the entry of `id` written as `entry`: in place if it
    /// has one, at the end if not.
    pub open spec fn with_entry(self, id: Seq<char>, entry: OverlayEntryView) -> ControllerView {
        ControllerView {
            entries: if self.has_entry(id) {
                self.entries.update(self.position(id), entry)
            } else {
                self.entries.push(entry)
            },
            ..self
        }
    }

    /// What the entry of `id` held, if it has one.
    pub open spec fn prior(self, id: Seq<char>) -> Option<PriorEntry> {
        if self.has_entry(id) {
            Some(
                PriorEntry {
                    geometry: self.entries[self.position(id)].geometry,
                    mode: self.entries[self.position(id)].mode,
                },
            )
        } else {
            None
        }
    }

    /// The registry after `open_or_toggle`: an open overlay is closed; any
    /// other is opened at its computed placement, unless no display exists.
    pub open spec fn toggled(
        self,
        id: Seq<char>,
        request: OverlayRequest,
        monitors: Seq<MonitorBounds>,
        primary: Option<MonitorBounds>,
    ) -> ControllerView {
        if self.is_open(id) {
            self.closed_at(self.position(id))
        } else {
            match resolve_spec(request, monitors, primary) {
                Ok(p) => self.with_entry(id, OverlayEntryView::opened(id, request, p)),
                Err(_) => self,
            }
        }
    }

    /// What `open_or_toggle` reports.
    pub open spec fn toggle_outcome(
        self,
        id: Seq<char>,
        request: OverlayRequest,
        monitors: Seq<MonitorBounds>,
        primary: Option<MonitorBounds>,
    ) -> Result<OverlayOutcomeView, OverlayError> {
        if self.is_open(id) {
            Ok(
                OverlayOutcomeView {
                    id,
                    label: label_spec(self.kind, id),
                    closed: true,
                    max_height: 0,
                    action: self.closing_action(),
                    released: release_of(self.entries[self.position(id)].hover),
                    previous: None,
                },
            )
        } else {
            match resolve_spec(request, monitors, primary) {
                Ok(p) => Ok(
                    OverlayOutcomeView {
                        id,
                        label: label_spec(self.kind, id),
                        closed: false,
                        max_height: p.max_height,
                        action: if self.has_entry(id) {
                            SurfaceAction::Show(p.geometry)
                        } else {
                            SurfaceAction::Create(p.geometry)
                        },
                        released: release_of(None),
                        previous: self.prior(id),
                    },
                ),
                Err(e) => Err(e),
            }
        }
    }

    /// The registry after an opening of `id` was undone: the entry holds
    /// `previous` again and is closed, or is gone if there was none before.
    pub open spec fn reverted(self, id: Seq<char>, previous: Option<PriorEntry>) -> ControllerView {
        if !self.has_entry(id) {
            self
        } else {
            match previous {
                Some(p) => if self.supports_reuse {
                    ControllerView {
                        entries: self.entries.update(
                            self.position(id),
                            OverlayEntryView {
                                id,
                                state: OverlayState::Closed,
                                geometry: p.geometry,
                                mode: p.mode,
                                hover: None,
                            },
                        ),
                        ..self
                    }
                } else {
                    ControllerView { entries: self.entries.remove(self.position(id)), ..self }
                },
                None => ControllerView { entries: self.entries.remove(self.position(id)), ..self },
            }
        }
    }

    /// The registry after `reposition`: the geometry of an open overlay is
    /// replaced, nothing else changes.
    pub open spec fn repositioned(
        self,
        id: Seq<char>,
        request: OverlayRequest,
        monitors: Seq<MonitorBounds>,
        primary: Option<MonitorBounds>,
    ) -> ControllerView {
        if !self.is_open(id) {
            self
        } else {
            match resolve_spec(request, monitors, primary) {
                Ok(p) => self.with_geometry(id, p.geometry),
                Err(_) => self,
            }
        }
    }

    /// What `reposition` reports.
    pub open spec fn reposition_outcome(
        self,
        id: Seq<char>,
        request: OverlayRequest,
        monitors: Seq<MonitorBounds>,
        primary: Option<MonitorBounds>,
    ) -> Result<Placement, OverlayError> {
        if !self.is_open(id) {
            Err(OverlayError::NotFound)
        } else {
            resolve_spec(request, monitors, primary)
        }
    }

    /// The registry with the geometry of `id` replaced, if it has an entry.
    pub open spec fn with_geometry(self, id: Seq<char>, geometry: OverlayGeometry) -> ControllerView {
        if self.has_entry(id) {
            ControllerView {
                entries: self.entries.update(
                    self.position(id),
                    OverlayEntryView { geometry, ..self.entries[self.position(id)] },
                ),
                ..self
            }
        } else {
            self
        }
    }

    /// The registry with the coordinator of `id` replaced, if it has an entry.
    pub open spec fn with_hover(self, id: Seq<char>, hover: Option<HoverCoordinator>) -> ControllerView {
        if self.has_entry(id) {
            ControllerView {
                entries: self.entries.update(
                    self.position(id),
                    OverlayEntryView { hover, ..self.entries[self.position(id)] },
                ),
                ..self
            }
        } else {
            self
        }
    }

    /// The mode `id` was last opened in, if it has an entry.
    pub open spec fn mode_of(self, id: Seq<char>) -> Option<PopupMode> {
        if self.has_entry(id) {
            Some(self.entries[self.position(id)].mode)
        } else {
            None
        }
    }

    /// `id` is open in plain hover mode, the one mode a coordinator watches.
    pub open spec fn is_hover_tracked(self, id: Seq<char>) -> bool {
        self.is_open(id) && self.entries[self.position(id)].mode.tracks_hover()
    }

    /// The identifiers of the open overlays among the first `n` entries, in
    /// registry order.
    pub open spec fn open_ids_upto(self, n: int) -> Seq<Seq<char>>
        decreases n,
    {
        if n <= 0 {
            Seq::empty()
        } else if self.entries[n - 1].state == OverlayState::Open {
            self.open_ids_upto(n - 1).push(self.entries[n - 1].id)
        } else {
            self.open_ids_upto(n - 1)
        }
    }

    /// The identifiers of all open overlays, in registry order.
    pub open spec fn open_ids(self) -> Seq<Seq<char>> {
        self.open_ids_upto(self.entries.len() as int)
    }

    /// What closing every open overlay among the first `n` entries reports.
    pub open spec fn closing_outcomes_upto(self, n: int) -> Seq<CloseOutcomeView>
        decreases n,
    {
        if n <= 0 {
            Seq::empty()
        } else if self.entries[n - 1].state == OverlayState::Open {
            self.closing_outcomes_upto(n - 1).push(self.closing_outcome_at(n - 1))
        } else {
            self.closing_outcomes_upto(n - 1)
        }
    }

    /// The registry after `close_all`: every entry hidden where surfaces are
    /// reused, no entry left where they are not.
    pub open spec fn all_closed(self) -> ControllerView {
        ControllerView {
            entries: if self.supports_reuse {
                Seq::new(self.entries.len(), |i: int| self.entries[i].hidden())
            } else {
                Seq::empty()
            },
            ..self
        }
    }
}

impl ControllerView {
    /// After `close` the overlay is not open, whatever it was before.
    pub proof fn lemma_closed_is_not_open(self, id: Seq<char>)
        requires
            self.wf(),
        ensures
            !self.close(id).is_open(id),
            self.close(id).wf(),
    {
        self.lemma_closed_at(id);
    }

    /// Closing the entry of an open overlay leaves a consistent registry in
    /// which that overlay is not open and every other entry is untouched.
    pub proof fn lemma_closed_at(self, id: Seq<char>)
        requires
            self.wf(),
        ensures
            self.is_open(id) ==> {
                &&& self.closed_at(self.position(id)).wf()
                &&& !self.closed_at(self.position(id)).is_open(id)
                &&& self.closed_at(self.position(id)).hover_of(id) is None
            },
    {
        if self.is_open(id) {
            let k = self.position(id);
            let after = self.closed_at(k);
            lemma_index_of(self.ids(), id);
            if self.supports_reuse {
                assert(after.ids() =~= self.ids());
            } else {
                let ids = after.ids();
                assert forall|i: int| 0 <= i < ids.len() implies #[trigger] ids[i] != id by {
                    let a = if i < k { i } else { i + 1 };
                    assert(ids[i] == self.ids()[a]);
                    assert(self.ids()[k] == id);
                }
                lemma_index_of_is(ids, id, ids.len() as int);
                assert forall|i: int, j: int| 0 <= i < j < ids.len() implies ids[i] != ids[j] by {
                    let a = if i < k { i } else { i + 1 };
                    let b = if j < k { j } else { j + 1 };
                    assert(ids[i] == self.ids()[a]);
                    assert(ids[j] == self.ids()[b]);
                }
            }
        }
    }

    /// Writing the entry of `id` leaves a registry in which `id` sits where
    /// `position` says and holds what was written.
    pub proof fn lemma_with_entry(self, id: Seq<char>, entry: OverlayEntryView)
        requires
            self.wf(),
            entry.id == id,
        ensures
            distinct(self.with_entry(id, entry).ids()),
            self.with_entry(id, entry).has_entry(id),
            self.with_entry(id, entry).position(id) == self.position(id),
            self.with_entry(id, entry).entries[self.position(id)] == entry,
    {
        let after = self.with_entry(id, entry);
        let k = self.position(id);
        lemma_index_of(self.ids(), id);
        if self.has_entry(id) {
            assert(after.ids() =~= self.ids());
        } else {
            let ids = after.ids();
            assert forall|i: int| 0 <= i < k implies #[trigger] ids[i] != id by {
                assert(ids[i] == self.ids()[i]);
            }
            lemma_index_of_is(ids, id, k);
            assert forall|i: int, j: int| 0 <= i < j < ids.len() implies ids[i] != ids[j] by {
                assert(ids[i] == self.ids()[i]);
                if j < k {
                    assert(ids[j] == self.ids()[j]);
                }
            }
        }
    }

    /// Two calls of `open_or_toggle` in a row: the first opens the overlay
    /// under exactly one entry, the second reports it closed and leaves it
    /// not open, whatever the second call asks for.
    pub proof fn lemma_toggle_twice(
        self,
        id: Seq<char>,
        first: OverlayRequest,
        second: OverlayRequest,
        monitors: Seq<MonitorBounds>,
        primary: Option<MonitorBounds>,
        later_monitors: Seq<MonitorBounds>,
        later_primary: Option<MonitorBounds>,
    )
        requires
            self.wf(),
            !self.is_open(id),
            monitors.len() > 0,
        ensures
            ({
                let opened = self.toggled(id, first, monitors, primary);
                let closed = opened.toggled(id, second, later_monitors, later_primary);
                &&& self.toggle_outcome(id, first, monitors, primary) matches Ok(o) && !o.closed
                &&& opened.wf()
                &&& opened.is_open(id)
                &&& forall|i: int|
                    0 <= i < opened.entries.len() && (#[trigger] opened.entries[i]).id == id ==> i
                        == opened.position(id)
                &&& opened.toggle_outcome(id, second, later_monitors, later_primary) matches Ok(o)
                    && o.closed
                &&& closed.wf()
                &&& !closed.is_open(id)
            }),
    {
        let p = resolve_spec(first, monitors, primary)->Ok_0;
        let entry = OverlayEntryView::opened(id, first, p);
        let opened = self.toggled(id, first, monitors, primary);
        assert(opened == self.with_entry(id, entry));
        self.lemma_with_entry(id, entry);
        lemma_index_of(self.ids(), id);
        assert(opened.wf()) by {
            assert forall|i: int|
                0 <= i < opened.entries.len() && (#[trigger] opened.entries[i]).hover is Some implies opened.entries[i].state
                == OverlayState::Open && opened.entries[i].mode.tracks_hover() by {
                if i != self.position(id) {
                    assert(opened.entries[i] == self.entries[i]);
                }
            }
            if !self.supports_reuse {
                assert forall|i: int| 0 <= i < opened.entries.len() implies (#[trigger] opened.entries[i]).state
                    == OverlayState::Open by {
                    if i != self.position(id) {
                        assert(opened.entries[i] == self.entries[i]);
                    }
                }
            }
        }
        assert forall|i: int| 0 <= i < opened.entries.len() && (#[trigger] opened.entries[i]).id == id implies i
            == opened.position(id) by {
            assert(opened.ids()[i] == id);
            lemma_index_of_distinct(opened.ids(), id, i);
        }
        opened.lemma_closed_at(id);
    }

    /// Undoing an opening with what the opening reported brings back the
    /// registry as it was before the opening.
    pub proof fn lemma_revert_restores(
        self,
        id: Seq<char>,
        request: OverlayRequest,
        monitors: Seq<MonitorBounds>,
        primary: Option<MonitorBounds>,
    )
        requires
            self.wf(),
            !self.is_open(id),
            monitors.len() > 0,
        ensures
            self.toggled(id, request, monitors, primary).reverted(id, self.prior(id)) == self,
    {
        let p = resolve_spec(request, monitors, primary)->Ok_0;
        let entry = OverlayEntryView::opened(id, request, p);
        let opened = self.toggled(id, request, monitors, primary);
        self.lemma_with_entry(id, entry);
        lemma_index_of(self.ids(), id);
        let back = opened.reverted(id, self.prior(id));
        if self.has_entry(id) {
            let k = self.position(id);
            assert(self.entries[k].id == self.ids()[k]);
            assert(self.entries[k].hover is None);
            assert(back.entries =~= self.entries);
        } else {
            assert(back.entries =~= self.entries);
        }
    }

    /// Among the first `n` entries, the listed identifiers are those of the
    /// open entries and no others.
    pub proof fn lemma_open_ids_upto(self, id: Seq<char>, n: int)
        requires
            0 <= n <= self.entries.len(),
        ensures
            self.open_ids_upto(n).contains(id) <==> exists|i: int|
                0 <= i < n && (#[trigger] self.entries[i]).id == id && self.entries[i].state
                    == OverlayState::Open,
        decreases n,
    {
        if n > 0 {
            self.lemma_open_ids_upto(id, n - 1);
            let earlier = self.open_ids_upto(n - 1);
            let all = self.open_ids_upto(n);
            let last = self.entries[n - 1];
            if last.state == OverlayState::Open {
                assert(all == earlier.push(last.id));
                if all.contains(id) {
                    let k = choose|k: int| 0 <= k < all.len() && all[k] == id;
                    if k < earlier.len() {
                        assert(earlier[k] == id);
                        assert(earlier.contains(id));
                    } else {
                        assert(self.entries[n - 1].id == id);
                    }
                }
                if earlier.contains(id) {
                    let k = choose|k: int| 0 <= k < earlier.len() && earlier[k] == id;
                    assert(all[k] == id);
                }
                if last.id == id {
                    assert(all[all.len() - 1] == id);
                }
            }
        }
    }

    /// `list_open` names an identifier exactly if its overlay is open.
    pub proof fn lemma_open_ids(self, id: Seq<char>)
        requires
            self.wf(),
        ensures
            self.open_ids().contains(id) <==> self.is_open(id),
    {
        self.lemma_open_ids_upto(id, self.entries.len() as int);
        lemma_index_of(self.ids(), id);
        if self.is_open(id) {
            let k = self.position(id);
            assert(self.ids()[k] == id);
            assert(self.entries[k].id == id);
        }
        if self.open_ids().contains(id) {
            let i = choose|i: int|
                0 <= i < self.entries.len() && (#[trigger] self.entries[i]).id == id && self.entries[i].state
                    == OverlayState::Open;
            assert(self.ids()[i] == id);
            lemma_index_of_distinct(self.ids(), id, i);
        }
    }

    /// After `close_all` no overlay is open.
    pub proof fn lemma_all_closed(self, id: Seq<char>)
        requires
            self.wf(),
        ensures
            self.all_closed().wf(),
            !self.all_closed().is_open(id),
            self.all_closed().hover_of(id) is None,
            self.all_closed().open_ids() =~= Seq::<Seq<char>>::empty(),
    {
        let after = self.all_closed();
        lemma_index_of(after.ids(), id);
        if self.supports_reuse {
            assert(after.ids() =~= self.ids());
        }
        after.lemma_no_open_ids(after.entries.len() as int);
    }

    /// A registry without an open entry among its first `n` lists nothing.
    pub proof fn lemma_no_open_ids(self, n: int)
        requires
            0 <= n <= self.entries.len(),
            forall|i: int| 0 <= i < n ==> (#[trigger] self.entries[i]).state != OverlayState::Open,
        ensures
            self.open_ids_upto(n).len() == 0,
        decreases n,
    {
        if n > 0 {
            self.lemma_no_open_ids(n - 1);
        }
    }
}

} // verus!

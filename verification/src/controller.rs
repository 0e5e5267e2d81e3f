//! The overlay lifecycle controller: the registry of overlays and the
//! operations that open, toggle, close, list and reposition them.
//!
//! The controller decides; it never touches a surface. Each operation
//! changes the registry and reports what the windowing side has to do.

use crate::geometry::{
    calculate_available_height, constrain_to_screen, locate_monitor, place, MonitorBounds,
    TriggerBounds,
};
use crate::keys::{lemma_index_of, lemma_index_of_is};
use crate::overlay::{
    label_spec, release_of, resolve_spec, CloseOutcomeView, ControllerView, HoverCoordinator,
    HoverRelease, OverlayEntry, OverlayError, OverlayGeometry, OverlayKind, OverlayOutcomeView,
    OverlayRequest, OverlayState, Placement, PopupMode, PriorEntry, SurfaceAction,
};
use vstd::prelude::*;

verus! {

/// What an opening or toggling reports.
pub struct OverlayOutcome {
    pub id: String,
    pub label: String,
    /// The call closed the overlay instead of opening it.
    pub closed: bool,
    pub max_height: i64,
    pub action: SurfaceAction,
    pub released: HoverRelease,
    /// The entry the opening replaced, if there was one.
    pub previous: Option<PriorEntry>,
}

impl View for OverlayOutcome {
    type V = OverlayOutcomeView;

    open spec fn view(&self) -> OverlayOutcomeView {
        OverlayOutcomeView {
            id: self.id@,
            label: self.label@,
            closed: self.closed,
            max_height: self.max_height,
            action: self.action,
            released: self.released,
            previous: self.previous,
        }
    }
}

/// What an operation that may close one overlay reports.
pub struct CloseOutcome {
    pub id: String,
    pub label: String,
    /// An open overlay was closed; the caller announces it.
    pub closed: bool,
    pub action: SurfaceAction,
    pub released: HoverRelease,
}

impl View for CloseOutcome {
    type V = CloseOutcomeView;

    open spec fn view(&self) -> CloseOutcomeView {
        CloseOutcomeView {
            id: self.id@,
            label: self.label@,
            closed: self.closed,
            action: self.action,
            released: self.released,
        }
    }
}

/// The answer to an opening request, as the caller hands it on.
pub struct PopoverInfo {
    pub id: String,
    pub label: String,
    pub closed: bool,
    pub max_height: i64,
}

/// Identifier and surface name of an opened popup.
pub struct PopupInfo {
    pub id: String,
    pub label: String,
}

impl OverlayOutcome {
    pub fn popover_info(&self) -> (r: PopoverInfo)
        ensures
            r.id@ == self.id@,
            r.label@ == self.label@,
            r.closed == self.closed,
            r.max_height == self.max_height,
    {
        PopoverInfo {
            id: self.id.clone(),
            label: self.label.clone(),
            closed: self.closed,
            max_height: self.max_height,
        }
    }

    pub fn popup_info(&self) -> (r: PopupInfo)
        ensures
            r.id@ == self.id@,
            r.label@ == self.label@,
    {
        PopupInfo { id: self.id.clone(), label: self.label.clone() }
    }
}

pub open spec fn outcome_view(r: Result<OverlayOutcome, OverlayError>) -> Result<
    OverlayOutcomeView,
    OverlayError,
> {
    match r {
        Ok(o) => Ok(o@),
        Err(e) => Err(e),
    }
}

/// Computes the placement of a request among the connected displays.
///
/// Fails with `NoMonitors` exactly when `monitors` is empty.
pub fn resolve(request: &OverlayRequest, monitors: &Vec<MonitorBounds>, primary: Option<MonitorBounds>) -> (r:
    Result<Placement, OverlayError>)
    ensures
        r == resolve_spec(*request, monitors@, primary),
        r is Err <==> monitors@.len() == 0,
{
    match locate_monitor(monitors, primary, request.anchor.x, request.anchor.y) {
        Ok(monitor) => {
            let size: (i32, i32) = constrain_to_screen(request.width, request.height, &monitor);
            let at: (i64, i64) = place(&request.anchor, size.0, size.1, request.align, request.offset_y, &monitor);
            let max_height: i64 = calculate_available_height(&request.anchor, request.offset_y, &monitor);
            Ok(
                Placement {
                    geometry: OverlayGeometry { x: at.0, y: at.1, width: size.0, height: size.1 },
                    max_height,
                },
            )
        },
        Err(_) => Err(OverlayError::NoMonitors),
    }
}

/// The name under which the windowing side knows the surface of an overlay.
pub fn surface_label(kind: OverlayKind, id: &str) -> (r: String)
    ensures
        r@ == label_spec(kind, id@),
{
    let mut label: String = match kind {
        OverlayKind::Popover => "popover-".to_owned(),
        OverlayKind::Popup => "popup-".to_owned(),
    };
    label.append(id);
    label
}

/// The word for a kind of overlay at the start of a sentence.
pub open spec fn kind_word(kind: OverlayKind) -> Seq<char> {
    match kind {
        OverlayKind::Popover => "Popover"@,
        OverlayKind::Popup => "Popup"@,
    }
}

/// The sentence that tells a caller why an operation failed.
pub open spec fn error_message_spec(error: OverlayError, kind: OverlayKind, id: Seq<char>) -> Seq<char> {
    match error {
        OverlayError::NotFound => kind_word(kind) + " '"@ + id + "' not found"@,
        OverlayError::NoMonitors => "No monitors available"@,
    }
}

/// Writes the sentence that tells a caller why an operation on the
/// overlay `id` failed.
pub fn error_message(error: OverlayError, kind: OverlayKind, id: &str) -> (r: String)
    ensures
        r@ == error_message_spec(error, kind, id@),
{
    match error {
        OverlayError::NotFound => {
            let mut out: String = match kind {
                OverlayKind::Popover => "Popover".to_owned(),
                OverlayKind::Popup => "Popup".to_owned(),
            };
            out.append(" '");
            out.append(id);
            out.append("' not found");
            out
        },
        OverlayError::NoMonitors => "No monitors available".to_owned(),
    }
}

/// The registry of overlays of one kind.
pub struct OverlayController {
    kind: OverlayKind,
    supports_reuse: bool,
    entries: Vec<OverlayEntry>,
}

impl View for OverlayController {
    type V = ControllerView;

    closed spec fn view(&self) -> ControllerView {
        ControllerView {
            kind: self.kind,
            supports_reuse: self.supports_reuse,
            entries: Seq::new(self.entries@.len(), |i: int| self.entries@[i]@),
        }
    }
}

impl OverlayController {
    /// The registry is consistent; every operation keeps it so.
    pub open spec fn wf(&self) -> bool {
        self@.wf()
    }

    /// An empty registry. `supports_reuse` says whether the windowing side
    /// can hide a surface and show it again, or must destroy and rebuild it.
    pub fn new(kind: OverlayKind, supports_reuse: bool) -> (r: OverlayController)
        ensures
            r.wf(),
            r@.kind == kind,
            r@.supports_reuse == supports_reuse,
            r@.entries.len() == 0,
    {
        OverlayController { kind, supports_reuse, entries: Vec::new() }
    }

    pub fn kind(&self) -> (r: OverlayKind)
        ensures
            r == self@.kind,
    {
        self.kind
    }

    pub fn supports_reuse(&self) -> (r: bool)
        ensures
            r == self@.supports_reuse,
    {
        self.supports_reuse
    }

    fn find(&self, key: &String) -> (k: usize)
        ensures
            k == self@.position(key@),
            k <= self.entries@.len(),
            k < self.entries@.len() ==> self.entries@[k as int].id@ == key@,
    {
        let ghost ids = self@.ids();
        let mut i: usize = 0;
        while i < self.entries.len()
            invariant
                i <= self.entries@.len(),
                ids == self@.ids(),
                ids.len() == self.entries@.len(),
                forall|j: int| 0 <= j < i ==> #[trigger] ids[j] != key@,
            decreases self.entries@.len() - i,
        {
            if self.entries[i].id == *key {
                proof {
                    lemma_index_of_is(ids, key@, i as int);
                }
                return i;
            }
            i = i + 1;
        }
        proof {
            lemma_index_of_is(ids, key@, i as int);
        }
        i
    }

    /// Tells whether `id` is open.
    pub fn is_open(&self, id: &str) -> (r: bool)
        ensures
            r == self@.is_open(id@),
    {
        let key: String = id.to_owned();
        let k: usize = self.find(&key);
        k < self.entries.len() && self.entries[k].state == OverlayState::Open
    }

    /// The coordinator of `id`, if it has one.
    pub fn hover_coordinator(&self, id: &str) -> (r: Option<HoverCoordinator>)
        ensures
            r == self@.hover_of(id@),
            self.wf() && r is Some ==> self@.is_hover_tracked(id@),
    {
        let key: String = id.to_owned();
        let k: usize = self.find(&key);
        if k < self.entries.len() {
            assert(self@.entries[k as int].hover == self.entries@[k as int].hover);
            self.entries[k].hover
        } else {
            None
        }
    }

    /// The geometry last computed for `id`, if it has an entry.
    pub fn last_geometry(&self, id: &str) -> (r: Option<OverlayGeometry>)
        ensures
            r == (if self@.has_entry(id@) {
                Some(self@.entries[self@.position(id@)].geometry)
            } else {
                None
            }),
    {
        let key: String = id.to_owned();
        let k: usize = self.find(&key);
        if k < self.entries.len() {
            Some(self.entries[k].geometry)
        } else {
            None
        }
    }

    /// Closes the entry at position `k` and hands back what its coordinator held.
    fn close_at(&mut self, k: usize) -> (released: HoverRelease)
        requires
            old(self).wf(),
            k < old(self)@.entries.len(),
        ensures
            final(self).wf(),
            final(self)@ == old(self)@.closed_at(k as int),
            released == release_of(old(self)@.entries[k as int].hover),
    {
        let ghost before = self@;
        let released: HoverRelease = match self.entries[k].hover {
            Some(h) => HoverRelease { timer: h.close_timer, task: h.monitor_task },
            None => HoverRelease { timer: None, task: None },
        };
        if self.supports_reuse {
            self.entries[k].state = OverlayState::Closed;
            self.entries[k].hover = None;
            proof {
                assert(self@.entries =~= before.closed_at(k as int).entries);
                assert(self@.ids() =~= before.ids());
            }
        } else {
            let _ = self.entries.remove(k);
            proof {
                assert(self@.entries =~= before.closed_at(k as int).entries);
                let ids = self@.ids();
                assert forall|i: int, j: int| 0 <= i < j < ids.len() implies ids[i] != ids[j] by {
                    let a = if i < k { i } else { i + 1 };
                    let b = if j < k { j } else { j + 1 };
                    assert(ids[i] == before.ids()[a]);
                    assert(ids[j] == before.ids()[b]);
                }
            }
        }
        released
    }

    /// Opens the overlay `id`, or closes it if it is open.
    ///
    /// An open overlay is closed: hidden where surfaces are reused, dropped
    /// where they are not; the answer has `closed` set and tells which. Any
    /// other overlay is opened at the placement computed from `request`; in
    /// hover mode it gets a fresh coordinator that treats the anchor as its
    /// trigger. With no display connected an opening fails with
    /// `NoMonitors` and the registry stays as it was.
    pub fn open_or_toggle(
        &mut self,
        id: &str,
        request: &OverlayRequest,
        monitors: &Vec<MonitorBounds>,
        primary: Option<MonitorBounds>,
    ) -> (r: Result<OverlayOutcome, OverlayError>)
        requires
            old(self).wf(),
        ensures
            final(self).wf(),
            final(self)@ == old(self)@.toggled(id@, *request, monitors@, primary),
            outcome_view(r) == old(self)@.toggle_outcome(id@, *request, monitors@, primary),
            r is Err <==> !old(self)@.is_open(id@) && monitors@.len() == 0,
    {
        let ghost before = self@;
        let key: String = id.to_owned();
        let k: usize = self.find(&key);
        if k < self.entries.len() && self.entries[k].state == OverlayState::Open {
            let action: SurfaceAction = if self.supports_reuse {
                SurfaceAction::Hide
            } else {
                SurfaceAction::Destroy
            };
            let released: HoverRelease = self.close_at(k);
            return Ok(
                OverlayOutcome {
                    id: key,
                    label: surface_label(self.kind, id),
                    closed: true,
                    max_height: 0,
                    action,
                    released,
                    previous: None,
                },
            );
        }
        let placement: Placement = match resolve(request, monitors, primary) {
            Ok(p) => p,
            Err(e) => {
                return Err(e);
            },
        };
        let hover: Option<HoverCoordinator> = match request.mode {
            PopupMode::Hover => Some(
                HoverCoordinator {
                    trigger_bounds: TriggerBounds {
                        x: request.anchor.x,
                        y: request.anchor.y,
                        width: request.anchor.width,
                        height: request.anchor.height,
                    },
                    close_timer: None,
                    monitor_task: None,
                    window_number: None,
                    outside_count: 0,
                },
            ),
            _ => None,
        };
        let action: SurfaceAction;
        let previous: Option<PriorEntry>;
        if k < self.entries.len() {
            action = SurfaceAction::Show(placement.geometry);
            previous = Some(PriorEntry { geometry: self.entries[k].geometry, mode: self.entries[k].mode });
            self.entries[k].state = OverlayState::Open;
            self.entries[k].geometry = placement.geometry;
            self.entries[k].mode = request.mode;
            self.entries[k].hover = hover;
            proof {
                assert(self@.entries =~= before.toggled(id@, *request, monitors@, primary).entries);
                assert(self@.ids() =~= before.ids());
            }
        } else {
            action = SurfaceAction::Create(placement.geometry);
            previous = None;
            self.entries.push(
                OverlayEntry {
                    id: id.to_owned(),
                    state: OverlayState::Open,
                    geometry: placement.geometry,
                    mode: request.mode,
                    hover,
                },
            );
            proof {
                assert(self@.entries =~= before.toggled(id@, *request, monitors@, primary).entries);
                lemma_index_of(before.ids(), id@);
                let ids = self@.ids();
                assert forall|i: int, j: int| 0 <= i < j < ids.len() implies ids[i] != ids[j] by {
                    assert(ids[i] == before.ids()[i]);
                    if j < before.ids().len() {
                        assert(ids[j] == before.ids()[j]);
                    }
                }
            }
        }
        Ok(
            OverlayOutcome {
                id: key,
                label: surface_label(self.kind, id),
                closed: false,
                max_height: placement.max_height,
                action,
                released: HoverRelease { timer: None, task: None },
                previous,
            },
        )
    }

    /// Closes the overlay `id`.
    ///
    /// An open overlay is hidden or dropped and its coordinator is torn
    /// down; the answer names the handles to cancel. For an identifier that
    /// is not open nothing changes and nothing is reported as closed.
    pub fn close(&mut self, id: &str) -> (r: CloseOutcome)
        requires
            old(self).wf(),
        ensures
            final(self).wf(),
            final(self)@ == old(self)@.close(id@),
            r@ == old(self)@.close_outcome(id@),
    {
        let key: String = id.to_owned();
        let k: usize = self.find(&key);
        if k < self.entries.len() && self.entries[k].state == OverlayState::Open {
            let action: SurfaceAction = if self.supports_reuse {
                SurfaceAction::Hide
            } else {
                SurfaceAction::Destroy
            };
            let released: HoverRelease = self.close_at(k);
            CloseOutcome { id: key, label: surface_label(self.kind, id), closed: true, action, released }
        } else {
            CloseOutcome {
                id: key,
                label: surface_label(self.kind, id),
                closed: false,
                action: SurfaceAction::Nothing,
                released: HoverRelease { timer: None, task: None },
            }
        }
    }

    /// Reacts to the overlay `id` losing input focus: every open overlay but
    /// a plain hover one is closed as by `close`; a hover overlay is left to
    /// its coordinator.
    pub fn focus_lost(&mut self, id: &str) -> (r: CloseOutcome)
        requires
            old(self).wf(),
        ensures
            final(self).wf(),
            final(self)@ == old(self)@.focus_lost(id@),
            r@ == old(self)@.focus_lost_outcome(id@),
    {
        let key: String = id.to_owned();
        let k: usize = self.find(&key);
        if k < self.entries.len() && self.entries[k].state == OverlayState::Open && self.entries[k].mode
            != PopupMode::Hover {
            let action: SurfaceAction = if self.supports_reuse {
                SurfaceAction::Hide
            } else {
                SurfaceAction::Destroy
            };
            let released: HoverRelease = self.close_at(k);
            CloseOutcome { id: key, label: surface_label(self.kind, id), closed: true, action, released }
        } else {
            CloseOutcome {
                id: key,
                label: surface_label(self.kind, id),
                closed: false,
                action: SurfaceAction::Nothing,
                released: HoverRelease { timer: None, task: None },
            }
        }
    }

    /// Undoes an opening that the windowing side could not carry out.
    ///
    /// `previous` is what the opening reported: with it the entry is closed
    /// again and holds its earlier geometry and mode; without it the entry is
    /// dropped. An identifier without an entry changes nothing.
    pub fn revert_open(&mut self, id: &str, previous: Option<PriorEntry>)
        requires
            old(self).wf(),
        ensures
            final(self).wf(),
            final(self)@ == old(self)@.reverted(id@, previous),
    {
        let ghost before = self@;
        let key: String = id.to_owned();
        let k: usize = self.find(&key);
        if k >= self.entries.len() {
            return ;
        }
        match previous {
            Some(p) => {
                if self.supports_reuse {
                    self.entries[k].state = OverlayState::Closed;
                    self.entries[k].geometry = p.geometry;
                    self.entries[k].mode = p.mode;
                    self.entries[k].hover = None;
                    proof {
                        assert(self@.entries =~= before.reverted(id@, previous).entries);
                        assert(self@.ids() =~= before.ids());
                    }
                    return ;
                }
            },
            None => {},
        }
        let _ = self.entries.remove(k);
        proof {
            assert(self@.entries =~= before.reverted(id@, previous).entries);
            let ids = self@.ids();
            assert forall|i: int, j: int| 0 <= i < j < ids.len() implies ids[i] != ids[j] by {
                let a = if i < k { i } else { i + 1 };
                let b = if j < k { j } else { j + 1 };
                assert(ids[i] == before.ids()[a]);
                assert(ids[j] == before.ids()[b]);
            }
        }
    }

    /// Recomputes the placement of the open overlay `id` and records it.
    ///
    /// Fails with `NotFound` when `id` is not open, and with `NoMonitors`
    /// when it is open but no display is connected; in both cases the
    /// registry stays as it was. Whether the overlay is open never changes.
    pub fn reposition(
        &mut self,
        id: &str,
        request: &OverlayRequest,
        monitors: &Vec<MonitorBounds>,
        primary: Option<MonitorBounds>,
    ) -> (r: Result<Placement, OverlayError>)
        requires
            old(self).wf(),
        ensures
            final(self).wf(),
            final(self)@ == old(self)@.repositioned(id@, *request, monitors@, primary),
            r == old(self)@.reposition_outcome(id@, *request, monitors@, primary),
            r == Err::<Placement, OverlayError>(OverlayError::NotFound) <==> !old(self)@.is_open(id@),
            r == Err::<Placement, OverlayError>(OverlayError::NoMonitors) <==> old(self)@.is_open(id@)
                && monitors@.len() == 0,
            final(self)@.is_open(id@) == old(self)@.is_open(id@),
    {
        let ghost before = self@;
        let key: String = id.to_owned();
        let k: usize = self.find(&key);
        if !(k < self.entries.len() && self.entries[k].state == OverlayState::Open) {
            return Err(OverlayError::NotFound);
        }
        let placement: Placement = match resolve(request, monitors, primary) {
            Ok(p) => p,
            Err(e) => {
                return Err(e);
            },
        };
        self.entries[k].geometry = placement.geometry;
        proof {
            assert(self@.entries =~= before.repositioned(id@, *request, monitors@, primary).entries);
            assert(self@.ids() =~= before.ids());
        }
        Ok(placement)
    }

    /// Records `geometry` as the last known geometry of `id`, if it has an entry.
    pub fn record_geometry(&mut self, id: &str, geometry: OverlayGeometry)
        requires
            old(self).wf(),
        ensures
            final(self).wf(),
            final(self)@ == old(self)@.with_geometry(id@, geometry),
    {
        let ghost before = self@;
        let key: String = id.to_owned();
        let k: usize = self.find(&key);
        if k < self.entries.len() {
            self.entries[k].geometry = geometry;
            proof {
                assert(self@.entries =~= before.with_geometry(id@, geometry).entries);
                assert(self@.ids() =~= before.ids());
            }
        }
    }

    /// The mode `id` was last opened in, if it has an entry.
    pub fn mode(&self, id: &str) -> (r: Option<PopupMode>)
        ensures
            r == self@.mode_of(id@),
    {
        let key: String = id.to_owned();
        let k: usize = self.find(&key);
        if k < self.entries.len() {
            Some(self.entries[k].mode)
        } else {
            None
        }
    }

    /// Replaces the coordinator of `id`, if it has an entry.
    pub(crate) fn set_hover(&mut self, id: &str, hover: Option<HoverCoordinator>)
        requires
            old(self).wf(),
            hover is Some ==> old(self)@.is_hover_tracked(id@),
        ensures
            final(self).wf(),
            final(self)@ == old(self)@.with_hover(id@, hover),
            final(self)@.hover_of(id@) == (if old(self)@.has_entry(id@) {
                hover
            } else {
                None
            }),
            final(self)@.is_open(id@) == old(self)@.is_open(id@),
    {
        let ghost before = self@;
        let key: String = id.to_owned();
        let k: usize = self.find(&key);
        if k < self.entries.len() {
            self.entries[k].hover = hover;
            proof {
                assert(self@.entries =~= before.with_hover(id@, hover).entries);
                assert(self@.ids() =~= before.ids());
            }
        }
    }

    /// The identifiers of the open overlays, in the order in which their
    /// entries were first made.
    pub fn list_open(&self) -> (r: Vec<String>)
        ensures
            text_views(r@) == self@.open_ids(),
    {
        let mut out: Vec<String> = Vec::new();
        let mut i: usize = 0;
        while i < self.entries.len()
            invariant
                i <= self.entries@.len(),
                self@.entries.len() == self.entries@.len(),
                text_views(out@) =~= self@.open_ids_upto(i as int),
            decreases self.entries@.len() - i,
        {
            if self.entries[i].state == OverlayState::Open {
                out.push(self.entries[i].id.clone());
            }
            i = i + 1;
        }
        out
    }

    /// Closes every open overlay.
    ///
    /// Reports one closing per overlay that was open, in registry order.
    /// Afterwards no overlay is open: every entry is hidden where surfaces
    /// are reused, and none is left where they are not.
    pub fn close_all(&mut self) -> (r: Vec<CloseOutcome>)
        requires
            old(self).wf(),
        ensures
            final(self).wf(),
            final(self)@ == old(self)@.all_closed(),
            close_views(r@) == old(self)@.closing_outcomes_upto(old(self)@.entries.len() as int),
    {
        let ghost before = self@;
        let action: SurfaceAction = if self.supports_reuse {
            SurfaceAction::Hide
        } else {
            SurfaceAction::Destroy
        };
        let mut out: Vec<CloseOutcome> = Vec::new();
        let mut i: usize = 0;
        while i < self.entries.len()
            invariant
                i <= self.entries@.len(),
                self@ == before,
                before.entries.len() == self.entries@.len(),
                action == before.closing_action(),
                close_views(out@) =~= before.closing_outcomes_upto(i as int),
            decreases self.entries@.len() - i,
        {
            if self.entries[i].state == OverlayState::Open {
                let released: HoverRelease = match self.entries[i].hover {
                    Some(h) => HoverRelease { timer: h.close_timer, task: h.monitor_task },
                    None => HoverRelease { timer: None, task: None },
                };
                let id: String = self.entries[i].id.clone();
                let label: String = surface_label(self.kind, id.as_str());
                out.push(CloseOutcome { id, label, closed: true, action, released });
            }
            i = i + 1;
        }
        if self.supports_reuse {
            let mut j: usize = 0;
            while j < self.entries.len()
                invariant
                    j <= self.entries@.len(),
                    self.supports_reuse,
                    self.kind == before.kind,
                    before.supports_reuse,
                    before.entries.len() == self.entries@.len(),
                    forall|n: int| 0 <= n < j ==> (#[trigger] self.entries@[n])@ == before.entries[n].hidden(),
                    forall|n: int|
                        j <= n < self.entries@.len() ==> (#[trigger] self.entries@[n])@ == before.entries[n],
                decreases self.entries@.len() - j,
            {
                self.entries[j].state = OverlayState::Closed;
                self.entries[j].hover = None;
                j = j + 1;
            }
            proof {
                assert(self@.entries =~= before.all_closed().entries);
                assert(self@.ids() =~= before.ids());
            }
        } else {
            self.entries.clear();
            proof {
                assert(self@.entries =~= before.all_closed().entries);
            }
        }
        out
    }
}

/// The mathematical values of a list of identifiers.
pub open spec fn text_views(list: Seq<String>) -> Seq<Seq<char>> {
    Seq::new(list.len(), |i: int| list[i]@)
}

/// The mathematical values of a list of closings.
pub open spec fn close_views(list: Seq<CloseOutcome>) -> Seq<CloseOutcomeView> {
    Seq::new(list.len(), |i: int| list[i]@)
}

} // verus!

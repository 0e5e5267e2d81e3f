//! Focus follows the cursor: which window lies under the cursor, and
//! whether it is to be focused.

use crate::text::{equal, has_prefix};
use vstd::prelude::*;

verus! {

/// A window as the windowing side reports it.
pub struct WindowFrame {
    pub label: String,
    pub visible: bool,
    pub x: i32,
    pub y: i32,
    pub width: u32,
    pub height: u32,
}

impl WindowFrame {
    /// The window takes part: it is visible, it is not a popover and it is
    /// not the main window.
    pub open spec fn takes_part(&self) -> bool {
        &&& !"popover-"@.is_prefix_of(self.label@)
        &&& self.label@ != "main"@
        &&& self.visible
    }

    /// The point lies on the window, its four edges included.
    pub open spec fn holds(&self, x: int, y: int) -> bool {
        &&& self.x <= x <= self.x + self.width
        &&& self.y <= y <= self.y + self.height
    }

    pub open spec fn is_under(&self, x: int, y: int) -> bool {
        self.takes_part() && self.holds(x, y)
    }
}

/// The window under the cursor: the first in the list that takes part and
/// holds the point.
pub fn get_window_at_point(windows: &Vec<WindowFrame>, x: i32, y: i32) -> (r: Option<usize>)
    ensures
        match r {
            Some(k) => {
                &&& k < windows@.len()
                &&& windows@[k as int].is_under(x as int, y as int)
                &&& forall|j: int| 0 <= j < k ==> !(#[trigger] windows@[j]).is_under(x as int, y as int)
            },
            None => forall|j: int| 0 <= j < windows@.len() ==> !(#[trigger] windows@[j]).is_under(x as int, y as int),
        },
{
    let px: i64 = x as i64;
    let py: i64 = y as i64;
    let mut i: usize = 0;
    while i < windows.len()
        invariant
            i <= windows@.len(),
            px == x,
            py == y,
            forall|j: int| 0 <= j < i ==> !(#[trigger] windows@[j]).is_under(x as int, y as int),
        decreases windows@.len() - i,
    {
        let w: &WindowFrame = &windows[i];
        if !has_prefix(w.label.as_str(), "popover-") && !equal(w.label.as_str(), "main") && w.visible {
            let left: i64 = w.x as i64;
            let top: i64 = w.y as i64;
            if px >= left && px <= left + w.width as i64 && py >= top && py <= top + w.height as i64 {
                return Some(i);
            }
        }
        i = i + 1;
    }
    None
}

/// What focus-follows-cursor remembers: the window it focused last.
pub struct HoverFocusState {
    last_focused_label: Option<String>,
}

pub open spec fn label_view(label: Option<String>) -> Option<Seq<char>> {
    match label {
        Some(l) => Some(l@),
        None => None,
    }
}

impl View for HoverFocusState {
    type V = Option<Seq<char>>;

    closed spec fn view(&self) -> Option<Seq<char>> {
        label_view(self.last_focused_label)
    }
}

impl HoverFocusState {
    pub fn new() -> (r: HoverFocusState)
        ensures
            r@ is None,
    {
        HoverFocusState { last_focused_label: None }
    }

    /// Reacts to a move of the cursor, given the window now under it.
    ///
    /// A window is focused when the cursor comes onto it from elsewhere,
    /// not again while the cursor stays on it. The answer tells whether
    /// the window under the cursor is to be focused now.
    pub fn pointer_moved(&mut self, under: Option<&str>) -> (focus: bool)
        ensures
            final(self)@ == (match under {
                Some(l) => Some(l@),
                None => None,
            }),
            focus == (under matches Some(l) && old(self)@ != Some(l@)),
    {
        match under {
            Some(label) => {
                let same: bool = match &self.last_focused_label {
                    Some(last) => equal(last.as_str(), label),
                    None => false,
                };
                if !same {
                    self.last_focused_label = Some(label.to_owned());
                }
                !same
            },
            None => {
                self.last_focused_label = None;
                false
            },
        }
    }
}

} // verus!

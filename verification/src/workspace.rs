//! Workspaces of the tiling window manager as they are handed to the front end.

use crate::text::equal;
use vstd::prelude::*;

verus! {

pub struct Window {
    pub id: i64,
    pub app: String,
    pub title: String,
    pub focused: bool,
}

pub struct Workspace {
    pub id: String,
    pub display_name: Option<String>,
    pub focused: bool,
    pub visible: bool,
    pub windows: Vec<Window>,
    pub monitor: i32,
}

/// A listed window: a missing title is empty, and no window is marked focused.
pub fn window_from_listing(window_id: i64, app_name: String, window_title: Option<String>) -> (r: Window)
    ensures
        r.id == window_id,
        r.app@ == app_name@,
        r.title@ == (match window_title {
            Some(t) => t@,
            None => Seq::<char>::empty(),
        }),
        !r.focused,
{
    Window {
        id: window_id,
        app: app_name,
        title: match window_title {
            Some(t) => t,
            None => String::new(),
        },
        focused: false,
    }
}

/// `id` is one of `ids`.
pub open spec fn is_listed(ids: Seq<String>, id: Seq<char>) -> bool {
    exists|i: int| 0 <= i < ids.len() && (#[trigger] ids[i])@ == id
}

/// Tells whether `id` is one of `ids`.
pub fn listed(ids: &Vec<String>, id: &str) -> (r: bool)
    ensures
        r == is_listed(ids@, id@),
{
    let mut i: usize = 0;
    while i < ids.len()
        invariant
            i <= ids@.len(),
            forall|j: int| 0 <= j < i ==> (#[trigger] ids@[j])@ != id@,
        decreases ids@.len() - i,
    {
        if equal(ids[i].as_str(), id) {
            return true;
        }
        i = i + 1;
    }
    false
}

/// The display of a workspace: its display identifier if it has one, else
/// its display number, else 0.
pub open spec fn monitor_of(monitor_id: Option<i32>, monitor: Option<i32>) -> i32 {
    match monitor_id {
        Some(m) => m,
        None => match monitor {
            Some(m) => m,
            None => 0,
        },
    }
}

/// A listed workspace: focused if it is the focused one, visible if it is
/// among the visible ones.
pub fn workspace_from_listing(
    workspace: String,
    monitor_id: Option<i32>,
    monitor: Option<i32>,
    focused_id: &str,
    visible_ids: &Vec<String>,
    windows: Vec<Window>,
) -> (r: Workspace)
    ensures
        r.id@ == workspace@,
        r.display_name is None,
        r.focused == (workspace@ == focused_id@),
        r.visible == is_listed(visible_ids@, workspace@),
        r.windows == windows,
        r.monitor == monitor_of(monitor_id, monitor),
{
    let focused: bool = equal(workspace.as_str(), focused_id);
    let visible: bool = listed(visible_ids, workspace.as_str());
    Workspace {
        id: workspace,
        display_name: None,
        focused,
        visible,
        windows,
        monitor: match monitor_id {
            Some(m) => m,
            None => match monitor {
                Some(m) => m,
                None => 0,
            },
        },
    }
}

/// A workspace named in a focus change: it is visible exactly if it is the
/// focused one, and its display is not looked up.
pub fn workspace_of_focus_change(id: &str, is_focused: bool, windows: Vec<Window>) -> (r: Workspace)
    ensures
        r.id@ == id@,
        r.display_name is None,
        r.focused == is_focused,
        r.visible == is_focused,
        r.windows == windows,
        r.monitor == 0,
{
    Workspace { id: id.to_owned(), display_name: None, focused: is_focused, visible: is_focused, windows, monitor: 0 }
}

/// Position of the first focused workspace.
pub fn focused_workspace(workspaces: &Vec<Workspace>) -> (r: Option<usize>)
    ensures
        match r {
            Some(k) => {
                &&& k < workspaces@.len()
                &&& workspaces@[k as int].focused
                &&& forall|j: int| 0 <= j < k ==> !(#[trigger] workspaces@[j]).focused
            },
            None => forall|j: int| 0 <= j < workspaces@.len() ==> !(#[trigger] workspaces@[j]).focused,
        },
{
    let mut i: usize = 0;
    while i < workspaces.len()
        invariant
            i <= workspaces@.len(),
            forall|j: int| 0 <= j < i ==> !(#[trigger] workspaces@[j]).focused,
        decreases workspaces@.len() - i,
    {
        if workspaces[i].focused {
            return Some(i);
        }
        i = i + 1;
    }
    None
}

} // verus!

//! Windows made from a widget manifest: their names and their settings.

use crate::geometry::{constrain_spec, MonitorBounds, SHADOW_PADDING, TOP_MARGIN};
use crate::text::{has_prefix, joined};
use vstd::prelude::*;

verus! {

#[derive(Clone, Copy, Debug, PartialEq, Eq, Structural)]
pub enum WindowType {
    Bar,
    Floating,
}

/// What a manifest may say about its window; what it leaves out follows
/// from the type of the window.
#[derive(Clone, Copy, Debug, PartialEq, Eq, Structural)]
pub struct WindowConfig {
    pub transparent: Option<bool>,
    pub always_on_top: Option<bool>,
    pub resizable: Option<bool>,
    pub decorations: Option<bool>,
    pub skip_taskbar: Option<bool>,
    pub click_through: Option<bool>,
}

/// The settings a window is built with.
#[derive(Clone, Copy, Debug, PartialEq, Eq, Structural)]
pub struct WindowSettings {
    pub transparent: bool,
    pub always_on_top: bool,
    pub resizable: bool,
    pub decorations: bool,
    pub skip_taskbar: bool,
}

pub open spec fn or_default(choice: Option<bool>, default: bool) -> bool {
    match choice {
        Some(b) => b,
        None => default,
    }
}

pub open spec fn chosen(config: Option<WindowConfig>, pick: spec_fn(WindowConfig) -> Option<bool>, default: bool) -> bool {
    match config {
        Some(c) => or_default(pick(c), default),
        None => default,
    }
}

/// A bar stays on top and keeps its size; a floating window does neither.
/// Every window is transparent, undecorated and kept off the task bar
/// unless its manifest says otherwise.
pub open spec fn window_settings_spec(config: Option<WindowConfig>, window_type: WindowType) -> WindowSettings {
    let is_bar = window_type == WindowType::Bar;
    WindowSettings {
        transparent: chosen(config, |c: WindowConfig| c.transparent, true),
        always_on_top: chosen(config, |c: WindowConfig| c.always_on_top, is_bar),
        resizable: chosen(config, |c: WindowConfig| c.resizable, !is_bar),
        decorations: chosen(config, |c: WindowConfig| c.decorations, false),
        skip_taskbar: chosen(config, |c: WindowConfig| c.skip_taskbar, true),
    }
}

fn pick(choice: Option<bool>, default: bool) -> (r: bool)
    ensures
        r == or_default(choice, default),
{
    match choice {
        Some(b) => b,
        None => default,
    }
}

/// Works out the settings of a window from its manifest and its type.
pub fn window_settings(config: Option<WindowConfig>, window_type: WindowType) -> (r: WindowSettings)
    ensures
        r == window_settings_spec(config, window_type),
{
    let is_bar: bool = match window_type {
        WindowType::Bar => true,
        WindowType::Floating => false,
    };
    match config {
        Some(c) => WindowSettings {
            transparent: pick(c.transparent, true),
            always_on_top: pick(c.always_on_top, is_bar),
            resizable: pick(c.resizable, !is_bar),
            decorations: pick(c.decorations, false),
            skip_taskbar: pick(c.skip_taskbar, true),
        },
        None => WindowSettings {
            transparent: true,
            always_on_top: is_bar,
            resizable: !is_bar,
            decorations: false,
            skip_taskbar: true,
        },
    }
}

/// The name of the window of one instance of a widget.
pub fn window_label(window_id: &str, instance_id: &str) -> (r: String)
    ensures
        r@ == "window-"@ + window_id@ + "-"@ + instance_id@,
{
    let mut label: String = joined("window-", window_id);
    label.append("-");
    label.append(instance_id);
    label
}

/// The name of a window declared in line.
pub fn inline_window_label(window_id: &str) -> (r: String)
    ensures
        r@ == "inline-window-"@ + window_id@,
{
    joined("inline-window-", window_id)
}

/// Tells whether a surface name is that of a widget window.
pub fn is_window_label(label: &str) -> (r: bool)
    ensures
        r == ("window-"@.is_prefix_of(label@) || "inline-window-"@.is_prefix_of(label@)),
{
    has_prefix(label, "window-") || has_prefix(label, "inline-window-")
}

/// The address under which the entry file of a widget is served.
pub fn window_entry_url(window_id: &str, entry: &str) -> (r: String)
    ensures
        r@ == "arcana://window/"@ + window_id@ + "/"@ + entry@,
{
    let mut url: String = joined("arcana://window/", window_id);
    url.append("/");
    url.append(entry);
    url
}

/// The size a window is given when its content asks for one.
///
/// A popover keeps the size asked for, and so does a window whose display
/// is not known; any other window is cut to the usable area of its
/// display.
pub open spec fn window_size_spec(label: Seq<char>, width: int, height: int, monitor: Option<MonitorBounds>) -> (
    int,
    int,
) {
    if "popover-"@.is_prefix_of(label) || monitor is None {
        (width, height)
    } else {
        constrain_spec(width, height, monitor->0)
    }
}

/// Works out the size a window is given when its content asks for one.
pub fn window_size(label: &str, width: u32, height: u32, monitor: Option<MonitorBounds>) -> (r: (i64, i64))
    ensures
        (r.0 as int, r.1 as int) == window_size_spec(label@, width as int, height as int, monitor),
{
    let asked: (i64, i64) = (width as i64, height as i64);
    if has_prefix(label, "popover-") {
        return asked;
    }
    match monitor {
        Some(m) => {
            let max_w: i64 = m.width as i64 - SHADOW_PADDING;
            let max_h: i64 = m.height as i64 - SHADOW_PADDING - TOP_MARGIN;
            (
                if asked.0 <= max_w {
                    asked.0
                } else {
                    max_w
                },
                if asked.1 <= max_h {
                    asked.1
                } else {
                    max_h
                },
            )
        },
        None => asked,
    }
}

} // verus!

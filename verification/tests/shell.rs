use arcana::autoraise::{get_window_at_point, HoverFocusState, WindowFrame};
use arcana::ipc::{parse_command, request_from_fields, IpcRequest};
use arcana::protocol::{get_mime, request_path, route, route_request, Route};
use arcana::text::{has_suffix, split_once};
use arcana::workspace::{
    focused_workspace, listed, window_from_listing, workspace_from_listing,
    workspace_of_focus_change,
};

fn frame(label: &str, visible: bool, x: i32, y: i32) -> WindowFrame {
    WindowFrame { label: label.to_string(), visible, x, y, width: 100, height: 50 }
}

#[test]
fn window_under_the_cursor() {
    let windows = vec![
        frame("main", true, 0, 0),
        frame("popover-clock", true, 0, 0),
        frame("window-hidden-1", false, 0, 0),
        frame("window-bar-1", true, 0, 0),
        frame("window-notes-1", true, 50, 0),
    ];
    assert_eq!(get_window_at_point(&windows, 10, 10), Some(3));
    assert_eq!(get_window_at_point(&windows, 100, 50), Some(3));
    assert_eq!(get_window_at_point(&windows, 101, 50), Some(4));
    assert_eq!(get_window_at_point(&windows, 150, 50), Some(4));
    assert_eq!(get_window_at_point(&windows, 151, 50), None);
    assert_eq!(get_window_at_point(&windows, -1, 0), None);
    assert_eq!(get_window_at_point(&Vec::new(), 0, 0), None);
}

#[test]
fn a_window_is_focused_once_per_visit() {
    let mut state = HoverFocusState::new();
    assert!(state.pointer_moved(Some("a")));
    assert!(!state.pointer_moved(Some("a")));
    assert!(state.pointer_moved(Some("b")));
    assert!(state.pointer_moved(Some("a")));
    assert!(!state.pointer_moved(None));
    assert!(!state.pointer_moved(None));
    assert!(state.pointer_moved(Some("a")));
}

#[test]
fn listed_windows_and_workspaces() {
    let w = window_from_listing(7, "Finder".to_string(), None);
    assert_eq!((w.id, w.app.as_str(), w.title.as_str(), w.focused), (7, "Finder", "", false));
    let t = window_from_listing(8, "Mail".to_string(), Some("Inbox".to_string()));
    assert_eq!(t.title, "Inbox");

    let visible = vec!["2".to_string(), "5".to_string()];
    assert!(listed(&visible, "5"));
    assert!(!listed(&visible, "3"));
    let a = workspace_from_listing("2".to_string(), Some(4), Some(9), "2", &visible, vec![w]);
    assert_eq!(a.id, "2");
    assert!(a.display_name.is_none());
    assert!(a.focused && a.visible);
    assert_eq!(a.monitor, 4);
    assert_eq!(a.windows.len(), 1);
    let b = workspace_from_listing("3".to_string(), None, Some(9), "2", &visible, Vec::new());
    assert!(!b.focused && !b.visible);
    assert_eq!(b.monitor, 9);
    let c = workspace_from_listing("5".to_string(), None, None, "2", &visible, Vec::new());
    assert!(!c.focused && c.visible);
    assert_eq!(c.monitor, 0);

    let f = workspace_of_focus_change("9", true, Vec::new());
    assert!(f.focused && f.visible && f.monitor == 0 && f.id == "9");
    let p = workspace_of_focus_change("8", false, Vec::new());
    assert!(!p.focused && !p.visible);

    assert_eq!(focused_workspace(&vec![b, c, a, f]), Some(2));
    assert_eq!(focused_workspace(&vec![p]), None);
    assert_eq!(focused_workspace(&Vec::new()), None);
}

fn focus(r: IpcRequest) -> Option<(String, Option<String>)> {
    match r {
        IpcRequest::FocusChanged { focused, prev } => Some((focused, prev)),
        _ => None,
    }
}

#[test]
fn received_lines() {
    assert_eq!(focus(parse_command("focus-changed:3:1")), Some(("3".to_string(), Some("1".to_string()))));
    assert_eq!(focus(parse_command("focus-changed:3")), Some(("3".to_string(), None)));
    assert_eq!(focus(parse_command("focus-changed: 3 : 1 ")), Some(("3".to_string(), Some("1".to_string()))));
    assert_eq!(focus(parse_command("focus-changed:3:")), Some(("3".to_string(), None)));
    assert_eq!(focus(parse_command("focus-changed:3:  ")), Some(("3".to_string(), None)));
    assert_eq!(focus(parse_command("focus-changed:3:1:extra")), Some(("3".to_string(), Some("1".to_string()))));
    assert!(matches!(parse_command("focus-changed:"), IpcRequest::Ignored));
    assert!(matches!(parse_command("focus-changed: :1"), IpcRequest::Ignored));
    assert!(matches!(parse_command("focus-changed"), IpcRequest::Ignored));
    assert!(matches!(parse_command("workspace-changed"), IpcRequest::WorkspaceChanged));
    assert!(matches!(parse_command("workspace-changed "), IpcRequest::Ignored));
    assert!(matches!(parse_command(""), IpcRequest::Ignored));
    assert!(matches!(request_from_fields("", Some("1")), IpcRequest::Ignored));
    assert_eq!(focus(request_from_fields("a", Some(""))), Some(("a".to_string(), None)));
}

#[test]
fn texts_are_cut_at_the_first_separator() {
    assert_eq!(split_once("a:b:c", ':'), ("a", Some("b:c")));
    assert_eq!(split_once("abc", ':'), ("abc", None));
    assert_eq!(split_once(":", ':'), ("", Some("")));
    assert_eq!(split_once("", ':'), ("", None));
    assert_eq!(split_once("é:ü", ':'), ("é", Some("ü")));
    assert!(has_suffix("index.html", ".html"));
    assert!(!has_suffix("html", ".html"));
    assert!(has_suffix("x", ""));
}

fn lib(r: Route) -> Option<String> {
    match r {
        Route::Lib { file } => Some(file),
        _ => None,
    }
}

fn window(r: Route) -> Option<(String, String, bool)> {
    match r {
        Route::Window { window_id, file, page } => Some((window_id, file, page)),
        _ => None,
    }
}

fn user(r: Route) -> Option<String> {
    match r {
        Route::UserFile { relative } => Some(relative),
        _ => None,
    }
}

#[test]
fn requests_find_their_route() {
    assert_eq!(request_path("window", "/clock/index.html"), "/window/clock/index.html");
    assert_eq!(request_path("", "/lib/vue.esm.js"), "/lib/vue.esm.js");
    assert_eq!(request_path("", "/"), "/index.html");
    assert_eq!(request_path("", ""), "/index.html");
    assert_eq!(request_path("localhost", "/"), "/localhost/");

    assert_eq!(lib(route_request("lib", "/vue.esm.js")), Some("vue.esm.js".to_string()));
    assert_eq!(lib(route("/lib/")), Some(String::new()));
    assert_eq!(
        window(route_request("window", "/clock/index.html")),
        Some(("clock".to_string(), "index.html".to_string(), true))
    );
    assert_eq!(
        window(route("/window/clock/assets/app.js")),
        Some(("clock".to_string(), "assets/app.js".to_string(), false))
    );
    assert_eq!(window(route("/window/clock")), Some(("clock".to_string(), "index.html".to_string(), true)));
    assert_eq!(window(route("/window/clock/")), Some(("clock".to_string(), String::new(), false)));
    assert_eq!(window(route("/window/")), Some((String::new(), "index.html".to_string(), true)));
    assert_eq!(window(route("/window/a/b/page.html")), Some(("a".to_string(), "b/page.html".to_string(), true)));
    assert_eq!(user(route_request("", "/")), Some("index.html".to_string()));
    assert_eq!(user(route("/assets/app.css")), Some("assets/app.css".to_string()));
    assert_eq!(user(route("/window")), Some("window".to_string()));
    assert_eq!(user(route("")), Some(String::new()));
}

#[test]
fn content_types() {
    assert_eq!(get_mime(Some("html")), "text/html");
    assert_eq!(get_mime(Some("js")), "application/javascript");
    assert_eq!(get_mime(Some("mjs")), "application/javascript");
    assert_eq!(get_mime(Some("css")), "text/css");
    assert_eq!(get_mime(Some("json")), "application/json");
    assert_eq!(get_mime(Some("png")), "image/png");
    assert_eq!(get_mime(Some("svg")), "image/svg+xml");
    assert_eq!(get_mime(Some("woff")), "font/woff");
    assert_eq!(get_mime(Some("woff2")), "font/woff2");
    assert_eq!(get_mime(Some("HTML")), "application/octet-stream");
    assert_eq!(get_mime(Some("txt")), "application/octet-stream");
    assert_eq!(get_mime(None), "application/octet-stream");
}

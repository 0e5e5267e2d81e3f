//! Routing of requests to the application's own address scheme.

use crate::text::{equal, has_suffix, joined, position_of, split_once, strip_prefix, without_first};
use vstd::prelude::*;

verus! {

/// What a request asks for.
pub enum Route {
    /// A shared library of the widget runtime.
    Lib { file: String },
    /// A file of a widget; pages get the import map put in.
    Window { window_id: String, file: String, page: bool },
    /// A file of the user's own front end, if there is one.
    UserFile { relative: String },
}

/// The mathematical value of a `Route`.
pub enum RouteView {
    Lib { file: Seq<char> },
    Window { window_id: Seq<char>, file: Seq<char>, page: bool },
    UserFile { relative: Seq<char> },
}

impl View for Route {
    type V = RouteView;

    open spec fn view(&self) -> RouteView {
        match self {
            Route::Lib { file } => RouteView::Lib { file: file@ },
            Route::Window { window_id, file, page } => RouteView::Window {
                window_id: window_id@,
                file: file@,
                page: *page,
            },
            Route::UserFile { relative } => RouteView::UserFile { relative: relative@ },
        }
    }
}

/// The path a request stands for: the host, if there is one, counts as
/// its first part, and a request for nothing asks for the start page.
pub open spec fn request_path_spec(host: Seq<char>, uri_path: Seq<char>) -> Seq<char> {
    let path = if host.len() == 0 {
        uri_path
    } else {
        "/"@ + host + uri_path
    };
    if path == "/"@ || path.len() == 0 {
        "/index.html"@
    } else {
        path
    }
}

/// Puts host and path of a request together.
pub fn request_path(host: &str, uri_path: &str) -> (r: String)
    ensures
        r@ == request_path_spec(host@, uri_path@),
        r@.len() > 0,
{
    proof {
        reveal_strlit("/");
        reveal_strlit("/index.html");
    }
    let path: String = if host.unicode_len() == 0 {
        uri_path.to_owned()
    } else {
        let mut p: String = joined("/", host);
        p.append(uri_path);
        p
    };
    if equal(path.as_str(), "/") || path.as_str().unicode_len() == 0 {
        "/index.html".to_owned()
    } else {
        path
    }
}

/// A file that is served as a page.
pub open spec fn is_page(file: Seq<char>) -> bool {
    ".html"@.is_suffix_of(file) || file == "index.html"@
}

/// The route of a path.
///
/// Below `/lib/` lie the shared libraries. Below `/window/` the first
/// part names the widget and the rest its file, `index.html` if there is
/// no rest. Anything else is looked for in the user's own front end,
/// without the first character of the path.
pub open spec fn route_spec(path: Seq<char>) -> RouteView {
    if "/lib/"@.is_prefix_of(path) {
        RouteView::Lib { file: path.skip("/lib/"@.len() as int) }
    } else if "/window/"@.is_prefix_of(path) {
        let rest = path.skip("/window/"@.len() as int);
        let k = position_of(rest, '/');
        let file = if k < rest.len() {
            rest.skip(k + 1)
        } else {
            "index.html"@
        };
        RouteView::Window { window_id: rest.take(k), file, page: is_page(file) }
    } else {
        RouteView::UserFile {
            relative: if path.len() == 0 {
                Seq::<char>::empty()
            } else {
                path.skip(1)
            },
        }
    }
}

/// Finds the route of a path.
pub fn route(path: &str) -> (r: Route)
    ensures
        r@ == route_spec(path@),
{
    match strip_prefix(path, "/lib/") {
        Some(file) => {
            return Route::Lib { file: file.to_owned() };
        },
        None => {},
    }
    match strip_prefix(path, "/window/") {
        Some(rest) => {
            let (window_id, after) = split_once(rest, '/');
            let file: &str = match after {
                Some(f) => f,
                None => "index.html",
            };
            let page: bool = has_suffix(file, ".html") || equal(file, "index.html");
            Route::Window { window_id: window_id.to_owned(), file: file.to_owned(), page }
        },
        None => match without_first(path, 1) {
            Some(relative) => Route::UserFile { relative: relative.to_owned() },
            None => Route::UserFile { relative: String::new() },
        },
    }
}

/// Finds the route of a request.
pub fn route_request(host: &str, uri_path: &str) -> (r: Route)
    ensures
        r@ == route_spec(request_path_spec(host@, uri_path@)),
{
    let path: String = request_path(host, uri_path);
    route(path.as_str())
}

/// The content type of a file by its extension.
pub open spec fn mime_spec(extension: Option<Seq<char>>) -> Seq<char> {
    match extension {
        Some(e) => if e == "html"@ {
            "text/html"@
        } else if e == "js"@ || e == "mjs"@ {
            "application/javascript"@
        } else if e == "css"@ {
            "text/css"@
        } else if e == "json"@ {
            "application/json"@
        } else if e == "png"@ {
            "image/png"@
        } else if e == "svg"@ {
            "image/svg+xml"@
        } else if e == "woff"@ {
            "font/woff"@
        } else if e == "woff2"@ {
            "font/woff2"@
        } else {
            "application/octet-stream"@
        },
        None => "application/octet-stream"@,
    }
}

pub open spec fn extension_view(extension: Option<&str>) -> Option<Seq<char>> {
    match extension {
        Some(e) => Some(e@),
        None => None,
    }
}

/// Gives the content type of a file by its extension.
pub fn get_mime(extension: Option<&str>) -> (r: &'static str)
    ensures
        r@ == mime_spec(extension_view(extension)),
{
    match extension {
        Some(e) => {
            if equal(e, "html") {
                "text/html"
            } else if equal(e, "js") || equal(e, "mjs") {
                "application/javascript"
            } else if equal(e, "css") {
                "text/css"
            } else if equal(e, "json") {
                "application/json"
            } else if equal(e, "png") {
                "image/png"
            } else if equal(e, "svg") {
                "image/svg+xml"
            } else if equal(e, "woff") {
                "font/woff"
            } else if equal(e, "woff2") {
                "font/woff2"
            } else {
                "application/octet-stream"
            }
        },
        None => "application/octet-stream",
    }
}

} // verus!

//! Decisions of the widget builder: which files count as sources, which
//! widget a changed file belongs to, and when a build is due.
//!
//! Paths arrive here taken apart: as the list of their components, and
//! with their extension beside them.

use crate::text::{equal, join_path, join_path_spec};
use vstd::prelude::*;

verus! {

/// Quiet time after the last change before a rebuild starts, in milliseconds.
pub const DEBOUNCE_MS: u64 = 500;

/// The lower-case form of a text.
pub uninterp spec fn lowercase_of(s: Seq<char>) -> Seq<char>;

/// `str::to_lowercase` of the standard library. The contract only names
/// the result: it is the lower-case form of `s`, whatever the standard
/// library's tables give for it.
#[verifier::external_body]
fn lowercase(s: &str) -> (r: String)
    ensures
        r@ == lowercase_of(s@),
{
    s.to_lowercase()
}

/// An extension, written in lower case, whose change triggers a rebuild.
pub open spec fn is_build_extension_spec(lowered: Seq<char>) -> bool {
    ||| lowered == "vue"@
    ||| lowered == "jsx"@
    ||| lowered == "tsx"@
    ||| lowered == "ts"@
    ||| lowered == "js"@
    ||| lowered == "css"@
    ||| lowered == "scss"@
}

/// Tells whether a change to a file of this extension triggers a rebuild.
/// The extension is given in lower case.
pub fn is_build_extension(lowered: &str) -> (r: bool)
    ensures
        r == is_build_extension_spec(lowered@),
{
    equal(lowered, "vue") || equal(lowered, "jsx") || equal(lowered, "tsx") || equal(lowered, "ts") || equal(
        lowered,
        "js",
    ) || equal(lowered, "css") || equal(lowered, "scss")
}

/// An extension that marks a file as a source to be built.
pub open spec fn is_source_extension_spec(extension: Seq<char>) -> bool {
    extension == "vue"@ || extension == "jsx"@ || extension == "tsx"@
}

/// Tells whether a file of this extension is a source to be built.
pub fn is_source_extension(extension: &str) -> (r: bool)
    ensures
        r == is_source_extension_spec(extension@),
{
    equal(extension, "vue") || equal(extension, "jsx") || equal(extension, "tsx")
}

/// A component that marks build output or installed packages.
pub open spec fn is_ignored_component(component: Seq<char>) -> bool {
    component == ".arcana"@ || component == "node_modules"@
}

/// One of the components is ignored.
pub open spec fn passes_ignored(components: Seq<String>) -> bool {
    exists|i: int| 0 <= i < components.len() && is_ignored_component(#[trigger] components[i]@)
}

/// Tells whether a path lies below build output or installed packages.
pub fn has_ignored_component(components: &Vec<String>) -> (r: bool)
    ensures
        r == passes_ignored(components@),
{
    let mut i: usize = 0;
    while i < components.len()
        invariant
            i <= components@.len(),
            forall|j: int| 0 <= j < i ==> !is_ignored_component(#[trigger] components@[j]@),
        decreases components@.len() - i,
    {
        if equal(components[i].as_str(), ".arcana") || equal(components[i].as_str(), "node_modules") {
            return true;
        }
        i = i + 1;
    }
    false
}

/// Tells whether a changed file triggers a rebuild, given the verdict on
/// its path and its extension in lower case.
pub fn should_rebuild_lowered(ignored: bool, lowered: Option<&str>) -> (r: bool)
    ensures
        r == (!ignored && (lowered matches Some(e) && is_build_extension_spec(e@))),
{
    if ignored {
        return false;
    }
    match lowered {
        Some(e) => is_build_extension(e),
        None => false,
    }
}

/// Tells whether a changed file triggers a rebuild.
///
/// A file below `.arcana` or `node_modules` never does. Any other file
/// does if it has an extension whose lower-case form is one of the build
/// extensions.
pub fn should_rebuild(components: &Vec<String>, extension: Option<&str>) -> (r: bool)
    ensures
        r == (!passes_ignored(components@) && (extension matches Some(e) && is_build_extension_spec(
            lowercase_of(e@),
        ))),
{
    let ignored: bool = has_ignored_component(components);
    match extension {
        Some(e) => {
            let lowered: String = lowercase(e);
            should_rebuild_lowered(ignored, Some(lowered.as_str()))
        },
        None => should_rebuild_lowered(ignored, None),
    }
}

/// The components of `dir` are the first components of `path`, one by one.
pub open spec fn lies_below(path: Seq<String>, dir: Seq<String>) -> bool {
    &&& dir.len() <= path.len()
    &&& forall|i: int| 0 <= i < dir.len() ==> (#[trigger] path[i])@ == dir[i]@
}

/// The widget a file belongs to: the first component of its path below the
/// widgets directory. A path that is not below that directory, or that is
/// the directory itself, belongs to none.
pub fn get_widget_id(path: &Vec<String>, widgets_dir: &Vec<String>) -> (r: Option<String>)
    ensures
        match r {
            Some(id) => {
                &&& lies_below(path@, widgets_dir@)
                &&& widgets_dir@.len() < path@.len()
                &&& id@ == path@[widgets_dir@.len() as int]@
            },
            None => !lies_below(path@, widgets_dir@) || widgets_dir@.len() == path@.len(),
        },
{
    if widgets_dir.len() > path.len() {
        return None;
    }
    let mut i: usize = 0;
    while i < widgets_dir.len()
        invariant
            i <= widgets_dir@.len(),
            widgets_dir@.len() <= path@.len(),
            forall|j: int| 0 <= j < i ==> (#[trigger] path@[j])@ == widgets_dir@[j]@,
        decreases widgets_dir@.len() - i,
    {
        if !equal(path[i].as_str(), widgets_dir[i].as_str()) {
            return None;
        }
        i = i + 1;
    }
    if widgets_dir.len() == path.len() {
        None
    } else {
        Some(path[widgets_dir.len()].clone())
    }
}

/// The manifest of a widget: `widget.json` in its directory if that
/// exists, else `window.json` if that exists, else none.
pub fn get_manifest_path(widget_dir: &str, widget_json_exists: bool, window_json_exists: bool) -> (r: Option<
    String,
>)
    ensures
        match r {
            Some(p) => p@ == (if widget_json_exists {
                join_path_spec(widget_dir@, "widget.json"@)
            } else {
                join_path_spec(widget_dir@, "window.json"@)
            }),
            None => true,
        },
        r is Some <==> widget_json_exists || window_json_exists,
{
    if widget_json_exists {
        Some(join_path(widget_dir, "widget.json"))
    } else if window_json_exists {
        Some(join_path(widget_dir, "window.json"))
    } else {
        None
    }
}

/// What is known of the build output of a widget: whether it exists, and
/// when it was last written if that could be read.
#[derive(Clone, Copy, Debug, PartialEq, Eq, Structural)]
pub struct BuildOutput {
    pub exists: bool,
    pub modified: Option<u64>,
}

/// A source is up to date only if the output exists, both times are known
/// and the source is not the newer one.
pub open spec fn source_is_stale(source_modified: Option<u64>, output: BuildOutput) -> bool {
    !(output.exists && source_modified is Some && output.modified is Some && source_modified->0
        <= output.modified->0)
}

/// One of the sources is stale.
pub open spec fn any_stale(sources: Seq<Option<u64>>, output: BuildOutput) -> bool {
    exists|i: int| 0 <= i < sources.len() && source_is_stale(#[trigger] sources[i], output)
}

/// Tells whether a widget is to be built.
///
/// `sources` holds one entry for each source file of the widget: the time
/// it was last written, if that could be read. A widget without sources
/// is never built; one with sources is built unless every source is up to
/// date.
pub fn needs_build(sources: &Vec<Option<u64>>, output: BuildOutput) -> (r: bool)
    ensures
        r == any_stale(sources@, output),
{
    let mut i: usize = 0;
    while i < sources.len()
        invariant
            i <= sources@.len(),
            forall|j: int| 0 <= j < i ==> !source_is_stale(#[trigger] sources@[j], output),
        decreases sources@.len() - i,
    {
        let fresh: bool = output.exists && match (sources[i], output.modified) {
            (Some(s), Some(b)) => s <= b,
            _ => false,
        };
        if !fresh {
            assert(source_is_stale(sources@[i as int], output));
            return true;
        }
        i = i + 1;
    }
    false
}

} // verus!

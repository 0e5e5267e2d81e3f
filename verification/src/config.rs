//! The global configuration and the places it is looked for.

use crate::text::{has_prefix, join_path, join_path_spec, without_first};
use vstd::prelude::*;

verus! {

/// Version written into a configuration that is made from nothing.
pub const CONFIG_VERSION: u32 = 2;

pub struct ThemeConfig {
    pub mode: String,
    pub accent_color: Option<String>,
}

#[derive(Clone, Copy, Debug, PartialEq, Eq, Structural)]
pub struct GlobalSettings {
    pub hot_reload: bool,
    pub dev_mode: bool,
}

pub struct GitHubSecret {
    pub token: String,
}

pub struct SecretsConfig {
    pub github: Option<GitHubSecret>,
}

impl Default for SecretsConfig {
    fn default() -> (r: Self)
        ensures
            r.github is None,
    {
        SecretsConfig { github: None }
    }
}

/// Where a user-built front end is loaded from.
pub struct UiConfig {
    /// Folder of the built front end; a leading `~/` stands for the home directory.
    pub dist_path: Option<String>,
}

impl Default for UiConfig {
    fn default() -> (r: Self)
        ensures
            r.dist_path is None,
    {
        UiConfig { dist_path: None }
    }
}

pub struct FluopanelConfig {
    pub version: u32,
    pub theme: ThemeConfig,
    pub settings: GlobalSettings,
    pub secrets: Option<SecretsConfig>,
    pub ui: Option<UiConfig>,
}

impl FluopanelConfig {
    /// The configuration used when none is stored.
    pub open spec fn is_initial(&self) -> bool {
        &&& self.version == CONFIG_VERSION
        &&& self.theme.mode@ == "system"@
        &&& self.theme.accent_color matches Some(c) && c@ == "#007AFF"@
        &&& self.settings == (GlobalSettings { hot_reload: true, dev_mode: false })
        &&& self.secrets is None
        &&& self.ui is None
    }
}

impl Default for FluopanelConfig {
    fn default() -> (r: Self)
        ensures
            r.is_initial(),
    {
        FluopanelConfig {
            version: CONFIG_VERSION,
            theme: ThemeConfig { mode: "system".to_owned(), accent_color: Some("#007AFF".to_owned()) },
            settings: GlobalSettings { hot_reload: true, dev_mode: false },
            secrets: None,
            ui: None,
        }
    }
}

/// The directory relative paths start from when no home directory is known.
pub open spec fn home_or_here(home: Option<Seq<char>>) -> Seq<char> {
    match home {
        Some(h) => h,
        None => "."@,
    }
}

pub open spec fn config_dir_spec(home: Option<Seq<char>>) -> Seq<char> {
    join_path_spec(join_path_spec(home_or_here(home), ".config"@), "fluopanel"@)
}

pub open spec fn view_of(text: Option<&str>) -> Option<Seq<char>> {
    match text {
        Some(t) => Some(t@),
        None => None,
    }
}

/// The directory of the configuration: `.config/fluopanel` below the home
/// directory, or below the current directory if no home is known.
pub fn get_config_dir(home: Option<&str>) -> (r: String)
    ensures
        r@ == config_dir_spec(view_of(home)),
{
    let base: &str = match home {
        Some(h) => h,
        None => ".",
    };
    let dot_config: String = join_path(base, ".config");
    join_path(dot_config.as_str(), "fluopanel")
}

/// The file of the configuration.
pub fn get_config_path(home: Option<&str>) -> (r: String)
    ensures
        r@ == join_path_spec(config_dir_spec(view_of(home)), "fluopanel.json"@),
{
    let dir: String = get_config_dir(home);
    join_path(dir.as_str(), "fluopanel.json")
}

/// The folder a configured `dist_path` stands for: with a leading `~/` and
/// a known home directory, the rest below the home directory; otherwise
/// the path as it is written.
pub open spec fn expand_home_spec(dist_path: Seq<char>, home: Option<Seq<char>>) -> Seq<char> {
    if "~/"@.is_prefix_of(dist_path) && home is Some {
        join_path_spec(home->0, dist_path.skip(2))
    } else {
        dist_path
    }
}

/// Replaces a leading `~/` by the home directory.
pub fn expand_home(dist_path: &str, home: Option<&str>) -> (r: String)
    ensures
        r@ == expand_home_spec(dist_path@, view_of(home)),
{
    proof {
        reveal_strlit("~/");
    }
    if has_prefix(dist_path, "~/") {
        match home {
            Some(h) => match without_first(dist_path, 2) {
                Some(rest) => join_path(h, rest),
                None => dist_path.to_owned(),
            },
            None => dist_path.to_owned(),
        }
    } else {
        dist_path.to_owned()
    }
}

/// Picks the folder the front end is served from.
///
/// The configured folder wins if it holds a front end, then the default
/// folder if it does; otherwise there is none. `custom` is the configured
/// folder, already expanded; the two flags say whether each folder exists
/// and holds an `index.html`.
pub fn choose_ui_dist_path(custom: Option<&str>, custom_usable: bool, default_dir: &str, default_usable: bool) -> (r:
    Option<String>)
    ensures
        match r {
            Some(p) => p@ == (if custom is Some && custom_usable {
                custom->0@
            } else {
                default_dir@
            }),
            None => !(custom is Some && custom_usable) && !default_usable,
        },
        r is Some <==> (custom is Some && custom_usable) || default_usable,
{
    match custom {
        Some(c) => {
            if custom_usable {
                return Some(c.to_owned());
            }
        },
        None => {},
    }
    if default_usable {
        Some(default_dir.to_owned())
    } else {
        None
    }
}

/// The folder of the user's own front end, if the home directory is known.
pub fn get_user_config_dir(home: Option<&str>) -> (r: Option<String>)
    ensures
        match r {
            Some(dir) => home is Some && dir@ == join_path_spec(home->0@, ".config/arcana/dist"@),
            None => home is None,
        },
{
    match home {
        Some(h) => Some(join_path(h, ".config/arcana/dist")),
        None => None,
    }
}

/// The folder below the home directory in which widgets are kept.
pub open spec fn widgets_base(home: Seq<char>) -> Seq<char> {
    join_path_spec(home, ".config/arcana"@)
}

/// Why the widgets directory cannot be named.
#[derive(Clone, Copy, Debug, PartialEq, Eq, Structural)]
pub enum DirectoryError {
    /// The home directory is not known.
    NoHome,
}

impl DirectoryError {
    /// The sentence shown to the user.
    pub fn message(&self) -> (r: &'static str)
        ensures
            r@ == "Could not determine home directory"@,
    {
        "Could not determine home directory"
    }
}

/// Picks the directory in which widgets are kept: `widgets` if it
/// exists, else the older `windows` if that exists, else `widgets`, which
/// a new installation is to create.
pub fn get_windows_dir(home: Option<&str>, widgets_exists: bool, windows_exists: bool) -> (r: Result<
    String,
    DirectoryError,
>)
    ensures
        r is Err <==> home is None,
        r is Ok ==> r->Ok_0@ == join_path_spec(
            widgets_base(home->0@),
            if !widgets_exists && windows_exists {
                "windows"@
            } else {
                "widgets"@
            },
        ),
{
    match home {
        Some(h) => {
            let base: String = join_path(h, ".config/arcana");
            if !widgets_exists && windows_exists {
                Ok(join_path(base.as_str(), "windows"))
            } else {
                Ok(join_path(base.as_str(), "widgets"))
            }
        },
        None => Err(DirectoryError::NoHome),
    }
}

} // verus!

use arcana::cli::{capitalize, exit_code, ipc_command, with_first_replaced, Cli, Commands};
use arcana::config::{
    choose_ui_dist_path, expand_home, get_config_dir, get_config_path, get_user_config_dir,
    get_windows_dir, DirectoryError, FluopanelConfig, SecretsConfig, UiConfig,
};
use arcana::controller::error_message;
use arcana::geometry::MonitorBounds;
use arcana::overlay::{OverlayError, OverlayKind};
use arcana::trigger::{trigger_error_message, TriggerError};
use arcana::content::{
    build_popover_url, build_popup_url, checked_url, max_height_param, mode_text,
    popover_url_text, popup_url_text, url_from_parse,
};
use arcana::icons::{app_icon, encode_icon, IconCache, MAX_CACHE_SIZE};
use arcana::network::{
    connected_network, disconnected_network, network_changed, network_type, primary_interface,
    signal_percentage,
};
use arcana::overlay::PopupMode;
use arcana::text::{decimal, equal, has_prefix, join_path, joined, strip_prefix, without_first};
use arcana::watch::{
    get_manifest_path, get_widget_id, has_ignored_component, is_build_extension,
    is_source_extension, needs_build, should_rebuild, should_rebuild_lowered, BuildOutput,
};
use arcana::windows::{
    inline_window_label, is_window_label, window_entry_url, window_label, window_settings,
    window_size, WindowConfig, WindowSettings, WindowType,
};

fn parts(list: &[&str]) -> Vec<String> {
    list.iter().map(|s| s.to_string()).collect()
}

#[test]
fn text_helpers() {
    assert!(equal("a", "a"));
    assert!(!equal("a", "b"));
    assert!(has_prefix("popover-x", "popover-"));
    assert!(!has_prefix("pop", "popover-"));
    assert!(has_prefix("x", ""));
    assert_eq!(strip_prefix("popover-x", "popover-"), Some("x"));
    assert_eq!(strip_prefix("popup-x", "popover-"), None);
    assert_eq!(without_first("héllo", 2), Some("llo"));
    assert_eq!(without_first("ab", 3), None);
    assert_eq!(joined("ab", "cd"), "abcd");
}

#[test]
fn numbers_in_decimal() {
    assert_eq!(decimal(0), "0");
    assert_eq!(decimal(7), "7");
    assert_eq!(decimal(10), "10");
    assert_eq!(decimal(842), "842");
    assert_eq!(decimal(1234567890), "1234567890");
    assert_eq!(decimal(u32::MAX), "4294967295");
}

#[test]
fn paths_are_joined_with_one_separator() {
    assert_eq!(join_path("/home/me", ".config"), "/home/me/.config");
    assert_eq!(join_path("/home/me/", ".config"), "/home/me/.config");
    assert_eq!(join_path("", ".config"), ".config");
    assert_eq!(join_path("/home/me", "/etc"), "/etc");
    assert_eq!(join_path("a", ""), "a/");
    for (base, part) in [("/home/me", ".config"), ("/home/me/", "x/y"), ("", "x"), ("a", "/b"), ("a", ""), (".", "b")] {
        let expected = std::path::Path::new(base).join(part);
        assert_eq!(join_path(base, part), expected.to_str().unwrap());
    }
}

#[test]
fn configuration_paths() {
    assert_eq!(get_config_dir(Some("/home/me")), "/home/me/.config/fluopanel");
    assert_eq!(get_config_dir(None), "./.config/fluopanel");
    assert_eq!(get_config_path(Some("/home/me")), "/home/me/.config/fluopanel/fluopanel.json");
    assert_eq!(get_config_path(None), "./.config/fluopanel/fluopanel.json");
}

#[test]
fn initial_configuration() {
    let c = FluopanelConfig::default();
    assert_eq!(c.version, 2);
    assert_eq!(c.theme.mode, "system");
    assert_eq!(c.theme.accent_color.as_deref(), Some("#007AFF"));
    assert!(c.settings.hot_reload);
    assert!(!c.settings.dev_mode);
    assert!(c.secrets.is_none());
    assert!(c.ui.is_none());
    assert!(SecretsConfig::default().github.is_none());
    assert!(UiConfig::default().dist_path.is_none());
}

#[test]
fn home_is_expanded_only_at_the_front() {
    assert_eq!(expand_home("~/ui/dist", Some("/home/me")), "/home/me/ui/dist");
    assert_eq!(expand_home("~/ui/dist", None), "~/ui/dist");
    assert_eq!(expand_home("/srv/~/dist", Some("/home/me")), "/srv/~/dist");
    assert_eq!(expand_home("~other/dist", Some("/home/me")), "~other/dist");
    assert_eq!(expand_home("~/", Some("/home/me")), "/home/me/");
}

#[test]
fn configured_front_end_wins() {
    assert_eq!(choose_ui_dist_path(Some("/c"), true, "/d", true), Some("/c".to_string()));
    assert_eq!(choose_ui_dist_path(Some("/c"), false, "/d", true), Some("/d".to_string()));
    assert_eq!(choose_ui_dist_path(None, true, "/d", true), Some("/d".to_string()));
    assert_eq!(choose_ui_dist_path(Some("/c"), false, "/d", false), None);
    assert_eq!(choose_ui_dist_path(None, false, "/d", false), None);
}

#[test]
fn window_settings_follow_the_type() {
    assert_eq!(
        window_settings(None, WindowType::Bar),
        WindowSettings { transparent: true, always_on_top: true, resizable: false, decorations: false, skip_taskbar: true }
    );
    assert_eq!(
        window_settings(None, WindowType::Floating),
        WindowSettings { transparent: true, always_on_top: false, resizable: true, decorations: false, skip_taskbar: true }
    );
    let said = WindowConfig {
        transparent: Some(false),
        always_on_top: None,
        resizable: Some(true),
        decorations: Some(true),
        skip_taskbar: Some(false),
        click_through: Some(true),
    };
    assert_eq!(
        window_settings(Some(said), WindowType::Bar),
        WindowSettings { transparent: false, always_on_top: true, resizable: true, decorations: true, skip_taskbar: false }
    );
}

#[test]
fn window_names() {
    assert_eq!(window_label("clock", "1"), "window-clock-1");
    assert_eq!(inline_window_label("clock"), "inline-window-clock");
    assert!(is_window_label("window-clock-1"));
    assert!(is_window_label("inline-window-clock"));
    assert!(!is_window_label("popover-clock"));
    assert!(!is_window_label("main"));
    assert_eq!(window_entry_url("clock", "index.html"), "arcana://window/clock/index.html");
}

#[test]
fn commands_become_lines() {
    assert_eq!(ipc_command(&Commands::Emit { event: "workspace-changed".to_string() }), "workspace-changed");
    assert_eq!(
        ipc_command(&Commands::FocusChanged { focused: "3".to_string(), prev: Some("1".to_string()) }),
        "focus-changed:3:1"
    );
    assert_eq!(
        ipc_command(&Commands::FocusChanged { focused: "3".to_string(), prev: None }),
        "focus-changed:3"
    );
    assert_eq!(Cli { command: None }.message(), None);
    assert_eq!(
        Cli { command: Some(Commands::Emit { event: "e".to_string() }) }.message(),
        Some("e".to_string())
    );
    assert_eq!(exit_code(true), 0);
    assert_eq!(exit_code(false), 1);
}

#[test]
fn first_letter_goes_upper() {
    assert_eq!(capitalize("arcana"), "Arcana");
    assert_eq!(capitalize("Arcana"), "Arcana");
    assert_eq!(capitalize(""), "");
    assert_eq!(capitalize("x"), "X");
    assert_eq!(capitalize("ßeta"), "SSeta");
    assert_eq!(capitalize("1st"), "1st");
    assert_eq!(with_first_replaced("QU", "xyz"), "QUyz");
    assert_eq!(with_first_replaced("Q", ""), "Q");
}

#[test]
fn build_extensions() {
    for e in ["vue", "jsx", "tsx", "ts", "js", "css", "scss"] {
        assert!(is_build_extension(e));
    }
    assert!(!is_build_extension("VUE"));
    assert!(!is_build_extension("html"));
    assert!(!is_build_extension(""));
    assert!(is_source_extension("vue") && is_source_extension("jsx") && is_source_extension("tsx"));
    assert!(!is_source_extension("ts"));
}

#[test]
fn rebuilds_skip_output_and_packages() {
    assert!(should_rebuild(&parts(&["/", "w", "clock", "main.vue"]), Some("vue")));
    assert!(should_rebuild(&parts(&["/", "w", "clock", "Main.VUE"]), Some("VUE")));
    assert!(should_rebuild(&parts(&["clock", "a.ScSs"]), Some("ScSs")));
    assert!(!should_rebuild(&parts(&["/", "w", "clock", ".arcana", "index.js"]), Some("js")));
    assert!(!should_rebuild(&parts(&["/", "w", "clock", "node_modules", "x", "index.js"]), Some("js")));
    assert!(!should_rebuild(&parts(&["/", "w", "clock", "readme.md"]), Some("md")));
    assert!(!should_rebuild(&parts(&["/", "w", "clock", "Makefile"]), None));
    assert!(has_ignored_component(&parts(&["a", ".arcana"])));
    assert!(!has_ignored_component(&parts(&["a", ".arcana2"])));
    assert!(!has_ignored_component(&Vec::new()));
    assert!(should_rebuild_lowered(false, Some("ts")));
    assert!(!should_rebuild_lowered(true, Some("ts")));
    assert!(!should_rebuild_lowered(false, None));
}

#[test]
fn widget_of_a_changed_file() {
    let dir = parts(&["/", "home", "me", "widgets"]);
    assert_eq!(get_widget_id(&parts(&["/", "home", "me", "widgets", "clock", "main.vue"]), &dir), Some("clock".to_string()));
    assert_eq!(get_widget_id(&parts(&["/", "home", "me", "widgets", "clock"]), &dir), Some("clock".to_string()));
    assert_eq!(get_widget_id(&parts(&["/", "home", "me", "widgets"]), &dir), None);
    assert_eq!(get_widget_id(&parts(&["/", "home", "me", "widgets2", "clock"]), &dir), None);
    assert_eq!(get_widget_id(&parts(&["/", "home"]), &dir), None);
    assert_eq!(get_widget_id(&parts(&["clock"]), &Vec::new()), Some("clock".to_string()));
}

#[test]
fn manifest_prefers_widget_json() {
    assert_eq!(get_manifest_path("/w/clock", true, true), Some("/w/clock/widget.json".to_string()));
    assert_eq!(get_manifest_path("/w/clock", true, false), Some("/w/clock/widget.json".to_string()));
    assert_eq!(get_manifest_path("/w/clock", false, true), Some("/w/clock/window.json".to_string()));
    assert_eq!(get_manifest_path("/w/clock", false, false), None);
}

#[test]
fn a_build_is_due_when_a_source_is_newer() {
    let built = BuildOutput { exists: true, modified: Some(100) };
    assert!(!needs_build(&Vec::new(), built));
    assert!(!needs_build(&vec![Some(50), Some(100)], built));
    assert!(needs_build(&vec![Some(50), Some(101)], built));
    assert!(needs_build(&vec![None], built));
    assert!(needs_build(&vec![Some(1)], BuildOutput { exists: true, modified: None }));
    assert!(needs_build(&vec![Some(1)], BuildOutput { exists: false, modified: None }));
    assert!(needs_build(&vec![Some(1)], BuildOutput { exists: false, modified: Some(100) }));
}

#[test]
fn signal_strength_in_percent() {
    assert_eq!(signal_percentage(-90), 0);
    assert_eq!(signal_percentage(-120), 0);
    assert_eq!(signal_percentage(i32::MIN), 0);
    assert_eq!(signal_percentage(-30), 100);
    assert_eq!(signal_percentage(0), 100);
    assert_eq!(signal_percentage(i32::MAX), 100);
    assert_eq!(signal_percentage(-60), 50);
    assert_eq!(signal_percentage(-89), 1);
    assert_eq!(signal_percentage(-31), 98);
    assert_eq!(signal_percentage(-55), 58);
}

#[test]
fn first_en_interface_counts() {
    assert_eq!(primary_interface(&parts(&["lo0", "en1", "en0"])), Some(1));
    assert_eq!(primary_interface(&parts(&["lo0", "utun0"])), None);
    assert_eq!(primary_interface(&Vec::new()), None);
    assert_eq!(network_type("en0"), "wifi");
    assert_eq!(network_type("en1"), "ethernet");
    let up = connected_network("en0", Some("home".to_string()), Some(58));
    assert_eq!(up.interface, "en0");
    assert_eq!(up.network_type, "wifi");
    assert_eq!(up.ssid.as_deref(), Some("home"));
    assert_eq!(up.signal_strength, Some(58));
    assert!(up.connected);
    let down = disconnected_network();
    assert_eq!(down.interface, "unknown");
    assert_eq!(down.network_type, "unknown");
    assert!(down.ssid.is_none() && down.signal_strength.is_none() && !down.connected);
}

#[test]
fn only_changes_are_announced() {
    let a = connected_network("en0", Some("home".to_string()), Some(58)).into_event();
    let same = connected_network("en0", Some("home".to_string()), Some(58)).into_event();
    let weaker = connected_network("en0", Some("home".to_string()), Some(40)).into_event();
    let other = connected_network("en0", Some("cafe".to_string()), Some(58)).into_event();
    let wired = connected_network("en1", None, None).into_event();
    let down = disconnected_network().into_event();
    assert!(network_changed(None, &a));
    assert!(!network_changed(Some(&a), &same));
    assert!(network_changed(Some(&a), &weaker));
    assert!(network_changed(Some(&a), &other));
    assert!(network_changed(Some(&a), &wired));
    assert!(network_changed(Some(&wired), &down));
    assert!(!network_changed(Some(&down), &disconnected_network().into_event()));
}

#[test]
fn addresses_of_overlays() {
    assert_eq!(popover_url_text("clock", 842, true), "http://localhost:1420/?popover=clock&maxHeight=842");
    assert_eq!(popover_url_text("clock", 0, false), "arcana://localhost/?popover=clock&maxHeight=0");
    assert_eq!(popup_url_text("menu", PopupMode::HoverSticky, true), "http://localhost:1420/?popup=menu&mode=hover-sticky");
    assert_eq!(popup_url_text("menu", PopupMode::Toggle, false), "arcana://localhost/?popup=menu&mode=toggle");
    assert_eq!(mode_text(PopupMode::Hover), "hover");
    assert_eq!(max_height_param(842), 842);
    assert_eq!(max_height_param(-5), 0);
    assert_eq!(max_height_param(i64::MAX), u32::MAX);
}

#[test]
fn addresses_are_read_and_normalized() {
    assert_eq!(
        build_popover_url("clock", 842, true),
        Ok("http://localhost:1420/?popover=clock&maxHeight=842".to_string())
    );
    assert_eq!(
        build_popover_url("my clock", 5, true),
        Ok("http://localhost:1420/?popover=my%20clock&maxHeight=5".to_string())
    );
    assert_eq!(
        build_popup_url("menu", PopupMode::Hover, false),
        Ok("arcana://localhost/?popup=menu&mode=hover".to_string())
    );
    assert_eq!(checked_url("HTTP://Example.COM"), Ok("http://example.com/".to_string()));
    assert_eq!(checked_url("not an address"), Err("Invalid URL: relative URL without a base".to_string()));
    assert_eq!(checked_url(""), Err("Invalid URL: relative URL without a base".to_string()));
    assert_eq!(url_from_parse(Ok("x".to_string())), Ok("x".to_string()));
    assert_eq!(url_from_parse(Err("empty host".to_string())), Err("Invalid URL: empty host".to_string()));
}

#[test]
fn icons_are_encoded() {
    assert_eq!(encode_icon(None), None);
    assert_eq!(encode_icon(Some(&b"hello world~".to_vec())), Some("aGVsbG8gd29ybGR+".to_string()));
    assert_eq!(encode_icon(Some(&vec![0xffu8, 0xfe])), Some("//4=".to_string()));
    assert_eq!(encode_icon(Some(&Vec::new())), Some(String::new()));
    let icon = app_icon("Finder", Some("abc".to_string()));
    assert_eq!(icon.app, "Finder");
    assert_eq!(icon.icon.as_deref(), Some("abc"));
}

#[test]
fn icon_cache_drops_the_older_half_when_full() {
    assert_eq!(MAX_CACHE_SIZE, 100);
    let mut cache = IconCache::new();
    assert!(cache.lookup("app0").is_none());
    for i in 0..100 {
        cache.store(&format!("app{}", i), Some(format!("icon{}", i)));
    }
    assert_eq!(cache.len(), 100);
    cache.store("app7", None);
    assert_eq!(cache.len(), 51);
    assert!(cache.lookup("app7").unwrap().icon.is_none());
    assert!(cache.lookup("app49").is_none());
    assert_eq!(cache.lookup("app50").unwrap().icon.as_deref(), Some("icon50"));
    cache.store("app99", Some("new".to_string()));
    assert_eq!(cache.len(), 51);
    assert_eq!(cache.lookup("app99").unwrap().icon.as_deref(), Some("new"));
    cache.clear();
    assert_eq!(cache.len(), 0);
}

#[test]
fn icon_cache_remembers_missing_icons() {
    let mut cache = IconCache::new();
    cache.store("Ghost", None);
    let hit = cache.lookup("Ghost").unwrap();
    assert_eq!(hit.app, "Ghost");
    assert!(hit.icon.is_none());
    cache.store("Ghost", Some("now".to_string()));
    assert_eq!(cache.len(), 1);
    assert_eq!(cache.lookup("Ghost").unwrap().icon.as_deref(), Some("now"));
}

#[test]
fn failures_have_sentences() {
    assert_eq!(error_message(OverlayError::NotFound, OverlayKind::Popup, "menu"), "Popup 'menu' not found");
    assert_eq!(error_message(OverlayError::NotFound, OverlayKind::Popover, "clock"), "Popover 'clock' not found");
    assert_eq!(error_message(OverlayError::NoMonitors, OverlayKind::Popup, "menu"), "No monitors available");
    assert_eq!(trigger_error_message(TriggerError::NotFound, "t1"), "Trigger 't1' not found");
    assert_eq!(DirectoryError::NoHome.message(), "Could not determine home directory");
}

#[test]
fn directories_of_widgets_and_front_end() {
    assert_eq!(get_user_config_dir(Some("/home/me")), Some("/home/me/.config/arcana/dist".to_string()));
    assert_eq!(get_user_config_dir(None), None);
    assert_eq!(get_windows_dir(Some("/home/me"), true, true), Ok("/home/me/.config/arcana/widgets".to_string()));
    assert_eq!(get_windows_dir(Some("/home/me"), true, false), Ok("/home/me/.config/arcana/widgets".to_string()));
    assert_eq!(get_windows_dir(Some("/home/me"), false, true), Ok("/home/me/.config/arcana/windows".to_string()));
    assert_eq!(get_windows_dir(Some("/home/me"), false, false), Ok("/home/me/.config/arcana/widgets".to_string()));
    assert_eq!(get_windows_dir(None, true, true), Err(DirectoryError::NoHome));
}

#[test]
fn windows_are_cut_to_their_display_but_popovers_are_not() {
    let m = MonitorBounds { x: 0, y: 0, width: 1440, height: 900 };
    assert_eq!(window_size("window-bar-1", 2000, 2000, Some(m)), (1280, 660));
    assert_eq!(window_size("window-bar-1", 300, 200, Some(m)), (300, 200));
    assert_eq!(window_size("popover-clock", 2000, 2000, Some(m)), (2000, 2000));
    assert_eq!(window_size("window-bar-1", 2000, 2000, None), (2000, 2000));
    assert_eq!(window_size("window-bar-1", u32::MAX, u32::MAX, None), (4294967295, 4294967295));
}

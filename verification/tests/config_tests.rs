use komorebi_switcher::config::{resolve_setting, Config, MonitorConfig, WindowConfig};
use komorebi_switcher::registry::parse_i32;

fn entry(id: &str, width: i32) -> (String, MonitorConfig) {
    let mut c = MonitorConfig::initial();
    c.width = width;
    (String::from(id), c)
}

#[test]
fn tri_state_inherit_uses_global_default() {
    assert_eq!(resolve_setting(None, true), true);
    assert_eq!(resolve_setting(None, false), false);
}

#[test]
fn tri_state_explicit_overrides_global_default() {
    assert_eq!(resolve_setting(Some(false), true), false);
    assert_eq!(resolve_setting(Some(true), false), true);
}

#[test]
fn tri_state_on_monitor_config() {
    let mut c = MonitorConfig::initial();
    assert!(c.show_layout_button_resolved(true));
    assert!(!c.show_layout_button_resolved(false));
    c.show_layout_button = Some(false);
    assert!(!c.show_layout_button_resolved(true));
    c.hide_empty_workspaces = Some(true);
    assert!(c.hide_empty_workspaces_resolved(false));
}

#[test]
fn config_get_returns_stored_entry() {
    let config = Config {
        show_layout_button: true,
        hide_empty_workspaces: false,
        monitors: vec![entry("A", 100), entry("B", 250)],
    };
    assert_eq!(config.get(&String::from("B")).unwrap().width, 250);
    assert!(config.get(&String::from("C")).is_none());
}

#[test]
fn config_set_replaces_existing_entry() {
    let mut config = Config::default();
    config.set(String::from("A"), entry("A", 100).1);
    config.set(String::from("A"), entry("A", 300).1);
    assert_eq!(config.monitors.len(), 1);
    assert_eq!(config.get(&String::from("A")).unwrap().width, 300);
}

#[test]
fn config_set_keeps_other_entries() {
    let mut config = Config::default();
    config.set(String::from("A"), entry("A", 100).1);
    config.set(String::from("B"), entry("B", 200).1);
    config.set(String::from("A"), entry("A", 150).1);
    assert_eq!(config.get(&String::from("A")).unwrap().width, 150);
    assert_eq!(config.get(&String::from("B")).unwrap().width, 200);
}

#[test]
fn effective_config_prefers_live_preview() {
    let mut config = Config::default();
    config.set(String::from("A"), entry("A", 100).1);
    let preview = Some(entry("A", 999).1);
    assert_eq!(config.effective_config(&String::from("A"), &preview).width, 999);
    assert_eq!(config.effective_config(&String::from("A"), &None).width, 100);
}

#[test]
fn effective_config_falls_back_to_initial_settings() {
    let config = Config::default();
    let effective = config.effective_config(&String::from("missing"), &None);
    assert_eq!(effective.x, 16);
    assert_eq!(effective.width, 200);
    assert!(effective.auto_width);
    assert!(effective.auto_height);
}

#[test]
fn adjust_for_auto_size_applies_stored_dimensions() {
    let mut c = MonitorConfig::initial();
    c.auto_width = true;
    c.auto_height = false;
    c.width = 1;
    c.height = 2;
    c.adjust_for_auto_size(Some((640, 48)));
    assert_eq!(c.width, 640);
    assert_eq!(c.height, 2);
}

#[test]
fn adjust_for_auto_size_without_stored_value_is_a_noop() {
    let mut c = MonitorConfig::initial();
    c.width = 123;
    c.adjust_for_auto_size(None);
    assert_eq!(c.width, 123);
}

#[test]
fn window_config_round_trip() {
    let mut c = MonitorConfig::initial();
    c.show_layout_button = Some(true);
    let g = WindowConfig { x: 1, y: 2, width: 3, height: 4, auto_width: false, auto_height: true };
    let c2 = c.with_window_config(g);
    assert_eq!(c2.window_config(), g);
    assert_eq!(c2.show_layout_button, Some(true));
}

#[test]
fn parse_decimal_values() {
    assert_eq!(parse_i32("0"), Some(0));
    assert_eq!(parse_i32("123"), Some(123));
    assert_eq!(parse_i32("+7"), Some(7));
    assert_eq!(parse_i32("-45"), Some(-45));
    assert_eq!(parse_i32("2147483647"), Some(2147483647));
    assert_eq!(parse_i32("-2147483648"), Some(-2147483648));
    assert_eq!(parse_i32("0016"), Some(16));
}

#[test]
fn parse_rejects_malformed_and_out_of_range() {
    assert_eq!(parse_i32(""), None);
    assert_eq!(parse_i32("-"), None);
    assert_eq!(parse_i32("+"), None);
    assert_eq!(parse_i32("12x"), None);
    assert_eq!(parse_i32(" 12"), None);
    assert_eq!(parse_i32("2147483648"), None);
    assert_eq!(parse_i32("-2147483649"), None);
    assert_eq!(parse_i32("99999999999999999999"), None);
}

#[test]
fn registry_entry_decoding_uses_defaults() {
    let c = MonitorConfig::from_registry_values(None, None, None, None, None, None);
    assert_eq!((c.x, c.y, c.width, c.height), (0, 0, 200, 40));
    assert!(c.auto_width);
    assert!(c.auto_height);
    assert_eq!(c.show_layout_button, None);
    assert_eq!(c.hide_empty_workspaces, None);
}

#[test]
fn registry_entry_decoding_reads_stored_values() {
    let x = String::from("15");
    let y = String::from("-4");
    let w = String::from("bad");
    let h = String::from("52");
    let c = MonitorConfig::from_registry_values(
        Some(&x),
        Some(&y),
        Some(&w),
        Some(&h),
        Some(0),
        Some(2),
    );
    assert_eq!((c.x, c.y, c.width, c.height), (15, -4, 200, 52));
    assert!(!c.auto_width);
    assert!(c.auto_height);
}

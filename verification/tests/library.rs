use tray_ocr::config::{config_path, AppConfig, KeyCode, ModifierSet, ShortcutConfig};
use tray_ocr::history::{append, history_path, time_of_day_label, HistoryEntry, HISTORY_LIMIT};
use tray_ocr::menus::{
    app_menu_entries, AppMenuEntry, StandardItem,
    find_check_item, find_check_item_in_kind, handle_menu_event, startup_theme_checks, HelpLink,
    MenuCommand, MenuTree, ThemeChecks, ThemeChoice,
};
use tray_ocr::ocr::{
    collect_recognized_text, fallback_language, normalize_windows_path, recognize_file,
    OcrError, TextObservation,
};
use tray_ocr::screenshot::{
    after_capture, after_recognition, history_entry_id, screenshot_path, temp_path,
    CaptureStatus, CaptureStep,
};
use tray_ocr::shortcut::{hotkey_triggers, plan_shortcut_update, registered_hotkey};
use tray_ocr::text::{str_eq, string_of};
use tray_ocr::tray::{
    autostart_after_toggle, pin_after_toggle, tray_click_action, tray_menu_action, tray_menu_entries, ButtonState, MouseButton,
    TrayAction, TrayClickAction, TrayMenuEntry,
};

fn shortcut(mods: &[&str], key: &str) -> ShortcutConfig {
    ShortcutConfig {
        modifiers: mods.iter().map(|m| m.to_string()).collect(),
        key: key.to_string(),
    }
}

fn mods(alt: bool, control: bool, shift: bool, super_key: bool) -> ModifierSet {
    ModifierSet { alt, control, shift, super_key }
}

fn entry(id: u64, text: &str) -> HistoryEntry {
    HistoryEntry { id, text: text.to_string(), timestamp: "12:00".to_string() }
}

#[test]
fn default_shortcut_is_alt_a() {
    let s = ShortcutConfig::default_shortcut();
    assert_eq!(s.modifiers, vec!["Alt".to_string()]);
    assert_eq!(s.key, "KeyA");
    assert_eq!(s.to_modifiers(), Some(mods(true, false, false, false)));
    assert_eq!(s.to_key(), Some(KeyCode::KeyA));
}

#[test]
fn default_app_config_is_light_with_default_hotkey() {
    let c = AppConfig::default();
    assert!(!c.dark_mode);
    assert_eq!(c.shortcut.key, "KeyA");
    assert_eq!(c.shortcut.modifiers, vec!["Alt".to_string()]);
}

#[test]
fn modifier_names_and_aliases() {
    assert_eq!(shortcut(&["Ctrl"], "KeyB").to_modifiers(), Some(mods(false, true, false, false)));
    assert_eq!(shortcut(&["Control"], "KeyB").to_modifiers(), Some(mods(false, true, false, false)));
    assert_eq!(shortcut(&["Shift"], "KeyB").to_modifiers(), Some(mods(false, false, true, false)));
    assert_eq!(shortcut(&["Super"], "KeyB").to_modifiers(), Some(mods(false, false, false, true)));
    assert_eq!(shortcut(&["Command"], "KeyB").to_modifiers(), Some(mods(false, false, false, true)));
    assert_eq!(shortcut(&["Meta"], "KeyB").to_modifiers(), Some(mods(false, false, false, true)));
    assert_eq!(
        shortcut(&["Command", "Alt", "Foo", "Shift"], "KeyX").to_modifiers(),
        Some(mods(true, false, true, true))
    );
}

#[test]
fn unknown_or_missing_modifiers_give_none() {
    assert_eq!(shortcut(&[], "KeyA").to_modifiers(), None);
    assert_eq!(shortcut(&["alt", "Hyper"], "KeyA").to_modifiers(), None);
}

#[test]
fn key_names() {
    assert_eq!(shortcut(&[], "KeyZ").to_key(), Some(KeyCode::KeyZ));
    assert_eq!(shortcut(&[], "KeyM").to_key(), Some(KeyCode::KeyM));
    assert_eq!(shortcut(&[], "keya").to_key(), None);
    assert_eq!(shortcut(&[], "KeyAA").to_key(), None);
    assert_eq!(shortcut(&[], "Digit1").to_key(), None);
    assert_eq!(shortcut(&[], "Keya").to_key(), None);
    assert_eq!(shortcut(&[], "").to_key(), None);
}

#[test]
fn settings_and_history_paths() {
    assert_eq!(config_path("/data"), "/data/config.json");
    assert_eq!(config_path("/data/"), "/data/config.json");
    assert_eq!(config_path(""), "config.json");
    assert_eq!(history_path("/Users/me/app"), "/Users/me/app/history.json");
    assert_eq!(temp_path("/tmp", "/abs/shot", "png", 1, 2), "/abs/shot-1-2.png");
}

#[test]
fn history_append_puts_newest_first() {
    let mut h = vec![entry(1, "a"), entry(2, "b")];
    append(&mut h, entry(3, "c"));
    let ids: Vec<u64> = h.iter().map(|e| e.id).collect();
    assert_eq!(ids, vec![3, 1, 2]);
    assert_eq!(h[0].text, "c");
}

#[test]
fn history_keeps_at_most_the_limit() {
    let mut h: Vec<HistoryEntry> = (0..200u64).map(|i| entry(i, "x")).collect();
    append(&mut h, entry(999, "new"));
    assert_eq!(h.len(), HISTORY_LIMIT);
    assert_eq!(h[0].id, 999);
    assert_eq!(h[1].id, 0);
    assert_eq!(h[199].id, 198);
    append(&mut h, entry(1000, "newer"));
    assert_eq!(h.len(), 200);
    assert_eq!(h[0].id, 1000);
    assert_eq!(h[1].id, 999);
}

#[test]
fn history_append_to_empty() {
    let mut h = Vec::new();
    append(&mut h, entry(7, "first"));
    assert_eq!(h.len(), 1);
    assert_eq!(h[0].id, 7);
}

fn check(id: &str) -> MenuTree {
    MenuTree::Check { id: id.to_string() }
}

fn sample_menu() -> Vec<MenuTree> {
    vec![
        MenuTree::Submenu {
            items: vec![
                MenuTree::Other,
                MenuTree::Submenu {
                    items: vec![check("theme_light"), check("theme_dark"), check("theme_system")],
                },
                MenuTree::Other,
            ],
        },
        MenuTree::Submenu { items: vec![MenuTree::Other, check("theme_dark")] },
    ]
}

#[test]
fn find_check_item_walks_submenus_depth_first() {
    let menu = sample_menu();
    assert_eq!(find_check_item(&menu, "theme_light"), Some(vec![0, 1, 0]));
    assert_eq!(find_check_item(&menu, "theme_dark"), Some(vec![0, 1, 1]));
    assert_eq!(find_check_item(&menu, "theme_system"), Some(vec![0, 1, 2]));
}

#[test]
fn find_check_item_misses() {
    let menu = sample_menu();
    assert_eq!(find_check_item(&menu, "pin"), None);
    assert_eq!(find_check_item(&Vec::new(), "theme_light"), None);
    assert_eq!(find_check_item_in_kind(&MenuTree::Other, "theme_light"), None);
}

#[test]
fn find_check_item_in_a_single_entry() {
    assert_eq!(find_check_item_in_kind(&check("x"), "x"), Some(vec![]));
    assert_eq!(find_check_item_in_kind(&check("x"), "y"), None);
}

#[test]
fn menu_commands() {
    assert_eq!(handle_menu_event("check_updates"), MenuCommand::CheckForUpdates);
    assert_eq!(handle_menu_event("theme_light"), MenuCommand::ApplyTheme(ThemeChoice::Light));
    assert_eq!(handle_menu_event("theme_dark"), MenuCommand::ApplyTheme(ThemeChoice::Dark));
    assert_eq!(handle_menu_event("theme_system"), MenuCommand::ApplyTheme(ThemeChoice::System));
    assert_eq!(handle_menu_event("help_github"), MenuCommand::OpenLink(HelpLink::Repository));
    assert_eq!(handle_menu_event("help_issues"), MenuCommand::OpenLink(HelpLink::Issues));
    assert_eq!(handle_menu_event("unknown"), MenuCommand::Nothing);
}

#[test]
fn theme_switches() {
    let t = |l, d, s| ThemeChecks { light: l, dark: d, system: s };
    assert_eq!(ThemeChoice::Light.checks(), t(true, false, false));
    assert_eq!(ThemeChoice::Dark.checks(), t(false, true, false));
    assert_eq!(ThemeChoice::System.checks(), t(false, false, true));
    assert_eq!(ThemeChoice::Light.saved_dark_mode(), Some(false));
    assert_eq!(ThemeChoice::Dark.saved_dark_mode(), Some(true));
    assert_eq!(ThemeChoice::System.saved_dark_mode(), None);
    assert_eq!(ThemeChoice::Light.event_payload(), "light");
    assert_eq!(ThemeChoice::Dark.event_payload(), "dark");
    assert_eq!(ThemeChoice::System.event_payload(), "auto");
}

#[test]
fn saved_theme_is_restored_at_startup() {
    for choice in [ThemeChoice::Light, ThemeChoice::Dark] {
        let saved = choice.saved_dark_mode().unwrap();
        assert_eq!(startup_theme_checks(saved), choice.checks());
    }
    assert_eq!(startup_theme_checks(false), ThemeChecks { light: true, dark: false, system: false });
}

#[test]
fn help_links() {
    assert_eq!(HelpLink::Repository.url(), "https://github.com/OSpoon/tray-ocr-app");
    assert_eq!(HelpLink::Issues.url(), "https://github.com/OSpoon/tray-ocr-app/issues");
}

#[test]
fn registered_hotkey_needs_a_known_key() {
    assert_eq!(
        registered_hotkey(&shortcut(&["Alt"], "KeyA")),
        Some((Some(mods(true, false, false, false)), KeyCode::KeyA))
    );
    assert_eq!(registered_hotkey(&shortcut(&[], "KeyA")), Some((None, KeyCode::KeyA)));
    assert_eq!(registered_hotkey(&shortcut(&["Foo"], "KeyC")), Some((None, KeyCode::KeyC)));
    assert_eq!(registered_hotkey(&shortcut(&["Alt"], "F1")), None);
}

#[test]
fn hotkey_triggers_on_press_of_the_configured_keys() {
    let cfg = shortcut(&["Alt", "Shift"], "KeyX");
    let held = Some(mods(true, false, true, false));
    assert!(hotkey_triggers(&cfg, true, held, Some(KeyCode::KeyX)));
    assert!(!hotkey_triggers(&cfg, false, held, Some(KeyCode::KeyX)));
    assert!(!hotkey_triggers(&cfg, true, held, Some(KeyCode::KeyY)));
    assert!(!hotkey_triggers(&cfg, true, Some(mods(true, false, false, false)), Some(KeyCode::KeyX)));
    assert!(!hotkey_triggers(&cfg, true, None, Some(KeyCode::KeyX)));
    assert!(!hotkey_triggers(&cfg, true, held, None));
}

#[test]
fn hotkey_without_modifiers_accepts_any_modifiers() {
    let cfg = shortcut(&[], "KeyQ");
    assert!(hotkey_triggers(&cfg, true, None, Some(KeyCode::KeyQ)));
    assert!(hotkey_triggers(&cfg, true, Some(mods(false, true, false, false)), Some(KeyCode::KeyQ)));
    let bad = shortcut(&["Alt"], "Space");
    assert!(!hotkey_triggers(&bad, true, Some(mods(true, false, false, false)), None));
}

#[test]
fn shortcut_update_plans_release_and_register() {
    let old = AppConfig { shortcut: shortcut(&["Alt"], "KeyA"), dark_mode: true };
    let u = plan_shortcut_update(old, vec!["Ctrl".to_string()], "KeyK".to_string()).unwrap();
    assert_eq!(u.unregister, Some((Some(mods(true, false, false, false)), KeyCode::KeyA)));
    assert_eq!(u.register_modifiers, Some(mods(false, true, false, false)));
    assert_eq!(u.register_key, KeyCode::KeyK);
    assert!(u.config.dark_mode);
    assert_eq!(u.config.shortcut.key, "KeyK");
    assert_eq!(u.config.shortcut.modifiers, vec!["Ctrl".to_string()]);
    assert!(hotkey_triggers(&u.config.shortcut, true, u.register_modifiers, Some(u.register_key)));
}

#[test]
fn shortcut_update_releases_a_bare_key_hotkey() {
    let old = AppConfig { shortcut: shortcut(&[], "KeyA"), dark_mode: false };
    let u = plan_shortcut_update(old, vec![], "KeyB".to_string()).unwrap();
    assert_eq!(u.unregister, Some((None, KeyCode::KeyA)));
    assert_eq!(u.register_modifiers, None);
    assert_eq!(u.register_key, KeyCode::KeyB);
}

#[test]
fn shortcut_update_with_unknown_old_key_releases_nothing() {
    let old = AppConfig { shortcut: shortcut(&["Alt"], "F2"), dark_mode: false };
    let u = plan_shortcut_update(old, vec!["Alt".to_string()], "KeyB".to_string()).unwrap();
    assert_eq!(u.unregister, None);
}

#[test]
fn bare_key_hotkey_is_registered_again_after_restart() {
    let old = AppConfig::default();
    let u = plan_shortcut_update(old, vec![], "KeyR".to_string()).unwrap();
    assert_eq!(
        registered_hotkey(&u.config.shortcut),
        Some((u.register_modifiers, u.register_key))
    );
    assert_eq!(registered_hotkey(&u.config.shortcut), Some((None, KeyCode::KeyR)));
}

#[test]
fn shortcut_update_refuses_unknown_key() {
    let old = AppConfig::default();
    let r = plan_shortcut_update(old, vec!["Alt".to_string()], "F5".to_string());
    assert_eq!(r.unwrap_err(), "Unsupported key: F5");
}

#[test]
fn ocr_error_messages() {
    assert_eq!(OcrError::NoTextRecognized.message(), "No text recognized");
    assert_eq!(OcrError::Error("boom".to_string()).message(), "boom");
}

#[test]
fn recognition_without_platform_support_fails() {
    match recognize_file("/tmp/x.png") {
        Err(OcrError::Error(m)) => {
            assert_eq!(m, "System OCR is not implemented for this platform")
        }
        _ => panic!("expected an error"),
    }
}

fn obs(text: Option<&str>, line_break_before: bool) -> TextObservation {
    TextObservation { text: text.map(|t| t.to_string()), line_break_before }
}

#[test]
fn recognized_text_joins_regions() {
    let r = collect_recognized_text(Some(vec![
        obs(Some("Hello"), true),
        obs(None, false),
        obs(Some("world"), false),
        obs(Some(""), true),
        obs(Some("again"), true),
    ]));
    assert_eq!(r.unwrap(), "Hello world\nagain");
}

#[test]
fn recognized_text_missing() {
    assert!(matches!(collect_recognized_text(None), Err(OcrError::NoTextRecognized)));
    assert!(matches!(collect_recognized_text(Some(vec![])), Err(OcrError::NoTextRecognized)));
    assert!(matches!(
        collect_recognized_text(Some(vec![obs(None, false), obs(Some(""), true)])),
        Err(OcrError::NoTextRecognized)
    ));
}

#[test]
fn windows_language_fallback() {
    assert!(matches!(fallback_language(3), Ok(0)));
    match fallback_language(0) {
        Err(OcrError::Error(m)) => assert_eq!(
            m,
            "No Windows OCR languages are installed. Install an OCR-capable Windows language pack."
        ),
        _ => panic!("expected an error"),
    }
}

#[test]
fn windows_paths() {
    assert_eq!(normalize_windows_path(r"\\?\UNC\server\share\a.png"), r"\\server\share\a.png");
    assert_eq!(normalize_windows_path(r"\\?\C:\Temp\a.png"), r"C:\Temp\a.png");
    assert_eq!(normalize_windows_path(r"C:\Temp\a.png"), r"C:\Temp\a.png");
    assert_eq!(normalize_windows_path(r"\\?\"), "");
}

#[test]
fn temporary_paths() {
    assert_eq!(temp_path("/tmp", "shot", "png", 42, 1700000000123), "/tmp/shot-42-1700000000123.png");
    assert_eq!(temp_path("/tmp/", "p", "txt", 0, 0), "/tmp/p-0-0.txt");
    assert_eq!(
        screenshot_path("/var/folders/x", 4321, 9),
        "/var/folders/x/tray-ocr-screenshot-4321-9.png"
    );
    assert_eq!(
        temp_path("", "a", "b", u32::MAX, u128::MAX),
        format!("a-{}-{}.b", u32::MAX, u128::MAX)
    );
}

#[test]
fn capture_outcomes() {
    assert!(matches!(after_capture(&CaptureStatus::Exited { success: true }), CaptureStep::Recognize));
    match after_capture(&CaptureStatus::Exited { success: false }) {
        CaptureStep::Report { notification, remove_file } => {
            assert_eq!(notification, "Screenshot cancelled or failed");
            assert!(remove_file);
        }
        _ => panic!("expected a report"),
    }
    match after_capture(&CaptureStatus::LaunchFailed("not found".to_string())) {
        CaptureStep::Report { notification, remove_file } => {
            assert_eq!(notification, "Screenshot failed: not found");
            assert!(!remove_file);
        }
        _ => panic!("expected a report"),
    }
}

#[test]
fn recognition_outcomes() {
    let r = after_recognition(Ok("text".to_string()), 1234, 9, 30);
    assert_eq!(r.copy_text.as_deref(), Some("text"));
    let e = r.history_entry.unwrap();
    assert_eq!((e.id, e.text.as_str(), e.timestamp.as_str()), (1234, "text", "09:30"));
    assert!(r.refresh_tray_menu);
    assert_eq!(r.notification, "Copied to clipboard");

    let r = after_recognition(Err(OcrError::NoTextRecognized), 1, 0, 0);
    assert!(r.copy_text.is_none() && r.history_entry.is_none() && !r.refresh_tray_menu);
    assert_eq!(r.notification, "No text found");

    let r = after_recognition(Err(OcrError::Error("engine".to_string())), 1, 23, 59);
    assert!(r.copy_text.is_none() && r.history_entry.is_none());
    assert_eq!(r.notification, "OCR failed: engine");
}

#[test]
fn history_ids_are_cut_to_64_bits() {
    assert_eq!(history_entry_id(5), 5);
    assert_eq!(history_entry_id((1u128 << 64) + 5), 5);
    assert_eq!(history_entry_id(u128::MAX), u64::MAX);
}

#[test]
fn tray_menu_actions() {
    assert_eq!(tray_menu_action("quit"), TrayAction::Quit);
    assert_eq!(tray_menu_action("screenshot"), TrayAction::Screenshot);
    assert_eq!(tray_menu_action("pin"), TrayAction::TogglePin);
    assert_eq!(tray_menu_action("show"), TrayAction::ShowWindow { record_shortcut: false });
    assert_eq!(tray_menu_action("shortcut"), TrayAction::ShowWindow { record_shortcut: true });
    assert_eq!(tray_menu_action("autostart"), TrayAction::ToggleAutostart);
    assert_eq!(tray_menu_action("other"), TrayAction::Nothing);
}

#[test]
fn tray_clicks() {
    assert_eq!(tray_click_action(MouseButton::Left, ButtonState::Up), TrayClickAction::ShowWindow);
    assert_eq!(tray_click_action(MouseButton::Right, ButtonState::Up), TrayClickAction::RefreshMenu);
    assert_eq!(tray_click_action(MouseButton::Left, ButtonState::Down), TrayClickAction::Nothing);
    assert_eq!(tray_click_action(MouseButton::Middle, ButtonState::Up), TrayClickAction::Nothing);
}

#[test]
fn tray_menu_layout_and_every_item_acts() {
    let entries = tray_menu_entries(true, false);
    assert_eq!(entries.len(), 8);
    let mut ids = Vec::new();
    for e in &entries {
        match e {
            TrayMenuEntry::Item { id, .. } => ids.push(id.clone()),
            TrayMenuEntry::Check { id, checked, .. } => {
                assert_eq!(*checked, id == "pin");
                ids.push(id.clone());
            }
            TrayMenuEntry::Separator => {}
        }
    }
    assert_eq!(ids, vec!["screenshot", "show", "pin", "shortcut", "autostart", "quit"]);
    for id in &ids {
        assert_ne!(tray_menu_action(id), TrayAction::Nothing);
    }
}

#[test]
fn string_helpers() {
    assert!(str_eq("abc", "abc"));
    assert!(!str_eq("abc", "abd"));
    assert!(!str_eq("ab", "abc"));
    assert_eq!(string_of("héllo"), "héllo");
}

#[test]
fn theme_switch_settings_to_save() {
    let cfg = AppConfig { shortcut: shortcut(&["Shift"], "KeyT"), dark_mode: false };
    let saved = ThemeChoice::Dark.settings_to_save(cfg.clone()).unwrap();
    assert!(saved.dark_mode);
    assert_eq!(saved.shortcut.key, "KeyT");
    assert_eq!(saved.shortcut.modifiers, vec!["Shift".to_string()]);
    let saved = ThemeChoice::Light.settings_to_save(AppConfig { dark_mode: true, ..cfg.clone() }).unwrap();
    assert!(!saved.dark_mode);
    assert!(ThemeChoice::System.settings_to_save(cfg).is_none());
}

#[test]
fn tray_toggles() {
    assert!(pin_after_toggle(false));
    assert!(!pin_after_toggle(true));
    assert!(autostart_after_toggle(false));
    assert!(!autostart_after_toggle(true));
}

fn item_id(e: &AppMenuEntry) -> Option<String> {
    match e {
        AppMenuEntry::Item { id, .. } | AppMenuEntry::Check { id, .. } => Some(id.clone()),
        _ => None,
    }
}

#[test]
fn application_menu_layout() {
    let menu = app_menu_entries("TrayOCR", true);
    assert_eq!(menu.len(), 2);
    let app = match &menu[0] {
        AppMenuEntry::Submenu { label, entries } => {
            assert_eq!(label, "TrayOCR");
            entries
        }
        _ => panic!("expected the application submenu"),
    };
    assert_eq!(app.len(), 12);
    match &app[0] {
        AppMenuEntry::About { label, copyright } => {
            assert_eq!(label, "About TrayOCR");
            assert_eq!(copyright, "© 2026 OSpoon");
        }
        _ => panic!("expected About"),
    }
    match &app[2] {
        AppMenuEntry::Submenu { label, entries } => {
            assert_eq!(label, "Theme");
            let checks: Vec<(String, bool)> = entries
                .iter()
                .map(|e| match e {
                    AppMenuEntry::Check { id, checked, .. } => (id.clone(), *checked),
                    _ => panic!("expected a check item"),
                })
                .collect();
            assert_eq!(
                checks,
                vec![
                    ("theme_light".to_string(), false),
                    ("theme_dark".to_string(), true),
                    ("theme_system".to_string(), false)
                ]
            );
            for e in entries {
                assert_ne!(handle_menu_event(&item_id(e).unwrap()), MenuCommand::Nothing);
            }
        }
        _ => panic!("expected the Theme submenu"),
    }
    assert_eq!(item_id(&app[3]).as_deref(), Some("check_updates"));
    assert!(matches!(app[11], AppMenuEntry::Standard(StandardItem::Quit)));
    match &menu[1] {
        AppMenuEntry::Submenu { label, entries } => {
            assert_eq!(label, "Help");
            let ids: Vec<String> = entries.iter().filter_map(item_id).collect();
            assert_eq!(ids, vec!["help_github", "help_issues"]);
            for id in &ids {
                assert_ne!(handle_menu_event(id), MenuCommand::Nothing);
            }
        }
        _ => panic!("expected Help"),
    }
}

#[test]
fn time_of_day_labels() {
    assert_eq!(time_of_day_label(9, 5), "09:05");
    assert_eq!(time_of_day_label(0, 0), "00:00");
    assert_eq!(time_of_day_label(23, 59), "23:59");
    assert_eq!(time_of_day_label(10, 7), "10:07");
    for h in 0..24u32 {
        for m in 0..60u32 {
            assert_eq!(time_of_day_label(h, m), format!("{:02}:{:02}", h, m));
        }
    }
}

#[test]
fn find_check_item_returns_the_first_in_walk_order() {
    let menu = vec![
        MenuTree::Other,
        MenuTree::Submenu { items: vec![MenuTree::Submenu { items: vec![check("x")] }] },
        check("x"),
    ];
    assert_eq!(find_check_item(&menu, "x"), Some(vec![1, 0, 0]));
}

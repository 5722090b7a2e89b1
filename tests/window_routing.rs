use nchat_desktop::actions::{Payload, WindowAction};
use nchat_desktop::commands::{get_app_version, get_platform, greet};
use nchat_desktop::deeplink::{deep_link_actions, deep_link_scheme};
use nchat_desktop::menu::{menu_command, MenuCommand};
use nchat_desktop::notifications::permission_text;
use nchat_desktop::shortcuts::{setup_shortcuts, shortcut_actions, ShortcutAction};
use nchat_desktop::text::{same_text, starts_with_text, strip_prefix_text};
use nchat_desktop::tray::{setup_tray, tray_click_actions, tray_icon_path, tray_menu_actions, MenuEntry, TrayClick};

fn describe(actions: &[WindowAction]) -> Vec<String> {
    actions
        .iter()
        .map(|a| match a {
            WindowAction::Show => "show".to_string(),
            WindowAction::Hide => "hide".to_string(),
            WindowAction::Focus => "focus".to_string(),
            WindowAction::Emit(name, Payload::Empty) => name.clone(),
            WindowAction::Emit(name, Payload::Text(t)) => format!("{}={}", name, t),
        })
        .collect()
}

#[test]
fn greet_formats_the_welcome() {
    assert_eq!(greet("Ada"), "Hello, Ada! Welcome to nchat.");
    assert_eq!(greet(""), "Hello, ! Welcome to nchat.");
}

#[test]
fn app_version_is_reported() {
    assert_eq!(get_app_version(), "0.1.0");
}

#[test]
fn platform_names() {
    assert_eq!(get_platform("macos"), "macos");
    assert_eq!(get_platform("windows"), "windows");
    assert_eq!(get_platform("linux"), "linux");
    assert_eq!(get_platform("freebsd"), "unknown");
}

#[test]
fn text_helpers() {
    assert!(starts_with_text("channel/42", "channel/"));
    assert!(!starts_with_text("chan", "channel/"));
    assert_eq!(strip_prefix_text("/user/7", "/"), Some("user/7"));
    assert_eq!(strip_prefix_text("user/7", "/"), None);
    assert!(same_text("settings", "settings"));
    assert!(!same_text("settings", "setting"));
}

#[test]
fn deep_link_to_channel() {
    let a = deep_link_actions("nchat://open/channel/general", "/channel/general");
    assert_eq!(
        describe(&a),
        vec!["show", "focus", "deep-link=nchat://open/channel/general", "navigate-channel=general"]
    );
}

#[test]
fn deep_link_routes() {
    assert_eq!(describe(&deep_link_actions("u", "/message/9"))[3], "navigate-message=9");
    assert_eq!(describe(&deep_link_actions("u", "/user/ann"))[3], "navigate-user=ann");
    assert_eq!(describe(&deep_link_actions("u", "/thread/t1"))[3], "navigate-thread=t1");
    assert_eq!(describe(&deep_link_actions("u", "/settings"))[3], "menu-navigate=settings");
    assert_eq!(
        describe(&deep_link_actions("nchat://x/auth/callback?code=1", "/auth/callback"))[3],
        "auth-callback=nchat://x/auth/callback?code=1"
    );
    assert_eq!(describe(&deep_link_actions("u", "/elsewhere")).len(), 3);
    assert_eq!(describe(&deep_link_actions("u", "")).len(), 3);
    assert_eq!(deep_link_scheme(), "nchat");
}

#[test]
fn tray_menu_layout() {
    let entries = setup_tray();
    assert_eq!(entries.len(), 13);
    assert!(matches!(&entries[0], MenuEntry::Item(id, label) if id == "show" && label == "Show nchat"));
    assert!(matches!(&entries[1], MenuEntry::Separator));
    assert!(matches!(&entries[12], MenuEntry::Quit(label) if label == "Quit nchat"));
}

#[test]
fn tray_menu_items() {
    assert_eq!(describe(&tray_menu_actions("show")), vec!["show", "focus"]);
    assert_eq!(describe(&tray_menu_actions("new_message")), vec!["show", "focus", "tray-new-message"]);
    assert_eq!(describe(&tray_menu_actions("status_dnd")), vec!["tray-status-change=dnd"]);
    assert_eq!(describe(&tray_menu_actions("preferences")), vec!["show", "focus", "tray-preferences"]);
    assert!(tray_menu_actions("nope").is_empty());
}

#[test]
fn tray_clicks() {
    assert_eq!(describe(&tray_click_actions(TrayClick::LeftUp, true)), vec!["hide"]);
    assert_eq!(describe(&tray_click_actions(TrayClick::LeftUp, false)), vec!["show", "focus"]);
    assert_eq!(describe(&tray_click_actions(TrayClick::LeftDouble, true)), vec!["show", "focus"]);
    assert!(tray_click_actions(TrayClick::Other, false).is_empty());
}

#[test]
fn tray_icons() {
    assert_eq!(tray_icon_path("unread"), "icons/tray-unread.png");
    assert_eq!(tray_icon_path("muted"), "icons/tray-muted.png");
    assert_eq!(tray_icon_path("dnd"), "icons/tray-dnd.png");
    assert_eq!(tray_icon_path("other"), "icons/tray.png");
}

#[test]
fn shortcut_table_and_actions() {
    let b = setup_shortcuts();
    let keys: Vec<&str> = b.iter().map(|x| x.accelerator.as_str()).collect();
    assert_eq!(
        keys,
        vec!["CmdOrCtrl+Shift+Space", "CmdOrCtrl+Shift+N", "CmdOrCtrl+Shift+V", "CmdOrCtrl+Shift+M"]
    );
    assert_eq!(b[0].action, ShortcutAction::ToggleWindow);
    assert_eq!(describe(&shortcut_actions(ShortcutAction::ToggleWindow, true)), vec!["hide"]);
    assert_eq!(describe(&shortcut_actions(ShortcutAction::ShowWindow, true)), vec!["show", "focus"]);
    assert_eq!(describe(&shortcut_actions(ShortcutAction::VoiceCall, true)), vec!["shortcut-voice-call"]);
    assert_eq!(describe(&shortcut_actions(ShortcutAction::MuteToggle, false)), vec!["shortcut-mute-toggle"]);
}

#[test]
fn menu_commands() {
    assert!(matches!(menu_command("find"), MenuCommand::Emit(n, Payload::Empty) if n == "menu-find"));
    assert!(matches!(menu_command("go_threads"), MenuCommand::Emit(n, Payload::Text(t)) if n == "menu-navigate" && t == "threads"));
    assert!(matches!(menu_command("reload"), MenuCommand::Eval(s) if s == "window.location.reload()"));
    assert!(matches!(menu_command("documentation"), MenuCommand::OpenUrl(u) if u == "https://docs.nself.org/nchat"));
    assert!(matches!(menu_command("zoom"), MenuCommand::Ignore));
}

#[test]
fn permission_answers() {
    assert_eq!(permission_text(true), "granted");
    assert_eq!(permission_text(false), "denied");
}

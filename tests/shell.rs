use dynbox::autostart::{toggle_change, AutostartChange};
use dynbox::text::{same_text, starts_with_text};
use dynbox::tray::{menu_action, tray_menu_entries, MenuAction};

#[test]
fn menu_ids_dispatch() {
    assert_eq!(menu_action("open_window"), MenuAction::OpenWindow);
    assert_eq!(menu_action("open_web"), MenuAction::OpenWeb);
    assert_eq!(menu_action("auto_start"), MenuAction::ToggleAutostart);
    assert_eq!(menu_action("quit"), MenuAction::Quit);
    assert_eq!(menu_action("Quit"), MenuAction::Ignore);
    assert_eq!(menu_action(""), MenuAction::Ignore);
}

#[test]
fn tray_menu_layout() {
    let entries = tray_menu_entries(true);
    let ids: Vec<&str> = entries.iter().map(|e| e.id.as_str()).collect();
    let labels: Vec<&str> = entries.iter().map(|e| e.label.as_str()).collect();
    assert_eq!(ids, vec!["open_window", "open_web", "auto_start", "quit"]);
    assert_eq!(labels, vec!["Open", "Open in web", "Launch at startup", "Quit Dynbox"]);
    assert_eq!(entries[2].checked, Some(true));
    assert_eq!(entries[0].checked, None);
    assert_eq!(tray_menu_entries(false)[2].checked, Some(false));
    for e in &entries {
        assert_ne!(menu_action(&e.id), MenuAction::Ignore);
    }
}

#[test]
fn toggle_flips_registration() {
    assert_eq!(toggle_change(true), AutostartChange::Disable);
    assert_eq!(toggle_change(false), AutostartChange::Enable);
    assert!(!toggle_change(true).enabled_after());
    assert!(toggle_change(false).enabled_after());
    assert!(toggle_change(toggle_change(true).enabled_after()).enabled_after());
}

#[test]
fn text_helpers() {
    assert!(same_text("dynbox", "dynbox"));
    assert!(!same_text("dynbox", "dynbo"));
    assert!(!same_text("dynbox", "dynbix"));
    assert!(starts_with_text("dynbox://x", "dynbox://"));
    assert!(starts_with_text("abc", ""));
    assert!(!starts_with_text("dyn", "dynbox://"));
    assert!(!starts_with_text("dynbox:/x", "dynbox://"));
}

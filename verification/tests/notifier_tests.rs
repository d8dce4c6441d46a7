use hayaku_ike::icons::{resolve_icon, BUSY, FALLBACK, IDLE, PAUSED};
use hayaku_ike::notifier::{notify_busy, notify_idle, notify_paused, NotificationGate};

#[test]
fn test_notify_idle_sets_last_notification() {
    let mut gate = NotificationGate::new();
    notify_idle(&mut gate, "Idle message");
    assert_eq!(gate.last_message.as_deref(), Some("Idle message"));
}

#[test]
fn test_notify_busy_sets_last_notification() {
    let mut gate = NotificationGate::new();
    notify_busy(&mut gate, "Busy message");
    assert_eq!(gate.last_message.as_deref(), Some("Busy message"));
}

#[test]
fn test_notify_paused_sets_last_notification() {
    let mut gate = NotificationGate::new();
    notify_paused(&mut gate, "Paused message");
    assert_eq!(gate.last_message.as_deref(), Some("Paused message"));
}

#[test]
fn test_throttle_prevents_duplicate_notifications() {
    let mut gate = NotificationGate::new();
    notify_idle(&mut gate, "Duplicate message");
    // Call again with same message
    notify_idle(&mut gate, "Duplicate message");

    // The last message should still be the same
    assert_eq!(gate.last_message.as_deref(), Some("Duplicate message"));
}

#[test]
fn same_message_twice_passes_once() {
    let mut gate = NotificationGate::new();
    let first = notify_idle(&mut gate, "Duplicate message");
    let second = notify_idle(&mut gate, "Duplicate message");
    assert!(first.is_some());
    assert!(second.is_none());
    let third = notify_busy(&mut gate, "Duplicate message");
    assert!(third.is_none());
}

#[test]
fn changed_message_passes_again() {
    let mut gate = NotificationGate::new();
    assert!(gate.notify("t", "one", "i").is_some());
    assert!(gate.notify("t", "two", "i").is_some());
    assert!(gate.notify("t", "one", "i").is_some());
    assert!(gate.is_repeat("one"));
    assert!(!gate.is_repeat("two"));
}

#[test]
fn fresh_gate_lets_the_empty_message_pass() {
    let mut gate = NotificationGate::new();
    assert!(!gate.is_repeat(""));
    let n = gate.notify("Title", "", "icon.svg").unwrap();
    assert_eq!(n.title, "Title");
    assert_eq!(n.message, "");
    assert_eq!(n.icon, "icon.svg");
    assert_eq!(gate.last_message.as_deref(), Some(""));
    assert!(gate.notify("Title", "", "icon.svg").is_none());
}

#[test]
fn notifications_carry_title_and_state_icon() {
    let mut gate = NotificationGate::new();
    let idle = notify_idle(&mut gate, "a").unwrap();
    assert_eq!(idle.title, "Hayaku-Ike");
    assert_eq!(idle.message, "a");
    assert_eq!(idle.icon, IDLE);
    let busy = notify_busy(&mut gate, "b").unwrap();
    assert_eq!(busy.title, "Hayaku-Ike");
    assert_eq!(busy.icon, BUSY);
    let paused = notify_paused(&mut gate, "c").unwrap();
    assert_eq!(paused.title, "Hayaku-Ike");
    assert_eq!(paused.icon, PAUSED);
}

#[test]
fn missing_asset_falls_back_to_the_generic_icon() {
    assert_eq!(resolve_icon(IDLE, true), "assets/icons/player-play.svg");
    assert_eq!(resolve_icon(IDLE, false), "dialog-information");
    assert_eq!(resolve_icon("", false), FALLBACK);
}

#[test]
fn icons_paths_exist_or_warn() {
    let icons = [(IDLE, "IDLE"), (BUSY, "BUSY"), (PAUSED, "PAUSED")];

    for (path, name) in icons.iter() {
        if !std::path::Path::new(path).exists() {
            println!("Warning: icon file for {} not found at '{}'", name, path);
        }
        // test always passes
        assert!(true);
    }
}

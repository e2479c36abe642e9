use winkeylock::context::{covers_monitor, is_eligible, looks_like_game, WS_CAPTION, WS_SYSMENU};
use winkeylock::{ContextReading, DetectMethod, Rect, WindowBounds, WindowShape};

#[test]
fn failed_queries_are_not_eligible() {
    assert!(!is_eligible(&ContextReading::Notification(None)));
    assert!(!is_eligible(&ContextReading::Fullscreen(None)));
    assert!(!is_eligible(&ContextReading::WindowStyle(None)));
}

#[test]
fn notification_states() {
    assert!(!is_eligible(&ContextReading::Notification(Some(5))));
    assert!(!is_eligible(&ContextReading::Notification(Some(1))));
    assert!(is_eligible(&ContextReading::Notification(Some(2))));
    assert!(is_eligible(&ContextReading::Notification(Some(3))));
}

#[test]
fn window_covering_monitor() {
    let mon = Rect { left: 0, top: 0, right: 1920, bottom: 1080 };
    assert!(covers_monitor(&Rect { left: -8, top: -8, right: 1928, bottom: 1088 }, &mon));
    assert!(!covers_monitor(&Rect { left: 0, top: 0, right: 1920, bottom: 1040 }, &mon));
    let b = WindowBounds { window: Rect { left: 1, top: 0, right: 1920, bottom: 1080 }, monitor: mon };
    assert!(!is_eligible(&ContextReading::Fullscreen(Some(b))));
}

#[test]
fn borderless_window_without_children() {
    assert!(looks_like_game(0x9000_0000, 0));
    assert!(!looks_like_game(0x9000_0000, 2));
    assert!(!looks_like_game(WS_SYSMENU, 0));
    assert!(!looks_like_game(WS_CAPTION | 0x1000_0000, 0));
    assert!(!looks_like_game(0x0040_0000, 0));
    let shape = WindowShape { style: 0x1000_0000, child_windows: 0 };
    assert!(is_eligible(&ContextReading::WindowStyle(Some(shape))));
}

#[test]
fn method_names() {
    assert_eq!(DetectMethod::from_name("fullscreen"), Some(DetectMethod::Fullscreen));
    assert_eq!(DetectMethod::from_name("window_style"), Some(DetectMethod::WindowStyle));
    assert_eq!(DetectMethod::from_name("notification_state"), Some(DetectMethod::NotificationState));
    assert_eq!(DetectMethod::from_name("Fullscreen"), None);
}

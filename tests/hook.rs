use winkeylock::context::{QUNS_BUSY, QUNS_RUNNING_D3D_FULL_SCREEN};
use winkeylock::keys::{VK_LSHIFT, VK_LWIN, VK_RWIN};
use winkeylock::modifiers::{decode_message, WM_KEYDOWN, WM_KEYUP, WM_SYSKEYDOWN, WM_SYSKEYUP};
use winkeylock::{
    ConfigManager, ContextReading, DetectMethod, HookAction, HookStep, KeyAction, KeyCombo, KeyConfig,
    KeyboardHook, ModifierState, Pending, Rect, StoredPolicy, WindowBounds,
};

fn manager(black: &[&str], white: &[&str], method: DetectMethod) -> ConfigManager {
    let black: Vec<String> = black.iter().map(|s| s.to_string()).collect();
    let white: Vec<String> = white.iter().map(|s| s.to_string()).collect();
    let config = KeyConfig::from_lists(&black, &white).unwrap();
    ConfigManager::new(config, method, "config.json".to_string())
}

/// Runs both stages of an event, with a context reading that is eligible or not.
fn run(hook: &mut KeyboardHook, mgr: Option<&ConfigManager>, vk: u16, msg: u32, eligible: bool) -> HookAction {
    match hook.on_event(mgr, 0, vk, msg) {
        HookStep::Done(a) => a,
        HookStep::AskContext(_, pending) => KeyboardHook::finish(pending, eligible),
    }
}

#[test]
fn messages_decode() {
    assert_eq!(decode_message(WM_KEYDOWN), KeyAction::Down);
    assert_eq!(decode_message(WM_SYSKEYDOWN), KeyAction::Down);
    assert_eq!(decode_message(WM_KEYUP), KeyAction::Up);
    assert_eq!(decode_message(WM_SYSKEYUP), KeyAction::Up);
    assert_eq!(decode_message(0x0200), KeyAction::Other);
}

#[test]
fn shift_meta_shift_up_sequence() {
    let mut m = ModifierState::new();
    m.update(VK_LSHIFT, true);
    m.update(VK_LWIN, true);
    m.update(VK_LSHIFT, false);
    assert!(!m.shift);
    assert!(m.win);
    assert!(!m.win_used_in_combo);
}

#[test]
fn other_key_while_meta_held_marks_a_chord() {
    let mut m = ModifierState::new();
    m.update(VK_LWIN, true);
    m.update(0x45, true);
    assert!(m.win_used_in_combo);
    m.update(0x45, false);
    m.update(VK_LWIN, false);
    assert!(!m.win);
    assert!(m.win_used_in_combo);
    m.update(VK_RWIN, true);
    assert!(!m.win_used_in_combo);
}

#[test]
fn meta_release_alone_injects_once_and_passes() {
    let mgr = manager(&["lwin"], &[], DetectMethod::Fullscreen);
    let mut hook = KeyboardHook::new();
    assert_eq!(run(&mut hook, Some(&mgr), VK_LWIN, WM_KEYDOWN, true), HookAction::PassThrough);
    let step = hook.on_event(Some(&mgr), 0, VK_LWIN, WM_KEYUP);
    assert_eq!(step, HookStep::AskContext(DetectMethod::Fullscreen, Pending::Inject));
    assert_eq!(KeyboardHook::finish(Pending::Inject, true), HookAction::InjectAndPassThrough);
    assert_eq!(KeyboardHook::finish(Pending::Inject, false), HookAction::PassThrough);
}

#[test]
fn meta_release_after_chord_passes() {
    let mgr = manager(&["lwin"], &[], DetectMethod::Fullscreen);
    let mut hook = KeyboardHook::new();
    run(&mut hook, Some(&mgr), VK_LWIN, WM_KEYDOWN, true);
    assert_eq!(run(&mut hook, Some(&mgr), 0x45, WM_KEYDOWN, true), HookAction::PassThrough);
    run(&mut hook, Some(&mgr), 0x45, WM_KEYUP, true);
    assert_eq!(hook.on_event(Some(&mgr), 0, VK_LWIN, WM_KEYUP), HookStep::Done(HookAction::PassThrough));
}

#[test]
fn end_to_end_whitelisted_chord_and_bare_meta() {
    let mgr = manager(&["lwin", "rwin"], &["shift+lwin+s"], DetectMethod::Fullscreen);
    let mut hook = KeyboardHook::new();
    assert_eq!(run(&mut hook, Some(&mgr), VK_LSHIFT, WM_KEYDOWN, true), HookAction::PassThrough);
    assert_eq!(run(&mut hook, Some(&mgr), VK_LWIN, WM_KEYDOWN, true), HookAction::PassThrough);
    assert_eq!(run(&mut hook, Some(&mgr), 0x53, WM_KEYDOWN, true), HookAction::PassThrough);
    assert_eq!(run(&mut hook, Some(&mgr), 0x53, WM_KEYUP, true), HookAction::PassThrough);
    assert_eq!(run(&mut hook, Some(&mgr), VK_LWIN, WM_KEYUP, true), HookAction::PassThrough);
    assert_eq!(run(&mut hook, Some(&mgr), VK_LSHIFT, WM_KEYUP, true), HookAction::PassThrough);

    let fullscreen = ContextReading::Fullscreen(Some(WindowBounds {
        window: Rect { left: 0, top: 0, right: 1920, bottom: 1080 },
        monitor: Rect { left: 0, top: 0, right: 1920, bottom: 1080 },
    }));
    let eligible = winkeylock::context::is_eligible(&fullscreen);
    assert!(eligible);
    assert_eq!(run(&mut hook, Some(&mgr), VK_LWIN, WM_KEYDOWN, eligible), HookAction::PassThrough);
    let mut injections = 0;
    let action = run(&mut hook, Some(&mgr), VK_LWIN, WM_KEYUP, eligible);
    if action == HookAction::InjectAndPassThrough {
        injections += 1;
    }
    assert_eq!(action, HookAction::InjectAndPassThrough);
    assert_eq!(injections, 1);
}

#[test]
fn blocked_key_press_is_suppressed_only_in_context() {
    let mgr = manager(&["alt+tab"], &[], DetectMethod::WindowStyle);
    let mut hook = KeyboardHook::new();
    run(&mut hook, Some(&mgr), 0xA4, WM_SYSKEYDOWN, true);
    let step = hook.on_event(Some(&mgr), 0, 0x09, WM_SYSKEYDOWN);
    assert_eq!(step, HookStep::AskContext(DetectMethod::WindowStyle, Pending::Suppress));
    assert_eq!(KeyboardHook::finish(Pending::Suppress, true), HookAction::Suppress);
    assert_eq!(KeyboardHook::finish(Pending::Suppress, false), HookAction::PassThrough);
    assert_eq!(hook.on_event(Some(&mgr), 0, 0x09, WM_SYSKEYUP), HookStep::Done(HookAction::PassThrough));
}

#[test]
fn negative_code_passes_without_state_change() {
    let mgr = manager(&["a"], &[], DetectMethod::Fullscreen);
    let mut hook = KeyboardHook::new();
    assert_eq!(hook.on_event(Some(&mgr), -1, 0x41, WM_KEYDOWN), HookStep::Done(HookAction::PassThrough));
    assert_eq!(hook.on_event(Some(&mgr), -1, VK_LWIN, WM_KEYDOWN), HookStep::Done(HookAction::PassThrough));
    assert!(!hook.modifiers.win);
}

#[test]
fn fallback_without_manager() {
    let mut hook = KeyboardHook::new();
    assert_eq!(hook.on_event(None, 0, VK_LWIN, WM_KEYDOWN), HookStep::Done(HookAction::PassThrough));
    assert_eq!(
        hook.on_event(None, 0, VK_LWIN, WM_KEYUP),
        HookStep::AskContext(DetectMethod::NotificationState, Pending::Inject)
    );
    hook.on_event(None, 0, VK_LSHIFT, WM_KEYDOWN);
    hook.on_event(None, 0, VK_LWIN, WM_KEYDOWN);
    assert_eq!(hook.on_event(None, 0, VK_LWIN, WM_KEYUP), HookStep::Done(HookAction::PassThrough));
    let busy = ContextReading::Notification(Some(QUNS_BUSY));
    assert!(winkeylock::context::is_eligible(&busy));
    assert!(winkeylock::context::is_eligible(&ContextReading::Notification(Some(QUNS_RUNNING_D3D_FULL_SCREEN))));
}

#[test]
fn reload_keeps_snapshot_on_error() {
    let mut mgr = manager(&["lwin"], &[], DetectMethod::NotificationState);
    let bad = StoredPolicy { blacklist: vec!["ctrl+nothing".to_string()], whitelist: vec![] };
    assert!(mgr.reload(&bad).is_err());
    assert!(mgr.should_block(VK_LWIN, false, false, false, true));
    let good = StoredPolicy { blacklist: vec!["rwin".to_string()], whitelist: vec![] };
    assert!(mgr.reload(&good).is_ok());
    assert!(!mgr.should_block(VK_LWIN, false, false, false, true));
    assert!(mgr.should_block(VK_RWIN, false, false, false, true));
    assert_eq!(mgr.detect_method(), DetectMethod::NotificationState);
    assert_eq!(mgr.get_config_path(), "config.json");
}

#[test]
fn loaded_policy_or_default() {
    let (c, write, error) = winkeylock::resolve_loaded(None);
    assert!(write);
    assert_eq!(error, None);
    assert_eq!(c.blacklist.len(), 2);
    let stored = StoredPolicy { blacklist: vec!["ctrl+c".to_string()], whitelist: vec![] };
    let (c, write, error) = winkeylock::resolve_loaded(Some(stored));
    assert!(!write);
    assert_eq!(error, None);
    assert_eq!(c.blacklist[0].string_repr, "ctrl+c");
    let broken = StoredPolicy { blacklist: vec!["ctrl".to_string()], whitelist: vec![] };
    let (c, write, error) = winkeylock::resolve_loaded(Some(broken));
    assert!(write);
    assert_eq!(error, Some(winkeylock::ParseError::NoKey));
    assert_eq!(c.blacklist[0].string_repr, "lwin");
}

#[test]
fn meta_tap_with_shift_held_is_not_the_bare_key() {
    let mgr = manager(&["lwin"], &[], DetectMethod::Fullscreen);
    let mut hook = KeyboardHook::new();
    assert_eq!(run(&mut hook, Some(&mgr), VK_LSHIFT, WM_KEYDOWN, true), HookAction::PassThrough);
    assert_eq!(run(&mut hook, Some(&mgr), VK_LWIN, WM_KEYDOWN, true), HookAction::PassThrough);
    assert_eq!(hook.on_event(Some(&mgr), 0, VK_LWIN, WM_KEYUP), HookStep::Done(HookAction::PassThrough));
    assert_eq!(run(&mut hook, Some(&mgr), VK_LSHIFT, WM_KEYUP, true), HookAction::PassThrough);
}

#[test]
fn meta_tap_with_held_modifiers_matches_that_combination() {
    let entry = KeyCombo {
        key: VK_RWIN,
        shift: false,
        ctrl: true,
        alt: true,
        win: true,
        string_repr: String::new(),
    };
    let config = KeyConfig { blacklist: vec![entry], whitelist: vec![] };
    let mgr = ConfigManager::new(config, DetectMethod::WindowStyle, String::new());
    let mut hook = KeyboardHook::new();
    run(&mut hook, Some(&mgr), 0xA2, WM_KEYDOWN, true);
    run(&mut hook, Some(&mgr), 0xA4, WM_SYSKEYDOWN, true);
    run(&mut hook, Some(&mgr), VK_RWIN, WM_SYSKEYDOWN, true);
    assert_eq!(
        hook.on_event(Some(&mgr), 0, VK_RWIN, WM_SYSKEYUP),
        HookStep::AskContext(DetectMethod::WindowStyle, Pending::Inject)
    );
    assert_eq!(KeyboardHook::finish(Pending::Inject, true), HookAction::InjectAndPassThrough);
    run(&mut hook, Some(&mgr), 0xA2, WM_KEYUP, true);
    run(&mut hook, Some(&mgr), 0xA4, WM_SYSKEYUP, true);
    run(&mut hook, Some(&mgr), VK_RWIN, WM_KEYDOWN, true);
    assert_eq!(run(&mut hook, Some(&mgr), VK_RWIN, WM_KEYUP, true), HookAction::PassThrough);
}

#[test]
fn modifier_key_events_are_never_suppressed() {
    let shift_entry = KeyCombo {
        key: VK_LSHIFT,
        shift: true,
        ctrl: false,
        alt: false,
        win: false,
        string_repr: "shift".to_string(),
    };
    let config = KeyConfig { blacklist: vec![shift_entry], whitelist: vec![] };
    let mgr = ConfigManager::new(config, DetectMethod::Fullscreen, String::new());
    let mut hook = KeyboardHook::new();
    assert_eq!(hook.on_event(Some(&mgr), 0, VK_LSHIFT, WM_KEYDOWN), HookStep::Done(HookAction::PassThrough));
    assert!(hook.modifiers.shift);
}

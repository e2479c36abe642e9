//! Whether the foreground application is in a state where suppression
//! applies, decided from readings of the desktop's state.

use vstd::prelude::*;

use crate::text::is_word;

verus! {

pub const QUNS_BUSY: i32 = 2;

pub const QUNS_RUNNING_D3D_FULL_SCREEN: i32 = 3;

pub const WS_SYSMENU: u32 = 0x0008_0000;

pub const WS_CAPTION: u32 = 0x00C0_0000;

/// How to tell whether suppression applies right now.
#[derive(Debug, Clone, Copy, PartialEq, Eq, Structural)]
pub enum DetectMethod {
    /// The user-notification state is busy or exclusive full screen.
    NotificationState,
    /// The foreground window covers its whole monitor.
    Fullscreen,
    /// The foreground window has no system menu, no title bar and no child windows.
    WindowStyle,
}

impl DetectMethod {
    /// The method called `name` in a policy file.
    pub fn from_name(name: &str) -> (r: Option<DetectMethod>)
        ensures
            r == (if name@ == "notification_state"@ {
                Some(DetectMethod::NotificationState)
            } else if name@ == "fullscreen"@ {
                Some(DetectMethod::Fullscreen)
            } else if name@ == "window_style"@ {
                Some(DetectMethod::WindowStyle)
            } else {
                None
            }),
    {
        let chars = crate::text::chars_of(name);
        if is_word(&chars, "notification_state") {
            Some(DetectMethod::NotificationState)
        } else if is_word(&chars, "fullscreen") {
            Some(DetectMethod::Fullscreen)
        } else if is_word(&chars, "window_style") {
            Some(DetectMethod::WindowStyle)
        } else {
            None
        }
    }
}

/// A screen rectangle.
#[derive(Debug, Clone, Copy, PartialEq, Eq, Structural)]
pub struct Rect {
    pub left: i32,
    pub top: i32,
    pub right: i32,
    pub bottom: i32,
}

/// The foreground window's rectangle and that of its monitor.
#[derive(Debug, Clone, Copy, PartialEq, Eq, Structural)]
pub struct WindowBounds {
    pub window: Rect,
    pub monitor: Rect,
}

/// The foreground window's style bits and its number of descendant windows.
#[derive(Debug, Clone, Copy, PartialEq, Eq, Structural)]
pub struct WindowShape {
    pub style: u32,
    pub child_windows: u32,
}

/// What was read for one method; `None` where the query failed.
#[derive(Debug, Clone, Copy, PartialEq, Eq, Structural)]
pub enum ContextReading {
    /// The user-notification state.
    Notification(Option<i32>),
    /// The foreground window's placement.
    Fullscreen(Option<WindowBounds>),
    /// The foreground window's style.
    WindowStyle(Option<WindowShape>),
}

pub open spec fn busy_state(state: i32) -> bool {
    state == QUNS_BUSY || state == QUNS_RUNNING_D3D_FULL_SCREEN
}

pub open spec fn covers_spec(window: Rect, monitor: Rect) -> bool {
    window.left <= monitor.left && window.top <= monitor.top && window.right >= monitor.right
        && window.bottom >= monitor.bottom
}

pub open spec fn game_like_spec(style: u32, child_windows: u32) -> bool {
    (style & WS_SYSMENU) == 0 && (style & WS_CAPTION) == 0 && child_windows == 0
}

pub open spec fn eligible(reading: ContextReading) -> bool {
    match reading {
        ContextReading::Notification(Some(state)) => busy_state(state),
        ContextReading::Fullscreen(Some(b)) => covers_spec(b.window, b.monitor),
        ContextReading::WindowStyle(Some(w)) => game_like_spec(w.style, w.child_windows),
        _ => false,
    }
}

/// Whether `window` fully covers `monitor`.
pub fn covers_monitor(window: &Rect, monitor: &Rect) -> (r: bool)
    ensures
        r == covers_spec(*window, *monitor),
{
    window.left <= monitor.left && window.top <= monitor.top && window.right >= monitor.right
        && window.bottom >= monitor.bottom
}

/// Whether a window with these style bits and this many descendant windows
/// looks like a borderless game window.
pub fn looks_like_game(style: u32, child_windows: u32) -> (r: bool)
    ensures
        r == game_like_spec(style, child_windows),
{
    (style & WS_SYSMENU) == 0 && (style & WS_CAPTION) == 0 && child_windows == 0
}

/// Whether suppression applies, given what was read. A failed query means
/// it does not.
pub fn is_eligible(reading: &ContextReading) -> (r: bool)
    ensures
        r == eligible(*reading),
{
    match reading {
        ContextReading::Notification(Some(state)) => *state == QUNS_BUSY || *state
            == QUNS_RUNNING_D3D_FULL_SCREEN,
        ContextReading::Fullscreen(Some(b)) => covers_monitor(&b.window, &b.monitor),
        ContextReading::WindowStyle(Some(w)) => looks_like_game(w.style, w.child_windows),
        _ => false,
    }
}

} // verus!

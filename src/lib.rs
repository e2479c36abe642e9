//! Keyboard interception policy engine: key-combination parsing, an
//! allow/block policy with whitelist precedence, modifier tracking across
//! key events, and the per-event hook decision.

pub mod combo;
pub mod config_ui;
pub mod context;
pub mod hook;
pub mod keys;
pub mod manager;
pub mod modifiers;
pub mod policy;
pub mod text;
pub mod wide_string;

pub use combo::{KeyCombo, ParseError};
pub use config_ui::{ConfigUI, Message, UiEffect};
pub use context::{ContextReading, DetectMethod, Rect, WindowBounds, WindowShape};
pub use hook::{HookAction, HookStep, KeyboardHook, Pending};
pub use manager::{resolve_loaded, ConfigManager, StoredPolicy};
pub use modifiers::{KeyAction, ModifierState};
pub use policy::KeyConfig;
pub use wide_string::{ToWide, WideString};

//! The per-event decision of the keyboard hook: update the modifier state,
//! consult the policy, and say whether the context must be read before the
//! event is suppressed or compensated.
//!
//! Convention for the bare meta key: a meta key is itself held while it is
//! being pressed or released, so on a meta key-up the policy is asked about
//! that key with the meta flag set, as `lwin` and `rwin` parse, together
//! with the shift, ctrl and alt keys still held. A meta tap with shift held
//! is therefore `shift+lwin`, not the bare key.
//!
//! Events of the shift, ctrl and alt keys themselves only update the
//! modifier state; they are never suppressed.

use vstd::prelude::*;

use crate::context::DetectMethod;
use crate::keys::{
    is_meta_key, is_modifier_key, VK_CONTROL, VK_LCONTROL, VK_LMENU, VK_LSHIFT, VK_LWIN, VK_MENU,
    VK_RCONTROL, VK_RMENU, VK_RSHIFT, VK_RWIN, VK_SHIFT,
};
use crate::manager::ConfigManager;
use crate::modifiers::{action_of, decode_message, KeyAction, ModifierState};

verus! {

/// What the hook does with an event.
#[derive(Debug, Clone, Copy, PartialEq, Eq, Structural)]
pub enum HookAction {
    /// Hand the event on unchanged.
    PassThrough,
    /// Stop the event: it reaches no application.
    Suppress,
    /// Inject one compensating key tap, then hand the event on unchanged.
    InjectAndPassThrough,
}

/// What is done if the context turns out to allow suppression.
#[derive(Debug, Clone, Copy, PartialEq, Eq, Structural)]
pub enum Pending {
    Suppress,
    Inject,
}

/// The outcome of the first stage of handling an event.
#[derive(Debug, Clone, Copy, PartialEq, Eq, Structural)]
pub enum HookStep {
    /// The decision is made.
    Done(HookAction),
    /// Read the context with this method, then call `finish`.
    AskContext(DetectMethod, Pending),
}

/// The first stage of handling event (`code`, `vk`, `msg`) from modifier
/// state `mods`, with the policy of `manager` or, when it is absent, the
/// fallback rule.
pub open spec fn step_spec(
    mods: ModifierState,
    manager: Option<&ConfigManager>,
    code: i32,
    vk: u16,
    msg: u32,
) -> (ModifierState, HookStep) {
    if code < 0 {
        (mods, HookStep::Done(HookAction::PassThrough))
    } else {
        let action = action_of(msg);
        let m = mods.after(vk, action == KeyAction::Down);
        let step = match manager {
            Some(mgr) => if is_meta_key(vk) && action == KeyAction::Up {
                if !m.win_used_in_combo && mgr.policy().blocks(vk, m.shift, m.ctrl, m.alt, true) {
                    HookStep::AskContext(mgr.method(), Pending::Inject)
                } else {
                    HookStep::Done(HookAction::PassThrough)
                }
            } else if action == KeyAction::Down && !is_meta_key(vk) && !is_modifier_key(vk)
                && mgr.policy().blocks(
                vk,
                m.shift,
                m.ctrl,
                m.alt,
                m.win,
            ) {
                HookStep::AskContext(mgr.method(), Pending::Suppress)
            } else {
                HookStep::Done(HookAction::PassThrough)
            },
            None => if is_meta_key(vk) && action == KeyAction::Up && !(m.shift || m.ctrl || m.alt)
                && !m.win_used_in_combo {
                HookStep::AskContext(DetectMethod::NotificationState, Pending::Inject)
            } else {
                HookStep::Done(HookAction::PassThrough)
            },
        };
        (m, step)
    }
}

pub open spec fn finish_spec(pending: Pending, eligible: bool) -> HookAction {
    if !eligible {
        HookAction::PassThrough
    } else {
        match pending {
            Pending::Suppress => HookAction::Suppress,
            Pending::Inject => HookAction::InjectAndPassThrough,
        }
    }
}

/// The hook's own state, kept from one event to the next.
#[derive(Debug, Clone, Copy, PartialEq, Eq, Structural)]
pub struct KeyboardHook {
    pub modifiers: ModifierState,
}

impl KeyboardHook {
    pub fn new() -> (r: KeyboardHook)
        ensures
            r.modifiers == (ModifierState {
                shift: false,
                ctrl: false,
                alt: false,
                win: false,
                win_used_in_combo: false,
            }),
    {
        KeyboardHook { modifiers: ModifierState::new() }
    }

    /// First stage of an event. A negative `code` is passed on at once with
    /// no change. Otherwise the modifier state is updated, then:
    /// a meta key-up with no chord since the meta press, which the policy
    /// blocks as that meta key with the held shift, ctrl and alt, asks for
    /// the context with a pending injection; a key-down of a key that is no
    /// modifier and that the policy blocks asks for it with a pending
    /// suppression; everything else passes.
    pub fn on_event(&mut self, manager: Option<&ConfigManager>, code: i32, vk: u16, msg: u32) -> (r:
        HookStep)
        ensures
            (final(self).modifiers, r) == step_spec(old(self).modifiers, manager, code, vk, msg),
    {
        if code < 0 {
            return HookStep::Done(HookAction::PassThrough);
        }
        let action = decode_message(msg);
        let is_down = match action {
            KeyAction::Down => true,
            _ => false,
        };
        let is_up = match action {
            KeyAction::Up => true,
            _ => false,
        };
        let is_meta = vk == VK_LWIN || vk == VK_RWIN;
        let is_modifier = vk == VK_LSHIFT || vk == VK_RSHIFT || vk == VK_SHIFT || vk == VK_LCONTROL
            || vk == VK_RCONTROL || vk == VK_CONTROL || vk == VK_LMENU || vk == VK_RMENU || vk
            == VK_MENU;
        self.modifiers.update(vk, is_down);
        let m = self.modifiers;
        match manager {
            Some(mgr) => {
                if is_meta && is_up {
                    if !m.win_used_in_combo && mgr.should_block(vk, m.shift, m.ctrl, m.alt, true) {
                        HookStep::AskContext(mgr.detect_method(), Pending::Inject)
                    } else {
                        HookStep::Done(HookAction::PassThrough)
                    }
                } else if is_down && !is_meta && !is_modifier && mgr.should_block(
                    vk,
                    m.shift,
                    m.ctrl,
                    m.alt,
                    m.win,
                ) {
                    HookStep::AskContext(mgr.detect_method(), Pending::Suppress)
                } else {
                    HookStep::Done(HookAction::PassThrough)
                }
            },
            None => {
                if is_meta && is_up && !(m.shift || m.ctrl || m.alt) && !m.win_used_in_combo {
                    HookStep::AskContext(DetectMethod::NotificationState, Pending::Inject)
                } else {
                    HookStep::Done(HookAction::PassThrough)
                }
            },
        }
    }

    /// Second stage: what to do once the context has been read. Nothing
    /// happens unless the context allows suppression.
    pub fn finish(pending: Pending, eligible: bool) -> (r: HookAction)
        ensures
            r == finish_spec(pending, eligible),
    {
        if !eligible {
            HookAction::PassThrough
        } else {
            match pending {
                Pending::Suppress => HookAction::Suppress,
                Pending::Inject => HookAction::InjectAndPassThrough,
            }
        }
    }
}

/// A meta key-up is never suppressed. When no other key went down since the
/// meta press and the policy blocks that meta key with the shift, ctrl and
/// alt keys held, the hook asks for the
/// context, and an eligible context gives exactly one injection, after which
/// the key-up passes on unchanged.
pub proof fn lemma_meta_release(
    mods: ModifierState,
    manager: Option<&ConfigManager>,
    vk: u16,
    msg: u32,
    eligible: bool,
)
    requires
        is_meta_key(vk),
        action_of(msg) == KeyAction::Up,
    ensures
        forall|code: i32|
            {
                let step = #[trigger] step_spec(mods, manager, code, vk, msg).1;
                &&& step != HookStep::Done(HookAction::Suppress)
                &&& forall|m: DetectMethod, p: Pending|
                    step == HookStep::AskContext(m, p) ==> p == Pending::Inject
                        && finish_spec(p, eligible) != HookAction::Suppress
            },
        manager matches Some(mgr) ==> (!mods.win_used_in_combo && mgr.policy().blocks(
            vk,
            mods.shift,
            mods.ctrl,
            mods.alt,
            true,
        ) ==> forall|code: i32|
            code >= 0 ==> #[trigger] step_spec(mods, manager, code, vk, msg).1
                == HookStep::AskContext(mgr.method(), Pending::Inject)),
        finish_spec(Pending::Inject, true) == HookAction::InjectAndPassThrough,
{
}

} // verus!

//! The keys a dictation can be wrapped in, and the daemon command that
//! presses each.
use vstd::prelude::*;

use crate::ipc::Command;

verus! {

/// An input-switch key pressed before and after typing, for layouts that
/// need a switch to QWERTY.
#[derive(Debug, Clone, Copy, PartialEq, Eq, Structural)]
pub enum ModifierKey {
    LeftAlt,
    RightAlt,
    LeftCtrl,
    RightCtrl,
    LeftShift,
    RightShift,
    Super,
}

/// The daemon command that presses `key`.
pub open spec fn command_for(key: ModifierKey) -> Command {
    match key {
        ModifierKey::LeftAlt => Command::LeftAlt,
        ModifierKey::RightAlt => Command::RightAlt,
        ModifierKey::LeftCtrl => Command::LeftCtrl,
        ModifierKey::RightCtrl => Command::RightCtrl,
        ModifierKey::LeftShift => Command::LeftShift,
        ModifierKey::RightShift => Command::RightShift,
        ModifierKey::Super => Command::Super,
    }
}

/// The daemon command that presses `key`.
pub fn modifier_command(key: ModifierKey) -> (c: Command)
    ensures
        c == command_for(key),
{
    match key {
        ModifierKey::LeftAlt => Command::LeftAlt,
        ModifierKey::RightAlt => Command::RightAlt,
        ModifierKey::LeftCtrl => Command::LeftCtrl,
        ModifierKey::RightCtrl => Command::RightCtrl,
        ModifierKey::LeftShift => Command::LeftShift,
        ModifierKey::RightShift => Command::RightShift,
        ModifierKey::Super => Command::Super,
    }
}

} // verus!

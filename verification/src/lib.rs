//! The verified core of rhisper, dictation at the cursor: the daemon
//! protocol and keymaps, what reaches the cursor in each paste mode, the
//! record/stop toggle, the rhisperrc format, and the parsing behind
//! transcription, silence detection and capture-source listing.
use vstd::prelude::*;

pub mod audio;
pub mod config;
pub mod dictation;
pub mod input;
pub mod ipc;
pub mod keymap;
pub mod literal;
pub mod paste;
pub mod placeholder;
pub mod provider;
pub mod setup;
pub mod silence;
pub mod text;
pub mod tool;
pub mod uinput;

verus! {
} // verus!

//! The chat window's input state machine.
//!
//! Terminal rendering and raw event reading live outside this library; the
//! decision of what a key press does — switch mode, keep running, submit the
//! typed line or hand the key to the line editor — is made here, one key at a
//! time.

use vstd::prelude::*;

verus! {

/// Whether key presses steer the window or edit the input line.
#[derive(Debug, PartialEq, Eq, Structural, Clone, Copy)]
pub enum InputMode {
    Normal,
    Editing,
}

/// One key press, reduced to what the state machine distinguishes. Every key
/// other than Enter and Escape is `Other`.
#[derive(Debug, PartialEq, Eq, Structural, Clone, Copy)]
pub enum KeyPress {
    Enter,
    Esc,
    Other,
}

/// What the caller must do after a key press: nothing further, hand the key
/// to the line editor, or take the typed line and send it.
#[derive(Debug, PartialEq, Eq, Structural, Clone, Copy)]
pub enum KeyAction {
    Ignore,
    ForwardToEditor,
    SubmitLine,
}

/// The outcome of one key press: the next mode, whether the window keeps
/// running, and what to do with the key.
#[derive(Debug, PartialEq, Eq, Structural, Clone, Copy)]
pub struct KeyOutcome {
    pub mode: InputMode,
    pub keep_running: bool,
    pub action: KeyAction,
}

/// Decides one key press. In normal mode Enter starts editing and Escape
/// exits the window; in editing mode Enter submits the typed line (staying in
/// editing mode), Escape returns to normal mode, and any other key goes to
/// the line editor. Only Escape in normal mode stops the window.
pub fn handle_key(mode: InputMode, key: KeyPress) -> (r: KeyOutcome)
    ensures
        r == (match (mode, key) {
            (InputMode::Normal, KeyPress::Enter) => KeyOutcome {
                mode: InputMode::Editing,
                keep_running: true,
                action: KeyAction::Ignore,
            },
            (InputMode::Normal, KeyPress::Esc) => KeyOutcome {
                mode: InputMode::Normal,
                keep_running: false,
                action: KeyAction::Ignore,
            },
            (InputMode::Normal, KeyPress::Other) => KeyOutcome {
                mode: InputMode::Normal,
                keep_running: true,
                action: KeyAction::Ignore,
            },
            (InputMode::Editing, KeyPress::Enter) => KeyOutcome {
                mode: InputMode::Editing,
                keep_running: true,
                action: KeyAction::SubmitLine,
            },
            (InputMode::Editing, KeyPress::Esc) => KeyOutcome {
                mode: InputMode::Normal,
                keep_running: true,
                action: KeyAction::Ignore,
            },
            (InputMode::Editing, KeyPress::Other) => KeyOutcome {
                mode: InputMode::Editing,
                keep_running: true,
                action: KeyAction::ForwardToEditor,
            },
        }),
{
    match (mode, key) {
        (InputMode::Normal, KeyPress::Enter) => KeyOutcome {
            mode: InputMode::Editing,
            keep_running: true,
            action: KeyAction::Ignore,
        },
        (InputMode::Normal, KeyPress::Esc) => KeyOutcome {
            mode: InputMode::Normal,
            keep_running: false,
            action: KeyAction::Ignore,
        },
        (InputMode::Normal, KeyPress::Other) => KeyOutcome {
            mode: InputMode::Normal,
            keep_running: true,
            action: KeyAction::Ignore,
        },
        (InputMode::Editing, KeyPress::Enter) => KeyOutcome {
            mode: InputMode::Editing,
            keep_running: true,
            action: KeyAction::SubmitLine,
        },
        (InputMode::Editing, KeyPress::Esc) => KeyOutcome {
            mode: InputMode::Normal,
            keep_running: true,
            action: KeyAction::Ignore,
        },
        (InputMode::Editing, KeyPress::Other) => KeyOutcome {
            mode: InputMode::Editing,
            keep_running: true,
            action: KeyAction::ForwardToEditor,
        },
    }
}

} // verus!

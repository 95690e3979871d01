//! Which key presses end the dashboard.
use vstd::prelude::*;

verus! {

/// The key of a key event, as far as quitting is concerned.
#[derive(Debug, Clone, Copy, PartialEq, Eq, Structural)]
pub enum KeyCode {
    Char(char),
    Esc,
    Other,
}

/// A key event.
#[derive(Debug, Clone, Copy, PartialEq, Eq, Structural)]
pub struct KeyInput {
    /// The key went down (not a repeat or a release).
    pub press: bool,
    pub code: KeyCode,
    /// Control was held.
    pub ctrl: bool,
}

/// `Q`, `q`, `Esc` or `Ctrl+C`, pressed.
pub open spec fn spec_is_quit_key(k: KeyInput) -> bool {
    k.press && (k.code == KeyCode::Char('q') || k.code == KeyCode::Char('Q') || k.code == KeyCode::Esc
        || (k.code == KeyCode::Char('c') && k.ctrl))
}

/// Whether a key event ends the dashboard: `Q`, `q`, `Esc` or `Ctrl+C`
/// pressed.
pub fn is_quit_key(k: &KeyInput) -> (quit: bool)
    ensures
        quit == spec_is_quit_key(*k),
{
    k.press && (match k.code {
        KeyCode::Char(c) => c == 'q' || c == 'Q' || (c == 'c' && k.ctrl),
        KeyCode::Esc => true,
        KeyCode::Other => false,
    })
}

} // verus!

//! Terminal keys and the events that reach the state machine.

use vstd::prelude::*;

verus! {

/// A key as read from the terminal.
#[derive(Clone, Copy, Debug, PartialEq, Eq, Structural)]
pub enum Key {
    Char(char),
    Ctrl(char),
    Alt(char),
    F(u8),
    Up,
    Down,
    Left,
    Right,
    Home,
    End,
    PageUp,
    PageDown,
    BackTab,
    Delete,
    Insert,
    Backspace,
    Esc,
    Other,
}

/// What the event loop receives: a key, a changed kernel log, or a tick.
#[derive(Debug)]
pub enum Event<I> {
    Input(I),
    Kernel(String),
    Tick,
}

} // verus!

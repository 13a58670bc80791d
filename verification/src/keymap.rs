//! Mapping from terminal key presses to actions, and the tick
//! configuration of the input poll.
//!
//! `Up` and `Ctrl+k` map identically to moving up, `Down` and `Ctrl+j`
//! to moving down. The modifier gate is on the letters alone: plain
//! `k`/`j` stay ordinary characters for the filter, and no broader
//! vi-style bindings are guessed at.

use vstd::prelude::*;

use crate::action::Action;

verus! {

/// A terminal key press, reduced to what the mapping reads.
#[derive(Clone, Copy, PartialEq, Eq, Structural, Debug)]
pub enum Key {
    Char(char),
    Up,
    Down,
    Enter,
    Esc,
    Backspace,
    PageUp,
    PageDown,
}

/// The action a key press maps to, if any.
pub open spec fn key_action_spec(key: Key, ctrl: bool) -> Option<Action> {
    match key {
        Key::Char(c) => (if c == 'c' && ctrl {
            Some(Action::Quit)
        } else if c == 'q' {
            Some(Action::Quit)
        } else if c == 'k' && ctrl {
            Some(Action::MoveUp)
        } else if c == 'j' && ctrl {
            Some(Action::MoveDown)
        } else {
            Some(Action::Character(c))
        }),
        Key::Esc => Some(Action::Escape),
        Key::Enter => Some(Action::Enter),
        Key::Up => Some(Action::MoveUp),
        Key::Down => Some(Action::MoveDown),
        Key::PageUp => Some(Action::PageUp),
        Key::PageDown => Some(Action::PageDown),
        Key::Backspace => Some(Action::Backspace),
    }
}

/// Map one key press to an action.
pub fn key_to_action(key: Key, ctrl: bool) -> (r: Option<Action>)
    ensures
        r == key_action_spec(key, ctrl),
{
    match key {
        Key::Char(c) => {
            if c == 'c' && ctrl {
                Some(Action::Quit)
            } else if c == 'q' {
                Some(Action::Quit)
            } else if c == 'k' && ctrl {
                Some(Action::MoveUp)
            } else if c == 'j' && ctrl {
                Some(Action::MoveDown)
            } else {
                Some(Action::Character(c))
            }
        },
        Key::Esc => Some(Action::Escape),
        Key::Enter => Some(Action::Enter),
        Key::Up => Some(Action::MoveUp),
        Key::Down => Some(Action::MoveDown),
        Key::PageUp => Some(Action::PageUp),
        Key::PageDown => Some(Action::PageDown),
        Key::Backspace => Some(Action::Backspace),
    }
}

/// The input poll's configuration: how long one poll may block before
/// it yields a tick.
pub struct EventHandler {
    pub tick_rate_ms: u64,
}

impl EventHandler {
    /// An event handler with the given tick interval.
    pub fn new(tick_rate_ms: u64) -> (r: Self)
        ensures
            r.tick_rate_ms == tick_rate_ms,
    {
        EventHandler { tick_rate_ms }
    }
}

} // verus!

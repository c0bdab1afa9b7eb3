//! The input events that the picker tells apart.
use vstd::prelude::*;

verus! {

/// The keys that the picker reacts to itself; every other key is `Other`.
#[derive(Clone, Copy, Debug, PartialEq, Eq, Structural)]
pub enum KeyCode {
    Tab,
    Char(char),
    Other,
}

/// The modifier keys that are held down.
#[derive(Clone, Copy, Debug, PartialEq, Eq, Structural)]
pub struct KeyModifiers {
    pub shift: bool,
    pub control: bool,
    pub alt: bool,
    /// Any modifier besides the three above.
    pub other: bool,
}

/// A key together with its modifiers.
#[derive(Clone, Copy, Debug, PartialEq, Eq, Structural)]
pub struct KeyEvent {
    pub code: KeyCode,
    pub modifiers: KeyModifiers,
}

/// An input event; whatever is no key press is `Other`.
#[derive(Clone, Copy, Debug, PartialEq, Eq, Structural)]
pub enum Event {
    Key(KeyEvent),
    Other,
}

impl KeyModifiers {
    /// No modifier is held down.
    pub open spec fn none(self) -> bool {
        !self.shift && !self.control && !self.alt && !self.other
    }

    /// Shift is held down, and nothing else.
    pub open spec fn only_shift(self) -> bool {
        self.shift && !self.control && !self.alt && !self.other
    }

    /// Control is held down, and nothing else.
    pub open spec fn only_control(self) -> bool {
        !self.shift && self.control && !self.alt && !self.other
    }
}

impl KeyEvent {
    /// Tab alone, or with shift.
    pub open spec fn switches_focus(self) -> bool {
        self.code == KeyCode::Tab && (self.modifiers.none() || self.modifiers.only_shift())
    }

    /// Control and the letter `c`.
    pub open spec fn is_ctrl(self, c: char) -> bool {
        self.code == KeyCode::Char(c) && self.modifiers.only_control()
    }
}

/// A way through the list of matches.
#[derive(Clone, Copy, Debug, PartialEq, Eq, Structural)]
pub enum Direction {
    Forward,
    Backward,
}

/// What a key does before any input field sees it.
#[derive(Clone, Copy, Debug, PartialEq, Eq, Structural)]
pub enum Shortcut {
    SwitchFocus,
    Move(Direction),
}

/// The shortcut that an event triggers, if it triggers one.
pub open spec fn shortcut_of(event: Event) -> Option<Shortcut> {
    match event {
        Event::Key(key) => if key.switches_focus() {
            Some(Shortcut::SwitchFocus)
        } else if key.is_ctrl('j') {
            Some(Shortcut::Move(Direction::Forward))
        } else if key.is_ctrl('k') {
            Some(Shortcut::Move(Direction::Backward))
        } else {
            None
        },
        Event::Other => None,
    }
}

/// The shortcut that `event` triggers, if it triggers one.
pub fn shortcut(event: &Event) -> (shortcut: Option<Shortcut>)
    ensures
        shortcut == shortcut_of(*event),
{
    match event {
        Event::Other => None,
        Event::Key(key) => {
            let held: KeyModifiers = key.modifiers;
            if held.alt || held.other {
                return None;
            }
            match key.code {
                KeyCode::Tab => if held.control {
                    None
                } else {
                    Some(Shortcut::SwitchFocus)
                },
                KeyCode::Char(c) => if !held.control || held.shift {
                    None
                } else if c == 'j' {
                    Some(Shortcut::Move(Direction::Forward))
                } else if c == 'k' {
                    Some(Shortcut::Move(Direction::Backward))
                } else {
                    None
                },
                KeyCode::Other => None,
            }
        },
    }
}

/// The shortcuts, key by key: Tab switches the focus, alone or with shift, and control with `j` or
/// `k` moves; any other modifier, and any other event, makes it no shortcut.
pub proof fn these_keys_are_shortcuts(code: KeyCode, modifiers: KeyModifiers)
    ensures
        ({
            let found = shortcut_of(Event::Key(KeyEvent { code, modifiers }));
            &&& found == Some(Shortcut::SwitchFocus) <==> code == KeyCode::Tab
                && !modifiers.control && !modifiers.alt && !modifiers.other
            &&& found == Some(Shortcut::Move(Direction::Forward)) <==> code == KeyCode::Char('j')
                && modifiers.control && !modifiers.shift && !modifiers.alt && !modifiers.other
            &&& found == Some(Shortcut::Move(Direction::Backward)) <==> code == KeyCode::Char('k')
                && modifiers.control && !modifiers.shift && !modifiers.alt && !modifiers.other
        }),
        shortcut_of(Event::Other) is None,
{
}

} // verus!

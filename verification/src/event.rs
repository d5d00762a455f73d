//! Terminal input events, reduced to what the chat reads of them.

use vstd::prelude::*;

verus! {

/// The key of a key event.
#[derive(Clone, Copy, Debug, PartialEq, Eq)]
pub enum KeyCode {
    /// A character key, with the character it produces.
    Char(char),
    /// The Enter key.
    Enter,
    /// The Backspace key.
    Backspace,
    /// Any other key.
    Other,
}

/// The modifier keys held down during a key event, one flag for each.
#[derive(Clone, Copy, Debug, PartialEq, Eq)]
pub struct KeyModifiers {
    pub shift: bool,
    pub control: bool,
    pub alt: bool,
    pub super_key: bool,
    pub hyper: bool,
    pub meta: bool,
}

impl KeyModifiers {
    /// No modifier is held.
    pub open spec fn spec_is_none(&self) -> bool {
        !self.shift && !self.control && !self.alt && !self.super_key && !self.hyper && !self.meta
    }

    /// Shift is held and nothing else.
    pub open spec fn spec_is_shift(&self) -> bool {
        self.shift && !self.control && !self.alt && !self.super_key && !self.hyper && !self.meta
    }

    /// Control is held and nothing else.
    pub open spec fn spec_is_control(&self) -> bool {
        !self.shift && self.control && !self.alt && !self.super_key && !self.hyper && !self.meta
    }

    /// Whether no modifier is held.
    #[verifier::when_used_as_spec(spec_is_none)]
    pub fn is_none(&self) -> (b: bool)
        ensures
            b == self.spec_is_none(),
    {
        !self.shift && !self.control && !self.alt && !self.super_key && !self.hyper && !self.meta
    }

    /// Whether Shift is held and nothing else.
    #[verifier::when_used_as_spec(spec_is_shift)]
    pub fn is_shift(&self) -> (b: bool)
        ensures
            b == self.spec_is_shift(),
    {
        self.shift && !self.control && !self.alt && !self.super_key && !self.hyper && !self.meta
    }

    /// Whether Control is held and nothing else.
    #[verifier::when_used_as_spec(spec_is_control)]
    pub fn is_control(&self) -> (b: bool)
        ensures
            b == self.spec_is_control(),
    {
        !self.shift && self.control && !self.alt && !self.super_key && !self.hyper && !self.meta
    }

    /// The empty set of modifiers.
    pub fn none() -> (m: KeyModifiers)
        ensures
            m.is_none(),
    {
        KeyModifiers {
            shift: false,
            control: false,
            alt: false,
            super_key: false,
            hyper: false,
            meta: false,
        }
    }

    /// Shift alone.
    pub fn shift() -> (m: KeyModifiers)
        ensures
            m.is_shift(),
    {
        KeyModifiers {
            shift: true,
            control: false,
            alt: false,
            super_key: false,
            hyper: false,
            meta: false,
        }
    }

    /// Control alone.
    pub fn control() -> (m: KeyModifiers)
        ensures
            m.is_control(),
    {
        KeyModifiers {
            shift: false,
            control: true,
            alt: false,
            super_key: false,
            hyper: false,
            meta: false,
        }
    }
}

/// One key event: a key and the modifiers held with it.
#[derive(Clone, Copy, Debug, PartialEq, Eq)]
pub struct KeyEvent {
    pub code: KeyCode,
    pub modifiers: KeyModifiers,
}

impl KeyEvent {
    /// The event asks to quit: the character `c` with Control alone.
    pub open spec fn spec_is_quit(&self) -> bool {
        self.code == KeyCode::Char('c') && self.modifiers.is_control()
    }

    /// The character that the event types, if it types one: that of a
    /// character key pressed with no modifier or with Shift alone.
    pub open spec fn spec_typed(&self) -> Option<char> {
        match self.code {
            KeyCode::Char(c) => if self.modifiers.is_none() || self.modifiers.is_shift() {
                Some(c)
            } else {
                None
            },
            _ => None,
        }
    }

    /// Whether the event asks to quit.
    #[verifier::when_used_as_spec(spec_is_quit)]
    pub fn is_quit(&self) -> (b: bool)
        ensures
            b == self.spec_is_quit(),
    {
        match self.code {
            KeyCode::Char(c) => c == 'c' && self.modifiers.is_control(),
            _ => false,
        }
    }

    /// The character that the event types, if it types one.
    #[verifier::when_used_as_spec(spec_typed)]
    pub fn typed(&self) -> (typed: Option<char>)
        ensures
            typed == self.spec_typed(),
    {
        match self.code {
            KeyCode::Char(c) => if self.modifiers.is_none() || self.modifiers.is_shift() {
                Some(c)
            } else {
                None
            },
            _ => None,
        }
    }

    /// A key event from its two parts.
    pub fn new(code: KeyCode, modifiers: KeyModifiers) -> (event: KeyEvent)
        ensures
            event.code == code,
            event.modifiers == modifiers,
    {
        KeyEvent { code, modifiers }
    }
}

/// One terminal input event.
#[derive(Clone, Copy, Debug, PartialEq, Eq)]
pub enum Event {
    /// A key event.
    Key(KeyEvent),
    /// Anything else: a resize, the mouse, a change of focus, pasted text, or
    /// an event that could not be read.
    Other,
}

impl Event {
    /// The character that the event types, if it types one.
    pub open spec fn typed(self) -> Option<char> {
        match self {
            Event::Key(key) => key.typed(),
            Event::Other => None,
        }
    }

    /// The event is a key event that asks to quit.
    pub open spec fn is_quit(self) -> bool {
        match self {
            Event::Key(key) => key.is_quit(),
            Event::Other => false,
        }
    }
}

/// No key event both asks to quit and types a character.
pub proof fn lemma_quit_types_nothing(key: KeyEvent)
    requires
        key.is_quit(),
    ensures
        key.typed() is None,
{
}

} // verus!

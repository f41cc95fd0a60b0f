//! Plain representations of the key events the shell dispatches on.

use vstd::prelude::*;

verus! {

/// A physical key press, reduced to what the shell's routing needs:
/// a printable character, one of the few named keys the shortcuts use,
/// or anything else.
#[derive(Clone, Copy, PartialEq, Eq, Structural, Debug)]
pub enum Key {
    /// A printable character key, as delivered by the toolkit.
    Char(char),
    /// The Escape key.
    Escape,
    /// The Return (Enter) key.
    Return,
    /// The Down arrow key.
    Down,
    /// The Up arrow key.
    Up,
    /// Any key the shortcuts never inspect.
    Other,
}

/// The modifier state delivered with a key press.
///
/// `other` stands for any modifier besides Shift and Control (Alt, Super,
/// lock states the toolkit reports): the shell only ever needs to know
/// whether the press was unmodified, shifted, or control-modified.
#[derive(Clone, Copy, PartialEq, Eq, Structural, Debug)]
pub struct Modifiers {
    pub shift: bool,
    pub ctrl: bool,
    pub other: bool,
}

impl Modifiers {
    /// True when no modifier at all is held.
    pub open spec fn spec_is_empty(self) -> bool {
        !self.shift && !self.ctrl && !self.other
    }

    /// An unmodified press.
    #[verifier::when_used_as_spec(spec_is_empty)]
    pub fn is_empty(self) -> (r: bool)
        ensures
            r == self.spec_is_empty(),
    {
        !self.shift && !self.ctrl && !self.other
    }

    /// The empty modifier state.
    pub fn none() -> (r: Modifiers)
        ensures
            r.spec_is_empty(),
    {
        Modifiers { shift: false, ctrl: false, other: false }
    }

    /// A Shift-only modifier state.
    pub fn shift_only() -> (r: Modifiers)
        ensures
            r.shift && !r.ctrl && !r.other,
    {
        Modifiers { shift: true, ctrl: false, other: false }
    }
}

} // verus!

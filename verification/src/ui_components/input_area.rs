//! Which characters a text field takes.

use vstd::prelude::*;

verus! {

/// Whether `ch` is one of the ten ASCII digits.
pub open spec fn is_digit(ch: char) -> bool {
    '0' <= ch <= '9'
}

/// Whether `ch` is an ASCII digit or an ASCII letter of either case.
pub open spec fn is_alphanumeric(ch: char) -> bool {
    is_digit(ch) || 'a' <= ch <= 'z' || 'A' <= ch <= 'Z'
}

/// What a text field is for.
#[derive(Debug, Clone, Copy, PartialEq, Eq, Hash, Structural)]
pub enum InputAreaType {
    All,
    Number,
    NumAlpha,
    IpAddress,
    MacAddress,
}

impl InputAreaType {
    /// Whether a field of this kind takes `ch`.
    pub open spec fn accepts(self, ch: char) -> bool {
        match self {
            InputAreaType::All => true,
            InputAreaType::Number => is_digit(ch),
            InputAreaType::NumAlpha => is_alphanumeric(ch),
            InputAreaType::IpAddress => is_digit(ch) || ch == '.',
            InputAreaType::MacAddress => is_alphanumeric(ch) || ch == ':',
        }
    }

    pub fn is_match(&self, ch: char) -> (ok: bool)
        ensures
            ok == self.accepts(ch),
    {
        let digit = '0' <= ch && ch <= '9';
        let letter = ('a' <= ch && ch <= 'z') || ('A' <= ch && ch <= 'Z');
        match self {
            InputAreaType::All => true,
            InputAreaType::Number => digit,
            InputAreaType::NumAlpha => digit || letter,
            InputAreaType::IpAddress => digit || ch == '.',
            InputAreaType::MacAddress => digit || letter || ch == ':',
        }
    }
}

impl Default for InputAreaType {
    fn default() -> (kind: Self)
        ensures
            kind == InputAreaType::All,
    {
        InputAreaType::All
    }
}

/// A text field.
#[derive(Debug, Clone, Copy, PartialEq, Eq, Hash, Structural)]
pub struct InputArea {
    pub area_type: InputAreaType,
}

impl Default for InputArea {
    fn default() -> (area: Self)
        ensures
            area.area_type == InputAreaType::All,
    {
        InputArea { area_type: InputAreaType::All }
    }
}

} // verus!

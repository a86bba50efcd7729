use vstd::prelude::*;

verus! {

/// The keys that the panes react to. Every other key is `Other`.
#[derive(Debug, Clone, Copy, PartialEq, Eq, Structural)]
pub enum KeyCode {
    Backspace,
    Enter,
    Left,
    Right,
    Up,
    Down,
    Delete,
    Char(char),
    Other,
}

/// A lowercase ASCII letter.
pub open spec fn is_lower_letter(c: char) -> bool {
    'a' <= c <= 'z'
}

impl KeyCode {
    /// Whether the key types a lowercase letter, that is, lies in the range
    /// `Char('a')..=Char('z')` of key codes.
    pub open spec fn is_letter_key(self) -> bool {
        self matches KeyCode::Char(c) && is_lower_letter(c)
    }

    /// The key that moves a selection up: the up arrow or `k`.
    pub open spec fn is_up_key(self) -> bool {
        self == KeyCode::Up || self == KeyCode::Char('k')
    }

    /// The key that moves a selection down: the down arrow or `j`.
    pub open spec fn is_down_key(self) -> bool {
        self == KeyCode::Down || self == KeyCode::Char('j')
    }

    /// Returns the letter that the key types, if it types a lowercase letter.
    pub fn letter(&self) -> (r: Option<char>)
        ensures
            r is Some <==> self.is_letter_key(),
            r matches Some(c) ==> *self == KeyCode::Char(c),
    {
        match self {
            KeyCode::Char(c) => {
                if 'a' <= *c && *c <= 'z' {
                    Some(*c)
                } else {
                    None
                }
            },
            _ => None,
        }
    }

    pub fn is_up(&self) -> (r: bool)
        ensures
            r == self.is_up_key(),
    {
        match self {
            KeyCode::Up => true,
            KeyCode::Char(c) => *c == 'k',
            _ => false,
        }
    }

    pub fn is_down(&self) -> (r: bool)
        ensures
            r == self.is_down_key(),
    {
        match self {
            KeyCode::Down => true,
            KeyCode::Char(c) => *c == 'j',
            _ => false,
        }
    }
}

} // verus!

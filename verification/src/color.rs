//! The two sides of a game.

use vstd::prelude::*;
use vstd::string::*;

verus! {

/// One of the two sides. Only equality and the other side matter.
#[derive(Hash, Eq, PartialEq, Clone, Copy, Debug, Structural)]
pub enum Color {
    Black,
    White,
}

/// A token that names no side.
#[derive(Clone, Copy, Debug, PartialEq, Eq, Structural)]
pub enum DecodeError {
    UnknownToken,
}

impl Color {
    /// The other side.
    pub open spec fn other(self) -> Color {
        match self {
            Color::Black => Color::White,
            Color::White => Color::Black,
        }
    }

    /// The one-character text that stands for a side.
    pub open spec fn code(self) -> Seq<char> {
        match self {
            Color::Black => seq!['b'],
            Color::White => seq!['w'],
        }
    }

    /// The side that a text stands for, if any.
    pub open spec fn decoded(s: Seq<char>) -> Option<Color> {
        if s == seq!['w'] {
            Some(Color::White)
        } else if s == seq!['b'] {
            Some(Color::Black)
        } else {
            None
        }
    }

    /// The other side.
    pub fn opposite(&self) -> (side: Color)
        ensures
            side == self.other(),
    {
        match self {
            Self::Black => Self::White,
            Self::White => Self::Black,
        }
    }

    /// Decodes a text, or says that it names no side. Nothing is assumed in
    /// place of an unknown token.
    pub fn decode(s: &str) -> (r: Result<Color, DecodeError>)
        ensures
            match Color::decoded(s@) {
                Some(side) => r == Ok::<Color, DecodeError>(side),
                None => r == Err::<Color, DecodeError>(DecodeError::UnknownToken),
            },
    {
        if s.unicode_len() != 1 {
            return Err(DecodeError::UnknownToken);
        }
        let c = s.get_char(0);
        if c == 'w' {
            assert(s@ =~= seq!['w']);
            Ok(Color::White)
        } else if c == 'b' {
            assert(s@ =~= seq!['b']);
            Ok(Color::Black)
        } else {
            Err(DecodeError::UnknownToken)
        }
    }

    /// Decodes a text that is known to name a side.
    pub fn from_str(s: &str) -> (side: Color)
        requires
            Color::decoded(s@) is Some,
        ensures
            Color::decoded(s@) == Some(side),
    {
        if s.get_char(0) == 'w' {
            Color::White
        } else {
            Color::Black
        }
    }

    /// The text that stands for this side.
    pub fn as_str(&self) -> (text: &'static str)
        ensures
            text@ == self.code(),
    {
        proof {
            reveal_strlit("w");
            reveal_strlit("b");
        }
        match self {
            Color::White => {
                let text = "w";
                assert(text@ =~= seq!['w']);
                text
            },
            Color::Black => {
                let text = "b";
                assert(text@ =~= seq!['b']);
                text
            },
        }
    }

    /// The text that stands for this side, owned.
    pub fn to_text(&self) -> (text: String)
        ensures
            text@ == self.code(),
    {
        String::from_str(self.as_str())
    }

    /// Taking the other side twice gives the side back.
    pub proof fn opposite_is_involutive(side: Color)
        ensures
            side.other().other() == side,
            side.other() != side,
    {
    }

    /// The text of a side decodes to that side, and a text decodes only if
    /// it is the text of the side it decodes to.
    pub proof fn decode_inverts_code(side: Color, s: Seq<char>)
        ensures
            Color::decoded(side.code()) == Some(side),
            Color::decoded(s) == Some(side) <==> s == side.code(),
    {
        assert(seq!['w'] != seq!['b']) by {
            assert(seq!['w'][0] == 'w');
            assert(seq!['b'][0] == 'b');
        }
    }
}

impl Default for Color {
    /// A placeholder for filling in composite values; it carries no meaning.
    fn default() -> (side: Color)
        ensures
            side == Color::Black,
    {
        Color::Black
    }
}

} // verus!

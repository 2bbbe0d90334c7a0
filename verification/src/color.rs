//! The palette: six named colours, their display names and their input tokens.

use vstd::prelude::*;

verus! {

/// One peg colour. Colours have no order; only equality matters.
#[derive(Debug, PartialEq, Eq, Hash, Clone, Copy, Structural)]
pub enum Color {
    Red,
    Blue,
    Green,
    Yellow,
    Purple,
    Orange,
}

impl Color {
    /// The capitalised name under which a colour is shown.
    pub open spec fn name(self) -> Seq<char> {
        match self {
            Color::Red => "Red"@,
            Color::Blue => "Blue"@,
            Color::Green => "Green"@,
            Color::Yellow => "Yellow"@,
            Color::Purple => "Purple"@,
            Color::Orange => "Orange"@,
        }
    }

    /// The display name as a string slice.
    pub fn as_str(&self) -> (s: &'static str)
        ensures
            s@ == self.name(),
    {
        match self {
            Color::Red => "Red",
            Color::Blue => "Blue",
            Color::Green => "Green",
            Color::Yellow => "Yellow",
            Color::Purple => "Purple",
            Color::Orange => "Orange",
        }
    }

    /// The display name as an owned string.
    pub fn to_string(&self) -> (s: String)
        ensures
            s@ == self.name(),
    {
        String::from_str(self.as_str())
    }

    /// The colour that a token names: one of the six lower-case names, letter
    /// for letter, and nothing else.
    pub open spec fn of_token(token: Seq<char>) -> Option<Color> {
        if token == "red"@ {
            Some(Color::Red)
        } else if token == "blue"@ {
            Some(Color::Blue)
        } else if token == "green"@ {
            Some(Color::Green)
        } else if token == "yellow"@ {
            Some(Color::Yellow)
        } else if token == "purple"@ {
            Some(Color::Purple)
        } else if token == "orange"@ {
            Some(Color::Orange)
        } else {
            None
        }
    }

    /// Looks a token up among the six lower-case colour names. The token is
    /// taken as it stands: no trimming, no change of case.
    pub fn from_token(token: &str) -> (found: Option<Color>)
        ensures
            found == Color::of_token(token@),
    {
        let token = String::from_str(token);
        if token == String::from_str("red") {
            Some(Color::Red)
        } else if token == String::from_str("blue") {
            Some(Color::Blue)
        } else if token == String::from_str("green") {
            Some(Color::Green)
        } else if token == String::from_str("yellow") {
            Some(Color::Yellow)
        } else if token == String::from_str("purple") {
            Some(Color::Purple)
        } else if token == String::from_str("orange") {
            Some(Color::Orange)
        } else {
            None
        }
    }
}

/// The characters of the slice that `str::trim` returns for a string with the
/// characters `s`: `s` without its leading and trailing Unicode white space.
pub uninterp spec fn trimmed(s: Seq<char>) -> Seq<char>;

/// `str::trim` returns a sub-slice that depends on the characters of its
/// argument alone; the contract only gives that slice its name.
pub assume_specification[ str::trim ](s: &str) -> (r: &str)
    ensures
        r@ == trimmed(s@),
;

/// The characters of the string that `str::to_lowercase` returns for a string
/// with the characters `s`: its lower-case equivalent under Unicode's default
/// case mapping.
pub uninterp spec fn lowercased(s: Seq<char>) -> Seq<char>;

/// `str::to_lowercase` builds a new string that depends on the characters of
/// its argument alone; the contract only gives that string its name.
pub assume_specification[ str::to_lowercase ](s: &str) -> (r: String)
    ensures
        r@ == lowercased(s@),
;

/// The message that goes with a rejected colour token.
pub open spec fn invalid_color_message() -> Seq<char> {
    "Invalid color, please try again."@
}

/// What a line of input means once it is trimmed and put in lower case.
pub open spec fn color_of_input(input: Seq<char>) -> Option<Color> {
    Color::of_token(lowercased(trimmed(input)))
}

/// Reads a colour from a line of input, ignoring surrounding white space and
/// the case of the letters. Any other input is rejected with a fixed message.
pub fn get_color_from_input(input: &str) -> (parsed: Result<Color, &'static str>)
    ensures
        match color_of_input(input@) {
            Some(color) => parsed == Ok::<Color, &'static str>(color),
            None => parsed is Err && parsed->Err_0@ == invalid_color_message(),
        },
{
    let token = input.trim().to_lowercase();
    match Color::from_token(token.as_str()) {
        Some(color) => Ok(color),
        None => Err("Invalid color, please try again."),
    }
}

} // verus!

//! Game generations and the generation each entry first appeared in.

use vstd::prelude::*;
use vstd::string::StringExecFns;

use crate::names::push_char;

verus! {

/// A game generation, oldest first.
#[derive(Clone, Copy, Debug, PartialEq, Eq, Hash, Structural)]
pub enum Generation {
    One,
    Two,
    Three,
    Four,
    Five,
    Six,
    Seven,
    Eight,
    Nine,
}

/// The newest generation the catalog knows.
pub const LATEST_GENERATION: Generation = Generation::Nine;

/// A value that names no generation; holds the value as written.
#[derive(Debug)]
pub struct NotAGeneration(pub String);

impl NotAGeneration {
    /// The error as a sentence: `'<value>' is not a generation`.
    pub fn message(&self) -> (r: String)
        ensures
            r@ == "'"@ + self.0@ + "' is not a generation"@,
    {
        let mut s = String::from_str("'");
        s.append(self.0.as_str());
        s.append("' is not a generation");
        s
    }
}

/// The decimal digit `d` (0 to 9).
pub open spec fn digit(d: int) -> char {
    ((48 + d) as u8) as char
}

/// `n` written in decimal, without leading zeros.
pub open spec fn decimal(n: u8) -> Seq<char> {
    if n >= 100 {
        seq![digit(n as int / 100), digit(n as int / 10 % 10), digit(n as int % 10)]
    } else if n >= 10 {
        seq![digit(n as int / 10), digit(n as int % 10)]
    } else {
        seq![digit(n as int)]
    }
}

fn decimal_string(n: u8) -> (r: String)
    ensures
        r@ == decimal(n),
{
    let mut s = String::new();
    if n >= 100 {
        push_char(&mut s, (48 + n / 100) as char);
    }
    if n >= 10 {
        push_char(&mut s, (48 + n / 10 % 10) as char);
    }
    push_char(&mut s, (48 + n % 10) as char);
    proof {
        if n >= 100 {
            assert(s@ =~= decimal(n));
        } else if n >= 10 {
            assert(s@ =~= decimal(n));
        } else {
            assert(s@ =~= decimal(n));
        }
    }
    s
}

/// JSON whitespace: space, tab, line feed and carriage return.
pub open spec fn is_json_space(c: char) -> bool {
    c == ' ' || c == '\t' || c == '\n' || c == '\r'
}

pub open spec fn json_spaces(s: Seq<char>) -> bool {
    forall|i: int| 0 <= i < s.len() ==> is_json_space(#[trigger] s[i])
}

/// Whether a text is the JSON integer `n`: its decimal digits without leading
/// zeros or sign, with JSON whitespace on either side.
pub open spec fn is_json_u8(s: Seq<char>, n: u8) -> bool {
    exists|a: Seq<char>, b: Seq<char>|
        #![trigger json_spaces(a), json_spaces(b)]
        json_spaces(a) && json_spaces(b) && s == a + decimal(n) + b
}

/// Relies on `serde_json::from_str::<u8>`: succeeds exactly on a JSON integer
/// from 0 to 255 with optional surrounding whitespace, and gives its value.
/// Signs, fractions, exponents, leading zeros, larger numbers and other
/// trailing characters are refused.
#[verifier::external_body]
fn parse_json_u8(s: &str) -> (r: Option<u8>)
    ensures
        forall|n: u8| #[trigger] is_json_u8(s@, n) <==> r == Some(n),
{
    serde_json::from_str::<u8>(s).ok()
}

/// The generation numbered `n`, if any.
pub open spec fn generation_of(n: u8) -> Option<Generation> {
    match n {
        1 => Some(Generation::One),
        2 => Some(Generation::Two),
        3 => Some(Generation::Three),
        4 => Some(Generation::Four),
        5 => Some(Generation::Five),
        6 => Some(Generation::Six),
        7 => Some(Generation::Seven),
        8 => Some(Generation::Eight),
        9 => Some(Generation::Nine),
        _ => None,
    }
}

/// The generation that introduced the move numbered `num` (positive).
pub open spec fn move_generation_of(num: i32) -> Generation {
    if num >= 827 {
        Generation::Nine
    } else if num >= 743 {
        Generation::Eight
    } else if num >= 622 {
        Generation::Seven
    } else if num >= 560 {
        Generation::Six
    } else if num >= 468 {
        Generation::Five
    } else if num >= 355 {
        Generation::Four
    } else if num >= 252 {
        Generation::Three
    } else if num >= 166 {
        Generation::Two
    } else {
        Generation::One
    }
}

/// The generation that introduced the species numbered `num` (positive).
pub open spec fn species_generation_of(num: i32) -> Generation {
    if num >= 906 {
        Generation::Nine
    } else if num >= 810 {
        Generation::Eight
    } else if num >= 722 {
        Generation::Seven
    } else if num >= 650 {
        Generation::Six
    } else if num >= 494 {
        Generation::Five
    } else if num >= 387 {
        Generation::Four
    } else if num >= 252 {
        Generation::Three
    } else if num >= 152 {
        Generation::Two
    } else {
        Generation::One
    }
}

pub fn move_generation(num: i32) -> (r: Generation)
    ensures
        r == move_generation_of(num),
{
    if num >= 827 {
        Generation::Nine
    } else if num >= 743 {
        Generation::Eight
    } else if num >= 622 {
        Generation::Seven
    } else if num >= 560 {
        Generation::Six
    } else if num >= 468 {
        Generation::Five
    } else if num >= 355 {
        Generation::Four
    } else if num >= 252 {
        Generation::Three
    } else if num >= 166 {
        Generation::Two
    } else {
        Generation::One
    }
}

pub fn species_generation(num: i32) -> (r: Generation)
    ensures
        r == species_generation_of(num),
{
    if num >= 906 {
        Generation::Nine
    } else if num >= 810 {
        Generation::Eight
    } else if num >= 722 {
        Generation::Seven
    } else if num >= 650 {
        Generation::Six
    } else if num >= 494 {
        Generation::Five
    } else if num >= 387 {
        Generation::Four
    } else if num >= 252 {
        Generation::Three
    } else if num >= 152 {
        Generation::Two
    } else {
        Generation::One
    }
}

impl Generation {
    /// The generation's number, 1 to 9.
    pub open spec fn spec_number(self) -> int {
        match self {
            Generation::One => 1,
            Generation::Two => 2,
            Generation::Three => 3,
            Generation::Four => 4,
            Generation::Five => 5,
            Generation::Six => 6,
            Generation::Seven => 7,
            Generation::Eight => 8,
            Generation::Nine => 9,
        }
    }

    pub fn number(self) -> (r: u8)
        ensures
            r == self.spec_number(),
    {
        match self {
            Generation::One => 1,
            Generation::Two => 2,
            Generation::Three => 3,
            Generation::Four => 4,
            Generation::Five => 5,
            Generation::Six => 6,
            Generation::Seven => 7,
            Generation::Eight => 8,
            Generation::Nine => 9,
        }
    }

    /// The generation numbered `value`; the error holds `value` in decimal.
    pub fn try_from(value: u8) -> (r: Result<Generation, NotAGeneration>)
        ensures
            r is Ok <==> generation_of(value) is Some,
            r matches Ok(g) ==> generation_of(value) == Some(g) && g.spec_number() == value,
            r matches Err(e) ==> e.0@ == decimal(value),
    {
        match value {
            1 => Ok(Generation::One),
            2 => Ok(Generation::Two),
            3 => Ok(Generation::Three),
            4 => Ok(Generation::Four),
            5 => Ok(Generation::Five),
            6 => Ok(Generation::Six),
            7 => Ok(Generation::Seven),
            8 => Ok(Generation::Eight),
            9 => Ok(Generation::Nine),
            _ => Err(NotAGeneration(decimal_string(value))),
        }
    }

    /// The generation whose number a JSON text holds; the error holds the text.
    pub fn try_from_str(value: &str) -> (r: Result<Generation, NotAGeneration>)
        ensures
            forall|n: u8|
                #[trigger] is_json_u8(value@, n) ==> match generation_of(n) {
                    Some(g) => r == Ok::<Generation, NotAGeneration>(g),
                    None => r is Err,
                },
            (forall|n: u8| !#[trigger] is_json_u8(value@, n)) ==> r is Err,
            r matches Err(e) ==> e.0@ == value@,
    {
        match parse_json_u8(value) {
            Some(n) => {
                proof {
                    assert(is_json_u8(value@, n));
                }
                match Generation::try_from(n) {
                    Ok(g) => Ok(g),
                    Err(_) => Err(NotAGeneration(String::from_str(value))),
                }
            },
            None => Err(NotAGeneration(String::from_str(value))),
        }
    }

    /// The generation after this one; `None` for the latest.
    pub fn next_generation(self) -> (r: Option<Generation>)
        ensures
            r is None <==> self == LATEST_GENERATION,
            r is Some ==> r->Some_0.spec_number() == self.spec_number() + 1,
    {
        match self {
            Generation::One => Some(Generation::Two),
            Generation::Two => Some(Generation::Three),
            Generation::Three => Some(Generation::Four),
            Generation::Four => Some(Generation::Five),
            Generation::Five => Some(Generation::Six),
            Generation::Six => Some(Generation::Seven),
            Generation::Seven => Some(Generation::Eight),
            Generation::Eight => Some(Generation::Nine),
            Generation::Nine => None,
        }
    }
}

} // verus!

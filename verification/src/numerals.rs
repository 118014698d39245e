//! Presentation: the six Japanese numeral tokens used to announce die
//! faces, mapped one-to-one from face values 1 through 6.

use vstd::prelude::*;

verus! {

/// A Japanese numeral token for a die face.
#[derive(PartialEq, Eq, Structural, Clone, Copy, Debug)]
pub enum Number {
    ICHI,
    NI,
    SAN,
    SHI,
    GO,
    ROKU,
}

/// The numeral token for a face value, or `None` outside 1 through 6.
pub open spec fn japanese_number_of(number: u8) -> Option<Number> {
    match number {
        1u8 => Some(Number::ICHI),
        2u8 => Some(Number::NI),
        3u8 => Some(Number::SAN),
        4u8 => Some(Number::SHI),
        5u8 => Some(Number::GO),
        6u8 => Some(Number::ROKU),
        _ => None,
    }
}

/// Maps a die face to its numeral token: `Some` exactly for faces 1
/// through 6, `None` for any other value.
pub fn get_japanese_number(number: u8) -> (r: Option<Number>)
    ensures
        r == japanese_number_of(number),
        r is Some <==> 1 <= number <= 6,
{
    match number {
        1 => Some(Number::ICHI),
        2 => Some(Number::NI),
        3 => Some(Number::SAN),
        4 => Some(Number::SHI),
        5 => Some(Number::GO),
        6 => Some(Number::ROKU),
        _ => None,
    }
}

/// Distinct faces in 1 through 6 get distinct numeral tokens.
pub proof fn lemma_japanese_numbers_distinct(a: u8, b: u8)
    requires
        1 <= a <= 6,
        1 <= b <= 6,
        a != b,
    ensures
        japanese_number_of(a) != japanese_number_of(b),
{
}

impl Number {
    /// The token's display name, as announced at the dice reveal.
    pub fn name(&self) -> (r: &'static str)
        ensures
            r@ == match self {
                Number::ICHI => "ICHI"@,
                Number::NI => "NI"@,
                Number::SAN => "SAN"@,
                Number::SHI => "SHI"@,
                Number::GO => "GO"@,
                Number::ROKU => "ROKU"@,
            },
    {
        match self {
            Number::ICHI => "ICHI",
            Number::NI => "NI",
            Number::SAN => "SAN",
            Number::SHI => "SHI",
            Number::GO => "GO",
            Number::ROKU => "ROKU",
        }
    }
}

} // verus!

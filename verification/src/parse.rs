//! Input parsing: turning a trimmed, upper-cased input line into a bet-phase
//! command or a parity guess.
//!
//! The bet-phase parser mirrors `u64::from_str`: a numeral is an optional
//! leading `'+'` followed by one or more ASCII digits, with a value that
//! fits in a `u64`; anything else fails to parse and is treated as a bet of
//! zero, which is re-prompted.

use vstd::prelude::*;
use vstd::string::*;

use crate::dice::Parity;
use crate::purse::Purse;

verus! {

/// A parsed bet-phase command: quit the game, place a bet, or re-prompt
/// the player after invalid input.
#[derive(PartialEq, Eq, Structural, Clone, Copy, Debug)]
pub enum Command {
    QUIT,
    BET(u64),
    PROMPT,
}

/// An ASCII decimal digit.
pub open spec fn is_digit(c: char) -> bool {
    48 <= c as int <= 57
}

/// The numeric value of an ASCII decimal digit.
pub open spec fn digit_val(c: char) -> int {
    c as int - 48
}

/// Every character of the sequence is an ASCII decimal digit.
pub open spec fn all_digits(s: Seq<char>) -> bool {
    forall|i: int| 0 <= i < s.len() ==> is_digit(#[trigger] s[i])
}

/// The value of a digit sequence read in base 10, most significant first.
pub open spec fn digits_value(s: Seq<char>) -> int
    decreases s.len(),
{
    if s.len() == 0 {
        0
    } else {
        digits_value(s.drop_last()) * 10 + digit_val(s.last())
    }
}

/// The digit part of a numeral: the whole sequence, or the rest after an
/// optional leading `'+'`.
pub open spec fn numeral_digits(s: Seq<char>) -> Seq<char> {
    if s.len() > 0 && s[0] == '+' {
        s.drop_first()
    } else {
        s
    }
}

/// Whether `u64::from_str` accepts the sequence: at least one digit after
/// the optional sign, digits only, and a value that fits in a `u64`.
pub open spec fn is_u64_numeral(s: Seq<char>) -> bool {
    let d = numeral_digits(s);
    d.len() > 0 && all_digits(d) && digits_value(d) <= u64::MAX
}

/// The value of an accepted numeral.
pub open spec fn numeral_value(s: Seq<char>) -> int {
    digits_value(numeral_digits(s))
}

/// The bet amount read from an input line: the numeral's value, or zero
/// when the line is not a numeral.
pub open spec fn parsed_bet(s: Seq<char>) -> int {
    if is_u64_numeral(s) {
        numeral_value(s)
    } else {
        0
    }
}

/// The quit token: the single letter `'Q'`.
pub open spec fn is_quit(s: Seq<char>) -> bool {
    s.len() == 1 && s[0] == 'Q'
}

/// What the bet-phase parser returns: `QUIT` on the quit token, `BET` on a
/// numeral between 1 and the balance, `PROMPT` on everything else.
pub open spec fn parse_command_spec(s: Seq<char>, balance: u64) -> Command {
    if is_quit(s) {
        Command::QUIT
    } else if 0 < parsed_bet(s) <= balance {
        Command::BET(parsed_bet(s) as u64)
    } else {
        Command::PROMPT
    }
}

/// A digit sequence has a non-negative value.
proof fn lemma_digits_value_nonneg(s: Seq<char>)
    requires
        all_digits(s),
    ensures
        digits_value(s) >= 0,
    decreases s.len(),
{
    if s.len() > 0 {
        assert(forall|i: int| 0 <= i < s.drop_last().len() ==> is_digit(#[trigger] s.drop_last()[i]));
        lemma_digits_value_nonneg(s.drop_last());
        assert(is_digit(s.last()));
    }
}

/// Extending a digit sequence never decreases its value: the value of a
/// prefix is a lower bound for the value of the whole.
proof fn lemma_digits_value_prefix_le(s: Seq<char>, i: int)
    requires
        0 <= i <= s.len(),
        all_digits(s),
    ensures
        digits_value(s.subrange(0, i)) <= digits_value(s),
    decreases s.len() - i,
{
    if i == s.len() {
        assert(s.subrange(0, i) =~= s);
    } else {
        assert(s.subrange(0, i + 1).drop_last() =~= s.subrange(0, i));
        assert(s.subrange(0, i + 1).last() == s[i]);
        assert(forall|j: int| 0 <= j < s.subrange(0, i).len() ==> is_digit(#[trigger] s.subrange(0, i)[j]));
        lemma_digits_value_nonneg(s.subrange(0, i));
        assert(digits_value(s.subrange(0, i + 1))
            == digits_value(s.subrange(0, i)) * 10 + digit_val(s[i]));
        lemma_digits_value_prefix_le(s, i + 1);
    }
}

/// A line whose digits through position `i` already outvalue `u64::MAX`
/// is not an accepted numeral, whatever follows position `i`.
proof fn lemma_overfull_prefix_not_numeral(s: Seq<char>, start: int, i: int)
    requires
        start == 0 || start == 1,
        (start == 1) <==> (s.len() > 0 && s[0] == '+'),
        start <= i < s.len(),
        forall|j: int| start <= j <= i ==> is_digit(#[trigger] s[j]),
        digits_value(s.subrange(start, i + 1)) > u64::MAX,
    ensures
        !is_u64_numeral(s),
{
    let digits = numeral_digits(s);
    if all_digits(digits) {
        let k: int = i + 1 - start;
        assert(digits.subrange(0, k) =~= s.subrange(start, i + 1));
        lemma_digits_value_prefix_le(digits, k);
    }
}

/// Parses a base-10 `u64` numeral as `u64::from_str` does: an optional
/// leading `'+'`, then one or more ASCII digits, with a value at most
/// `u64::MAX`. Returns `None` for any other input.
pub fn parse_u64(input: &str) -> (r: Option<u64>)
    ensures
        r is Some <==> is_u64_numeral(input@),
        r matches Some(v) ==> v == numeral_value(input@),
{
    let ghost s = input@;
    let n = input.unicode_len();
    let start: usize = if n > 0 && input.get_char(0) == '+' {
        1
    } else {
        0
    };
    proof {
        assert(s.subrange(start as int, start as int) =~= Seq::<char>::empty());
    }
    if start >= n {
        // empty input, or a lone sign with no digits
        return None;
    }
    let mut acc: u64 = 0;
    let mut i: usize = start;
    while i < n
        invariant
            start == 0 || start == 1,
            start <= i <= n,
            n == s.len(),
            s == input@,
            start == 1 <==> s.len() > 0 && s[0] == '+',
            forall|j: int| start <= j < i ==> is_digit(#[trigger] s[j]),
            acc == digits_value(s.subrange(start as int, i as int)),
        decreases n - i,
    {
        let c = input.get_char(i);
        let v = c as u32;
        if v < 48 || v > 57 {
            // a non-digit: the whole line fails to parse
            assert(!is_digit(s[i as int]));
            assert(!all_digits(numeral_digits(s))) by {
                if start == 1 {
                    assert(numeral_digits(s)[i - 1] == s[i as int]);
                } else {
                    assert(numeral_digits(s)[i as int] == s[i as int]);
                }
            }
            return None;
        }
        let d = (v - 48) as u64;
        proof {
            assert(s.subrange(start as int, i + 1).drop_last() =~= s.subrange(
                start as int,
                i as int,
            ));
            assert(s.subrange(start as int, i + 1).last() == s[i as int]);
        }
        if acc > (u64::MAX - d) / 10 {
            // the numeral's value exceeds u64::MAX, so parsing fails
            proof {
                assert(acc * 10 + d > u64::MAX);
                assert(digits_value(s.subrange(start as int, i + 1)) == acc * 10 + digit_val(
                    s[i as int],
                ));
                lemma_overfull_prefix_not_numeral(s, start as int, i as int);
            }
            return None;
        }
        assert(acc * 10 + d <= u64::MAX);
        acc = acc * 10 + d;
        i += 1;
    }
    proof {
        if start == 1 {
            assert(s.subrange(1, n as int) =~= s.drop_first());
        } else {
            assert(s.subrange(0, n as int) =~= s);
        }
        assert(numeral_digits(s) =~= s.subrange(start as int, n as int));
    }
    Some(acc)
}

/// Parses a bet-phase input line against the current purse: the quit token
/// gives `QUIT`; a numeral between 1 and the balance gives `BET`; any
/// other line — non-numeric, zero, negative, fractional, or over the
/// balance — gives `PROMPT`.
pub fn parse_command_from_input(input: String, purse: &Purse) -> (c: Command)
    ensures
        c == parse_command_spec(input@, purse.0),
{
    let s = input.as_str();
    let n = s.unicode_len();
    if n == 1 && s.get_char(0) == 'Q' {
        Command::QUIT
    } else {
        let bet = match parse_u64(s) {
            Some(v) => v,
            None => 0,
        };
        if bet > 0 && bet <= purse.0 {
            Command::BET(bet)
        } else {
            Command::PROMPT
        }
    }
}

/// The token for an even guess: the line `CHO`.
pub open spec fn is_cho_token(s: Seq<char>) -> bool {
    s.len() == 3 && s[0] == 'C' && s[1] == 'H' && s[2] == 'O'
}

/// The token for an odd guess: the line `HAN`.
pub open spec fn is_han_token(s: Seq<char>) -> bool {
    s.len() == 3 && s[0] == 'H' && s[1] == 'A' && s[2] == 'N'
}

/// What the parity parser returns: `CHO` is even, `HAN` is odd, anything
/// else is rejected.
pub open spec fn parse_parity_spec(s: Seq<char>) -> Option<Parity> {
    if is_cho_token(s) {
        Some(Parity::CHO)
    } else if is_han_token(s) {
        Some(Parity::HAN)
    } else {
        None
    }
}

/// Parses a guess-phase input line: exactly `CHO` gives even, exactly
/// `HAN` gives odd, and any other line gives `None`.
pub fn parse_parity_from_input(input: String) -> (r: Option<Parity>)
    ensures
        r == parse_parity_spec(input@),
{
    let s = input.as_str();
    let n = s.unicode_len();
    if n != 3 {
        return None;
    }
    let c0 = s.get_char(0);
    let c1 = s.get_char(1);
    let c2 = s.get_char(2);
    if c0 == 'C' && c1 == 'H' && c2 == 'O' {
        Some(Parity::CHO)
    } else if c0 == 'H' && c1 == 'A' && c2 == 'N' {
        Some(Parity::HAN)
    } else {
        None
    }
}

} // verus!

//! Parsing and validation of command payloads.
//!
//! A command payload is the decimal ASCII text of an unsigned integer, with
//! an optional leading plus sign.  A payload whose text names no byte-sized
//! integer is malformed; one that names an integer above `MAX_DEGREE` is out
//! of range.  Either way the command is rejected and the actuator does not
//! move.

use vstd::prelude::*;
use vstd::arithmetic::mul::lemma_mul_inequality;
use crate::config::MAX_DEGREE;

verus! {

/// A validated position command: an angle the actuator may be driven to.
#[derive(Clone, Copy, Debug, PartialEq, Eq, Structural)]
pub struct PositionCommand {
    /// The commanded angle in degrees, at most `MAX_DEGREE`.
    pub degree: u8,
}

/// Why a payload was rejected.
#[derive(Clone, Copy, Debug, PartialEq, Eq, Structural)]
pub enum CommandError {
    /// The payload is not the decimal text of a byte-sized unsigned integer.
    Malformed,
    /// The payload names an integer above `MAX_DEGREE`; the named value is
    /// carried for reporting.
    TooLarge(u8),
}

/// `b` is a decimal digit.
pub open spec fn is_digit(b: u8) -> bool {
    48 <= b <= 57
}

/// Numeric value of the digit `b`.
pub open spec fn digit_value(b: u8) -> nat
    recommends
        is_digit(b),
{
    (b - 48) as nat
}

/// Every byte of `s` is a decimal digit.
pub open spec fn all_digits(s: Seq<u8>) -> bool {
    forall|i: int| 0 <= i < s.len() ==> is_digit(#[trigger] s[i])
}

/// Value of the digit string `s`, most significant digit first.
pub open spec fn dec_value(s: Seq<u8>) -> nat
    decreases s.len(),
{
    if s.len() == 0 {
        0
    } else {
        dec_value(s.drop_last()) * 10 + digit_value(s.last())
    }
}

/// The digits of a payload: everything after an optional leading plus sign.
pub open spec fn digits_of(s: Seq<u8>) -> Seq<u8> {
    if s.len() > 0 && s[0] == 43 {
        s.subrange(1, s.len() as int)
    } else {
        s
    }
}

/// The payload is the decimal text of an unsigned integer that fits in a
/// byte: an optional plus sign, then at least one digit, naming a value of
/// at most `u8::MAX`.
pub open spec fn parses(s: Seq<u8>) -> bool {
    &&& digits_of(s).len() > 0
    &&& all_digits(digits_of(s))
    &&& dec_value(digits_of(s)) <= u8::MAX
}

/// The integer a parsing payload names.
pub open spec fn payload_value(s: Seq<u8>) -> nat {
    dec_value(digits_of(s))
}

/// The payload names an angle the controller accepts.
pub open spec fn valid_command(s: Seq<u8>) -> bool {
    parses(s) && payload_value(s) <= MAX_DEGREE
}

/// The value of a digit string is at least the value of any of its prefixes:
/// every further digit multiplies the value before adding to it.
proof fn lemma_dec_value_prefix(s: Seq<u8>, k: int)
    requires
        0 <= k <= s.len(),
    ensures
        dec_value(s.subrange(0, k)) <= dec_value(s),
    decreases s.len() - k,
{
    if k == s.len() {
        assert(s.subrange(0, k) =~= s);
    } else {
        let t = s.drop_last();
        assert(s.subrange(0, k) =~= t.subrange(0, k));
        lemma_dec_value_prefix(t, k);
        lemma_mul_inequality(1, 10, dec_value(t) as int);
    }
}

/// Parse a payload into a validated position command.
///
/// Succeeds exactly on the payloads that name an angle of at most
/// `MAX_DEGREE`; every other payload is rejected with the reason.
pub fn parse_command(data: &[u8]) -> (r: Result<PositionCommand, CommandError>)
    ensures
        match r {
            Ok(cmd) => valid_command(data@) && cmd.degree as nat == payload_value(data@),
            Err(CommandError::Malformed) => !parses(data@),
            Err(CommandError::TooLarge(v)) => parses(data@) && payload_value(data@) == v as nat
                && v > MAX_DEGREE,
        },
{
    let n = data.len();
    let start: usize = if n > 0 && data[0] == 43 {
        1
    } else {
        0
    };
    proof {
        assert(digits_of(data@) =~= data@.subrange(start as int, n as int));
    }
    if start == n {
        return Err(CommandError::Malformed);
    }
    let mut value: u16 = 0;
    let mut i: usize = start;
    while i < n
        invariant
            start <= i <= n,
            n == data@.len(),
            digits_of(data@) == data@.subrange(start as int, n as int),
            all_digits(data@.subrange(start as int, i as int)),
            value as nat == dec_value(data@.subrange(start as int, i as int)),
            value <= u8::MAX,
        decreases n - i,
    {
        let b = data[i];
        if b < 48 || b > 57 {
            assert(!is_digit(digits_of(data@)[i - start]));
            return Err(CommandError::Malformed);
        }
        proof {
            let prefix = data@.subrange(start as int, i as int);
            let grown = data@.subrange(start as int, i as int + 1);
            assert(grown.drop_last() =~= prefix);
            assert(grown.last() == data@[i as int]);
        }
        let next: u16 = value * 10 + ((b - 48) as u16);
        if next > 255 {
            proof {
                lemma_dec_value_prefix(digits_of(data@), i + 1 - start);
                assert(digits_of(data@).subrange(0, i + 1 - start)
                    =~= data@.subrange(start as int, i as int + 1));
            }
            return Err(CommandError::Malformed);
        }
        value = next;
        i += 1;
    }
    if value > MAX_DEGREE as u16 {
        return Err(CommandError::TooLarge(value as u8));
    }
    Ok(PositionCommand { degree: value as u8 })
}

} // verus!

use vstd::prelude::*;
use vstd::string::*;

verus! {

pub open spec fn is_digit(c: char) -> bool {
    '0' <= c <= '9'
}

/// The number written by the decimal digits `s`, most significant first.
pub open spec fn digits_value(s: Seq<char>) -> nat
    decreases s.len(),
{
    if s.len() == 0 {
        0
    } else {
        digits_value(s.drop_last()) * 10 + (s.last() as nat - '0' as nat) as nat
    }
}

/// `s` without a leading `+`, where it has one.
pub open spec fn unsigned_digits(s: Seq<char>) -> Seq<char> {
    if s.len() > 0 && s[0] == '+' {
        s.drop_first()
    } else {
        s
    }
}

/// The `u32` written in decimal by `s`: an optional `+`, then at least one
/// digit and nothing else, for a value that fits.
pub open spec fn decimal_u32(s: Seq<char>) -> Option<u32> {
    let d = unsigned_digits(s);
    if d.len() > 0 && (forall|i: int| 0 <= i < d.len() ==> is_digit(#[trigger] d[i]))
        && digits_value(d) <= u32::MAX {
        Some(digits_value(d) as u32)
    } else {
        None
    }
}

/// The message that rejects `val` as a baud rate.
pub open spec fn baud_error(val: Seq<char>) -> Seq<char> {
    "Invalid baud rate '"@ + val + "' specified"@
}

/// Relies on `<u32 as FromStr>::from_str`: decimal digits after an optional
/// `+`, nothing else, and a value that fits; any other text is an error.
#[verifier::external_body]
fn parse_u32(s: &str) -> (r: Option<u32>)
    ensures
        r == decimal_u32(s@),
{
    s.parse::<u32>().ok()
}

/// Reads a baud rate given in decimal, or gives the message that rejects it.
pub fn parse_baud(val: &str) -> (r: Result<u32, String>)
    ensures
        match r {
            Ok(n) => decimal_u32(val@) == Some(n),
            Err(m) => decimal_u32(val@) is None && m@ == baud_error(val@),
        },
{
    match parse_u32(val) {
        Some(n) => Ok(n),
        None => {
            let mut m = String::from_str("Invalid baud rate '");
            m.append(val);
            m.append("' specified");
            Err(m)
        },
    }
}

/// Accepts exactly the text that names a baud rate in decimal.
pub fn valid_baud(val: &str) -> (r: Result<(), String>)
    ensures
        r is Ok <==> decimal_u32(val@) is Some,
        r matches Err(m) ==> m@ == baud_error(val@),
{
    match parse_baud(val) {
        Ok(_) => Ok(()),
        Err(m) => Err(m),
    }
}

} // verus!

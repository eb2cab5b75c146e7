//! The `local` flag of a MISP tag, which servers send as a boolean, a number
//! or a string.

use crate::error::Error;
use crate::text::{all_digits, dec_value, parse_bounded, parse_unsigned};
use vstd::prelude::*;

verus! {

/// The `local` value of a tag as the server sent it.
#[derive(Debug, Clone)]
pub enum LocalValue {
    /// The field is missing or null.
    Absent,
    Bool(bool),
    /// A number, with its value when it is an integer that fits in `i64`.
    Number(Option<i64>),
    Text(String),
    /// Anything else (a list or an object).
    Other,
}

/// What `str::parse::<i32>` gives: an optional sign, then one or more ASCII
/// digits whose value fits in `i32`.
pub open spec fn parse_i32_spec(s: Seq<char>) -> Option<int> {
    if s.len() > 0 && s[0] == '-' {
        let d = s.drop_first();
        if d.len() > 0 && all_digits(d) && dec_value(d) <= 0x8000_0000 {
            Some(-(dec_value(d) as int))
        } else {
            None
        }
    } else {
        match parse_unsigned(s, 0x7FFF_FFFF) {
            Some(n) => Some(n as int),
            None => None,
        }
    }
}

/// Parse an `i32` (`str::parse::<i32>`).
pub fn parse_i32(s: &str) -> (r: Option<i32>)
    ensures
        r matches Some(v) ==> parse_i32_spec(s@) == Some(v as int),
        r is None ==> parse_i32_spec(s@) is None,
{
    let n = s.unicode_len();
    if n > 0 && s.get_char(0) == '-' {
        let rest = s.substring_char(1, n);
        proof {
            assert(rest@ =~= s@.drop_first());
        }
        if rest.unicode_len() > 0 && rest.get_char(0) == '+' {
            proof {
                assert(!crate::text::is_digit(rest@[0]));
                assert(!all_digits(rest@));
            }
            return None;
        }
        match parse_bounded(rest, 0x8000_0000) {
            Some(v) => {
                proof {
                    assert(crate::text::unsigned_digits(rest@) == rest@);
                }
                if v == 0x8000_0000 {
                    Some(i32::MIN)
                } else {
                    Some(-(v as i32))
                }
            },
            None => {
                proof {
                    assert(crate::text::unsigned_digits(rest@) == rest@);
                }
                None
            },
        }
    } else {
        match parse_bounded(s, 0x7FFF_FFFF) {
            Some(v) => Some(v as i32),
            None => None,
        }
    }
}

/// The flag a `local` value gives: a boolean as 1 or 0, a number cut to
/// 32 bits (0 when it is not an `i64`), a string parsed (0 when it does not
/// parse); other values are an error.
pub open spec fn local_flag_spec(v: LocalValue) -> Option<Option<int>> {
    match v {
        LocalValue::Absent => Some(None),
        LocalValue::Bool(b) => Some(Some(if b { 1 } else { 0 })),
        LocalValue::Number(n) => Some(Some(match n {
            Some(x) => (x as i32) as int,
            None => 0,
        })),
        LocalValue::Text(s) => Some(Some(match parse_i32_spec(s@) {
            Some(x) => x,
            None => 0,
        })),
        LocalValue::Other => None,
    }
}

/// Read the `local` flag of a tag.
pub fn local_flag(v: LocalValue) -> (r: Result<Option<i32>, Error>)
    ensures
        match local_flag_spec(v) {
            Some(f) => r matches Ok(x) && match x {
                Some(i) => f == Some(i as int),
                None => f is None,
            },
            None => r matches Err(Error::Json(m)) && m@ == "unexpected type for local field"@,
        },
{
    match v {
        LocalValue::Absent => Ok(None),
        LocalValue::Bool(b) => Ok(Some(if b { 1 } else { 0 })),
        LocalValue::Number(n) => Ok(Some(match n {
            Some(x) => x as i32,
            None => 0,
        })),
        LocalValue::Text(s) => Ok(Some(match parse_i32(s.as_str()) {
            Some(x) => x,
            None => 0,
        })),
        LocalValue::Other => Err(Error::Json(String::from_str("unexpected type for local field"))),
    }
}

} // verus!

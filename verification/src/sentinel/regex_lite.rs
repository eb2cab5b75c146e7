//! The small matcher that finds the retry delay in a rate-limit message, as
//! the pattern `(\d+)\s*seconds?` does: the first run of digits followed,
//! after optional white space, by "second".

use crate::text::{is_digit, is_white_space, is_whitespace, matches_at, occurs_at, parse_u64, parse_unsigned};
use vstd::prelude::*;

verus! {

/// Where the run of digits starting at `i` ends.
pub open spec fn digits_end(s: Seq<char>, i: int) -> int
    decreases s.len() - i,
{
    if 0 <= i < s.len() && is_digit(s[i]) {
        digits_end(s, i + 1)
    } else {
        i
    }
}

/// Where the run of white space starting at `i` ends.
pub open spec fn spaces_end(s: Seq<char>, i: int) -> int
    decreases s.len() - i,
{
    if 0 <= i < s.len() && is_white_space(s[i]) {
        spaces_end(s, i + 1)
    } else {
        i
    }
}

/// The pattern matches at `i`: digits from `i`, optional white space, then "second".
pub open spec fn matches_here(s: Seq<char>, i: int) -> bool {
    &&& 0 <= i < s.len()
    &&& is_digit(s[i])
    &&& occurs_at(s, "second"@, spaces_end(s, digits_end(s, i)))
}

/// The first position from `i` on where the pattern matches.
pub open spec fn first_match_from(s: Seq<char>, i: int) -> Option<int>
    decreases s.len() - i,
{
    if i < 0 || i >= s.len() {
        None
    } else if matches_here(s, i) {
        Some(i)
    } else {
        first_match_from(s, i + 1)
    }
}

/// The digits the pattern captures in `text`: those of its leftmost match.
pub open spec fn retry_digits(text: Seq<char>) -> Option<Seq<char>> {
    match first_match_from(text, 0) {
        Some(i) => Some(text.subrange(i, digits_end(text, i))),
        None => None,
    }
}

/// The number a message yields: the captured digits, when they fit in a `u64`.
pub open spec fn captured_number(text: Seq<char>) -> Option<u64> {
    match retry_digits(text) {
        Some(d) => match parse_unsigned(d, u64::MAX as nat) {
            Some(n) => Some(n as u64),
            None => None,
        },
        None => None,
    }
}

/// A pattern holder; the pattern text is kept but the matching rule is fixed.
pub struct Regex {
    pub pattern: String,
}

/// The result of a successful match: the text and the captured digits.
pub struct Captures<'a> {
    pub text: &'a str,
    pub digits: String,
}

/// One captured group: its text.
pub struct Match {
    pub value: String,
}

fn is_ascii_digit(c: char) -> (r: bool)
    ensures
        r == is_digit(c),
{
    '0' <= c && c <= '9'
}

/// Where the run of digits starting at `i` ends.
fn scan_digits(s: &str, i: usize) -> (r: usize)
    requires
        i <= s@.len(),
    ensures
        r == digits_end(s@, i as int),
        i <= r <= s@.len(),
{
    let n = s.unicode_len();
    let mut j = i;
    while j < n && is_ascii_digit(s.get_char(j))
        invariant
            n == s@.len(),
            i <= j <= n,
            digits_end(s@, i as int) == digits_end(s@, j as int),
            forall|k: int| i <= k < j ==> is_digit(s@[k]),
        decreases n - j,
    {
        proof {
            lemma_digits_step(s@, i as int, j as int);
        }
        j = j + 1;
    }
    j
}

proof fn lemma_digits_step(s: Seq<char>, i: int, j: int)
    requires
        0 <= i <= j < s.len(),
        is_digit(s[j]),
        forall|k: int| i <= k < j ==> is_digit(s[k]),
        digits_end(s, i) == digits_end(s, j),
    ensures
        digits_end(s, i) == digits_end(s, j + 1),
{
}

/// Where the run of white space starting at `i` ends.
fn scan_spaces(s: &str, i: usize) -> (r: usize)
    requires
        i <= s@.len(),
    ensures
        r == spaces_end(s@, i as int),
        i <= r <= s@.len(),
{
    let n = s.unicode_len();
    let mut j = i;
    while j < n && is_whitespace(s.get_char(j))
        invariant
            n == s@.len(),
            i <= j <= n,
            spaces_end(s@, i as int) == spaces_end(s@, j as int),
        decreases n - j,
    {
        j = j + 1;
    }
    j
}

impl Regex {
    /// Build a matcher; this never fails.
    pub fn new(pattern: &str) -> (r: Result<Self, ()>)
        ensures
            r matches Ok(re) && re.pattern@ == pattern@,
    {
        Ok(Regex { pattern: pattern.to_string() })
    }

    /// Find the leftmost match in `text`.
    pub fn captures<'a>(&self, text: &'a str) -> (r: Option<Captures<'a>>)
        ensures
            r matches Some(c) ==> c.text@ == text@ && retry_digits(text@) == Some(c.digits@),
            r is None ==> retry_digits(text@) is None,
    {
        let n = text.unicode_len();
        let mut i: usize = 0;
        while i < n
            invariant
                n == text@.len(),
                i <= n,
                first_match_from(text@, 0) == first_match_from(text@, i as int),
            decreases n - i,
        {
            if is_ascii_digit(text.get_char(i)) {
                let e = scan_digits(text, i);
                let k = scan_spaces(text, e);
                proof {
                    reveal_strlit("second");
                }
                if matches_at(text, n, "second", 6, k) {
                    let digits = text.substring_char(i, e).to_string();
                    return Some(Captures { text, digits });
                }
            }
            i = i + 1;
        }
        None
    }
}

impl<'a> Captures<'a> {
    /// The captured digits, whatever group is asked for.
    pub fn get(&self, _index: usize) -> (r: Option<Match>)
        ensures
            r matches Some(m) && m.value@ == self.digits@,
    {
        Some(Match { value: self.digits.clone() })
    }
}

impl Match {
    /// The captured text.
    pub fn as_str(&self) -> (r: &str)
        ensures
            r@ == self.value@,
    {
        self.value.as_str()
    }
}

/// Extract the retry-after seconds from a rate-limit message.
pub fn extract_retry_after(message: &str) -> (r: Option<u64>)
    ensures
        r == captured_number(message@),
{
    let re = match Regex::new(r"(\d+)\s*seconds?") {
        Ok(re) => re,
        Err(_) => return None,
    };
    match re.captures(message) {
        Some(cap) => match cap.get(1) {
            Some(m) => parse_u64(m.as_str()),
            None => None,
        },
        None => None,
    }
}

} // verus!

//! Text helpers: lower case, truth values and decimal numbers.

use vstd::prelude::*;
use vstd::string::StringExecFns;
use vstd::utf8::is_ascii_chars;

verus! {

/// The lower case of an ASCII letter; every other character as it is.
pub open spec fn ascii_lower_char(c: char) -> char {
    if 'A' <= c <= 'Z' {
        (c as u32 + 32) as char
    } else {
        c
    }
}

/// What `str::to_lowercase` gives for a text that is not all ASCII.
pub uninterp spec fn unicode_lowercase(s: Seq<char>) -> Seq<char>;

/// The lower case of a text: letter by letter for ASCII, by the rules of Unicode otherwise.
pub open spec fn lowercase(s: Seq<char>) -> Seq<char> {
    if is_ascii_chars(s) {
        s.map_values(|c: char| ascii_lower_char(c))
    } else {
        unicode_lowercase(s)
    }
}

/// `str::to_lowercase` of std.
///
/// Claimed: on ASCII text it maps `A` to `Z` to `a` to `z` and keeps every other character; on
/// any other text its result depends on the text alone.
pub assume_specification[ str::to_lowercase ](s: &str) -> (lowered: String)
    ensures
        is_ascii_chars(s@) ==> lowered@ == s@.map_values(|c: char| ascii_lower_char(c)),
        !is_ascii_chars(s@) ==> lowered@ == unicode_lowercase(s@),
;

/// The truth value that a text spells: `true` or `false`, nothing else.
pub open spec fn bool_spelled(s: Seq<char>) -> Option<bool> {
    if s == "true"@ {
        Some(true)
    } else if s == "false"@ {
        Some(false)
    } else {
        None
    }
}

/// Reads `true` or `false`, in exactly this spelling.
pub fn parse_bool(s: &String) -> (value: Option<bool>)
    ensures
        value == bool_spelled(s@),
{
    if *s == "true".to_owned() {
        Some(true)
    } else if *s == "false".to_owned() {
        Some(false)
    } else {
        None
    }
}

/// The decimal digit of `d`.
pub open spec fn digit_char(d: nat) -> char
    recommends
        d < 10,
{
    ('0' as u32 + d) as char
}

/// `n` in decimal, without leading zeros.
pub open spec fn decimal(n: nat) -> Seq<char>
    decreases n,
{
    if n < 10 {
        seq![digit_char(n)]
    } else {
        decimal(n / 10).push(digit_char(n % 10))
    }
}

/// One decimal digit as text.
fn digit_text(d: usize) -> (text: &'static str)
    requires
        d < 10,
    ensures
        text@ == seq![digit_char(d as nat)],
{
    proof {
        reveal_strlit("0");
        reveal_strlit("1");
        reveal_strlit("2");
        reveal_strlit("3");
        reveal_strlit("4");
        reveal_strlit("5");
        reveal_strlit("6");
        reveal_strlit("7");
        reveal_strlit("8");
        reveal_strlit("9");
    }
    match d {
        0 => "0",
        1 => "1",
        2 => "2",
        3 => "3",
        4 => "4",
        5 => "5",
        6 => "6",
        7 => "7",
        8 => "8",
        _ => "9",
    }
}

/// Writes `n` in decimal.
pub fn decimal_text(n: usize) -> (text: String)
    ensures
        text@ == decimal(n as nat),
    decreases n,
{
    if n < 10 {
        digit_text(n).to_owned()
    } else {
        let mut text: String = decimal_text(n / 10);
        text.append(digit_text(n % 10));
        proof {
            assert(text@ == decimal((n / 10) as nat) + seq![digit_char((n % 10) as nat)]);
        }
        text
    }
}

} // verus!

//! Building display text: decimal numbers and character case.

use vstd::prelude::*;

verus! {

/// The character of decimal digit `d`.
pub open spec fn digit_char(d: nat) -> char {
    (d + 48) as char
}

/// The decimal representation of `n`, without leading zeros.
pub open spec fn decimal(n: nat) -> Seq<char>
    decreases n,
{
    if n < 10 {
        seq![digit_char(n)]
    } else {
        decimal(n / 10) + seq![digit_char(n % 10)]
    }
}

/// The text of one decimal digit.
pub fn digit_str(d: u32) -> (r: &'static str)
    requires
        d < 10,
    ensures
        r@ == seq![digit_char(d as nat)],
{
    proof {
        reveal_strlit("0");
        reveal_strlit("1");
        reveal_strlit("2");
        reveal_strlit("3");
        reveal_strlit("4");
        reveal_strlit("5");
        reveal_strlit("6");
        reveal_strlit("7");
        reveal_strlit("8");
        reveal_strlit("9");
    }
    match d {
        0 => "0",
        1 => "1",
        2 => "2",
        3 => "3",
        4 => "4",
        5 => "5",
        6 => "6",
        7 => "7",
        8 => "8",
        _ => "9",
    }
}

/// Appends the decimal representation of `n` to `s`.
pub fn append_decimal(s: &mut String, n: u32)
    ensures
        final(s)@ == old(s)@ + decimal(n as nat),
    decreases n,
{
    if n >= 10 {
        append_decimal(s, n / 10);
    }
    s.append(digit_str(n % 10));
    assert(old(s)@ + decimal(n as nat) =~= if n >= 10 {
        old(s)@ + decimal((n / 10) as nat) + seq![digit_char((n % 10) as nat)]
    } else {
        old(s)@ + seq![digit_char((n % 10) as nat)]
    });
}

/// What `char::to_uppercase` yields for `c`: its Unicode uppercase mapping,
/// one or more characters.
pub uninterp spec fn char_uppercase(c: char) -> Seq<char>;

/// The ASCII uppercase of a character: a to z become A to Z, every other
/// character stays.
pub open spec fn ascii_upper_char(c: char) -> char {
    if 'a' <= c <= 'z' {
        ((c as u32) - 32) as char
    } else {
        c
    }
}

/// `char::to_uppercase`, collected into a `String`. The contract names the
/// result and states the ASCII case as std documents it (a to z map to A
/// to Z, other ASCII characters are unchanged); the Unicode case tables
/// beyond ASCII are not restated here.
#[verifier::external_body]
pub(crate) fn to_uppercase_string(c: char) -> (r: String)
    ensures
        r@ == char_uppercase(c),
        (c as u32) < 128 ==> r@ == seq![ascii_upper_char(c)],
{
    c.to_uppercase().to_string()
}

} // verus!

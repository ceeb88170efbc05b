//! Building the text of messages: decimal numbers and single characters
//! appended to strings.

use vstd::prelude::*;

verus! {

/// The decimal digit character for `d` (0-9).
pub open spec fn digit_char(d: nat) -> char {
    (48 + d) as char
}

/// The decimal representation of `n`, without sign or leading zeros.
pub open spec fn decimal_text(n: nat) -> Seq<char>
    decreases n,
{
    if n < 10 {
        seq![digit_char(n)]
    } else {
        decimal_text(n / 10).push(digit_char(n % 10))
    }
}

/// Calls `ToString::to_string` on a `u64`, whose `Display` implementation
/// writes the number in decimal without sign, padding or leading zeros.
#[verifier::external_body]
pub(crate) fn decimal(n: u64) -> (s: String)
    ensures
        s@ == decimal_text(n as nat),
{
    n.to_string()
}

/// Calls `String::push`, which appends one character to the string.
#[verifier::external_body]
pub(crate) fn push_char(s: &mut String, c: char)
    ensures
        final(s)@ == old(s)@.push(c),
{
    s.push(c);
}

} // verus!

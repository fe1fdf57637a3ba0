//! Small text helpers: decimal rendering of integers and character pushes.

use vstd::prelude::*;
use vstd::string::{StrSliceExecFns, StringExecFns};

verus! {

/// The character of a decimal digit `d` (`0 <= d < 10`).
pub open spec fn digit_char(d: nat) -> char {
    (d + 48) as char
}

/// Decimal rendering of `n`, without sign and without leading zeros.
pub open spec fn decimal(n: nat) -> Seq<char>
    decreases n,
{
    if n < 10 {
        seq![digit_char(n)]
    } else {
        decimal(n / 10).push(digit_char(n % 10))
    }
}

/// Decimal rendering of `n`, left-padded with `'0'` to at least `width` characters.
pub open spec fn decimal_padded(n: nat, width: nat) -> Seq<char> {
    let d = decimal(n);
    if d.len() < width {
        Seq::new((width - d.len()) as nat, |i: int| '0') + d
    } else {
        d
    }
}

/// A decimal rendering is never empty.
pub proof fn lemma_decimal_nonempty(n: nat)
    ensures
        decimal(n).len() >= 1,
    decreases n,
{
    if n >= 10 {
        lemma_decimal_nonempty(n / 10);
    }
}

/// Numbers below 10 take one digit and numbers from 10 to 99 take two.
pub proof fn lemma_decimal_small(n: nat)
    ensures
        n < 10 ==> decimal(n) == seq![digit_char(n)],
        10 <= n < 100 ==> decimal(n) == seq![digit_char(n / 10), digit_char(n % 10)],
{
    if 10 <= n < 100 {
        assert(decimal(n / 10) == seq![digit_char(n / 10)]);
    }
}

/// Appends one character to a string (`String::push`).
#[verifier::external_body]
pub(crate) fn push_char(s: &mut String, c: char)
    ensures
        final(s)@ == old(s)@.push(c),
{
    s.push(c);
}

/// Renders an unsigned integer in decimal through its `Display` implementation
/// (`u64::to_string`), which prints the digits without sign or leading zeros.
#[verifier::external_body]
pub(crate) fn u64_to_decimal(n: u64) -> (r: String)
    ensures
        r@ == decimal(n as nat),
{
    n.to_string()
}

/// Decimal rendering of `n`, left-padded with zeros to `width` characters.
pub fn decimal_string_padded(n: u64, width: usize) -> (r: String)
    ensures
        r@ == decimal_padded(n as nat, width as nat),
{
    let digits = u64_to_decimal(n);
    let len = digits.as_str().unicode_len();
    let mut r = String::new();
    if len < width {
        let mut i: usize = 0;
        while i < width - len
            invariant
                i <= width - len,
                r@ == Seq::new(i as nat, |j: int| '0'),
            decreases width - len - i,
        {
            push_char(&mut r, '0');
            i = i + 1;
            assert(r@ =~= Seq::new(i as nat, |j: int| '0'));
        }
        r.append(digits.as_str());
        r
    } else {
        digits
    }
}

/// A string holding `prefix` followed by the decimal rendering of `n`.
pub fn prefixed_decimal(prefix: &str, n: u64) -> (r: String)
    ensures
        r@ == prefix@ + decimal(n as nat),
{
    let mut r = String::from_str(prefix);
    let digits = u64_to_decimal(n);
    r.append(digits.as_str());
    r
}

} // verus!

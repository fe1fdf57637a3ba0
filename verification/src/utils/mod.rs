//! Utility functions and types

pub mod standard;

use vstd::prelude::*;
use vstd::string::{StrSliceExecFns, StringExecFns, StringSliceAdditionalSpecFns};

use crate::error::{Error, Result};
use crate::text::{
    decimal, decimal_padded, decimal_string_padded, prefixed_decimal, push_char, u64_to_decimal,
};

verus! {

/// The sum of the bytes of `s`, as a natural number.
pub open spec fn byte_sum(s: Seq<u8>) -> nat
    decreases s.len(),
{
    if s.len() == 0 {
        0
    } else {
        byte_sum(s.drop_last()) + s.last() as nat
    }
}

/// The number of leading bytes of `data` that `sum_bytes` adds: `length`,
/// capped at the length of `data`.
pub open spec fn summed_len(data: Seq<u8>, length: int) -> int {
    if length < data.len() {
        length
    } else {
        data.len() as int
    }
}

/// Calculate the sum of bytes: `initial` plus the first `length` bytes of
/// `data` (all of them when `data` is shorter), wrapping modulo 256.
pub fn sum_bytes(data: &[u8], length: usize, initial: u8) -> (r: u8)
    ensures
        r as int == (initial as int + byte_sum(data@.take(summed_len(data@, length as int))))
            % 256,
{
    let n: usize = if length < data.len() {
        length
    } else {
        data.len()
    };
    let mut sum: u8 = initial;
    let mut i: usize = 0;
    assert(data@.take(0) =~= Seq::<u8>::empty());
    while i < n
        invariant
            n <= data@.len(),
            n as int == summed_len(data@, length as int),
            i <= n,
            sum as int == (initial as int + byte_sum(data@.take(i as int))) % 256,
        decreases n - i,
    {
        let ghost prev = sum;
        sum = sum.wrapping_add(data[i]);
        proof {
            assert(data@.take(i as int + 1).drop_last() =~= data@.take(i as int));
            let s = initial as int + byte_sum(data@.take(i as int));
            vstd::arithmetic::div_mod::lemma_add_mod_noop(s, data@[i as int] as int, 256);
            vstd::arithmetic::div_mod::lemma_small_mod(data@[i as int] as nat, 256);
        }
        i = i + 1;
    }
    sum
}

/// Convert minutes to a time string: hours and minutes, each at least two
/// digits, separated by `':'` (hours above 99 keep all their digits).
pub fn mins_to_string(mins: u16) -> (r: String)
    ensures
        r@ == decimal_padded((mins / 60) as nat, 2) + seq![':'] + decimal_padded(
            (mins % 60) as nat,
            2,
        ),
{
    let hours: u16 = mins / 60;
    let minutes: u16 = mins % 60;
    let mut r = decimal_string_padded(hours as u64, 2);
    push_char(&mut r, ':');
    let m = decimal_string_padded(minutes as u64, 2);
    r.append(m.as_str());
    r
}

/// Pad a string with a given character to a minimum length, counted in bytes
/// of its UTF-8 encoding
pub fn pad_string(input: &str, pad_char: char, width: usize) -> (r: String)
    ensures
        input.len() >= width ==> r@ == input@,
        input.len() < width ==> r@ == input@ + Seq::new(
            (width - input.len()) as nat,
            |i: int| pad_char,
        ),
{
    if input.len() >= width {
        String::from_str(input)
    } else {
        let padding: usize = width - input.len();
        let mut r = String::from_str(input);
        let mut i: usize = 0;
        while i < padding
            invariant
                i <= padding,
                r@ == input@ + Seq::new(i as nat, |j: int| pad_char),
            decreases padding - i,
        {
            push_char(&mut r, pad_char);
            i = i + 1;
            assert(r@ =~= input@ + Seq::new(i as nat, |j: int| pad_char));
        }
        r
    }
}

/// Whether `c` is an ASCII decimal digit.
pub open spec fn is_digit(c: char) -> bool {
    48 <= (c as u32) <= 57
}

/// The value of a sequence of decimal digits, most significant first.
pub open spec fn digits_value(d: Seq<char>) -> nat
    decreases d.len(),
{
    if d.len() == 0 {
        0
    } else {
        digits_value(d.drop_last()) * 10 + ((d.last() as u32) - 48) as nat
    }
}

/// The number that `s` denotes as a `u16`, if it denotes one: an optional `+`,
/// then one or more ASCII digits whose value fits in a `u16`.
pub open spec fn parsed_u16(s: Seq<char>) -> Option<u16> {
    let d = if s.len() > 0 && s[0] == '+' {
        s.drop_first()
    } else {
        s
    };
    if d.len() > 0 && (forall|i: int| 0 <= i < d.len() ==> is_digit(#[trigger] d[i]))
        && digits_value(d) <= u16::MAX {
        Some(digits_value(d) as u16)
    } else {
        None
    }
}

/// Parses a decimal `u16` with `str::parse::<u16>` (`u16::from_str`). Its
/// documentation states the accepted form: an optional `+` followed by only
/// ASCII digits, at least one, whose value fits in a `u16`; anything else
/// (a sign `-`, whitespace, underscores, an empty string, overflow) is an error.
#[verifier::external_body]
fn parse_u16(s: &str) -> (r: Option<u16>)
    ensures
        r == parsed_u16(s@),
{
    s.parse::<u16>().ok()
}

/// Whether `':'` occurs in `s` at `k` and nowhere else.
pub open spec fn single_colon_at(s: Seq<char>, k: int) -> bool {
    &&& 0 <= k < s.len()
    &&& s[k] == ':'
    &&& forall|i: int| 0 <= i < s.len() && i != k ==> #[trigger] s[i] != ':'
}

/// The hour and minute parts of a time string: the text before and after its
/// `':'`, when it holds exactly one.
pub open spec fn time_parts(s: Seq<char>) -> Option<(Seq<char>, Seq<char>)> {
    if exists|k: int| single_colon_at(s, k) {
        let k = choose|k: int| single_colon_at(s, k);
        Some((s.take(k), s.skip(k + 1)))
    } else {
        None
    }
}

/// The minutes since midnight that a time string in HH:MM form denotes, if
/// it denotes a time of day: hours and minutes as `u16` numbers around one
/// `':'`, hours at most 23 and minutes at most 59.
pub open spec fn time_minutes(s: Seq<char>) -> Option<u16> {
    match time_parts(s) {
        Some((h, m)) => match (parsed_u16(h), parsed_u16(m)) {
            (Some(hv), Some(mv)) => if hv <= 23 && mv <= 59 {
                Some((hv * 60 + mv) as u16)
            } else {
                None
            },
            _ => None,
        },
        None => None,
    }
}

/// Parse a time string in HH:MM format to minutes
pub fn parse_time(time_str: &str) -> (r: Result<u16>)
    ensures
        time_minutes(time_str@) matches Some(v) ==> r == Ok::<u16, Error>(v),
        time_minutes(time_str@) is None ==> r is Err,
        time_parts(time_str@) is None ==> (r matches Err(Error::InvalidValue(msg)) && msg@
            == "Invalid time format: "@ + time_str@ + ", expected HH:MM"@),
        time_parts(time_str@) matches Some((h, m)) ==> {
            &&& parsed_u16(h) is None ==> (r matches Err(Error::InvalidValue(msg)) && msg@
                == "Invalid hours: "@ + h)
            &&& parsed_u16(h) is Some && parsed_u16(m) is None ==> (r matches Err(
                Error::InvalidValue(msg),
            ) && msg@ == "Invalid minutes: "@ + m)
            &&& parsed_u16(h) matches Some(hv) ==> (parsed_u16(m) matches Some(mv) ==> {
                &&& (hv > 23 || mv > 59) ==> (r matches Err(Error::InvalidValue(msg)) && msg@
                    == "Invalid time: "@ + decimal(hv as nat) + ":"@ + decimal(mv as nat))
                &&& (hv <= 23 && mv <= 59) ==> r == Ok::<u16, Error>((hv * 60 + mv) as u16)
            })
        },
{
    let n: usize = time_str.unicode_len();
    let mut colon: Option<usize> = None;
    let mut i: usize = 0;
    while i < n
        invariant
            n == time_str@.len(),
            i <= n,
            colon is None ==> forall|j: int| 0 <= j < i ==> #[trigger] time_str@[j] != ':',
            colon matches Some(k) ==> k < i && time_str@[k as int] == ':' && forall|j: int|
                0 <= j < i && j != k ==> #[trigger] time_str@[j] != ':',
        decreases n - i,
    {
        let c = time_str.get_char(i);
        if c == ':' {
            if let Some(k) = colon {
                proof {
                    assert forall|q: int| !single_colon_at(time_str@, q) by {
                        if single_colon_at(time_str@, q) {
                            if q != k {
                                assert(time_str@[k as int] == ':');
                            } else {
                                assert(time_str@[i as int] == ':');
                            }
                        }
                    }
                }
                return Err(time_format_error(time_str));
            }
            colon = Some(i);
        }
        i = i + 1;
    }
    let k: usize = match colon {
        Some(k) => k,
        None => {
            assert forall|q: int| !single_colon_at(time_str@, q) by {
                if single_colon_at(time_str@, q) {
                    assert(time_str@[q] == ':');
                }
            }
            return Err(time_format_error(time_str));
        },
    };
    proof {
        assert(single_colon_at(time_str@, k as int));
        let q = choose|q: int| single_colon_at(time_str@, q);
        if q != k {
            assert(time_str@[q] == ':');
        }
    }
    let hours_part = time_str.substring_char(0, k);
    let minutes_part = time_str.substring_char(k + 1, n);
    assert(hours_part@ =~= time_str@.take(k as int));
    assert(minutes_part@ =~= time_str@.skip(k + 1));
    let hours: u16 = match parse_u16(hours_part) {
        Some(h) => h,
        None => {
            let mut msg = String::from_str("Invalid hours: ");
            msg.append(hours_part);
            return Err(Error::InvalidValue(msg));
        },
    };
    let minutes: u16 = match parse_u16(minutes_part) {
        Some(m) => m,
        None => {
            let mut msg = String::from_str("Invalid minutes: ");
            msg.append(minutes_part);
            return Err(Error::InvalidValue(msg));
        },
    };
    if hours > 23 || minutes > 59 {
        let mut msg = prefixed_decimal("Invalid time: ", hours as u64);
        push_char(&mut msg, ':');
        let m = u64_to_decimal(minutes as u64);
        msg.append(m.as_str());
        assert(msg@ =~= "Invalid time: "@ + decimal(hours as nat) + ":"@ + decimal(minutes as nat))
            by {
            reveal_strlit(":");
        }
        return Err(Error::InvalidValue(msg));
    }
    Ok(hours * 60 + minutes)
}

/// The error for a string that is not two parts around one `':'`.
fn time_format_error(time_str: &str) -> (r: Error)
    ensures
        r matches Error::InvalidValue(msg) && msg@ == "Invalid time format: "@ + time_str@
            + ", expected HH:MM"@,
{
    let mut msg = String::from_str("Invalid time format: ");
    msg.append(time_str);
    msg.append(", expected HH:MM");
    Error::InvalidValue(msg)
}

/// Format a temperature value with the Celsius symbol
pub fn format_temp(temp: u8) -> (r: String)
    ensures
        r@ == decimal(temp as nat) + "°C"@,
{
    let mut r = u64_to_decimal(temp as u64);
    r.append("°C");
    r
}

/// `"On"` or `"Off"`.
pub open spec fn on_off_text(on: bool) -> Seq<char> {
    if on {
        "On"@
    } else {
        "Off"@
    }
}

/// Convert a boolean value to "On" or "Off"
pub fn bool_to_onoff(value: bool) -> (r: &'static str)
    ensures
        r@ == on_off_text(value),
{
    if value {
        "On"
    } else {
        "Off"
    }
}

/// A number below 100, written with two digits, reads back as that number.
proof fn lemma_two_digits_parse(n: nat)
    requires
        n < 100,
    ensures
        decimal_padded(n, 2).len() == 2,
        parsed_u16(decimal_padded(n, 2)) == Some(n as u16),
        forall|i: int| 0 <= i < 2 ==> #[trigger] decimal_padded(n, 2)[i] != ':',
{
    crate::text::lemma_decimal_small(n);
    let d = decimal_padded(n, 2);
    let hi = n / 10;
    let lo = n % 10;
    assert(d =~= seq![crate::text::digit_char(hi), crate::text::digit_char(lo)]);
    assert(d[0] != '+');
    assert(d.drop_last() =~= seq![crate::text::digit_char(hi)]);
    assert(d.drop_last().drop_last() =~= Seq::<char>::empty());
    reveal_with_fuel(digits_value, 3);
    assert(digits_value(d) == hi * 10 + lo);
}

/// Time text round trip: the text that `mins_to_string` writes for a time of
/// day (under 24 hours) reads back with `parse_time` as the same minutes.
pub proof fn law_time_text_roundtrip(mins: u16)
    requires
        mins < 1440,
    ensures
        time_minutes(
            decimal_padded((mins / 60) as nat, 2) + seq![':'] + decimal_padded((mins % 60) as nat, 2),
        ) == Some(mins),
{
    let h = decimal_padded((mins / 60) as nat, 2);
    let m = decimal_padded((mins % 60) as nat, 2);
    lemma_two_digits_parse((mins / 60) as nat);
    lemma_two_digits_parse((mins % 60) as nat);
    let s = h + seq![':'] + m;
    assert(single_colon_at(s, 2)) by {
        assert forall|i: int| 0 <= i < s.len() && i != 2 implies #[trigger] s[i] != ':' by {
            if i < 2 {
                assert(s[i] == h[i]);
            } else {
                assert(s[i] == m[i - 3]);
            }
        }
    }
    let q = choose|q: int| single_colon_at(s, q);
    assert(q == 2);
    assert(s.take(2) =~= h);
    assert(s.skip(3) =~= m);
}

} // verus!

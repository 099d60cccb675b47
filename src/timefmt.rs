//! Decimal numbers and the timestamp texts that rows carry.
use chrono::TimeZone;
use vstd::prelude::*;
use crate::rows::opt_view;
use crate::text::push_char;

verus! {

/// The character of a decimal digit.
pub open spec fn digit_char(d: int) -> char {
    if d == 0 {
        '0'
    } else if d == 1 {
        '1'
    } else if d == 2 {
        '2'
    } else if d == 3 {
        '3'
    } else if d == 4 {
        '4'
    } else if d == 5 {
        '5'
    } else if d == 6 {
        '6'
    } else if d == 7 {
        '7'
    } else if d == 8 {
        '8'
    } else {
        '9'
    }
}

/// The decimal digits of `n`, most significant first, without leading zeros.
pub open spec fn decimal(n: nat) -> Seq<char>
    decreases n,
{
    if n < 10 {
        seq![digit_char(n as int)]
    } else {
        decimal(n / 10).push(digit_char((n % 10) as int))
    }
}

/// `i` in decimal, with a leading `-` when negative.
pub open spec fn signed_decimal(i: int) -> Seq<char> {
    if i < 0 {
        seq!['-'] + decimal((-i) as nat)
    } else {
        decimal(i as nat)
    }
}

/// `n` in decimal, padded with zeros to at least two digits.
pub open spec fn pad2(n: nat) -> Seq<char> {
    if n < 10 {
        seq!['0', digit_char(n as int)]
    } else {
        decimal(n)
    }
}

pub open spec fn abs(i: int) -> nat {
    if i < 0 {
        (-i) as nat
    } else {
        i as nat
    }
}

/// The UTC calendar text `YYYY-MM-DD HH:MM:SS` of a Unix timestamp, where
/// the instant can be represented.
pub uninterp spec fn utc_text(secs: int) -> Option<Seq<char>>;

/// The UTC text where there is one, else the plain number of seconds.
pub open spec fn plain_time_text(utc: Option<Seq<char>>, secs: int) -> Seq<char> {
    match utc {
        Some(t) => t,
        None => signed_decimal(secs),
    }
}

/// The UTC text followed by the zone offset as `±HHMM`, where there is a
/// UTC text, else the plain number of seconds.
pub open spec fn zoned_text(utc: Option<Seq<char>>, secs: int, offset_minutes: int) -> Seq<char> {
    match utc {
        Some(t) => t + seq![' ', if offset_minutes >= 0 { '+' } else { '-' }] + pad2(
            abs(offset_minutes) / 60,
        ) + pad2(abs(offset_minutes) % 60),
        None => signed_decimal(secs),
    }
}

/// A timestamp as rows of most tables carry it: the UTC text, or the plain
/// number of seconds where no calendar date can be given.
pub open spec fn utc_time_text(secs: int) -> Seq<char> {
    plain_time_text(utc_text(secs), secs)
}

/// A timestamp with the offset of the zone it was recorded in, as `±HHMM`
/// after the UTC text.
pub open spec fn zoned_time_text(secs: int, offset_minutes: int) -> Seq<char> {
    zoned_text(utc_text(secs), secs, offset_minutes)
}

/// Relies on chrono's `Utc.timestamp_opt(secs, 0).single()`, formatted with
/// `%Y-%m-%d %H:%M:%S`: the text depends on the number alone, and there is
/// none where chrono cannot represent the instant.
#[verifier::external_body]
fn utc_datetime(secs: i64) -> (r: Option<String>)
    ensures
        opt_view(r) == utc_text(secs as int),
{
    match chrono::Utc.timestamp_opt(secs, 0).single() {
        Some(dt) => Some(dt.format("%Y-%m-%d %H:%M:%S").to_string()),
        None => None,
    }
}

/// The character of the digit `d`.
pub fn digit(d: u64) -> (r: char)
    requires
        d < 10,
    ensures
        r == digit_char(d as int),
{
    if d == 0 {
        '0'
    } else if d == 1 {
        '1'
    } else if d == 2 {
        '2'
    } else if d == 3 {
        '3'
    } else if d == 4 {
        '4'
    } else if d == 5 {
        '5'
    } else if d == 6 {
        '6'
    } else if d == 7 {
        '7'
    } else if d == 8 {
        '8'
    } else {
        '9'
    }
}

/// Appends the decimal digits of `n`.
pub fn push_decimal(s: &mut String, n: u64)
    ensures
        final(s)@ == old(s)@ + decimal(n as nat),
    decreases n,
{
    if n >= 10 {
        push_decimal(s, n / 10);
    }
    push_char(s, digit(n % 10));
    assert(s@ =~= old(s)@ + decimal(n as nat));
}

/// Appends `i` in decimal, with a leading `-` when negative.
pub fn push_signed_decimal(s: &mut String, i: i64)
    ensures
        final(s)@ == old(s)@ + signed_decimal(i as int),
{
    if i < 0 {
        push_char(s, '-');
        let m: u64 = (0i128 - i as i128) as u64;
        push_decimal(s, m);
        assert(s@ =~= old(s)@ + signed_decimal(i as int));
    } else {
        push_decimal(s, i as u64);
    }
}

/// Appends `n` padded with zeros to at least two digits.
pub fn push_pad2(s: &mut String, n: u64)
    ensures
        final(s)@ == old(s)@ + pad2(n as nat),
{
    if n < 10 {
        push_char(s, '0');
        push_char(s, digit(n));
        assert(s@ =~= old(s)@ + pad2(n as nat));
    } else {
        push_decimal(s, n);
    }
}

/// The text of a timestamp from its UTC text, where there is one.
pub fn plain_time(utc: Option<String>, secs: i64) -> (r: String)
    ensures
        r@ == plain_time_text(opt_view(utc), secs as int),
{
    match utc {
        Some(t) => t,
        None => {
            let mut s = String::new();
            push_signed_decimal(&mut s, secs);
            assert(s@ =~= plain_time_text(None, secs as int));
            s
        },
    }
}

/// The text of a timestamp with its zone offset, from its UTC text where
/// there is one.
pub fn with_zone(utc: Option<String>, secs: i64, offset_minutes: i32) -> (r: String)
    ensures
        r@ == zoned_text(opt_view(utc), secs as int, offset_minutes as int),
{
    match utc {
        Some(t) => {
            let ghost u = t@;
            let mut s = t;
            push_char(&mut s, ' ');
            push_char(&mut s, if offset_minutes >= 0 { '+' } else { '-' });
            let a: u64 = if offset_minutes < 0 {
                (0i64 - offset_minutes as i64) as u64
            } else {
                offset_minutes as u64
            };
            push_pad2(&mut s, a / 60);
            push_pad2(&mut s, a % 60);
            assert(s@ =~= zoned_text(Some(u), secs as int, offset_minutes as int));
            s
        },
        None => {
            let mut s = String::new();
            push_signed_decimal(&mut s, secs);
            assert(s@ =~= zoned_text(None, secs as int, offset_minutes as int));
            s
        },
    }
}

/// A timestamp as `YYYY-MM-DD HH:MM:SS` in UTC.
pub fn format_utc_time(secs: i64) -> (r: String)
    ensures
        r@ == utc_time_text(secs as int),
{
    plain_time(utc_datetime(secs), secs)
}

/// A timestamp as `YYYY-MM-DD HH:MM:SS ±HHMM`: the UTC text, then the
/// offset of the zone it was recorded in.
pub fn format_git_time(secs: i64, offset_minutes: i32) -> (r: String)
    ensures
        r@ == zoned_time_text(secs as int, offset_minutes as int),
{
    with_zone(utc_datetime(secs), secs, offset_minutes)
}

} // verus!

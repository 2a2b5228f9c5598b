//! Time bucketing and text conversions.
use crate::standardized_types::{
    DataSubscription, Resolution, NANOS_PER_DAY, NANOS_PER_HOUR, NANOS_PER_MINUTE, NANOS_PER_SECOND,
};
use crate::helpers::text::{push_char, push_signed, signed_text};
use crate::export_formats::calendar_date_exists;
use chrono::{Datelike, Offset, TimeZone};
use vstd::prelude::*;
use vstd::string::*;

verus! {

/// The open time of the bar of `resolution` that contains `time` (UTC nanoseconds):
/// for seconds, the timestamp in whole seconds rounded toward zero to a multiple of the
/// interval; for minutes and hours, the time truncated to the hour (or day) plus the
/// largest multiple of the interval that does not pass the minute (or hour); other
/// resolutions leave the time unchanged.
pub open spec fn spec_open_time(resolution: Resolution, time: int) -> int {
    match resolution {
        Resolution::Seconds(interval) => {
            let secs = time / (NANOS_PER_SECOND as int);
            (secs - trunc_rem(secs, interval as int)) * NANOS_PER_SECOND
        },
        Resolution::Minutes(interval) => {
            let into_hour = time % (NANOS_PER_HOUR as int);
            let minute = into_hour / (NANOS_PER_MINUTE as int);
            (time - into_hour) + (minute / (interval as int)) * (interval as int) * NANOS_PER_MINUTE
        },
        Resolution::Hours(interval) => {
            let into_day = time % (NANOS_PER_DAY as int);
            let hour = into_day / (NANOS_PER_HOUR as int);
            (time - into_day) + (hour / (interval as int)) * (interval as int) * NANOS_PER_HOUR
        },
        _ => time,
    }
}

/// `a % b` as Rust computes it for integers: the remainder takes the sign of `a`.
pub open spec fn trunc_rem(a: int, b: int) -> int {
    if a >= 0 {
        a % b
    } else {
        -((-a) % b)
    }
}

/// The resolution can bucket times: intervals are non-zero, and a seconds interval fits
/// in an `i64`.
pub open spec fn open_time_defined(resolution: Resolution) -> bool {
    match resolution {
        Resolution::Seconds(interval) => 0 < interval <= i64::MAX,
        Resolution::Minutes(interval) => interval > 0,
        Resolution::Hours(interval) => interval > 0,
        _ => true,
    }
}

/// Times far enough from the lower end of `i64` that the start of their day is representable.
pub open spec fn time_in_range(time: int) -> bool {
    i64::MIN + NANOS_PER_DAY <= time <= i64::MAX
}

/// Returns the open time of the bar that contains `time`, when only the current time is known.
pub fn open_time(subscription: &DataSubscription, time: i64) -> (r: i64)
    requires
        open_time_defined(subscription.resolution),
        time_in_range(time as int),
    ensures
        r == spec_open_time(subscription.resolution, time as int),
{
    match subscription.resolution {
        Resolution::Seconds(interval) => {
            let secs = floor_div(time, NANOS_PER_SECOND);
            let step = interval as i64;
            let rem = trunc_rem_i64(secs, step);
            let rounded = secs - rem;
            proof {
                assert(secs * NANOS_PER_SECOND <= time);
                assert(secs * NANOS_PER_SECOND > time - NANOS_PER_SECOND);
                assert(secs >= 0 ==> 0 <= rounded <= secs);
                assert(secs < 0 ==> secs <= rounded <= 0);
                assert(i64::MIN <= rounded * NANOS_PER_SECOND <= i64::MAX) by (nonlinear_arith)
                    requires
                        secs * NANOS_PER_SECOND <= time <= i64::MAX,
                        secs * NANOS_PER_SECOND > time - NANOS_PER_SECOND,
                        time >= i64::MIN + NANOS_PER_DAY,
                        secs >= 0 ==> 0 <= rounded <= secs,
                        secs < 0 ==> secs <= rounded <= 0,
                ;
            }
            rounded * NANOS_PER_SECOND
        },
        Resolution::Minutes(interval) => {
            let into_hour = floor_mod(time, NANOS_PER_HOUR);
            let minute = into_hour / NANOS_PER_MINUTE;
            assert(0 <= minute < 60);
            let bucket: i64 = if interval > 60 {
                0
            } else {
                let i = interval as i64;
                proof {
                    lemma_bucket(minute as int, i as int, 60);
                }
                (minute / i) * i
            };
            proof {
                assert(0 <= minute < 60);
                lemma_bucket(minute as int, interval as int, 60);
                assert(bucket * NANOS_PER_MINUTE <= into_hour) by (nonlinear_arith)
                    requires
                        0 <= bucket <= minute,
                        minute == into_hour / NANOS_PER_MINUTE,
                        0 <= into_hour,
                ;
                assert(bucket * NANOS_PER_MINUTE >= 0) by (nonlinear_arith)
                    requires
                        0 <= bucket,
                ;
            }
            (time - into_hour) + bucket * NANOS_PER_MINUTE
        },
        Resolution::Hours(interval) => {
            let into_day = floor_mod(time, NANOS_PER_DAY);
            let hour = into_day / NANOS_PER_HOUR;
            assert(0 <= hour < 24);
            let bucket: i64 = if interval > 24 {
                0
            } else {
                let i = interval as i64;
                proof {
                    lemma_bucket(hour as int, i as int, 24);
                }
                (hour / i) * i
            };
            proof {
                assert(0 <= hour < 24);
                lemma_bucket(hour as int, interval as int, 24);
                assert(bucket * NANOS_PER_HOUR <= into_day) by (nonlinear_arith)
                    requires
                        0 <= bucket <= hour,
                        hour == into_day / NANOS_PER_HOUR,
                        0 <= into_day,
                ;
                assert(bucket * NANOS_PER_HOUR >= 0) by (nonlinear_arith)
                    requires
                        0 <= bucket,
                ;
            }
            (time - into_day) + bucket * NANOS_PER_HOUR
        },
        _ => time,
    }
}

/// The bar whose open time `open_time` gives contains the time: for a time at or after
/// the epoch and a seconds, minutes or hours resolution,
/// `open <= time < open + resolution length`.
pub proof fn law_open_time_contains(resolution: Resolution, time: int)
    requires
        open_time_defined(resolution),
        time >= 0,
        resolution is Seconds || resolution is Minutes || resolution is Hours,
    ensures
        spec_open_time(resolution, time) <= time,
        time < spec_open_time(resolution, time) + crate::standardized_types::resolution_nanos(
            resolution,
        ),
{
    match resolution {
        Resolution::Seconds(interval) => {
            let secs = time / (NANOS_PER_SECOND as int);
            let i = interval as int;
            let r = secs % i;
            assert(secs * NANOS_PER_SECOND <= time < (secs + 1) * NANOS_PER_SECOND) by (nonlinear_arith)
                requires
                    secs == time / (NANOS_PER_SECOND as int),
                    time >= 0,
            ;
            assert(secs >= 0) by (nonlinear_arith)
                requires
                    secs == time / (NANOS_PER_SECOND as int),
                    time >= 0,
            ;
            assert(0 <= r < i) by (nonlinear_arith)
                requires
                    r == secs % i,
                    i > 0,
            ;
            assert((secs - r) * NANOS_PER_SECOND <= secs * NANOS_PER_SECOND) by (nonlinear_arith)
                requires
                    r >= 0,
            ;
            assert((secs + 1) * NANOS_PER_SECOND <= (secs - r) * NANOS_PER_SECOND + i
                * NANOS_PER_SECOND) by (nonlinear_arith)
                requires
                    r < i,
            ;
        },
        Resolution::Minutes(interval) => {
            let i = interval as int;
            let into_hour = time % (NANOS_PER_HOUR as int);
            let minute = into_hour / (NANOS_PER_MINUTE as int);
            let q = minute / i;
            assert(0 <= into_hour);
            assert(minute * NANOS_PER_MINUTE <= into_hour < (minute + 1) * NANOS_PER_MINUTE)
                by (nonlinear_arith)
                requires
                    minute == into_hour / (NANOS_PER_MINUTE as int),
                    into_hour >= 0,
            ;
            assert(0 <= q * i <= minute < q * i + i) by (nonlinear_arith)
                requires
                    q == minute / i,
                    i > 0,
                    minute >= 0,
            ;
            assert(q * i * NANOS_PER_MINUTE <= minute * NANOS_PER_MINUTE) by (nonlinear_arith)
                requires
                    q * i <= minute,
            ;
            assert((minute + 1) * NANOS_PER_MINUTE <= q * i * NANOS_PER_MINUTE + i
                * NANOS_PER_MINUTE) by (nonlinear_arith)
                requires
                    minute < q * i + i,
            ;
        },
        Resolution::Hours(interval) => {
            let i = interval as int;
            let into_day = time % (NANOS_PER_DAY as int);
            let hour = into_day / (NANOS_PER_HOUR as int);
            let q = hour / i;
            assert(0 <= into_day);
            assert(hour * NANOS_PER_HOUR <= into_day < (hour + 1) * NANOS_PER_HOUR) by (nonlinear_arith)
                requires
                    hour == into_day / (NANOS_PER_HOUR as int),
                    into_day >= 0,
            ;
            assert(0 <= q * i <= hour < q * i + i) by (nonlinear_arith)
                requires
                    q == hour / i,
                    i > 0,
                    hour >= 0,
            ;
            assert(q * i * NANOS_PER_HOUR <= hour * NANOS_PER_HOUR) by (nonlinear_arith)
                requires
                    q * i <= hour,
            ;
            assert((hour + 1) * NANOS_PER_HOUR <= q * i * NANOS_PER_HOUR + i * NANOS_PER_HOUR)
                by (nonlinear_arith)
                requires
                    hour < q * i + i,
            ;
        },
        _ => {},
    }
}

/// Whether `c` is one of the characters a symbol name writes as `-`: `/`, `:`, `?`, `_`
/// and the space.
pub open spec fn is_name_separator(c: char) -> bool {
    c == '/' || c == ':' || c == '?' || c == '_' || c == ' '
}

/// `s` with every separator replaced by `-`.
pub open spec fn dashed(s: Seq<char>) -> Seq<char> {
    s.map_values(|c: char| if is_name_separator(c) { '-' } else { c })
}

/// What `str::to_uppercase` returns: the Unicode uppercase of each character, which may
/// be more than one character.
pub uninterp spec fn unicode_uppercase(s: Seq<char>) -> Seq<char>;

/// Whether every character of `s` is ASCII.
pub open spec fn all_ascii(s: Seq<char>) -> bool {
    forall|i: int| 0 <= i < s.len() ==> (#[trigger] s[i] as u32) < 128
}

/// The ASCII uppercase of `c`: `a` to `z` become `A` to `Z`, other characters stay.
pub open spec fn ascii_upper(c: char) -> char {
    if 'a' <= c <= 'z' {
        ((c as u32) - 32) as char
    } else {
        c
    }
}

/// `str::to_uppercase`. Unicode case mapping is not restated here beyond ASCII: on a
/// string of ASCII characters, as its documentation's Unicode mapping gives it, each
/// character maps to its ASCII uppercase.
#[verifier::external_body]
fn to_uppercase(s: &str) -> (r: String)
    ensures
        r@ == unicode_uppercase(s@),
        all_ascii(s@) ==> r@ == s@.map_values(|c: char| ascii_upper(c)),
{
    s.to_uppercase()
}

/// A symbol name in the engine's format: `/`, `:`, `?`, `_` and spaces become `-`, and
/// the result is upper-cased.
pub fn fund_forge_formatted_symbol_name(symbol: &str) -> (r: String)
    ensures
        r@ == unicode_uppercase(dashed(symbol@)),
        all_ascii(symbol@) ==> r@ == dashed(symbol@).map_values(|c: char| ascii_upper(c)),
{
    let n = symbol.unicode_len();
    let mut out = String::new();
    let mut i: usize = 0;
    while i < n
        invariant
            n == symbol@.len(),
            i <= n,
            out@ == dashed(symbol@).subrange(0, i as int),
        decreases n - i,
    {
        let c = symbol.get_char(i);
        let d = if c == '/' || c == ':' || c == '?' || c == '_' || c == ' ' {
            '-'
        } else {
            c
        };
        push_char(&mut out, d);
        proof {
            assert(dashed(symbol@).subrange(0, i + 1) =~= dashed(symbol@).subrange(0, i as int).push(d));
        }
        i = i + 1;
    }
    proof {
        assert(dashed(symbol@).subrange(0, n as int) =~= dashed(symbol@));
        if all_ascii(symbol@) {
            law_formatted_ascii_name(symbol@);
        }
    }
    to_uppercase(out.as_str())
}

/// A dashed name holds none of the separators.
pub proof fn law_dashed_has_no_separator(s: Seq<char>, i: int)
    requires
        0 <= i < s.len(),
    ensures
        !is_name_separator(dashed(s)[i]),
{
}

/// An ASCII name formats to a name of the same length with no separators, upper-cased
/// letter by letter, and formatting it again changes nothing.
pub proof fn law_formatted_ascii_name(s: Seq<char>)
    requires
        all_ascii(s),
    ensures
        all_ascii(dashed(s)),
        ({
            let f = dashed(s).map_values(|c: char| ascii_upper(c));
            &&& f.len() == s.len()
            &&& forall|i: int| 0 <= i < f.len() ==> !is_name_separator(#[trigger] f[i])
            &&& all_ascii(f)
            &&& dashed(f).map_values(|c: char| ascii_upper(c)) == f
        }),
{
    let d = dashed(s);
    assert(all_ascii(d)) by {
        assert forall|i: int| 0 <= i < d.len() implies (#[trigger] d[i] as u32) < 128 by {
            assert((s[i] as u32) < 128);
        }
    }
    let f = d.map_values(|c: char| ascii_upper(c));
    assert forall|i: int| 0 <= i < f.len() implies !is_name_separator(#[trigger] f[i]) && (f[i] as u32) < 128 by {
        assert((d[i] as u32) < 128);
    }
    assert(all_ascii(f));
    let g = dashed(f).map_values(|c: char| ascii_upper(c));
    assert(g =~= f);
}

/// `a / b` as Rust computes it for integers: rounded toward zero.
pub open spec fn trunc_div(a: int, b: int) -> int {
    if a >= 0 {
        a / b
    } else {
        -((-a) / b)
    }
}

/// Writes a duration given as whole seconds and the nanoseconds beyond them.
pub fn format_duration(total_seconds: i64, nanos: i32) -> (r: String)
    ensures
        r@ == duration_text(total_seconds as int, nanos as int),
{
    let days = total_seconds / 86400;
    let hours = (total_seconds % 86400) / 3600;
    let minutes = (total_seconds % 3600) / 60;
    let seconds = total_seconds % 60;
    let mut result = String::new();
    let mut written = false;
    if days > 0 {
        push_signed(&mut result, days);
        result.append("d ");
        written = true;
    }
    if hours > 0 || written {
        push_signed(&mut result, hours);
        result.append("h ");
        written = true;
    }
    if minutes > 0 || written {
        push_signed(&mut result, minutes);
        result.append("m ");
        written = true;
    }
    if seconds > 0 || written {
        push_signed(&mut result, seconds);
        result.append("s ");
    }
    push_signed(&mut result, nanos as i64);
    result.append("ns");
    result
}

/// A duration of `total_seconds` whole seconds and `nanos` further nanoseconds written as
/// days, hours, minutes and seconds (with Rust's integer division and remainder, which
/// round toward zero), each written once a larger unit was or it is positive, then the
/// nanoseconds: such as `"1d 0h 0m 5s 0ns"` or `"12ns"`.
pub open spec fn duration_text(total_seconds: int, nanos: int) -> Seq<char> {
    let days = trunc_div(total_seconds, 86400);
    let hours = trunc_div(trunc_rem(total_seconds, 86400), 3600);
    let minutes = trunc_div(trunc_rem(total_seconds, 3600), 60);
    let seconds = trunc_rem(total_seconds, 60);
    let d = days > 0;
    let h = hours > 0 || d;
    let m = minutes > 0 || h;
    let s = seconds > 0 || m;
    (if d {
        signed_text(days) + "d "@
    } else {
        Seq::<char>::empty()
    }) + (if h {
        signed_text(hours) + "h "@
    } else {
        Seq::<char>::empty()
    }) + (if m {
        signed_text(minutes) + "m "@
    } else {
        Seq::<char>::empty()
    }) + (if s {
        signed_text(seconds) + "s "@
    } else {
        Seq::<char>::empty()
    }) + signed_text(nanos) + "ns"@
}

/// The value of a decimal digit character.
pub open spec fn digit_value(c: char) -> int {
    (c as u32) - ('0' as u32)
}

/// Whether `c` is an ASCII decimal digit.
pub open spec fn is_digit(c: char) -> bool {
    '0' <= c <= '9'
}

/// The number the digits `d` write, most significant first.
pub open spec fn digits_value(d: Seq<char>) -> int
    decreases d.len(),
{
    if d.len() == 0 {
        0
    } else {
        digits_value(d.drop_last()) * 10 + digit_value(d.last())
    }
}

/// Whether every character of `d` is a decimal digit.
pub open spec fn all_digits(d: Seq<char>) -> bool {
    forall|i: int| 0 <= i < d.len() ==> is_digit(#[trigger] d[i])
}

/// The length of the sign in front of an integer: 1 for a leading `+` or `-`, else 0.
pub open spec fn sign_length(s: Seq<char>) -> int {
    if s.len() > 0 && (s[0] == '-' || s[0] == '+') {
        1
    } else {
        0
    }
}

/// What `i64::from_str` reads from `s`: an optional `+` or `-`, then one or more digits,
/// nothing else, within the range of `i64`.
pub open spec fn spec_parse_i64(s: Seq<char>) -> Option<i64> {
    let negative = s.len() > 0 && s[0] == '-';
    let digits = s.subrange(sign_length(s), s.len() as int);
    if digits.len() == 0 || !all_digits(digits) {
        None
    } else {
        let value = if negative {
            -digits_value(digits)
        } else {
            digits_value(digits)
        };
        if i64::MIN <= value <= i64::MAX {
            Some(value as i64)
        } else {
            None
        }
    }
}

proof fn lemma_digits_value_push(d: Seq<char>, c: char)
    ensures
        digits_value(d.push(c)) == digits_value(d) * 10 + digit_value(c),
{
    assert(d.push(c).drop_last() =~= d);
}

proof fn lemma_digits_value_nonneg(d: Seq<char>)
    requires
        all_digits(d),
    ensures
        digits_value(d) >= 0,
    decreases d.len(),
{
    if d.len() > 0 {
        lemma_digits_value_nonneg(d.drop_last());
    }
}

/// The number the digits of `s` from `start` on write, when they all are digits and the
/// number is at most 2^63.
fn read_magnitude(s: &str, start: usize, n: usize) -> (r: Option<i128>)
    requires
        n == s@.len(),
        start <= n,
    ensures
        match r {
            Some(m) => all_digits(s@.subrange(start as int, n as int)) && m == digits_value(
                s@.subrange(start as int, n as int),
            ) && 0 <= m <= 9223372036854775808,
            None => !all_digits(s@.subrange(start as int, n as int)) || digits_value(
                s@.subrange(start as int, n as int),
            ) > 9223372036854775808,
        },
{
    let ghost digits = s@.subrange(start as int, n as int);
    let mut magnitude: i128 = 0;
    let mut i: usize = start;
    while i < n
        invariant
            n == s@.len(),
            start <= i <= n,
            digits == s@.subrange(start as int, n as int),
            all_digits(s@.subrange(start as int, i as int)),
            magnitude == digits_value(s@.subrange(start as int, i as int)),
            0 <= magnitude <= 9223372036854775808,
        decreases n - i,
    {
        let c = s.get_char(i);
        let prefix = Ghost(s@.subrange(start as int, i + 1));
        proof {
            assert(prefix@ =~= s@.subrange(start as int, i as int).push(c));
            lemma_digits_value_push(s@.subrange(start as int, i as int), c);
        }
        if !('0' <= c && c <= '9') {
            proof {
                assert(digits[i - start] == c);
            }
            return None;
        }
        magnitude = magnitude * 10 + (c as u32 - '0' as u32) as i128;
        if magnitude > 9223372036854775808 {
            proof {
                if all_digits(digits) {
                    lemma_prefix_value_bound(digits, i + 1 - start);
                    assert(digits.subrange(0, i + 1 - start) =~= prefix@);
                }
            }
            return None;
        }
        proof {
            assert(all_digits(prefix@));
        }
        i = i + 1;
    }
    proof {
        assert(s@.subrange(start as int, i as int) =~= digits);
    }
    Some(magnitude)
}

/// Reads an integer as `i64::from_str` does.
pub fn parse_i64(s: &str) -> (r: Option<i64>)
    ensures
        r == spec_parse_i64(s@),
{
    let n = s.unicode_len();
    let negative = n > 0 && s.get_char(0) == '-';
    let start: usize = if n > 0 && (s.get_char(0) == '-' || s.get_char(0) == '+') {
        1
    } else {
        0
    };
    if start >= n {
        return None;
    }
    match read_magnitude(s, start, n) {
        None => None,
        Some(magnitude) => {
            if negative {
                Some((-magnitude) as i64)
            } else if magnitude > 9223372036854775807 {
                None
            } else {
                Some(magnitude as i64)
            }
        },
    }
}

/// `n` digits write a number below `10^n`.
pub proof fn lemma_digits_value_bound(d: Seq<char>)
    requires
        all_digits(d),
    ensures
        0 <= digits_value(d) < crate::decimal::pow10(d.len()),
    decreases d.len(),
{
    if d.len() > 0 {
        let init = d.drop_last();
        assert(all_digits(init)) by {
            assert forall|i: int| 0 <= i < init.len() implies is_digit(#[trigger] init[i]) by {
                assert(init[i] == d[i]);
            }
        }
        lemma_digits_value_bound(init);
        assert(is_digit(d[d.len() - 1]));
        let v = digits_value(init);
        let p = crate::decimal::pow10(init.len());
        let c = digit_value(d.last());
        assert(0 <= c <= 9);
        assert(v * 10 + c < p * 10) by (nonlinear_arith)
            requires
                0 <= v < p,
                0 <= c <= 9,
        ;
    }
}

/// What `i64::from_str` reads from four characters lies between -9999 and 9999.
pub proof fn lemma_short_parse_bound(s: Seq<char>)
    requires
        s.len() == 4,
    ensures
        spec_parse_i64(s) matches Some(v) ==> -9999 <= v <= 9999,
{
    let digits = s.subrange(sign_length(s), s.len() as int);
    if digits.len() > 0 && all_digits(digits) {
        lemma_digits_value_bound(digits);
        assert(crate::decimal::pow10(4) == 10000) by {
            reveal_with_fuel(crate::decimal::pow10, 5);
        }
        assert(crate::decimal::pow10(3) == 1000) by {
            reveal_with_fuel(crate::decimal::pow10, 4);
        }
    }
}

/// A prefix of a digit string never writes a larger number than the whole.
proof fn lemma_prefix_value_bound(d: Seq<char>, k: int)
    requires
        0 <= k <= d.len(),
        all_digits(d),
    ensures
        digits_value(d.subrange(0, k)) <= digits_value(d),
    decreases d.len(),
{
    if k < d.len() {
        let init = d.drop_last();
        assert(init.subrange(0, k) =~= d.subrange(0, k));
        lemma_prefix_value_bound(init, k);
        lemma_digits_value_nonneg(init);
        assert(digits_value(d) == digits_value(init) * 10 + digit_value(d.last()));
    } else {
        assert(d.subrange(0, k) =~= d);
    }
}

/// The timestamp chrono's `NaiveDateTime::parse_from_str(s, format)` reads, in UTC seconds,
/// when it reads one.
pub uninterp spec fn parsed_timestamp(s: Seq<char>, format: Seq<char>) -> Option<int>;

/// `NaiveDateTime::parse_from_str(s, format)` read as a UTC timestamp in seconds. The
/// format language is chrono's and is not restated here.
#[verifier::external_body]
fn parse_timestamp(s: &str, format: &str) -> (r: Option<i64>)
    ensures
        match parsed_timestamp(s@, format@) {
            Some(t) => r == Some(t as i64) && i64::MIN <= t <= i64::MAX,
            None => r is None,
        },
{
    match chrono::NaiveDateTime::parse_from_str(s, format) {
        Ok(datetime) => Some(datetime.and_utc().timestamp()),
        Err(_) => None,
    }
}

/// The date and time formats tried, in order, after a plain number.
pub open spec fn timestamp_formats() -> Seq<Seq<char>> {
    seq![
        "%Y-%m-%dT%H:%M:%SZ"@,
        "%Y-%m-%dT%H:%M:%S%.fZ"@,
        "%Y-%m-%dT%H:%M:%S%.f%:z"@,
        "%Y-%m-%dT%H:%M:%S%z"@,
        "%Y-%m-%dT%H:%M:%SZ"@,
        "%a, %d %b %Y %H:%M:%S %z"@,
        "%m/%d/%Y %H:%M:%S"@,
        "%m/%d/%Y %I:%M:%S %p"@,
        "%m-%d-%Y %H:%M"@,
        "%d/%m/%Y %H:%M:%S"@,
        "%d/%m/%Y %I:%M:%S %p"@,
        "%d-%m-%Y %H:%M"@,
        "%Y-%m-%d %H:%M:%S"@,
        "%Y.%m.%d %H:%M:%S"@,
        "%b %d, %Y, %H:%M:%S"@,
    ]
}

/// The timestamp of the first format in `formats` that reads `s`.
pub open spec fn first_parsed(s: Seq<char>, formats: Seq<Seq<char>>) -> Option<int>
    decreases formats.len(),
{
    if formats.len() == 0 {
        None
    } else {
        match parsed_timestamp(s, formats[0]) {
            Some(t) => Some(t),
            None => first_parsed(s, formats.drop_first()),
        }
    }
}

/// The timestamp a date time string gives: the string itself when it is an integer, else
/// what the first format that reads it gives.
pub open spec fn spec_timestamp_from_str(s: Seq<char>) -> Option<int> {
    match spec_parse_i64(s) {
        Some(v) => Some(v as int),
        None => first_parsed(s, timestamp_formats()),
    }
}

/// Converts a date time string to a UTC timestamp in seconds; a string that already is a
/// timestamp is returned as it is. The common broker and vendor formats are tried in turn.
pub fn timestamp_from_str(datetime_string: &str) -> (r: Result<i64, ()>)
    ensures
        match spec_timestamp_from_str(datetime_string@) {
            Some(t) => r == Ok::<i64, ()>(t as i64),
            None => r is Err,
        },
{
    if let Some(value) = parse_i64(datetime_string) {
        return Ok(value);
    }
    let formats: [&str; 15] = [
        "%Y-%m-%dT%H:%M:%SZ",
        "%Y-%m-%dT%H:%M:%S%.fZ",
        "%Y-%m-%dT%H:%M:%S%.f%:z",
        "%Y-%m-%dT%H:%M:%S%z",
        "%Y-%m-%dT%H:%M:%SZ",
        "%a, %d %b %Y %H:%M:%S %z",
        "%m/%d/%Y %H:%M:%S",
        "%m/%d/%Y %I:%M:%S %p",
        "%m-%d-%Y %H:%M",
        "%d/%m/%Y %H:%M:%S",
        "%d/%m/%Y %I:%M:%S %p",
        "%d-%m-%Y %H:%M",
        "%Y-%m-%d %H:%M:%S",
        "%Y.%m.%d %H:%M:%S",
        "%b %d, %Y, %H:%M:%S",
    ];
    let ghost all = timestamp_formats();
    assert(formats@.map_values(|f: &str| f@) =~= all);
    assert(all.subrange(0, 15) =~= all);
    let mut i: usize = 0;
    while i < 15
        invariant
            i <= 15,
            spec_parse_i64(datetime_string@) is None,
            all == timestamp_formats(),
            formats@.map_values(|f: &str| f@) == all,
            first_parsed(datetime_string@, all) == first_parsed(
                datetime_string@,
                all.subrange(i as int, 15),
            ),
        decreases 15 - i,
    {
        proof {
            assert(all.subrange(i as int, 15).drop_first() =~= all.subrange(i + 1, 15));
            assert(formats@[i as int]@ == all[i as int]);
            assert(all.subrange(i as int, 15)[0] == all[i as int]);
        }
        let format = formats[i];
        if let Some(t) = parse_timestamp(datetime_string, format) {
            proof {
                assert(format@ == all[i as int]);
                assert(parsed_timestamp(datetime_string@, format@) == Some(t as int));
                let sub = all.subrange(i as int, 15);
                assert(sub.len() > 0);
                assert(parsed_timestamp(datetime_string@, sub[0]) is Some);
                assert(first_parsed(datetime_string@, sub) == parsed_timestamp(
                    datetime_string@,
                    sub[0],
                ));
            }
            return Ok(t);
        }
        i = i + 1;
    }
    Err(())
}

/// `(x / i) * i` is the largest multiple of `i` not above `x`, and it is 0 when `i > limit > x`.
proof fn lemma_bucket(x: int, i: int, limit: int)
    requires
        0 <= x < limit,
        i > 0,
    ensures
        0 <= (x / i) * i <= x,
        i > limit ==> (x / i) * i == 0,
{
    assert(0 <= (x / i) * i <= x) by (nonlinear_arith)
        requires
            0 <= x,
            i > 0,
    ;
    if i > limit {
        assert(x / i == 0) by (nonlinear_arith)
            requires
                0 <= x < i,
        ;
    }
}

/// `a % b` with the sign of `a`, as Rust's `%` gives it, for a positive `b`.
fn trunc_rem_i64(a: i64, b: i64) -> (r: i64)
    requires
        b > 0,
        a > i64::MIN,
    ensures
        r == trunc_rem(a as int, b as int),
        a >= 0 ==> 0 <= r <= a,
        a < 0 ==> a <= r <= 0,
{
    if a >= 0 {
        proof {
            assert(0 <= a % b <= a) by (nonlinear_arith)
                requires
                    a >= 0,
                    b > 0,
            ;
        }
        a % b
    } else {
        let p = -a;
        proof {
            assert(0 <= p % b <= p) by (nonlinear_arith)
                requires
                    p >= 0,
                    b > 0,
            ;
        }
        -(p % b)
    }
}

/// `a.div_euclid(b)` for a positive `b`.
fn floor_div(a: i64, b: i64) -> (r: i64)
    requires
        b > 0,
    ensures
        r == a as int / b as int,
        r * b <= a < r * b + b,
{
    if a >= 0 {
        proof {
            assert((a / b) * b <= a < (a / b) * b + b) by (nonlinear_arith)
                requires
                    a >= 0,
                    b > 0,
            ;
        }
        a / b
    } else {
        let p = -(a + 1);
        let q = p / b;
        proof {
            assert(q * b <= p < q * b + b) by (nonlinear_arith)
                requires
                    q == p / b,
                    b > 0,
                    p >= 0,
            ;
            assert((-q - 1) * b <= a < (-q - 1) * b + b) by (nonlinear_arith)
                requires
                    q * b <= p < q * b + b,
                    p == -(a + 1),
            ;
            assert(a as int / b as int == -q - 1) by (nonlinear_arith)
                requires
                    (-q - 1) * b <= a < (-q - 1) * b + b,
                    b > 0,
            ;
        }
        -q - 1
    }
}

/// `a.rem_euclid(b)` for a positive `b`.
fn floor_mod(a: i64, b: i64) -> (r: i64)
    requires
        b > 0,
        a >= i64::MIN + b,
    ensures
        r == a as int % b as int,
        0 <= r < b,
{
    let q = floor_div(a, b);
    proof {
        assert(a as int % b as int == a - q * b) by (nonlinear_arith)
            requires
                q == a as int / b as int,
                b > 0,
        ;
    }
    a - q * b
}


/// The year and month, in UTC, of a time given in nanoseconds since the epoch, as chrono
/// computes them.
pub uninterp spec fn utc_year_month(utc_nanos: int) -> (int, int);

/// `DateTime::from_timestamp_nanos(..).date_naive()`, read as year and month. The calendar
/// is chrono's and is not restated here; chrono documents the month as 1 to 12 and keeps
/// every date's year within 262143 of year zero.
#[verifier::external_body]
fn utc_calendar_month(utc_nanos: i64) -> (r: (i32, u32))
    ensures
        (r.0 as int, r.1 as int) == utc_year_month(utc_nanos as int),
        -262144 <= r.0 <= 262143,
        1 <= r.1 <= 12,
{
    let date = chrono::DateTime::from_timestamp_nanos(utc_nanos).date_naive();
    (date.year(), date.month())
}

/// The number of days from 1970-01-01 to `year-month-day` in the proleptic Gregorian
/// calendar, negative before it (counted in 400-year eras that start on March 1st).
pub open spec fn days_from_civil(year: int, month: int, day: int) -> int {
    let y = if month <= 2 {
        year - 1
    } else {
        year
    };
    let era = y / 400;
    let year_of_era = y - era * 400;
    let shifted_month = if month > 2 {
        month - 3
    } else {
        month + 9
    };
    let day_of_year = (153 * shifted_month + 2) / 5 + day - 1;
    let day_of_era = year_of_era * 365 + year_of_era / 4 - year_of_era / 100 + day_of_year;
    era * 146097 + day_of_era - 719468
}

/// Midnight UTC on the first day of a month, in nanoseconds since the epoch; `None` where
/// chrono's calendar has no such date or the instant does not fit an `i64`.
pub open spec fn month_start(year: int, month: int) -> Option<i64> {
    let nanos = days_from_civil(year, month, 1) * 86_400_000_000_000;
    if calendar_date_exists(year, month, 1) && i64::MIN <= nanos <= i64::MAX {
        Some(nanos as i64)
    } else {
        None
    }
}

/// `NaiveDate::from_ymd_opt(year, month, 1)` at `00:00:00`, read in UTC with
/// `timestamp_nanos_opt`: chrono counts the days since 1970-01-01 in the Gregorian
/// calendar, times 86400 seconds, and gives `None` when the nanoseconds overflow an `i64`.
#[verifier::external_body]
fn utc_month_start(year: i32, month: u32) -> (r: Option<i64>)
    ensures
        r == month_start(year as int, month as int),
{
    match chrono::NaiveDate::from_ymd_opt(year, month, 1) {
        Some(date) => date.and_time(chrono::NaiveTime::MIN).and_utc().timestamp_nanos_opt(),
        None => None,
    }
}

/// The calendar month after `(year, month)`: January of the next year after December.
pub fn following_month(year: i32, month: u32) -> (r: (i32, u32))
    requires
        1 <= month <= 12,
        year < i32::MAX,
    ensures
        r == (if month == 12 {
            ((year + 1) as i32, 1u32)
        } else {
            (year, (month + 1) as u32)
        }),
{
    if month == 12 {
        (year + 1, 1)
    } else {
        (year, month + 1)
    }
}

/// Midnight UTC on the first day of the month after the one containing `last_time` (UTC
/// nanoseconds), or `None` where that instant does not fit the nanosecond range.
pub fn next_month(last_time: i64) -> (r: Option<i64>)
    ensures
        ({
            let (year, month) = utc_year_month(last_time as int);
            r == (if month == 12 {
                month_start(year + 1, 1)
            } else {
                month_start(year, month + 1)
            })
        }),
{
    let (year, month) = utc_calendar_month(last_time);
    let (next_year, next) = following_month(year, month);
    utc_month_start(next_year, next)
}


/// An instant with the UTC offset it is shown at: nanoseconds since the epoch, and the
/// offset of local time from UTC in seconds.
#[derive(Clone, Copy, Debug, PartialEq, Eq, Structural)]
pub struct ZonedTime {
    pub utc_nanos: i64,
    pub offset_seconds: i32,
}

/// The UTC offsets, in seconds, that the wall-clock time `local_nanos` (nanoseconds since
/// the epoch of that wall-clock reading, as if in UTC) has in the time zone named `zone`,
/// as chrono-tz finds them: one; two where clocks fall back, the one `earliest()` picks
/// first; none where clocks spring forward over it. `None` where chrono-tz knows no zone
/// of that name.
pub uninterp spec fn zone_offsets(zone: Seq<char>, local_nanos: int) -> Option<Seq<int>>;

/// Parses `zone` as a `chrono_tz::Tz` and maps the wall-clock time with
/// `from_local_datetime`, reading each resulting offset with `fix().local_minus_utc()`.
/// The time zone rules are chrono-tz's and are not restated here; chrono documents a
/// fixed offset as strictly between -86400 and 86400 seconds.
#[verifier::external_body]
fn local_offsets(zone: &str, local_nanos: i64) -> (r: Option<Vec<i32>>)
    ensures
        r matches Some(v) ==> zone_offsets(zone@, local_nanos as int) == Some(
            v@.map_values(|o: i32| o as int),
        ),
        r is None ==> zone_offsets(zone@, local_nanos as int) is None,
        r matches Some(v) ==> v@.len() <= 2 && forall|i: int|
            0 <= i < v@.len() ==> -86400 < #[trigger] v@[i] < 86400,
{
    let tz: chrono_tz::Tz = match zone.parse() {
        Ok(tz) => tz,
        Err(_) => return None,
    };
    let local = chrono::DateTime::from_timestamp_nanos(local_nanos).naive_utc();
    match tz.from_local_datetime(&local) {
        chrono::LocalResult::Single(a) => Some(vec![a.offset().fix().local_minus_utc()]),
        chrono::LocalResult::Ambiguous(a, b) => Some(
            vec![a.offset().fix().local_minus_utc(), b.offset().fix().local_minus_utc()],
        ),
        chrono::LocalResult::None => Some(Vec::new()),
    }
}

/// The wall-clock time `local_nanos` shown at `offset` seconds from UTC, where the
/// instant is representable.
pub open spec fn zoned_at(local_nanos: int, offset: int) -> Option<ZonedTime> {
    let utc = local_nanos - offset * NANOS_PER_SECOND;
    if i64::MIN <= utc <= i64::MAX && i32::MIN <= offset <= i32::MAX {
        Some(ZonedTime { utc_nanos: utc as i64, offset_seconds: offset as i32 })
    } else {
        None
    }
}

/// A wall-clock time in `zone` as market schedules read it: the single instant it names;
/// the first of two where clocks fall back; where clocks spring forward over it, the
/// instant an hour later names (the first, should that be ambiguous). `None` for an
/// unknown zone, an hour later that names no instant either, or an instant outside the
/// nanosecond range.
pub open spec fn spec_resolve_market_time(zone: Seq<char>, local_nanos: int) -> Option<ZonedTime> {
    match zone_offsets(zone, local_nanos) {
        None => None,
        Some(offsets) => if offsets.len() > 0 {
            zoned_at(local_nanos, offsets[0])
        } else {
            let later = local_nanos + NANOS_PER_HOUR;
            if later <= i64::MAX {
                match zone_offsets(zone, later) {
                    Some(shifted) => if shifted.len() > 0 {
                        zoned_at(later, shifted[0])
                    } else {
                        None
                    },
                    None => None,
                }
            } else {
                None
            }
        },
    }
}

/// The wall-clock time `local_nanos` at `offset` seconds from UTC.
fn zone_time_at(local_nanos: i64, offset: i32) -> (r: Option<ZonedTime>)
    requires
        -86400 < offset < 86400,
    ensures
        r == zoned_at(local_nanos as int, offset as int),
{
    let shift: i64 = offset as i64 * NANOS_PER_SECOND;
    match local_nanos.checked_sub(shift) {
        Some(utc_nanos) => Some(ZonedTime { utc_nanos, offset_seconds: offset }),
        None => None,
    }
}

/// Resolves a wall-clock time (nanoseconds since the epoch of that reading, as if in UTC)
/// in the time zone named `zone`: during a fall-back the first occurrence is taken, and a
/// time skipped by a spring-forward moves an hour later, keeping market schedules aligned.
pub fn resolve_market_datetime_in_timezone(zone: &str, local_nanos: i64) -> (r: Option<ZonedTime>)
    ensures
        r == spec_resolve_market_time(zone@, local_nanos as int),
{
    match local_offsets(zone, local_nanos) {
        None => None,
        Some(offsets) => {
            if offsets.len() > 0 {
                zone_time_at(local_nanos, offsets[0])
            } else if local_nanos <= i64::MAX - NANOS_PER_HOUR {
                let later = local_nanos + NANOS_PER_HOUR;
                match local_offsets(zone, later) {
                    Some(shifted) => {
                        if shifted.len() > 0 {
                            zone_time_at(later, shifted[0])
                        } else {
                            None
                        }
                    },
                    None => None,
                }
            } else {
                None
            }
        },
    }
}


/// The instant, in nanoseconds since the epoch, that chrono's `FromStr` for
/// `DateTime<Utc>` reads from `s`, when it reads one.
pub uninterp spec fn parsed_utc_nanos(s: Seq<char>) -> Option<int>;

/// `s.parse::<DateTime<Utc>>()` read with `timestamp_nanos_opt()`. The accepted formats
/// are chrono's and are not restated here; `None` where the string does not parse or the
/// instant lies outside the nanosecond range of an `i64`.
#[verifier::external_body]
fn parse_utc_datetime(s: &str) -> (r: Option<i64>)
    ensures
        r matches Some(t) ==> parsed_utc_nanos(s@) == Some(t as int),
        r is None ==> (parsed_utc_nanos(s@) matches Some(t) ==> !(i64::MIN <= t <= i64::MAX)),
{
    match s.parse::<chrono::DateTime<chrono::Utc>>() {
        Ok(time) => time.timestamp_nanos_opt(),
        Err(_) => None,
    }
}

/// The offset from UTC, in seconds, that the time zone named `zone` has at the instant
/// `utc_nanos`, as chrono-tz finds it; `None` where chrono-tz knows no zone of that name.
pub uninterp spec fn zone_offset_at(zone: Seq<char>, utc_nanos: int) -> Option<int>;

/// Parses `zone` as a `chrono_tz::Tz` and reads `offset_from_utc_datetime` at the instant
/// with `fix().local_minus_utc()`. The time zone rules are chrono-tz's and are not
/// restated here; chrono documents a fixed offset as strictly between -86400 and 86400
/// seconds.
#[verifier::external_body]
fn offset_at_utc(zone: &str, utc_nanos: i64) -> (r: Option<i32>)
    ensures
        r matches Some(o) ==> zone_offset_at(zone@, utc_nanos as int) == Some(o as int) && -86400
            < o < 86400,
        r is None ==> zone_offset_at(zone@, utc_nanos as int) is None,
{
    let tz: chrono_tz::Tz = match zone.parse() {
        Ok(tz) => tz,
        Err(_) => return None,
    };
    let utc = chrono::DateTime::from_timestamp_nanos(utc_nanos).naive_utc();
    Some(tz.offset_from_utc_datetime(&utc).fix().local_minus_utc())
}

/// The instant `utc_nanos` shown in the time zone named `zone`, the hour adjusted.
pub open spec fn spec_utc_to_local(zone: Seq<char>, utc_nanos: i64) -> Option<ZonedTime> {
    match zone_offset_at(zone, utc_nanos as int) {
        Some(o) => Some(ZonedTime { utc_nanos, offset_seconds: o as i32 }),
        None => None,
    }
}

/// A UTC time (nanoseconds since the epoch) as local time in the time zone named `zone`:
/// the same instant with the zone's offset at that instant; `None` for an unknown zone.
pub fn time_convert_utc_to_local(zone: &str, utc_nanos: i64) -> (r: Option<ZonedTime>)
    ensures
        r == spec_utc_to_local(zone@, utc_nanos),
{
    match offset_at_utc(zone, utc_nanos) {
        Some(offset_seconds) => Some(ZonedTime { utc_nanos, offset_seconds }),
        None => None,
    }
}

/// A UTC time string shown in the time zone named `zone`: the instant the string names,
/// with the zone's offset at that instant. `None` where the string names no instant in
/// the nanosecond range, or the zone is unknown.
pub open spec fn spec_local_from_utc_str(zone: Seq<char>, time: Seq<char>) -> Option<ZonedTime> {
    match parsed_utc_nanos(time) {
        Some(t) => if i64::MIN <= t <= i64::MAX {
            spec_utc_to_local(zone, t as i64)
        } else {
            None
        },
        None => None,
    }
}

/// Reads a UTC time string and shows it as local time in the time zone named `zone`,
/// the hour adjusted.
pub fn time_local_from_utc_str(zone: &str, time: &str) -> (r: Option<ZonedTime>)
    ensures
        r == spec_local_from_utc_str(zone@, time@),
{
    match parse_utc_datetime(time) {
        Some(utc_nanos) => time_convert_utc_to_local(zone, utc_nanos),
        None => None,
    }
}

/// A resolved market time reads back as the wall-clock time asked for, shown at its
/// offset; only a time skipped by a spring-forward reads back an hour later.
pub proof fn law_resolved_time_reads_back(zone: Seq<char>, local_nanos: int)
    ensures
        spec_resolve_market_time(zone, local_nanos) matches Some(z) ==> {
            let shown = z.utc_nanos + z.offset_seconds * NANOS_PER_SECOND;
            ||| shown == local_nanos
            ||| (shown == local_nanos + NANOS_PER_HOUR && zone_offsets(zone, local_nanos)
                == Some(Seq::<int>::empty()))
        },
{
}

} // verus!

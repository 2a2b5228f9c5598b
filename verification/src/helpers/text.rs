//! Text comparison on the characters of a string.
use vstd::prelude::*;
use vstd::string::*;

verus! {

/// Whether `a` and `b` hold the same characters.
pub fn str_eq(a: &str, b: &str) -> (r: bool)
    ensures
        r == (a@ == b@),
{
    let n = a.unicode_len();
    if n != b.unicode_len() {
        return false;
    }
    let mut i: usize = 0;
    while i < n
        invariant
            n == a@.len(),
            n == b@.len(),
            i <= n,
            forall|j: int| 0 <= j < i ==> a@[j] == b@[j],
        decreases n - i,
    {
        if a.get_char(i) != b.get_char(i) {
            return false;
        }
        i = i + 1;
    }
    assert(a@ =~= b@);
    true
}

/// Whether `s` begins with `prefix`.
pub open spec fn spec_starts_with(s: Seq<char>, prefix: Seq<char>) -> bool {
    prefix.len() <= s.len() && s.subrange(0, prefix.len() as int) == prefix
}

/// Whether `s` begins with `prefix`.
pub fn starts_with(s: &str, prefix: &str) -> (r: bool)
    ensures
        r == spec_starts_with(s@, prefix@),
{
    let n = s.unicode_len();
    let p = prefix.unicode_len();
    if p > n {
        return false;
    }
    let mut i: usize = 0;
    while i < p
        invariant
            n == s@.len(),
            p == prefix@.len(),
            p <= n,
            i <= p,
            forall|j: int| 0 <= j < i ==> s@[j] == prefix@[j],
        decreases p - i,
    {
        if s.get_char(i) != prefix.get_char(i) {
            return false;
        }
        i = i + 1;
    }
    assert(s@.subrange(0, p as int) =~= prefix@);
    true
}

/// `s` with every leading repetition of a non-empty `prefix` removed.
pub open spec fn strip_repeated(s: Seq<char>, prefix: Seq<char>) -> Seq<char>
    decreases s.len(),
{
    if prefix.len() > 0 && spec_starts_with(s, prefix) {
        strip_repeated(s.subrange(prefix.len() as int, s.len() as int), prefix)
    } else {
        s
    }
}

/// `str::trim_start_matches` with a string pattern: removes every leading repetition of a
/// non-empty `prefix`.
pub fn trim_start_matches<'a>(s: &'a str, prefix: &str) -> (r: &'a str)
    requires
        prefix@.len() > 0,
    ensures
        r@ == strip_repeated(s@, prefix@),
{
    let p = prefix.unicode_len();
    let mut rest = s;
    while starts_with(rest, prefix)
        invariant
            p == prefix@.len(),
            p > 0,
            strip_repeated(rest@, prefix@) == strip_repeated(s@, prefix@),
        decreases rest@.len(),
    {
        let n = rest.unicode_len();
        rest = rest.substring_char(p, n);
    }
    rest
}

/// Whether `c` has the Unicode White_Space property, as `char::is_whitespace` tests.
pub open spec fn is_white_space(c: char) -> bool {
    let u = c as u32;
    ||| 0x09 <= u <= 0x0d
    ||| u == 0x20
    ||| u == 0x85
    ||| u == 0xa0
    ||| u == 0x1680
    ||| 0x2000 <= u <= 0x200a
    ||| u == 0x2028
    ||| u == 0x2029
    ||| u == 0x202f
    ||| u == 0x205f
    ||| u == 0x3000
}

fn white_space(c: char) -> (r: bool)
    ensures
        r == is_white_space(c),
{
    let u = c as u32;
    (0x09 <= u && u <= 0x0d) || u == 0x20 || u == 0x85 || u == 0xa0 || u == 0x1680 || (0x2000
        <= u && u <= 0x200a) || u == 0x2028 || u == 0x2029 || u == 0x202f || u == 0x205f || u
        == 0x3000
}

/// The number of leading white-space characters of `s`.
pub open spec fn leading_space(s: Seq<char>) -> nat
    decreases s.len(),
{
    if s.len() > 0 && is_white_space(s[0]) {
        1 + leading_space(s.subrange(1, s.len() as int))
    } else {
        0
    }
}

/// The number of trailing white-space characters of `s`.
pub open spec fn trailing_space(s: Seq<char>) -> nat
    decreases s.len(),
{
    if s.len() > 0 && is_white_space(s.last()) {
        1 + trailing_space(s.drop_last())
    } else {
        0
    }
}

/// `s` without its leading and trailing white space, as `str::trim` gives it.
pub open spec fn spec_trim(s: Seq<char>) -> Seq<char> {
    let start = leading_space(s);
    if start >= s.len() {
        Seq::<char>::empty()
    } else {
        let rest = s.subrange(start as int, s.len() as int);
        rest.subrange(0, rest.len() - trailing_space(rest))
    }
}

/// `s` without its leading and trailing white space.
pub fn trim(s: &str) -> (r: &str)
    ensures
        r@ == spec_trim(s@),
{
    let n = s.unicode_len();
    let mut start: usize = 0;
    proof {
        assert(s@.subrange(0, n as int) =~= s@);
    }
    while start < n && white_space(s.get_char(start))
        invariant
            n == s@.len(),
            start <= n,
            leading_space(s@) == start + leading_space(s@.subrange(start as int, n as int)),
        decreases n - start,
    {
        proof {
            assert(s@.subrange(start as int, n as int).subrange(1, n - start) =~= s@.subrange(
                start + 1,
                n as int,
            ));
        }
        start = start + 1;
    }
    proof {
        if start < n {
            assert(s@.subrange(start as int, n as int)[0] == s@[start as int]);
        }
        assert(leading_space(s@.subrange(start as int, n as int)) == 0);
    }
    if start == n {
        return s.substring_char(n, n);
    }
    let rest = s.substring_char(start, n);
    let m = n - start;
    let mut end: usize = m;
    proof {
        assert(rest@.subrange(0, m as int) =~= rest@);
    }
    while end > 0 && white_space(rest.get_char(end - 1))
        invariant
            m == rest@.len(),
            end <= m,
            trailing_space(rest@) == (m - end) + trailing_space(rest@.subrange(0, end as int)),
        decreases end,
    {
        proof {
            assert(rest@.subrange(0, end as int).drop_last() =~= rest@.subrange(0, end - 1));
            assert(rest@.subrange(0, end as int).last() == rest@[end - 1]);
        }
        end = end - 1;
    }
    proof {
        if end > 0 {
            assert(rest@.subrange(0, end as int).last() == rest@[end - 1]);
        }
        assert(trailing_space(rest@.subrange(0, end as int)) == 0);
    }
    rest.substring_char(0, end)
}

/// The decimal digit `d` as a character.
pub open spec fn digit_char(d: int) -> char {
    if d == 0 {
        '0'
    } else if d == 1 {
        '1'
    } else if d == 2 {
        '2'
    } else if d == 3 {
        '3'
    } else if d == 4 {
        '4'
    } else if d == 5 {
        '5'
    } else if d == 6 {
        '6'
    } else if d == 7 {
        '7'
    } else if d == 8 {
        '8'
    } else {
        '9'
    }
}

/// The character of the decimal digit `d`.
pub(crate) fn digit(d: i32) -> (c: char)
    requires
        0 <= d <= 9,
    ensures
        c == digit_char(d as int),
{
    match d {
        0 => '0',
        1 => '1',
        2 => '2',
        3 => '3',
        4 => '4',
        5 => '5',
        6 => '6',
        7 => '7',
        8 => '8',
        _ => '9',
    }
}

/// `String::push`: appends one character.
#[verifier::external_body]
pub(crate) fn push_char(text: &mut String, c: char)
    ensures
        final(text)@ == old(text)@.push(c),
{
    text.push(c);
}

/// `n` in decimal digits, without leading zeros.
pub open spec fn decimal_text(n: nat) -> Seq<char>
    decreases n,
{
    if n < 10 {
        seq![digit_char(n as int)]
    } else {
        decimal_text(n / 10) + seq![digit_char((n % 10) as int)]
    }
}

/// `n` in decimal digits, with a minus sign when negative, as `{}` writes an integer.
pub open spec fn signed_text(n: int) -> Seq<char> {
    if n < 0 {
        seq!['-'] + decimal_text((-n) as nat)
    } else {
        decimal_text(n as nat)
    }
}

/// Appends `n` in decimal digits.
pub(crate) fn push_decimal(text: &mut String, n: u64)
    ensures
        final(text)@ == old(text)@ + decimal_text(n as nat),
    decreases n,
{
    if n >= 10 {
        push_decimal(text, n / 10);
    }
    push_char(text, digit((n % 10) as i32));
    proof {
        assert(old(text)@ + decimal_text(n as nat) =~= if n >= 10 {
            old(text)@ + decimal_text((n / 10) as nat) + seq![digit_char((n % 10) as int)]
        } else {
            old(text)@ + seq![digit_char((n % 10) as int)]
        });
    }
}

/// Appends `n` as `{}` writes it.
pub(crate) fn push_signed(text: &mut String, n: i64)
    ensures
        final(text)@ == old(text)@ + signed_text(n as int),
{
    if n < 0 {
        push_char(text, '-');
        let magnitude: u64 = if n == i64::MIN {
            9223372036854775808u64
        } else {
            (-n) as u64
        };
        push_decimal(text, magnitude);
        proof {
            assert(old(text)@ + signed_text(n as int) =~= old(text)@.push('-') + decimal_text(
                magnitude as nat,
            ));
        }
    } else {
        push_decimal(text, n as u64);
    }
}

} // verus!

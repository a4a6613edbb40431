use vstd::prelude::*;
use crate::scan::{find, find_at, chars_of};

verus! {

/// The decimal digit character of `d`.
pub open spec fn digit_char(d: int) -> char {
    ('0' as int + d) as char
}

/// `n` written in decimal, without leading zeros ("0" for zero).
pub open spec fn decimal(n: nat) -> Seq<char>
    decreases n,
{
    if n < 10 {
        seq![digit_char(n as int)]
    } else {
        decimal(n / 10).push(digit_char((n % 10) as int))
    }
}

fn digit_str(d: u64) -> (r: &'static str)
    requires
        d < 10,
    ensures
        r@ == seq![digit_char(d as int)],
{
    proof {
        reveal_strlit("0");
        reveal_strlit("1");
        reveal_strlit("2");
        reveal_strlit("3");
        reveal_strlit("4");
        reveal_strlit("5");
        reveal_strlit("6");
        reveal_strlit("7");
        reveal_strlit("8");
        reveal_strlit("9");
    }
    match d {
        0 => "0",
        1 => "1",
        2 => "2",
        3 => "3",
        4 => "4",
        5 => "5",
        6 => "6",
        7 => "7",
        8 => "8",
        _ => "9",
    }
}

/// Appends `n` in decimal to `out`.
pub fn push_decimal(out: &mut String, n: u64)
    ensures
        final(out)@ == old(out)@ + decimal(n as nat),
    decreases n,
{
    if n >= 10 {
        push_decimal(out, n / 10);
    }
    out.append(digit_str(n % 10));
    proof {
        if n >= 10 {
            assert(old(out)@ + decimal(n as nat) =~= old(out)@ + decimal((n / 10) as nat) + seq![
                digit_char((n % 10) as int),
            ]);
        }
    }
}

/// `n` in decimal.
pub fn to_decimal(n: u64) -> (r: String)
    ensures
        r@ == decimal(n as nat),
{
    let mut s = String::new();
    push_decimal(&mut s, n);
    assert(s@ =~= decimal(n as nat));
    s
}

/// A duration of `secs` seconds as shown next to a running test: "m:ss" from one
/// minute on, else "Ns".
pub open spec fn duration_text(secs: nat) -> Seq<char> {
    let minutes = secs / 60;
    let seconds = secs % 60;
    if minutes > 0 {
        decimal(minutes) + ":"@ + (if seconds < 10 {
            "0"@
        } else {
            Seq::empty()
        }) + decimal(seconds)
    } else {
        decimal(seconds) + "s"@
    }
}

pub fn format_duration(secs: u64) -> (r: String)
    ensures
        r@ == duration_text(secs as nat),
{
    let minutes = secs / 60;
    let seconds = secs % 60;
    let mut s = String::new();
    if minutes > 0 {
        push_decimal(&mut s, minutes);
        s.append(":");
        if seconds < 10 {
            s.append("0");
        }
        push_decimal(&mut s, seconds);
        assert(s@ =~= duration_text(secs as nat));
    } else {
        push_decimal(&mut s, seconds);
        s.append("s");
        assert(s@ =~= duration_text(secs as nat));
    }
    s
}

/// How long the machine has been up, from `secs` seconds: "Dd Hh Mm" from one day
/// on, "Hh Mm" from one hour on, else "Mm".
pub open spec fn uptime_text(secs: nat) -> Seq<char> {
    let days = secs / 86400;
    let hours = (secs % 86400) / 3600;
    let minutes = (secs % 3600) / 60;
    if days > 0 {
        decimal(days) + "d "@ + decimal(hours) + "h "@ + decimal(minutes) + "m"@
    } else if hours > 0 {
        decimal(hours) + "h "@ + decimal(minutes) + "m"@
    } else {
        decimal(minutes) + "m"@
    }
}

pub fn format_uptime(uptime_seconds: u64) -> (r: String)
    ensures
        r@ == uptime_text(uptime_seconds as nat),
{
    let days = uptime_seconds / 86400;
    let hours = (uptime_seconds % 86400) / 3600;
    let minutes = (uptime_seconds % 3600) / 60;
    let mut s = String::new();
    if days > 0 {
        push_decimal(&mut s, days);
        s.append("d ");
        push_decimal(&mut s, hours);
        s.append("h ");
    } else if hours > 0 {
        push_decimal(&mut s, hours);
        s.append("h ");
    }
    push_decimal(&mut s, minutes);
    s.append("m");
    assert(s@ =~= uptime_text(uptime_seconds as nat));
    s
}

pub open spec fn is_digit(c: char) -> bool {
    '0' <= c && c <= '9'
}

pub open spec fn all_digits(s: Seq<char>) -> bool {
    forall|i: int| 0 <= i < s.len() ==> is_digit(#[trigger] s[i])
}

/// The number that the decimal digits `s` spell (0 for no digits).
pub open spec fn digits_value(s: Seq<char>) -> nat
    decreases s.len(),
{
    if s.len() == 0 {
        0
    } else {
        digits_value(s.drop_last()) * 10 + (s.last() as nat - '0' as nat) as nat
    }
}

pub open spec fn pow10(n: nat) -> nat
    decreases n,
{
    if n == 0 {
        1
    } else {
        10 * pow10((n - 1) as nat)
    }
}

/// Millionths that the fraction digits `f` (those after the point) stand for;
/// digits past the sixth are dropped.
pub open spec fn fraction_micros(f: Seq<char>) -> nat {
    if f.len() >= 6 {
        digits_value(f.take(6))
    } else {
        digits_value(f) * pow10((6 - f.len()) as nat)
    }
}

/// The most integer digits that a number may have.
pub const MAX_INT_DIGITS: usize = 12;

/// A plain decimal number ("12", "3.5", ".25", "7.") in millionths, with fraction
/// digits past the sixth dropped; 0 for any other text, and for numbers of more than
/// `MAX_INT_DIGITS` integer digits.
pub open spec fn parse_micros(s: Seq<char>) -> nat {
    let (ip, fp) = match find(s, "."@) {
        Some(i) => (s.take(i), s.skip(i + 1)),
        None => (s, Seq::<char>::empty()),
    };
    if all_digits(ip) && all_digits(fp) && ip.len() + fp.len() >= 1 && ip.len() <= MAX_INT_DIGITS {
        digits_value(ip) * 1_000_000 + fraction_micros(fp)
    } else {
        0
    }
}

proof fn lemma_digits_value_bound(s: Seq<char>)
    requires
        all_digits(s),
    ensures
        digits_value(s) < pow10(s.len()),
    decreases s.len(),
{
    if s.len() > 0 {
        let t = s.drop_last();
        assert(all_digits(t)) by {
            assert forall|i: int| 0 <= i < t.len() implies is_digit(#[trigger] t[i]) by {
                assert(t[i] == s[i]);
            }
        }
        lemma_digits_value_bound(t);
        assert(is_digit(s[s.len() - 1]));
    }
}

/// Value of the digits `cs[lo..hi]`, which are all decimal digits, of which there
/// are at most 12.
fn digits_at(cs: &Vec<char>, lo: usize, hi: usize) -> (r: u64)
    requires
        lo <= hi <= cs.len(),
        hi - lo <= MAX_INT_DIGITS,
        all_digits(cs@.subrange(lo as int, hi as int)),
    ensures
        r as nat == digits_value(cs@.subrange(lo as int, hi as int)),
        r < 1_000_000_000_000,
{
    let mut v: u64 = 0;
    let mut i = lo;
    while i < hi
        invariant
            lo <= i <= hi <= cs.len(),
            hi - lo <= MAX_INT_DIGITS,
            all_digits(cs@.subrange(lo as int, hi as int)),
            v as nat == digits_value(cs@.subrange(lo as int, i as int)),
            v < pow10((i - lo) as nat),
            pow10((i - lo) as nat) <= 1_000_000_000_000,
        decreases hi - i,
    {
        let ghost prefix = cs@.subrange(lo as int, i as int + 1);
        assert(prefix.drop_last() =~= cs@.subrange(lo as int, i as int));
        assert(cs@.subrange(lo as int, hi as int)[i - lo] == cs@[i as int]);
        let d = (cs[i] as u32 - '0' as u32) as u64;
        assert(pow10((i + 1 - lo) as nat) == 10 * pow10((i - lo) as nat));
        assert(pow10((i + 1 - lo) as nat) <= 1_000_000_000_000) by {
            lemma_pow10_mono((i + 1 - lo) as nat, 12);
            lemma_pow10_values();
        }
        v = v * 10 + d;
        i = i + 1;
    }
    assert(pow10((hi - lo) as nat) <= 1_000_000_000_000);
    v
}

proof fn lemma_pow10_values()
    ensures
        pow10(6) == 1_000_000,
        pow10(12) == 1_000_000_000_000,
{
    assert(pow10(0) == 1);
    assert(pow10(1) == 10);
    assert(pow10(2) == 100);
    assert(pow10(3) == 1_000);
    assert(pow10(4) == 10_000);
    assert(pow10(5) == 100_000);
    assert(pow10(6) == 1_000_000);
    assert(pow10(7) == 10_000_000);
    assert(pow10(8) == 100_000_000);
    assert(pow10(9) == 1_000_000_000);
    assert(pow10(10) == 10_000_000_000);
    assert(pow10(11) == 100_000_000_000);
    assert(pow10(12) == 1_000_000_000_000);
}

proof fn lemma_pow10_mono(a: nat, b: nat)
    requires
        a <= b,
    ensures
        pow10(a) <= pow10(b),
    decreases b,
{
    if a < b {
        lemma_pow10_mono(a, (b - 1) as nat);
    }
}

proof fn lemma_all_digits_sub(s: Seq<char>, lo: int, hi: int)
    requires
        all_digits(s),
        0 <= lo <= hi <= s.len(),
    ensures
        all_digits(s.subrange(lo, hi)),
{
    assert forall|i: int| 0 <= i < hi - lo implies is_digit(#[trigger] s.subrange(lo, hi)[i]) by {
        assert(s.subrange(lo, hi)[i] == s[lo + i]);
    }
}

/// Whether `cs[lo..hi]` is all decimal digits.
fn digits_only(cs: &Vec<char>, lo: usize, hi: usize) -> (r: bool)
    requires
        lo <= hi <= cs.len(),
    ensures
        r == all_digits(cs@.subrange(lo as int, hi as int)),
{
    let mut i = lo;
    while i < hi
        invariant
            lo <= i <= hi <= cs.len(),
            forall|j: int| lo <= j < i ==> is_digit(#[trigger] cs@[j]),
        decreases hi - i,
    {
        if !('0' <= cs[i] && cs[i] <= '9') {
            assert(cs@.subrange(lo as int, hi as int)[i - lo] == cs@[i as int]);
            return false;
        }
        i = i + 1;
    }
    assert forall|j: int| 0 <= j < hi - lo implies is_digit(
        #[trigger] cs@.subrange(lo as int, hi as int)[j],
    ) by {
        assert(cs@.subrange(lo as int, hi as int)[j] == cs@[lo + j]);
    }
    true
}

/// `parse_micros` of `s`.
pub fn parse_decimal_micros(s: &str) -> (r: u64)
    ensures
        r as nat == parse_micros(s@),
        r < 1_000_000_000_000_000_000,
{
    proof {
        reveal_strlit(".");
    }
    let cs = chars_of(s);
    let dot: Vec<char> = chars_of(".");
    let n = cs.len();
    let (ie, fs) = match find_at(&cs, &dot, 0) {
        Some(i) => {
            proof {
                crate::scan::lemma_find_from_bounds(cs@, dot@, 0);
            }
            (i, i + 1)
        },
        None => (n, n),
    };
    let ghost ip = cs@.subrange(0, ie as int);
    let ghost fp = cs@.subrange(fs as int, n as int);
    proof {
        assert(cs@.take(ie as int) =~= ip);
        assert(cs@.skip(fs as int) =~= fp);
        if fs == n && ie == n {
            assert(ip =~= cs@);
            assert(fp =~= Seq::<char>::empty());
        }
    }
    if !digits_only(&cs, 0, ie) || !digits_only(&cs, fs, n) || ie + (n - fs) == 0 || ie
        > MAX_INT_DIGITS {
        return 0;
    }
    let whole = digits_at(&cs, 0, ie);
    let frac_len = n - fs;
    let frac: u64 = if frac_len >= 6 {
        proof {
            lemma_all_digits_sub(fp, 0, 6);
            assert(fp.take(6) =~= cs@.subrange(fs as int, fs + 6));
        }
        digits_at(&cs, fs, fs + 6)
    } else {
        let v = digits_at(&cs, fs, n);
        let mut scale: u64 = 1;
        let mut k = frac_len;
        proof {
            lemma_digits_value_bound(fp);
            lemma_pow10_mono(frac_len as nat, 6);
            lemma_pow10_values();
        }
        while k < 6
            invariant
                frac_len <= k <= 6,
                scale as nat == pow10((k - frac_len) as nat),
                v as nat == digits_value(fp),
                v < pow10(frac_len as nat),
                scale * pow10(frac_len as nat) == pow10(k as nat),
                pow10(k as nat) <= 1_000_000,
                scale <= pow10(k as nat),
            decreases 6 - k,
        {
            assert(pow10((k + 1 - frac_len) as nat) == 10 * pow10((k - frac_len) as nat));
            assert(pow10((k + 1) as nat) == 10 * pow10(k as nat));
            assert(pow10((k + 1) as nat) <= 1_000_000) by {
                lemma_pow10_mono((k + 1) as nat, 6);
                lemma_pow10_values();
            }
            assert(scale * 10 * pow10(frac_len as nat) == 10 * pow10(k as nat)) by (nonlinear_arith)
                requires
                    scale * pow10(frac_len as nat) == pow10(k as nat),
            ;
            scale = scale * 10;
            k = k + 1;
        }
        assert(v * scale < 1_000_000) by (nonlinear_arith)
            requires
                v < pow10(frac_len as nat),
                scale * pow10(frac_len as nat) == pow10(6),
                pow10(6) <= 1_000_000,
        ;
        v * scale
    };
    proof {
        if frac_len >= 6 {
            lemma_digits_value_bound(fp.take(6));
            lemma_pow10_values();
        }
    }
    whole * 1_000_000 + frac
}

/// `h` hundredths as text with two decimals ("12.05").
pub open spec fn two_decimals(h: nat) -> Seq<char> {
    decimal(h / 100) + "."@ + (if h % 100 < 10 {
        "0"@
    } else {
        Seq::empty()
    }) + decimal(h % 100)
}

/// `t` tenths as text with one decimal ("3.7").
pub open spec fn one_decimal(t: nat) -> Seq<char> {
    decimal(t / 10) + "."@ + decimal(t % 10)
}

/// `n / d` rounded to the nearest integer, halves up.
pub open spec fn round_div(n: nat, d: nat) -> nat {
    ((2 * n + d) / (2 * d)) as nat
}

pub fn push_two_decimals(out: &mut String, h: u64)
    ensures
        final(out)@ == old(out)@ + two_decimals(h as nat),
{
    push_decimal(out, h / 100);
    out.append(".");
    if h % 100 < 10 {
        out.append("0");
    }
    push_decimal(out, h % 100);
    assert(final(out)@ =~= old(out)@ + two_decimals(h as nat));
}

pub fn push_one_decimal(out: &mut String, t: u64)
    ensures
        final(out)@ == old(out)@ + one_decimal(t as nat),
{
    push_decimal(out, t / 10);
    out.append(".");
    push_decimal(out, t % 10);
    assert(final(out)@ =~= old(out)@ + one_decimal(t as nat));
}

/// What `str::parse::<u64>` gives for `s`: an optional '+' and then at least one
/// decimal digit, of value at most `u64::MAX`.
pub open spec fn u64_value(s: Seq<char>) -> Option<nat> {
    let d = if s.len() > 0 && s[0] == '+' {
        s.drop_first()
    } else {
        s
    };
    if d.len() >= 1 && all_digits(d) && digits_value(d) <= u64::MAX {
        Some(digits_value(d))
    } else {
        None
    }
}

proof fn lemma_digits_value_grows(s: Seq<char>, i: int, j: int)
    requires
        0 <= i <= j <= s.len(),
        all_digits(s),
    ensures
        digits_value(s.take(i)) <= digits_value(s.take(j)),
    decreases j - i,
{
    if i < j {
        lemma_digits_value_grows(s, i, j - 1);
        assert(s.take(j).drop_last() =~= s.take(j - 1));
    }
}

/// `s` read as a `u64` the way `str::parse` reads it (see `u64_value`).
pub fn parse_u64(s: &str) -> (r: Option<u64>)
    ensures
        match r {
            Some(v) => u64_value(s@) == Some(v as nat),
            None => u64_value(s@) is None,
        },
{
    let cs = chars_of(s);
    let start: usize = if cs.len() > 0 && cs[0] == '+' {
        1
    } else {
        0
    };
    let ghost d = cs@.subrange(start as int, cs.len() as int);
    assert(d =~= (if s@.len() > 0 && s@[0] == '+' {
        s@.drop_first()
    } else {
        s@
    }));
    if start == cs.len() {
        return None;
    }
    if !digits_only(&cs, start, cs.len()) {
        return None;
    }
    let mut v: u64 = 0;
    let mut i = start;
    while i < cs.len()
        invariant
            start <= i <= cs.len(),
            d == cs@.subrange(start as int, cs.len() as int),
            d == (if s@.len() > 0 && s@[0] == '+' {
                s@.drop_first()
            } else {
                s@
            }),
            d.len() >= 1,
            all_digits(d),
            v as nat == digits_value(d.take(i - start)),
        decreases cs.len() - i,
    {
        assert(d[i - start] == cs@[i as int]);
        assert(is_digit(d[i - start]));
        let digit = (cs[i] as u32 - '0' as u32) as u64;
        assert(d.take(i - start + 1).drop_last() =~= d.take(i - start));
        if v > (u64::MAX - digit) / 10 {
            proof {
                assert(digits_value(d.take(i - start + 1)) > u64::MAX) by (nonlinear_arith)
                    requires
                        digits_value(d.take(i - start + 1)) == v * 10 + digit,
                        v > (u64::MAX - digit) / 10,
                        digit <= 9,
                ;
                lemma_digits_value_grows(d, i - start + 1, d.len() as int);
                assert(d.take(d.len() as int) =~= d);
            }
            return None;
        }
        v = v * 10 + digit;
        i = i + 1;
    }
    assert(d.take(d.len() as int) =~= d);
    Some(v)
}

} // verus!

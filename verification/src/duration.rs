//! Decimal rendering of integers and the human-readable duration format
//! used across the user interface (`1h 01m 05s`, `03m 07s`, `09s`).

use vstd::prelude::*;
use crate::text::from_chars;

verus! {

/// The ASCII character of a decimal digit.
pub open spec fn digit_char(d: nat) -> char {
    if d == 0 { '0' }
    else if d == 1 { '1' }
    else if d == 2 { '2' }
    else if d == 3 { '3' }
    else if d == 4 { '4' }
    else if d == 5 { '5' }
    else if d == 6 { '6' }
    else if d == 7 { '7' }
    else if d == 8 { '8' }
    else { '9' }
}

/// The shortest decimal representation of `n` (no sign, no leading zeros).
pub open spec fn decimal(n: nat) -> Seq<char>
    decreases n,
{
    if n < 10 {
        seq![digit_char(n)]
    } else {
        decimal(n / 10).push(digit_char(n % 10))
    }
}

/// `n` written with at least two digits, padded with a leading zero.
pub open spec fn two_digits(n: nat) -> Seq<char> {
    if n < 10 { seq!['0'] + decimal(n) } else { decimal(n) }
}

/// The number that decimal digits stand for (`'0'` is 0 … `'9'` is 9).
pub open spec fn digits_value(s: Seq<char>) -> int
    decreases s.len(),
{
    if s.len() == 0 {
        0
    } else {
        digits_value(s.drop_last()) * 10 + (s.last() as int - '0' as int)
    }
}

/// Decimal text reads back as the number it was written for: it is made
/// of the digits `'0'`..=`'9'`, is not empty, starts with `'0'` only for
/// zero, and has its digits' value; padded to two digits it still does,
/// and is exactly two long below a hundred.
pub proof fn lemma_decimal_reads_back(n: nat)
    ensures
        forall|i: int| 0 <= i < decimal(n).len() ==> '0' <= #[trigger] decimal(n)[i] <= '9',
        decimal(n).len() > 0,
        decimal(n)[0] == '0' ==> n == 0,
        digits_value(decimal(n)) == n,
        digits_value(two_digits(n)) == n,
        forall|i: int| 0 <= i < two_digits(n).len() ==> '0' <= #[trigger] two_digits(n)[i] <= '9',
        n < 100 ==> two_digits(n).len() == 2,
    decreases n,
{
    lemma_digit_value((n % 10) as nat);
    if n >= 10 {
        lemma_decimal_reads_back(n / 10);
        let prefix = decimal(n / 10);
        assert(decimal(n).drop_last() =~= prefix);
        assert(decimal(n)[0] == prefix[0]);
        assert(decimal(n).last() == digit_char((n % 10) as nat));
        assert(digits_value(decimal(n)) == digits_value(prefix) * 10 + (digit_char((n % 10) as nat) as int
            - '0' as int));
        assert(n == (n / 10) * 10 + n % 10);
        if n < 100 {
            assert(n / 10 < 10);
        }
    } else {
        assert(n % 10 == n);
        let d = decimal(n);
        assert(d.drop_last() =~= Seq::<char>::empty());
        assert(digits_value(d) == digits_value(Seq::<char>::empty()) * 10 + (d.last() as int - '0' as int));
        assert(digits_value(d) == n);
        let t = two_digits(n);
        assert(t.drop_last() =~= seq!['0']);
        assert(seq!['0'].drop_last() =~= Seq::<char>::empty());
        assert(digits_value(seq!['0']) == 0);
        assert(t.last() == d.last());
        assert(digits_value(t) == digits_value(seq!['0']) * 10 + (t.last() as int - '0' as int));
    }
}

proof fn lemma_digit_value(d: nat)
    requires
        d < 10,
    ensures
        digit_char(d) as int - '0' as int == d,
        '0' <= digit_char(d) <= '9',
{
}

/// The duration text for `seconds`: hours only when there is at least one
/// hour, minutes only when there is at least one minute, seconds always.
pub open spec fn duration_text(seconds: nat) -> Seq<char> {
    let hrs = seconds / 3600;
    let mins = (seconds % 3600) / 60;
    let secs = seconds % 60;
    if hrs > 0 {
        decimal(hrs) + seq!['h', ' '] + two_digits(mins) + seq!['m', ' '] + two_digits(secs)
            + seq!['s']
    } else if mins > 0 {
        two_digits(mins) + seq!['m', ' '] + two_digits(secs) + seq!['s']
    } else {
        two_digits(secs) + seq!['s']
    }
}

/// A duration of `h` hours, `m` minutes and `s` seconds (the last two
/// under sixty) is written as those three counts: `{h}h {mm}m {ss}s`, with
/// the hours left out when there are none and the minutes too when there
/// are none either.
pub proof fn lemma_duration_parts(h: nat, m: nat, s: nat)
    requires
        m < 60,
        s < 60,
    ensures
        h > 0 ==> duration_text(h * 3600 + m * 60 + s) == decimal(h) + seq!['h', ' '] + two_digits(m)
            + seq!['m', ' '] + two_digits(s) + seq!['s'],
        h == 0 && m > 0 ==> duration_text(h * 3600 + m * 60 + s) == two_digits(m) + seq!['m', ' ']
            + two_digits(s) + seq!['s'],
        h == 0 && m == 0 ==> duration_text(h * 3600 + m * 60 + s) == two_digits(s) + seq!['s'],
{
    let t: nat = h * 3600 + m * 60 + s;
    assert(t / 3600 == h && (t % 3600) / 60 == m && t % 60 == s) by (nonlinear_arith)
        requires
            t == h * 3600 + m * 60 + s,
            m < 60,
            s < 60,
    ;
}

fn digit(d: u64) -> (c: char)
    requires
        d < 10,
    ensures
        c == digit_char(d as nat),
{
    if d == 0 { '0' }
    else if d == 1 { '1' }
    else if d == 2 { '2' }
    else if d == 3 { '3' }
    else if d == 4 { '4' }
    else if d == 5 { '5' }
    else if d == 6 { '6' }
    else if d == 7 { '7' }
    else if d == 8 { '8' }
    else { '9' }
}

/// Appends the decimal digits of `n` to `out`.
pub fn push_decimal(out: &mut Vec<char>, n: u64)
    ensures
        final(out)@ == old(out)@ + decimal(n as nat),
    decreases n,
{
    if n >= 10 {
        push_decimal(out, n / 10);
    }
    out.push(digit(n % 10));
    proof {
        if n < 10 {
            assert(n % 10 == n);
        }
    }
}

/// Appends `n` with at least two digits to `out`.
pub fn push_two_digits(out: &mut Vec<char>, n: u64)
    ensures
        final(out)@ == old(out)@ + two_digits(n as nat),
{
    if n < 10 {
        out.push('0');
    }
    push_decimal(out, n);
}

/// The decimal representation of `n`.
pub fn decimal_string(n: u64) -> (s: String)
    ensures
        s@ == decimal(n as nat),
{
    let mut v: Vec<char> = Vec::new();
    push_decimal(&mut v, n);
    from_chars(&v)
}

/// The spacing of 64-bit floats around `n`: they hold 53 significant
/// bits, so above 2^53 only multiples of a power of two are exact.
pub open spec fn f64_spacing(n: nat) -> nat {
    if n < 0x20000000000000 {
        1
    } else if n < 0x40000000000000 {
        2
    } else if n < 0x80000000000000 {
        4
    } else if n < 0x100000000000000 {
        8
    } else if n < 0x200000000000000 {
        16
    } else if n < 0x400000000000000 {
        32
    } else if n < 0x800000000000000 {
        64
    } else if n < 0x1000000000000000 {
        128
    } else if n < 0x2000000000000000 {
        256
    } else if n < 0x4000000000000000 {
        512
    } else if n < 0x8000000000000000 {
        1024
    } else {
        2048
    }
}

/// `n` converted to a 64-bit float (rounded to the nearest multiple of
/// the spacing, ties to an even multiple) and back to `u64`, which
/// saturates at its maximum.
pub open spec fn through_f64(n: nat) -> nat {
    let u = f64_spacing(n);
    let q = n / u;
    let r = n % u;
    let rounded = if 2 * r > u || (2 * r == u && q % 2 == 1) { (q + 1) * u } else { q * u };
    if rounded > u64::MAX { u64::MAX as nat } else { rounded }
}

fn spacing(n: u64) -> (u: u64)
    ensures
        u == f64_spacing(n as nat),
        1 <= u <= 2048,
{
    if n < 0x20000000000000 {
        1
    } else if n < 0x40000000000000 {
        2
    } else if n < 0x80000000000000 {
        4
    } else if n < 0x100000000000000 {
        8
    } else if n < 0x200000000000000 {
        16
    } else if n < 0x400000000000000 {
        32
    } else if n < 0x800000000000000 {
        64
    } else if n < 0x1000000000000000 {
        128
    } else if n < 0x2000000000000000 {
        256
    } else if n < 0x4000000000000000 {
        512
    } else if n < 0x8000000000000000 {
        1024
    } else {
        2048
    }
}

/// `n` as a 64-bit float and back (see [`through_f64`]); below 2^53 this
/// is `n` itself.
pub fn round_through_f64(n: u64) -> (r: u64)
    ensures
        r == through_f64(n as nat),
        n < 0x20_0000_0000_0000 ==> r == n,
{
    let u = spacing(n);
    let q = n / u;
    let rem = n % u;
    let up = 2 * rem > u || (2 * rem == u && q % 2 == 1);
    assert((q as int) * (u as int) <= n) by (nonlinear_arith)
        requires
            q == n / u,
            u >= 1,
    ;
    assert((q as int + 1) * (u as int) <= n as int + u as int) by (nonlinear_arith)
        requires
            (q as int) * (u as int) <= n,
    ;
    let v: u128 = if up { (q as u128 + 1) * (u as u128) } else { (q as u128) * (u as u128) };
    if v > u64::MAX as u128 {
        u64::MAX
    } else {
        v as u64
    }
}

/// Formats a number of seconds as `{h}h {mm}m {ss}s`, leaving out the
/// leading units that are zero (`0` gives `00s`, `61` gives `01m 01s`).
/// The count is taken through a 64-bit float first (see
/// [`through_f64`]), so above 2^53 seconds it is rounded.
pub fn format_duration(seconds: u64) -> (s: String)
    ensures
        s@ == duration_text(through_f64(seconds as nat)),
{
    let total = round_through_f64(seconds);
    let hrs = total / 3600;
    let mins = (total % 3600) / 60;
    let secs = total % 60;
    let mut v: Vec<char> = Vec::new();
    if hrs > 0 {
        push_decimal(&mut v, hrs);
        v.push('h');
        v.push(' ');
        push_two_digits(&mut v, mins);
        v.push('m');
        v.push(' ');
        push_two_digits(&mut v, secs);
        v.push('s');
    } else if mins > 0 {
        push_two_digits(&mut v, mins);
        v.push('m');
        v.push(' ');
        push_two_digits(&mut v, secs);
        v.push('s');
    } else {
        push_two_digits(&mut v, secs);
        v.push('s');
    }
    from_chars(&v)
}

} // verus!

//! Instants as integer nanoseconds since the Unix epoch, and the whole
//! seconds between two of them.

use vstd::prelude::*;

verus! {

/// Nanoseconds in one second.
pub const NANOS_PER_SEC: i64 = 1_000_000_000;

/// Unix seconds of the first instant chrono represents (January 1 of the
/// year -262143, midnight UTC).
pub const UTC_MIN_SECS: i64 = -8_334_601_228_800;

/// Unix seconds of the last whole second chrono represents (December 31
/// of the year 262142, 23:59:59 UTC).
pub const UTC_MAX_SECS: i64 = 8_210_266_876_799;

/// The whole seconds in `d` nanoseconds, truncated toward zero.
pub open spec fn whole_seconds(d: int) -> int {
    if d >= 0 { d / 1_000_000_000 } else { -((-d) / 1_000_000_000) }
}

/// The whole seconds from `start` to `end`, truncated toward zero.
pub fn seconds_between(start: i64, end: i64) -> (r: i64)
    ensures
        r == whole_seconds(end - start),
{
    let d: i128 = end as i128 - start as i128;
    let r: i128 = if d >= 0 { d / 1_000_000_000 } else { -((-d) / 1_000_000_000) };
    assert(-20_000_000_000 < r < 20_000_000_000);
    r as i64
}

/// `t` moved by `secs` seconds, when the result is representable.
pub open spec fn shifted(t: int, secs: int) -> int {
    t + secs * 1_000_000_000
}

/// Whether `t` moved by `secs` seconds is representable.
pub open spec fn shift_fits(t: int, secs: int) -> bool {
    i64::MIN <= shifted(t, secs) <= i64::MAX
}

/// `t` moved by `secs` seconds.
pub fn shift_seconds(t: i64, secs: i64) -> (r: i64)
    requires
        shift_fits(t as int, secs as int),
    ensures
        r == shifted(t as int, secs as int),
{
    let v: i128 = t as i128 + (secs as i128) * 1_000_000_000;
    v as i64
}

/// A second is a billion nanoseconds: the whole seconds of `d`
/// nanoseconds are `d` divided by 10^9 and truncated toward zero, and an
/// instant moved by `secs` seconds lies exactly `secs` whole seconds away.
pub proof fn lemma_second_is_billion_nanos(d: int, t: int, secs: int)
    ensures
        d >= 0 ==> 0 <= whole_seconds(d) * 1_000_000_000 <= d < (whole_seconds(d) + 1) * 1_000_000_000,
        d < 0 ==> (whole_seconds(d) - 1) * 1_000_000_000 < d <= whole_seconds(d) * 1_000_000_000 <= 0,
        whole_seconds(shifted(t, secs) - t) == secs,
{
    if d >= 0 {
        let q = d / 1_000_000_000;
        assert(0 <= q * 1_000_000_000 <= d < (q + 1) * 1_000_000_000) by (nonlinear_arith)
            requires
                d >= 0,
                q == d / 1_000_000_000,
        ;
    } else {
        let q = (-d) / 1_000_000_000;
        assert(q * 1_000_000_000 <= -d < (q + 1) * 1_000_000_000) by (nonlinear_arith)
            requires
                -d > 0,
                q == (-d) / 1_000_000_000,
        ;
    }
    let e = shifted(t, secs) - t;
    assert(e == secs * 1_000_000_000);
    if secs >= 0 {
        assert((secs * 1_000_000_000) / 1_000_000_000 == secs) by (nonlinear_arith)
            requires
                secs >= 0,
        ;
        assert(e >= 0) by (nonlinear_arith)
            requires
                e == secs * 1_000_000_000,
                secs >= 0,
        ;
    } else {
        assert((-(secs * 1_000_000_000)) / 1_000_000_000 == -secs) by (nonlinear_arith)
            requires
                secs < 0,
        ;
        assert(e < 0) by (nonlinear_arith)
            requires
                e == secs * 1_000_000_000,
                secs < 0,
        ;
    }
}

/// Whole seconds of a difference of two instants fit comfortably in `i64`.
pub proof fn lemma_whole_seconds_small(d: int)
    requires
        -0x1_0000_0000_0000_0000 < d < 0x1_0000_0000_0000_0000,
    ensures
        -20_000_000_000 < whole_seconds(d) < 20_000_000_000,
{
    if d >= 0 {
        assert(d / 1_000_000_000 < 20_000_000_000) by (nonlinear_arith)
            requires
                0 <= d < 0x1_0000_0000_0000_0000,
        {
        }
    } else {
        assert((-d) / 1_000_000_000 < 20_000_000_000) by (nonlinear_arith)
            requires
                0 < -d < 0x1_0000_0000_0000_0000,
        {
        }
    }
}

} // verus!

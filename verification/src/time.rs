//! Time values: `FILETIME` (100ns ticks since 1601-01-01), elapsed 100ns
//! tick counts, and performance-counter readings, converted to a
//! `timespec`-shaped [`Timespec`].

use vstd::prelude::*;

verus! {

/// A `timespec`-equivalent: seconds plus a sub-second remainder in
/// nanoseconds.
#[derive(Debug, Clone, Copy, PartialEq, Eq, Structural, Default)]
pub struct Timespec {
    pub secs: i64,
    pub nanos: u32,
}

/// A Win32 `FILETIME`: a 64-bit count of 100ns ticks split into two
/// `u32` halves.
#[derive(Debug, Clone, Copy, PartialEq, Eq, Structural, Default)]
pub struct FileTime {
    pub low: u32,
    pub high: u32,
}

/// 100ns ticks between the FILETIME epoch (1601-01-01) and the Unix epoch
/// (1970-01-01).
pub const FILETIME_UNIX_EPOCH_DIFF_100NS: i64 = 116_444_736_000_000_000;

/// 100ns ticks per second.
pub const HUNDRED_NS_PER_SEC: i64 = 10_000_000;

/// Nanoseconds per 100ns tick.
pub const NANOS_PER_HUNDRED_NS: i64 = 100;

/// Division rounding toward zero, as Rust's `/` on signed integers does.
pub open spec fn trunc_div(a: int, b: int) -> int
    recommends
        b != 0,
{
    let q = abs(a) / abs(b);
    if (a >= 0) == (b > 0) {
        q
    } else {
        -q
    }
}

/// The remainder that goes with [`trunc_div`] (it has the sign of `a`), as
/// Rust's `%` on signed integers gives it.
pub open spec fn trunc_rem(a: int, b: int) -> int
    recommends
        b != 0,
{
    a - b * trunc_div(a, b)
}

/// The absolute value of `a`.
pub open spec fn abs(a: int) -> int {
    if a >= 0 {
        a
    } else {
        -a
    }
}

/// The 64 bits of a `FILETIME` read as a signed (two's complement) tick
/// count, as `(i64::from(high) << 32) | i64::from(low)` reads them.
pub open spec fn filetime_ticks(ft: FileTime) -> int {
    let raw = ft.high * 0x1_0000_0000int + ft.low;
    if raw >= 0x8000_0000_0000_0000 {
        raw - 0x1_0000_0000_0000_0000
    } else {
        raw
    }
}

/// The wall-clock instant a `FILETIME` names, relative to the Unix epoch:
/// whole seconds rounded down, and the non-negative sub-second rest.
pub open spec fn spec_filetime_to_timespec(ft: FileTime) -> Timespec {
    let t = filetime_ticks(ft) - FILETIME_UNIX_EPOCH_DIFF_100NS;
    Timespec { secs: (t / (HUNDRED_NS_PER_SEC as int)) as i64, nanos: ((t % (HUNDRED_NS_PER_SEC as int)) * 100) as u32 }
}

/// An elapsed tick count as whole seconds (rounded down) and the
/// non-negative sub-second rest in nanoseconds.
pub open spec fn spec_ticks_to_duration(ticks: int) -> Timespec {
    Timespec {
        secs: (ticks / (HUNDRED_NS_PER_SEC as int)) as i64,
        nanos: ((ticks % (HUNDRED_NS_PER_SEC as int)) * 100) as u32,
    }
}

/// A duration as a 100ns tick count (sub-tick nanoseconds dropped).
pub open spec fn spec_duration_to_ticks(t: Timespec) -> int {
    t.secs * (HUNDRED_NS_PER_SEC as int) + t.nanos / 100
}

/// `true` when [`duration_to_ticks`] can compute `t` without overflow.
pub open spec fn duration_fits(t: Timespec) -> bool {
    &&& i64::MIN <= t.secs * (HUNDRED_NS_PER_SEC as int) <= i64::MAX
    &&& spec_duration_to_ticks(t) <= i64::MAX
}

/// `a / b` rounded down (toward negative infinity).
pub open spec fn floor_div(a: int, b: int) -> int
    recommends
        b != 0,
{
    if b > 0 {
        a / b
    } else {
        (-a) / (-b)
    }
}

/// A performance-counter reading (`ticks` at `freq` ticks per second) as
/// whole seconds (rounded down) and the sub-second rest in nanoseconds
/// (rounded down).
pub open spec fn spec_counter_to_timespec(ticks: int, freq: int) -> Timespec {
    let secs = floor_div(ticks, freq);
    Timespec {
        secs: secs as i64,
        nanos: floor_div((ticks - secs * freq) * 1_000_000_000, freq) as u32,
    }
}

/// `q` is `a / b` rounded down when `b * q` is the last multiple of `b` at
/// or below `a` (at or above it, for a negative `b`).
proof fn lemma_floor_div_is(a: int, b: int, q: int)
    requires
        (b > 0 && b * q <= a < b * q + b) || (b < 0 && b * q + b < a <= b * q),
    ensures
        floor_div(a, b) == q,
{
    if b > 0 {
        vstd::arithmetic::div_mod::lemma_fundamental_div_mod_converse(a, b, q, a - b * q);
    } else {
        assert(-a == q * (-b) + (b * q - a)) by (nonlinear_arith);
        vstd::arithmetic::div_mod::lemma_fundamental_div_mod_converse(-a, -b, q, b * q - a);
    }
}

/// Magnitude of `a` as a `u64`.
fn magnitude(a: i64) -> (m: u64)
    ensures
        m == abs(a as int),
{
    if a >= 0 {
        a as u64
    } else {
        (-(a + 1)) as u64 + 1
    }
}

/// `a / b` and `a % b` rounded toward zero (Rust's signed semantics).
fn trunc_div_rem(a: i64, b: i64) -> (qr: (i64, i64))
    requires
        b != 0,
        !(a == i64::MIN && b == -1),
    ensures
        qr.0 == trunc_div(a as int, b as int),
        qr.1 == trunc_rem(a as int, b as int),
        abs(qr.1 as int) < abs(b as int),
        a >= 0 ==> qr.1 >= 0,
        a < 0 ==> qr.1 <= 0,
{
    let ma = magnitude(a);
    let mb = magnitude(b);
    let q = ma / mb;
    let r = ma % mb;
    proof {
        assert(ma as int == mb as int * q as int + r as int && 0 <= r < mb && q <= ma)
            by (nonlinear_arith)
            requires
                q == ma / mb,
                r == ma % mb,
                mb >= 1,
        ;
        if a < 0 && b < 0 && q == 0x8000_0000_0000_0000 {
            assert(mb >= 2 || b == -1);
            assert(q * mb <= ma) by (nonlinear_arith)
                requires
                    ma as int == mb as int * q as int + r as int,
                    r >= 0,
            ;
            assert(false) by (nonlinear_arith)
                requires
                    q * mb <= ma,
                    mb >= 2,
                    q == 0x8000_0000_0000_0000,
                    ma <= 0x8000_0000_0000_0000,
            ;
        }
    }
    let qs: i64 = if (a >= 0) == (b > 0) {
        q as i64
    } else if q == 0x8000_0000_0000_0000 {
        i64::MIN
    } else {
        -(q as i64)
    };
    let rs: i64 = if a >= 0 {
        r as i64
    } else {
        -(r as i64)
    };
    proof {
        let ai = a as int;
        let bi = b as int;
        assert(qs as int == trunc_div(ai, bi));
        if ai >= 0 && bi > 0 {
            assert(bi * qs == mb as int * q as int);
        } else if ai >= 0 && bi < 0 {
            assert(bi * qs == (-(mb as int)) * (-(q as int)));
            assert((-(mb as int)) * (-(q as int)) == mb as int * q as int) by (nonlinear_arith);
        } else if ai < 0 && bi > 0 {
            assert(bi * qs == (mb as int) * (-(q as int)));
            assert((mb as int) * (-(q as int)) == -(mb as int * q as int)) by (nonlinear_arith);
        } else {
            assert(bi * qs == (-(mb as int)) * (q as int));
            assert((-(mb as int)) * (q as int) == -(mb as int * q as int)) by (nonlinear_arith);
        }
    }
    (qs, rs)
}

/// The instant a `FILETIME` names, as seconds and nanoseconds since the
/// Unix epoch (seconds rounded down, so `nanos` is always a sub-second
/// remainder).
pub fn filetime_to_timespec(ft: FileTime) -> (t: Timespec)
    requires
        filetime_ticks(ft) - FILETIME_UNIX_EPOCH_DIFF_100NS >= i64::MIN,
    ensures
        t == spec_filetime_to_timespec(ft),
        t.nanos < 1_000_000_000,
        t.secs * 1_000_000_000 + t.nanos == (filetime_ticks(ft) - FILETIME_UNIX_EPOCH_DIFF_100NS)
            * 100,
{
    let ticks = filetime_ticks_exec(ft);
    ticks_to_duration(ticks - FILETIME_UNIX_EPOCH_DIFF_100NS)
}

/// The `FILETIME`'s 64 bits as a signed tick count.
fn filetime_ticks_exec(ft: FileTime) -> (t: i64)
    ensures
        t == filetime_ticks(ft),
{
    let raw: u64 = (ft.high as u64) * 0x1_0000_0000 + ft.low as u64;
    if raw <= 0x7FFF_FFFF_FFFF_FFFF {
        raw as i64
    } else {
        -((0xFFFF_FFFF_FFFF_FFFFu64 - raw) as i64) - 1
    }
}

/// The elapsed duration an elapsed-time `FILETIME` (a process's or a
/// thread's kernel/user time) holds: its tick count with no epoch to
/// subtract.
pub fn filetime_to_duration(ft: FileTime) -> (t: Timespec)
    ensures
        t == spec_ticks_to_duration(filetime_ticks(ft)),
{
    ticks_to_duration(filetime_ticks_exec(ft))
}

/// An elapsed 100ns tick count as a [`Timespec`]: whole seconds rounded
/// down and the sub-second rest in nanoseconds, always below one second.
pub fn ticks_to_duration(ticks_100ns: i64) -> (t: Timespec)
    ensures
        t == spec_ticks_to_duration(ticks_100ns as int),
        t.nanos < 1_000_000_000,
        t.secs * 1_000_000_000 + t.nanos == ticks_100ns * 100,
{
    let d = ticks_100ns;
    let secs: i64;
    let rem: i64;
    if d >= 0 {
        let u = d as u64;
        secs = (u / 10_000_000) as i64;
        rem = (u % 10_000_000) as i64;
    } else {
        let m = (-(d + 1)) as u64;
        secs = -((m / 10_000_000) as i64) - 1;
        rem = 9_999_999 - (m % 10_000_000) as i64;
    }
    assert(secs as int == d as int / 10_000_000 && rem as int == d as int % 10_000_000);
    let nanos = (rem * 100) as u32;
    Timespec { secs, nanos }
}

/// Whether [`duration_to_ticks`] computes `t` without overflow.
pub fn duration_fits_check(t: Timespec) -> (b: bool)
    ensures
        b == duration_fits(t),
{
    match t.secs.checked_mul(HUNDRED_NS_PER_SEC) {
        Some(s) => s.checked_add((t.nanos / 100) as i64).is_some(),
        None => false,
    }
}

/// A duration as a 100ns tick count — the reverse of [`ticks_to_duration`]
/// (nanoseconds below one tick are dropped).
pub fn duration_to_ticks(t: Timespec) -> (ticks: i64)
    requires
        duration_fits(t),
    ensures
        ticks == spec_duration_to_ticks(t),
{
    t.secs * HUNDRED_NS_PER_SEC + (t.nanos / 100) as i64
}

/// A `QueryPerformanceCounter` reading `ticks` at
/// `QueryPerformanceFrequency` `freq` as seconds and nanoseconds.
pub fn counter_to_timespec(ticks: i64, freq: i64) -> (t: Timespec)
    requires
        freq != 0,
        !(ticks == i64::MIN && freq == -1),
    ensures
        t == spec_counter_to_timespec(ticks as int, freq as int),
        t.nanos < 1_000_000_000,
{
    let (q, r) = trunc_div_rem(ticks, freq);
    proof {
        if r != 0 {
            let x = abs(ticks as int);
            let y = abs(freq as int);
            assert(y >= 2);
            assert(x / y <= x / 2) by (nonlinear_arith)
                requires
                    x >= 0,
                    y >= 2,
            ;
            assert(abs(q as int) == x / y);
        }
    }
    let (secs, rest) = if r != 0 && ((r < 0) != (freq < 0)) {
        (q - 1, r + freq)
    } else {
        (q, r)
    };
    proof {
        let ti = ticks as int;
        let fi = freq as int;
        assert(ti == fi * q + r);
        assert(ti == fi * secs + rest) by (nonlinear_arith)
            requires
                ti == fi * q + r,
                (secs == q - 1 && rest == r + fi) || (secs == q && rest == r),
        ;
        assert((fi > 0 && 0 <= rest < fi) || (fi < 0 && fi < rest <= 0));
        assert((fi > 0 && fi * secs <= ti < fi * secs + fi) || (fi < 0 && fi * secs + fi < ti <= fi
            * secs)) by (nonlinear_arith)
            requires
                ti == fi * secs + rest,
                (fi > 0 && 0 <= rest < fi) || (fi < 0 && fi < rest <= 0),
        ;
        lemma_floor_div_is(ti, fi, secs as int);
        assert(rest as int == ti - secs * fi) by (nonlinear_arith)
            requires
                ti == fi * secs + rest,
        ;
    }
    let mr = magnitude(rest);
    let mf = magnitude(freq);
    let scaled: u128 = mr as u128 * 1_000_000_000u128;
    let n: u128 = scaled / (mf as u128);
    proof {
        let m = scaled % (mf as u128);
        assert(scaled == mf * n + m && 0 <= m < mf) by (nonlinear_arith)
            requires
                n == scaled / (mf as u128),
                m == scaled % (mf as u128),
                mf >= 1,
        ;
        assert(n < 1_000_000_000) by (nonlinear_arith)
            requires
                scaled == mf * n + m,
                0 <= m,
                scaled == mr * 1_000_000_000,
                mr < mf,
        ;
        let fi = freq as int;
        let x = rest as int * 1_000_000_000;
        if fi > 0 {
            assert(x == fi * n + m) by (nonlinear_arith)
                requires
                    x == rest as int * 1_000_000_000,
                    rest >= 0,
                    mr == rest,
                    mf == fi,
                    scaled == mf * n + m,
                    scaled == mr * 1_000_000_000,
            ;
            lemma_floor_div_is(x, fi, n as int);
        } else {
            assert(x == fi * n - m) by (nonlinear_arith)
                requires
                    x == rest as int * 1_000_000_000,
                    rest <= 0,
                    mr == -rest,
                    mf == -fi,
                    scaled == mf * n + m,
                    scaled == mr * 1_000_000_000,
            ;
            lemma_floor_div_is(x, fi, n as int);
        }
    }
    Timespec { secs, nanos: n as u32 }
}

/// Converting a tick count to a duration and back gives the same tick
/// count, whenever the whole seconds fit a tick count.
pub proof fn lemma_ticks_duration_round_trip(ticks: i64)
    requires
        (ticks / 10_000_000) * 10_000_000 >= i64::MIN,
    ensures
        duration_fits(spec_ticks_to_duration(ticks as int)),
        spec_duration_to_ticks(spec_ticks_to_duration(ticks as int)) == ticks,
{
    let t = spec_ticks_to_duration(ticks as int);
    assert(t.secs == ticks / 10_000_000);
    assert(t.nanos == (ticks % 10_000_000) * 100);
}

/// A normalized duration in whole 100ns ticks survives conversion to ticks
/// and back unchanged.
pub proof fn lemma_duration_ticks_round_trip(t: Timespec)
    requires
        t.nanos < 1_000_000_000,
        t.nanos % 100 == 0,
        duration_fits(t),
    ensures
        spec_ticks_to_duration(spec_duration_to_ticks(t)) == t,
{
    let k = spec_duration_to_ticks(t);
    vstd::arithmetic::div_mod::lemma_fundamental_div_mod_converse(
        k,
        10_000_000,
        t.secs as int,
        (t.nanos / 100) as int,
    );
    assert(k / 10_000_000 == t.secs);
    assert(k % 10_000_000 == t.nanos / 100);
}

} // verus!

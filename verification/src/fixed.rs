//! Integer arithmetic behind the stick maths.
//!
//! Screen positions are whole numbers of screen units and a stick value holds
//! each axis as a whole number of millionths, so every result is exact and the
//! same on every machine. Every rounding is toward zero, which keeps a scaled
//! vector inside the disk it is scaled into.

use vstd::prelude::*;

verus! {

/// The fixed-point number that stands for a magnitude of one.
pub const ONE: i32 = 1_000_000;

/// The fixed-point number that stands for a magnitude of one half.
pub const HALF: i32 = 500_000;

/// The absolute value of `v`.
pub open spec fn magnitude(v: int) -> int {
    if v >= 0 {
        v
    } else {
        -v
    }
}

/// `m` with the sign of `v`.
pub open spec fn with_sign_of(v: int, m: int) -> int {
    if v >= 0 {
        m
    } else {
        -m
    }
}

/// The squared length of the vector `v`.
pub open spec fn norm_sq(v: (int, int)) -> int {
    v.0 * v.0 + v.1 * v.1
}

/// `v * num / den`, rounded toward zero.
pub open spec fn scale(v: int, num: int, den: int) -> int {
    with_sign_of(v, (magnitude(v) * num) / den)
}

/// Both axes of `v` scaled by `num / den`, each rounded toward zero.
pub open spec fn scale_vec(v: (int, int), num: int, den: int) -> (int, int) {
    (scale(v.0, num, den), scale(v.1, num, den))
}

/// `m` is the greatest natural number whose square does not exceed `n`.
pub open spec fn is_floor_sqrt(n: int, m: int) -> bool {
    &&& m >= 0
    &&& m * m <= n
    &&& (m + 1) * (m + 1) > n
}

/// The square root of `n`, rounded down to a whole number.
pub open spec fn floor_sqrt(n: int) -> int
    recommends
        n >= 0,
{
    choose|m: int| is_floor_sqrt(n, m)
}

/// `v * num / len`, rounded toward zero, for a length `len` that is given by
/// its square `len_sq`: the square root of `v² * num² / len²`, with the sign
/// of `v`.
pub open spec fn scale_by_length(v: int, num: int, len_sq: int) -> int {
    with_sign_of(v, floor_sqrt(((v * v) * (num * num)) / len_sq))
}

/// The vector `v` brought to the length `num`, its direction kept: each axis
/// is `v * num / |v|`, rounded toward zero.
pub open spec fn rescale(v: (int, int), num: int) -> (int, int) {
    (scale_by_length(v.0, num, norm_sq(v)), scale_by_length(v.1, num, norm_sq(v)))
}

proof fn lemma_floor_sqrt_witness(n: int) -> (m: int)
    requires
        n >= 0,
    ensures
        is_floor_sqrt(n, m),
    decreases n,
{
    if n == 0 {
        assert(is_floor_sqrt(0, 0)) by (nonlinear_arith);
        0
    } else {
        let p = lemma_floor_sqrt_witness(n - 1);
        let m = p + 1;
        if m * m <= n {
            assert((m + 1) * (m + 1) > m * m) by (nonlinear_arith)
                requires
                    m >= 0,
            ;
            m
        } else {
            p
        }
    }
}

/// Every natural number has a rounded-down square root.
pub proof fn lemma_floor_sqrt_exists(n: int)
    requires
        n >= 0,
    ensures
        is_floor_sqrt(n, floor_sqrt(n)),
{
    let m = lemma_floor_sqrt_witness(n);
    assert(is_floor_sqrt(n, m));
}

/// The rounded-down square root is the only number with its defining property.
pub proof fn lemma_floor_sqrt_unique(n: int, m: int)
    requires
        is_floor_sqrt(n, m),
    ensures
        floor_sqrt(n) == m,
{
    assert(n >= 0) by (nonlinear_arith)
        requires
            m * m <= n,
    ;
    lemma_floor_sqrt_exists(n);
    let c = floor_sqrt(n);
    if c < m {
        assert((c + 1) * (c + 1) <= m * m) by (nonlinear_arith)
            requires
                0 <= c + 1 <= m,
        ;
    } else if m < c {
        assert((m + 1) * (m + 1) <= c * c) by (nonlinear_arith)
            requires
                0 <= m + 1 <= c,
        ;
    }
}

/// The square of a number is the square of its magnitude.
pub proof fn lemma_magnitude_square(v: int)
    ensures
        magnitude(v) * magnitude(v) == v * v,
        v * v >= 0,
{
    assert(magnitude(v) * magnitude(v) == v * v && v * v >= 0) by (nonlinear_arith)
        requires
            magnitude(v) == v || magnitude(v) == -v,
    ;
}

/// Neither axis of a vector is longer than the vector.
pub proof fn lemma_norm_bounds_axes(v: (int, int), bound: int)
    requires
        bound >= 0,
        norm_sq(v) <= bound * bound,
    ensures
        magnitude(v.0) <= bound,
        magnitude(v.1) <= bound,
{
    let a = magnitude(v.0);
    let b = magnitude(v.1);
    lemma_magnitude_square(v.0);
    lemma_magnitude_square(v.1);
    if a > bound {
        assert(a * a > bound * bound) by (nonlinear_arith)
            requires
                a > bound >= 0,
        ;
    }
    if b > bound {
        assert(b * b > bound * bound) by (nonlinear_arith)
            requires
                b > bound >= 0,
        ;
    }
}

/// Scaling rounds toward zero: the result keeps the sign of `v`, and its
/// magnitude is the floor of the exact quotient.
pub proof fn lemma_scale_magnitude(v: int, num: int, den: int)
    requires
        num >= 0,
        den > 0,
    ensures
        magnitude(scale(v, num, den)) == (magnitude(v) * num) / den,
        magnitude(scale(v, num, den)) * den <= magnitude(v) * num,
        v >= 0 ==> scale(v, num, den) >= 0,
        v <= 0 ==> scale(v, num, den) <= 0,
        scale(-v, num, den) == -scale(v, num, den),
{
    let a = magnitude(v);
    assert(a * num >= 0) by (nonlinear_arith)
        requires
            a >= 0,
            num >= 0,
    ;
    let q = (a * num) / den;
    assert(0 <= q && q * den <= a * num) by (nonlinear_arith)
        requires
            a * num >= 0,
            den > 0,
            q == (a * num) / den,
    ;
    if v == 0 {
        assert(a * num == 0) by (nonlinear_arith)
            requires
                a == 0,
        ;
    }
}

/// A number no larger than `den`, scaled by `num / den`, is no larger than `num`.
pub proof fn lemma_scale_within(v: int, num: int, den: int)
    requires
        num >= 0,
        den > 0,
        magnitude(v) <= den,
    ensures
        magnitude(scale(v, num, den)) <= num,
{
    lemma_scale_magnitude(v, num, den);
    let a = magnitude(v);
    let q = magnitude(scale(v, num, den));
    if q > num {
        assert(q * den > a * num) by (nonlinear_arith)
            requires
                q >= num + 1,
                num >= 0,
                0 <= a <= den,
                den > 0,
        ;
    }
}

/// Scaling a vector by `num / den` scales its length by no more than that: if
/// the vector is no longer than `len`, then `den` times the length of the
/// result is no more than `num` times `len`.
pub proof fn lemma_scaled_norm_ratio(v: (int, int), num: int, den: int, len: int)
    requires
        num >= 0,
        den > 0,
        norm_sq(v) <= len * len,
    ensures
        norm_sq(scale_vec(v, num, den)) * (den * den) <= (len * len) * (num * num),
{
    let a = magnitude(v.0);
    let b = magnitude(v.1);
    let qa = magnitude(scale(v.0, num, den));
    let qb = magnitude(scale(v.1, num, den));
    lemma_scale_magnitude(v.0, num, den);
    lemma_scale_magnitude(v.1, num, den);
    lemma_magnitude_square(v.0);
    lemma_magnitude_square(v.1);
    lemma_magnitude_square(scale(v.0, num, den));
    lemma_magnitude_square(scale(v.1, num, den));
    assert(qa * den >= 0 && qb * den >= 0) by (nonlinear_arith)
        requires
            qa >= 0,
            qb >= 0,
            den > 0,
    ;
    assert((qa * qa) * (den * den) <= (a * a) * (num * num)) by (nonlinear_arith)
        requires
            0 <= qa * den <= a * num,
    ;
    assert((qb * qb) * (den * den) <= (b * b) * (num * num)) by (nonlinear_arith)
        requires
            0 <= qb * den <= b * num,
    ;
    let s = qa * qa + qb * qb;
    let d2 = den * den;
    let n2 = num * num;
    let l2 = len * len;
    assert(n2 >= 0) by (nonlinear_arith)
        requires
            n2 == num * num,
    ;
    assert(s * d2 <= l2 * n2) by (nonlinear_arith)
        requires
            (qa * qa) * d2 <= (a * a) * n2,
            (qb * qb) * d2 <= (b * b) * n2,
            s == qa * qa + qb * qb,
            a * a + b * b <= l2,
            n2 >= 0,
    ;
}

/// A vector no longer than `den`, scaled by `num / den`, is no longer than `num`.
pub proof fn lemma_scaled_norm(v: (int, int), num: int, den: int)
    requires
        num >= 0,
        den > 0,
        norm_sq(v) <= den * den,
    ensures
        norm_sq(scale_vec(v, num, den)) <= num * num,
{
    lemma_scaled_norm_ratio(v, num, den, den);
    let s = norm_sq(scale_vec(v, num, den));
    let d2 = den * den;
    let n2 = num * num;
    assert(s <= n2) by (nonlinear_arith)
        requires
            s * d2 <= d2 * n2,
            d2 == den * den,
            den > 0,
    ;
}

/// One axis scaled by a length is the exact quotient `v * num / len` rounded
/// toward zero: it keeps the sign of `v`, its square times `len²` does not
/// exceed `v² * num²`, and the square of the next larger magnitude does.
pub proof fn lemma_scale_by_length(v: int, num: int, len_sq: int)
    requires
        num >= 0,
        len_sq > 0,
        v * v <= len_sq,
    ensures
        ({
            let q = magnitude(scale_by_length(v, num, len_sq));
            &&& q == floor_sqrt(((v * v) * (num * num)) / len_sq)
            &&& (q * q) * len_sq <= (v * v) * (num * num)
            &&& ((q + 1) * (q + 1)) * len_sq > (v * v) * (num * num)
            &&& q <= num
        }),
        v >= 0 ==> scale_by_length(v, num, len_sq) >= 0,
        v <= 0 ==> scale_by_length(v, num, len_sq) <= 0,
        v == 0 ==> scale_by_length(v, num, len_sq) == 0,
        scale_by_length(-v, num, len_sq) == -scale_by_length(v, num, len_sq),
{
    let p = (v * v) * (num * num);
    let x = p / len_sq;
    lemma_magnitude_square(v);
    assert(p >= 0 && p <= len_sq * (num * num)) by (nonlinear_arith)
        requires
            p == (v * v) * (num * num),
            0 <= v * v <= len_sq,
    ;
    assert(0 <= x && x * len_sq <= p && (x + 1) * len_sq > p) by (nonlinear_arith)
        requires
            x == p / len_sq,
            p >= 0,
            len_sq > 0,
    ;
    lemma_floor_sqrt_exists(x);
    let q = floor_sqrt(x);
    assert((q * q) * len_sq <= p) by (nonlinear_arith)
        requires
            q * q <= x,
            x * len_sq <= p,
            len_sq > 0,
    ;
    assert(((q + 1) * (q + 1)) * len_sq > p) by (nonlinear_arith)
        requires
            (q + 1) * (q + 1) >= x + 1,
            (x + 1) * len_sq > p,
            len_sq > 0,
    ;
    if q > num {
        assert((q * q) * len_sq > len_sq * (num * num)) by (nonlinear_arith)
            requires
                q > num >= 0,
                len_sq > 0,
        ;
    }
    if v == 0 {
        assert(p == 0) by (nonlinear_arith)
            requires
                p == (v * v) * (num * num),
                v == 0,
        ;
        assert(is_floor_sqrt(0, 0)) by (nonlinear_arith);
        lemma_floor_sqrt_unique(0, 0);
    }
    assert((-v) * (-v) == v * v) by (nonlinear_arith);
}

/// A vector brought to the length `num` is no longer than `num`, and no axis
/// of it is.
pub proof fn lemma_rescaled_norm(v: (int, int), num: int)
    requires
        num >= 0,
        norm_sq(v) > 0,
    ensures
        norm_sq(rescale(v, num)) <= num * num,
        magnitude(rescale(v, num).0) <= num,
        magnitude(rescale(v, num).1) <= num,
{
    let n = norm_sq(v);
    lemma_magnitude_square(v.0);
    lemma_magnitude_square(v.1);
    lemma_scale_by_length(v.0, num, n);
    lemma_scale_by_length(v.1, num, n);
    let qa = magnitude(scale_by_length(v.0, num, n));
    let qb = magnitude(scale_by_length(v.1, num, n));
    lemma_magnitude_square(scale_by_length(v.0, num, n));
    lemma_magnitude_square(scale_by_length(v.1, num, n));
    let s = qa * qa + qb * qb;
    let n2 = num * num;
    assert(s * n <= n2 * n) by (nonlinear_arith)
        requires
            (qa * qa) * n <= (v.0 * v.0) * n2,
            (qb * qb) * n <= (v.1 * v.1) * n2,
            s == qa * qa + qb * qb,
            n == v.0 * v.0 + v.1 * v.1,
    ;
    assert(s <= n2) by (nonlinear_arith)
        requires
            s * n <= n2 * n,
            n > 0,
    ;
}

/// The absolute value of `v`, which always fits the unsigned type.
pub fn magnitude_of(v: i64) -> (m: u64)
    ensures
        m == magnitude(v as int),
{
    if v >= 0 {
        v as u64
    } else if v == i64::MIN {
        0x8000_0000_0000_0000u64
    } else {
        (-v) as u64
    }
}

/// The square root of `n`, rounded down to a whole number.
pub fn floor_sqrt_of(n: u64) -> (m: u64)
    ensures
        m == floor_sqrt(n as int),
        m <= 0xffff_ffff,
{
    let mut lo: u64 = 0;
    let mut hi: u64 = 0x1_0000_0000;
    assert(lo * lo <= n && hi * hi > n) by (nonlinear_arith)
        requires
            lo == 0,
            hi == 0x1_0000_0000,
            0 <= n <= 0xffff_ffff_ffff_ffff,
    ;
    while hi - lo > 1
        invariant
            lo < hi <= 0x1_0000_0000,
            lo * lo <= n,
            hi * hi > n,
        decreases hi - lo,
    {
        let mid: u64 = lo + (hi - lo) / 2;
        assert(mid * mid <= 0xffff_ffff * 0xffff_ffff) by (nonlinear_arith)
            requires
                0 <= mid <= 0xffff_ffff,
        ;
        if mid * mid <= n {
            lo = mid;
        } else {
            hi = mid;
        }
    }
    proof {
        lemma_floor_sqrt_unique(n as int, lo as int);
    }
    lo
}

/// `v * num / den`, rounded toward zero.
pub fn scale_toward_zero(v: i64, num: i32, den: i64) -> (r: i64)
    requires
        -0x1_0000_0000 < v < 0x1_0000_0000,
        num >= 0,
        den > 0,
    ensures
        r == scale(v as int, num as int, den as int),
{
    let a: i64 = if v >= 0 {
        v
    } else {
        -v
    };
    assert(0 <= a * num <= 0xffff_ffff * 0x7fff_ffff) by (nonlinear_arith)
        requires
            0 <= a <= 0xffff_ffff,
            0 <= num <= 0x7fff_ffff,
    ;
    let q: i64 = (a * (num as i64)) / den;
    assert(0 <= q) by (nonlinear_arith)
        requires
            q == (a * num) / (den as int),
            a * num >= 0,
            den > 0,
    ;
    if v >= 0 {
        q
    } else {
        -q
    }
}

/// The vector `(x, y)` brought to the length `num`, its direction kept.
pub fn rescale_to(x: i64, y: i64, num: i32) -> (r: (i32, i32))
    requires
        -0x1_0000_0000 < x < 0x1_0000_0000,
        -0x1_0000_0000 < y < 0x1_0000_0000,
        num >= 0,
        x != 0 || y != 0,
    ensures
        (r.0 as int, r.1 as int) == rescale((x as int, y as int), num as int),
{
    let a: u128 = magnitude_of(x) as u128;
    let b: u128 = magnitude_of(y) as u128;
    let k: u128 = num as u128;
    let ghost v = (x as int, y as int);
    proof {
        lemma_magnitude_square(x as int);
        lemma_magnitude_square(y as int);
        assert(a * a <= 0xffff_ffff * 0xffff_ffff && b * b <= 0xffff_ffff * 0xffff_ffff && k * k
            <= 0x7fff_ffff * 0x7fff_ffff) by (nonlinear_arith)
            requires
                0 <= a <= 0xffff_ffff,
                0 <= b <= 0xffff_ffff,
                0 <= k <= 0x7fff_ffff,
        ;
        assert(a * a + b * b > 0) by (nonlinear_arith)
            requires
                a > 0 || b > 0,
                a >= 0,
                b >= 0,
        ;
    }
    let a2: u128 = a * a;
    let b2: u128 = b * b;
    let k2: u128 = k * k;
    let n: u128 = a2 + b2;
    proof {
        assert(a2 * k2 <= (0xffff_ffff * 0xffff_ffff) * (0x7fff_ffff * 0x7fff_ffff) && b2 * k2 <= (
        0xffff_ffff * 0xffff_ffff) * (0x7fff_ffff * 0x7fff_ffff)) by (nonlinear_arith)
            requires
                0 <= a2 <= 0xffff_ffff * 0xffff_ffff,
                0 <= b2 <= 0xffff_ffff * 0xffff_ffff,
                0 <= k2 <= 0x7fff_ffff * 0x7fff_ffff,
        ;
        lemma_scale_by_length(x as int, num as int, n as int);
        lemma_scale_by_length(y as int, num as int, n as int);
    }
    let qx2: u128 = (a2 * k2) / n;
    let qy2: u128 = (b2 * k2) / n;
    proof {
        assert(qx2 <= k2 && qy2 <= k2) by (nonlinear_arith)
            requires
                qx2 == (a2 * k2) / (n as int),
                qy2 == (b2 * k2) / (n as int),
                0 <= a2 <= n,
                0 <= b2 <= n,
                n > 0,
                k2 >= 0,
        ;
    }
    let qx: u64 = floor_sqrt_of(qx2 as u64);
    let qy: u64 = floor_sqrt_of(qy2 as u64);
    let rx: i32 = if x >= 0 {
        qx as i32
    } else {
        -(qx as i32)
    };
    let ry: i32 = if y >= 0 {
        qy as i32
    } else {
        -(qy as i32)
    };
    (rx, ry)
}

} // verus!

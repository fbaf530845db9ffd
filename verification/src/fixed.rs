//! Exact fixed-point scalars.
//!
//! A `Fx` stores a real quantity as `raw / SCALE` with `raw` a bounded
//! signed integer. Every operation saturates at `RAW_LIMIT`, so all
//! operations are total and each has an exact arithmetic contract:
//! the result is pinned for every input, with no rounding left open.

use vstd::prelude::*;

verus! {

use vstd::math::abs;

/// One unit, in raw steps: scalars carry 16 fractional bits.
pub const SCALE: i64 = 65536;

/// Largest raw magnitude a scalar may hold (2^46), so that a raw value
/// times `SCALE` still fits comfortably in an `i64`.
pub const RAW_LIMIT: i64 = 0x4000_0000_0000;

/// Largest whole number convertible by `Fx::from_int` (2^30).
pub const INT_LIMIT: i64 = 0x4000_0000;

/// Clamp a mathematical result into the representable raw range.
pub open spec fn sat(x: int) -> int {
    if x > RAW_LIMIT as int {
        RAW_LIMIT as int
    } else if x < -(RAW_LIMIT as int) {
        -(RAW_LIMIT as int)
    } else {
        x
    }
}

/// A raw value inside the representable range.
pub open spec fn fx_wf(x: int) -> bool {
    -(RAW_LIMIT as int) <= x <= RAW_LIMIT as int
}

/// Quotient truncated toward zero, on which the fixed-point product and
/// quotient are built; `d` is expected positive.
pub open spec fn tdiv(n: int, d: int) -> int {
    if n >= 0 {
        n / d
    } else {
        -((-n) / d)
    }
}

/// Raw product: `(a * b) / SCALE`, truncated toward zero, saturated.
pub open spec fn fx_mul_spec(a: int, b: int) -> int {
    sat(tdiv(a * b, SCALE as int))
}

/// Raw quotient: `(a * SCALE) / b`, truncated toward zero, saturated;
/// division by zero is guarded and yields zero.
pub open spec fn fx_div_spec(a: int, b: int) -> int {
    if b == 0 {
        0
    } else {
        let m = (abs(a * (SCALE as int)) / abs(b)) as int;
        if (a >= 0) == (b > 0) {
            sat(m)
        } else {
            sat(-m)
        }
    }
}

/// Integer square root: the unique `r` with `r * r <= n < (r + 1) * (r + 1)`.
pub open spec fn isqrt(n: nat) -> nat
    decreases n,
{
    if n == 0 {
        0
    } else {
        let r = isqrt((n - 1) as nat);
        if (r + 1) * (r + 1) <= n {
            r + 1
        } else {
            r
        }
    }
}

/// Raw square root: `sqrt(a / SCALE) * SCALE` rounded down, i.e. the
/// integer square root of `a * SCALE`; non-positive inputs yield zero.
pub open spec fn fx_sqrt_spec(a: int) -> int {
    if a <= 0 {
        0
    } else {
        isqrt((a * SCALE) as nat) as int
    }
}

pub proof fn lemma_isqrt_bracket(n: nat)
    ensures
        isqrt(n) * isqrt(n) <= n,
        n < (isqrt(n) + 1) * (isqrt(n) + 1),
    decreases n,
{
    if n == 0 {
        assert(isqrt(n) == 0);
        assert(n < (isqrt(n) + 1) * (isqrt(n) + 1)) by (nonlinear_arith)
            requires
                n == 0,
                isqrt(n) == 0,
        ;
    } else {
        let r = isqrt((n - 1) as nat);
        lemma_isqrt_bracket((n - 1) as nat);
        assert(r * r <= n - 1);
        assert(n - 1 < (r + 1) * (r + 1));
        if (r + 1) * (r + 1) <= n {
            assert(isqrt(n) == r + 1);
            assert(isqrt(n) * isqrt(n) <= n);
            assert(n < (r + 2) * (r + 2)) by (nonlinear_arith)
                requires
                    n <= (r + 1) * (r + 1),
            ;
            assert(n < (isqrt(n) + 1) * (isqrt(n) + 1));
        } else {
            assert(isqrt(n) == r);
            assert(isqrt(n) * isqrt(n) <= n);
            assert(n < (isqrt(n) + 1) * (isqrt(n) + 1));
        }
    }
}

pub proof fn lemma_isqrt_unique(n: nat, r: nat)
    requires
        r * r <= n,
        n < (r + 1) * (r + 1),
    ensures
        r == isqrt(n),
{
    let s = isqrt(n);
    lemma_isqrt_bracket(n);
    if r < s {
        assert((r + 1) * (r + 1) <= s * s) by (nonlinear_arith)
            requires
                r + 1 <= s,
        ;
    } else if s < r {
        assert((s + 1) * (s + 1) <= r * r) by (nonlinear_arith)
            requires
                s + 1 <= r,
        ;
    }
}

/// Fixed-point power with a whole exponent: `SCALE` (one) at exponent
/// zero, then one truncated product per step.
pub open spec fn fx_pow_spec(b: int, e: nat) -> int
    decreases e,
{
    if e == 0 {
        SCALE as int
    } else {
        fx_mul_spec(b, fx_pow_spec(b, (e - 1) as nat))
    }
}

/// The greatest `y <= bound` whose fixed-point power stays at or below
/// `v`; zero when every positive power exceeds `v`.
pub open spec fn fx_root_from(v: int, e: nat, bound: nat) -> nat
    decreases bound,
{
    if bound == 0 {
        0
    } else if fx_pow_spec(bound as int, e) <= v {
        bound
    } else {
        fx_root_from(v, e, (bound - 1) as nat)
    }
}

/// The fixed-point `e`-th root of `v`, searched over `[0, 1]`.
pub open spec fn fx_root_spec(v: int, e: nat) -> nat {
    fx_root_from(v, e, SCALE as nat)
}

/// A fixed-point square is never negative.
pub proof fn lemma_square_nonneg(a: int)
    ensures
        fx_mul_spec(a, a) >= 0,
{
    assert(a * a >= 0) by (nonlinear_arith);
}

pub proof fn lemma_isqrt_le(n: nat, s: nat)
    requires
        n < (s + 1) * (s + 1),
    ensures
        isqrt(n) <= s,
{
    lemma_isqrt_bracket(n);
    if isqrt(n) > s {
        assert((s + 1) * (s + 1) <= isqrt(n) * isqrt(n)) by (nonlinear_arith)
            requires
                s + 1 <= isqrt(n),
        ;
    }
}

/// A fixed-point scalar; the quantity represented is `raw / SCALE`.
#[derive(Clone, Copy, Debug, PartialEq, Eq, Structural)]
pub struct Fx {
    pub raw: i64,
}

impl View for Fx {
    type V = int;

    open spec fn view(&self) -> int {
        self.raw as int
    }
}

impl Fx {
    /// The raw value is inside the representable range.
    pub open spec fn wf(self) -> bool {
        fx_wf(self@)
    }

    pub fn zero() -> (r: Fx)
        ensures
            r@ == 0,
            r.wf(),
    {
        Fx { raw: 0 }
    }

    pub fn one() -> (r: Fx)
        ensures
            r@ == SCALE as int,
            r.wf(),
    {
        Fx { raw: SCALE }
    }

    /// Build a scalar straight from a raw step count.
    pub fn from_raw(raw: i64) -> (r: Fx)
        requires
            fx_wf(raw as int),
        ensures
            r@ == raw as int,
            r.wf(),
    {
        Fx { raw }
    }

    /// Build a scalar from a whole number.
    pub fn from_int(i: i64) -> (r: Fx)
        requires
            -INT_LIMIT <= i <= INT_LIMIT,
        ensures
            r@ == i * (SCALE as int),
            r.wf(),
    {
        Fx { raw: i * SCALE }
    }

    pub fn neg(self) -> (r: Fx)
        requires
            self.wf(),
        ensures
            r@ == -self@,
            r.wf(),
    {
        Fx { raw: -self.raw }
    }

    pub fn add(self, o: Fx) -> (r: Fx)
        requires
            self.wf(),
            o.wf(),
        ensures
            r@ == sat(self@ + o@),
            r.wf(),
    {
        let s: i64 = self.raw + o.raw;
        if s > RAW_LIMIT {
            Fx { raw: RAW_LIMIT }
        } else if s < -RAW_LIMIT {
            Fx { raw: -RAW_LIMIT }
        } else {
            Fx { raw: s }
        }
    }

    pub fn sub(self, o: Fx) -> (r: Fx)
        requires
            self.wf(),
            o.wf(),
        ensures
            r@ == sat(self@ - o@),
            r.wf(),
    {
        let s: i64 = self.raw - o.raw;
        if s > RAW_LIMIT {
            Fx { raw: RAW_LIMIT }
        } else if s < -RAW_LIMIT {
            Fx { raw: -RAW_LIMIT }
        } else {
            Fx { raw: s }
        }
    }

    pub fn mul(self, o: Fx) -> (r: Fx)
        requires
            self.wf(),
            o.wf(),
        ensures
            r@ == fx_mul_spec(self@, o@),
            r.wf(),
    {
        proof {
            assert(-0x1000_0000_0000_0000_0000_0000 <= (self.raw as int) * (o.raw as int)
                <= 0x1000_0000_0000_0000_0000_0000) by (nonlinear_arith)
                requires
                    -0x4000_0000_0000 <= self.raw as int <= 0x4000_0000_0000,
                    -0x4000_0000_0000 <= o.raw as int <= 0x4000_0000_0000,
            ;
        }
        let p: i128 = (self.raw as i128) * (o.raw as i128);
        let q: i128 = if p >= 0 {
            ((p as u128) / (SCALE as u128)) as i128
        } else {
            -((((-p) as u128) / (SCALE as u128)) as i128)
        };
        assert(q == tdiv(self@ * o@, SCALE as int));
        if q > RAW_LIMIT as i128 {
            Fx { raw: RAW_LIMIT }
        } else if q < -(RAW_LIMIT as i128) {
            Fx { raw: -RAW_LIMIT }
        } else {
            Fx { raw: q as i64 }
        }
    }

    pub fn div(self, o: Fx) -> (r: Fx)
        requires
            self.wf(),
            o.wf(),
        ensures
            r@ == fx_div_spec(self@, o@),
            r.wf(),
    {
        if o.raw == 0 {
            return Fx { raw: 0 };
        }
        let n: i128 = (self.raw as i128) * (SCALE as i128);
        let na: u128 = if n >= 0 {
            n as u128
        } else {
            (-n) as u128
        };
        let da: u128 = if o.raw >= 0 {
            o.raw as u128
        } else {
            (-(o.raw as i128)) as u128
        };
        assert(da > 0);
        let q: u128 = na / da;
        proof {
            vstd::arithmetic::div_mod::lemma_div_nonincreasing(na as int, da as int);
            assert(na as int == abs(self@ * (SCALE as int)) as int);
            assert(da as int == abs(o@) as int);
            assert(q as int == (abs(self@ * (SCALE as int)) / abs(o@)) as int);
            assert((self.raw >= 0) == (self@ >= 0));
            assert((o.raw >= 0) == (o@ > 0));
        }
        let qs: i128 = if (self.raw >= 0) == (o.raw >= 0) {
            if q > RAW_LIMIT as u128 {
                RAW_LIMIT as i128
            } else {
                q as i128
            }
        } else {
            if q > RAW_LIMIT as u128 {
                -(RAW_LIMIT as i128)
            } else {
                -(q as i128)
            }
        };
        Fx { raw: qs as i64 }
    }

    pub fn sqrt(self) -> (r: Fx)
        requires
            self.wf(),
        ensures
            r@ == fx_sqrt_spec(self@),
            r.wf(),
            r@ >= 0,
    {
        if self.raw <= 0 {
            return Fx { raw: 0 };
        }
        let n: u64 = (self.raw as u64) * (SCALE as u64);
        let mut lo: u64 = 0;
        let mut hi: u64 = 0x8000_0001;
        proof {
            assert(n < 0x8000_0001 * 0x8000_0001) by (nonlinear_arith)
                requires
                    n as int <= 0x4000_0000_0000int * 0x1_0000,
            ;
        }
        while lo + 1 < hi
            invariant
                (lo as int) * (lo as int) <= n as int,
                (n as int) < (hi as int) * (hi as int),
                lo < hi <= 0x8000_0001,
            decreases hi - lo,
        {
            let mid: u64 = lo + (hi - lo) / 2;
            proof {
                assert((mid as int) * (mid as int) <= 0x8000_0001 * 0x8000_0001
                    < 0xffff_ffff_ffff_ffff) by (nonlinear_arith)
                    requires
                        0 <= mid as int <= 0x8000_0001,
                ;
            }
            if mid * mid <= n {
                lo = mid;
            } else {
                hi = mid;
            }
        }
        proof {
            assert((lo as int) + 1 == hi as int);
            lemma_isqrt_unique(n as nat, lo as nat);
            assert(lo as int <= 0x8000_0000);
        }
        Fx { raw: lo as i64 }
    }

    pub fn min(self, o: Fx) -> (r: Fx)
        ensures
            r@ == if self@ <= o@ { self@ } else { o@ },
    {
        if self.raw <= o.raw {
            self
        } else {
            o
        }
    }

    pub fn max(self, o: Fx) -> (r: Fx)
        ensures
            r@ == if self@ >= o@ { self@ } else { o@ },
    {
        if self.raw >= o.raw {
            self
        } else {
            o
        }
    }

    pub fn abs(self) -> (r: Fx)
        requires
            self.wf(),
        ensures
            r@ == abs(self@) as int,
            r.wf(),
    {
        if self.raw < 0 {
            Fx { raw: -self.raw }
        } else {
            self
        }
    }

    pub fn lt(self, o: Fx) -> (r: bool)
        ensures
            r == (self@ < o@),
    {
        self.raw < o.raw
    }

    pub fn le(self, o: Fx) -> (r: bool)
        ensures
            r == (self@ <= o@),
    {
        self.raw <= o.raw
    }

    pub fn is_zero(self) -> (r: bool)
        ensures
            r == (self@ == 0),
    {
        self.raw == 0
    }

    /// Product with a small whole number.
    pub fn scale_int(self, k: i64) -> (r: Fx)
        requires
            self.wf(),
            -0x1_0000 <= k <= 0x1_0000,
        ensures
            r@ == sat(self@ * k),
            r.wf(),
    {
        proof {
            assert(-0x4_0000_0000_0000_0000 <= (self.raw as int) * (k as int)
                <= 0x4_0000_0000_0000_0000) by (nonlinear_arith)
                requires
                    -0x4000_0000_0000 <= self.raw as int <= 0x4000_0000_0000,
                    -0x1_0000 <= k as int <= 0x1_0000,
            ;
        }
        let p: i128 = (self.raw as i128) * (k as i128);
        if p > RAW_LIMIT as i128 {
            Fx { raw: RAW_LIMIT }
        } else if p < -(RAW_LIMIT as i128) {
            Fx { raw: -RAW_LIMIT }
        } else {
            Fx { raw: p as i64 }
        }
    }

    /// Fixed-point power with a whole exponent.
    pub fn powi(self, e: u32) -> (r: Fx)
        requires
            self.wf(),
        ensures
            r@ == fx_pow_spec(self@, e as nat),
            r.wf(),
    {
        let mut acc = Fx::one();
        let mut done: u32 = 0;
        while done < e
            invariant
                self.wf(),
                acc.wf(),
                done <= e,
                acc@ == fx_pow_spec(self@, done as nat),
            decreases e - done,
        {
            acc = self.mul(acc);
            done = done + 1;
        }
        acc
    }

    /// The fixed-point `e`-th root: the greatest `y` in `[0, 1]` with
    /// `y^e <= self`, found by descending linear search.
    pub fn rooti(self, e: u32) -> (r: Fx)
        requires
            self.wf(),
        ensures
            r@ == fx_root_spec(self@, e as nat) as int,
            0 <= r@ <= SCALE as int,
            r.wf(),
    {
        let mut y: i64 = SCALE;
        loop
            invariant
                0 <= y <= SCALE,
                self.wf(),
                fx_root_spec(self@, e as nat) == fx_root_from(self@, e as nat, y as nat),
            ensures
                0 <= y <= SCALE,
                y as int == fx_root_from(self@, e as nat, y as nat) as int,
                fx_root_spec(self@, e as nat) == fx_root_from(self@, e as nat, y as nat),
            decreases y,
        {
            if y == 0 {
                break ;
            }
            let p = Fx { raw: y }.powi(e);
            if p.raw <= self.raw {
                break ;
            }
            y = y - 1;
        }
        Fx { raw: y }
    }
}


} // verus!

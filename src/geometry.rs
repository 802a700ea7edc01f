//! Pixel quantities as exact fractions, and the rounding rules of placement.
use vstd::prelude::*;
use vstd::arithmetic::div_mod::lemma_fundamental_div_mod_converse;

verus! {

/// A pixel quantity `num / den`, held exactly.
///
/// Toolkit geometry is fractional (cell heights such as 17.5 px); keeping the
/// value as a fraction makes every rounding decision exact.
#[derive(Clone, Copy, Debug, PartialEq, Eq)]
pub struct Px {
    pub num: i32,
    pub den: u32,
}

/// The magnitude of `n`.
pub open spec fn abs(n: int) -> int {
    if n < 0 { -n } else { n }
}

/// A size, with negative values taken as zero.
pub open spec fn clamp_size(n: int) -> int {
    if n < 0 { 0 } else { n }
}

/// Takes a negative size as zero.
pub fn size_of(n: i64) -> (r: i64)
    ensures
        r == clamp_size(n as int),
{
    if n < 0 { 0 } else { n }
}

/// `n / d` rounded toward negative infinity (`d > 0`).
pub open spec fn floor_div(n: int, d: int) -> int {
    n / d
}

/// `n / d` rounded toward positive infinity (`d > 0`).
pub open spec fn ceil_div(n: int, d: int) -> int {
    -((-n) / d)
}

impl Px {
    /// A usable quantity has a positive denominator.
    pub open spec fn wf(self) -> bool {
        self.den > 0
    }

    /// The largest integer not above the quantity.
    pub open spec fn floor_spec(self) -> int {
        floor_div(self.num as int, self.den as int)
    }

    /// The smallest integer not below the quantity.
    pub open spec fn ceil_spec(self) -> int {
        ceil_div(self.num as int, self.den as int)
    }

    /// The whole number `n`.
    pub open spec fn whole_spec(n: i32) -> Px {
        Px { num: n, den: 1 }
    }

    /// The quantity is strictly positive.
    pub open spec fn is_positive(self) -> bool {
        self.num > 0
    }

    /// `num / den`, or `None` when `den` is zero.
    pub fn new(num: i32, den: u32) -> (r: Option<Px>)
        ensures
            den == 0 <==> r is None,
            r matches Some(p) ==> p.num == num && p.den == den,
    {
        if den == 0 {
            None
        } else {
            Some(Px { num, den })
        }
    }

    /// The whole number `n`.
    pub fn whole(n: i32) -> (r: Px)
        ensures
            r.wf(),
            r == Px::whole_spec(n),
    {
        Px { num: n, den: 1 }
    }

    /// Rounds toward negative infinity: toward the canvas origin.
    pub fn floor(&self) -> (r: i64)
        requires
            self.wf(),
        ensures
            r == self.floor_spec(),
    {
        floor_of(self.num as i64, self.den as u64)
    }

    /// Rounds toward positive infinity: outward, so that nothing is clipped.
    pub fn ceil(&self) -> (r: i64)
        requires
            self.wf(),
        ensures
            r == self.ceil_spec(),
    {
        ceil_of(self.num as i64, self.den as u64)
    }
}

pub(crate) proof fn lemma_floor_nonneg(m: int, d: int)
    requires
        m >= 0,
        d > 0,
    ensures
        m / d >= 0,
        m / d <= m,
        -m / d == -((m + d - 1) / d),
{
    let q = (m + d - 1) / d;
    let r = (m + d - 1) % d;
    assert(m + d - 1 == q * d + r && 0 <= r < d) by {
        vstd::arithmetic::div_mod::lemma_fundamental_div_mod(m + d - 1, d);
    }
    assert(-m == (-q) * d + (d - 1 - r)) by (nonlinear_arith)
        requires
            m + d - 1 == q * d + r,
    ;
    lemma_fundamental_div_mod_converse(-m, d, -q, d - 1 - r);
    assert(m / d >= 0 && m / d <= m) by {
        vstd::arithmetic::div_mod::lemma_div_pos_is_pos(m, d);
        vstd::arithmetic::div_mod::lemma_div_is_ordered_by_denominator(m, 1, d);
    }
}

pub(crate) proof fn lemma_ceil_bound(m: int, d: int)
    requires
        m >= 1,
        d > 0,
    ensures
        (m + d - 1) / d <= m,
{
    let q = (m + d - 1) / d;
    vstd::arithmetic::div_mod::lemma_fundamental_div_mod(m + d - 1, d);
    assert(q * d <= m + d - 1);
    assert(q <= m) by (nonlinear_arith)
        requires
            q * d <= m + d - 1,
            m >= 1,
            d > 0,
    ;
}

/// Floor of `n / d` on machine integers.
pub fn floor_of(n: i64, d: u64) -> (r: i64)
    requires
        d > 0,
        n > i64::MIN,
    ensures
        r == floor_div(n as int, d as int),
        -abs(n as int) <= r <= abs(n as int),
{
    if n >= 0 {
        proof {
            lemma_floor_nonneg(n as int, d as int);
        }
        (n as u64 / d) as i64
    } else {
        let m: u64 = (-n) as u64;
        proof {
            lemma_floor_nonneg(-n as int, d as int);
            assert((n as int) / (d as int) == -((m + d - 1) / (d as int)));
            lemma_ceil_bound(m as int, d as int);
        }
        let q: u128 = (m as u128 + d as u128 - 1) / d as u128;
        -(q as i64)
    }
}

/// Ceiling of `n / d` on machine integers.
pub fn ceil_of(n: i64, d: u64) -> (r: i64)
    requires
        d > 0,
        n > i64::MIN,
    ensures
        r == ceil_div(n as int, d as int),
        -abs(n as int) <= r <= abs(n as int),
{
    let f = floor_of(-n, d);
    -f
}

} // verus!

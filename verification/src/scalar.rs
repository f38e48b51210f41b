//! Fixed-point real numbers.
//!
//! A [`Scalar`] is a signed number with 32 fractional bits: the scalar with
//! raw value `r` stands for the real number `r / 2^32`. Arithmetic never
//! wraps: a result that is too large in magnitude saturates at the largest
//! representable magnitude, and products and quotients round toward zero.
//! Division is total: a nonzero number divided by zero saturates with the
//! sign of the dividend, as a quotient by a vanishing divisor does, and zero
//! divided by zero is zero. The representable range is symmetric, so every
//! scalar has an exact negation.

use vstd::prelude::*;

verus! {

/// Raw value of the scalar one.
pub const ONE: i64 = 0x1_0000_0000;

/// Largest raw magnitude of a scalar.
pub const MAX: i64 = 0x7fff_ffff_ffff_ffff;

/// A fixed-point number with 32 fractional bits.
///
/// The model of a scalar is its raw value as a mathematical integer, read
/// through `@`. The one raw value without a negation, `i64::MIN`, is read as
/// `-MAX`; no operation of this module produces it.
#[derive(Clone, Copy, PartialEq, Eq, Structural, Debug)]
pub struct Scalar {
    pub raw: i64,
}

impl View for Scalar {
    type V = int;

    open spec fn view(&self) -> int {
        if self.raw == i64::MIN {
            -(MAX as int)
        } else {
            self.raw as int
        }
    }
}

/// Absolute value of an integer.
pub open spec fn magnitude(x: int) -> int {
    if x < 0 {
        -x
    } else {
        x
    }
}

/// The nearest raw value in the symmetric range `[-MAX, MAX]`.
pub open spec fn saturate(x: int) -> int {
    if x > MAX {
        MAX as int
    } else if x < -MAX {
        -(MAX as int)
    } else {
        x
    }
}

/// Quotient of `a` by `b`, rounded toward zero. Where `b` is zero, the
/// quotient has the sign of `a` and a magnitude beyond every scalar, so that
/// it saturates.
pub open spec fn trunc_div(a: int, b: int) -> int {
    if b == 0 {
        a * (MAX + 1)
    } else if (a < 0) != (b < 0) {
        -(magnitude(a) / magnitude(b))
    } else {
        magnitude(a) / magnitude(b)
    }
}

/// `r` is the integer square root of `n`: the largest natural number whose
/// square does not exceed `n`.
pub open spec fn is_int_sqrt(r: int, n: int) -> bool {
    r >= 0 && r * r <= n && n < (r + 1) * (r + 1)
}

/// The integer square root of a natural number `n`.
pub open spec fn int_sqrt(n: int) -> int {
    choose|r: int| is_int_sqrt(r, n)
}

/// Every natural number has an integer square root, which `int_sqrt`
/// gives.
pub proof fn lemma_int_sqrt_exists(n: int)
    requires
        n >= 0,
    ensures
        is_int_sqrt(int_sqrt(n), n),
    decreases n,
{
    if n == 0 {
        assert(is_int_sqrt(0, 0));
    } else {
        lemma_int_sqrt_exists(n - 1);
        let r = int_sqrt(n - 1);
        assert(is_int_sqrt(r, n - 1));
        if n < (r + 1) * (r + 1) {
            assert(is_int_sqrt(r, n));
        } else {
            assert((r + 2) * (r + 2) > (r + 1) * (r + 1)) by (nonlinear_arith)
                requires
                    r >= 0,
            ;
            assert(is_int_sqrt(r + 1, n));
        }
    }
    assert(is_int_sqrt(int_sqrt(n), n));
}

/// The integer square root is unique: whatever satisfies its definition is
/// the value of `int_sqrt`.
pub proof fn lemma_int_sqrt_unique(r: int, n: int)
    requires
        is_int_sqrt(r, n),
    ensures
        int_sqrt(n) == r,
{
    let s = int_sqrt(n);
    assert(is_int_sqrt(s, n));
    assert(s == r) by (nonlinear_arith)
        requires
            s >= 0,
            r >= 0,
            s * s <= n,
            n < (s + 1) * (s + 1),
            r * r <= n,
            n < (r + 1) * (r + 1),
    {
        if s < r {
            assert((s + 1) * (s + 1) <= r * r);
        } else if r < s {
            assert((r + 1) * (r + 1) <= s * s);
        }
    }
}

/// Truncated division is odd in its numerator.
pub proof fn lemma_trunc_div_neg(a: int, b: int)
    ensures
        trunc_div(-a, b) == -trunc_div(a, b),
{
}

/// Multiplying by a negation negates the product, exactly.
pub proof fn lemma_mul_neg(a: Scalar, b: Scalar)
    ensures
        a.spec_mul(b.spec_neg())@ == -a.spec_mul(b)@,
        b.spec_neg()@ == -b@,
{
    assert(a@ * (-b@) == -(a@ * b@)) by (nonlinear_arith);
    lemma_trunc_div_neg(a@ * b@, ONE as int);
}

/// The sum of two negations is the negation of the sum, exactly.
pub proof fn lemma_add_neg(a: Scalar, b: Scalar, c: Scalar, d: Scalar)
    requires
        c@ == -a@,
        d@ == -b@,
    ensures
        c.spec_add(d)@ == -a.spec_add(b)@,
{
}

/// A square root is never negative.
pub proof fn lemma_sqrt_nonnegative(a: Scalar)
    ensures
        a.spec_sqrt()@ >= 0,
{
    if a@ >= 0 {
        assert(a@ * ONE >= 0);
        lemma_int_sqrt_exists(a@ * ONE);
    } else {
        lemma_int_sqrt_exists(0);
    }
}

/// Truncated division by a positive number keeps the order of the
/// numerators.
pub proof fn lemma_trunc_div_monotonic(a: int, b: int, d: int)
    requires
        a <= b,
        d > 0,
    ensures
        trunc_div(a, d) <= trunc_div(b, d),
{
    if a >= 0 {
        vstd::arithmetic::div_mod::lemma_div_is_ordered(a, b, d);
    } else if b < 0 {
        vstd::arithmetic::div_mod::lemma_div_is_ordered(-b, -a, d);
    } else {
        vstd::arithmetic::div_mod::lemma_div_pos_is_pos(-a, d);
        vstd::arithmetic::div_mod::lemma_div_pos_is_pos(b, d);
    }
}

/// Division by a positive scalar keeps the order of the dividends.
pub proof fn lemma_div_monotonic(a: Scalar, b: Scalar, d: Scalar)
    requires
        a@ <= b@,
        d@ > 0,
    ensures
        a.spec_div(d)@ <= b.spec_div(d)@,
{
    assert(a@ * ONE <= b@ * ONE);
    lemma_trunc_div_monotonic(a@ * ONE, b@ * ONE, d@);
}

/// A factor between zero and one does not enlarge a number that is not
/// negative, nor make it negative.
pub proof fn lemma_mul_by_fraction(a: Scalar, c: Scalar)
    requires
        0 <= a@ <= ONE,
        0 <= c@,
    ensures
        0 <= a.spec_mul(c)@ <= c@,
{
    assert(0 <= a@ * c@ <= ONE * c@) by (nonlinear_arith)
        requires
            0 <= a@ <= ONE,
            0 <= c@,
    ;
    vstd::arithmetic::div_mod::lemma_div_is_ordered(a@ * c@, ONE * c@, ONE as int);
    vstd::arithmetic::div_mod::lemma_div_pos_is_pos(a@ * c@, ONE as int);
    assert((ONE * c@) / (ONE as int) == c@) by (nonlinear_arith);
}

/// Truncated division of wide integers, computed on magnitudes.
fn wide_trunc_div(a: i128, b: i128) -> (q: i128)
    requires
        b != 0,
        -0x4000_0000_0000_0000_0000_0000_0000_0000 <= a <= 0x4000_0000_0000_0000_0000_0000_0000_0000,
        -0x4000_0000_0000_0000_0000_0000_0000_0000 <= b <= 0x4000_0000_0000_0000_0000_0000_0000_0000,
    ensures
        q == trunc_div(a as int, b as int),
        magnitude(q as int) <= magnitude(a as int),
{
    let ma: u128 = if a < 0 {
        (-a) as u128
    } else {
        a as u128
    };
    let mb: u128 = if b < 0 {
        (-b) as u128
    } else {
        b as u128
    };
    let m: u128 = ma / mb;
    assert(m <= ma) by (nonlinear_arith)
        requires
            m == ma / mb,
            mb >= 1,
    ;
    if (a < 0) != (b < 0) {
        -(m as i128)
    } else {
        m as i128
    }
}

/// Truncated division of wide integers, total: a quotient by zero is given
/// as a number of the dividend's sign that saturates.
fn wide_quotient(a: i128, b: i128) -> (q: i128)
    requires
        -0x4000_0000_0000_0000_0000_0000_0000_0000 <= a <= 0x4000_0000_0000_0000_0000_0000_0000_0000,
        -0x4000_0000_0000_0000_0000_0000_0000_0000 <= b <= 0x4000_0000_0000_0000_0000_0000_0000_0000,
    ensures
        saturate(q as int) == saturate(trunc_div(a as int, b as int)),
{
    if b != 0 {
        wide_trunc_div(a, b)
    } else {
        assert(a > 0 ==> a * (MAX + 1) > MAX) by (nonlinear_arith);
        assert(a < 0 ==> a * (MAX + 1) < -MAX) by (nonlinear_arith);
        assert(a == 0 ==> a * (MAX + 1) == 0) by (nonlinear_arith);
        if a > 0 {
            MAX as i128 + 1
        } else if a < 0 {
            -(MAX as i128) - 1
        } else {
            0
        }
    }
}

/// Saturation of a wide integer to the raw range of a scalar.
fn wide_saturate(x: i128) -> (r: i64)
    ensures
        r == saturate(x as int),
{
    if x > MAX as i128 {
        MAX
    } else if x < -(MAX as i128) {
        -MAX
    } else {
        x as i64
    }
}

/// Integer square root by bisection.
fn wide_sqrt(n: u128) -> (r: u64)
    requires
        n < 0x1_0000_0000_0000_0000_0000_0000,
    ensures
        is_int_sqrt(r as int, n as int),
        r < 0x1_0000_0000_0000,
{
    let mut lo: u64 = 0;
    let mut hi: u64 = 0x1_0000_0000_0000;
    assert(0x1_0000_0000_0000int * 0x1_0000_0000_0000int == 0x1_0000_0000_0000_0000_0000_0000int)
        by (nonlinear_arith);
    while hi - lo > 1
        invariant
            lo < hi <= 0x1_0000_0000_0000,
            lo * lo <= n,
            n < hi * hi,
        decreases hi - lo,
    {
        let mid: u64 = lo + (hi - lo) / 2;
        assert(mid * mid <= 0x1_0000_0000_0000int * 0x1_0000_0000_0000int) by (nonlinear_arith)
            requires
                0 <= mid <= 0x1_0000_0000_0000,
        ;
        let sq: u128 = (mid as u128) * (mid as u128);
        if sq <= n {
            lo = mid;
        } else {
            hi = mid;
        }
    }
    lo
}

impl Scalar {
    /// The scalar whose model is the saturation of `x`.
    pub open spec fn of(x: int) -> Scalar {
        Scalar { raw: saturate(x) as i64 }
    }

    /// Sum, saturated.
    pub open spec fn spec_add(self, rhs: Scalar) -> Scalar {
        Scalar::of(self@ + rhs@)
    }

    /// Difference, saturated.
    pub open spec fn spec_sub(self, rhs: Scalar) -> Scalar {
        Scalar::of(self@ - rhs@)
    }

    /// Negation, which is exact.
    pub open spec fn spec_neg(self) -> Scalar {
        Scalar::of(-self@)
    }

    /// Product, rounded toward zero and saturated.
    pub open spec fn spec_mul(self, rhs: Scalar) -> Scalar {
        Scalar::of(trunc_div(self@ * rhs@, ONE as int))
    }

    /// Quotient, rounded toward zero and saturated. Division by zero
    /// saturates with the sign of the dividend; zero by zero is zero.
    pub open spec fn spec_div(self, rhs: Scalar) -> Scalar {
        Scalar::of(trunc_div(self@ * ONE, rhs@))
    }

    /// Square root, rounded down; the root of a negative scalar is zero.
    pub open spec fn spec_sqrt(self) -> Scalar {
        Scalar::of(
            int_sqrt(
                if self@ < 0 {
                    0
                } else {
                    self@ * ONE
                },
            ),
        )
    }

    /// The smaller of two scalars.
    pub open spec fn spec_min(self, rhs: Scalar) -> Scalar {
        if rhs@ < self@ {
            Scalar::of(rhs@)
        } else {
            Scalar::of(self@)
        }
    }

    /// `self` raised to the power `n` by repeated multiplication from the
    /// left: `((1 * x) * x) * ...`.
    pub open spec fn spec_powi(self, n: nat) -> Scalar
        decreases n,
    {
        if n == 0 {
            Scalar::of(ONE as int)
        } else {
            self.spec_powi((n - 1) as nat).spec_mul(self)
        }
    }

    /// The scalar with the given raw value, `i64::MIN` read as `-MAX`.
    pub fn from_raw(raw: i64) -> (r: Scalar)
        ensures
            r == Scalar::of(raw as int),
            r@ == (Scalar { raw })@,
    {
        if raw == i64::MIN {
            Scalar { raw: -MAX }
        } else {
            Scalar { raw }
        }
    }

    /// The raw value: the model as a machine integer.
    pub fn to_raw(self) -> (r: i64)
        ensures
            r == self@,
    {
        if self.raw == i64::MIN {
            -MAX
        } else {
            self.raw
        }
    }

    /// The scalar for a whole number.
    pub fn from_int(n: i64) -> (r: Scalar)
        ensures
            r == Scalar::of(n * ONE),
    {
        let wide: i128 = (n as i128) * 0x1_0000_0000;
        assert(wide == n * ONE);
        Scalar { raw: wide_saturate(wide) }
    }

    /// The scalar nearest to `num / den` toward zero.
    pub fn from_ratio(num: i64, den: i64) -> (r: Scalar)
        ensures
            r == Scalar::of(trunc_div(num * ONE, den as int)),
    {
        let wide: i128 = (num as i128) * 0x1_0000_0000;
        assert(wide == num * ONE);
        Scalar { raw: wide_saturate(wide_quotient(wide, den as i128)) }
    }

    /// Zero.
    pub fn zero() -> (r: Scalar)
        ensures
            r == Scalar::of(0),
            r@ == 0,
    {
        Scalar { raw: 0 }
    }

    /// One.
    pub fn one() -> (r: Scalar)
        ensures
            r == Scalar::of(ONE as int),
            r@ == ONE,
    {
        Scalar { raw: ONE }
    }

    /// The largest scalar, which stands in for an unbounded upper limit.
    pub fn max_value() -> (r: Scalar)
        ensures
            r == Scalar::of(MAX as int),
            r@ == MAX,
    {
        Scalar { raw: MAX }
    }

    /// Square root, rounded down: the largest scalar whose square does not
    /// exceed `self`. The root of a negative scalar is zero.
    pub fn sqrt(self) -> (r: Scalar)
        ensures
            r == self.spec_sqrt(),
            r@ >= 0,
            self@ >= 0 ==> is_int_sqrt(r@, self@ * ONE),
            self@ < 0 ==> r@ == 0,
    {
        let v: i64 = self.to_raw();
        let n: u128 = if v < 0 {
            0
        } else {
            (v as u128) * (ONE as u128)
        };
        let root: u64 = wide_sqrt(n);
        proof {
            lemma_int_sqrt_unique(root as int, n as int);
            if n == 0 {
                assert(root == 0) by (nonlinear_arith)
                    requires
                        root * root <= 0,
                ;
            }
        }
        Scalar { raw: root as i64 }
    }

    /// The smaller of two scalars.
    pub fn min(self, rhs: Scalar) -> (r: Scalar)
        ensures
            r == self.spec_min(rhs),
            r@ <= self@,
            r@ <= rhs@,
            r@ == self@ || r@ == rhs@,
    {
        if rhs.to_raw() < self.to_raw() {
            Scalar { raw: rhs.to_raw() }
        } else {
            Scalar { raw: self.to_raw() }
        }
    }

    /// `self` raised to the power `n` by repeated multiplication.
    pub fn powi(self, n: u32) -> (r: Scalar)
        ensures
            r == self.spec_powi(n as nat),
    {
        let mut acc: Scalar = Scalar::one();
        let mut k: u32 = 0;
        while k < n
            invariant
                k <= n,
                acc == self.spec_powi(k as nat),
            decreases n - k,
        {
            acc = acc * self;
            k = k + 1;
        }
        acc
    }

    /// Whether `self` is less than `rhs`.
    pub fn lt(self, rhs: Scalar) -> (b: bool)
        ensures
            b == (self@ < rhs@),
    {
        self.to_raw() < rhs.to_raw()
    }

    /// Whether `self` is at most `rhs`.
    pub fn le(self, rhs: Scalar) -> (b: bool)
        ensures
            b == (self@ <= rhs@),
    {
        self.to_raw() <= rhs.to_raw()
    }

    /// Whether `self` is greater than `rhs`.
    pub fn gt(self, rhs: Scalar) -> (b: bool)
        ensures
            b == (self@ > rhs@),
    {
        self.to_raw() > rhs.to_raw()
    }

    /// Whether `self` is at least `rhs`.
    pub fn ge(self, rhs: Scalar) -> (b: bool)
        ensures
            b == (self@ >= rhs@),
    {
        self.to_raw() >= rhs.to_raw()
    }

    /// Whether `self` is zero.
    pub fn is_zero(self) -> (b: bool)
        ensures
            b == (self@ == 0),
    {
        self.raw == 0
    }
}

impl vstd::std_specs::ops::AddSpecImpl for Scalar {
    open spec fn obeys_add_spec() -> bool {
        true
    }

    open spec fn add_req(self, rhs: Scalar) -> bool {
        true
    }

    open spec fn add_spec(self, rhs: Scalar) -> Scalar {
        self.spec_add(rhs)
    }
}

impl std::ops::Add for Scalar {
    type Output = Scalar;

    fn add(self, rhs: Scalar) -> (r: Scalar) {
        let wide: i128 = self.to_raw() as i128 + rhs.to_raw() as i128;
        Scalar { raw: wide_saturate(wide) }
    }
}

impl vstd::std_specs::ops::SubSpecImpl for Scalar {
    open spec fn obeys_sub_spec() -> bool {
        true
    }

    open spec fn sub_req(self, rhs: Scalar) -> bool {
        true
    }

    open spec fn sub_spec(self, rhs: Scalar) -> Scalar {
        self.spec_sub(rhs)
    }
}

impl std::ops::Sub for Scalar {
    type Output = Scalar;

    fn sub(self, rhs: Scalar) -> (r: Scalar) {
        let wide: i128 = self.to_raw() as i128 - rhs.to_raw() as i128;
        Scalar { raw: wide_saturate(wide) }
    }
}

impl vstd::std_specs::ops::NegSpecImpl for Scalar {
    open spec fn obeys_neg_spec() -> bool {
        true
    }

    open spec fn neg_req(self) -> bool {
        true
    }

    open spec fn neg_spec(self) -> Scalar {
        self.spec_neg()
    }
}

impl std::ops::Neg for Scalar {
    type Output = Scalar;

    fn neg(self) -> (r: Scalar) {
        Scalar { raw: -self.to_raw() }
    }
}

impl vstd::std_specs::ops::MulSpecImpl for Scalar {
    open spec fn obeys_mul_spec() -> bool {
        true
    }

    open spec fn mul_req(self, rhs: Scalar) -> bool {
        true
    }

    open spec fn mul_spec(self, rhs: Scalar) -> Scalar {
        self.spec_mul(rhs)
    }
}

impl std::ops::Mul for Scalar {
    type Output = Scalar;

    fn mul(self, rhs: Scalar) -> (r: Scalar) {
        let a: i128 = self.to_raw() as i128;
        let b: i128 = rhs.to_raw() as i128;
        assert(-0x4000_0000_0000_0000_0000_0000_0000_0000 <= a * b
            <= 0x4000_0000_0000_0000_0000_0000_0000_0000) by (nonlinear_arith)
            requires
                -0x8000_0000_0000_0000 <= a <= 0x8000_0000_0000_0000,
                -0x8000_0000_0000_0000 <= b <= 0x8000_0000_0000_0000,
        ;
        let q: i128 = wide_trunc_div(a * b, ONE as i128);
        Scalar { raw: wide_saturate(q) }
    }
}

impl vstd::std_specs::ops::DivSpecImpl for Scalar {
    open spec fn obeys_div_spec() -> bool {
        true
    }

    open spec fn div_req(self, rhs: Scalar) -> bool {
        true
    }

    open spec fn div_spec(self, rhs: Scalar) -> Scalar {
        self.spec_div(rhs)
    }
}

impl std::ops::Div for Scalar {
    type Output = Scalar;

    fn div(self, rhs: Scalar) -> (r: Scalar) {
        let a: i128 = (self.to_raw() as i128) * 0x1_0000_0000;
        assert(a == self@ * ONE);
        Scalar { raw: wide_saturate(wide_quotient(a, rhs.to_raw() as i128)) }
    }
}

} // verus!

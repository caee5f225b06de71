//! The single-precision encoding of integers, as bits.

use vstd::prelude::*;

verus! {

/// Two to the power `e`.
pub open spec fn power_of_two(e: nat) -> nat
    decreases e,
{
    if e == 0 {
        1
    } else {
        2 * power_of_two((e - 1) as nat)
    }
}

/// The exponent of the leading binary digit of `a`.
pub open spec fn leading_exponent(a: nat) -> nat
    decreases a,
{
    if a <= 1 {
        0
    } else {
        1 + leading_exponent(a / 2)
    }
}

/// `a` doubled `k` times.
pub open spec fn doubled(a: nat, k: nat) -> nat
    decreases k,
{
    if k == 0 {
        a
    } else {
        2 * doubled(a, (k - 1) as nat)
    }
}

/// `a / d` rounded to the nearest integer, a tie going to the even one.
pub open spec fn div_half_even(a: nat, d: nat) -> nat {
    let q = a / d;
    let r = a % d;
    if 2 * r > d || (2 * r == d && q % 2 == 1) {
        q + 1
    } else {
        q
    }
}

/// The significand, scaled to 24 bits, of the encoding nearest to `a`. A
/// rounding that carries gives 2^24, which moves the exponent up by one.
pub open spec fn significand(a: nat) -> nat {
    let e = leading_exponent(a);
    if e <= 23 {
        doubled(a, (23 - e) as nat)
    } else {
        div_half_even(a, power_of_two((e - 23) as nat))
    }
}

/// The bits of the single-precision number nearest to `n`, ties to even.
pub open spec fn spec_f32_bits(n: int) -> int {
    if n == 0 {
        0
    } else {
        let a = (if n < 0 { -n } else { n }) as nat;
        let sign: int = if n < 0 { 0x8000_0000 } else { 0 };
        sign + (leading_exponent(a) + 127) * 0x80_0000 + (significand(a) - 0x80_0000)
    }
}

proof fn lemma_leading_exponent(a: nat, e: nat)
    requires
        power_of_two(e) <= a < power_of_two(e + 1),
    ensures
        leading_exponent(a) == e,
    decreases e,
{
    reveal_with_fuel(power_of_two, 2);
    if e > 0 {
        lemma_leading_exponent(a / 2, (e - 1) as nat);
    }
}

proof fn lemma_powers()
    ensures
        power_of_two(23) == 0x80_0000,
        power_of_two(24) == 0x100_0000,
{
    reveal_with_fuel(power_of_two, 25);
}

/// The bits of `n` as a single-precision number, rounded to nearest, ties to even.
pub fn f32_bits(n: i32) -> (r: u32)
    ensures
        r == spec_f32_bits(n as int),
{
    f32_bits_wide(n as i64)
}

/// The bits of a number of up to 32 bits and a sign.
pub fn f32_bits_wide(n: i64) -> (r: u32)
    requires
        -0x1_0000_0000 < n < 0x1_0000_0000,
    ensures
        r == spec_f32_bits(n as int),
{
    if n == 0 {
        return 0;
    }
    let wide: i64 = n;
    let a: u64 = if wide < 0 { (-wide) as u64 } else { wide as u64 };
    let mut e: u64 = 0;
    let mut p: u64 = 1;
    while 2 * p <= a
        invariant
            1 <= p <= a < 0x1_0000_0000,
            p == power_of_two(e as nat),
            e < p,
        decreases a - p,
    {
        p = 2 * p;
        e = e + 1;
    }
    proof {
        lemma_leading_exponent(a as nat, e as nat);
        lemma_powers();
    }
    let m: u64 = if e <= 23 {
        let mut m: u64 = a;
        let mut k: u64 = e;
        let mut limit: u64 = 2 * p;
        proof {
            lemma_power_monotonic((e + 1) as nat, 24);
        }
        while k < 23
            invariant
                e <= k <= 23,
                m == doubled(a as nat, (k - e) as nat),
                m < limit,
                limit == power_of_two((k + 1) as nat),
                limit <= 0x100_0000,
                power_of_two(24) == 0x100_0000,
            decreases 23 - k,
        {
            proof {
                lemma_power_monotonic((k + 2) as nat, 24);
            }
            m = 2 * m;
            limit = 2 * limit;
            k = k + 1;
        }
        m
    } else {
        let mut d: u64 = 1;
        let mut k: u64 = 23;
        let ghost mut limit: nat = 0x100_0000;
        while k < e
            invariant
                23 <= k <= e,
                d == power_of_two((k - 23) as nat),
                limit == power_of_two((k + 1) as nat),
                limit == 0x100_0000 * d,
                power_of_two((e + 1) as nat) <= 0x2_0000_0000,
            decreases e - k,
        {
            proof {
                lemma_power_monotonic((k + 2) as nat, (e + 1) as nat);
                limit = 2 * limit;
            }
            d = 2 * d;
            k = k + 1;
        }
        let q: u64 = a / d;
        let r: u64 = a % d;
        assert(q < 0x100_0000) by (nonlinear_arith)
            requires
                a < 0x100_0000 * d,
                q == a / d,
                d > 0,
        ;
        assert(r < d) by (nonlinear_arith)
            requires
                r == a % d,
                d > 0,
        ;
        if 2 * r > d || (2 * r == d && q % 2 == 1) {
            q + 1
        } else {
            q
        }
    };
    let sign: u64 = if n < 0 { 0x8000_0000 } else { 0 };
    assert(e <= 31) by {
        if e > 31 {
            lemma_power_monotonic(32, e as nat);
            reveal_with_fuel(power_of_two, 33);
        }
    }
    let bits: u64 = sign + (e + 127) * 0x80_0000 + m - 0x80_0000;
    bits as u32
}

/// Powers of two grow with their exponents.
pub proof fn lemma_power_monotonic(i: nat, j: nat)
    requires
        i <= j,
    ensures
        power_of_two(i) <= power_of_two(j),
    decreases j - i,
{
    if i < j {
        lemma_power_monotonic(i, (j - 1) as nat);
    }
}

/// A single-precision number, as its bits.
#[derive(Clone, Copy, Debug, PartialEq, Eq, Structural)]
pub struct FloatBits(pub u32);

/// The bits of one.
pub const ONE_BITS: u32 = 0x3F80_0000;

impl FloatBits {
    pub open spec fn negative(self) -> bool {
        self.0 >= 0x8000_0000
    }

    /// The bits without the sign.
    pub open spec fn magnitude(self) -> int {
        if self.negative() {
            self.0 - 0x8000_0000
        } else {
            self.0 as int
        }
    }

    pub open spec fn not_a_number(self) -> bool {
        self.magnitude() > 0x7F80_0000
    }

    /// An integer that orders the numbers: the bits of numbers of one sign stand
    /// in the order of their magnitudes, and the two zeros are equal.
    pub open spec fn order(self) -> int {
        if self.negative() {
            -self.magnitude()
        } else {
            self.magnitude()
        }
    }

    /// `self` is greater than `other`; false where one of them is not a number.
    pub open spec fn spec_gt(self, other: Self) -> bool {
        !self.not_a_number() && !other.not_a_number() && self.order() > other.order()
    }

    /// The two numbers are equal; false where one of them is not a number.
    pub open spec fn spec_equals(self, other: Self) -> bool {
        !self.not_a_number() && !other.not_a_number() && self.order() == other.order()
    }

    fn order_key(self) -> (r: i64)
        ensures
            r == self.order(),
    {
        if self.0 >= 0x8000_0000 {
            0x8000_0000i64 - self.0 as i64
        } else {
            self.0 as i64
        }
    }

    pub fn is_nan(self) -> (r: bool)
        ensures
            r == self.not_a_number(),
    {
        let key: i64 = self.order_key();
        key > 0x7F80_0000 || key < -0x7F80_0000
    }

    pub fn gt(self, other: Self) -> (r: bool)
        ensures
            r == self.spec_gt(other),
    {
        !self.is_nan() && !other.is_nan() && self.order_key() > other.order_key()
    }

    pub fn equals(self, other: Self) -> (r: bool)
        ensures
            r == self.spec_equals(other),
    {
        !self.is_nan() && !other.is_nan() && self.order_key() == other.order_key()
    }

    /// The greater of the two; the other where one is not a number.
    pub open spec fn spec_max(self, other: Self) -> Self {
        if self.not_a_number() {
            other
        } else if other.not_a_number() || self.order() >= other.order() {
            self
        } else {
            other
        }
    }

    pub fn max(self, other: Self) -> (r: Self)
        ensures
            r == self.spec_max(other),
    {
        if self.is_nan() {
            other
        } else if other.is_nan() || self.order_key() >= other.order_key() {
            self
        } else {
            other
        }
    }

    /// `self` is less than or equal to `other`; false where one is not a number.
    pub open spec fn spec_le(self, other: Self) -> bool {
        !self.not_a_number() && !other.not_a_number() && self.order() <= other.order()
    }

    pub fn le(self, other: Self) -> (r: bool)
        ensures
            r == self.spec_le(other),
    {
        !self.is_nan() && !other.is_nan() && self.order_key() <= other.order_key()
    }

    /// The number is greater than zero.
    pub open spec fn spec_is_positive(self) -> bool {
        self.spec_gt(FloatBits(0))
    }

    pub fn is_positive(self) -> (r: bool)
        ensures
            r == self.spec_is_positive(),
    {
        self.gt(FloatBits(0))
    }

    /// Half of the number, rounded to nearest, ties to even. The exponent goes
    /// down by one where there is room; below that the bits count the smallest
    /// representable step.
    pub open spec fn spec_half(self) -> Self {
        let m = self.magnitude();
        let sign: int = if self.negative() { 0x8000_0000 } else { 0 };
        if m >= 0x7F80_0000 {
            self
        } else if m >= 0x100_0000 {
            FloatBits((self.0 - 0x80_0000) as u32)
        } else {
            FloatBits((sign + div_half_even(m as nat, 2)) as u32)
        }
    }

    pub fn half(self) -> (r: Self)
        ensures
            r == self.spec_half(),
    {
        let negative: bool = self.0 >= 0x8000_0000;
        let m: u32 = if negative { self.0 - 0x8000_0000 } else { self.0 };
        if m >= 0x7F80_0000 {
            self
        } else if m >= 0x100_0000 {
            FloatBits(self.0 - 0x80_0000)
        } else {
            let q: u32 = m / 2;
            let half: u32 = if m % 2 == 1 && q % 2 == 1 { q + 1 } else { q };
            if negative {
                FloatBits(half + 0x8000_0000)
            } else {
                FloatBits(half)
            }
        }
    }

    /// The significand of a positive number as an integer, the leading bit included.
    pub open spec fn integer_significand(self) -> nat {
        let m = self.magnitude();
        if m < 0x80_0000 {
            m as nat
        } else {
            (m % 0x80_0000 + 0x80_0000) as nat
        }
    }

    /// The exponent of the significand's lowest bit, counted from the lowest
    /// exponent that there is (2 to the power -149).
    pub open spec fn lowest_exponent(self) -> nat {
        let m = self.magnitude();
        if m < 0x80_0000 {
            0
        } else {
            (m / 0x80_0000 - 1) as nat
        }
    }

    /// The number times 1024 as an unsigned integer: cut off towards zero, zero
    /// for what is negative or not a number, the greatest integer for what is
    /// too large.
    pub open spec fn spec_in_1024ths(self) -> int {
        if self.not_a_number() || self.negative() {
            0
        } else if self.lowest_exponent() >= 149 {
            u32::MAX as int
        } else if self.lowest_exponent() >= 139 {
            let v = doubled(self.integer_significand(), (self.lowest_exponent() - 139) as nat);
            if v > u32::MAX {
                u32::MAX as int
            } else {
                v as int
            }
        } else {
            halved(self.integer_significand(), (139 - self.lowest_exponent()) as nat) as int
        }
    }

    pub fn in_1024ths(self) -> (r: u32)
        ensures
            r == self.spec_in_1024ths(),
    {
        if self.is_nan() || self.0 >= 0x8000_0000 {
            return 0;
        }
        let bits: u32 = self.0;
        let significand: u32 = if bits < 0x80_0000 { bits } else { bits % 0x80_0000 + 0x80_0000 };
        let exponent: u32 = if bits < 0x80_0000 { 0 } else { bits / 0x80_0000 - 1 };
        if exponent >= 149 {
            return u32::MAX;
        }
        if exponent >= 139 {
            let mut v: u64 = significand as u64;
            let mut k: u32 = 139;
            while k < exponent
                invariant
                    139 <= k <= exponent < 149,
                    v == doubled(significand as nat, (k - 139) as nat),
                    significand < 0x100_0000,
                    v < doubled(0x100_0000, (k - 139) as nat),
                decreases exponent - k,
            {
                proof {
                    lemma_doubled_bound((k - 139) as nat);
                }
                v = 2 * v;
                k = k + 1;
                proof {
                    lemma_doubled_bound((k - 139) as nat);
                }
            }
            if v > u32::MAX as u64 {
                u32::MAX
            } else {
                v as u32
            }
        } else {
            let mut v: u32 = significand;
            let mut k: u32 = exponent;
            while k < 139
                invariant
                    exponent <= k <= 139,
                    v == halved(significand as nat, (k - exponent) as nat),
                decreases 139 - k,
            {
                v = v / 2;
                k = k + 1;
            }
            v
        }
    }
}

/// `a` halved `k` times, cut off each time.
pub open spec fn halved(a: nat, k: nat) -> nat
    decreases k,
{
    if k == 0 {
        a
    } else {
        halved(a, (k - 1) as nat) / 2
    }
}

proof fn lemma_doubled_bound(k: nat)
    requires
        k <= 10,
    ensures
        doubled(0x100_0000, k) <= 0x100_0000 * 1024,
{
    reveal_with_fuel(doubled, 11);
}

/// A positive number lies between two neighbouring powers of two, the lower of which is
/// that of its leading binary digit.
pub proof fn leading_exponents_are_leading(a: nat)
    requires
        a >= 1,
    ensures
        power_of_two(leading_exponent(a)) <= a < power_of_two(leading_exponent(a) + 1),
    decreases a,
{
    reveal_with_fuel(power_of_two, 2);
    if a > 1 {
        leading_exponents_are_leading(a / 2);
    }
}

proof fn lemma_doubled(a: nat, k: nat)
    ensures
        doubled(a, k) == a * power_of_two(k),
    decreases k,
{
    if k > 0 {
        lemma_doubled(a, (k - 1) as nat);
        let p = power_of_two((k - 1) as nat);
        assert(2 * (a * p) == a * (2 * p)) by (nonlinear_arith);
    } else {
        assert(a * 1 == a);
    }
}

proof fn lemma_halved(a: nat, k: nat)
    ensures
        halved(a, k) * power_of_two(k) <= a < (halved(a, k) + 1) * power_of_two(k),
    decreases k,
{
    if k > 0 {
        lemma_halved(a, (k - 1) as nat);
        let h = halved(a, (k - 1) as nat);
        let p = power_of_two((k - 1) as nat);
        let q = h / 2;
        assert(q * (2 * p) <= a && a < (q + 1) * (2 * p)) by (nonlinear_arith)
            requires
                h * p <= a < (h + 1) * p,
                2 * q <= h <= 2 * q + 1,
        ;
    } else {
        assert(a * 1 == a && (a + 1) * 1 == a + 1);
    }
}

proof fn lemma_powers_add(i: nat, j: nat)
    ensures
        power_of_two(i + j) == power_of_two(i) * power_of_two(j),
    decreases j,
{
    if j > 0 {
        lemma_powers_add(i, (j - 1) as nat);
        let p = power_of_two(i);
        let q = power_of_two((j - 1) as nat);
        assert(2 * (p * q) == p * (2 * q)) by (nonlinear_arith);
    } else {
        assert(power_of_two(i) * 1 == power_of_two(i));
    }
}

proof fn lemma_half_even(a: nat, d: nat)
    requires
        d >= 1,
    ensures
        2 * (div_half_even(a, d) * d) <= 2 * a + d,
        2 * a <= 2 * (div_half_even(a, d) * d) + d,
{
    let q = a / d;
    let r = a % d;
    assert(a == q * d + r && r < d) by (nonlinear_arith)
        requires
            d >= 1,
            q == a / d,
            r == a % d,
    ;
    assert((q + 1) * d == q * d + d) by (nonlinear_arith);
}

/// The encoding of a whole number is the number itself up to 2^24: its sign, and a
/// significand and an exponent that multiply to it. A greater number is rounded to one
/// that is off by at most half of the significand's last place.
pub proof fn whole_numbers_are_encoded(n: int)
    requires
        n != 0,
        -0x1_0000_0000 < n < 0x1_0000_0000,
    ensures
        ({
            let a = (if n < 0 { -n } else { n }) as nat;
            let sign: int = if n < 0 { 0x8000_0000 } else { 0 };
            let e = leading_exponent(a);
            let m = significand(a);
            &&& spec_f32_bits(n) == sign + (e + 127) * 0x80_0000 + (m - 0x80_0000)
            &&& 0x80_0000 <= m <= 0x100_0000
            &&& power_of_two(e) <= a < power_of_two(e + 1)
            &&& a < 0x100_0000 ==> m < 0x100_0000 && m * power_of_two(e) == a * 0x80_0000
            &&& e >= 23 ==> {
                let step = power_of_two((e - 23) as nat);
                &&& 2 * (m * step) <= 2 * a + step
                &&& 2 * a <= 2 * (m * step) + step
            }
        }),
{
    let a = (if n < 0 { -n } else { n }) as nat;
    let e = leading_exponent(a);
    leading_exponents_are_leading(a);
    lemma_powers();
    if e <= 23 {
        let k = (23 - e) as nat;
        lemma_doubled(a, k);
        lemma_powers_add(e, k);
        lemma_powers_add(e + 1, k);
        lemma_power_monotonic(0, k);
        let p = power_of_two(e);
        let q = power_of_two(k);
        let m = doubled(a, k);
        assert(power_of_two(e + 1) == 2 * p);
        assert(0x80_0000 <= m < 0x100_0000) by (nonlinear_arith)
            requires
                m == a * q,
                p * q == 0x80_0000,
                p <= a < 2 * p,
                q >= 1,
        ;
        assert(m * p == a * 0x80_0000) by (nonlinear_arith)
            requires
                m == a * q,
                p * q == 0x80_0000,
        ;
        if e == 23 {
            assert(power_of_two(0) == 1);
            assert(m == a);
        }
    } else {
        let k = (e - 23) as nat;
        let d = power_of_two(k);
        lemma_power_monotonic(0, k);
        lemma_half_even(a, d);
        lemma_powers_add(23, k);
        lemma_powers_add(24, k);
        let m = div_half_even(a, d);
        assert(0x80_0000 <= m <= 0x100_0000) by (nonlinear_arith)
            requires
                2 * (m * d) <= 2 * a + d,
                2 * a <= 2 * (m * d) + d,
                0x80_0000 * d <= a < 0x100_0000 * d,
                d >= 1,
        ;
        lemma_power_monotonic(24, e);
    }
}

/// Halving keeps the sign, and takes one off the exponent where there is room. Where there
/// is none, the number of smallest steps is halved, a tie going to the even number.
/// What is infinite or not a number stays as it is.
pub proof fn halving_halves(x: FloatBits)
    ensures
        ({
            let h = x.spec_half();
            let m = x.magnitude();
            let k = h.magnitude();
            &&& h.negative() == x.negative()
            &&& m >= 0x7F80_0000 ==> h == x
            &&& 0x100_0000 <= m < 0x7F80_0000 ==> h.integer_significand()
                == x.integer_significand() && h.lowest_exponent() + 1 == x.lowest_exponent()
            &&& m < 0x100_0000 ==> h.integer_significand() == k && h.lowest_exponent() == 0
                && x.integer_significand() == m && x.lowest_exponent() == 0 && (2 * k == m || (
            k % 2 == 0 && (2 * k == m + 1 || 2 * k + 1 == m)))
        }),
{
}

/// A number in 1024ths is cut off towards zero, and not greater than what can be held.
pub proof fn thousandths_are_cut_off(x: FloatBits)
    ensures
        ({
            let r = x.spec_in_1024ths();
            let m = x.integer_significand();
            let e = x.lowest_exponent();
            &&& 0 <= r <= u32::MAX
            &&& x.not_a_number() || x.negative() ==> r == 0
            &&& !x.not_a_number() && !x.negative() && e < 139 ==> {
                let d = power_of_two((139 - e) as nat);
                r * d <= m < (r + 1) * d
            }
            &&& !x.not_a_number() && !x.negative() && 139 <= e ==> {
                let p = m * power_of_two((e - 139) as nat);
                if p <= u32::MAX {
                    r == p
                } else {
                    r == u32::MAX
                }
            }
        }),
{
    let m = x.integer_significand();
    let e = x.lowest_exponent();
    if e < 139 {
        let k = (139 - e) as nat;
        lemma_halved(m, k);
        lemma_power_monotonic(0, k);
        let h = halved(m, k);
        assert(h <= m) by (nonlinear_arith)
            requires
                h * power_of_two(k) <= m,
                power_of_two(k) >= 1,
        ;
    } else {
        let k = (e - 139) as nat;
        lemma_doubled(m, k);
        if k >= 10 && !x.not_a_number() {
            lemma_power_monotonic(10, k);
            assert(power_of_two(10) == 1024) by {
                reveal_with_fuel(power_of_two, 11);
            }
            assert(m >= 0x80_0000);
            assert(m * power_of_two(k) > u32::MAX) by (nonlinear_arith)
                requires
                    m >= 0x80_0000,
                    power_of_two(k) >= 1024,
            ;
        }
    }
}

} // verus!

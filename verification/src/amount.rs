//! Amounts: numbers at single precision, held by their bits, so that what is set reads back to
//! the last of them.
//!
//! An amount is carried, compared, and written in decimal here, and whole numbers are brought to
//! single precision. Reckoning with an amount is left to the program around this library.
use crate::text;
use vstd::arithmetic::div_mod;
use vstd::arithmetic::power2;
use vstd::prelude::*;

verus! {

/// The bits of zero, and of one.
pub const ZERO: u32 = 0x0000_0000;

pub const ONE: u32 = 0x3f80_0000;

/// A number at single precision: a sign, eight bits of exponent and twenty-three of fraction.
#[derive(Clone, Copy, PartialEq, Eq, Structural, Debug)]
pub struct Amount {
    pub bits: u32,
}

/// The amount with these bits.
#[verifier::allow_in_spec]
pub fn amount(bits: u32) -> Amount
    returns
        (Amount { bits }),
{
    Amount { bits }
}

/// A place, or a direction, by its two amounts.
#[derive(Clone, Copy, PartialEq, Eq, Structural, Debug)]
pub struct At {
    pub x: Amount,
    pub y: Amount,
}

/// How many decimal places an amount is written with.
#[derive(Clone, Copy, PartialEq, Eq, Structural, Debug)]
pub enum Places {
    One,
    Two,
}

impl Places {
    /// How many of the last place make one.
    pub open spec fn scale(self) -> nat {
        match self {
            Places::One => 10,
            Places::Two => 100,
        }
    }

    /// The digits behind the point of `n`, which counts the last place.
    pub open spec fn tail(self, n: nat) -> Seq<char> {
        match self {
            Places::One => seq![text::digit(n % 10)],
            Places::Two => seq![text::digit(n / 10 % 10), text::digit(n % 10)],
        }
    }
}

/// The nearest whole number to `n / d`, a tie going to the even one.
pub open spec fn nearest_even(n: nat, d: nat) -> nat {
    if 2 * (n % d) > d || 2 * (n % d) == d && n / d % 2 == 1 {
        n / d + 1
    } else {
        n / d
    }
}

/// The step between neighbours at single precision where the whole number `n` lies, or one where
/// they are closer than that: twenty-four binary places are kept.
pub open spec fn step(n: nat) -> nat
    decreases n,
{
    if n < 0x100_0000 {
        1
    } else {
        2 * step(n / 2)
    }
}

/// The whole number `n` at single precision: the nearest one with twenty-four binary places, a
/// tie going to the even one.
pub open spec fn single(n: nat) -> nat {
    nearest_even(n, step(n)) * step(n)
}

/// How far a length is from zero.
pub open spec fn length(n: int) -> nat {
    if n < 0 {
        (-n) as nat
    } else {
        n as nat
    }
}

/// The quotient of two whole numbers at single precision, in parts of two to the power of
/// twenty-four. It is that from one half up to two, where a part, or two from one on, is the step
/// between neighbours.
pub open spec fn quotient(n: nat, d: nat) -> nat {
    if n < d {
        nearest_even(n * 0x100_0000, d)
    } else {
        2 * nearest_even(n * 0x80_0000, d)
    }
}

impl Amount {
    /// The bits below the sign. They grow with the magnitude.
    pub open spec fn size(self) -> u32 {
        self.bits % 0x8000_0000
    }

    /// The sign bit is set, as it is of a negative zero.
    pub open spec fn negative(self) -> bool {
        self.bits >= 0x8000_0000
    }

    /// It is a number, if perhaps an infinite one.
    pub open spec fn is_number(self) -> bool {
        self.size() <= 0x7f80_0000
    }

    pub open spec fn is_finite(self) -> bool {
        self.size() < 0x7f80_0000
    }

    /// A number's place among the others. The two zeros share theirs.
    pub open spec fn order(self) -> int {
        if self.negative() {
            -(self.size() as int)
        } else {
            self.size() as int
        }
    }

    /// The two are the same number. What is not a number is the same as nothing, itself
    /// included.
    pub open spec fn equals(self, other: Amount) -> bool {
        self.is_number() && other.is_number() && self.order() == other.order()
    }

    /// A finite amount is this, times two to the power of the exponent.
    pub open spec fn significand(self) -> nat {
        if self.size() < 0x80_0000 {
            self.size() as nat
        } else {
            (0x80_0000 + self.size() % 0x80_0000) as nat
        }
    }

    /// The exponent, and 150 with it, so that it is never negative.
    pub open spec fn raised(self) -> nat {
        if self.size() < 0x80_0000 {
            1
        } else {
            (self.size() / 0x80_0000) as nat
        }
    }

    /// The magnitude of a finite amount in `scale`ths, to the nearest one.
    pub open spec fn in_parts(self, scale: nat) -> nat {
        if self.raised() >= 150 {
            self.significand() * power2::pow2((self.raised() - 150) as nat)
                * scale
        } else {
            nearest_even(
                self.significand() * scale,
                power2::pow2((150 - self.raised()) as nat),
            )
        }
    }

    /// The magnitude of a finite amount to the nearest whole number, a tie going up.
    pub open spec fn in_wholes(self) -> nat {
        if self.raised() >= 150 {
            self.significand() * power2::pow2((self.raised() - 150) as nat)
        } else {
            let d = power2::pow2((150 - self.raised()) as nat);
            (2 * self.significand() + d) / (2 * d)
        }
    }

    /// The amount with so many places, in decimal. The sign is the amount's own, before it was
    /// rounded, and one that is not negative wears a plus where `plus` asks for one.
    pub open spec fn written(self, places: Places, plus: bool) -> Seq<char> {
        if !self.is_number() {
            "NaN"@
        } else {
            (if self.negative() {
                seq!['-']
            } else if plus {
                seq!['+']
            } else {
                Seq::empty()
            }) + (if !self.is_finite() {
                "inf"@
            } else {
                let n = self.in_parts(places.scale());
                text::decimal(n / places.scale()) + seq!['.'] + places.tail(n)
            })
        }
    }

    /// The nearest whole number, a tie going away from zero, held to what the type has room for.
    /// What is not a number comes to nothing.
    pub open spec fn whole(self) -> int {
        if !self.is_number() {
            0
        } else if self.negative() {
            if !self.is_finite() || self.in_wholes() > 0x8000_0000 {
                -0x8000_0000
            } else {
                -(self.in_wholes() as int)
            }
        } else {
            if !self.is_finite() || self.in_wholes() > 0x7fff_ffff {
                0x7fff_ffff
            } else {
                self.in_wholes() as int
            }
        }
    }

    /// Whether the two are the same number.
    pub fn same(self, other: Amount) -> (same: bool)
        ensures
            same == self.equals(other),
    {
        let a: u32 = self.bits % 0x8000_0000;
        let b: u32 = other.bits % 0x8000_0000;
        a <= 0x7f80_0000 && b <= 0x7f80_0000 && (self.bits == other.bits || a == 0 && b == 0)
    }

    pub fn finite(self) -> (finite: bool)
        ensures
            finite == self.is_finite(),
    {
        self.bits % 0x8000_0000 < 0x7f80_0000
    }

    /// Whether this number comes before the other.
    pub fn below(self, other: Amount) -> (below: bool)
        requires
            self.is_number(),
            other.is_number(),
        ensures
            below == (self.order() < other.order()),
    {
        let a: u32 = self.bits % 0x8000_0000;
        let b: u32 = other.bits % 0x8000_0000;
        match (self.bits >= 0x8000_0000, other.bits >= 0x8000_0000) {
            (false, false) => a < b,
            (true, true) => a > b,
            (true, false) => a > 0 || b > 0,
            (false, true) => false,
        }
    }

    fn parts(self) -> (parts: (u32, u32))
        requires
            self.is_finite(),
        ensures
            parts.0 == self.significand(),
            parts.0 < 0x100_0000,
            parts.1 == self.raised(),
            1 <= parts.1 <= 254,
    {
        let size: u32 = self.bits % 0x8000_0000;
        if size < 0x80_0000 {
            (size, 1)
        } else {
            (0x80_0000 + size % 0x80_0000, size / 0x80_0000)
        }
    }

    /// The magnitude in whole numbers and `scale`ths of one.
    fn split(self, scale: u32) -> (split: (u128, u32))
        requires
            self.is_finite(),
            scale == 10 || scale == 100,
        ensures
            split.1 < scale,
            split.0 * scale + split.1 == self.in_parts(scale as nat),
    {
        let (m, e): (u32, u32) = self.parts();
        if e >= 150 {
            (doubled(m, e - 150), 0)
        } else {
            let n: u64 = if scale == 10 {
                m as u64 * 10
            } else {
                m as u64 * 100
            };
            if e <= 118 {
                proof {
                    lemma_dwarfed(n as nat, (150 - e) as nat, 32);
                }
                (0, 0)
            } else {
                let d: u64 = power(150 - e);
                proof {
                    power2::lemma_pow2_pos((150 - e) as nat);
                }
                let r: u64 = n % d;
                let q: u64 = n / d;
                assert(q <= n) by {
                    div_mod::lemma_div_is_ordered_by_denominator(
                        n as int,
                        1,
                        d as int,
                    );
                    div_mod::lemma_div_by_self(n as int);
                    div_mod::lemma_div_basics(n as int);
                }
                let near: u64 = if 2 * r > d || 2 * r == d && q % 2 == 1 {
                    q + 1
                } else {
                    q
                };
                assert(near == self.in_parts(scale as nat));
                ((near / scale as u64) as u128, (near % scale as u64) as u32)
            }
        }
    }

    /// The amount with so many places, in decimal.
    pub fn fixed(self, places: Places, plus: bool) -> (words: String)
        ensures
            words@ == self.written(places, plus),
    {
        let size: u32 = self.bits % 0x8000_0000;
        if size > 0x7f80_0000 {
            return "NaN".to_owned();
        }
        let mut words: String = String::new();
        if self.bits >= 0x8000_0000 {
            words.push('-');
        } else if plus {
            words.push('+');
        }
        let ghost sign = words@;
        assert(sign =~= (if self.negative() {
            seq!['-']
        } else if plus {
            seq!['+']
        } else {
            Seq::empty()
        }));
        if size == 0x7f80_0000 {
            words.append("inf");
            return words;
        }
        let scale: u32 = match places {
            Places::One => 10,
            Places::Two => 100,
        };
        let (whole, part): (u128, u32) = self.split(scale);
        let ghost n = self.in_parts(scale as nat);
        proof {
            div_mod::lemma_fundamental_div_mod_converse(
                n as int,
                scale as int,
                whole as int,
                part as int,
            );
            assert(n / scale as nat == whole && n % scale as nat == part);
        }
        words.append(text::decimal_string(whole).as_str());
        words.push('.');
        match places {
            Places::One => {
                words.push(text::digit_char(part as u8));
                assert(places.tail(n) =~= seq![text::digit(part as nat)]);
            },
            Places::Two => {
                words.push(text::digit_char((part / 10) as u8));
                words.push(text::digit_char((part % 10) as u8));
                assert(n / 10 % 10 == part / 10 && n % 10 == part % 10) by {
                    assert(n == 100 * whole + part);
                }
                assert(places.tail(n) =~= seq![
                    text::digit((part / 10) as nat),
                    text::digit((part % 10) as nat),
                ]);
            },
        }
        assert(words@ =~= sign + (text::decimal(whole as nat) + seq!['.'] + places.tail(n)));
        words
    }

    /// The nearest whole number, a tie going away from zero, held to what the type has room for.
    pub fn rounded(self) -> (n: i32)
        ensures
            n == self.whole(),
    {
        let size: u32 = self.bits % 0x8000_0000;
        if size > 0x7f80_0000 {
            return 0;
        }
        let negative: bool = self.bits >= 0x8000_0000;
        let most: u128 = if negative {
            0x8000_0000
        } else {
            0x7fff_ffff
        };
        let n: u128 = if size == 0x7f80_0000 {
            most
        } else {
            let near: u128 = self.wholes();
            if near > most {
                most
            } else {
                near
            }
        };
        if negative {
            (-(n as i64)) as i32
        } else {
            n as i32
        }
    }

    fn wholes(self) -> (n: u128)
        requires
            self.is_finite(),
        ensures
            n == self.in_wholes(),
    {
        let (m, e): (u32, u32) = self.parts();
        if e >= 150 {
            doubled(m, e - 150)
        } else if e <= 118 {
            proof {
                let d = power2::pow2((150 - e) as nat);
                lemma_dwarfed(m as nat, (150 - e) as nat, 32);
                assert((2 * m + d) as int / (2 * d) as int == 0) by {
                    div_mod::lemma_basic_div((2 * m + d) as int, (2 * d) as int);
                }
            }
            0
        } else {
            proof {
                power2::lemma_pow2_pos((150 - e) as nat);
            }
            let d: u64 = power(150 - e);
            ((2 * m as u64 + d) / (2 * d)) as u128
        }
    }
}

/// A number that doubles to under two to the power of `least` is none of two to the power of
/// `k`, and nearer to none than to one.
proof fn lemma_dwarfed(n: nat, k: nat, least: nat)
    requires
        least <= k,
        2 * n < power2::pow2(least) || least == 32 && 2 * n < 0x1_0000_0000,
    ensures
        2 * n < power2::pow2(k),
        nearest_even(n, power2::pow2(k)) == 0,
{
    power2::lemma2_to64();
    power2::lemma_pow2_pos(k);
    if least < k {
        power2::lemma_pow2_strictly_increases(least, k);
    }
    let d = power2::pow2(k);
    div_mod::lemma_basic_div(n as int, d as int);
    div_mod::lemma_small_mod(n, d);
}

/// Two to the power of `k`.
fn power(k: u32) -> (p: u64)
    requires
        k <= 32,
    ensures
        p == power2::pow2(k as nat),
        0 < p <= 0x1_0000_0000,
{
    let mut p: u64 = 1;
    let mut i: u32 = 0;
    proof {
        power2::lemma2_to64();
    }
    while i < k
        invariant
            i <= k <= 32,
            p == power2::pow2(i as nat),
            0 < p <= 0x1_0000_0000,
        decreases k - i,
    {
        proof {
            power2::lemma2_to64();
            power2::lemma_pow2_unfold((i + 1) as nat);
            if i + 1 < 32 {
                power2::lemma_pow2_strictly_increases((i + 1) as nat, 32);
            }
        }
        p = p * 2;
        i = i + 1;
    }
    p
}

/// `m` doubled `k` times.
fn doubled(m: u32, k: u32) -> (n: u128)
    requires
        m < 0x100_0000,
        k <= 104,
    ensures
        n == m as nat * power2::pow2(k as nat),
{
    let mut n: u128 = m as u128;
    let mut i: u32 = 0;
    proof {
        power2::lemma2_to64();
        assert(m as nat * 1 == m);
    }
    while i < k
        invariant
            i <= k <= 104,
            m < 0x100_0000,
            n == m as nat * power2::pow2(i as nat),
        decreases k - i,
    {
        proof {
            let p = power2::pow2(i as nat);
            let next = power2::pow2((i + 1) as nat);
            power2::lemma_pow2_unfold((i + 1) as nat);
            lemma_room(i as nat);
            assert(m as nat * next == 2 * n) by (nonlinear_arith)
                requires
                    next == 2 * p,
                    n == m as nat * p,
            ;
            assert(m as nat * next <= 0xff_ffff * next) by (nonlinear_arith)
                requires
                    m <= 0xff_ffff,
            ;
        }
        n = n * 2;
        i = i + 1;
    }
    n
}

/// There is room for a significand doubled once more.
proof fn lemma_room(i: nat)
    requires
        i < 104,
    ensures
        0xff_ffff * power2::pow2(i + 1) <= u128::MAX,
{
    power2::lemma2_to64();
    power2::lemma_pow2_adds(64, 32);
    power2::lemma_pow2_adds(96, 8);
    if i + 1 < 104 {
        power2::lemma_pow2_strictly_increases(i + 1, 104);
    }
}

/// The nearest whole number to `n / d`, a tie going to the even one.
fn nearest(n: u128, d: u128) -> (q: u128)
    requires
        n < 0x1000_0000_0000_0000_0000_0000_0000,
        0 < d < 0x1000_0000_0000_0000_0000_0000_0000,
    ensures
        q == nearest_even(n as nat, d as nat),
{
    let q: u128 = n / d;
    let r: u128 = n % d;
    assert(q <= n) by (nonlinear_arith)
        requires
            q == n / d,
            0 < d,
    ;
    if 2 * r > d || 2 * r == d && q % 2 == 1 {
        q + 1
    } else {
        q
    }
}

/// The nearest whole number is off by half a step at most.
pub proof fn lemma_nearest(n: nat, d: nat)
    requires
        d > 0,
    ensures
        2 * n <= 2 * (nearest_even(n, d) * d) + d,
        2 * (nearest_even(n, d) * d) <= 2 * n + d,
{
    div_mod::lemma_fundamental_div_mod(n as int, d as int);
    let q = n / d;
    assert(d * q == q * d && (q + 1) * d == q * d + d) by (nonlinear_arith);
    assert(0 <= n % d < d) by (nonlinear_arith)
        requires
            d > 0,
    ;
}

/// A step is one, or a small enough part of the number that lies on it.
pub proof fn lemma_step(n: nat)
    ensures
        step(n) >= 1,
        n < 0x100_0000 ==> step(n) == 1,
        n >= 0x100_0000 ==> step(n) * 0x80_0000 <= n,
    decreases n,
{
    if n >= 0x100_0000 {
        lemma_step(n / 2);
    }
}

/// Single precision moves a whole number by no more than two to the power of minus twenty-four
/// of it.
pub proof fn lemma_single(n: nat)
    ensures
        0x100_0000 * n <= 0x100_0000 * single(n) + n,
        0x100_0000 * single(n) <= 0x100_0000 * n + n,
        n < 0x100_0000 ==> single(n) == n,
{
    lemma_step(n);
    lemma_nearest(n, step(n));
    if n < 0x100_0000 {
        assert(n % 1 == 0 && n / 1 == n);
        assert(n * 1 == n);
    }
}

/// How far a length is from zero.
pub fn magnitude(n: i64) -> (m: u64)
    ensures
        m == length(n as int),
{
    if n < 0 {
        (-(n as i128)) as u64
    } else {
        n as u64
    }
}

/// The whole number `n` at single precision.
pub fn at_single(n: u64) -> (m: u128)
    ensures
        m == single(n as nat),
        m <= 2 * n,
{
    let mut left: u128 = n as u128;
    let mut unit: u128 = 1;
    while left >= 0x100_0000
        invariant
            unit >= 1,
            left * unit <= n,
            unit * step(left as nat) == step(n as nat),
        decreases left,
    {
        assert((left / 2) * (2 * unit) <= left * unit) by (nonlinear_arith)
            requires
                unit >= 1,
        ;
        assert(2 * unit <= left * unit) by (nonlinear_arith)
            requires
                unit >= 1,
                left >= 2,
        ;
        assert(unit * (2 * step((left / 2) as nat)) == (2 * unit) * step((left / 2) as nat))
            by (nonlinear_arith);
        left = left / 2;
        unit = 2 * unit;
    }
    proof {
        lemma_step(n as nat);
        lemma_single(n as nat);
        assert(step(n as nat) == unit) by (nonlinear_arith)
            requires
                step(left as nat) == 1,
                unit * step(left as nat) == step(n as nat),
        ;
        lemma_nearest(n as nat, unit as nat);
    }
    let steps: u128 = nearest(n as u128, unit);
    assert(steps * unit == single(n as nat));
    steps * unit
}

/// The quotient of two whole numbers at single precision, in parts of two to the power of
/// twenty-four.
pub fn divided(n: u128, d: u128) -> (q: u128)
    requires
        n < 0x4_0000_0000_0000_0000,
        0 < d < 0x4_0000_0000_0000_0000,
    ensures
        q == quotient(n as nat, d as nat),
{
    if n < d {
        nearest(n * 0x100_0000, d)
    } else {
        let half: u128 = nearest(n * 0x80_0000, d);
        proof {
            lemma_nearest((n * 0x80_0000) as nat, d as nat);
            assert(half <= half * d) by (nonlinear_arith)
                requires
                    d >= 1,
            ;
        }
        2 * half
    }
}

/// Being the same number is the same both ways, and goes on from one to the next; every number
/// is the same as itself, and so is nothing else.
pub proof fn law_the_same_number(a: Amount, b: Amount, c: Amount)
    ensures
        a.equals(a) <==> a.is_number(),
        a.equals(b) == b.equals(a),
        a.equals(b) && b.equals(c) ==> a.equals(c),
{
}

/// Two amounts are the same number exactly where neither is past infinity and their bits are the
/// same, or both are zeros, whichever their signs.
pub proof fn law_the_same_number_has_the_same_bits(a: Amount, b: Amount, same: bool)
    requires
        call_ensures(Amount::same, (a, b), same),
    ensures
        same == a.equals(b),
        a.equals(b) <==> {
            &&& a.bits <= 0x7f80_0000 || 0x8000_0000 <= a.bits <= 0xff80_0000
            &&& b.bits <= 0x7f80_0000 || 0x8000_0000 <= b.bits <= 0xff80_0000
            &&& a.bits == b.bits || (a.bits == 0 || a.bits == 0x8000_0000) && (b.bits == 0 || b.bits
                == 0x8000_0000)
        },
{
}

/// A quotient is the same whatever both numbers are multiplied by two.
pub proof fn lemma_quotient_scales(n: nat, d: nat)
    requires
        d > 0,
    ensures
        quotient(2 * n, 2 * d) == quotient(n, d),
{
    lemma_nearest_scales(n * 0x100_0000, d);
    lemma_nearest_scales(n * 0x80_0000, d);
}

/// Twice a whole number is twice as much at single precision.
pub proof fn lemma_single_scales(n: nat)
    ensures
        single(2 * n) == 2 * single(n),
{
    if n < 0x80_0000 {
        lemma_single(n);
        lemma_single(2 * n);
    } else {
        lemma_step(n);
        assert((2 * n) / 2 == n);
        assert(step(2 * n) == 2 * step(n));
        lemma_nearest_scales(n, step(n));
        let q = nearest_even(n, step(n));
        assert(q * (2 * step(n)) == 2 * (q * step(n))) by (nonlinear_arith);
    }
}

proof fn lemma_nearest_scales(n: nat, d: nat)
    requires
        d > 0,
    ensures
        nearest_even(2 * n, 2 * d) == nearest_even(n, d),
{
    div_mod::lemma_fundamental_div_mod(n as int, d as int);
    let q = n / d;
    let r = n % d;
    assert(2 * n == q * (2 * d) + 2 * r) by (nonlinear_arith)
        requires
            n == d * q + r,
    ;
    assert(0 <= 2 * r < 2 * d);
    div_mod::lemma_fundamental_div_mod_converse(2 * n as int, 2 * d as int, q as int, 2 * r as int);
}

/// A number is rounded to the nearest whole one: never off by more than a half of one, a tie going
/// away from zero, and held at the ends of what there is room for.
pub proof fn law_a_number_is_rounded_to_the_nearest(a: Amount, n: i32)
    requires
        call_ensures(Amount::rounded, (a,), n),
        a.is_finite(),
        a.raised() < 150,
    ensures
        ({
            let d = power2::pow2((150 - a.raised()) as nat);
            let size = if n < 0 {
                -n
            } else {
                n as int
            };
            &&& n < 0 ==> a.negative()
            &&& n > 0 ==> !a.negative()
            &&& 2 * (size * d) <= 2 * a.significand() + d
            &&& 2 * a.significand() < 2 * (size * d) + d
        }),
{
    let k = (150 - a.raised()) as nat;
    let d = power2::pow2(k);
    power2::lemma_pow2_pos(k);
    let s = a.significand();
    let q = a.in_wholes();
    assert(s < 0x100_0000);
    div_mod::lemma_fundamental_div_mod((2 * s + d) as int, (2 * d) as int);
    assert((2 * d) * q <= 2 * s + d < (2 * d) * q + 2 * d) by (nonlinear_arith)
        requires
            d > 0,
            2 * s + d == (2 * d) * q + (2 * s + d) % (2 * d),
    ;
    assert((2 * d) * q == 2 * (q * d)) by (nonlinear_arith);
    assert(q <= s + 1) by (nonlinear_arith)
        requires
            d >= 1,
            (2 * d) * q <= 2 * s + d,
    ;
}

/// A number that is whole already, as every large one is, rounds to itself where there is room.
pub proof fn law_a_whole_number_rounds_to_itself(a: Amount, n: i32)
    requires
        call_ensures(Amount::rounded, (a,), n),
        a.is_finite(),
        a.raised() >= 150,
        a.significand() * power2::pow2((a.raised() - 150) as nat) <= 0x7fff_ffff,
    ensures
        n == if a.negative() {
            -(a.significand() * power2::pow2((a.raised() - 150) as nat))
        } else {
            (a.significand() * power2::pow2((a.raised() - 150) as nat)) as int
        },
{
}

} // verus!

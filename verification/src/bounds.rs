//! Capability traits for the counter's element type: known bounds, a unit,
//! and wrapping addition and subtraction, together with their implementations
//! for the supported unsigned integer widths.

use vstd::arithmetic::div_mod::lemma_mod_add_multiples_vanish;
use vstd::arithmetic::div_mod::lemma_mod_sub_multiples_vanish;
use vstd::arithmetic::div_mod::lemma_small_mod;
use vstd::prelude::*;

verus! {

/// Capability: a type with a known least value.
pub trait Min: Sized {
    /// The least value, as specifications see it.
    spec fn spec_min() -> Self;

    /// Returns the least value of the type.
    fn min() -> (r: Self)
        ensures
            r == Self::spec_min(),
    ;
}

/// Capability: a type with a known greatest value.
pub trait Max: Sized {
    /// The greatest value, as specifications see it.
    spec fn spec_max() -> Self;

    /// Returns the greatest value of the type.
    fn max() -> (r: Self)
        ensures
            r == Self::spec_max(),
    ;
}

/// Capability: a view of a value as a mathematical integer.
pub trait IntView: Sized {
    /// The value as a mathematical integer.
    spec fn as_int(self) -> int;
}

/// The number of distinct values of the type: MAX - MIN + 1. Wrapping
/// arithmetic reduces results modulo this width.
pub open spec fn span<T: IntView + Min + Max>() -> int {
    T::spec_max().as_int() - T::spec_min().as_int() + 1
}

/// The capability set a counter element must support: copying, known bounds,
/// a unit, and addition and subtraction that wrap around at the bounds.
pub trait WrappingOps: Min + Max + IntView + Copy {
    /// Every value lies between the bounds; as for any unsigned integer
    /// type, the least value is zero and the greatest is at least one.
    proof fn bounds(self)
        ensures
            Self::spec_min().as_int() == 0,
            Self::spec_max().as_int() >= 1,
            0 <= self.as_int() <= Self::spec_max().as_int(),
    ;

    /// Two values with the same integer value are the same value.
    proof fn as_int_injective(a: Self, b: Self)
        requires
            a.as_int() == b.as_int(),
        ensures
            a == b,
    ;

    /// Returns the unit of the type.
    fn one() -> (r: Self)
        ensures
            r.as_int() == 1,
    ;

    /// Addition modulo the width of the type's range.
    fn wrapping_add(self, rhs: Self) -> (r: Self)
        ensures
            r.as_int() == (self.as_int() + rhs.as_int()) % span::<Self>(),
    ;

    /// Subtraction modulo the width of the type's range.
    fn wrapping_sub(self, rhs: Self) -> (r: Self)
        ensures
            r.as_int() == (self.as_int() - rhs.as_int()) % span::<Self>(),
    ;
}

/// A sum of two values in range wraps by subtracting the width at most once.
proof fn lemma_wrap_of_sum(s: int, m: int)
    requires
        0 < m,
        0 <= s < 2 * m,
    ensures
        s < m ==> s % m == s,
        m <= s ==> s % m == s - m,
{
    if s < m {
        lemma_small_mod(s as nat, m as nat);
    } else {
        lemma_mod_sub_multiples_vanish(s, m);
        lemma_small_mod((s - m) as nat, m as nat);
    }
}

/// A difference of two values in range wraps by adding the width at most once.
proof fn lemma_wrap_of_diff(d: int, m: int)
    requires
        0 < m,
        -m < d < m,
    ensures
        0 <= d ==> d % m == d,
        d < 0 ==> d % m == d + m,
{
    if 0 <= d {
        lemma_small_mod(d as nat, m as nat);
    } else {
        lemma_mod_add_multiples_vanish(d, m);
        lemma_small_mod((d + m) as nat, m as nat);
    }
}

impl Min for u8 {
    open spec fn spec_min() -> u8 {
        u8::MIN
    }

    fn min() -> (r: u8) {
        u8::MIN
    }
}

impl Max for u8 {
    open spec fn spec_max() -> u8 {
        u8::MAX
    }

    fn max() -> (r: u8) {
        u8::MAX
    }
}

impl IntView for u8 {
    open spec fn as_int(self) -> int {
        self as int
    }
}

impl WrappingOps for u8 {
    proof fn bounds(self) {
    }

    proof fn as_int_injective(a: u8, b: u8) {
    }

    fn one() -> (r: u8) {
        1u8
    }

    fn wrapping_add(self, rhs: u8) -> (r: u8) {
        proof {
            lemma_wrap_of_sum(self as int + rhs as int, span::<u8>());
        }
        u8::wrapping_add(self, rhs)
    }

    fn wrapping_sub(self, rhs: u8) -> (r: u8) {
        proof {
            lemma_wrap_of_diff(self as int - rhs as int, span::<u8>());
        }
        u8::wrapping_sub(self, rhs)
    }
}

impl Min for u16 {
    open spec fn spec_min() -> u16 {
        u16::MIN
    }

    fn min() -> (r: u16) {
        u16::MIN
    }
}

impl Max for u16 {
    open spec fn spec_max() -> u16 {
        u16::MAX
    }

    fn max() -> (r: u16) {
        u16::MAX
    }
}

impl IntView for u16 {
    open spec fn as_int(self) -> int {
        self as int
    }
}

impl WrappingOps for u16 {
    proof fn bounds(self) {
    }

    proof fn as_int_injective(a: u16, b: u16) {
    }

    fn one() -> (r: u16) {
        1u16
    }

    fn wrapping_add(self, rhs: u16) -> (r: u16) {
        proof {
            lemma_wrap_of_sum(self as int + rhs as int, span::<u16>());
        }
        u16::wrapping_add(self, rhs)
    }

    fn wrapping_sub(self, rhs: u16) -> (r: u16) {
        proof {
            lemma_wrap_of_diff(self as int - rhs as int, span::<u16>());
        }
        u16::wrapping_sub(self, rhs)
    }
}

impl Min for usize {
    open spec fn spec_min() -> usize {
        usize::MIN
    }

    fn min() -> (r: usize) {
        usize::MIN
    }
}

impl Max for usize {
    open spec fn spec_max() -> usize {
        usize::MAX
    }

    fn max() -> (r: usize) {
        usize::MAX
    }
}

impl IntView for usize {
    open spec fn as_int(self) -> int {
        self as int
    }
}

impl WrappingOps for usize {
    proof fn bounds(self) {
    }

    proof fn as_int_injective(a: usize, b: usize) {
    }

    fn one() -> (r: usize) {
        1usize
    }

    fn wrapping_add(self, rhs: usize) -> (r: usize) {
        proof {
            lemma_wrap_of_sum(self as int + rhs as int, span::<usize>());
        }
        usize::wrapping_add(self, rhs)
    }

    fn wrapping_sub(self, rhs: usize) -> (r: usize) {
        proof {
            lemma_wrap_of_diff(self as int - rhs as int, span::<usize>());
        }
        usize::wrapping_sub(self, rhs)
    }
}

} // verus!

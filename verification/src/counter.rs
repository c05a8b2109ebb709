//! A single-value counter over a generic unsigned integer type. Increment
//! and decrement wrap around at the type's bounds instead of overflowing,
//! and every operation is total: no input is rejected and none can fail.

use crate::bounds::IntView;
use crate::bounds::Max;
use crate::bounds::Min;
use crate::bounds::WrappingOps;
use crate::bounds::span;
use vstd::arithmetic::div_mod::lemma_mod_add_multiples_vanish;
use vstd::arithmetic::div_mod::lemma_mod_self_0;
use vstd::arithmetic::div_mod::lemma_small_mod;
use vstd::prelude::*;

verus! {

/// A wrapper around one value of `T`, mutated in place by the methods below.
#[derive(Debug)]
pub struct SubComponent<T>(T);

impl<T> SubComponent<T> {
    /// The stored value, as specifications see it.
    pub closed spec fn value(self) -> T {
        self.0
    }
}

/// The whole state of a counter is its stored value: two counters holding
/// equal values are equal. In particular, setting a value the counter
/// already holds, such as calling `set` twice with the same value, leaves
/// the state exactly as it was after the first call.
pub proof fn lemma_value_determines_state<T>(a: SubComponent<T>, b: SubComponent<T>)
    requires
        a.value() == b.value(),
    ensures
        a == b,
{
}

impl<T: WrappingOps> SubComponent<T> {
    /// Constructs a counter holding `value`.
    pub fn new(value: T) -> (r: Self)
        ensures
            r.value() == value,
    {
        SubComponent(value)
    }

    /// Returns the current value.
    pub fn get(&self) -> (r: T)
        ensures
            r == self.value(),
    {
        self.0
    }

    /// Replaces the current value unconditionally.
    pub fn set(&mut self, value: T)
        ensures
            final(self).value() == value,
    {
        self.0 = value;
    }

    /// Adds one, wrapping around: incrementing the greatest value yields the
    /// least, and any other value simply grows by one.
    pub fn increment(&mut self)
        ensures
            final(self).value().as_int() == (old(self).value().as_int() + 1) % span::<T>(),
            old(self).value() == T::spec_max() ==> final(self).value() == T::spec_min(),
            old(self).value().as_int() < T::spec_max().as_int() ==> final(self).value().as_int()
                == old(self).value().as_int() + 1,
    {
        let o = T::one();
        self.wrapping_add(o);
        proof {
            let m: int = span::<T>();
            old(self).value().bounds();
            if old(self).value().as_int() == T::spec_max().as_int() {
                lemma_mod_self_0(m);
                T::spec_min().bounds();
                T::as_int_injective(self.value(), T::spec_min());
            } else {
                lemma_small_mod((old(self).value().as_int() + 1) as nat, m as nat);
            }
        }
    }

    /// Subtracts one, wrapping around: decrementing the least value yields
    /// the greatest, and any other value simply shrinks by one.
    pub fn decrement(&mut self)
        ensures
            final(self).value().as_int() == (old(self).value().as_int() - 1) % span::<T>(),
            old(self).value() == T::spec_min() ==> final(self).value() == T::spec_max(),
            old(self).value().as_int() > T::spec_min().as_int() ==> final(self).value().as_int()
                == old(self).value().as_int() - 1,
    {
        let o = T::one();
        self.wrapping_sub(o);
        proof {
            let m: int = span::<T>();
            old(self).value().bounds();
            if old(self).value().as_int() == T::spec_min().as_int() {
                lemma_mod_add_multiples_vanish(-1, m);
                lemma_small_mod((m - 1) as nat, m as nat);
                T::spec_max().bounds();
                T::as_int_injective(self.value(), T::spec_max());
            } else {
                lemma_small_mod((old(self).value().as_int() - 1) as nat, m as nat);
            }
        }
    }

    /// Adds an arbitrary delta, reducing the result modulo MAX - MIN + 1.
    pub fn wrapping_add(&mut self, value: T)
        ensures
            final(self).value().as_int() == (old(self).value().as_int() + value.as_int())
                % span::<T>(),
    {
        let v = self.0.wrapping_add(value);
        self.set(v);
    }

    /// Subtracts an arbitrary delta, reducing the result modulo MAX - MIN + 1.
    pub fn wrapping_sub(&mut self, value: T)
        ensures
            final(self).value().as_int() == (old(self).value().as_int() - value.as_int())
                % span::<T>(),
    {
        let v = self.0.wrapping_sub(value);
        self.set(v);
    }

    /// Sets the counter back to the least value, regardless of prior state.
    pub fn reset(&mut self)
        ensures
            final(self).value() == T::spec_min(),
    {
        self.set(T::min());
    }
}

} // verus!

//! Unsigned numbers that can be held by a budget.

use vstd::prelude::*;

verus! {

/// An unsigned number-like type that can be used to store the underlying value of a budget.
///
/// All standard unsigned primitive number types (`u8`, `u16`, `u32`, `u64`, `u128`, `usize`)
/// implement this trait. Each value stands for the natural number [`BudgetValue::as_nat`],
/// which never exceeds [`BudgetValue::max_nat`].
pub trait BudgetValue: Copy + Sized {
    /// The natural number this value stands for.
    spec fn as_nat(self) -> nat;

    /// The largest number a value of this type can stand for.
    spec fn max_nat() -> nat;

    /// Every value lies within the range of its type.
    proof fn lemma_in_range(v: Self)
        ensures
            v.as_nat() <= Self::max_nat(),
    ;

    /// The value zero.
    fn zero() -> (r: Self)
        ensures
            r.as_nat() == 0,
    ;

    /// Whether `self` is less than or equal to `other`.
    fn at_most(&self, other: &Self) -> (r: bool)
        ensures
            r == (self.as_nat() <= other.as_nat()),
    ;

    /// `self - other`, or zero where that would go below zero.
    fn saturating_sub(&self, other: &Self) -> (r: Self)
        ensures
            r.as_nat() == (if self.as_nat() >= other.as_nat() {
                (self.as_nat() - other.as_nat()) as nat
            } else {
                0nat
            }),
    ;

    /// `self + other`, or the largest value of the type where that would overflow.
    fn saturating_add(&self, other: &Self) -> (r: Self)
        ensures
            r.as_nat() == (if self.as_nat() + other.as_nat() > Self::max_nat() {
                Self::max_nat()
            } else {
                self.as_nat() + other.as_nat()
            }),
    ;
}

impl BudgetValue for u8 {
    open spec fn as_nat(self) -> nat {
        self as nat
    }

    open spec fn max_nat() -> nat {
        u8::MAX as nat
    }

    proof fn lemma_in_range(v: Self) {
    }

    fn zero() -> (r: Self) {
        0
    }

    fn at_most(&self, other: &Self) -> (r: bool) {
        *self <= *other
    }

    fn saturating_sub(&self, other: &Self) -> (r: Self) {
        u8::saturating_sub(*self, *other)
    }

    fn saturating_add(&self, other: &Self) -> (r: Self) {
        u8::saturating_add(*self, *other)
    }
}

impl BudgetValue for u16 {
    open spec fn as_nat(self) -> nat {
        self as nat
    }

    open spec fn max_nat() -> nat {
        u16::MAX as nat
    }

    proof fn lemma_in_range(v: Self) {
    }

    fn zero() -> (r: Self) {
        0
    }

    fn at_most(&self, other: &Self) -> (r: bool) {
        *self <= *other
    }

    fn saturating_sub(&self, other: &Self) -> (r: Self) {
        u16::saturating_sub(*self, *other)
    }

    fn saturating_add(&self, other: &Self) -> (r: Self) {
        u16::saturating_add(*self, *other)
    }
}

impl BudgetValue for u32 {
    open spec fn as_nat(self) -> nat {
        self as nat
    }

    open spec fn max_nat() -> nat {
        u32::MAX as nat
    }

    proof fn lemma_in_range(v: Self) {
    }

    fn zero() -> (r: Self) {
        0
    }

    fn at_most(&self, other: &Self) -> (r: bool) {
        *self <= *other
    }

    fn saturating_sub(&self, other: &Self) -> (r: Self) {
        u32::saturating_sub(*self, *other)
    }

    fn saturating_add(&self, other: &Self) -> (r: Self) {
        u32::saturating_add(*self, *other)
    }
}

impl BudgetValue for u64 {
    open spec fn as_nat(self) -> nat {
        self as nat
    }

    open spec fn max_nat() -> nat {
        u64::MAX as nat
    }

    proof fn lemma_in_range(v: Self) {
    }

    fn zero() -> (r: Self) {
        0
    }

    fn at_most(&self, other: &Self) -> (r: bool) {
        *self <= *other
    }

    fn saturating_sub(&self, other: &Self) -> (r: Self) {
        u64::saturating_sub(*self, *other)
    }

    fn saturating_add(&self, other: &Self) -> (r: Self) {
        u64::saturating_add(*self, *other)
    }
}

impl BudgetValue for u128 {
    open spec fn as_nat(self) -> nat {
        self as nat
    }

    open spec fn max_nat() -> nat {
        u128::MAX as nat
    }

    proof fn lemma_in_range(v: Self) {
    }

    fn zero() -> (r: Self) {
        0
    }

    fn at_most(&self, other: &Self) -> (r: bool) {
        *self <= *other
    }

    fn saturating_sub(&self, other: &Self) -> (r: Self) {
        u128::saturating_sub(*self, *other)
    }

    fn saturating_add(&self, other: &Self) -> (r: Self) {
        u128::saturating_add(*self, *other)
    }
}

impl BudgetValue for usize {
    open spec fn as_nat(self) -> nat {
        self as nat
    }

    open spec fn max_nat() -> nat {
        usize::MAX as nat
    }

    proof fn lemma_in_range(v: Self) {
    }

    fn zero() -> (r: Self) {
        0
    }

    fn at_most(&self, other: &Self) -> (r: bool) {
        *self <= *other
    }

    fn saturating_sub(&self, other: &Self) -> (r: Self) {
        usize::saturating_sub(*self, *other)
    }

    fn saturating_add(&self, other: &Self) -> (r: Self) {
        usize::saturating_add(*self, *other)
    }
}

} // verus!

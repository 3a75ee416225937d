//! The executable dimension descriptor.
use crate::exponents::Exponents;
use vstd::prelude::*;

verus! {

/// The dimension of a quantity, written as a dimensional product
/// length^a * mass^b * time^c with signed integer exponents.
#[derive(Clone, Copy, PartialEq, Eq, Debug, Structural)]
pub struct Unit {
    pub length: i64,
    pub mass: i64,
    pub time: i64,
}

impl View for Unit {
    type V = Exponents;

    open spec fn view(&self) -> Exponents {
        Exponents { length: self.length as int, mass: self.mass as int, time: self.time as int }
    }
}

impl Unit {
    /// The dimension of a product: the componentwise sum of the exponents.
    ///
    /// The sum of each pair of exponents has to fit in an `i64`;
    /// [`Unit::checked_add`] takes any pair of descriptors.
    pub fn add(self, rhs: Self) -> (sum: Self)
        requires
            self@.plus(rhs@).representable(),
        ensures
            sum@ == self@.plus(rhs@),
    {
        Self {
            length: self.length + rhs.length,
            mass: self.mass + rhs.mass,
            time: self.time + rhs.time,
        }
    }

    /// The dimension of a quotient: the componentwise difference of the
    /// exponents.
    ///
    /// The difference of each pair of exponents has to fit in an `i64`;
    /// [`Unit::checked_sub`] takes any pair of descriptors.
    pub fn sub(self, rhs: Self) -> (difference: Self)
        requires
            self@.minus(rhs@).representable(),
        ensures
            difference@ == self@.minus(rhs@),
    {
        Self {
            length: self.length - rhs.length,
            mass: self.mass - rhs.mass,
            time: self.time - rhs.time,
        }
    }

    /// The dimension of a reciprocal: every exponent with its sign flipped.
    ///
    /// No exponent may be `i64::MIN`, whose negation does not fit;
    /// [`Unit::checked_neg`] takes any descriptor.
    pub fn neg(self) -> (negation: Self)
        requires
            self@.negated().representable(),
        ensures
            negation@ == self@.negated(),
    {
        Self { length: -self.length, mass: -self.mass, time: -self.time }
    }

    /// The dimension of a product, or `None` where the sum of a pair of
    /// exponents does not fit in an `i64`.
    pub fn checked_add(self, rhs: Self) -> (sum: Option<Self>)
        ensures
            sum is Some <==> self@.plus(rhs@).representable(),
            sum matches Some(unit) ==> unit@ == self@.plus(rhs@),
    {
        match (
            self.length.checked_add(rhs.length),
            self.mass.checked_add(rhs.mass),
            self.time.checked_add(rhs.time),
        ) {
            (Some(length), Some(mass), Some(time)) => Some(Self { length, mass, time }),
            _ => None,
        }
    }

    /// The dimension of a quotient, or `None` where the difference of a pair
    /// of exponents does not fit in an `i64`.
    pub fn checked_sub(self, rhs: Self) -> (difference: Option<Self>)
        ensures
            difference is Some <==> self@.minus(rhs@).representable(),
            difference matches Some(unit) ==> unit@ == self@.minus(rhs@),
    {
        match (
            self.length.checked_sub(rhs.length),
            self.mass.checked_sub(rhs.mass),
            self.time.checked_sub(rhs.time),
        ) {
            (Some(length), Some(mass), Some(time)) => Some(Self { length, mass, time }),
            _ => None,
        }
    }

    /// The dimension of a reciprocal, or `None` where an exponent is
    /// `i64::MIN`.
    pub fn checked_neg(self) -> (negation: Option<Self>)
        ensures
            negation is Some <==> self@.negated().representable(),
            negation matches Some(unit) ==> unit@ == self@.negated(),
    {
        if self.length == i64::MIN || self.mass == i64::MIN || self.time == i64::MIN {
            None
        } else {
            Some(self.neg())
        }
    }

    /// Whether two descriptors name the same dimension, that is, whether
    /// quantities of the two may be added, subtracted and compared.
    pub fn equals(self, rhs: Self) -> (same: bool)
        ensures
            same <==> self@ == rhs@,
            same <==> self == rhs,
    {
        self.length == rhs.length && self.mass == rhs.mass && self.time == rhs.time
    }
}

/// Two descriptors are equal exactly when they hold the same exponents,
/// component by component.
pub proof fn equal_iff_same_exponents(a: Unit, b: Unit)
    ensures
        a == b <==> a@ == b@,
        a == b <==> a.length == b.length && a.mass == b.mass && a.time == b.time,
{
}

} // verus!

//! The mathematical model of a dimension descriptor, and the laws of its
//! algebra.
use vstd::prelude::*;

verus! {

/// A point in the space of base-dimension exponents.
///
/// `Exponents { length: 1, mass: 0, time: -1 }` stands for
/// length^1 * mass^0 * time^-1, the dimension of a velocity. Two values are
/// equal exactly when all three components are equal.
pub ghost struct Exponents {
    pub length: int,
    pub mass: int,
    pub time: int,
}

impl Exponents {
    /// The dimension of a bare number: every exponent is zero.
    pub open spec fn zero() -> Exponents {
        Exponents { length: 0, mass: 0, time: 0 }
    }

    /// Componentwise sum: the dimension of a product.
    pub open spec fn plus(self, rhs: Exponents) -> Exponents {
        Exponents {
            length: self.length + rhs.length,
            mass: self.mass + rhs.mass,
            time: self.time + rhs.time,
        }
    }

    /// Componentwise difference: the dimension of a quotient.
    pub open spec fn minus(self, rhs: Exponents) -> Exponents {
        Exponents {
            length: self.length - rhs.length,
            mass: self.mass - rhs.mass,
            time: self.time - rhs.time,
        }
    }

    /// Componentwise sign flip: the dimension of a reciprocal.
    pub open spec fn negated(self) -> Exponents {
        Exponents { length: -self.length, mass: -self.mass, time: -self.time }
    }

    /// Whether every component can be held in an `i64`.
    pub open spec fn representable(self) -> bool {
        &&& i64::MIN <= self.length <= i64::MAX
        &&& i64::MIN <= self.mass <= i64::MAX
        &&& i64::MIN <= self.time <= i64::MAX
    }
}

/// Multiplication composes dimensions in either order, and in any grouping.
pub proof fn plus_is_commutative_and_associative(a: Exponents, b: Exponents, c: Exponents)
    ensures
        a.plus(b) == b.plus(a),
        a.plus(b).plus(c) == a.plus(b.plus(c)),
{
}

/// Multiplying or dividing by a bare number leaves a dimension unchanged.
pub proof fn zero_is_neutral(a: Exponents)
    ensures
        a.plus(Exponents::zero()) == a,
        Exponents::zero().plus(a) == a,
        a.minus(Exponents::zero()) == a,
{
}

/// Dividing a product by one factor gives back the dimension of the other,
/// and multiplying a quotient by its divisor gives back the dividend's.
pub proof fn minus_undoes_plus(a: Exponents, b: Exponents)
    ensures
        a.plus(b).minus(b) == a,
        a.minus(b).plus(b) == a,
{
}

/// The quotient of two quantities of the same dimension is a bare number.
pub proof fn minus_self_is_zero(a: Exponents)
    ensures
        a.minus(a) == Exponents::zero(),
{
}

/// Dividing a bare number by a quantity negates the quantity's dimension,
/// and dividing by a quantity is multiplying by its reciprocal.
pub proof fn negated_is_minus_from_zero(a: Exponents, b: Exponents)
    ensures
        Exponents::zero().minus(a) == a.negated(),
        a.minus(b) == a.plus(b.negated()),
{
}

/// The reciprocal of a reciprocal has the dimension one started from, and a
/// quantity times its reciprocal is a bare number.
pub proof fn negated_is_an_involution(a: Exponents)
    ensures
        a.negated().negated() == a,
        a.plus(a.negated()) == Exponents::zero(),
{
}

} // verus!

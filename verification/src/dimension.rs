//! The named dimensions.
use crate::exponents::Exponents;
use crate::unit::Unit;
use vstd::prelude::*;

verus! {

/// The dimensions that have a name: the bare number, the three base
/// dimensions, and the derived dimensions of mechanics.
#[derive(Clone, Copy, PartialEq, Eq, Debug, Structural)]
pub enum Dimension {
    Dimensionless,
    Length,
    Mass,
    Time,
    Area,
    Volume,
    Velocity,
    Acceleration,
    Force,
    Frequency,
    Pressure,
    Energy,
    Power,
}

impl Dimension {
    /// The exponents over length, mass and time that the name stands for.
    pub open spec fn exponents(self) -> Exponents {
        match self {
            Dimension::Dimensionless => Exponents { length: 0, mass: 0, time: 0 },
            Dimension::Length => Exponents { length: 1, mass: 0, time: 0 },
            Dimension::Mass => Exponents { length: 0, mass: 1, time: 0 },
            Dimension::Time => Exponents { length: 0, mass: 0, time: 1 },
            Dimension::Area => Exponents { length: 2, mass: 0, time: 0 },
            Dimension::Volume => Exponents { length: 3, mass: 0, time: 0 },
            Dimension::Velocity => Exponents { length: 1, mass: 0, time: -1 },
            Dimension::Acceleration => Exponents { length: 1, mass: 0, time: -2 },
            Dimension::Force => Exponents { length: 1, mass: 1, time: -2 },
            Dimension::Frequency => Exponents { length: 0, mass: 0, time: -1 },
            Dimension::Pressure => Exponents { length: -1, mass: 1, time: -2 },
            Dimension::Energy => Exponents { length: 2, mass: 1, time: -2 },
            Dimension::Power => Exponents { length: 2, mass: 1, time: -3 },
        }
    }

    /// The descriptor of a named dimension.
    pub fn unit(self) -> (unit: Unit)
        ensures
            unit@ == self.exponents(),
    {
        match self {
            Dimension::Dimensionless => Unit { length: 0, mass: 0, time: 0 },
            Dimension::Length => Unit { length: 1, mass: 0, time: 0 },
            Dimension::Mass => Unit { length: 0, mass: 1, time: 0 },
            Dimension::Time => Unit { length: 0, mass: 0, time: 1 },
            Dimension::Area => Unit { length: 2, mass: 0, time: 0 },
            Dimension::Volume => Unit { length: 3, mass: 0, time: 0 },
            Dimension::Velocity => Unit { length: 1, mass: 0, time: -1 },
            Dimension::Acceleration => Unit { length: 1, mass: 0, time: -2 },
            Dimension::Force => Unit { length: 1, mass: 1, time: -2 },
            Dimension::Frequency => Unit { length: 0, mass: 0, time: -1 },
            Dimension::Pressure => Unit { length: -1, mass: 1, time: -2 },
            Dimension::Energy => Unit { length: 2, mass: 1, time: -2 },
            Dimension::Power => Unit { length: 2, mass: 1, time: -3 },
        }
    }
}

/// Every derived dimension is what its definition in mechanics composes
/// from the dimensions before it: an area is a length times a length, a
/// velocity a length per time, a force a mass times an acceleration, and so
/// on down to power, an energy per time.
pub proof fn derived_dimensions_compose()
    ensures
        Dimension::Dimensionless.exponents() == Exponents::zero(),
        Dimension::Area.exponents() == Dimension::Length.exponents().plus(
            Dimension::Length.exponents(),
        ),
        Dimension::Volume.exponents() == Dimension::Area.exponents().plus(
            Dimension::Length.exponents(),
        ),
        Dimension::Velocity.exponents() == Dimension::Length.exponents().minus(
            Dimension::Time.exponents(),
        ),
        Dimension::Acceleration.exponents() == Dimension::Velocity.exponents().minus(
            Dimension::Time.exponents(),
        ),
        Dimension::Force.exponents() == Dimension::Mass.exponents().plus(
            Dimension::Acceleration.exponents(),
        ),
        Dimension::Frequency.exponents() == Dimension::Time.exponents().negated(),
        Dimension::Pressure.exponents() == Dimension::Force.exponents().minus(
            Dimension::Area.exponents(),
        ),
        Dimension::Energy.exponents() == Dimension::Force.exponents().plus(
            Dimension::Length.exponents(),
        ),
        Dimension::Power.exponents() == Dimension::Energy.exponents().minus(
            Dimension::Time.exponents(),
        ),
{
}

/// Two names stand for the same exponents only if they are the same name.
pub proof fn names_are_distinct(a: Dimension, b: Dimension)
    ensures
        a.exponents() == b.exponents() <==> a == b,
{
}

} // verus!

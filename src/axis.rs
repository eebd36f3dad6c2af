//! Named vector components and the mapping from a component index to them.
use vstd::prelude::*;

verus! {

/// A component of a 2- or 3-component vector.
#[derive(Clone, Copy, Debug, PartialEq, Eq, Structural)]
pub enum Axis {
    X,
    Y,
    Z,
}

impl Axis {
    /// Position of this component in the component order `x, y, z`.
    pub open spec fn spec_index(self) -> nat {
        match self {
            Axis::X => 0,
            Axis::Y => 1,
            Axis::Z => 2,
        }
    }

    /// The position of this component: 0 for `x`, 1 for `y`, 2 for `z`.
    pub fn index(self) -> (r: usize)
        ensures
            r as nat == self.spec_index(),
    {
        match self {
            Axis::X => 0,
            Axis::Y => 1,
            Axis::Z => 2,
        }
    }

    /// The component that index `i` names in a vector of `dims` components.
    pub open spec fn spec_from_index(i: nat, dims: nat) -> Option<Axis> {
        if i >= dims || i > 2 {
            None
        } else if i == 0 {
            Some(Axis::X)
        } else if i == 1 {
            Some(Axis::Y)
        } else {
            Some(Axis::Z)
        }
    }

    /// The component of a 3-component vector that `index` names:
    /// `None` for any index other than 0, 1 or 2.
    pub fn from_index(index: usize) -> (r: Option<Axis>)
        ensures
            r == Self::spec_from_index(index as nat, 3),
            r is Some <==> index < 3,
            r matches Some(a) ==> a.spec_index() == index,
    {
        match index {
            0 => Some(Axis::X),
            1 => Some(Axis::Y),
            2 => Some(Axis::Z),
            _ => None,
        }
    }

    /// The component of a 2-component vector that `index` names:
    /// `None` for any index other than 0 or 1.
    pub fn planar_from_index(index: usize) -> (r: Option<Axis>)
        ensures
            r == Self::spec_from_index(index as nat, 2),
            r is Some <==> index < 2,
            r matches Some(a) ==> a.spec_index() == index && a != Axis::Z,
    {
        match index {
            0 => Some(Axis::X),
            1 => Some(Axis::Y),
            _ => None,
        }
    }
}

/// Naming a component by its index and taking the index back gives the
/// component again, in a vector of 3 components and, but for `z`, of 2.
pub proof fn lemma_index_round_trip(a: Axis)
    ensures
        Axis::spec_from_index(a.spec_index(), 3) == Some(a),
        a != Axis::Z ==> Axis::spec_from_index(a.spec_index(), 2) == Some(a),
{
}

} // verus!

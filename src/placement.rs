use vstd::prelude::*;

verus! {

/// An indicator of whether a letter in a guess is in the solution.
///
/// The variants are ordered `Incorrect < Misplaced < Correct`; merging two observations of
/// the same letter keeps the larger one.
#[derive(Debug, Clone, Copy, PartialEq, Eq, Structural, PartialOrd, Ord, Hash)]
pub enum Placement {
    /// The letter is not in the solution.
    Incorrect,
    /// The letter is in the solution, but not in the given spot.
    Misplaced,
    /// The letter is in the solution in the given spot.
    Correct,
}

impl Placement {
    /// The position of a placement in the order `Incorrect < Misplaced < Correct`.
    pub open spec fn rank(self) -> nat {
        match self {
            Placement::Incorrect => 0,
            Placement::Misplaced => 1,
            Placement::Correct => 2,
        }
    }

    /// The larger of two placements.
    pub open spec fn spec_max(self, other: Placement) -> Placement {
        if self.rank() >= other.rank() {
            self
        } else {
            other
        }
    }

    /// Returns the larger of `self` and `other`.
    pub fn merge(self, other: Placement) -> (r: Placement)
        ensures
            r == self.spec_max(other),
    {
        match (self, other) {
            (Placement::Correct, _) => self,
            (_, Placement::Correct) => other,
            (Placement::Misplaced, _) => self,
            _ => other,
        }
    }
}

} // verus!

//! An enumeration together with the list of all its values.

use vstd::prelude::*;

verus! {

/// The kinds there are.
#[derive(Debug, Clone, Copy, PartialEq, Eq, Structural)]
pub enum Kinds {
    First,
    Second,
    Third,
}

impl Kinds {
    /// Every kind, in declaration order.
    pub open spec fn every() -> Seq<Kinds> {
        seq![Kinds::First, Kinds::Second, Kinds::Third]
    }

    /// All kinds, each exactly once, in declaration order.
    pub fn all() -> (kinds: &'static [Kinds])
        ensures
            kinds@ == Self::every(),
    {
        // Extending the enumeration breaks this match, which is the
        // reminder to extend the list below.
        match Kinds::First {
            Kinds::First => {},
            Kinds::Second => {},
            Kinds::Third => {},
        }
        &[Kinds::First, Kinds::Second, Kinds::Third]
    }
}

/// The list is exhaustive and free of repetition: every kind stands at
/// exactly one position.
pub proof fn law_all_is_exhaustive(kind: Kinds)
    ensures
        exists|i: int| 0 <= i < Kinds::every().len() && Kinds::every()[i] == kind,
        forall|i: int, j: int|
            0 <= i < Kinds::every().len() && 0 <= j < Kinds::every().len() && Kinds::every()[i]
                == Kinds::every()[j] ==> i == j,
{
    match kind {
        Kinds::First => assert(Kinds::every()[0] == kind),
        Kinds::Second => assert(Kinds::every()[1] == kind),
        Kinds::Third => assert(Kinds::every()[2] == kind),
    }
}

} // verus!

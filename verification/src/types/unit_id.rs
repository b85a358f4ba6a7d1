//! Identifiers of exam centres.

use vstd::prelude::*;

verus! {

/// The identifier of an exam centre: a positive number.
#[derive(Clone, Copy, Debug, PartialEq, Eq)]
pub struct UnitId {
    raw: u32,
}

impl UnitId {
    #[verifier::type_invariant]
    spec fn positive(self) -> bool {
        self.raw > 0
    }

    /// The number that this identifier stands for.
    pub closed spec fn value(self) -> int {
        self.raw as int
    }

    /// Makes an identifier from `raw`; zero identifies nothing.
    pub fn new(raw: u32) -> (id: Option<UnitId>)
        ensures
            raw == 0 <==> id is None,
            id matches Some(u) ==> u.value() == raw,
    {
        if raw == 0 {
            None
        } else {
            Some(UnitId { raw })
        }
    }

    /// The identifier as a plain number.
    pub fn get(&self) -> (raw: u32)
        ensures
            raw == self.value(),
            raw > 0,
    {
        proof {
            use_type_invariant(self);
        }
        self.raw
    }
}

} // verus!

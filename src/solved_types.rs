//! Markers and atoms of solved types.
use vstd::prelude::*;

verus! {

/// A type variable of the solver.
#[derive(Debug, Clone, Copy, PartialEq, Eq, Structural)]
pub struct VarId(pub u32);

/// A value that has been through the solver. Holding one is the evidence
/// that solving took place.
#[derive(Debug, Clone)]
pub struct Solved<T>(pub T);

impl<T> Solved<T> {
    pub fn inner(&self) -> (r: &T)
        ensures
            *r == self.0,
    {
        &self.0
    }

    pub fn into_inner(self) -> (r: T)
        ensures
            r == self.0,
    {
        self.0
    }
}

/// An atom of a solved boolean-algebra type: a constant or a variable.
#[derive(Debug, Clone, Copy, PartialEq, Eq, Structural)]
pub enum SolvedAtom {
    Zero,
    One,
    Variable(VarId),
}

} // verus!

//! The diff algebra: the outcome of comparing two values of one type.

use vstd::prelude::*;

verus! {

/// Outcome of comparing two instances of a type `T`.
///
/// A `Diff` never owns the compared values: `Changed` borrows both
/// inputs, so a diff result lives no longer than the shorter-lived of
/// the two instances it was computed from. `S` is the detailed shape
/// a record comparison breaks down into; for leaf types it is `T`
/// itself and the `Detailed` variant never occurs.
#[derive(Debug)]
pub enum Diff<'t, T, S> {
    /// The value has changed and no finer breakdown is available;
    /// carries the old and the new value.
    Changed(&'t T, &'t T),
    /// The two instances are equal at this position.
    Same,
    /// The instances are records whose fields were compared one by
    /// one; the payload holds one diff per field.
    Detailed(S),
}

impl<'t, T, S> Diff<'t, T, S> {
    /// True exactly on the `Same` variant.
    pub fn is_same(&self) -> (r: bool)
        ensures
            r <==> (self is Same),
    {
        match self {
            Diff::Same => true,
            _ => false,
        }
    }

    /// The detailed breakdown, when one exists; `Same` and `Changed`
    /// carry none.
    pub fn detailed(&self) -> (r: Option<&S>)
        ensures
            (r is Some) <==> (self is Detailed),
            r matches Some(s) ==> *s == self->Detailed_0,
    {
        match self {
            Diff::Detailed(ref s) => Some(s),
            _ => None,
        }
    }
}

} // verus!

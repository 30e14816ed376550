//! The diffable capability: the contract a comparable type satisfies,
//! and the equality-based fallback for leaf types.

use crate::algebra::Diff;
use vstd::prelude::*;

verus! {

/// The contract a type implements to be comparable by this library.
///
/// `'t` bounds the lifetime of the borrowed values inside a diff
/// result. Beside the associated detailed shape and the `diff`
/// operation itself, an implementation states in spec functions when
/// two of its values count as unchanged (`no_diff`), what a detailed
/// breakdown of a difference must say (`detail_ok`), and whether it
/// ever produces one (`provides_detail`). Every implementation owes
/// the reflexivity law: a value never differs from itself.
pub trait Diffable<'t>: Sized {
    /// The detailed shape of a difference: the companion type for a
    /// record, the type itself for a leaf.
    type Detailed;

    /// When two values count as unchanged.
    spec fn no_diff(&self, other: &Self) -> bool;

    /// What a `Detailed` payload must state about the two values.
    spec fn detail_ok(&self, other: &Self, d: Self::Detailed) -> bool;

    /// Whether this type breaks differences down field by field
    /// (records) or reports them whole (leaves).
    spec fn provides_detail() -> bool;

    /// Reflexivity: no value differs from itself.
    proof fn lemma_no_diff_reflexive(&self)
        ensures
            self.no_diff(self),
    ;

    /// Compare two instances; deterministic and side-effect-free,
    /// total over any two well-typed instances. The result is `Same`
    /// exactly when the values count as unchanged; a `Changed` result
    /// borrows precisely the two inputs; a `Detailed` result
    /// satisfies the type's own breakdown statement; record types
    /// never answer `Changed`, leaf types never answer `Detailed`.
    fn diff(&'t self, other: &'t Self) -> (r: Diff<'t, Self, Self::Detailed>)
        ensures
            (r is Same) <==> self.no_diff(other),
            r matches Diff::Changed(o, n) ==> !self.no_diff(other) && o == self && n == other,
            r matches Diff::Detailed(d) ==> !self.no_diff(other) && self.detail_ok(other, d),
            Self::provides_detail() ==> !(r is Changed),
            !Self::provides_detail() ==> !(r is Detailed),
    ;
}

/// Everything `Diffable::diff` promises about its result, gathered
/// into one predicate so that the laws below can speak of an
/// arbitrary comparison outcome.
pub open spec fn diff_post<'t, T: Diffable<'t>>(
    a: &'t T,
    b: &'t T,
    r: Diff<'t, T, T::Detailed>,
) -> bool {
    &&& ((r is Same) <==> a.no_diff(b))
    &&& (r matches Diff::Changed(o, n) ==> !a.no_diff(b) && o == a && n == b)
    &&& (r matches Diff::Detailed(d) ==> !a.no_diff(b) && a.detail_ok(b, d))
    &&& (T::provides_detail() ==> !(r is Changed))
    &&& (!T::provides_detail() ==> !(r is Detailed))
}

/// A leaf type: one that supports equality comparison and relies on
/// the whole-value fallback rather than a field-level breakdown. The
/// equality must be stated (`leaf_eq_spec`), decided (`leaf_eq`) and
/// reflexive; any such type is `Diffable` through the blanket
/// implementation below.
pub trait LeafEq: Sized + Eq {
    /// When two values of this type are equal.
    spec fn leaf_eq_spec(&self, other: &Self) -> bool;

    /// Equality is reflexive.
    proof fn lemma_leaf_eq_reflexive(&self)
        ensures
            self.leaf_eq_spec(self),
    ;

    /// Decide equality.
    fn leaf_eq(&self, other: &Self) -> (r: bool)
        ensures
            r <==> self.leaf_eq_spec(other),
    ;
}

/// The default leaf behavior: a type with (verified) equality
/// comparison automatically qualifies as `Diffable`. Comparing yields
/// `Same` on equal values, else `Changed` borrowing both inputs;
/// never `Detailed`.
impl<'t, T: LeafEq> Diffable<'t> for T {
    type Detailed = T;

    open spec fn no_diff(&self, other: &Self) -> bool {
        self.leaf_eq_spec(other)
    }

    open spec fn detail_ok(&self, other: &Self, d: T) -> bool {
        false
    }

    open spec fn provides_detail() -> bool {
        false
    }

    proof fn lemma_no_diff_reflexive(&self) {
        self.lemma_leaf_eq_reflexive();
    }

    fn diff(&'t self, other: &'t Self) -> (r: Diff<'t, T, T>) {
        if self.leaf_eq(other) {
            Diff::Same
        } else {
            Diff::Changed(self, other)
        }
    }
}

impl LeafEq for String {
    open spec fn leaf_eq_spec(&self, other: &Self) -> bool {
        self@ == other@
    }

    proof fn lemma_leaf_eq_reflexive(&self) {
    }

    fn leaf_eq(&self, other: &Self) -> (r: bool) {
        *self == *other
    }
}

impl LeafEq for bool {
    open spec fn leaf_eq_spec(&self, other: &Self) -> bool {
        self == other
    }

    proof fn lemma_leaf_eq_reflexive(&self) {
    }

    fn leaf_eq(&self, other: &Self) -> (r: bool) {
        *self == *other
    }
}

impl LeafEq for i32 {
    open spec fn leaf_eq_spec(&self, other: &Self) -> bool {
        self == other
    }

    proof fn lemma_leaf_eq_reflexive(&self) {
    }

    fn leaf_eq(&self, other: &Self) -> (r: bool) {
        *self == *other
    }
}

impl LeafEq for u32 {
    open spec fn leaf_eq_spec(&self, other: &Self) -> bool {
        self == other
    }

    proof fn lemma_leaf_eq_reflexive(&self) {
    }

    fn leaf_eq(&self, other: &Self) -> (r: bool) {
        *self == *other
    }
}

impl LeafEq for u64 {
    open spec fn leaf_eq_spec(&self, other: &Self) -> bool {
        self == other
    }

    proof fn lemma_leaf_eq_reflexive(&self) {
    }

    fn leaf_eq(&self, other: &Self) -> (r: bool) {
        *self == *other
    }
}

impl LeafEq for usize {
    open spec fn leaf_eq_spec(&self, other: &Self) -> bool {
        self == other
    }

    proof fn lemma_leaf_eq_reflexive(&self) {
    }

    fn leaf_eq(&self, other: &Self) -> (r: bool) {
        *self == *other
    }
}

/// Relies on str's PartialEq: two string slices are equal exactly
/// when they consist of the same characters.
#[verifier::external_body]
fn str_eq(a: &str, b: &str) -> (r: bool)
    ensures
        r <==> a@ == b@,
{
    a == b
}

impl<'a> LeafEq for &'a str {
    open spec fn leaf_eq_spec(&self, other: &Self) -> bool {
        self@ == other@
    }

    proof fn lemma_leaf_eq_reflexive(&self) {
    }

    fn leaf_eq(&self, other: &Self) -> (r: bool) {
        str_eq(*self, *other)
    }
}

/// Reflexivity law: whatever `diff` answers on a value paired with
/// itself is `Same`, for every diffable type.
pub proof fn lemma_diff_reflexive<'t, T: Diffable<'t>>(x: &'t T, r: Diff<'t, T, T::Detailed>)
    requires
        diff_post(x, x, r),
    ensures
        r is Same,
{
    x.lemma_no_diff_reflexive();
}

/// Leaf correctness law: on an equality-based type, a diff is `Same`
/// exactly on equal values and otherwise `Changed`, borrowing
/// precisely the two compared values.
pub proof fn lemma_leaf_correctness<'t, T: LeafEq>(a: &'t T, b: &'t T, r: Diff<'t, T, T>)
    requires
        diff_post(a, b, r),
    ensures
        (r is Same) <==> a.leaf_eq_spec(b),
        (r is Changed) <==> !a.leaf_eq_spec(b),
        r matches Diff::Changed(o, n) ==> o == a && n == b,
{
}

} // verus!

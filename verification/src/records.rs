//! Record types with generated-style diffing: each record carries a
//! companion shape holding one diff per field, written out here as
//! the generator in [`crate::codegen`] derives it, together with the
//! laws a record comparison obeys.

use crate::algebra::Diff;
use crate::capability::Diffable;
use crate::capability::diff_post;
use vstd::prelude::*;

verus! {

/// A two-field record of leaf fields.
#[derive(Debug)]
pub struct Person {
    pub name: String,
    pub surname: String,
}

/// Companion shape of [`Person`]: one diff per field.
#[derive(Debug)]
pub struct PersonDiff<'t> {
    pub name: Diff<'t, String, String>,
    pub surname: Diff<'t, String, String>,
}

impl<'t> Default for PersonDiff<'t> {
    /// The no-differences value: every field `Same`.
    fn default() -> (d: Self)
        ensures
            d.name is Same,
            d.surname is Same,
    {
        PersonDiff { name: Diff::Same, surname: Diff::Same }
    }
}

impl<'t> Diffable<'t> for Person {
    type Detailed = PersonDiff<'t>;

    open spec fn no_diff(&self, other: &Self) -> bool {
        self.name@ == other.name@ && self.surname@ == other.surname@
    }

    open spec fn detail_ok(&self, other: &Self, d: PersonDiff<'t>) -> bool {
        &&& ((d.name is Same) <==> self.name@ == other.name@)
        &&& ((d.name is Changed) <==> self.name@ != other.name@)
        &&& (d.name matches Diff::Changed(o, n) ==> *o == self.name && *n == other.name)
        &&& ((d.surname is Same) <==> self.surname@ == other.surname@)
        &&& ((d.surname is Changed) <==> self.surname@ != other.surname@)
        &&& (d.surname matches Diff::Changed(o, n) ==> *o == self.surname && *n == other.surname)
    }

    open spec fn provides_detail() -> bool {
        true
    }

    proof fn lemma_no_diff_reflexive(&self) {
    }

    fn diff(&'t self, other: &'t Self) -> (r: Diff<'t, Person, PersonDiff<'t>>) {
        let mut all_the_same = true;
        let mut diff = PersonDiff::default();
        let own_diff = self.name.diff(&other.name);
        if !own_diff.is_same() {
            all_the_same = false;
        }
        diff.name = own_diff;
        let own_diff = self.surname.diff(&other.surname);
        if !own_diff.is_same() {
            all_the_same = false;
        }
        diff.surname = own_diff;
        if all_the_same {
            Diff::Same
        } else {
            Diff::Detailed(diff)
        }
    }
}

/// A record holding a leaf field and a nested record field.
#[derive(Debug)]
pub struct SpecialPerson {
    pub country: String,
    pub person: Person,
}

/// Companion shape of [`SpecialPerson`].
#[derive(Debug)]
pub struct SpecialPersonDiff<'t> {
    pub country: Diff<'t, String, String>,
    pub person: Diff<'t, Person, PersonDiff<'t>>,
}

impl<'t> Default for SpecialPersonDiff<'t> {
    /// The no-differences value: every field `Same`.
    fn default() -> (d: Self)
        ensures
            d.country is Same,
            d.person is Same,
    {
        SpecialPersonDiff { country: Diff::Same, person: Diff::Same }
    }
}

impl<'t> Diffable<'t> for SpecialPerson {
    type Detailed = SpecialPersonDiff<'t>;

    open spec fn no_diff(&self, other: &Self) -> bool {
        self.country@ == other.country@ && self.person.no_diff(&other.person)
    }

    open spec fn detail_ok(&self, other: &Self, d: SpecialPersonDiff<'t>) -> bool {
        &&& ((d.country is Same) <==> self.country@ == other.country@)
        &&& ((d.country is Changed) <==> self.country@ != other.country@)
        &&& (d.country matches Diff::Changed(o, n) ==> *o == self.country && *n == other.country)
        &&& ((d.person is Same) <==> self.person.no_diff(&other.person))
        &&& ((d.person is Detailed) <==> !self.person.no_diff(&other.person))
        &&& (d.person matches Diff::Detailed(p) ==> self.person.detail_ok(&other.person, p))
    }

    open spec fn provides_detail() -> bool {
        true
    }

    proof fn lemma_no_diff_reflexive(&self) {
    }

    fn diff(&'t self, other: &'t Self) -> (r: Diff<'t, SpecialPerson, SpecialPersonDiff<'t>>) {
        let mut all_the_same = true;
        let mut diff = SpecialPersonDiff::default();
        let own_diff = self.country.diff(&other.country);
        if !own_diff.is_same() {
            all_the_same = false;
        }
        diff.country = own_diff;
        let own_diff = self.person.diff(&other.person);
        if !own_diff.is_same() {
            all_the_same = false;
        }
        diff.person = own_diff;
        if all_the_same {
            Diff::Same
        } else {
            Diff::Detailed(diff)
        }
    }
}

/// A record with no fields at all.
#[derive(Debug)]
pub struct Empty {}

/// Companion shape of [`Empty`]: no fields either.
#[derive(Debug)]
pub struct EmptyDiff {}

impl Default for EmptyDiff {
    /// The no-differences value; there are no fields to set.
    fn default() -> (d: Self)
    {
        EmptyDiff {}
    }
}

impl<'t> Diffable<'t> for Empty {
    type Detailed = EmptyDiff;

    open spec fn no_diff(&self, other: &Self) -> bool {
        true
    }

    open spec fn detail_ok(&self, other: &Self, d: EmptyDiff) -> bool {
        true
    }

    open spec fn provides_detail() -> bool {
        true
    }

    proof fn lemma_no_diff_reflexive(&self) {
    }

    fn diff(&'t self, other: &'t Self) -> (r: Diff<'t, Empty, EmptyDiff>) {
        Diff::Same
    }
}

/// Single-field change isolation law: when only one field of a
/// two-field record differs, the result is `Detailed`, the changed
/// field's sub-result is not `Same`, and the unchanged field's
/// sub-result is exactly `Same`.
pub proof fn lemma_single_field_isolation<'t>(
    a: &'t Person,
    b: &'t Person,
    r: Diff<'t, Person, PersonDiff<'t>>,
)
    requires
        diff_post(a, b, r),
        a.name@ != b.name@,
        a.surname@ == b.surname@,
    ensures
        r is Detailed,
        !(r->Detailed_0.name is Same),
        r->Detailed_0.surname is Same,
{
}

/// Collapsing law: when every field of a record compares `Same`, the
/// top-level result is `Same`, never a `Detailed` of all-`Same`
/// fields.
pub proof fn lemma_collapsing<'t>(
    a: &'t Person,
    b: &'t Person,
    r: Diff<'t, Person, PersonDiff<'t>>,
)
    requires
        diff_post(a, b, r),
        a.name@ == b.name@,
        a.surname@ == b.surname@,
    ensures
        r is Same,
{
}

/// Recursive propagation law: when only a field inside a nested
/// record field differs, the outer result is `Detailed`, the nested
/// field's sub-result is itself `Detailed`, and drilling into it
/// reproduces single-field change isolation at the inner level.
pub proof fn lemma_recursive_propagation<'t>(
    a: &'t SpecialPerson,
    b: &'t SpecialPerson,
    r: Diff<'t, SpecialPerson, SpecialPersonDiff<'t>>,
)
    requires
        diff_post(a, b, r),
        a.country@ == b.country@,
        a.person.name@ != b.person.name@,
        a.person.surname@ == b.person.surname@,
    ensures
        r is Detailed,
        r->Detailed_0.country is Same,
        r->Detailed_0.person is Detailed,
        !(r->Detailed_0.person->Detailed_0.name is Same),
        r->Detailed_0.person->Detailed_0.surname is Same,
{
}

/// Vacuous record law: a record type with zero fields diffs to
/// `Same`, whatever the two instances.
pub proof fn lemma_vacuous_record<'t>(
    a: &'t Empty,
    b: &'t Empty,
    r: Diff<'t, Empty, EmptyDiff>,
)
    requires
        diff_post(a, b, r),
    ensures
        r is Same,
{
}

} // verus!

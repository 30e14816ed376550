//! The structural generator: given a record type's name and ordered
//! field list, it derives the source of (a) the companion detailed
//! shape, (b) its no-differences `Default`, and (c) the `Diffable`
//! implementation that compares field by field and collapses an
//! all-`Same` outcome. Shapes that are not named-field records are
//! refused with a descriptive error.

use vstd::prelude::*;

verus! {

/// One named field of a record: its name and the text of its type.
#[derive(Debug)]
pub struct FieldDef {
    pub name: String,
    pub ty: String,
}

/// The shape of a type definition handed to the generator.
#[derive(Debug)]
pub enum TypeDef {
    /// A record with named fields; the only accepted shape. A record
    /// with no fields at all is accepted and diffs vacuously.
    Record { name: String, fields: Vec<FieldDef> },
    /// A struct whose fields are positional (or absent).
    Positional { name: String },
    /// A sum type or union: no record at all.
    Sum { name: String },
}

/// Why the generator refused a shape.
#[derive(Debug, Clone, Copy, PartialEq, Eq)]
pub enum ShapeError {
    /// A struct, but without named fields.
    PositionalFields,
    /// Not a struct in the first place.
    NotARecord,
}

impl ShapeError {
    /// A descriptive statement of the defect.
    pub fn message(&self) -> (m: &'static str)
        ensures
            self is PositionalFields ==> m@ == "Can only handle structs with named fields"@,
            self is NotARecord ==> m@ == "can only apply derivation on structs"@,
    {
        match self {
            ShapeError::PositionalFields => "Can only handle structs with named fields",
            ShapeError::NotARecord => "can only apply derivation on structs",
        }
    }
}

/// Relies on String::push_str: appends a string slice to the end of
/// this string.
#[verifier::external_body]
fn append_str(s: &mut String, t: &str)
    ensures
        final(s)@ == old(s)@ + t@,
{
    s.push_str(t);
}

/// The name of the companion shape: the record's name with `Diff`
/// appended.
pub open spec fn diff_type_name_spec(name: Seq<char>) -> Seq<char> {
    name + "Diff"@
}

/// The diff-result type wrapping one field's declared type.
pub open spec fn wrap_type_spec(ty: Seq<char>) -> Seq<char> {
    "Diff<'t, "@ + ty + ", <"@ + ty + " as Diffable<'t>>::Detailed>"@
}

/// One field declaration of the companion shape.
pub open spec fn field_decl_spec(f: FieldDef) -> Seq<char> {
    "    "@ + f.name@ + ": "@ + wrap_type_spec(f.ty@) + ",\n"@
}

/// The first `n` field declarations of the companion shape, in
/// declaration order.
pub open spec fn field_decls_spec(fields: Seq<FieldDef>, n: int) -> Seq<char>
    decreases n,
{
    if n <= 0 {
        Seq::empty()
    } else {
        field_decls_spec(fields, n - 1) + field_decl_spec(fields[n - 1])
    }
}

/// One field initializer of the no-differences default.
pub open spec fn default_field_spec(f: FieldDef) -> Seq<char> {
    "            "@ + f.name@ + ": Diff::Same,\n"@
}

/// The first `n` field initializers, in declaration order.
pub open spec fn default_fields_spec(fields: Seq<FieldDef>, n: int) -> Seq<char>
    decreases n,
{
    if n <= 0 {
        Seq::empty()
    } else {
        default_fields_spec(fields, n - 1) + default_field_spec(fields[n - 1])
    }
}

/// The comparison block for one field: diff it, clear the all-same
/// flag unless the result is `Same`, store the result.
pub open spec fn check_field_spec(f: FieldDef) -> Seq<char> {
    "        let own_diff = self."@ + f.name@ + ".diff(&other."@ + f.name@
        + ");\n        if !own_diff.is_same() {\n            all_the_same = false;\n        }\n        diff."@
        + f.name@ + " = own_diff;\n"@
}

/// The first `n` comparison blocks, in declaration order.
pub open spec fn check_fields_spec(fields: Seq<FieldDef>, n: int) -> Seq<char>
    decreases n,
{
    if n <= 0 {
        Seq::empty()
    } else {
        check_fields_spec(fields, n - 1) + check_field_spec(fields[n - 1])
    }
}

/// The companion shape's declaration.
pub open spec fn companion_struct_spec(name: Seq<char>, fields: Seq<FieldDef>) -> Seq<char> {
    "struct "@ + diff_type_name_spec(name) + "<'t> {\n"@ + field_decls_spec(
        fields,
        fields.len() as int,
    ) + "}\n"@
}

/// The companion shape's no-differences `Default`.
pub open spec fn default_impl_spec(name: Seq<char>, fields: Seq<FieldDef>) -> Seq<char> {
    "impl<'t> Default for "@ + diff_type_name_spec(name)
        + "<'t> {\n    fn default() -> Self {\n        "@ + diff_type_name_spec(name) + " {\n"@
        + default_fields_spec(fields, fields.len() as int) + "        }\n    }\n}\n"@
}

/// The record's `Diffable` implementation: compare every field in
/// declaration order, then collapse to `Same` when no field
/// differed.
pub open spec fn diffable_impl_spec(name: Seq<char>, fields: Seq<FieldDef>) -> Seq<char> {
    "impl<'t> Diffable<'t> for "@ + name + " {\n    type Detailed = "@ + diff_type_name_spec(name)
        + "<'t>;\n    fn diff(&'t self, other: &'t Self) -> Diff<'t, Self, Self::Detailed> {\n        let mut all_the_same = true;\n        let mut diff = "@
        + diff_type_name_spec(name) + "::default();\n"@ + check_fields_spec(
        fields,
        fields.len() as int,
    ) + "        if all_the_same {\n            Diff::Same\n        } else {\n            Diff::Detailed(diff)\n        }\n    }\n}\n"@
}

/// Everything the generator emits for one record.
pub open spec fn derive_diffable_spec(name: Seq<char>, fields: Seq<FieldDef>) -> Seq<char> {
    companion_struct_spec(name, fields) + default_impl_spec(name, fields) + diffable_impl_spec(
        name,
        fields,
    )
}

/// An identifier with a suffix appended.
pub fn suffix_ident(ident: &str, suffix: &str) -> (r: String)
    ensures
        r@ == ident@ + suffix@,
{
    let mut s = ident.to_owned();
    append_str(&mut s, suffix);
    s
}

/// The diff-result type wrapping one field's declared type.
pub fn wrap_type(ty: &str) -> (r: String)
    ensures
        r@ == wrap_type_spec(ty@),
{
    let mut s = "Diff<'t, ".to_owned();
    append_str(&mut s, ty);
    append_str(&mut s, ", <");
    append_str(&mut s, ty);
    append_str(&mut s, " as Diffable<'t>>::Detailed>");
    s
}

/// The named fields of a record shape; any other shape is refused
/// with the defect that makes it unusable.
pub fn collect_fields<'a>(input: &'a TypeDef) -> (r: Result<&'a Vec<FieldDef>, ShapeError>)
    ensures
        input matches TypeDef::Record { fields, .. } ==> (r matches Ok(f) && f@ == fields@),
        input is Positional ==> (r matches Err(e) && e is PositionalFields),
        input is Sum ==> (r matches Err(e) && e is NotARecord),
{
    match input {
        TypeDef::Record { fields, .. } => Ok(fields),
        TypeDef::Positional { .. } => Err(ShapeError::PositionalFields),
        TypeDef::Sum { .. } => Err(ShapeError::NotARecord),
    }
}

/// One field declaration of the companion shape.
fn field_decl(f: &FieldDef) -> (r: String)
    ensures
        r@ == field_decl_spec(*f),
{
    let mut s = "    ".to_owned();
    append_str(&mut s, f.name.as_str());
    append_str(&mut s, ": ");
    let w = wrap_type(f.ty.as_str());
    append_str(&mut s, w.as_str());
    append_str(&mut s, ",\n");
    s
}

/// The field declarations of the companion shape, one per field of
/// the record, in declaration order.
pub fn collect_fields_into_diffable(fields: &Vec<FieldDef>) -> (r: String)
    ensures
        r@ == field_decls_spec(fields@, fields@.len() as int),
{
    let mut s = String::new();
    let mut i: usize = 0;
    while i < fields.len()
        invariant
            i <= fields@.len(),
            s@ == field_decls_spec(fields@, i as int),
        decreases fields@.len() - i,
    {
        let line = field_decl(&fields[i]);
        append_str(&mut s, line.as_str());
        i = i + 1;
    }
    s
}

/// One field initializer of the no-differences default.
fn default_field(f: &FieldDef) -> (r: String)
    ensures
        r@ == default_field_spec(*f),
{
    let mut s = "            ".to_owned();
    append_str(&mut s, f.name.as_str());
    append_str(&mut s, ": Diff::Same,\n");
    s
}

/// The comparison block for one field.
fn check_field(f: &FieldDef) -> (r: String)
    ensures
        r@ == check_field_spec(*f),
{
    let mut s = "        let own_diff = self.".to_owned();
    append_str(&mut s, f.name.as_str());
    append_str(&mut s, ".diff(&other.");
    append_str(&mut s, f.name.as_str());
    append_str(
        &mut s,
        ");\n        if !own_diff.is_same() {\n            all_the_same = false;\n        }\n        diff.",
    );
    append_str(&mut s, f.name.as_str());
    append_str(&mut s, " = own_diff;\n");
    s
}

/// The companion shape's declaration.
fn companion_struct_src(name: &str, fields: &Vec<FieldDef>) -> (r: String)
    ensures
        r@ == companion_struct_spec(name@, fields@),
{
    let mut s = "struct ".to_owned();
    let n = suffix_ident(name, "Diff");
    append_str(&mut s, n.as_str());
    append_str(&mut s, "<'t> {\n");
    let body = collect_fields_into_diffable(fields);
    append_str(&mut s, body.as_str());
    append_str(&mut s, "}\n");
    s
}

/// The companion shape's no-differences `Default`.
fn default_impl_src(name: &str, fields: &Vec<FieldDef>) -> (r: String)
    ensures
        r@ == default_impl_spec(name@, fields@),
{
    let mut s = "impl<'t> Default for ".to_owned();
    let n = suffix_ident(name, "Diff");
    append_str(&mut s, n.as_str());
    append_str(&mut s, "<'t> {\n    fn default() -> Self {\n        ");
    append_str(&mut s, n.as_str());
    append_str(&mut s, " {\n");
    let mut i: usize = 0;
    while i < fields.len()
        invariant
            i <= fields@.len(),
            s@ == "impl<'t> Default for "@ + diff_type_name_spec(name@)
                + "<'t> {\n    fn default() -> Self {\n        "@ + diff_type_name_spec(name@)
                + " {\n"@ + default_fields_spec(fields@, i as int),
        decreases fields@.len() - i,
    {
        let line = default_field(&fields[i]);
        append_str(&mut s, line.as_str());
        i = i + 1;
    }
    append_str(&mut s, "        }\n    }\n}\n");
    s
}

/// The record's `Diffable` implementation.
fn diffable_impl_src(name: &str, fields: &Vec<FieldDef>) -> (r: String)
    ensures
        r@ == diffable_impl_spec(name@, fields@),
{
    let mut s = "impl<'t> Diffable<'t> for ".to_owned();
    append_str(&mut s, name);
    append_str(&mut s, " {\n    type Detailed = ");
    let n = suffix_ident(name, "Diff");
    append_str(&mut s, n.as_str());
    append_str(
        &mut s,
        "<'t>;\n    fn diff(&'t self, other: &'t Self) -> Diff<'t, Self, Self::Detailed> {\n        let mut all_the_same = true;\n        let mut diff = ",
    );
    append_str(&mut s, n.as_str());
    append_str(&mut s, "::default();\n");
    let mut i: usize = 0;
    while i < fields.len()
        invariant
            i <= fields@.len(),
            s@ == "impl<'t> Diffable<'t> for "@ + name@ + " {\n    type Detailed = "@
                + diff_type_name_spec(name@)
                + "<'t>;\n    fn diff(&'t self, other: &'t Self) -> Diff<'t, Self, Self::Detailed> {\n        let mut all_the_same = true;\n        let mut diff = "@
                + diff_type_name_spec(name@) + "::default();\n"@ + check_fields_spec(
                fields@,
                i as int,
            ),
        decreases fields@.len() - i,
    {
        let line = check_field(&fields[i]);
        append_str(&mut s, line.as_str());
        i = i + 1;
    }
    append_str(
        &mut s,
        "        if all_the_same {\n            Diff::Same\n        } else {\n            Diff::Detailed(diff)\n        }\n    }\n}\n",
    );
    s
}

/// The generator: for a named-field record, the source of the
/// companion shape, its no-differences default, and the field-by-
/// field `Diffable` implementation; for any other shape, the
/// descriptive refusal.
pub fn derive_diffable(input: &TypeDef) -> (r: Result<String, ShapeError>)
    ensures
        input matches TypeDef::Record { name, fields } ==> (r matches Ok(src) && src@
            == derive_diffable_spec(name@, fields@)),
        input is Positional ==> (r matches Err(e) && e is PositionalFields),
        input is Sum ==> (r matches Err(e) && e is NotARecord),
{
    let fields = match collect_fields(input) {
        Ok(fields) => fields,
        Err(e) => {
            return Err(e);
        },
    };
    let name = match input {
        TypeDef::Record { name, .. } => name,
        TypeDef::Positional { name } => name,
        TypeDef::Sum { name } => name,
    };
    let mut out = companion_struct_src(name.as_str(), fields);
    let defaults = default_impl_src(name.as_str(), fields);
    append_str(&mut out, defaults.as_str());
    let implementation = diffable_impl_src(name.as_str(), fields);
    append_str(&mut out, implementation.as_str());
    Ok(out)
}

} // verus!

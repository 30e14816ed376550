use diffable::codegen::FieldDef;
use diffable::codegen::ShapeError;
use diffable::codegen::TypeDef;
use diffable::codegen::collect_fields;
use diffable::codegen::collect_fields_into_diffable;
use diffable::codegen::derive_diffable;
use diffable::codegen::suffix_ident;
use diffable::codegen::wrap_type;

#[test]
fn it_works() {
    assert_eq!(2 + 2, 4);
}

fn person_def() -> TypeDef {
    TypeDef::Record {
        name: "Person".to_owned(),
        fields: vec![
            FieldDef {
                name: "name".to_owned(),
                ty: "String".to_owned(),
            },
            FieldDef {
                name: "surname".to_owned(),
                ty: "String".to_owned(),
            },
        ],
    }
}

#[test]
fn test_suffix_ident() {
    assert_eq!(suffix_ident("Person", "Diff"), "PersonDiff");
    assert_eq!(suffix_ident("", "Diff"), "Diff");
}

#[test]
fn test_wrap_type() {
    assert_eq!(
        wrap_type("String"),
        "Diff<'t, String, <String as Diffable<'t>>::Detailed>"
    );
}

#[test]
fn test_collect_fields_accepts_records_only() {
    let def = person_def();
    let fields = collect_fields(&def).unwrap();
    assert_eq!(fields.len(), 2);
    assert_eq!(fields[0].name, "name");
    assert_eq!(fields[1].name, "surname");

    let positional = TypeDef::Positional {
        name: "Pair".to_owned(),
    };
    assert_eq!(
        collect_fields(&positional).unwrap_err(),
        ShapeError::PositionalFields
    );

    let sum = TypeDef::Sum {
        name: "Either".to_owned(),
    };
    assert_eq!(collect_fields(&sum).unwrap_err(), ShapeError::NotARecord);
}

#[test]
fn test_shape_error_messages() {
    assert_eq!(
        ShapeError::PositionalFields.message(),
        "Can only handle structs with named fields"
    );
    assert_eq!(
        ShapeError::NotARecord.message(),
        "can only apply derivation on structs"
    );
}

#[test]
fn test_collect_fields_into_diffable() {
    let fields = vec![FieldDef {
        name: "age".to_owned(),
        ty: "u32".to_owned(),
    }];
    assert_eq!(
        collect_fields_into_diffable(&fields),
        "    age: Diff<'t, u32, <u32 as Diffable<'t>>::Detailed>,\n"
    );
}

#[test]
fn test_derive_diffable_person() {
    let generated = derive_diffable(&person_def()).unwrap();
    let mut expected = String::new();
    expected.push_str("struct PersonDiff<'t> {\n");
    expected.push_str("    name: Diff<'t, String, <String as Diffable<'t>>::Detailed>,\n");
    expected.push_str("    surname: Diff<'t, String, <String as Diffable<'t>>::Detailed>,\n");
    expected.push_str("}\n");
    expected.push_str("impl<'t> Default for PersonDiff<'t> {\n");
    expected.push_str("    fn default() -> Self {\n");
    expected.push_str("        PersonDiff {\n");
    expected.push_str("            name: Diff::Same,\n");
    expected.push_str("            surname: Diff::Same,\n");
    expected.push_str("        }\n");
    expected.push_str("    }\n");
    expected.push_str("}\n");
    expected.push_str("impl<'t> Diffable<'t> for Person {\n");
    expected.push_str("    type Detailed = PersonDiff<'t>;\n");
    expected.push_str(
        "    fn diff(&'t self, other: &'t Self) -> Diff<'t, Self, Self::Detailed> {\n",
    );
    expected.push_str("        let mut all_the_same = true;\n");
    expected.push_str("        let mut diff = PersonDiff::default();\n");
    expected.push_str("        let own_diff = self.name.diff(&other.name);\n");
    expected.push_str("        if !own_diff.is_same() {\n");
    expected.push_str("            all_the_same = false;\n");
    expected.push_str("        }\n");
    expected.push_str("        diff.name = own_diff;\n");
    expected.push_str("        let own_diff = self.surname.diff(&other.surname);\n");
    expected.push_str("        if !own_diff.is_same() {\n");
    expected.push_str("            all_the_same = false;\n");
    expected.push_str("        }\n");
    expected.push_str("        diff.surname = own_diff;\n");
    expected.push_str("        if all_the_same {\n");
    expected.push_str("            Diff::Same\n");
    expected.push_str("        } else {\n");
    expected.push_str("            Diff::Detailed(diff)\n");
    expected.push_str("        }\n");
    expected.push_str("    }\n");
    expected.push_str("}\n");
    assert_eq!(generated, expected);
}

#[test]
fn test_derive_diffable_empty_record() {
    let def = TypeDef::Record {
        name: "Empty".to_owned(),
        fields: vec![],
    };
    let generated = derive_diffable(&def).unwrap();
    let mut expected = String::new();
    expected.push_str("struct EmptyDiff<'t> {\n");
    expected.push_str("}\n");
    expected.push_str("impl<'t> Default for EmptyDiff<'t> {\n");
    expected.push_str("    fn default() -> Self {\n");
    expected.push_str("        EmptyDiff {\n");
    expected.push_str("        }\n");
    expected.push_str("    }\n");
    expected.push_str("}\n");
    expected.push_str("impl<'t> Diffable<'t> for Empty {\n");
    expected.push_str("    type Detailed = EmptyDiff<'t>;\n");
    expected.push_str(
        "    fn diff(&'t self, other: &'t Self) -> Diff<'t, Self, Self::Detailed> {\n",
    );
    expected.push_str("        let mut all_the_same = true;\n");
    expected.push_str("        let mut diff = EmptyDiff::default();\n");
    expected.push_str("        if all_the_same {\n");
    expected.push_str("            Diff::Same\n");
    expected.push_str("        } else {\n");
    expected.push_str("            Diff::Detailed(diff)\n");
    expected.push_str("        }\n");
    expected.push_str("    }\n");
    expected.push_str("}\n");
    assert_eq!(generated, expected);
}

#[test]
fn test_derive_diffable_rejects_non_records() {
    let positional = TypeDef::Positional {
        name: "Pair".to_owned(),
    };
    assert_eq!(
        derive_diffable(&positional).unwrap_err(),
        ShapeError::PositionalFields
    );

    let sum = TypeDef::Sum {
        name: "Either".to_owned(),
    };
    assert_eq!(derive_diffable(&sum).unwrap_err(), ShapeError::NotARecord);
}

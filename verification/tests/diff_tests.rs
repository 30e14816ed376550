use diffable::Diff;
use diffable::Diffable;
use diffable::records::Empty;
use diffable::records::Person;
use diffable::records::SpecialPerson;

#[test]
fn test_diff_reflexive() {
    let person = Person {
        name: "John".to_owned(),
        surname: "Doe".to_owned(),
    };

    assert!(person.diff(&person).is_same());
}

#[test]
fn test_diff_firstname() {
    let person1 = Person {
        name: "John".to_owned(),
        surname: "Doe".to_owned(),
    };

    let person2 = Person {
        name: "Jane".to_owned(),
        surname: "Doe".to_owned(),
    };

    let diff = person1.diff(&person2);
    assert!(!diff.is_same());
    assert!(!diff.detailed().unwrap().name.is_same());
    assert!(diff.detailed().unwrap().surname.is_same());
}

#[test]
fn test_diff_primitives() {
    let s1: &str = "hello";
    let s2: &str = "world";
    assert!(!s1.diff(&s2).is_same());

    let i1: i32 = 42;
    let i2: i32 = 42;
    assert!(i1.diff(&i2).is_same());
}

#[test]
fn test_nested_diff() {
    let person1 = Person {
        name: "John".to_owned(),
        surname: "Doe".to_owned(),
    };

    let person2 = Person {
        name: "Jane".to_owned(),
        surname: "Doe".to_owned(),
    };

    let sp1 = SpecialPerson {
        country: "WonderfulCountry".to_owned(),
        person: person1,
    };

    let sp2 = SpecialPerson {
        country: "WonderfulCountry".to_owned(),
        person: person2,
    };

    let d = sp1.diff(&sp2);
    assert!(!d.is_same());
    let details = d.detailed().unwrap();
    assert!(details.country.is_same());
    assert!(!details.person.is_same());

    let person_details = details.person.detailed().unwrap();
    assert!(!person_details.name.is_same());
    assert!(person_details.surname.is_same());
}

#[test]
fn test_leaf_same_iff_equal() {
    let a = "left".to_owned();
    let b = "left".to_owned();
    let c = "right".to_owned();
    assert!(a.diff(&b).is_same());
    assert!(!a.diff(&c).is_same());

    let x: u64 = 7;
    let y: u64 = 8;
    assert!(x.diff(&x).is_same());
    assert!(!x.diff(&y).is_same());
    assert!(true.diff(&true).is_same());
    assert!(!true.diff(&false).is_same());
}

#[test]
fn test_leaf_changed_carries_both_values() {
    let a = "old".to_owned();
    let b = "new".to_owned();
    let d = a.diff(&b);
    match d {
        Diff::Changed(o, n) => {
            assert_eq!(o, &a);
            assert_eq!(n, &b);
        }
        _ => panic!("a changed leaf must report Changed"),
    }
}

#[test]
fn test_leaf_has_no_detail() {
    let i1: i32 = 1;
    let i2: i32 = 2;
    assert!(i1.diff(&i2).detailed().is_none());
    assert!(i1.diff(&i1).detailed().is_none());
}

#[test]
fn test_collapsing_equal_records() {
    let sp1 = SpecialPerson {
        country: "WonderfulCountry".to_owned(),
        person: Person {
            name: "John".to_owned(),
            surname: "Doe".to_owned(),
        },
    };
    let sp2 = SpecialPerson {
        country: "WonderfulCountry".to_owned(),
        person: Person {
            name: "John".to_owned(),
            surname: "Doe".to_owned(),
        },
    };
    let d = sp1.diff(&sp2);
    assert!(d.is_same());
    assert!(d.detailed().is_none());
}

#[test]
fn test_empty_record_diffs_to_same() {
    let a = Empty {};
    let b = Empty {};
    assert!(a.diff(&b).is_same());
    assert!(a.diff(&a).is_same());
}

use attr::examples::Bar;
use attr::examples::Batz;
use attr::examples::Bla;
use attr::examples::Foo;
use attr::examples::FooField;
use attr::examples::Name;
use attr::examples::Top;
use attr::examples::Vector;
use attr::retrieve;
use attr::retrieve_insecure;
use attr::serde::SerdeAttribute;
use attr::value::Value;
use attr::AccessError;
use attr::AccessKind;
use attr::Attr;
use attr::InsecureAttr;
use attr::InsecureIndexableAttr;
use attr::InsecureIterableAttr;
use attr::Traverse;

fn sample_foo(name: &str) -> Foo {
    Foo {
        bar: "plain".into(),
        batz: Bla { name: name.into() },
        numbers: vec![1, 2, 3],
        vector: vec![],
    }
}

#[test]
fn composition_applies_outermost_first() {
    let top = Top { foo: sample_foo("deep") };

    let path = retrieve(Name).from(Batz).from(FooField);
    let through_path: &String = path.traverse(&top);

    let step1 = FooField.get(&top);
    let step2 = Attr::get(&Batz, step1);
    let step3: &String = Attr::get(&Name, step2);

    assert_eq!(through_path.as_str(), "deep");
    assert_eq!(through_path, step3);
}

#[test]
fn single_link_equals_direct_access() {
    let f = sample_foo("x");

    let path = retrieve(Bar);
    let through_path: &String = path.traverse(&f);
    let direct: &String = Bar.get(&f);

    assert_eq!(through_path, direct);
    assert_eq!(through_path.as_str(), "plain");
}

#[test]
fn path_reuse_across_containers() {
    let f1 = sample_foo("first");
    let f2 = sample_foo("second");

    let path = retrieve(Name).from(Batz);
    assert_eq!(std::mem::size_of_val(&path), 0);

    let r1: &String = path.traverse(&f1);
    let r2: &String = path.traverse(&f2);
    let r1_again: &String = path.traverse(&f1);

    assert_eq!(r1.as_str(), "first");
    assert_eq!(r2.as_str(), "second");
    assert_eq!(r1_again.as_str(), "first");
}

fn nested_object() -> Value {
    Value::Object(vec![(
        "y".to_string(),
        Value::Object(vec![("z".to_string(), Value::U64(1))]),
    )])
}

#[test]
fn fallible_chain_succeeds() {
    let obj = nested_object();
    let path = retrieve_insecure(SerdeAttribute::new("z")).try_from(SerdeAttribute::new("y"));
    assert_eq!(path.traverse(&obj), Ok(&Value::U64(1)));
}

#[test]
fn fallible_chain_short_circuits() {
    let obj = nested_object();
    let path = retrieve_insecure(SerdeAttribute::new("z"))
        .try_from(SerdeAttribute::new("y"))
        .try_from(SerdeAttribute::new("missing"));
    assert_eq!(
        path.traverse(&obj),
        Err(AccessError { kind: AccessKind::MissingField, name: "missing".to_string() })
    );
}

#[test]
fn branch_failures_are_per_element() {
    let f = Foo {
        bar: "plain".into(),
        batz: Bla { name: "plain".into() },
        numbers: vec![],
        vector: vec![Bla { name: "foo".into() }, Bla { name: "".into() }, Bla {
            name: "bla".into(),
        }],
    };

    let path = retrieve_insecure(Name).mapped(Vector);
    let results: Vec<Result<&String, AccessError>> = path.traverse(&f);

    assert_eq!(results.len(), 3);
    assert_eq!(results[0].as_ref().map(|s| s.as_str()), Ok("foo"));
    assert_eq!(
        results[1],
        Err(AccessError { kind: AccessKind::MissingField, name: "name".to_string() })
    );
    assert_eq!(results[2].as_ref().map(|s| s.as_str()), Ok("bla"));
}

#[test]
fn dynamic_iteration_yields_all_elements() {
    let obj = Value::Object(vec![(
        "y".to_string(),
        Value::Array(vec![Value::U64(1), Value::U64(2), Value::U64(3)]),
    )]);

    let attr_y = SerdeAttribute::new("y");
    let items = attr_y.iter(&obj).unwrap();
    assert_eq!(items.len(), 3);
    assert_eq!(items[0], &Value::U64(1));
    assert_eq!(items[1], &Value::U64(2));
    assert_eq!(items[2], &Value::U64(3));
}

#[test]
fn lookup_distinguishes_names() {
    let obj = Value::Object(vec![
        ("a".to_string(), Value::U64(1)),
        ("b".to_string(), Value::U64(2)),
    ]);

    assert_eq!(obj.field("a"), Ok(&Value::U64(1)));
    assert_eq!(obj.field("b"), Ok(&Value::U64(2)));
    assert_eq!(obj.field("c"), Err(AccessKind::MissingField));
}

#[test]
fn error_not_an_object() {
    let v = Value::U64(5);
    assert_eq!(v.field("x"), Err(AccessKind::NotAnObject));
    let attr = SerdeAttribute::new("x");
    assert_eq!(
        attr.get(&v),
        Err(AccessError { kind: AccessKind::NotAnObject, name: "x".to_string() })
    );
}

#[test]
fn error_not_an_array() {
    let obj = nested_object();
    let attr_y = SerdeAttribute::new("y");
    let not_an_array = AccessError { kind: AccessKind::NotAnArray, name: "y".to_string() };
    assert_eq!(attr_y.at(&obj, 0), Err(not_an_array.clone()));
    assert_eq!(attr_y.iter(&obj), Err(not_an_array));

    let plain = Value::Object(vec![("y".to_string(), Value::Bool(true))]);
    assert_eq!(plain.field("y").unwrap().element(0), Err(AccessKind::NotAnArray));
}

#[test]
fn error_index_out_of_range() {
    let obj = Value::Object(vec![(
        "y".to_string(),
        Value::Array(vec![Value::U64(1), Value::U64(2), Value::U64(3)]),
    )]);
    let attr_y = SerdeAttribute::new("y");
    assert_eq!(
        attr_y.at(&obj, 7),
        Err(AccessError { kind: AccessKind::IndexOutOfRange, name: "y".to_string() })
    );
    assert_eq!(attr_y.at(&obj, 2), Ok(&Value::U64(3)));
}

#[test]
fn error_descriptions() {
    assert_eq!(AccessKind::NotAnObject.describe(), "not an object");
    assert_eq!(AccessKind::MissingField.describe(), "field is absent");
    assert_eq!(AccessKind::NotAnArray.describe(), "not an array");
    assert_eq!(AccessKind::IndexOutOfRange.describe(), "index out of range");

    let e = AccessError { kind: AccessKind::MissingField, name: "missing".to_string() };
    assert_eq!(e.message(), "missing: field is absent");
}

#[test]
fn plain_path_extended_by_fallible_segment() {
    let present = sample_foo("deep");
    let path = retrieve(Name).try_from(Batz);
    let found: Result<&String, AccessError> = path.traverse(&present);
    assert_eq!(found.map(|s| s.as_str()), Ok("deep"));

    let absent = sample_foo("");
    assert_eq!(
        path.traverse(&absent),
        Err(AccessError { kind: AccessKind::MissingField, name: "batz".to_string() })
    );
}

#[test]
fn dynamic_indexed_mutation_is_visible() {
    let mut obj = Value::Object(vec![(
        "y".to_string(),
        Value::Array(vec![Value::U64(1), Value::U64(2), Value::U64(3)]),
    )]);

    let attr_y = SerdeAttribute::new("y");
    assert_eq!(attr_y.at(&obj, 1), Ok(&Value::U64(2)));

    {
        let arr = obj.field_mut("y");
        let slot = arr.element_mut(1);
        *slot = Value::U64(4);
    }

    assert_eq!(attr_y.at(&obj, 1), Ok(&Value::U64(4)));
}

#[test]
fn dynamic_field_mutation_is_visible() {
    let mut obj = Value::Object(vec![(
        "y".to_string(),
        Value::Object(vec![("z".to_string(), Value::U64(1))]),
    )]);

    {
        let inner = obj.field_mut("y");
        let slot = inner.field_mut("z");
        *slot = Value::Str("bar".to_string());
    }

    let path = retrieve_insecure(SerdeAttribute::new("z")).try_from(SerdeAttribute::new("y"));
    assert_eq!(path.traverse(&obj), Ok(&Value::Str("bar".to_string())));
}

#[test]
fn attribute_names_are_stable() {
    let f = sample_foo("x");
    let bar: &String = Bar.get(&f);
    assert_eq!(bar.as_str(), "plain");
    assert_eq!(SerdeAttribute::new("x").name(), "x");
}

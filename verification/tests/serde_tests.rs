use attr::examples::Document;
use attr::examples::Inner;
use attr::retrieve_insecure;
use attr::serde::SerdeAttribute;
use attr::value::Value;
use attr::InsecureAttr;
use attr::InsecureIndexableAttr;
use attr::Traverse;

fn to_value(v: &serde_json::Value) -> Value {
    match v {
        serde_json::Value::Null => Value::Null,
        serde_json::Value::Bool(b) => Value::Bool(*b),
        serde_json::Value::Number(n) => {
            if let Some(u) = n.as_u64() {
                Value::U64(u)
            } else if let Some(i) = n.as_i64() {
                Value::I64(i)
            } else {
                panic!("number is neither unsigned nor signed")
            }
        }
        serde_json::Value::String(s) => Value::Str(s.clone()),
        serde_json::Value::Array(a) => Value::Array(a.iter().map(to_value).collect()),
        serde_json::Value::Object(m) => {
            Value::Object(m.iter().map(|(k, w)| (k.clone(), to_value(w))).collect())
        }
    }
}

#[test]
fn serde_tests_test_attr() {
    let parsed: serde_json::Value = serde_json::from_str(r#"{"x": 1, "y": [1,2,3] }"#).unwrap();
    let obj = to_value(&parsed);

    let attr_x = SerdeAttribute::new("x");
    let attr_y = SerdeAttribute::new("y");

    assert_eq!(attr_x.get(&obj).unwrap(), &Value::U64(1));
    assert_eq!(attr_y.at(&obj, 1).unwrap(), &Value::U64(2));
}

#[test]
fn test_multiple_attr() {
    let parsed: serde_json::Value =
        serde_json::from_str(r#"{"x": 1, "y": { "z": 1 } }"#).unwrap();
    let obj = to_value(&parsed);

    let attr_z = SerdeAttribute::new("z");
    let attr_y = SerdeAttribute::new("y");

    let path = retrieve_insecure(attr_z).try_from(attr_y);

    assert_eq!(path.traverse(&obj), Ok(&Value::U64(1)));
}

#[test]
fn serde_tests_test_combine() {
    let parsed: serde_json::Value = serde_json::from_str(r#"{"x": 1}"#).unwrap();
    let val = to_value(&parsed);
    let obj = Document { inner: val };
    let attr = SerdeAttribute::new("x");

    let path = retrieve_insecure(attr).from(Inner);

    assert_eq!(path.traverse(&obj), Ok(&Value::U64(1)));
}

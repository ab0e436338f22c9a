use bambumate::profile::reader::{field_from_json, profile_from_json};
use bambumate::profile::types::{ArrayItem, ProfileValue};

#[test]
fn profile_fields_keep_document_order_and_kinds() {
    let text = "{\"name\": \"My PLA\", \"inherits\": null, \"nozzle_temperature\": [\"220\", 5], \"flag\": true, \"n\": 1.5, \"o\": {\"a\": 1}}";
    let p = profile_from_json(text).unwrap();
    assert_eq!(p.field_count(), 6);
    assert_eq!(p.name(), Some("My PLA"));
    assert!(matches!(p.get("inherits"), Some(ProfileValue::Null)));
    match p.get("nozzle_temperature") {
        Some(ProfileValue::Array(items)) => {
            assert_eq!(items.len(), 2);
            assert!(matches!(&items[0], ArrayItem::Str(s) if s == "220"));
            assert!(matches!(&items[1], ArrayItem::Json(s) if s == "5"));
        }
        _ => panic!("expected an array"),
    }
    assert!(matches!(p.get("flag"), Some(ProfileValue::Scalar(s)) if s == "true"));
    assert!(matches!(p.get("n"), Some(ProfileValue::Scalar(s)) if s == "1.5"));
    assert!(matches!(p.get("o"), Some(ProfileValue::Object(s)) if s == "{\"a\":1}"));
    let keys: Vec<&str> = p.raw().iter().map(|e| e.0.as_str()).collect();
    assert_eq!(keys.len(), 6);
    assert!(keys.contains(&"name") && keys.contains(&"o"));
}

#[test]
fn profile_root_must_be_an_object() {
    assert_eq!(profile_from_json("[1, 2]").unwrap_err(), "Profile JSON root is not an object");
    assert_eq!(profile_from_json("\"x\"").unwrap_err(), "Profile JSON root is not an object");
}

#[test]
fn profile_text_that_is_not_json_is_refused() {
    let e = profile_from_json("{\"name\": ").unwrap_err();
    assert!(!e.is_empty());
    assert_ne!(e, "Profile JSON root is not an object");
}

#[test]
fn field_values_from_json_text() {
    assert!(matches!(field_from_json("\"abc\""), Ok(ProfileValue::Str(s)) if s == "abc"));
    assert!(matches!(field_from_json("false"), Ok(ProfileValue::Scalar(s)) if s == "false"));
    assert!(matches!(field_from_json("null"), Ok(ProfileValue::Null)));
    assert!(field_from_json("{oops").is_err());
}

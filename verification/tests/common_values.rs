use wow_launcher::json::JsonValue;
use wow_launcher::text::decimal_string;
use wow_launcher::digest::{file_hash_hex, hash_matches};

fn s(t: &str) -> JsonValue {
    JsonValue::String(t.to_string())
}

fn obj(entries: Vec<(&str, JsonValue)>) -> JsonValue {
    JsonValue::Object(entries.into_iter().map(|(k, v)| (k.to_string(), v)).collect())
}

#[test]
fn get_finds_the_first_entry_with_the_key() {
    let doc = obj(vec![("a", s("one")), ("b", s("two")), ("a", s("three"))]);
    match doc.get("a") {
        Some(JsonValue::String(t)) => assert_eq!(t, "one"),
        _ => panic!("expected a string"),
    }
    match doc.get("b") {
        Some(JsonValue::String(t)) => assert_eq!(t, "two"),
        _ => panic!("expected a string"),
    }
    assert!(doc.get("c").is_none());
    assert!(s("x").get("a").is_none());
    assert!(JsonValue::Null.get("a").is_none());
}

#[test]
fn get_section_needs_an_object() {
    let doc = obj(vec![("core_files", obj(vec![("f", s("x"))])), ("other", s("y"))]);
    assert_eq!(doc.get_section("core_files").map(|e| e.len()), Some(1));
    assert!(doc.get_section("other").is_none());
    assert!(doc.get_section("missing").is_none());
}

#[test]
fn decimal_text() {
    assert_eq!(decimal_string(0), "0");
    assert_eq!(decimal_string(7), "7");
    assert_eq!(decimal_string(10), "10");
    assert_eq!(decimal_string(1234567890), "1234567890");
    assert_eq!(decimal_string(u64::MAX), u64::MAX.to_string());
}

#[test]
fn sha512_hex_of_known_inputs() {
    assert_eq!(
        file_hash_hex(b""),
        "cf83e1357eefb8bdf1542850d66d8007d620e4050b5715dc83f4a921d36ce9ce47d0d13c5d85f2b0ff8318d2877eec2f63b931bd47417a81a538327af927da3e"
    );
    assert_eq!(
        file_hash_hex(b"abc"),
        "ddaf35a193617abacc417349ae20413112e6fa4e89a97ea20a9eeee64b55d39a2192992a274fc1a836ba3c23a3feebbd454d4423643ce80e2a9ac94fa54ca49f"
    );
    assert_eq!(file_hash_hex(b"abc").len(), 128);
}

#[test]
fn hash_comparison_is_exact() {
    let d = file_hash_hex(b"abc");
    assert!(hash_matches(&d, &d.clone()));
    assert!(!hash_matches(&d, &d.to_uppercase()));
    assert!(!hash_matches(&d, &String::new()));
}

use rustry::json::{json_parse, json_to_bytes, str_eq, JsonValue};

fn obj(members: Vec<(&str, JsonValue)>) -> JsonValue {
    JsonValue::Obj(members.into_iter().map(|(k, v)| (k.to_owned(), v)).collect())
}

#[test]
fn serializes_scalars() {
    assert_eq!(json_to_bytes(&JsonValue::Null), b"null".to_vec());
    assert_eq!(json_to_bytes(&JsonValue::Bool(true)), b"true".to_vec());
    assert_eq!(json_to_bytes(&JsonValue::Bool(false)), b"false".to_vec());
    assert_eq!(json_to_bytes(&JsonValue::Num("42".to_owned())), b"42".to_vec());
    assert_eq!(json_to_bytes(&JsonValue::Str("hi".to_owned())), b"\"hi\"".to_vec());
}

#[test]
fn serializes_nested_documents() {
    let doc = obj(vec![
        ("language", JsonValue::Str("Solidity".to_owned())),
        (
            "sources",
            obj(vec![(
                "a.sol",
                obj(vec![("content", JsonValue::Str("contract A {}".to_owned()))]),
            )]),
        ),
        ("flags", JsonValue::Arr(vec![JsonValue::Bool(true), JsonValue::Null])),
    ]);
    let text = String::from_utf8(json_to_bytes(&doc)).unwrap();
    assert_eq!(
        text,
        "{\"language\":\"Solidity\",\"sources\":{\"a.sol\":{\"content\":\"contract A {}\"}},\
         \"flags\":[true,null]}"
    );
}

#[test]
fn escapes_string_content() {
    let s = JsonValue::Str("a\"b\\c\nd\te\u{1}".to_owned());
    let text = String::from_utf8(json_to_bytes(&s)).unwrap();
    assert_eq!(text, "\"a\\\"b\\\\c\\nd\\te\\u0001\"");
}

#[test]
fn parse_then_serialize_round_trips_minified_text() {
    // The parse boundary hands back the same tree the writer would have
    // produced this text from: serializing it again gives the minified
    // document, so the trusted parse cannot be handing its input back
    // unchanged.
    let text = "{\"a\":[1,true,null,\"x\"],\"b\":{\"c\":\"d\"}}";
    let v = json_parse(text.as_bytes()).unwrap();
    assert_eq!(String::from_utf8(json_to_bytes(&v)).unwrap(), text);
    let spaced = "  { \"a\" : [ 1 , true ] }  ";
    let v2 = json_parse(spaced.as_bytes()).unwrap();
    assert_eq!(String::from_utf8(json_to_bytes(&v2)).unwrap(), "{\"a\":[1,true]}");
}

#[test]
fn parse_rejects_bad_documents() {
    assert!(json_parse(b"{\"a\":").is_none());
    assert!(json_parse(b"").is_none());
    assert!(json_parse(b"nope").is_none());
}

#[test]
fn parsed_values_are_inspectable() {
    let v = json_parse(b"{\"x\":\"y\",\"n\":null,\"b\":false}").unwrap();
    let members = v.as_obj().unwrap();
    let x = rustry::json::obj_get(members.as_slice(), "x").unwrap();
    assert_eq!(x.as_str().unwrap(), "y");
    assert!(rustry::json::obj_get(members.as_slice(), "n").unwrap().is_null());
    assert_eq!(rustry::json::obj_get(members.as_slice(), "b").unwrap().as_bool(), Some(false));
    assert!(rustry::json::obj_get(members.as_slice(), "missing").is_none());
}

#[test]
fn numbers_read_back_as_integers() {
    let v = json_parse(b"{\"id\":42,\"neg\":-7,\"big\":4294967296}").unwrap();
    let ms = v.as_obj().unwrap();
    let id = rustry::json::obj_get(ms.as_slice(), "id").unwrap();
    assert_eq!(id.as_i32(), Some(42));
    assert_eq!(id.as_usize(), Some(42));
    let neg = rustry::json::obj_get(ms.as_slice(), "neg").unwrap();
    assert_eq!(neg.as_i32(), Some(-7));
    assert_eq!(neg.as_usize(), None);
    let big = rustry::json::obj_get(ms.as_slice(), "big").unwrap();
    assert_eq!(big.as_i32(), None);
    assert_eq!(big.as_usize(), Some(4294967296));
    assert_eq!(JsonValue::Num("1.5".to_owned()).as_i32(), None);
    assert_eq!(JsonValue::Str("7".to_owned()).as_i32(), None);
    assert_eq!(JsonValue::Num("2147483647".to_owned()).as_i32(), Some(i32::MAX));
    assert_eq!(JsonValue::Num("-2147483648".to_owned()).as_i32(), Some(i32::MIN));
    assert_eq!(JsonValue::Num("2147483648".to_owned()).as_i32(), None);
}

#[test]
fn string_maps_read_back_in_order() {
    let v = json_parse(b"{\"a\":\"1\",\"b\":\"2\"}").unwrap();
    let m = rustry::json::parse_str_map(&v).unwrap();
    assert_eq!(m, vec![("a".to_owned(), "1".to_owned()), ("b".to_owned(), "2".to_owned())]);
    let mixed = json_parse(b"{\"a\":1}").unwrap();
    assert!(rustry::json::parse_str_map(&mixed).is_none());
    assert!(rustry::json::parse_str_map(&JsonValue::Null).is_none());
}

#[test]
fn str_eq_compares_contents() {
    assert!(str_eq("abc", "abc"));
    assert!(!str_eq("abc", "abd"));
    assert!(!str_eq("abc", "ab"));
    assert!(str_eq("", ""));
}

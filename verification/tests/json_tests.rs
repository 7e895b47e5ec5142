use ln_multihop::json::{str_member_is, Json, JsonNumber};

fn obj(members: Vec<(&str, Json)>) -> Json {
    Json::Object(members.into_iter().map(|(k, v)| (k.to_string(), v)).collect())
}

fn s(text: &str) -> Json {
    Json::Str(text.to_string())
}

#[test]
fn get_finds_the_first_member_with_the_key() {
    let v = obj(vec![("a", s("first")), ("b", Json::Null), ("a", s("second"))]);
    assert_eq!(v.get("a").and_then(|m| m.as_str()), Some("first"));
    assert!(matches!(v.get("b"), Some(Json::Null)));
    assert!(v.get("c").is_none());
}

#[test]
fn get_on_a_non_object_finds_nothing() {
    assert!(s("a").get("a").is_none());
    assert!(Json::Array(vec![obj(vec![("a", Json::Null)])]).get("a").is_none());
    assert!(Json::Null.get("a").is_none());
}

#[test]
fn accessors_read_only_their_kind() {
    assert_eq!(s("x").as_str(), Some("x"));
    assert_eq!(Json::Bool(true).as_str(), None);
    assert_eq!(Json::Bool(false).as_bool(), Some(false));
    assert_eq!(s("false").as_bool(), None);
    assert_eq!(Json::Array(vec![Json::Null]).as_array().map(|a| a.len()), Some(1));
    assert!(obj(vec![]).as_array().is_none());
}

#[test]
fn numbers_read_as_a_json_reader_reads_them() {
    let big = Json::Number(JsonNumber::PosInt(u64::MAX));
    let small = Json::Number(JsonNumber::PosInt(7));
    let neg = Json::Number(JsonNumber::NegInt(-3));
    let frac = Json::Number(JsonNumber::Float);
    assert_eq!(big.as_u64(), Some(u64::MAX));
    assert_eq!(big.as_i64(), None);
    assert_eq!(small.as_i64(), Some(7));
    assert_eq!(neg.as_u64(), None);
    assert_eq!(neg.as_i64(), Some(-3));
    assert_eq!(frac.as_u64(), None);
    assert_eq!(frac.as_i64(), None);
    assert_eq!(s("7").as_u64(), None);
}

#[test]
fn str_member_is_needs_a_string_member_with_that_text() {
    let v = obj(vec![("status", s("settled")), ("n", Json::Number(JsonNumber::PosInt(1)))]);
    assert!(str_member_is(&v, "status", "settled"));
    assert!(!str_member_is(&v, "status", "offered"));
    assert!(!str_member_is(&v, "n", "1"));
    assert!(!str_member_is(&v, "missing", "settled"));
}

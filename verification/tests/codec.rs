use staff_users::envelope::{decode, encode, envelope_of_json, DecodeError, Envelope};
use staff_users::json::Json;
use staff_users::kafka_producer::{produce, Record, FLUSH_TIMEOUT_SECS, MESSAGE_TIMEOUT_MS};
use staff_users::resolver::{resolve, QueryOutcome, ResolveError, LOOKUP_STATEMENT};
use staff_users::transform::{created_by, transform, TransformError};

fn text(s: &str) -> Json {
    Json::Text(s.to_string())
}

fn value(json: Json) -> serde_json::Value {
    match json {
        Json::Null => serde_json::Value::Null,
        Json::Bool(b) => serde_json::Value::Bool(b),
        Json::Integer(i) => serde_json::Value::from(i),
        Json::Number(n) => serde_json::Value::Number(n),
        Json::Text(s) => serde_json::Value::String(s),
        Json::Array(items) => serde_json::Value::Array(items.into_iter().map(value).collect()),
        Json::Object(object) => serde_json::Value::Object(object),
    }
}

fn object(members: Vec<(&str, Json)>) -> Json {
    let mut object = serde_json::Map::new();
    for (name, member) in members {
        object.insert(name.to_string(), value(member));
    }
    Json::Object(object)
}

fn envelope(key: &str, payload: &str) -> Envelope {
    Envelope { key: key.to_string(), payload: payload.to_string() }
}

#[test]
fn encode_writes_compact_json() {
    let bytes = encode(&envelope("register_landlords", "{\"a\":1}"));
    assert_eq!(
        String::from_utf8(bytes).unwrap(),
        r#"{"key":"register_landlords","payload":"{\"a\":1}"}"#
    );
}

#[test]
fn decode_reads_an_envelope() {
    let bytes = br#" { "payload" : "{}", "extra": [1, 2.5, null], "key" : "post_get_user" } "#;
    assert_eq!(decode(bytes), Ok(envelope("post_get_user", "{}")));
}

#[test]
fn decode_rejects_what_is_not_utf8() {
    assert_eq!(decode(&[0x7b, 0xff, 0x7d]), Err(DecodeError::NotUtf8));
}

#[test]
fn decode_rejects_what_is_not_json() {
    assert_eq!(decode(b""), Err(DecodeError::NotJson));
    assert_eq!(decode(b"{\"key\":"), Err(DecodeError::NotJson));
    assert_eq!(decode(b"{\"key\":\"a\",\"payload\":\"b\"} x"), Err(DecodeError::NotJson));
}

#[test]
fn decode_rejects_a_frame_without_its_fields() {
    assert_eq!(decode(br#"{"key":"a"}"#), Err(DecodeError::MissingField));
    assert_eq!(decode(br#"{"payload":"a"}"#), Err(DecodeError::MissingField));
    assert_eq!(decode(br#"{"key":1,"payload":"a"}"#), Err(DecodeError::MissingField));
    assert_eq!(decode(br#"{"key":"a","payload":{}}"#), Err(DecodeError::MissingField));
    assert_eq!(decode(br#"["a","b"]"#), Err(DecodeError::MissingField));
    assert_eq!(decode(b"null"), Err(DecodeError::MissingField));
}

#[test]
fn decode_takes_the_last_of_repeated_members() {
    assert_eq!(decode(br#"{"key":"a","payload":"p","key":"b"}"#), Ok(envelope("b", "p")));
}

#[test]
fn envelope_round_trip() {
    let cases = [
        envelope("", ""),
        envelope("post_get_user", "{\"user_reg\":{\"createdby\":\"u-42\"}}"),
        envelope("quote\"back\\slash", "line\nbreak\ttab\u{0}\u{1f}"),
        envelope("ключ", "payload with é, 漢字 and \u{1F600}"),
        envelope("key", "payload"),
    ];
    for case in cases {
        assert_eq!(decode(&encode(&case)), Ok(case));
    }
}

#[test]
fn envelope_of_json_wants_two_strings() {
    let frame = object(vec![("key", text("k")), ("payload", text("p")), ("more", Json::Null)]);
    assert_eq!(envelope_of_json(&frame), Ok(envelope("k", "p")));
    let frame = object(vec![("key", text("k")), ("payload", Json::Bool(true))]);
    assert_eq!(envelope_of_json(&frame), Err(DecodeError::MissingField));
    assert_eq!(envelope_of_json(&Json::Array(vec![])), Err(DecodeError::MissingField));
}

#[test]
fn inner_reads_the_payload() {
    assert_eq!(
        envelope("k", "{\"a\":[1,\"b\"]}").inner(),
        Some(object(vec![("a", Json::Array(vec![Json::Integer(1), text("b")]))]))
    );
    assert_eq!(envelope("k", "not json").inner(), None);
    assert_eq!(envelope("k", "").inner(), None);
}

#[test]
fn produce_addresses_the_envelope() {
    let record = produce("register_landlords", "{}".to_string(), "response_user");
    assert_eq!(
        record,
        Record {
            topic: "response_user".to_string(),
            key: "key".to_string(),
            value: br#"{"key":"register_landlords","payload":"{}"}"#.to_vec(),
        }
    );
    assert_eq!(MESSAGE_TIMEOUT_MS, "5000");
    assert_eq!(FLUSH_TIMEOUT_SECS, 1);
}

#[test]
fn parse_reads_every_kind_of_value() {
    let parsed = Json::parse(r#"{"b":[true,null,-3,"x"],"a":{"n":18446744073709551615}}"#).unwrap();
    let big = serde_json::Number::from(u64::MAX);
    assert_eq!(
        parsed,
        object(vec![
            ("a", object(vec![("n", Json::Number(big))])),
            (
                "b",
                Json::Array(vec![Json::Bool(true), Json::Null, Json::Integer(-3), text("x")]),
            ),
        ])
    );
    assert_eq!(Json::parse("{"), None);
    assert_eq!(Json::parse("1 2"), None);
}

#[test]
fn to_text_writes_members_by_name() {
    let json = object(vec![
        ("b", Json::Integer(2)),
        ("a", Json::Array(vec![Json::Null, Json::Bool(false), text("é\"")])),
        ("b", Json::Integer(3)),
    ]);
    assert_eq!(json.to_text(), r#"{"a":[null,false,"é\""],"b":3}"#);
    assert_eq!(Json::Null.to_text(), "null");
}

#[test]
fn numbers_are_written_as_serde_json_writes_them() {
    let source = r#"{"f":1.50,"e":1e300,"i":-7,"u":18446744073709551615,"z":0.1}"#;
    let parsed = Json::parse(source).unwrap();
    assert_eq!(
        parsed.to_text(),
        r#"{"e":1e+300,"f":1.5,"i":-7,"u":18446744073709551615,"z":0.1}"#
    );
}

#[test]
fn reserved_name_is_a_member_only_where_an_object_is_asked_for() {
    let marker = "$serde_json::private::RawValue";
    let record = || object(vec![("$serde_json::private::RawValue", text("1"))]);
    let written = record().to_text();
    assert_eq!(written, r#"{"$serde_json::private::RawValue":"1"}"#);
    assert_eq!(Json::read_object(&written), Some(record()));
    assert_eq!(Json::parse(&written), Some(Json::Integer(1)));

    let two = || object(vec![(marker, text("1")), ("z", text("2"))]);
    assert_eq!(two().to_text(), r#"{"$serde_json::private::RawValue":"1","z":"2"}"#);
    assert_eq!(Json::read_object(&two().to_text()), Some(two()));
    assert_eq!(Json::parse(&two().to_text()), None);

    // Behind a smaller name the reserved one is a member like any other.
    let behind = object(vec![(marker, text("1")), ("", text("0"))]);
    assert_eq!(Json::parse(&behind.to_text()), Some(behind));
}

#[test]
fn text_records_are_read_back() {
    let cases = vec![
        object(vec![]),
        object(vec![("a", text(""))]),
        object(vec![("b", text("quote\" and \\ and \u{7f}")), ("a", text("é漢"))]),
        object(vec![("$", text("1")), ("$serde_json", text("2")), ("", text("3"))]),
        object(vec![("$serde_json::private::RawValue", text("[")), ("a", text("b"))]),
        object(vec![("$serde_json::private::Number", text("1"))]),
        object(vec![("key", text("k")), ("payload", text("{}"))]),
    ];
    for case in cases {
        let written = case.to_text();
        assert_eq!(Json::read_object(&written), Some(case));
    }
}

#[test]
fn read_object_wants_an_object() {
    assert_eq!(
        Json::read_object(r#" {"b":[1,{"c":null}],"a":"x","b":2} "#),
        Some(object(vec![("a", text("x")), ("b", Json::Integer(2))]))
    );
    assert_eq!(Json::read_object("{}"), Some(object(vec![])));
    assert_eq!(Json::read_object("[1]"), None);
    assert_eq!(Json::read_object("\"a\""), None);
    assert_eq!(Json::read_object("7"), None);
    assert_eq!(Json::read_object("{"), None);
    assert_eq!(Json::read_object("{} {}"), None);
    assert_eq!(Json::read_object(""), None);
}

#[test]
fn decode_takes_the_frame_as_the_text_spells_it() {
    let wrapped =
        br#"{"$serde_json::private::RawValue":"{\"key\":\"k\",\"payload\":\"p\"}"}"#;
    assert_eq!(decode(wrapped), Err(DecodeError::MissingField));
    let with_fields =
        br#"{"$serde_json::private::RawValue":"1","key":"k","payload":"p"}"#;
    assert_eq!(decode(with_fields), Ok(envelope("k", "p")));
}

#[test]
fn produced_record_decodes_to_its_envelope() {
    let payload = "{\"user_reg\":{\"createdby\":\"Ada\"}}";
    let record = produce("register_landlords", payload.to_string(), "response_user");
    assert_eq!(decode(&record.value), Ok(envelope("register_landlords", payload)));
    let record = produce("$serde_json::private::RawValue", "1".to_string(), "t");
    assert_eq!(decode(&record.value), Ok(envelope("$serde_json::private::RawValue", "1")));
}

#[test]
fn get_finds_the_member_of_a_name() {
    let json = object(vec![("a", Json::Integer(1)), ("b", Json::Null), ("a", Json::Integer(2))]);
    assert_eq!(json.get("a"), Some(Json::Integer(2)));
    assert_eq!(json.get("b"), Some(Json::Null));
    assert_eq!(json.get("c"), None);
    assert_eq!(json.get(""), None);
    assert_eq!(text("a").get("a"), None);
    assert_eq!(Json::Array(vec![Json::Null]).get("0"), None);
    let nested = object(vec![("outer", object(vec![("inner", text("x"))]))]);
    assert_eq!(nested.get("outer"), Some(object(vec![("inner", text("x"))])));
    assert_eq!(nested.get("inner"), None);
}

#[test]
fn as_text_reads_strings_only() {
    assert_eq!(text("abc").as_text(), Some("abc"));
    assert_eq!(Json::Integer(1).as_text(), None);
    assert_eq!(Json::Null.as_text(), None);
}

#[test]
fn created_by_reads_the_path() {
    let inner = object(vec![("user_reg", object(vec![("createdby", text("u-42"))]))]);
    assert_eq!(created_by(&inner), Ok("u-42".to_string()));
    assert_eq!(created_by(&object(vec![])), Err(TransformError::PathMissing));
    assert_eq!(
        created_by(&object(vec![("user_reg", object(vec![]))])),
        Err(TransformError::PathMissing)
    );
    assert_eq!(
        created_by(&object(vec![("user_reg", text("createdby"))])),
        Err(TransformError::PathMissing)
    );
    assert_eq!(
        created_by(&object(vec![("user_reg", object(vec![("createdby", Json::Null)]))])),
        Err(TransformError::TypeMismatch)
    );
    assert_eq!(created_by(&Json::Null), Err(TransformError::PathMissing));
}

#[test]
fn transform_overwrites_the_name_only() {
    let inner = object(vec![
        ("before", Json::Array(vec![Json::Integer(1), Json::Null])),
        (
            "user_reg",
            object(vec![("a", Json::Bool(true)), ("createdby", text("u-42")), ("role", text("admin"))]),
        ),
        ("z", object(vec![("createdby", text("kept"))])),
    ]);
    let expected = object(vec![
        ("before", Json::Array(vec![Json::Integer(1), Json::Null])),
        (
            "user_reg",
            object(vec![
                ("a", Json::Bool(true)),
                ("createdby", text("Ada Lovelace")),
                ("role", text("admin")),
            ]),
        ),
        ("z", object(vec![("createdby", text("kept"))])),
    ]);
    assert_eq!(transform(inner, "Ada Lovelace".to_string()), Ok(expected));
}

#[test]
fn transform_fails_as_created_by_does() {
    let name = || "Ada".to_string();
    assert_eq!(transform(Json::Null, name()), Err(TransformError::PathMissing));
    assert_eq!(transform(object(vec![]), name()), Err(TransformError::PathMissing));
    assert_eq!(
        transform(object(vec![("user_reg", Json::Array(vec![]))]), name()),
        Err(TransformError::PathMissing)
    );
    assert_eq!(
        transform(object(vec![("user_reg", object(vec![("role", text("x"))]))]), name()),
        Err(TransformError::PathMissing)
    );
    assert_eq!(
        transform(object(vec![("user_reg", object(vec![("createdby", Json::Integer(7))]))]), name()),
        Err(TransformError::TypeMismatch)
    );
}

#[test]
fn transform_changes_the_member_that_counts() {
    let inner = object(vec![
        ("user_reg", text("shadowed")),
        ("user_reg", object(vec![("createdby", Json::Null), ("createdby", text("u-1"))])),
    ]);
    let reply = transform(inner, "Ada".to_string()).unwrap();
    assert_eq!(created_by(&reply), Ok("Ada".to_string()));
    assert_eq!(reply.to_text(), r#"{"user_reg":{"createdby":"Ada"}}"#);
}

#[test]
fn resolve_wants_exactly_one_row() {
    assert_eq!(resolve(QueryOutcome::Rows(vec!["Ada Lovelace".to_string()])), Ok("Ada Lovelace".to_string()));
    assert_eq!(resolve(QueryOutcome::Rows(vec![])), Err(ResolveError::NotFound));
    assert_eq!(
        resolve(QueryOutcome::Rows(vec!["a".to_string(), "b".to_string()])),
        Err(ResolveError::Ambiguous)
    );
    assert_eq!(
        resolve(QueryOutcome::Rows(vec!["a".to_string(), "a".to_string(), "a".to_string()])),
        Err(ResolveError::Ambiguous)
    );
    assert_eq!(resolve(QueryOutcome::Failed), Err(ResolveError::Unavailable));
    assert_eq!(LOOKUP_STATEMENT, "SELECT name FROM staff_users WHERE user_id = $1");
}

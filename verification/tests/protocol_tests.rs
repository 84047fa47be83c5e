use ebook_transfer::json::{json_text, parse_json, str_eq, Json, JsonNumber};
use ebook_transfer::protocol::{
    cancel_payload, chunk_payload, classify_message, payload_text, start_payload, DeviceMessage,
};

fn s(x: &str) -> Json {
    Json::Str(x.to_string())
}

fn n(x: u64) -> Json {
    Json::Number(JsonNumber::PosInt(x))
}

fn obj(members: Vec<(&str, Json)>) -> Json {
    Json::Object(members.into_iter().map(|(k, v)| (k.to_string(), v)).collect())
}

#[test]
fn str_eq_compares_characters() {
    assert!(str_eq("file", "file"));
    assert!(!str_eq("file", "files"));
    assert!(!str_eq("中", "文"));
    assert!(str_eq("", ""));
}

#[test]
fn json_accessors() {
    let v = obj(vec![("a", n(1)), ("b", s("x")), ("c", Json::Bool(true))]);
    assert_eq!(v.get("a").and_then(|x| x.as_u64()), Some(1));
    assert_eq!(v.get("b").and_then(|x| x.as_str()), Some("x"));
    assert_eq!(v.get("c").and_then(|x| x.as_bool()), Some(true));
    assert!(v.get("d").is_none());
    assert!(s("x").get("a").is_none());
    assert_eq!(Json::Number(JsonNumber::NegInt(-1)).as_u64(), None);
    assert_eq!(Json::Float("1.5".to_string()).as_u64(), None);
    assert!(v.is_object());
    assert!(!n(3).is_object());
}

#[test]
fn ready_message_is_read() {
    let v = obj(vec![
        ("tag", s("file")),
        ("type", s("ready")),
        ("found", Json::Bool(true)),
        ("usage", n(100)),
        ("length", n(40_000)),
    ]);
    assert_eq!(
        classify_message(&v),
        DeviceMessage::Ready { found: true, usage: 100, length: 40_000 }
    );
}

#[test]
fn ready_message_defaults_missing_fields() {
    let v = obj(vec![("tag", s("file")), ("stat", s("ready")), ("usage", s("lots"))]);
    assert_eq!(
        classify_message(&v),
        DeviceMessage::Ready { found: false, usage: 0, length: 0 }
    );
}

#[test]
fn tag_and_fields_inside_data() {
    let v = obj(vec![("data", obj(vec![("tag", s("file")), ("stat", s("next")), ("count", n(3))]))]);
    assert_eq!(classify_message(&v), DeviceMessage::Next { count: 3 });
}

#[test]
fn data_that_is_no_object_leaves_fields_on_the_message() {
    let v = obj(vec![("tag", s("file")), ("data", n(5)), ("stat", s("error")), ("count", n(7))]);
    assert_eq!(classify_message(&v), DeviceMessage::Error { count: 7 });
}

#[test]
fn type_wins_over_stat_even_when_not_a_string() {
    let v = obj(vec![("tag", s("file")), ("type", n(1)), ("stat", s("success"))]);
    assert_eq!(classify_message(&v), DeviceMessage::Ignored);
    let v = obj(vec![("tag", s("file")), ("type", s("cancel")), ("stat", s("success"))]);
    assert_eq!(classify_message(&v), DeviceMessage::Cancel);
}

#[test]
fn success_and_cancel_messages() {
    assert_eq!(
        classify_message(&obj(vec![("tag", s("file")), ("stat", s("success"))])),
        DeviceMessage::Success
    );
    assert_eq!(
        classify_message(&obj(vec![("tag", s("file")), ("stat", s("cancel"))])),
        DeviceMessage::Cancel
    );
}

#[test]
fn error_without_count_asks_for_chunk_zero() {
    assert_eq!(
        classify_message(&obj(vec![("tag", s("file")), ("stat", s("error"))])),
        DeviceMessage::Error { count: 0 }
    );
}

#[test]
fn other_messages_are_ignored() {
    assert_eq!(classify_message(&n(1)), DeviceMessage::Ignored);
    assert_eq!(classify_message(&obj(vec![("stat", s("next"))])), DeviceMessage::Ignored);
    assert_eq!(
        classify_message(&obj(vec![("tag", s("chat")), ("stat", s("next"))])),
        DeviceMessage::Ignored
    );
    assert_eq!(
        classify_message(&obj(vec![("tag", s("file")), ("stat", s("pause"))])),
        DeviceMessage::Ignored
    );
    assert_eq!(classify_message(&obj(vec![("tag", s("file"))])), DeviceMessage::Ignored);
}

#[test]
fn own_tag_that_is_no_string_falls_back_to_data_tag() {
    let v = obj(vec![
        ("tag", n(9)),
        ("data", obj(vec![("tag", s("file")), ("type", s("success"))])),
    ]);
    assert_eq!(classify_message(&v), DeviceMessage::Success);
}

#[test]
fn payload_text_is_read() {
    let v = obj(vec![("payloadText", s("{\"tag\":\"file\"}"))]);
    assert_eq!(payload_text(&v), Some("{\"tag\":\"file\"}".to_string()));
    assert_eq!(payload_text(&obj(vec![("payloadText", n(1))])), None);
    assert_eq!(payload_text(&s("x")), None);
}

#[test]
fn start_payload_fields() {
    let p = start_payload("book.txt", 3, 32_768, 70_000);
    assert_eq!(
        p,
        obj(vec![
            ("tag", s("file")),
            ("stat", s("startTransfer")),
            ("filename", s("book.txt")),
            ("total", n(3)),
            ("chunkSize", n(32_768)),
            ("size", n(70_000)),
        ])
    );
}

#[test]
fn cancel_payload_fields() {
    assert_eq!(cancel_payload(), obj(vec![("tag", s("file")), ("stat", s("cancel"))]));
}

#[test]
fn chunk_payload_fields() {
    assert_eq!(
        chunk_payload(2, "abc", false),
        obj(vec![
            ("tag", s("file")),
            ("stat", s("d")),
            ("count", n(2)),
            ("data", s("abc")),
            ("setCount", Json::Null),
        ])
    );
    assert_eq!(
        chunk_payload(2, "abc", true),
        obj(vec![
            ("tag", s("file")),
            ("stat", s("d")),
            ("count", n(2)),
            ("data", s("abc")),
            ("setCount", n(2)),
        ])
    );
}

#[test]
fn json_text_is_read() {
    assert_eq!(
        parse_json("{\"tag\":\"file\",\"count\":3,\"neg\":-2,\"x\":1.5,\"l\":[true,null]}"),
        Some(obj(vec![
            ("count", n(3)),
            ("l", Json::Array(vec![Json::Bool(true), Json::Null])),
            ("neg", Json::Number(JsonNumber::NegInt(-2))),
            ("tag", s("file")),
            ("x", Json::Float("1.5".to_string())),
        ]))
    );
    assert_eq!(parse_json("not json"), None);
    assert_eq!(parse_json(""), None);
}

#[test]
fn json_is_written_compactly() {
    assert_eq!(json_text(&obj(vec![("tag", s("file")), ("stat", s("cancel"))])), "{\"stat\":\"cancel\",\"tag\":\"file\"}");
    assert_eq!(json_text(&Json::Float("2.5".to_string())), "2.5");
    assert_eq!(json_text(&Json::Array(vec![n(1), Json::Null])), "[1,null]");
    let p = chunk_payload(0, "中\"", true);
    assert_eq!(parse_json(&json_text(&p)), Some(obj(vec![
        ("count", n(0)),
        ("data", s("中\"")),
        ("setCount", n(0)),
        ("stat", s("d")),
        ("tag", s("file")),
    ])));
}

use vstd::prelude::*;

use crate::json::{opt_str, str_eq, Json, JsonNumber, JsonView};

verus! {

/// What a message from the device asks the sender to do.
#[derive(PartialEq, Eq, Structural, Clone, Copy, Debug)]
pub enum DeviceMessage {
    /// The device is ready; `found` tells whether it holds part of the file
    /// already (`length` bytes of it), `usage` how much storage it uses.
    Ready { found: bool, usage: u64, length: u64 },
    /// The device wants chunk `count`.
    Next { count: usize },
    /// The device lost chunk `count` and wants it again.
    Error { count: usize },
    /// The device has the whole file.
    Success,
    /// The device stopped the transfer.
    Cancel,
    /// Anything else: not a file-transfer message, or one of an unknown kind.
    Ignored,
}

/// The `tag` of a message: its own, or else the one inside its `data`.
pub open spec fn message_tag(value: JsonView) -> Option<Seq<char>> {
    match opt_str(value.get("tag"@)) {
        Some(t) => Some(t),
        None => match value.get("data"@) {
            Some(d) => opt_str(d.get("tag"@)),
            None => None,
        },
    }
}

/// The object that carries the fields of a message: its `data` member when
/// that is an object, else the message itself.
pub open spec fn message_data(value: JsonView) -> JsonView {
    match value.get("data"@) {
        Some(d) => if d is Object {
            d
        } else {
            value
        },
        None => value,
    }
}

/// The kind of a message: the `type` member of its data, or `stat` when it
/// has no `type`; empty when that member is missing or not a string.
pub open spec fn message_kind(data: JsonView) -> Seq<char> {
    let field = match data.get("type"@) {
        Some(t) => Some(t),
        None => data.get("stat"@),
    };
    match opt_str(field) {
        Some(s) => s,
        None => Seq::empty(),
    }
}

/// Member `key` read as a `u64`, 0 when it is missing or of another kind.
pub open spec fn field_u64(data: JsonView, key: Seq<char>) -> u64 {
    match data.get(key) {
        Some(v) => match v.as_u64() {
            Some(n) => n,
            None => 0,
        },
        None => 0,
    }
}

/// Member `key` read as a `bool`, false when it is missing or of another kind.
pub open spec fn field_bool(data: JsonView, key: Seq<char>) -> bool {
    match data.get(key) {
        Some(v) => match v.as_bool() {
            Some(b) => b,
            None => false,
        },
        None => false,
    }
}

/// The message that a decoded device payload carries.
pub open spec fn spec_classify(value: JsonView) -> DeviceMessage {
    if !(value is Object) {
        DeviceMessage::Ignored
    } else {
        match message_tag(value) {
            None => DeviceMessage::Ignored,
            Some(tag) => if tag != "file"@ {
                DeviceMessage::Ignored
            } else {
                let data = message_data(value);
                let kind = message_kind(data);
                if kind == "ready"@ {
                    DeviceMessage::Ready {
                        found: field_bool(data, "found"@),
                        usage: field_u64(data, "usage"@),
                        length: field_u64(data, "length"@),
                    }
                } else if kind == "next"@ {
                    DeviceMessage::Next { count: field_u64(data, "count"@) as usize }
                } else if kind == "error"@ {
                    DeviceMessage::Error { count: field_u64(data, "count"@) as usize }
                } else if kind == "success"@ {
                    DeviceMessage::Success
                } else if kind == "cancel"@ {
                    DeviceMessage::Cancel
                } else {
                    DeviceMessage::Ignored
                }
            },
        }
    }
}

/// A chunk request (`next` or `error`) names its chunk in the same object
/// that names its kind: when the message wraps its fields in a `data`
/// object of tag `file`, the chunk is that object's `count`.
pub proof fn lemma_wrapped_request_counts_from_data(value: JsonView, data: JsonView, kind: Seq<char>, c: u64)
    requires
        (value is Object),
        (value.get("tag"@) is None),
        value.get("data"@) == Some(data),
        (data is Object),
        data.get("tag"@) == Some(JsonView::Str("file"@)),
        data.get("type"@) == Some(JsonView::Str(kind)),
        data.get("count"@) == Some(JsonView::Number(JsonNumber::PosInt(c))),
        kind == "next"@ || kind == "error"@,
    ensures
        kind == "next"@ ==> spec_classify(value) == (DeviceMessage::Next { count: c as usize }),
        kind == "error"@ ==> spec_classify(value) == (DeviceMessage::Error { count: c as usize }),
{
    reveal_strlit("next");
    reveal_strlit("error");
    reveal_strlit("ready");
    reveal_strlit("file");
    assert("next"@[0] != "ready"@[0]);
    assert("error"@[0] != "ready"@[0]);
    assert("error"@ != "next"@);
}

/// The same for a message that carries its fields itself: its own `count`
/// names the chunk.
pub proof fn lemma_plain_request_counts_from_message(value: JsonView, kind: Seq<char>, c: u64)
    requires
        (value is Object),
        value.get("tag"@) == Some(JsonView::Str("file"@)),
        (value.get("data"@) is None),
        value.get("type"@) == Some(JsonView::Str(kind)),
        value.get("count"@) == Some(JsonView::Number(JsonNumber::PosInt(c))),
        kind == "next"@ || kind == "error"@,
    ensures
        kind == "next"@ ==> spec_classify(value) == (DeviceMessage::Next { count: c as usize }),
        kind == "error"@ ==> spec_classify(value) == (DeviceMessage::Error { count: c as usize }),
{
    reveal_strlit("next");
    reveal_strlit("error");
    reveal_strlit("ready");
    assert("next"@[0] != "ready"@[0]);
    assert("error"@[0] != "ready"@[0]);
    assert("error"@ != "next"@);
}

/// The text of the `payloadText` member, in which the host may wrap the
/// device's own JSON message.
pub open spec fn spec_payload_text(parsed: JsonView) -> Option<Seq<char>> {
    opt_str(parsed.get("payloadText"@))
}

/// The message to act on: the wrapped message when `parsed` wraps one that
/// parses (`inner`), else `parsed` itself.
pub open spec fn spec_message_value(parsed: JsonView, inner: Option<JsonView>) -> JsonView {
    match spec_payload_text(parsed) {
        Some(_) => match inner {
            Some(v) => v,
            None => parsed,
        },
        None => parsed,
    }
}

/// The `payloadText` member of a parsed payload, when it is a string.
pub fn payload_text(parsed: &Json) -> (r: Option<String>)
    ensures
        match r {
            Some(s) => spec_payload_text(parsed@) == Some(s@),
            None => spec_payload_text(parsed@) is None,
        },
{
    match parsed.get("payloadText") {
        Some(v) => match v.as_str() {
            Some(s) => Some(s.to_owned()),
            None => None,
        },
        None => None,
    }
}

fn field_u64_exec(data: &Json, key: &str) -> (r: u64)
    ensures
        r == field_u64(data@, key@),
{
    match data.get(key) {
        Some(v) => match v.as_u64() {
            Some(n) => n,
            None => 0,
        },
        None => 0,
    }
}

fn field_bool_exec(data: &Json, key: &str) -> (r: bool)
    ensures
        r == field_bool(data@, key@),
{
    match data.get(key) {
        Some(v) => match v.as_bool() {
            Some(b) => b,
            None => false,
        },
        None => false,
    }
}

/// `n` as a `usize`, cut to the platform's width as `as` does.
#[verifier::truncate]
pub(crate) fn u64_to_usize(n: u64) -> (r: usize)
    ensures
        r == n as usize,
{
    n as usize
}

/// Reads what a device message asks for.
pub fn classify_message(value: &Json) -> (r: DeviceMessage)
    ensures
        r == spec_classify(value@),
{
    if !value.is_object() {
        return DeviceMessage::Ignored;
    }
    let own_tag = match value.get("tag") {
        Some(t) => t.as_str(),
        None => None,
    };
    let tag = match own_tag {
        Some(t) => Some(t),
        None => match value.get("data") {
            Some(d) => match d.get("tag") {
                Some(t) => t.as_str(),
                None => None,
            },
            None => None,
        },
    };
    let tag = match tag {
        Some(t) => t,
        None => return DeviceMessage::Ignored,
    };
    if !str_eq(tag, "file") {
        return DeviceMessage::Ignored;
    }
    let data = match value.get("data") {
        Some(d) => if d.is_object() {
            d
        } else {
            value
        },
        None => value,
    };
    let field = match data.get("type") {
        Some(t) => Some(t),
        None => data.get("stat"),
    };
    let kind = match field {
        Some(f) => match f.as_str() {
            Some(s) => s,
            None => "",
        },
        None => "",
    };
    proof {
        reveal_strlit("");
        assert(value@ is Object);
        assert(message_tag(value@) == Some(tag@));
        assert(tag@ == "file"@);
        assert(data@ == message_data(value@));
        assert(kind@ == message_kind(data@));
    }
    if str_eq(kind, "ready") {
        DeviceMessage::Ready {
            found: field_bool_exec(data, "found"),
            usage: field_u64_exec(data, "usage"),
            length: field_u64_exec(data, "length"),
        }
    } else if str_eq(kind, "next") {
        DeviceMessage::Next { count: u64_to_usize(field_u64_exec(data, "count")) }
    } else if str_eq(kind, "error") {
        DeviceMessage::Error { count: u64_to_usize(field_u64_exec(data, "count")) }
    } else if str_eq(kind, "success") {
        DeviceMessage::Success
    } else if str_eq(kind, "cancel") {
        DeviceMessage::Cancel
    } else {
        DeviceMessage::Ignored
    }
}

/// A string member.
pub open spec fn text_member(key: Seq<char>, value: Seq<char>) -> (Seq<char>, JsonView) {
    (key, JsonView::Str(value))
}

/// An unsigned number member.
pub open spec fn number_member(key: Seq<char>, value: u64) -> (Seq<char>, JsonView) {
    (key, JsonView::Number(JsonNumber::PosInt(value)))
}

/// The message that opens a transfer of `file_name` (`size` bytes) in
/// `total` chunks of `chunk_size` bytes.
pub open spec fn spec_start_payload(file_name: Seq<char>, total: usize, chunk_size: usize, size: usize) -> JsonView {
    JsonView::Object(
        seq![
            text_member("tag"@, "file"@),
            text_member("stat"@, "startTransfer"@),
            text_member("filename"@, file_name),
            number_member("total"@, total as u64),
            number_member("chunkSize"@, chunk_size as u64),
            number_member("size"@, size as u64),
        ],
    )
}

/// The message that stops a transfer.
pub open spec fn spec_cancel_payload() -> JsonView {
    JsonView::Object(seq![text_member("tag"@, "file"@), text_member("stat"@, "cancel"@)])
}

/// The message that carries chunk `count`; a resent chunk also names its
/// index in `setCount`.
pub open spec fn spec_chunk_payload(count: usize, data: Seq<char>, is_resend: bool) -> JsonView {
    JsonView::Object(
        seq![
            text_member("tag"@, "file"@),
            text_member("stat"@, "d"@),
            number_member("count"@, count as u64),
            text_member("data"@, data),
            (
                "setCount"@,
                if is_resend {
                    JsonView::Number(JsonNumber::PosInt(count as u64))
                } else {
                    JsonView::Null
                },
            ),
        ],
    )
}

fn text_entry(key: &str, value: &str) -> (r: (String, Json))
    ensures
        (r.0@, r.1@) == text_member(key@, value@),
{
    (key.to_owned(), Json::Str(value.to_owned()))
}

fn number_entry(key: &str, value: usize) -> (r: (String, Json))
    ensures
        (r.0@, r.1@) == number_member(key@, value as u64),
{
    (key.to_owned(), Json::Number(JsonNumber::PosInt(value as u64)))
}

proof fn lemma_object_view(members: Vec<(String, Json)>, expected: Seq<(Seq<char>, JsonView)>)
    requires
        members@.len() == expected.len(),
        forall|i: int| 0 <= i < expected.len() ==> (#[trigger] members@[i].0@, members@[i].1@) == expected[i],
    ensures
        Json::Object(members)@ == JsonView::Object(expected),
{
    let v = Json::Object(members)@;
    assert(v->Object_0 =~= expected);
}

/// Builds the message that opens a transfer.
pub fn start_payload(file_name: &str, total: usize, chunk_size: usize, size: usize) -> (r: Json)
    ensures
        r@ == spec_start_payload(file_name@, total, chunk_size, size),
{
    let members = vec![
        text_entry("tag", "file"),
        text_entry("stat", "startTransfer"),
        text_entry("filename", file_name),
        number_entry("total", total),
        number_entry("chunkSize", chunk_size),
        number_entry("size", size),
    ];
    proof {
        lemma_object_view(members, spec_start_payload(file_name@, total, chunk_size, size)->Object_0);
    }
    Json::Object(members)
}

/// Builds the message that stops a transfer.
pub fn cancel_payload() -> (r: Json)
    ensures
        r@ == spec_cancel_payload(),
{
    let members = vec![text_entry("tag", "file"), text_entry("stat", "cancel")];
    proof {
        lemma_object_view(members, spec_cancel_payload()->Object_0);
    }
    Json::Object(members)
}

/// Builds the message that carries chunk `count`.
pub fn chunk_payload(count: usize, data: &str, is_resend: bool) -> (r: Json)
    ensures
        r@ == spec_chunk_payload(count, data@, is_resend),
{
    let set_count = if is_resend {
        Json::Number(JsonNumber::PosInt(count as u64))
    } else {
        Json::Null
    };
    let members = vec![
        text_entry("tag", "file"),
        text_entry("stat", "d"),
        number_entry("count", count),
        text_entry("data", data),
        ("setCount".to_owned(), set_count),
    ];
    proof {
        lemma_object_view(members, spec_chunk_payload(count, data@, is_resend)->Object_0);
    }
    Json::Object(members)
}

} // verus!

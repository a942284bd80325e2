//! The four envelope kinds carried on a connection.

use vstd::prelude::*;

use crate::clock::fresh_id;
use crate::json::JsonValue;
use crate::text::owned;

verus! {

/// One frame on the wire: exactly one of the four kinds.
#[derive(Debug)]
pub enum AppMessage {
    Request(Request),
    Response(Response),
    Event(Event),
    Stream(Stream),
}

/// Raw bytes tagged by purpose (`"record"`, `"play"`), with optional
/// structured data.
#[derive(Debug)]
pub struct Stream {
    pub id: String,
    pub tag: String,
    pub bytes: Vec<u8>,
    pub data: Option<JsonValue>,
}

/// A fire-and-forget notification.
#[derive(Debug)]
pub struct Event {
    pub id: String,
    pub name: String,
    pub data: JsonValue,
}

/// A call of the named remote command.
#[derive(Debug)]
pub struct Request {
    pub id: String,
    pub method: String,
    pub params: JsonValue,
}

/// The answer to the request whose id it carries.
#[derive(Debug)]
pub struct Response {
    pub id: String,
    pub data: JsonValue,
}

/// Whether `data` is the payload of a failed call carrying `message`: an
/// object whose `status` is `"error"` and whose `error` is the message.
pub open spec fn is_error_payload(data: JsonValue, message: Seq<char>) -> bool {
    &&& data.str_field("status"@) == Some("error"@)
    &&& data.str_field("error"@) == Some(message)
}

/// Whether `data` reports plain success: `status` is `"success"`.
pub open spec fn is_success_payload(data: JsonValue) -> bool {
    data.str_field("status"@) == Some("success"@)
}

impl Stream {
    /// A stream frame with a fresh id.
    pub fn new(tag: &str, bytes: Vec<u8>, data: Option<JsonValue>) -> (r: Self)
        ensures
            r.id@.len() == 36,
            r.tag@ == tag@,
            r.bytes@ == bytes@,
            r.data == data,
    {
        Stream { id: fresh_id(), tag: owned(tag), bytes, data }
    }
}

impl Event {
    /// An event with a fresh id.
    pub fn new(name: &str, data: JsonValue) -> (r: Self)
        ensures
            r.id@.len() == 36,
            r.name@ == name@,
            r.data == data,
    {
        Event { id: fresh_id(), name: owned(name), data }
    }
}

impl Request {
    /// A request with a fresh id.
    pub fn new(method: &str, params: JsonValue) -> (r: Self)
        ensures
            r.id@.len() == 36,
            r.method@ == method@,
            r.params == params,
    {
        Request { id: fresh_id(), method: owned(method), params }
    }
}

impl Response {
    /// The response carrying `data` for the request `id`.
    pub fn new(id: &str, data: JsonValue) -> (r: Self)
        ensures
            r.id@ == id@,
            r.data == data,
    {
        Response { id: owned(id), data }
    }

    /// A plain success answer, `{"status": "success"}`, under a fresh id.
    pub fn success() -> (r: Self)
        ensures
            r.id@.len() == 36,
            is_success_payload(r.data),
            r.data matches JsonValue::Object(fields) && fields@.len() == 1,
    {
        let data = JsonValue::object1("status", JsonValue::string("success"));
        Response { id: fresh_id(), data }
    }

    /// An answer carrying `data` under a fresh id; the caller that answers a
    /// request puts the request's id in its place.
    pub fn from_data(data: JsonValue) -> (r: Self)
        ensures
            r.id@.len() == 36,
            r.data == data,
    {
        Response { id: fresh_id(), data }
    }

    /// The error answer for request `id`:
    /// `{"error": message, "status": "error"}`.
    pub fn from_error(id: &str, message: &str) -> (r: Self)
        ensures
            r.id@ == id@,
            is_error_payload(r.data, message@),
            r.data matches JsonValue::Object(fields) && fields@.len() == 2,
    {
        let mut fields: Vec<(String, JsonValue)> = Vec::new();
        fields.push((owned("error"), JsonValue::string(message)));
        fields.push((owned("status"), JsonValue::string("error")));
        let data = JsonValue::Object(fields);
        assert(data.str_field("status"@) == Some("error"@)) by {
            reveal_with_fuel(crate::json::field_of, 3);
            reveal_strlit("error");
            reveal_strlit("status");
            assert("error"@ != "status"@) by {
                assert("error"@[0] != "status"@[0]);
            }
            assert(fields@.drop_first()[0] == fields@[1]);
        }
        assert(data.str_field("error"@) == Some(message@));
        Response { id: owned(id), data }
    }
}

} // verus!

use open_xiaoai::data::{Event, Request, Response, Stream};
use open_xiaoai::json::JsonValue;

#[test]
fn fresh_ids_are_hyphenated_uuids_and_distinct() {
    let a = Request::new("get_version", JsonValue::Null);
    let b = Request::new("get_version", JsonValue::Null);
    assert_eq!(a.id.len(), 36);
    assert_eq!(a.id.matches('-').count(), 4);
    assert_ne!(a.id, b.id);
    assert_eq!(a.method, "get_version");
}

#[test]
fn success_response_shape() {
    let r = Response::success();
    assert_eq!(r.data.get("status").and_then(|v| v.as_str()), Some(&"success".to_string()));
}

#[test]
fn error_response_shape() {
    let r = Response::from_error("id-1", "bad input");
    assert_eq!(r.id, "id-1");
    assert_eq!(r.data.get("status").and_then(|v| v.as_str()), Some(&"error".to_string()));
    assert_eq!(r.data.get("error").and_then(|v| v.as_str()), Some(&"bad input".to_string()));
    assert!(r.data.get("missing").is_none());
}

#[test]
fn stream_keeps_bytes_and_tag() {
    let s = Stream::new("play", vec![0, 255, 7], None);
    assert_eq!(s.tag, "play");
    assert_eq!(s.bytes, vec![0, 255, 7]);
    assert!(s.data.is_none());
    let e = Stream::new("record", Vec::new(), Some(JsonValue::Bool(true)));
    assert!(e.bytes.is_empty());
    let ev = Event::new("kws", JsonValue::Null);
    assert_eq!(ev.name, "kws");
}

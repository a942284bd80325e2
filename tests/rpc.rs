use open_xiaoai::data::{AppMessage, Event, Request, Response, Stream};
use open_xiaoai::json::JsonValue;
use open_xiaoai::message::{call_timeout_ms, ConnError, ConnState, Inbound, MessageManager};
use open_xiaoai::rpc::{finish_call, CommandRegistry, PendingCalls};
use open_xiaoai::task::TaskManager;

fn status(r: &Response) -> Option<String> {
    r.data.get("status").and_then(|v| v.as_str()).cloned()
}

fn error_text(r: &Response) -> Option<String> {
    r.data.get("error").and_then(|v| v.as_str()).cloned()
}

type Manager = MessageManager<u32, &'static str, u8, u8>;

fn connected() -> Manager {
    let mut m = Manager::new();
    m.init();
    m
}

fn reply(id: &str) -> AppMessage {
    AppMessage::Response(Response::new(id, JsonValue::string(id)))
}

#[test]
fn responses_reach_their_own_callers_in_any_order() {
    let mut m = connected();
    let reqs: Vec<Request> = (0..3).map(|_| Request::new("get_version", JsonValue::Null)).collect();
    for (i, r) in reqs.iter().enumerate() {
        assert!(m.begin_call(r, i as u32).is_ok());
    }
    for &i in &[2usize, 0, 1] {
        match m.on_frame(reply(&reqs[i].id)) {
            Inbound::Deliver(w, resp) => {
                assert_eq!(w, i as u32);
                assert_eq!(resp.id, reqs[i].id);
            }
            _ => panic!("response not delivered"),
        }
    }
}

#[test]
fn late_response_after_timeout_is_stale() {
    let mut m = connected();
    let r = Request::new("run_shell", JsonValue::string("ls"));
    assert!(m.begin_call(&r, 7).is_ok());
    assert_eq!(m.expire(&r.id), Some(7));
    assert!(matches!(m.on_frame(reply(&r.id)), Inbound::Stale(_)));
    assert_eq!(m.expire(&r.id), None);
}

#[test]
fn dispose_fails_every_pending_call_once() {
    let mut m = connected();
    let reqs: Vec<Request> = (0..4).map(|_| Request::new("start_play", JsonValue::Null)).collect();
    for (i, r) in reqs.iter().enumerate() {
        assert!(m.begin_call(r, i as u32).is_ok());
    }
    let failed = m.dispose();
    assert_eq!(failed.len(), 4);
    let mut waiters: Vec<u32> = failed.iter().map(|p| p.1).collect();
    waiters.sort();
    assert_eq!(waiters, vec![0, 1, 2, 3]);
    assert_eq!(m.state(), ConnState::Disposing);
    assert!(m.dispose().is_empty());
    m.finish_dispose();
    assert_eq!(m.state(), ConnState::Idle);
}

#[test]
fn unknown_method_gets_error_response() {
    let mut m = connected();
    m.add_command("get_version", "version");
    let req = Request::new("reboot", JsonValue::Null);
    let id = req.id.clone();
    match m.on_frame(AppMessage::Request(req)) {
        Inbound::Answer(resp) => {
            assert_eq!(resp.id, id);
            assert_eq!(status(&resp), Some("error".to_string()));
            assert_eq!(error_text(&resp), Some("Unknown method: reboot".to_string()));
        }
        _ => panic!("unknown method was not answered"),
    }
}

#[test]
fn registered_method_is_called() {
    let mut m = connected();
    m.add_command("get_version", "first");
    m.add_command("get_version", "second");
    assert_eq!(m.command("get_version"), Some(&"second"));
    let req = Request::new("get_version", JsonValue::Null);
    match m.on_frame(AppMessage::Request(req)) {
        Inbound::Call(r) => assert_eq!(r.method, "get_version"),
        _ => panic!("registered method not called"),
    }
}

#[test]
fn sends_fail_when_not_connected() {
    let mut m = Manager::new();
    assert_eq!(m.check_send().err(), Some(ConnError::NotConnected));
    let r = Request::new("x", JsonValue::Null);
    match m.begin_call(&r, 1) {
        Err((e, w)) => {
            assert_eq!(e, ConnError::NotConnected);
            assert_eq!(w, 1);
        }
        Ok(()) => panic!("call accepted while idle"),
    }
    m.init();
    assert!(m.check_send().is_ok());
}

#[test]
fn duplicate_call_id_is_refused() {
    let mut m = connected();
    let r = Request::new("x", JsonValue::Null);
    assert!(m.begin_call(&r, 1).is_ok());
    assert!(matches!(m.begin_call(&r, 2), Err((ConnError::IdInUse, 2))));
}

#[test]
fn events_and_streams_need_a_handler() {
    let mut m = connected();
    let ev = Event::new("playing", JsonValue::Null);
    assert!(matches!(m.on_frame(AppMessage::Event(ev)), Inbound::Ignored));
    m.set_event_handler(1);
    let ev = Event::new("playing", JsonValue::Null);
    assert!(matches!(m.on_frame(AppMessage::Event(ev)), Inbound::Event(_)));
    let st = Stream::new("record", vec![], None);
    assert!(matches!(m.on_frame(AppMessage::Stream(st)), Inbound::Ignored));
    m.set_stream_handler(2);
    let st = Stream::new("record", vec![1, 2], None);
    match m.on_frame(AppMessage::Stream(st)) {
        Inbound::Stream(s) => assert_eq!(s.bytes, vec![1, 2]),
        _ => panic!("stream not handed over"),
    }
    m.dispose();
    assert!(m.event_handler().is_none());
    assert!(m.stream_handler().is_none());
}

#[test]
fn handler_failure_becomes_error_response() {
    let ok = finish_call("abc", Ok(Response::from_data(JsonValue::string("1.0"))));
    assert_eq!(ok.id, "abc");
    assert_eq!(ok.data.as_str(), Some(&"1.0".to_string()));
    let bad = finish_call("abc", Err("boom".to_string()));
    assert_eq!(bad.id, "abc");
    assert_eq!(status(&bad), Some("error".to_string()));
    assert_eq!(error_text(&bad), Some("boom".to_string()));
}

#[test]
fn default_call_timeout() {
    assert_eq!(call_timeout_ms(None), 30_000);
    assert_eq!(call_timeout_ms(Some(5)), 5);
}

#[test]
fn pending_table_operations() {
    let mut p: PendingCalls<u8> = PendingCalls::new();
    assert!(p.register("a".to_string(), 1).is_ok());
    assert_eq!(p.register("a".to_string(), 2), Err(2));
    assert!(p.is_pending("a"));
    assert_eq!(p.fulfill("a"), Some(1));
    assert_eq!(p.fulfill("a"), None);
    assert!(p.fail_all().is_empty());
}

#[test]
fn command_registry_dispatch() {
    let mut c: CommandRegistry<u8> = CommandRegistry::new();
    c.add_command("start_recording", 1);
    let req = Request::new("start_recording", JsonValue::Null);
    assert_eq!(c.dispatch(&req).ok(), Some(&1));
    c.clear();
    assert!(c.dispatch(&req).is_err());
}

#[test]
fn task_manager_keeps_first_and_disposes() {
    let mut t: TaskManager<u8> = TaskManager::new();
    assert_eq!(t.add("watch", 1), None);
    assert_eq!(t.add("watch", 2), Some(2));
    assert!(t.contains("watch"));
    assert_eq!(t.dispose("watch"), Some(1));
    assert_eq!(t.dispose("watch"), None);
    assert_eq!(t.add("a", 3), None);
    assert_eq!(t.add("b", 4), None);
    assert_eq!(t.dispose_all().len(), 2);
    assert!(!t.contains("a"));
}

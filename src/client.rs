//! What the HTTP-polling and language-model clients compute: addresses,
//! request methods, the events they post, and the answers they pick out of
//! replies. Sending and waiting are left to the caller.

use vstd::prelude::*;
use vstd::string::*;

use crate::clock::fresh_id;
use crate::data::{Event, Response};
use crate::json::JsonValue;
use crate::text::{owned, str_eq};

verus! {

/// The address of a server with any trailing `/` removed.
pub open spec fn trim_trailing_slashes(s: Seq<char>) -> Seq<char>
    decreases s.len(),
{
    if s.len() > 0 && s.last() == '/' {
        trim_trailing_slashes(s.drop_last())
    } else {
        s
    }
}

/// Removes every trailing `/` from a server address.
pub fn normalize_base_url(url: &str) -> (r: String)
    ensures
        r@ == trim_trailing_slashes(url@),
{
    let mut n = url.unicode_len();
    assert(url@.subrange(0, n as int) =~= url@);
    while n > 0 && url.get_char(n - 1) == '/'
        invariant
            n <= url@.len(),
            trim_trailing_slashes(url@) == trim_trailing_slashes(url@.subrange(0, n as int)),
        decreases n,
    {
        assert(url@.subrange(0, n as int).drop_last() =~= url@.subrange(0, n - 1));
        n -= 1;
    }
    owned(url.substring_char(0, n))
}

/// `base` followed by `path`.
pub fn join_url(base: &str, path: &str) -> (r: String)
    ensures
        r@ == base@ + path@,
{
    owned(base).concat(path)
}

/// The HTTP methods the clients use.
#[derive(PartialEq, Eq, Structural, Clone, Copy, Debug)]
pub enum HttpMethod {
    Get,
    Post,
    Put,
    Delete,
}

/// The method named by `name`, among those a client of `full` kind (all
/// four) or of the proxy kind (`GET` and `POST` only) may send.
pub open spec fn method_of(name: Seq<char>, full: bool) -> Option<HttpMethod> {
    if name == "GET"@ {
        Some(HttpMethod::Get)
    } else if name == "POST"@ {
        Some(HttpMethod::Post)
    } else if full && name == "PUT"@ {
        Some(HttpMethod::Put)
    } else if full && name == "DELETE"@ {
        Some(HttpMethod::Delete)
    } else {
        None
    }
}

/// Reads a method name; `None` for one the client does not support.
pub fn parse_http_method(name: &str, full: bool) -> (r: Option<HttpMethod>)
    ensures
        r == method_of(name@, full),
{
    if str_eq(name, "GET") {
        Some(HttpMethod::Get)
    } else if str_eq(name, "POST") {
        Some(HttpMethod::Post)
    } else if full && str_eq(name, "PUT") {
        Some(HttpMethod::Put)
    } else if full && str_eq(name, "DELETE") {
        Some(HttpMethod::Delete)
    } else {
        None
    }
}

/// The path where a client collects the commands queued for it.
pub fn commands_path(client_id: &str) -> (r: String)
    ensures
        r@ == "/commands/"@ + client_id@,
{
    owned("/commands/").concat(client_id)
}

/// Whether `v` is an object with exactly the string fields `k1` and `k2`,
/// in that order, holding `s1` and `s2`.
pub open spec fn is_pair_object(
    v: JsonValue,
    k1: Seq<char>,
    s1: Seq<char>,
    k2: Seq<char>,
    s2: Seq<char>,
) -> bool {
    &&& v matches JsonValue::Object(fields)
    &&& fields@.len() == 2
    &&& fields@[0].0@ == k1
    &&& fields@[0].1.spec_str() == Some(s1)
    &&& fields@[1].0@ == k2
    &&& fields@[1].1.spec_str() == Some(s2)
}

/// An object of two string fields.
fn pair_object(k1: &str, s1: &str, k2: &str, s2: &str) -> (r: JsonValue)
    ensures
        is_pair_object(r, k1@, s1@, k2@, s2@),
{
    let mut fields: Vec<(String, JsonValue)> = Vec::new();
    fields.push((owned(k1), JsonValue::string(s1)));
    fields.push((owned(k2), JsonValue::string(s2)));
    JsonValue::Object(fields)
}

/// The body that registers a client: `{"clientId": id}`.
pub fn register_body(client_id: &str) -> (r: JsonValue)
    ensures
        r.str_field("clientId"@) == Some(client_id@),
        r matches JsonValue::Object(fields) && fields@.len() == 1,
{
    JsonValue::object1("clientId", JsonValue::string(client_id))
}

/// The body that registers a client and names the action:
/// `{"clientId": id, "action": action}`.
pub fn register_body_with_action(client_id: &str, action: &str) -> (r: JsonValue)
    ensures
        is_pair_object(r, "clientId"@, client_id@, "action"@, action@),
{
    pair_object("clientId", client_id, "action", action)
}

/// The event that posts an instruction on its own, as the multi-mode
/// client does: id `instruction-` and a fresh id, name `instruction`, data
/// `{"text": text}`.
pub fn tagged_instruction_event(text: &str) -> (r: Event)
    ensures
        r.id@.len() == 12 + 36,
        r.id@.subrange(0, 12) == "instruction-"@,
        r.name@ == "instruction"@,
        r.data.str_field("text"@) == Some(text@),
        r.data matches JsonValue::Object(fields) && fields@.len() == 1,
{
    let id = owned("instruction-").concat(fresh_id().as_str());
    proof {
        reveal_strlit("instruction-");
        assert(id@.subrange(0, 12) =~= "instruction-"@);
    }
    Event { id, name: owned("instruction"), data: JsonValue::object1("text", JsonValue::string(text)) }
}

/// The event that hands an instruction to the server:
/// `instruction` with `{"text": text, "clientId": id}`.
pub fn instruction_event(text: &str, client_id: &str) -> (r: Event)
    ensures
        r.name@ == "instruction"@,
        r.id@.len() == 36,
        is_pair_object(r.data, "text"@, text@, "clientId"@, client_id@),
{
    Event::new("instruction", pair_object("text", text, "clientId", client_id))
}

/// The decimal text of `n`, as `i64`'s `Display` writes it.
pub open spec fn decimal_text(n: int) -> Seq<char>
    decreases (if n < 0 { -n + 1 } else { n }),
{
    if n < 0 {
        seq!['-'] + decimal_text(-n)
    } else if n < 10 {
        seq![digit_char(n)]
    } else {
        decimal_text(n / 10) + seq![digit_char(n % 10)]
    }
}

/// The character of the decimal digit `d`.
pub open spec fn digit_char(d: int) -> char {
    if d == 0 { '0' }
    else if d == 1 { '1' }
    else if d == 2 { '2' }
    else if d == 3 { '3' }
    else if d == 4 { '4' }
    else if d == 5 { '5' }
    else if d == 6 { '6' }
    else if d == 7 { '7' }
    else if d == 8 { '8' }
    else { '9' }
}

/// Relies on `i64`'s `Display` impl (through `to_string`): the decimal
/// digits, with a leading `-` for a negative number.
#[verifier::external_body]
fn decimal(n: i64) -> (r: String)
    ensures
        r@ == decimal_text(n as int),
{
    n.to_string()
}

/// The heartbeat a polling client posts:
/// `heartbeat` with `{"timestamp": seconds, "clientId": id}`.
pub fn heartbeat_event(timestamp: i64, client_id: &str) -> (r: Event)
    ensures
        r.name@ == "heartbeat"@,
        r.id@.len() == 36,
        r.data matches JsonValue::Object(fields) && fields@.len() == 2,
        r.data matches JsonValue::Object(fields) ==> fields@[0].0@ == "timestamp"@ && (
        fields@[0].1 matches JsonValue::Number(t) && t@ == decimal_text(timestamp as int)),
        r.data matches JsonValue::Object(fields) ==> fields@[1].0@ == "clientId"@
            && fields@[1].1.spec_str() == Some(client_id@),
{
    let mut fields: Vec<(String, JsonValue)> = Vec::new();
    fields.push((owned("timestamp"), JsonValue::Number(decimal(timestamp))));
    fields.push((owned("clientId"), JsonValue::string(client_id)));
    Event::new("heartbeat", JsonValue::Object(fields))
}

/// Whether a queued command carries a spoken answer: its `action` is
/// `"tts"` and its `text` is a string.
pub open spec fn is_tts_command(data: JsonValue) -> bool {
    data.str_field("action"@) == Some("tts"@) && data.str_field("text"@) is Some
}

/// The index of the first command of `commands` that carries a spoken
/// answer.
pub open spec fn first_tts(commands: Seq<Response>) -> Option<int>
    decreases commands.len(),
{
    if commands.len() == 0 {
        None
    } else if is_tts_command(commands[0].data) {
        Some(0)
    } else {
        match first_tts(commands.drop_first()) {
            Some(i) => Some(i + 1),
            None => None,
        }
    }
}

proof fn lemma_first_tts_in_range(commands: Seq<Response>)
    ensures
        first_tts(commands) matches Some(i) ==> 0 <= i < commands.len(),
    decreases commands.len(),
{
    if commands.len() > 0 {
        lemma_first_tts_in_range(commands.drop_first());
    }
}

/// Whether `v` is the string `s`.
fn is_string(v: &JsonValue, s: &str) -> (r: bool)
    ensures
        r == (v.spec_str() == Some(s@)),
{
    match v.as_str() {
        Some(t) => str_eq(t.as_str(), s),
        None => false,
    }
}

/// The spoken answer among the commands collected from the server: the
/// `text` of the first one whose `action` is `"tts"` and whose `text` is a
/// string.
pub fn find_tts_text(commands: &Vec<Response>) -> (r: Option<String>)
    ensures
        match first_tts(commands@) {
            Some(i) => (r matches Some(t) && Some(t@) == commands@[i].data.str_field("text"@)),
            None => r.is_none(),
        },
{
    proof {
        lemma_first_tts_in_range(commands@);
        assert(commands@.skip(0) =~= commands@);
    }
    let mut i: usize = 0;
    while i < commands.len()
        invariant
            i <= commands@.len(),
            first_tts(commands@) matches Some(k) ==> 0 <= k < commands@.len(),
            first_tts(commands@) == (match first_tts(commands@.skip(i as int)) {
                Some(k) => Some(k + i),
                None => None,
            }),
        decreases commands@.len() - i,
    {
        assert(commands@.skip(i as int)[0] == commands@[i as int]);
        assert(commands@.skip(i as int).drop_first() =~= commands@.skip(i + 1));
        let data = &commands[i].data;
        let tts = match data.get("action") {
            Some(a) => is_string(a, "tts"),
            None => false,
        };
        if tts {
            match data.get("text") {
                Some(t) => match t.as_str() {
                    Some(s) => {
                        return Some(s.clone());
                    },
                    None => {},
                },
                None => {},
            }
        }
        i += 1;
    }
    None
}

/// The text a chat-completion reply carries: `choices[0].message.content`,
/// when each step is present and the content is a string.
pub open spec fn reply_content(reply: JsonValue) -> Option<Seq<char>> {
    match reply.spec_get("choices"@) {
        Some(JsonValue::Array(choices)) => if choices@.len() > 0 {
            match choices@[0].spec_get("message"@) {
                Some(message) => message.str_field("content"@),
                None => None,
            }
        } else {
            None
        },
        _ => None,
    }
}

/// Picks the answer text out of a chat-completion reply.
pub fn llm_reply_text(reply: &JsonValue) -> (r: Option<String>)
    ensures
        match reply_content(*reply) {
            Some(c) => (r matches Some(t) && t@ == c),
            None => r.is_none(),
        },
{
    match reply.get("choices") {
        Some(JsonValue::Array(choices)) => {
            if choices.len() == 0 {
                return None;
            }
            match choices[0].get("message") {
                Some(message) => match message.get("content") {
                    Some(content) => match content.as_str() {
                        Some(s) => Some(s.clone()),
                        None => None,
                    },
                    None => None,
                },
                None => None,
            }
        },
        _ => None,
    }
}

/// How the client reaches a language model.
#[derive(PartialEq, Eq, Structural, Clone, Copy, Debug)]
pub enum LlmMode {
    /// Straight to an OpenAI-style endpoint.
    Direct,
    /// Through the server's event and command queues.
    Proxy,
}

/// Why the configured mode cannot be used.
#[derive(PartialEq, Eq, Structural, Clone, Copy, Debug)]
pub enum ModeError {
    /// Proxy mode without proxy settings.
    MissingProxyConfig,
    /// A mode other than `direct` or `proxy`.
    UnknownMode,
}

/// The mode named in the configuration: `direct`, or `proxy` when proxy
/// settings are present.
pub fn select_mode(mode: &str, has_proxy_config: bool) -> (r: Result<LlmMode, ModeError>)
    ensures
        mode@ == "direct"@ ==> r == Ok::<LlmMode, ModeError>(LlmMode::Direct),
        mode@ == "proxy"@ ==> r == (if has_proxy_config {
            Ok::<LlmMode, ModeError>(LlmMode::Proxy)
        } else {
            Err(ModeError::MissingProxyConfig)
        }),
        mode@ != "direct"@ && mode@ != "proxy"@ ==> r == Err::<LlmMode, ModeError>(
            ModeError::UnknownMode,
        ),
{
    proof {
        reveal_strlit("direct");
        reveal_strlit("proxy");
        assert("direct"@[0] != "proxy"@[0]);
    }
    if str_eq(mode, "direct") {
        Ok(LlmMode::Direct)
    } else if str_eq(mode, "proxy") {
        if has_proxy_config {
            Ok(LlmMode::Proxy)
        } else {
            Err(ModeError::MissingProxyConfig)
        }
    } else {
        Err(ModeError::UnknownMode)
    }
}

impl ModeError {
    /// The message shown for the error; `mode` is the configured mode.
    pub fn message(&self, mode: &str) -> (r: String)
        ensures
            *self == ModeError::MissingProxyConfig ==> r@ == "Server proxy config missing for proxy mode"@,
            *self == ModeError::UnknownMode ==> r@ == "Unknown mode: "@ + mode@
                + ". Valid options: 'direct', 'proxy'"@,
    {
        match self {
            ModeError::MissingProxyConfig => owned("Server proxy config missing for proxy mode"),
            ModeError::UnknownMode => owned("Unknown mode: ").concat(mode).concat(
                ". Valid options: 'direct', 'proxy'",
            ),
        }
    }
}

/// Whether `text` begins with `prefix`.
pub fn starts_with(text: &str, prefix: &str) -> (r: bool)
    ensures
        r == (prefix@.len() <= text@.len() && text@.subrange(0, prefix@.len() as int) == prefix@),
{
    let n = prefix.unicode_len();
    if n > text.unicode_len() {
        return false;
    }
    let head = text.substring_char(0, n);
    str_eq(head, prefix)
}

/// Whether a recognised text is an instruction for the language model: it
/// opens with 请 ("please") or 你 ("you").
pub open spec fn is_instruction(text: Seq<char>) -> bool {
    (text.len() > 0 && text[0] == '请') || (text.len() > 0 && text[0] == '你')
}

/// Whether a recognised text is an instruction for the language model.
pub fn is_instruction_text(text: &str) -> (r: bool)
    ensures
        r == is_instruction(text@),
{
    let a = starts_with(text, "请");
    let b = starts_with(text, "你");
    proof {
        reveal_strlit("请");
        reveal_strlit("你");
        if text@.len() > 0 {
            assert(text@.subrange(0, 1)[0] == text@[0]);
            assert(text@[0] == '请' ==> text@.subrange(0, 1) =~= "请"@);
            assert(text@[0] == '你' ==> text@.subrange(0, 1) =~= "你"@);
        }
    }
    a || b
}

/// How many times the proxy is polled for an answer, once a second.
pub const PROXY_POLL_ATTEMPTS: u32 = 30;

/// The next step of waiting for the proxy's answer.
pub enum PollStep {
    /// The answer arrived.
    Done(String),
    /// Poll again; this is the number of the next attempt.
    Again(u32),
    /// Every attempt is spent.
    GiveUp,
}

/// Decides after poll number `attempt` (from 1) what to do, given the
/// commands it collected (`None` when the poll failed).
pub fn next_poll(attempt: u32, commands: Option<&Vec<Response>>) -> (r: PollStep)
    requires
        1 <= attempt <= PROXY_POLL_ATTEMPTS,
    ensures
        (commands matches Some(c) && first_tts(c@) is Some) ==> r is Done,
        r matches PollStep::Done(t) ==> (commands matches Some(c) && first_tts(c@) matches Some(
            i,
        ) && Some(t@) == c@[i].data.str_field("text"@)),
        r matches PollStep::Again(n) ==> n == attempt + 1 && attempt < PROXY_POLL_ATTEMPTS,
        r is GiveUp ==> attempt == PROXY_POLL_ATTEMPTS,
{
    if let Some(c) = commands {
        if let Some(t) = find_tts_text(c) {
            return PollStep::Done(t);
        }
    }
    if attempt < PROXY_POLL_ATTEMPTS {
        PollStep::Again(attempt + 1)
    } else {
        PollStep::GiveUp
    }
}

} // verus!

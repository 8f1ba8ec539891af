use vstd::prelude::*;
use vstd::string::*;
use vstd::utf8::encode_utf8;
use crate::agent::{ItemView, item_view, items_view};
use crate::http_stream::{LineView, duplicate_line, line_view};
use crate::config::{ModelConfig, lookup};
use crate::error::{ChatError, ErrorKind, ErrorView};
use crate::message::{
    Message,
    MessageType,
    MessageView,
    RoleView,
    lower_of,
    message_of,
    name_of_role,
    role_of_name,
};

verus! {

/// The line that ends a stream.
pub open spec fn done_line() -> Seq<char> {
    "data:\"[DONE]\""@
}

/// The line that announces a delta payload on the next line.
pub open spec fn delta_event_line() -> Seq<char> {
    "event:conversation.message.delta"@
}

/// Code, role and content of a delta payload, or none where the bytes are not
/// a JSON object or one of those fields has another type.
pub uninterp spec fn coze_delta_of(payload: Seq<u8>) -> Option<(int, Seq<char>, Seq<char>)>;

/// A delta payload sent by the backend.
#[derive(Debug)]
pub struct CozeResponseDelta {
    pub code: i64,
    pub role: String,
    pub content: String,
}

pub open spec fn delta_view(d: Option<CozeResponseDelta>) -> Option<(int, Seq<char>, Seq<char>)> {
    match d {
        Some(d) => Some((d.code as int, d.role@, d.content@)),
        None => None,
    }
}

/// Relies on `serde_json::from_slice` into a `Value`, `Value::as_object` and
/// the `Value` accessors: the payload must be a JSON object; an absent field
/// reads as zero or empty, and a field of another type fails the decoding.
#[verifier::external_body]
fn decode_coze_delta(payload: &[u8]) -> (r: Option<CozeResponseDelta>)
    ensures
        delta_view(r) == coze_delta_of(payload@),
{
    let v: serde_json::Value = serde_json::from_slice(payload).ok()?;
    let o = v.as_object()?;
    let code = o.get("code").map(serde_json::Value::as_i64).unwrap_or(Some(0))?;
    let role = o.get("role").map(serde_json::Value::as_str).unwrap_or(Some(""))?;
    let content = o.get("content").map(serde_json::Value::as_str).unwrap_or(Some(""))?;
    Some(CozeResponseDelta { code, role: role.to_string(), content: content.to_string() })
}

/// What one line does to the parser: the next "inside a delta" flag, and
/// either whether to keep reading with the message to emit, or the error.
pub open spec fn coze_process(in_delta: bool, line: LineView) -> (
    bool,
    Result<(bool, Option<MessageView>), ErrorView>,
) {
    match line {
        Err(e) => (in_delta, Err(e)),
        Ok(l) => if l.len() == 0 {
            (in_delta, Ok((true, None)))
        } else if l == done_line() {
            (in_delta, Ok((false, Some(message_of(RoleView::User, Seq::empty())))))
        } else if !in_delta {
            (l == delta_event_line(), Ok((true, None)))
        } else {
            let b = encode_utf8(l);
            if b.len() < 5 {
                (false, Err(ErrorView { kind: ErrorKind::Parse, message: l }))
            } else {
                match coze_delta_of(b.subrange(5, b.len() as int)) {
                    None => (false, Err(ErrorView { kind: ErrorKind::Parse, message: l })),
                    Some((code, role, content)) => if code != 0 {
                        (false, Err(ErrorView { kind: ErrorKind::Provider, message: l }))
                    } else if content.len() == 0 {
                        (false, Ok((true, None)))
                    } else {
                        (false, Ok((true, Some(message_of(role_of_name(role, lower_of(role)), content)))))
                    },
                }
            }
        },
    }
}

/// What the handler does with a processed line: keep reading or not, and the item it emits.
pub open spec fn coze_handled(out: Result<(bool, Option<MessageView>), ErrorView>) -> (bool, Option<ItemView>) {
    match out {
        Err(e) => (false, Some(Err(e))),
        Ok((cont, Some(m))) => (cont, Some(Ok(m))),
        Ok((cont, None)) => (cont, None),
    }
}

/// The items emitted for a sequence of lines, from a given parser state,
/// up to the line after which reading stops.
/// The parser state after a sequence of lines, from a given state, up to the
/// line after which reading stops.
pub open spec fn coze_final_state(in_delta: bool, lines: Seq<LineView>) -> bool
    decreases lines.len(),
{
    if lines.len() == 0 {
        in_delta
    } else {
        let (next, out) = coze_process(in_delta, lines[0]);
        if coze_handled(out).0 {
            coze_final_state(next, lines.drop_first())
        } else {
            next
        }
    }
}

pub open spec fn coze_emits(in_delta: bool, lines: Seq<LineView>) -> Seq<ItemView>
    decreases lines.len(),
{
    if lines.len() == 0 {
        Seq::empty()
    } else {
        let (next, out) = coze_process(in_delta, lines[0]);
        let (cont, e) = coze_handled(out);
        let here = match e {
            Some(x) => seq![x],
            None => Seq::empty(),
        };
        if cont {
            here + coze_emits(next, lines.drop_first())
        } else {
            here
        }
    }
}

/// A backend reached with a bearer credential.
#[derive(Clone, Debug)]
pub struct CozeModel {
    pub api_key: String,
}

impl CozeModel {
    pub fn new(key: String) -> (r: CozeModel)
        ensures
            r.api_key == key,
    {
        CozeModel { api_key: key }
    }

    /// Fails with a configuration error, before any request, when no credential is set.
    pub fn check_credential(&self) -> (r: Result<(), ChatError>)
        ensures
            r is Err <==> self.api_key@.len() == 0,
            r matches Err(e) ==> e.kind == ErrorKind::Configuration,
    {
        if self.api_key.as_str().is_empty() {
            Err(ChatError::new(
                ErrorKind::Configuration,
                "coze api is null, please set env[COZE_ACCESS_TOKEN]".to_owned(),
            ))
        } else {
            Ok(())
        }
    }

    /// Reads one line of the event stream. Blank lines are skipped; an event
    /// line announcing a delta makes the next line its payload.
    pub fn sse_stream_response_process(is_delta_msg: &mut bool, line: Result<String, ChatError>) -> (r:
        Result<(bool, Option<Message>), ChatError>)
        ensures
            ({
                let (next, out) = coze_process(*old(is_delta_msg), line_view(line));
                &&& *final(is_delta_msg) == next
                &&& match (r, out) {
                    (Err(e), Err(ev)) => e@ == ev,
                    (Ok((c, Some(m))), Ok((c2, Some(mv)))) => c == c2 && m@ == mv,
                    (Ok((c, None)), Ok((c2, None))) => c == c2,
                    _ => false,
                }
            }),
    {
        let content = match line {
            Ok(s) => s,
            Err(e) => return Err(e),
        };
        if content.as_str().is_empty() {
            return Ok((true, None));
        }
        if content == "data:\"[DONE]\"".to_owned() {
            return Ok((false, Some(Message::default())));
        }
        if !*is_delta_msg {
            if content == "event:conversation.message.delta".to_owned() {
                *is_delta_msg = true;
            }
            return Ok((true, None));
        }
        *is_delta_msg = false;
        let bytes = content.as_str().as_bytes();
        if bytes.len() < 5 {
            return Err(ChatError::new(ErrorKind::Parse, content));
        }
        let payload = vstd::slice::slice_subrange(bytes, 5, bytes.len());
        let delta = match decode_coze_delta(payload) {
            Some(d) => d,
            None => return Err(ChatError::new(ErrorKind::Parse, content)),
        };
        if delta.code != 0 {
            return Err(ChatError::new(ErrorKind::Provider, content));
        }
        if delta.content.as_str().is_empty() {
            return Ok((true, None));
        }
        let role = MessageType::from_name(delta.role.as_str());
        Ok((true, Some(Message::new(role, delta.content))))
    }

    /// Handles one line for the response channel: whether to keep reading, and
    /// the item to forward, if any.
    pub fn handle_line(is_delta_msg: &mut bool, line: Result<String, ChatError>) -> (r: (
        bool,
        Option<Result<Message, ChatError>>,
    ))
        ensures
            ({
                let (next, out) = coze_process(*old(is_delta_msg), line_view(line));
                let (cont, e) = coze_handled(out);
                &&& *final(is_delta_msg) == next
                &&& r.0 == cont
                &&& match (r.1, e) {
                    (Some(x), Some(y)) => item_view(x) == y,
                    (None, None) => true,
                    _ => false,
                }
            }),
    {
        match CozeModel::sse_stream_response_process(is_delta_msg, line) {
            Err(e) => (false, Some(Err(e))),
            Ok((cont, Some(m))) => (cont, Some(Ok(m))),
            Ok((cont, None)) => (cont, None),
        }
    }

    /// Handles the lines in order, as the transport delivers them, until one
    /// stops the reading; returns the items forwarded.
    pub fn process_lines(is_delta_msg: &mut bool, lines: &Vec<Result<String, ChatError>>) -> (r: Vec<
        Result<Message, ChatError>,
    >)
        ensures
            items_view(r@) == coze_emits(*old(is_delta_msg), lines@.map_values(|l: Result<String, ChatError>| line_view(l))),
            *final(is_delta_msg) == coze_final_state(*old(is_delta_msg), lines@.map_values(|l: Result<String, ChatError>| line_view(l))),
    {
        let ghost all = lines@.map_values(|l: Result<String, ChatError>| line_view(l));
        let len = lines.len();
        let mut out: Vec<Result<Message, ChatError>> = Vec::new();
        let mut i: usize = 0;
        assert(all.subrange(0, len as int) =~= all);
        assert(items_view(out@) =~= Seq::<ItemView>::empty());
        while i < len
            invariant
                i <= len,
                len == lines@.len(),
                all == lines@.map_values(|l: Result<String, ChatError>| line_view(l)),
                items_view(out@) + coze_emits(*is_delta_msg, all.subrange(i as int, len as int)) == coze_emits(*old(is_delta_msg), all),
                coze_final_state(*is_delta_msg, all.subrange(i as int, len as int)) == coze_final_state(*old(is_delta_msg), all),
            decreases len - i,
        {
            let ghost before = *is_delta_msg;
            let ghost prev = out@;
            let ghost rest = all.subrange(i as int, len as int);
            assert(rest[0] == all[i as int]);
            assert(rest.drop_first() =~= all.subrange(i + 1, len as int));
            let line = duplicate_line(&lines[i]);
            let (cont, e) = CozeModel::handle_line(is_delta_msg, line);
            match e {
                Some(x) => {
                    out.push(x);
                    assert(items_view(out@) =~= items_view(prev).push(item_view(x)));
                },
                None => {},
            }
            if !cont {
                assert(items_view(out@) =~= coze_emits(*old(is_delta_msg), all));
                return out;
            }
            i = i + 1;
        }
        assert(all.subrange(len as int, len as int) =~= Seq::<LineView>::empty());
        assert(items_view(out@) =~= coze_emits(*old(is_delta_msg), all));
        out
    }
}

/// Feeding the same lines twice, from the same parser state, emits the same
/// items and leaves the parser in the same state.
pub proof fn lemma_replay_emits_same(s1: bool, s2: bool, lines1: Seq<LineView>, lines2: Seq<LineView>)
    requires
        s1 == s2,
        lines1 == lines2,
    ensures
        coze_emits(s1, lines1) == coze_emits(s2, lines2),
        coze_final_state(s1, lines1) == coze_final_state(s2, lines2),
{
}

/// A delta frame whose payload carries a non-zero error code emits exactly one
/// error, the payload line itself, and nothing after it.
pub proof fn lemma_provider_error_stops(l: Seq<char>, rest: Seq<LineView>)
    requires
        l != done_line(),
        encode_utf8(l).len() >= 5,
        coze_delta_of(encode_utf8(l).subrange(5, encode_utf8(l).len() as int)) matches Some((code, _, _)) && code != 0,
    ensures
        coze_emits(false, seq![Ok(delta_event_line()), Ok(l)] + rest) == seq![
            Err::<MessageView, ErrorView>(ErrorView { kind: ErrorKind::Provider, message: l }),
        ],
{
    let lines = seq![Ok(delta_event_line()), Ok(l)] + rest;
    reveal_strlit("data:\"[DONE]\"");
    reveal_strlit("event:conversation.message.delta");
    assert(delta_event_line().len() != done_line().len());
    assert(lines[0] == Ok::<Seq<char>, ErrorView>(delta_event_line()));
    assert(lines.drop_first()[0] == Ok::<Seq<char>, ErrorView>(l));
    assert(coze_process(false, lines[0]).0);
    let e = coze_emits(true, lines.drop_first());
    assert(e == seq![Err::<MessageView, ErrorView>(ErrorView { kind: ErrorKind::Provider, message: l })]);
    assert(Seq::<ItemView>::empty() + e =~= e);
}

/// One message of a request, as the backend expects it.
#[derive(Debug)]
pub struct CozeMessage {
    pub role: String,
    pub content: String,
    /// Always "text": only plain text is sent.
    pub content_type: String,
}

impl CozeMessage {
    pub fn from_message(value: &Message) -> (r: CozeMessage)
        ensures
            r.role@ == name_of_role(value.role@),
            r.content@ == value.content@,
            r.content_type@ == "text"@,
    {
        CozeMessage { role: value.role.name(), content: value.content.clone(), content_type: "text".to_owned() }
    }
}

/// The body of a chat request.
#[derive(Debug)]
pub struct CozeRequest {
    pub bot_id: String,
    pub user_id: String,
    pub stream: bool,
    pub auto_save_history: bool,
    pub additional_messages: Vec<CozeMessage>,
}

/// The user id sent for a configuration: its "user_id" setting, else "default".
pub open spec fn coze_user_id(cfg: ModelConfig) -> Seq<char> {
    match lookup(cfg.extend_view(), "user_id"@) {
        Some(u) => u,
        None => "default"@,
    }
}

impl CozeRequest {
    /// The request for a configuration and a prompt window: the bot is the
    /// configured name, the reply streams, and the backend keeps no history.
    pub fn build(cfg: &ModelConfig, ms: &Vec<Message>) -> (r: CozeRequest)
        ensures
            r.bot_id@ == cfg.name@,
            r.user_id@ == coze_user_id(*cfg),
            r.stream,
            !r.auto_save_history,
            r.additional_messages@.len() == ms@.len(),
            forall|i: int| 0 <= i < ms@.len() ==> {
                &&& (#[trigger] r.additional_messages@[i]).role@ == name_of_role(ms@[i].role@)
                &&& r.additional_messages@[i].content@ == ms@[i].content@
                &&& r.additional_messages@[i].content_type@ == "text"@
            },
    {
        let mut additional_messages: Vec<CozeMessage> = Vec::new();
        let mut i: usize = 0;
        while i < ms.len()
            invariant
                i <= ms@.len(),
                additional_messages@.len() == i,
                forall|j: int| 0 <= j < i ==> {
                    &&& (#[trigger] additional_messages@[j]).role@ == name_of_role(ms@[j].role@)
                    &&& additional_messages@[j].content@ == ms@[j].content@
                    &&& additional_messages@[j].content_type@ == "text"@
                },
            decreases ms@.len() - i,
        {
            additional_messages.push(CozeMessage::from_message(&ms[i]));
            i = i + 1;
        }
        let user_id = match cfg.extend_get("user_id") {
            Some(u) => u,
            None => "default".to_owned(),
        };
        CozeRequest {
            bot_id: cfg.name.clone(),
            user_id,
            stream: true,
            auto_save_history: false,
            additional_messages,
        }
    }
}

} // verus!

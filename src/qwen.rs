use vstd::prelude::*;
use vstd::string::*;
use vstd::utf8::encode_utf8;
use crate::agent::{ItemView, item_view, items_view};
use crate::config::ModelConfig;
use crate::http_stream::{LineView, line_view};
use crate::error::{ChatError, ErrorKind, ErrorView};
use crate::message::{Message, RoleView, message_of, name_of_role};

verus! {

/// The line that ends a stream.
pub open spec fn qwen_done_line() -> Seq<char> {
    "data: [DONE]"@
}

/// Role and content of each choice's delta in a chunk payload, or none where
/// the bytes are not a JSON chunk of that shape.
pub uninterp spec fn qwen_deltas_of(payload: Seq<u8>) -> Option<Seq<(Seq<char>, Seq<char>)>>;

/// The delta of one choice in a streamed chunk.
#[derive(Debug)]
pub struct QwenDeltaMsg {
    pub role: String,
    pub content: String,
}

pub open spec fn deltas_view(d: Option<Vec<QwenDeltaMsg>>) -> Option<Seq<(Seq<char>, Seq<char>)>> {
    match d {
        Some(v) => Some(v@.map_values(|m: QwenDeltaMsg| (m.role@, m.content@))),
        None => None,
    }
}

/// Relies on `serde_json::from_slice` into a `Value` and on `Value`'s field
/// accessors: a chunk has a string `id` and `choices`, each with a `delta`
/// whose `content` is a string and whose `role`, when present, is a string.
#[verifier::external_body]
fn decode_qwen_chunk(payload: &[u8]) -> (r: Option<Vec<QwenDeltaMsg>>)
    ensures
        deltas_view(r) == qwen_deltas_of(payload@),
{
    let v: serde_json::Value = serde_json::from_slice(payload).ok()?;
    v.get("id")?.as_str()?;
    let choices = v.get("choices")?.as_array()?;
    choices.iter().map(|c| {
        let d = c.get("delta")?;
        Some(QwenDeltaMsg {
            role: d.get("role").map(serde_json::Value::as_str).unwrap_or(Some(""))?.to_string(),
            content: d.get("content")?.as_str()?.to_string(),
        })
    }).collect()
}

/// The items emitted for the deltas of a chunk: one assistant message for each
/// delta with content, in order.
pub open spec fn delta_items(ds: Seq<(Seq<char>, Seq<char>)>) -> Seq<ItemView>
    decreases ds.len(),
{
    if ds.len() == 0 {
        Seq::empty()
    } else {
        let sub = delta_items(ds.drop_last());
        if ds.last().1.len() == 0 {
            sub
        } else {
            sub.push(Ok(message_of(RoleView::Assistant, ds.last().1)))
        }
    }
}

/// What the handler does with one line: keep reading or not, and the items it emits.
pub open spec fn qwen_handle(line: LineView) -> (bool, Seq<ItemView>) {
    match line {
        Err(e) => (false, seq![Err(e)]),
        Ok(l) => if l.len() == 0 {
            (true, Seq::empty())
        } else if l == qwen_done_line() {
            (false, seq![Ok(message_of(RoleView::User, Seq::empty()))])
        } else {
            let b = encode_utf8(l);
            let parse_error = Err::<_, ErrorView>(ErrorView { kind: ErrorKind::Parse, message: l });
            if b.len() < 6 {
                (false, seq![parse_error])
            } else {
                match qwen_deltas_of(b.subrange(6, b.len() as int)) {
                    None => (false, seq![parse_error]),
                    Some(ds) => (true, delta_items(ds)),
                }
            }
        },
    }
}

/// A backend reached with a bearer credential, speaking one JSON chunk per line.
#[derive(Clone, Debug)]
pub struct QwenModel {
    api_key: String,
}

impl QwenModel {
    pub closed spec fn key_view(&self) -> Seq<char> {
        self.api_key@
    }

    pub fn new(key: String) -> (r: QwenModel)
        ensures
            r.key_view() == key@,
    {
        QwenModel { api_key: key }
    }

    /// The credential sent with each request.
    pub fn api_key(&self) -> (r: &String)
        ensures
            r@ == self.key_view(),
    {
        &self.api_key
    }

    /// Fails with a configuration error, before any request, when no credential is set.
    pub fn check_credential(&self) -> (r: Result<(), ChatError>)
        ensures
            r is Err <==> self.key_view().len() == 0,
            r matches Err(e) ==> e.kind == ErrorKind::Configuration,
    {
        if self.api_key.as_str().is_empty() {
            Err(ChatError::new(
                ErrorKind::Configuration,
                "qwen api key is null, please set env[DASHSCOPE_API_KEY]".to_owned(),
            ))
        } else {
            Ok(())
        }
    }

    /// Handles one line of the stream: whether to keep reading, and the items to forward.
    pub fn handle_line(line: Result<String, ChatError>) -> (r: (bool, Vec<Result<Message, ChatError>>))
        ensures
            r.0 == qwen_handle(line_view(line)).0,
            items_view(r.1@) == qwen_handle(line_view(line)).1,
    {
        let mut out: Vec<Result<Message, ChatError>> = Vec::new();
        let msg = match line {
            Ok(o) => o,
            Err(e) => {
                out.push(Err(e));
                assert(items_view(out@) =~= seq![item_view(out@[0])]);
                return (false, out);
            },
        };
        if msg.as_str().is_empty() {
            assert(items_view(out@) =~= Seq::<ItemView>::empty());
            return (true, out);
        }
        if msg == "data: [DONE]".to_owned() {
            out.push(Ok(Message::default()));
            assert(items_view(out@) =~= seq![item_view(out@[0])]);
            return (false, out);
        }
        let bytes = msg.as_str().as_bytes();
        let deltas = if bytes.len() < 6 {
            None
        } else {
            decode_qwen_chunk(vstd::slice::slice_subrange(bytes, 6, bytes.len()))
        };
        let deltas = match deltas {
            Some(d) => d,
            None => {
                out.push(Err(ChatError::new(ErrorKind::Parse, msg)));
                assert(items_view(out@) =~= seq![item_view(out@[0])]);
                return (false, out);
            },
        };
        let ghost ds = deltas@.map_values(|m: QwenDeltaMsg| (m.role@, m.content@));
        let mut i: usize = 0;
        assert(ds.subrange(0, 0) =~= Seq::<(Seq<char>, Seq<char>)>::empty());
        assert(items_view(out@) =~= Seq::<ItemView>::empty());
        while i < deltas.len()
            invariant
                i <= deltas@.len(),
                ds == deltas@.map_values(|m: QwenDeltaMsg| (m.role@, m.content@)),
                items_view(out@) == delta_items(ds.subrange(0, i as int)),
            decreases deltas@.len() - i,
        {
            let ghost prev = out@;
            assert(ds.subrange(0, i + 1).drop_last() =~= ds.subrange(0, i as int));
            assert(ds.subrange(0, i + 1).last() == ds[i as int]);
            if !deltas[i].content.as_str().is_empty() {
                let m = Message::new_assistant(deltas[i].content.clone());
                out.push(Ok(m));
                assert(items_view(out@) =~= items_view(prev).push(item_view(Ok(m))));
            }
            i = i + 1;
        }
        assert(ds.subrange(0, deltas@.len() as int) =~= ds);
        (true, out)
    }
}

/// One message of a request, as the backend expects it.
#[derive(Debug)]
pub struct QwenMsg {
    pub role: String,
    pub content: String,
}

/// The body of a chat request. Temperature and top-p are in thousandths.
#[derive(Debug)]
pub struct QwenChatRequest {
    pub model: String,
    pub messages: Vec<QwenMsg>,
    pub stream: bool,
    pub temperature_milli: u32,
    pub top_p_milli: u32,
    pub max_tokens: usize,
}

impl QwenChatRequest {
    /// The request for a configuration and a prompt window.
    pub fn build(cfg: &ModelConfig, ms: &Vec<Message>) -> (r: QwenChatRequest)
        ensures
            r.model@ == cfg.name@,
            r.stream == cfg.stream,
            r.temperature_milli == cfg.temperature_milli,
            r.top_p_milli == cfg.top_p_milli,
            r.max_tokens == cfg.max_output_token,
            r.messages@.len() == ms@.len(),
            forall|i: int| 0 <= i < ms@.len() ==> {
                &&& (#[trigger] r.messages@[i]).role@ == name_of_role(ms@[i].role@)
                &&& r.messages@[i].content@ == ms@[i].content@
            },
    {
        let mut messages: Vec<QwenMsg> = Vec::new();
        let mut i: usize = 0;
        while i < ms.len()
            invariant
                i <= ms@.len(),
                messages@.len() == i,
                forall|j: int| 0 <= j < i ==> {
                    &&& (#[trigger] messages@[j]).role@ == name_of_role(ms@[j].role@)
                    &&& messages@[j].content@ == ms@[j].content@
                },
            decreases ms@.len() - i,
        {
            messages.push(QwenMsg { role: ms[i].role.name(), content: ms[i].content.clone() });
            i = i + 1;
        }
        QwenChatRequest {
            model: cfg.name.clone(),
            messages,
            stream: cfg.stream,
            temperature_milli: cfg.temperature_milli,
            top_p_milli: cfg.top_p_milli,
            max_tokens: cfg.max_output_token,
        }
    }
}

} // verus!

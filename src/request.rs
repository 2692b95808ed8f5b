use vstd::prelude::*;

use crate::message::{role_name, views, Message, MessageView};

verus! {

/// What serde_json writes for a string: the JSON string literal, quotes and
/// escapes included, or `None` where it reports an error.
pub uninterp spec fn json_quoted(s: Seq<char>) -> Option<Seq<char>>;

/// The text an optional string holds.
pub open spec fn text_of(o: Option<String>) -> Option<Seq<char>> {
    match o {
        Some(s) => Some(s@),
        None => None,
    }
}

/// Relies on serde_json::to_string applied to a `str`: the JSON string
/// literal of the text, which depends on the text alone.
#[verifier::external_body]
fn quote_json(s: &str) -> (r: Option<String>)
    ensures
        text_of(r) == json_quoted(s@),
{
    serde_json::to_string(s).ok()
}

/// The JSON object of one message: `{"role":...,"content":...}`.
pub open spec fn message_json(m: MessageView) -> Option<Seq<char>> {
    match (json_quoted(role_name(m.role)), json_quoted(m.content)) {
        (Some(r), Some(c)) => Some("{\"role\":"@ + r + ",\"content\":"@ + c + "}"@),
        _ => None,
    }
}

/// The JSON objects of the messages, in order, separated by commas.
pub open spec fn messages_json(ms: Seq<MessageView>) -> Option<Seq<char>>
    decreases ms.len(),
{
    if ms.len() == 0 {
        Some(Seq::empty())
    } else {
        match (messages_json(ms.drop_last()), message_json(ms.last())) {
            (Some(init), Some(last)) => Some(
                if ms.len() == 1 {
                    last
                } else {
                    init + ","@ + last
                },
            ),
            _ => None,
        }
    }
}

/// The wire form of a chat-completion request:
/// `{"model":...,"messages":[...]}`.
pub open spec fn request_json(model: Seq<char>, ms: Seq<MessageView>) -> Option<Seq<char>> {
    match (json_quoted(model), messages_json(ms)) {
        (Some(q), Some(body)) => Some("{\"model\":"@ + q + ",\"messages\":["@ + body + "]}"@),
        _ => None,
    }
}

proof fn lemma_messages_json_fails_onward(ms: Seq<MessageView>, k: int)
    requires
        0 <= k <= ms.len(),
        messages_json(ms.take(k)) is None,
    ensures
        messages_json(ms) is None,
    decreases ms.len(),
{
    if k < ms.len() {
        assert(ms.drop_last().take(k) =~= ms.take(k));
        lemma_messages_json_fails_onward(ms.drop_last(), k);
    } else {
        assert(ms.take(k) =~= ms);
    }
}

/// The JSON object of one message.
pub fn message_to_json(m: &Message) -> (r: Option<String>)
    ensures
        text_of(r) == message_json(m@),
{
    let role = quote_json(m.role.as_str());
    let content = quote_json(m.content.as_str());
    match (role, content) {
        (Some(role), Some(content)) => {
            let mut out = String::from_str("{\"role\":");
            out.append(role.as_str());
            out.append(",\"content\":");
            out.append(content.as_str());
            out.append("}");
            Some(out)
        },
        _ => None,
    }
}

/// The JSON objects of the messages, separated by commas.
pub fn messages_to_json(ms: &Vec<Message>) -> (r: Option<String>)
    ensures
        text_of(r) == messages_json(views(ms@)),
{
    let ghost vs = views(ms@);
    let mut out = String::new();
    let mut i: usize = 0;
    assert(vs.take(0) =~= Seq::<MessageView>::empty());
    while i < ms.len()
        invariant
            i <= ms@.len(),
            vs == views(ms@),
            messages_json(vs.take(i as int)) == Some(out@),
        decreases ms@.len() - i,
    {
        assert(vs.take(i + 1).drop_last() =~= vs.take(i as int));
        assert(vs.take(i + 1).last() == ms@[i as int]@);
        match message_to_json(&ms[i]) {
            Some(one) => {
                if i > 0 {
                    out.append(",");
                }
                out.append(one.as_str());
            },
            None => {
                proof {
                    lemma_messages_json_fails_onward(vs, i + 1);
                }
                return None;
            },
        }
        i = i + 1;
    }
    assert(vs.take(i as int) =~= vs);
    Some(out)
}

/// A chat-completion request as a mathematical value.
pub struct RequestView {
    pub model: Seq<char>,
    pub messages: Seq<MessageView>,
}

/// A chat-completion request: the model to ask, and the conversation so far.
/// Built fresh for each turn and never changed afterwards.
#[derive(Debug)]
pub struct CompletionRequest {
    pub model: String,
    pub messages: Vec<Message>,
}

impl View for CompletionRequest {
    type V = RequestView;

    open spec fn view(&self) -> RequestView {
        RequestView { model: self.model@, messages: views(self.messages@) }
    }
}

impl CompletionRequest {
    pub fn new(model: String, messages: Vec<Message>) -> (r: CompletionRequest)
        ensures
            r@ == (RequestView { model: model@, messages: views(messages@) }),
    {
        CompletionRequest { model, messages }
    }

    /// The request in its wire form, or `None` where a string of it cannot
    /// be written as JSON.
    pub fn to_json(&self) -> (r: Option<String>)
        ensures
            text_of(r) == request_json(self@.model, self@.messages),
    {
        let model = quote_json(self.model.as_str());
        let body = messages_to_json(&self.messages);
        match (model, body) {
            (Some(model), Some(body)) => {
                let mut out = String::from_str("{\"model\":");
                out.append(model.as_str());
                out.append(",\"messages\":[");
                out.append(body.as_str());
                out.append("]}");
                Some(out)
            },
            _ => None,
        }
    }
}

} // verus!

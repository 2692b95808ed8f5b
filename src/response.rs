use vstd::prelude::*;
use vstd::string::StrSliceExecFns;
use vstd::utf8::encode_utf8;

use crate::message::{Message, MessageView};

verus! {

/// One alternative answer of the remote service.
#[derive(Debug)]
pub struct Choice {
    pub message: Message,
}

/// A chat-completion response: only the first choice is consulted.
#[derive(Debug)]
pub struct CompletionResponse {
    pub choices: Vec<Choice>,
}

impl CompletionResponse {
    /// The messages of the choices, in order.
    pub open spec fn messages(&self) -> Seq<MessageView> {
        self.choices@.map_values(|c: Choice| c.message@)
    }

    /// A copy of the first choice's message, or `None` where there is no
    /// choice at all.
    pub fn first_message(&self) -> (r: Option<Message>)
        ensures
            r is None <==> self.messages().len() == 0,
            r is Some ==> r->0@ == self.messages()[0],
    {
        if self.choices.len() == 0 {
            None
        } else {
            Some(self.choices[0].message.duplicate())
        }
    }
}

/// The text that a reply is emitted as: its content, then one line feed.
pub open spec fn payload_text(m: MessageView) -> Seq<char> {
    m.content.push('\n')
}

/// The bytes emitted for a reply: the UTF-8 encoding of its content followed
/// by one line feed.
pub fn reply_payload(m: &Message) -> (r: Vec<u8>)
    ensures
        r@ == encode_utf8(payload_text(m@)),
{
    let mut text = m.content.clone();
    text.append("\n");
    proof {
        reveal_strlit("\n");
    }
    assert(text@ =~= payload_text(m@));
    text.as_str().as_bytes_vec()
}

} // verus!

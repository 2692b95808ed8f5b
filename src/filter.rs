use vstd::prelude::*;
use vstd::string::StringSliceAdditionalSpecFns;
use vstd::utf8::{decode_utf8, encode_utf8, encode_utf8_decode_utf8, valid_utf8};

use crate::conversation::{apply_step, ConversationState, Step};
use crate::dispatcher::{Dispatcher, DispatcherView, Job, JobView};
use crate::message::{views, Message, MessageView};
use crate::request::{request_json, CompletionRequest, RequestView};
use crate::response::{payload_text, reply_payload, CompletionResponse};

verus! {

/// The model asked when none has been set.
pub const DEFAULT_MODEL: &'static str = "gpt-3.5-turbo";

/// What `process` tells the host: the reply, if any, comes later.
#[derive(Debug, Clone, Copy, PartialEq, Eq, Structural)]
pub enum EmissionSignal {
    NoImmediateOutput,
}

/// Why a chunk was dropped.
#[derive(Debug, Clone, Copy, PartialEq, Eq, Structural)]
pub enum StageError {
    /// The chunk is not valid UTF-8 text.
    Decode,
    /// The request could not be written in its wire form.
    Encode,
}

/// Why a job ended without a reply.
#[derive(Debug, Clone, Copy, PartialEq, Eq, Structural)]
pub enum TaskError {
    /// The call did not reach the remote service or got no answer.
    Transport,
    /// The remote service answered with a status other than success.
    Remote(u16),
    /// The answer's body is not a completion response with a choice.
    Parse,
}

/// How a call to the remote service ended, as the worker saw it.
#[derive(Debug)]
pub enum CallOutcome {
    /// A connection or transport failure.
    TransportFailed,
    /// An answer with this status; `reply` is its body read as a completion
    /// response, or `None` where the body is not one.
    Answered { status: u16, reply: Option<CompletionResponse> },
}

/// Whether an HTTP status reports success (2xx).
pub open spec fn is_success(status: u16) -> bool {
    200 <= status < 300
}

/// The reply a call outcome yields, or why it yields none.
pub open spec fn reply_of(outcome: CallOutcome) -> Result<MessageView, TaskError> {
    match outcome {
        CallOutcome::TransportFailed => Err(TaskError::Transport),
        CallOutcome::Answered { status, reply } => if !is_success(status) {
            Err(TaskError::Remote(status))
        } else {
            match reply {
                None => Err(TaskError::Parse),
                Some(resp) => if resp.messages().len() == 0 {
                    Err(TaskError::Parse)
                } else {
                    Ok(resp.messages()[0])
                },
            }
        },
    }
}

/// The reply of a call outcome: the first choice's message of a successful
/// answer.
pub fn decide_reply(outcome: &CallOutcome) -> (r: Result<Message, TaskError>)
    ensures
        match reply_of(*outcome) {
            Ok(m) => r is Ok && r->Ok_0@ == m,
            Err(e) => r == Err::<Message, TaskError>(e),
        },
{
    match outcome {
        CallOutcome::TransportFailed => Err(TaskError::Transport),
        CallOutcome::Answered { status, reply } => {
            if *status < 200 || *status >= 300 {
                Err(TaskError::Remote(*status))
            } else {
                match reply {
                    None => Err(TaskError::Parse),
                    Some(resp) => match resp.first_message() {
                        Some(m) => Ok(m),
                        None => Err(TaskError::Parse),
                    },
                }
            }
        },
    }
}

/// Relies on std::str::from_utf8: text exactly where the bytes are valid
/// UTF-8, and then the text those bytes encode.
#[verifier::external_body]
fn decode_text(b: &[u8]) -> (r: Option<&str>)
    ensures
        r is Some <==> valid_utf8(b@),
        r is Some ==> r->0.spec_bytes() == b@,
{
    std::str::from_utf8(b).ok()
}

/// The request that a turn builds from the model and the history snapshot.
pub open spec fn turn_request(model: Seq<char>, snapshot: Seq<MessageView>) -> RequestView {
    RequestView { model: model, messages: snapshot }
}

/// The text-to-text stage of one session: it owns the settings, the
/// conversation history and the queue of requests for the single worker.
pub struct OpenaiChatFilter {
    model: String,
    state: ConversationState,
    dispatcher: Dispatcher,
}

impl OpenaiChatFilter {
    /// The conversation so far.
    pub closed spec fn history(&self) -> Seq<MessageView> {
        self.state@
    }

    /// The model that requests name.
    pub closed spec fn model_spec(&self) -> Seq<char> {
        self.model@
    }

    /// The queue of requests for the worker.
    pub closed spec fn queue(&self) -> DispatcherView {
        self.dispatcher@
    }

    pub open spec fn wf(&self) -> bool {
        self.queue().wf()
    }

    /// How the stage stands after a user turn with text `text`, from `pre`.
    pub open spec fn turn_taken(
        pre: &Self,
        post: &Self,
        text: Seq<char>,
        r: Result<EmissionSignal, StageError>,
    ) -> bool {
        let h = apply_step(pre.history(), Step::Turn(text));
        &&& post.wf()
        &&& post.history() == h
        &&& post.model_spec() == pre.model_spec()
        &&& post.queue().busy == pre.queue().busy
        &&& post.queue().started == pre.queue().started
        &&& post.queue().finished == pre.queue().finished
        &&& match request_json(pre.model_spec(), h) {
            Some(body) => {
                &&& r == Ok::<EmissionSignal, StageError>(EmissionSignal::NoImmediateOutput)
                &&& post.queue().pending == pre.queue().pending.push(
                    JobView {
                        ticket: pre.queue().submitted(),
                        request: turn_request(pre.model_spec(), h),
                        body: body,
                    },
                )
            },
            None => {
                &&& r == Err::<EmissionSignal, StageError>(StageError::Encode)
                &&& post.queue().pending == pre.queue().pending
            },
        }
    }

    /// A fresh session: empty history, the default model, nothing queued.
    pub fn new() -> (r: OpenaiChatFilter)
        ensures
            r.wf(),
            r.history() == Seq::<MessageView>::empty(),
            r.model_spec() == DEFAULT_MODEL@,
            r.queue().pending.len() == 0,
            !r.queue().busy,
            r.queue().started == 0,
            r.queue().finished == 0,
    {
        OpenaiChatFilter {
            model: String::from_str(DEFAULT_MODEL),
            state: ConversationState::new(),
            dispatcher: Dispatcher::new(),
        }
    }

    /// The model that requests name.
    pub fn model(&self) -> (r: String)
        ensures
            r@ == self.model_spec(),
    {
        self.model.clone()
    }

    /// Sets the model; it applies to requests built from now on. The name is
    /// not checked.
    pub fn set_model(&mut self, model: String)
        ensures
            final(self).model_spec() == model@,
            final(self).history() == old(self).history(),
            final(self).queue() == old(self).queue(),
    {
        self.model = model;
    }

    /// A snapshot of the conversation so far.
    pub fn history_snapshot(&self) -> (r: Vec<Message>)
        ensures
            views(r@) == self.history(),
    {
        self.state.snapshot()
    }

    /// Whether a request is in flight.
    pub fn is_busy(&self) -> (r: bool)
        ensures
            r == self.queue().busy,
    {
        self.dispatcher.is_busy()
    }

    /// How many requests wait for the worker.
    pub fn pending_len(&self) -> (r: usize)
        ensures
            r == self.queue().pending.len(),
    {
        self.dispatcher.pending_len()
    }

    /// Takes a user turn of text: appends the priming message and the
    /// user's message to the history, builds a request from the model and
    /// the new history, and queues it. Never waits for the worker.
    pub fn process_text(&mut self, text: String) -> (r: Result<EmissionSignal, StageError>)
        requires
            old(self).wf(),
        ensures
            Self::turn_taken(old(self), final(self), text@, r),
    {
        let snapshot = self.state.begin_turn(text);
        let request = CompletionRequest::new(self.model.clone(), snapshot);
        match request.to_json() {
            Some(body) => {
                self.dispatcher.submit(request, body);
                Ok(EmissionSignal::NoImmediateOutput)
            },
            None => Err(StageError::Encode),
        }
    }

    /// Takes one chunk from the host. A chunk that is not valid UTF-8 is
    /// dropped and changes nothing; otherwise its text is a user turn, as in
    /// `process_text`.
    pub fn process(&mut self, chunk: &[u8]) -> (r: Result<EmissionSignal, StageError>)
        requires
            old(self).wf(),
        ensures
            !valid_utf8(chunk@) ==> {
                &&& r == Err::<EmissionSignal, StageError>(StageError::Decode)
                &&& final(self).history() == old(self).history()
                &&& final(self).model_spec() == old(self).model_spec()
                &&& final(self).queue() == old(self).queue()
            },
            valid_utf8(chunk@) ==> Self::turn_taken(old(self), final(self), decode_utf8(chunk@), r),
    {
        match decode_text(chunk) {
            None => Err(StageError::Decode),
            Some(text) => {
                proof {
                    encode_utf8_decode_utf8(text@);
                }
                assert(text@ == decode_utf8(chunk@));
                self.process_text(String::from_str(text))
            },
        }
    }

    /// For the worker: the oldest queued request, where none is in flight.
    pub fn start_next(&mut self) -> (r: Option<Job>)
        requires
            old(self).wf(),
        ensures
            final(self).wf(),
            final(self).history() == old(self).history(),
            final(self).model_spec() == old(self).model_spec(),
            (old(self).queue().busy || old(self).queue().pending.len() == 0) ==> r is None
                && final(self).queue() == old(self).queue(),
            !(old(self).queue().busy || old(self).queue().pending.len() == 0) ==> {
                &&& r is Some
                &&& r->0@ == old(self).queue().pending[0]
                &&& r->0@.ticket == old(self).queue().finished
                &&& final(self).queue().pending == old(self).queue().pending.drop_first()
                &&& final(self).queue().busy
                &&& final(self).queue().started == old(self).queue().started + 1
                &&& final(self).queue().finished == old(self).queue().finished
            },
    {
        self.dispatcher.start_next()
    }

    /// For the worker: ends the request in flight with how its call ended.
    /// A reply is appended to the history and its payload returned for
    /// emission; on any failure the history is left as it was.
    pub fn finish(&mut self, outcome: CallOutcome) -> (r: Result<Vec<u8>, TaskError>)
        requires
            old(self).wf(),
            old(self).queue().busy,
        ensures
            final(self).wf(),
            final(self).model_spec() == old(self).model_spec(),
            final(self).queue().pending == old(self).queue().pending,
            !final(self).queue().busy,
            final(self).queue().started == old(self).queue().started,
            final(self).queue().finished == old(self).queue().finished + 1,
            match reply_of(outcome) {
                Ok(m) => {
                    &&& r is Ok
                    &&& r->Ok_0@ == encode_utf8(payload_text(m))
                    &&& final(self).history() == apply_step(old(self).history(), Step::Reply(m))
                },
                Err(e) => {
                    &&& r == Err::<Vec<u8>, TaskError>(e)
                    &&& final(self).history() == old(self).history()
                },
            },
    {
        self.dispatcher.finish();
        match decide_reply(&outcome) {
            Ok(m) => {
                let payload = reply_payload(&m);
                self.state.record_reply(m);
                Ok(payload)
            },
            Err(e) => Err(e),
        }
    }
}

} // verus!

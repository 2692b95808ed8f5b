use vstd::prelude::*;

use crate::message::{copy_messages, views, Message, MessageView, Role};

verus! {

/// The persona instruction that primes the remote model. It is sent as a
/// system message at the start of every turn.
pub const PERSONA: &'static str = "
            あなたは陽気な高校生の患者で、現在は病院に来て発熱外来の診察をしています。本当にしんどい発熱なので、すごくつらそうです。
            返答は一言もしくは二言程度でお願いします。
            医者と話す際は基本的に語尾には「のだ。」や「なのだ。」を付けてください。
            そして一人称は「ボク」とし、必ず各文章に一人称をつけてください。
            少し怒りっぽく、子供っぽいところもあります。

            「ありがとうございます」等の感謝の言葉を受け取ったら診察は終了です。
            今回の診察における新米医者に対するフィードバックをベテラン医者の立場で行ってください。ただし、口調は上記の患者ですが、詳細なフィードバックをしてください。
            フィードバックに対しての質問が来た場合は、その質問に対しても答えてください。
            「ありがとうございます」等の感謝の言葉を受け取ったらフィードバックは終了です。
          ";

/// The priming message of every turn.
pub open spec fn priming() -> MessageView {
    MessageView { role: Role::System, content: PERSONA@ }
}

/// The messages that one turn with user text `text` appends: the priming
/// message, then the user's message.
pub open spec fn turn_messages(text: Seq<char>) -> Seq<MessageView> {
    seq![priming(), MessageView { role: Role::User, content: text }]
}

/// One change to a conversation history.
pub enum Step {
    /// A user turn with the given text.
    Turn(Seq<char>),
    /// A reply that came back from the remote service.
    Reply(MessageView),
}

/// The history after one step.
pub open spec fn apply_step(h: Seq<MessageView>, step: Step) -> Seq<MessageView> {
    match step {
        Step::Turn(text) => h + turn_messages(text),
        Step::Reply(m) => h.push(m),
    }
}

/// The history after a sequence of steps, taken in order.
pub open spec fn apply_steps(h: Seq<MessageView>, steps: Seq<Step>) -> Seq<MessageView>
    decreases steps.len(),
{
    if steps.len() == 0 {
        h
    } else {
        apply_step(apply_steps(h, steps.drop_last()), steps.last())
    }
}

/// The ordered message history of one session. It only ever grows: no
/// message is removed or reordered.
pub struct ConversationState {
    history: Vec<Message>,
}

impl View for ConversationState {
    type V = Seq<MessageView>;

    closed spec fn view(&self) -> Seq<MessageView> {
        views(self.history@)
    }
}

impl ConversationState {
    /// An empty history.
    pub fn new() -> (r: ConversationState)
        ensures
            r@ == Seq::<MessageView>::empty(),
    {
        let r = ConversationState { history: Vec::new() };
        assert(r@ =~= Seq::<MessageView>::empty());
        r
    }

    /// The number of messages recorded.
    pub fn len(&self) -> (r: usize)
        ensures
            r == self@.len(),
    {
        self.history.len()
    }

    /// A copy of the whole history. The state itself is left as it is.
    pub fn snapshot(&self) -> (r: Vec<Message>)
        ensures
            views(r@) == self@,
    {
        copy_messages(&self.history)
    }

    /// Appends one message at the end.
    pub fn append(&mut self, m: Message)
        ensures
            final(self)@ == old(self)@.push(m@),
    {
        self.history.push(m);
        assert(views(self.history@) =~= views(old(self).history@).push(m@));
    }

    /// Records a user turn: appends the priming message and the user's
    /// message, and returns a snapshot of the history that now includes them.
    pub fn begin_turn(&mut self, text: String) -> (r: Vec<Message>)
        ensures
            final(self)@ == apply_step(old(self)@, Step::Turn(text@)),
            views(r@) == final(self)@,
    {
        let ghost t = text@;
        self.append(Message::new(Role::System, String::from_str(PERSONA)));
        self.append(Message::new(Role::User, text));
        assert(self@ =~= apply_step(old(self)@, Step::Turn(t)));
        self.snapshot()
    }

    /// Records a reply of the remote service.
    pub fn record_reply(&mut self, m: Message)
        ensures
            final(self)@ == apply_step(old(self)@, Step::Reply(m@)),
    {
        self.append(m);
    }
}

/// The history is append-only: after any sequence of turns and replies, the
/// earlier history is still there unchanged at the start, and each step
/// added at least one message.
pub proof fn lemma_history_append_only(h: Seq<MessageView>, steps: Seq<Step>)
    ensures
        apply_steps(h, steps).len() >= h.len() + steps.len(),
        apply_steps(h, steps).subrange(0, h.len() as int) == h,
    decreases steps.len(),
{
    if steps.len() > 0 {
        let prev = apply_steps(h, steps.drop_last());
        lemma_history_append_only(h, steps.drop_last());
        let next = apply_step(prev, steps.last());
        assert(next.subrange(0, prev.len() as int) =~= prev);
        assert(next.subrange(0, h.len() as int) =~= prev.subrange(0, h.len() as int));
    }
}

/// A turn appends exactly a system message and then the user's message, and
/// its reply then follows them as the last message.
pub proof fn lemma_turn_shape(h: Seq<MessageView>, text: Seq<char>, reply: MessageView)
    ensures
        ({
            let s = apply_step(h, Step::Turn(text));
            let done = apply_step(s, Step::Reply(reply));
            &&& s.len() == h.len() + 2
            &&& s.subrange(0, h.len() as int) == h
            &&& s[h.len() as int].role == Role::System
            &&& s[h.len() as int] == priming()
            &&& s[h.len() + 1int] == (MessageView { role: Role::User, content: text })
            &&& done == s.push(reply)
        }),
{
    let s = apply_step(h, Step::Turn(text));
    assert(s.subrange(0, h.len() as int) =~= h);
}

/// Taking a snapshot changes nothing: two snapshots of one state, with no
/// append between them, are equal.
pub proof fn lemma_snapshots_agree(c: ConversationState, a: Seq<MessageView>, b: Seq<MessageView>)
    requires
        a == c@,
        b == c@,
    ensures
        a == b,
{
}

} // verus!

//! The echo session of the WebSocket route.

use vstd::prelude::*;
use vstd::string::*;

verus! {

/// Why a peer closes the connection.
#[derive(Debug, Clone, PartialEq, Eq)]
pub struct CloseReason {
    pub code: u16,
    pub description: Option<String>,
}

/// A frame that arrives from the client.
#[derive(Debug, Clone, PartialEq, Eq)]
pub enum Message {
    Text(String),
    Binary(Vec<u8>),
    Ping(Vec<u8>),
    Pong(Vec<u8>),
    Close(Option<CloseReason>),
    /// Anything else: a continuation frame, a no-op, a protocol error.
    Other,
}

/// What the session does on a frame.
#[derive(Debug, Clone, PartialEq, Eq)]
pub enum Reply {
    /// Send a text frame.
    Text(String),
    /// Send a binary frame.
    Binary(Vec<u8>),
    /// Send a pong frame.
    Pong(Vec<u8>),
    /// Send a close frame and end the session.
    Close(Option<CloseReason>),
    /// Send nothing.
    Nothing,
}

/// The text that is put before an echoed text.
pub open spec fn echo_prefix() -> Seq<char> {
    "Echo: "@
}

/// Whether `reply` is the answer of a running session to `msg`: a text comes
/// back behind the prefix, a binary payload unchanged, a ping's payload as a
/// pong, a close with its reason; nothing else is answered.
pub open spec fn answers(msg: Message, reply: Reply) -> bool {
    match msg {
        Message::Text(text) => reply matches Reply::Text(echo) && echo@ == echo_prefix() + text@,
        Message::Binary(payload) => reply == Reply::Binary(payload),
        Message::Ping(payload) => reply == Reply::Pong(payload),
        Message::Close(reason) => reply == Reply::Close(reason),
        _ => reply is Nothing,
    }
}

/// Whether a session has ended before it takes the frame at `at`: it had ended
/// at the start, or one of the frames before `at` is a close frame.
pub open spec fn ended_before(stopped: bool, frames: Seq<Message>, at: int) -> bool {
    stopped || exists|j: int| 0 <= j < at && j < frames.len() && (#[trigger] frames[j]) is Close
}

/// One echo session. It keeps nothing of the frames it has seen but whether a
/// close frame has ended it.
#[derive(Debug)]
pub struct EchoWs {
    stopped: bool,
}

impl EchoWs {
    /// Whether a close frame has ended the session.
    pub closed spec fn spec_is_stopped(&self) -> bool {
        self.stopped
    }

    /// A running session.
    pub fn new() -> (r: Self)
        ensures
            !r.is_stopped(),
    {
        EchoWs { stopped: false }
    }

    /// Whether a close frame has ended the session.
    #[verifier::when_used_as_spec(spec_is_stopped)]
    pub fn is_stopped(&self) -> (r: bool)
        ensures
            r == self.spec_is_stopped(),
    {
        self.stopped
    }

    /// Takes the next frame of the session and says what to send back.
    ///
    /// A running session answers each frame by itself. A close frame ends the
    /// session; an ended session stays so and sends nothing.
    pub fn handle(&mut self, msg: Message) -> (reply: Reply)
        ensures
            old(self).is_stopped() ==> reply is Nothing && final(self).is_stopped(),
            !old(self).is_stopped() ==> answers(msg, reply) && (final(self).is_stopped()
                <==> msg is Close),
    {
        if self.stopped {
            return Reply::Nothing;
        }
        match msg {
            Message::Text(text) => {
                let echo = String::from_str("Echo: ").concat(text.as_str());
                Reply::Text(echo)
            },
            Message::Binary(payload) => Reply::Binary(payload),
            Message::Ping(payload) => Reply::Pong(payload),
            Message::Close(reason) => {
                self.stopped = true;
                Reply::Close(reason)
            },
            _ => Reply::Nothing,
        }
    }

    /// Takes the frames of a session in their order of arrival and gives the
    /// reply to each, in the same order.
    ///
    /// Each frame up to and including the first close frame is answered by
    /// itself; the frames behind it are not answered.
    pub fn handle_all(&mut self, frames: Vec<Message>) -> (replies: Vec<Reply>)
        ensures
            replies@.len() == frames@.len(),
            forall|i: int|
                0 <= i < frames@.len() ==> if ended_before(old(self).is_stopped(), frames@, i) {
                    (#[trigger] replies@[i]) is Nothing
                } else {
                    answers(frames@[i], replies@[i])
                },
            final(self).is_stopped() == ended_before(
                old(self).is_stopped(),
                frames@,
                frames@.len() as int,
            ),
    {
        let ghost all = frames@;
        let ghost stopped = self.is_stopped();
        let mut replies: Vec<Reply> = Vec::new();
        for msg in it: frames.into_iter()
            invariant
                it.seq() == all,
                replies@.len() == it.index(),
                forall|i: int|
                    0 <= i < it.index() ==> if ended_before(stopped, all, i) {
                        (#[trigger] replies@[i]) is Nothing
                    } else {
                        answers(all[i], replies@[i])
                    },
                self.is_stopped() == ended_before(stopped, all, it.index() as int),
        {
            let ghost at = it.index() as int;
            let reply = self.handle(msg);
            replies.push(reply);
            proof {
                if all[at] is Close {
                    assert(ended_before(stopped, all, at + 1));
                }
            }
        }
        replies
    }
}

} // verus!

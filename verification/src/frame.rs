//! Request and reply frames: the rows through which actors talk.

use vstd::prelude::*;
use crate::error::{SystemActorError, SystemActorErrorView};
use crate::identity::{ActorId, ActorIdView};
use crate::text::same_text;
use crate::time::Timestamp;

verus! {

/// A request frame as plain values.
pub struct FrameRequestView {
    pub request_id: Seq<char>,
    pub sender: ActorIdView,
    pub recipient: ActorIdView,
    pub message_tag: Seq<char>,
    pub payload: Seq<u8>,
    pub created_at: int,
}

/// A message on its way to its recipient. Once written it never changes;
/// it is deleted when the recipient has handled it.
#[derive(Debug)]
pub struct FrameRequest {
    /// Identifies the request; the replies carry it too.
    pub request_id: String,
    pub sender: ActorId,
    pub recipient: ActorId,
    /// The tag of the payload's type.
    pub message_tag: String,
    /// The message, serialized.
    pub payload: Vec<u8>,
    pub created_at: Timestamp,
}

impl View for FrameRequest {
    type V = FrameRequestView;

    open spec fn view(&self) -> FrameRequestView {
        FrameRequestView {
            request_id: self.request_id@,
            sender: self.sender@,
            recipient: self.recipient@,
            message_tag: self.message_tag@,
            payload: self.payload@,
            created_at: self.created_at@,
        }
    }
}

impl FrameRequest {
    /// The payload, if the frame carries a message of the type tagged
    /// `tag`; `None` for any other frame, so that an actor can pass over
    /// messages it does not know.
    pub fn is(&self, tag: &str) -> (payload: Option<&Vec<u8>>)
        ensures
            self@.message_tag == tag@ ==> payload.is_some() && payload.unwrap()@ == self@.payload,
            self@.message_tag != tag@ ==> payload.is_none(),
    {
        if same_text(self.message_tag.as_str(), tag) {
            Some(&self.payload)
        } else {
            None
        }
    }

    /// The payload of a frame that must carry a message of the type tagged
    /// `tag`; `MessageTypeMismatch` for any other frame.
    pub fn payload_for(&self, tag: &str) -> (payload: Result<&Vec<u8>, SystemActorError>)
        ensures
            self@.message_tag == tag@ ==> payload.is_ok() && payload.unwrap()@ == self@.payload,
            self@.message_tag != tag@ ==> payload.is_err() && payload.unwrap_err()@
                == SystemActorErrorView::MessageTypeMismatch,
    {
        match self.is(tag) {
            Some(payload) => Ok(payload),
            None => Err(SystemActorError::MessageTypeMismatch),
        }
    }

    /// Whether the frame is addressed to the actor `id`.
    pub fn is_for(&self, id: &ActorId) -> (mine: bool)
        ensures
            mine == (self@.recipient == id@),
    {
        self.recipient == *id
    }
}

/// What a reply frame carries, as plain values.
pub enum ReplyBodyView {
    Payload(Seq<u8>),
    EndOfStream,
    Error(Seq<char>),
}

impl ReplyBodyView {
    /// Whether the body ends the replies to its request.
    pub open spec fn is_terminal(self) -> bool {
        !(self is Payload)
    }
}

/// What a reply frame carries.
#[derive(Debug)]
pub enum ReplyBody {
    /// One reply, serialized.
    Payload(Vec<u8>),
    /// The handler returned: no reply follows.
    EndOfStream,
    /// The handler failed, with how its error reads: no reply follows.
    Error(String),
}

impl View for ReplyBody {
    type V = ReplyBodyView;

    open spec fn view(&self) -> ReplyBodyView {
        match self {
            ReplyBody::Payload(payload) => ReplyBodyView::Payload(payload@),
            ReplyBody::EndOfStream => ReplyBodyView::EndOfStream,
            ReplyBody::Error(text) => ReplyBodyView::Error(text@),
        }
    }
}

impl ReplyBody {
    /// Whether the body ends the replies to its request.
    pub fn is_terminal(&self) -> (terminal: bool)
        ensures
            terminal == self@.is_terminal(),
    {
        match self {
            ReplyBody::Payload(_) => false,
            _ => true,
        }
    }
}

/// A reply frame as plain values.
pub struct FrameReplyView {
    pub reply_id: Seq<char>,
    pub request_id: Seq<char>,
    pub sender: ActorIdView,
    pub recipient: ActorIdView,
    pub body: ReplyBodyView,
    pub sequence: nat,
    pub created_at: int,
}

/// One answer to a request, or the frame that ends the answers. The
/// replies to one request are ordered by their sequence numbers.
#[derive(Debug)]
pub struct FrameReply {
    pub reply_id: String,
    /// The request that this frame answers.
    pub request_id: String,
    /// The actor that answers.
    pub sender: ActorId,
    /// The actor that asked.
    pub recipient: ActorId,
    pub body: ReplyBody,
    /// The place of the frame among the replies to its request, from 1.
    pub sequence: u64,
    pub created_at: Timestamp,
}

impl View for FrameReply {
    type V = FrameReplyView;

    open spec fn view(&self) -> FrameReplyView {
        FrameReplyView {
            reply_id: self.reply_id@,
            request_id: self.request_id@,
            sender: self.sender@,
            recipient: self.recipient@,
            body: self.body@,
            sequence: self.sequence as nat,
            created_at: self.created_at@,
        }
    }
}

} // verus!

//! Sending a request, answering it, and reading the answers: the write
//! path of the sender, the reply protocol of the recipient, and the stream
//! of replies that the sender observes.

use vstd::prelude::*;
use crate::error::{SystemActorError, SystemActorErrorView};
use crate::frame::{
    FrameReply, FrameReplyView, FrameRequest, FrameRequestView, ReplyBody, ReplyBodyView,
};
use crate::identity::{ActorId, ActorIdView};
use crate::lifecycle::{kill_writes, none_creates_record, lemma_killed_is_unhealthy, ActorWriteView, StoredActor};
use crate::text::{copy_text, same_text};
use crate::time::{Span, Timestamp};

verus! {

/// Options of a send.
#[derive(Clone, Copy, Debug, PartialEq, Eq, Structural)]
pub struct SendOptions {
    /// Whether the recipient's health is checked before the request is
    /// written.
    pub check_health: bool,
    /// The longest time to wait for the next reply; `None` waits for ever.
    pub timeout: Option<Span>,
}

impl Default for SendOptions {
    fn default() -> (options: SendOptions)
        ensures
            !options.check_health,
            options.timeout.is_none(),
    {
        SendOptions { check_health: false, timeout: None }
    }
}

/// Collects the send options that were given.
#[derive(Clone, Copy, Debug)]
pub struct SendOptionsBuilder {
    pub check_health: Option<bool>,
    pub timeout: Option<Span>,
}

impl SendOptionsBuilder {
    /// Sets whether the recipient's health is checked first.
    pub fn check_health(self, check_health: bool) -> (builder: SendOptionsBuilder)
        ensures
            builder.check_health == Some(check_health),
            builder.timeout == self.timeout,
    {
        SendOptionsBuilder { check_health: Some(check_health), timeout: self.timeout }
    }

    /// Sets the longest time to wait for the next reply.
    pub fn timeout(self, timeout: Span) -> (builder: SendOptionsBuilder)
        ensures
            builder.check_health == self.check_health,
            builder.timeout == Some(timeout),
    {
        SendOptionsBuilder { check_health: self.check_health, timeout: Some(timeout) }
    }

    /// The options: no health check unless one was asked for, and no
    /// timeout unless one was given.
    pub fn build(self) -> (options: SendOptions)
        ensures
            options.check_health == (self.check_health == Some(true)),
            options.timeout == self.timeout,
    {
        let check_health = match self.check_health {
            Some(check) => check,
            None => false,
        };
        SendOptions { check_health, timeout: self.timeout }
    }
}

impl SendOptions {
    /// A builder in which no option is set yet.
    pub fn builder() -> (builder: SendOptionsBuilder)
        ensures
            builder.check_health.is_none(),
            builder.timeout.is_none(),
    {
        SendOptionsBuilder { check_health: None, timeout: None }
    }
}

/// The length of a span that may be absent, in nanoseconds.
pub open spec fn span_view(span: Option<Span>) -> Option<nat> {
    match span {
        Some(span) => Some(span@),
        None => None,
    }
}

/// The state of a reply stream as plain values.
pub struct ReplyStreamView {
    pub request_id: Seq<char>,
    /// The sequence number of the last frame taken; 0 before the first.
    pub watermark: nat,
    /// Whether the stream has ended.
    pub done: bool,
    pub timeout: Option<nat>,
    /// When the stream was opened or last took a frame.
    pub last_progress: int,
}

/// What a reply stream hands to its reader, as plain values.
pub enum PollView {
    Item(Seq<u8>),
    Failed(SystemActorErrorView),
    End,
    Pending,
}

/// What a reply stream hands to its reader.
#[derive(Debug)]
pub enum Poll {
    /// The next reply, serialized.
    Item(Vec<u8>),
    /// An error; the stream has ended with it.
    Failed(SystemActorError),
    /// The stream has ended.
    End,
    /// Nothing yet: the reader goes on waiting.
    Pending,
}

impl View for Poll {
    type V = PollView;

    open spec fn view(&self) -> PollView {
        match self {
            Poll::Item(payload) => PollView::Item(payload@),
            Poll::Failed(error) => PollView::Failed(error@),
            Poll::End => PollView::End,
            Poll::Pending => PollView::Pending,
        }
    }
}

/// The replies to one request as their sender-to-be observes them. The
/// stream takes the frames that answer its request in the order of their
/// sequence numbers and ends with the first terminal frame, or when the
/// time allowed between two frames runs out.
#[derive(Debug)]
pub struct ReplyStream {
    request_id: String,
    watermark: u64,
    done: bool,
    timeout: Option<Span>,
    last_progress: Timestamp,
}

impl View for ReplyStream {
    type V = ReplyStreamView;

    closed spec fn view(&self) -> ReplyStreamView {
        ReplyStreamView {
            request_id: self.request_id@,
            watermark: self.watermark as nat,
            done: self.done,
            timeout: span_view(self.timeout),
            last_progress: self.last_progress@,
        }
    }
}

impl ReplyStreamView {
    /// The stream for the request `request_id`, opened at `now`.
    pub open spec fn opened(request_id: Seq<char>, timeout: Option<nat>, now: int) -> ReplyStreamView {
        ReplyStreamView { request_id, watermark: 0, done: false, timeout, last_progress: now }
    }

    /// Whether the stream takes `frame`: the stream has not ended, the
    /// frame answers its request and lies beyond the last frame taken.
    pub open spec fn takes(self, frame: FrameReplyView) -> bool {
        !self.done && frame.request_id == self.request_id && frame.sequence > self.watermark
    }

    /// The stream after `frame` arrived at `now`, and what the reader gets.
    pub open spec fn on_frame(self, frame: FrameReplyView, now: int) -> (ReplyStreamView, PollView) {
        if self.done {
            (self, PollView::End)
        } else if !self.takes(frame) {
            (self, PollView::Pending)
        } else {
            let taken = ReplyStreamView { watermark: frame.sequence, last_progress: now, ..self };
            match frame.body {
                ReplyBodyView::Payload(payload) => (taken, PollView::Item(payload)),
                ReplyBodyView::EndOfStream => (
                    ReplyStreamView { done: true, ..taken },
                    PollView::End,
                ),
                ReplyBodyView::Error(text) => (
                    ReplyStreamView { done: true, ..taken },
                    PollView::Failed(SystemActorErrorView::HandlerError(text)),
                ),
            }
        }
    }

    /// Whether the time allowed between two frames has run out at `now`.
    pub open spec fn timed_out(self, now: int) -> bool {
        match self.timeout {
            Some(timeout) => now - self.last_progress > timeout,
            None => false,
        }
    }

    /// The stream after the reader looked at the clock at `now`, and what
    /// the reader gets.
    pub open spec fn on_tick(self, now: int) -> (ReplyStreamView, PollView) {
        if self.done {
            (self, PollView::End)
        } else if self.timed_out(now) {
            (
                ReplyStreamView { done: true, ..self },
                PollView::Failed(SystemActorErrorView::ReplyTimeout),
            )
        } else {
            (self, PollView::Pending)
        }
    }
}

impl ReplyStream {
    /// The stream of the replies to the request `request_id`, opened at
    /// `now`.
    pub fn open(request_id: String, timeout: Option<Span>, now: Timestamp) -> (stream: ReplyStream)
        ensures
            stream@ == ReplyStreamView::opened(request_id@, span_view(timeout), now@),
    {
        ReplyStream { request_id, watermark: 0, done: false, timeout, last_progress: now }
    }

    /// Whether the stream has ended.
    pub fn is_done(&self) -> (done: bool)
        ensures
            done == self@.done,
    {
        self.done
    }

    /// A frame arrived at `now`. A frame that answers another request, or
    /// whose sequence number does not lie beyond the last frame taken, is
    /// passed over. A reply is handed to the reader; a terminal frame ends
    /// the stream, with the handler's error if it carries one. Once the
    /// stream has ended, every frame is answered with `End`.
    pub fn on_frame(&mut self, frame: FrameReply, now: Timestamp) -> (poll: Poll)
        ensures
            (final(self)@, poll@) == old(self)@.on_frame(frame@, now@),
    {
        if self.done {
            return Poll::End;
        }
        if !same_text(frame.request_id.as_str(), self.request_id.as_str()) || frame.sequence
            <= self.watermark {
            return Poll::Pending;
        }
        self.watermark = frame.sequence;
        self.last_progress = now;
        match frame.body {
            ReplyBody::Payload(payload) => Poll::Item(payload),
            ReplyBody::EndOfStream => {
                self.done = true;
                Poll::End
            },
            ReplyBody::Error(text) => {
                self.done = true;
                Poll::Failed(SystemActorError::HandlerError(text))
            },
        }
    }

    /// The reader looked at the clock at `now`. If more than the timeout
    /// has passed since the stream was opened or last took a frame, the
    /// stream ends with `ReplyTimeout`; a stream without a timeout waits
    /// for ever.
    pub fn on_tick(&mut self, now: Timestamp) -> (poll: Poll)
        ensures
            (final(self)@, poll@) == old(self)@.on_tick(now@),
    {
        if self.done {
            return Poll::End;
        }
        let late = match &self.timeout {
            Some(timeout) => now.is_more_than_after(1, timeout, &self.last_progress),
            None => false,
        };
        if late {
            self.done = true;
            Poll::Failed(SystemActorError::ReplyTimeout)
        } else {
            Poll::Pending
        }
    }
}

/// Whether a send is refused: the health check was asked for and found the
/// recipient unhealthy.
pub open spec fn send_refused(options: SendOptions, recipient_healthy: bool) -> bool {
    options.check_health && !recipient_healthy
}

/// What a send that is not refused does.
#[derive(Debug)]
pub struct Sending {
    /// The request frame to insert.
    pub request: FrameRequest,
    /// The stream on which the replies are read.
    pub stream: ReplyStream,
}

/// Decides a send at `now`. `recipient_healthy` is what the health check
/// of the recipient found; it counts only where the options ask for the
/// check. A send that is refused returns `UnhealthyActor` and writes
/// nothing. Any other send inserts one request frame, whether or not the
/// recipient exists, and opens the stream of its replies.
pub fn plan_send(
    options: &SendOptions,
    recipient_healthy: bool,
    request_id: String,
    sender: &ActorId,
    recipient: &ActorId,
    message_tag: &str,
    payload: Vec<u8>,
    now: Timestamp,
) -> (sending: Result<Sending, SystemActorError>)
    ensures
        send_refused(*options, recipient_healthy) ==> sending is Err && sending->Err_0@
            == SystemActorErrorView::UnhealthyActor(recipient@),
        !send_refused(*options, recipient_healthy) ==> {
            &&& sending is Ok
            &&& sending->Ok_0.request@ == (FrameRequestView {
                request_id: request_id@,
                sender: sender@,
                recipient: recipient@,
                message_tag: message_tag@,
                payload: payload@,
                created_at: now@,
            })
            &&& sending->Ok_0.stream@ == ReplyStreamView::opened(
                request_id@,
                span_view(options.timeout),
                now@,
            )
        },
{
    if options.check_health && !recipient_healthy {
        return Err(SystemActorError::UnhealthyActor(recipient.clone()));
    }
    let stream = ReplyStream::open(copy_text(&request_id), options.timeout, now);
    let request = FrameRequest {
        request_id,
        sender: sender.clone(),
        recipient: recipient.clone(),
        message_tag: message_tag.to_owned(),
        payload,
        created_at: now,
    };
    Ok(Sending { request, stream })
}

/// The state of a reply writer as plain values.
pub struct ReplyWriterView {
    pub request_id: Seq<char>,
    /// The actor that answers: the recipient of the request.
    pub actor: ActorIdView,
    /// The actor that asked: the sender of the request.
    pub requester: ActorIdView,
    /// The number of replies written so far.
    pub sent: nat,
}

impl ReplyWriterView {
    /// The writer at the start of the handling of `request`.
    pub open spec fn begun(request: FrameRequestView) -> ReplyWriterView {
        ReplyWriterView {
            request_id: request.request_id,
            actor: request.recipient,
            requester: request.sender,
            sent: 0,
        }
    }

    /// The writer after `more` further replies.
    pub open spec fn advanced(self, more: nat) -> ReplyWriterView {
        ReplyWriterView { sent: self.sent + more, ..self }
    }

    /// The frame that the writer writes next: it answers the request, goes
    /// from the actor to the requester, and carries the next sequence
    /// number.
    pub open spec fn frame(self, reply_id: Seq<char>, body: ReplyBodyView, now: int) -> FrameReplyView {
        FrameReplyView {
            reply_id,
            request_id: self.request_id,
            sender: self.actor,
            recipient: self.requester,
            body,
            sequence: self.sent + 1,
            created_at: now,
        }
    }
}

/// Writes the replies to one request while its handler runs. The writer
/// numbers the frames from 1; `finish` takes the writer, so that one
/// request gets one terminal frame and no reply after it.
#[derive(Debug)]
pub struct ReplyWriter {
    request_id: String,
    actor: ActorId,
    requester: ActorId,
    sent: u64,
}

impl View for ReplyWriter {
    type V = ReplyWriterView;

    closed spec fn view(&self) -> ReplyWriterView {
        ReplyWriterView {
            request_id: self.request_id@,
            actor: self.actor@,
            requester: self.requester@,
            sent: self.sent as nat,
        }
    }
}

/// The body of the terminal frame for a handler that ended with `outcome`:
/// end of stream after success, and after a failure the error as it reads.
pub open spec fn terminal_body(outcome: Result<(), String>) -> ReplyBodyView {
    match outcome {
        Ok(_) => ReplyBodyView::EndOfStream,
        Err(text) => ReplyBodyView::Error(text@),
    }
}

/// What the end of a handler does.
#[derive(Debug)]
pub struct Completion {
    /// The terminal frame to write.
    pub terminal: FrameReply,
    /// The id of the request to delete once the terminal frame is written.
    pub delete_request: String,
}

impl ReplyWriter {
    /// The writer for the handling of `request`.
    pub fn begin(request: &FrameRequest) -> (writer: ReplyWriter)
        ensures
            writer@ == ReplyWriterView::begun(request@),
    {
        ReplyWriter {
            request_id: copy_text(&request.request_id),
            actor: request.recipient.clone(),
            requester: request.sender.clone(),
            sent: 0,
        }
    }

    /// Whether the replies have somewhere to go: `ActorNotFound` with the
    /// id of the actor that asked, if the store holds no record of it
    /// (`requester_exists` says whether it does).
    pub fn check_requester(&self, requester_exists: bool) -> (checked: Result<
        (),
        SystemActorError,
    >)
        ensures
            requester_exists ==> checked is Ok,
            !requester_exists ==> checked is Err && checked->Err_0@
                == SystemActorErrorView::ActorNotFound(self@.requester),
    {
        if requester_exists {
            Ok(())
        } else {
            Err(SystemActorError::ActorNotFound(self.requester.clone()))
        }
    }

    /// The number of replies written so far.
    pub fn sent(&self) -> (sent: u64)
        ensures
            sent == self@.sent,
    {
        self.sent
    }

    /// Whether the sequence numbers leave room for one more reply and the
    /// terminal frame after it.
    pub fn can_reply(&self) -> (can: bool)
        ensures
            can == (self@.sent + 2 <= u64::MAX),
    {
        self.sent < u64::MAX - 1
    }

    /// The frame for one reply, written at `now` under the id `reply_id`.
    /// It carries the next sequence number.
    pub fn reply(&mut self, reply_id: String, payload: Vec<u8>, now: Timestamp) -> (frame:
        FrameReply)
        requires
            old(self)@.sent + 2 <= u64::MAX,
        ensures
            frame@ == old(self)@.frame(reply_id@, ReplyBodyView::Payload(payload@), now@),
            final(self)@ == old(self)@.advanced(1),
    {
        self.sent = self.sent + 1;
        FrameReply {
            reply_id,
            request_id: copy_text(&self.request_id),
            sender: self.actor.clone(),
            recipient: self.requester.clone(),
            body: ReplyBody::Payload(payload),
            sequence: self.sent,
            created_at: now,
        }
    }

    /// The end of the handler at `now`: the terminal frame, written under
    /// the id `reply_id`, and the request to delete. After success the
    /// frame marks the end of the stream; after a failure it carries the
    /// handler's error as it reads.
    pub fn finish(self, reply_id: String, outcome: Result<(), String>, now: Timestamp) -> (done:
        Completion)
        requires
            self@.sent + 1 <= u64::MAX,
        ensures
            done.terminal@ == self@.frame(reply_id@, terminal_body(outcome), now@),
            done.delete_request@ == self@.request_id,
    {
        let body = match outcome {
            Ok(_) => ReplyBody::EndOfStream,
            Err(text) => ReplyBody::Error(text),
        };
        let terminal = FrameReply {
            reply_id,
            request_id: copy_text(&self.request_id),
            sender: self.actor,
            recipient: self.requester,
            body,
            sequence: self.sent + 1,
            created_at: now,
        };
        Completion { terminal, delete_request: self.request_id }
    }
}

/// Keeps the first thing that a reply stream hands over while the rest of
/// the stream is read to its end.
#[derive(Debug)]
pub struct FirstReply {
    first: Option<Result<Vec<u8>, SystemActorError>>,
}

/// A reply or an error, as plain values.
pub open spec fn outcome_view(outcome: Option<Result<Vec<u8>, SystemActorError>>) -> Option<
    Result<Seq<u8>, SystemActorErrorView>,
> {
    match outcome {
        Some(Ok(payload)) => Some(Ok(payload@)),
        Some(Err(error)) => Some(Err(error@)),
        None => None,
    }
}

/// What is kept once `poll` was observed with `first` in hand: the first
/// reply or error stays, and whatever follows is dropped.
pub open spec fn first_kept(
    first: Option<Result<Seq<u8>, SystemActorErrorView>>,
    poll: PollView,
) -> Option<Result<Seq<u8>, SystemActorErrorView>> {
    match (first, poll) {
        (None, PollView::Item(payload)) => Some(Ok(payload)),
        (None, PollView::Failed(error)) => Some(Err(error)),
        _ => first,
    }
}

/// Whether the reader goes on reading after `poll`: until the stream ends.
pub open spec fn reads_on(poll: PollView) -> bool {
    poll is Item || poll is Pending
}

impl View for FirstReply {
    type V = Option<Result<Seq<u8>, SystemActorErrorView>>;

    closed spec fn view(&self) -> Option<Result<Seq<u8>, SystemActorErrorView>> {
        outcome_view(self.first)
    }
}

impl FirstReply {
    /// Nothing observed yet.
    pub fn new() -> (waiting: FirstReply)
        ensures
            waiting@ is None,
    {
        FirstReply { first: None }
    }

    /// Takes what the stream handed over and says whether the stream is to
    /// be read on. The first reply or error is kept; later ones are
    /// dropped; reading goes on until the stream has ended.
    pub fn observe(&mut self, poll: Poll) -> (read_on: bool)
        ensures
            final(self)@ == first_kept(old(self)@, poll@),
            read_on == reads_on(poll@),
    {
        let read_on = match &poll {
            Poll::Item(_) => true,
            Poll::Pending => true,
            _ => false,
        };
        if self.first.is_none() {
            match poll {
                Poll::Item(payload) => {
                    self.first = Some(Ok(payload));
                },
                Poll::Failed(error) => {
                    self.first = Some(Err(error));
                },
                _ => {},
            }
        }
        read_on
    }

    /// The first reply or error that was observed; `None` if the stream
    /// ended without either.
    pub fn finish(self) -> (first: Option<Result<Vec<u8>, SystemActorError>>)
        ensures
            outcome_view(first) == self@,
    {
        self.first
    }
}

/// One reply as a handler makes it: the id under which it is written, its
/// payload, and when it is written.
pub struct ReplyMade {
    pub reply_id: Seq<char>,
    pub payload: Seq<u8>,
    pub at: int,
}

/// The frames that `writer` writes for `replies`, in order.
pub open spec fn reply_frames(writer: ReplyWriterView, replies: Seq<ReplyMade>) -> Seq<
    FrameReplyView,
> {
    Seq::new(
        replies.len(),
        |i: int|
            writer.advanced(i as nat).frame(
                replies[i].reply_id,
                ReplyBodyView::Payload(replies[i].payload),
                replies[i].at,
            ),
    )
}

/// All the frames that the handling of one request writes: one for each of
/// `replies`, then the terminal frame for `outcome`.
pub open spec fn handled_frames(
    writer: ReplyWriterView,
    replies: Seq<ReplyMade>,
    terminal_id: Seq<char>,
    outcome: Result<(), String>,
    at: int,
) -> Seq<FrameReplyView> {
    reply_frames(writer, replies).push(
        writer.advanced(replies.len()).frame(terminal_id, terminal_body(outcome), at),
    )
}

/// The frames written for one request all answer it, carry the sequence
/// numbers 1, 2, 3 and so on without a gap, and so in strictly increasing
/// order; the last of them is terminal, and no other is.
pub proof fn lemma_written_frames(
    request: FrameRequestView,
    replies: Seq<ReplyMade>,
    terminal_id: Seq<char>,
    outcome: Result<(), String>,
    at: int,
)
    ensures
        ({
            let frames = handled_frames(
                ReplyWriterView::begun(request),
                replies,
                terminal_id,
                outcome,
                at,
            );
            &&& frames.len() == replies.len() + 1
            &&& forall|i: int|
                0 <= i < frames.len() ==> (#[trigger] frames[i]).request_id == request.request_id
            &&& forall|i: int| 0 <= i < frames.len() ==> (#[trigger] frames[i]).sequence == i + 1
            &&& forall|i: int, j: int|
                0 <= i < j < frames.len() ==> (#[trigger] frames[i]).sequence < (
                #[trigger] frames[j]).sequence
            &&& forall|i: int|
                0 <= i < frames.len() ==> ((#[trigger] frames[i]).body.is_terminal() <==> i
                    == replies.len())
        }),
{
}

/// A frame as it reaches a reply stream, and when.
pub struct Arrival {
    pub frame: FrameReplyView,
    pub at: int,
}

/// The frames `frames` arriving in order at the instants `times`.
pub open spec fn arrivals_of(frames: Seq<FrameReplyView>, times: Seq<int>) -> Seq<Arrival> {
    Seq::new(frames.len(), |i: int| Arrival { frame: frames[i], at: times[i] })
}

/// What the reader of a stream gets for each of `replies`.
pub open spec fn items_of(replies: Seq<ReplyMade>) -> Seq<PollView> {
    Seq::new(replies.len(), |i: int| PollView::Item(replies[i].payload))
}

/// What the reader of a stream gets for the terminal frame of a handler
/// that ended with `outcome`.
pub open spec fn terminal_poll(outcome: Result<(), String>) -> PollView {
    match outcome {
        Ok(_) => PollView::End,
        Err(text) => PollView::Failed(SystemActorErrorView::HandlerError(text@)),
    }
}

impl ReplyStreamView {
    /// The stream after the frames of `arrivals` arrived in order, and what
    /// the reader got for each.
    pub open spec fn feed(self, arrivals: Seq<Arrival>) -> (ReplyStreamView, Seq<PollView>)
        decreases arrivals.len(),
    {
        if arrivals.len() == 0 {
            (self, Seq::empty())
        } else {
            let (before, polls) = self.feed(arrivals.drop_last());
            let (after, poll) = before.on_frame(arrivals.last().frame, arrivals.last().at);
            (after, polls.push(poll))
        }
    }
}

/// A stream that stands where `writer` stands gets each reply that the
/// writer writes, in order, and stands where the writer stands afterwards.
proof fn lemma_feed_replies(
    stream: ReplyStreamView,
    writer: ReplyWriterView,
    replies: Seq<ReplyMade>,
    times: Seq<int>,
)
    requires
        !stream.done,
        stream.request_id == writer.request_id,
        stream.watermark == writer.sent,
        times.len() == replies.len(),
    ensures
        ({
            let (after, polls) = stream.feed(arrivals_of(reply_frames(writer, replies), times));
            &&& !after.done
            &&& after.request_id == stream.request_id
            &&& after.timeout == stream.timeout
            &&& after.watermark == writer.sent + replies.len()
            &&& polls == items_of(replies)
        }),
    decreases replies.len(),
{
    let arrivals = arrivals_of(reply_frames(writer, replies), times);
    if replies.len() == 0 {
        assert(stream.feed(arrivals).1 =~= items_of(replies));
    } else {
        let fewer = replies.drop_last();
        lemma_feed_replies(stream, writer, fewer, times.drop_last());
        assert(arrivals.drop_last() =~= arrivals_of(
            reply_frames(writer, fewer),
            times.drop_last(),
        ));
        let (before, polls) = stream.feed(arrivals.drop_last());
        let last = arrivals.last();
        assert(last.frame.sequence == writer.sent + replies.len());
        assert(before.takes(last.frame));
        assert(polls.push(before.on_frame(last.frame, last.at).1) =~= items_of(replies));
    }
}

/// The sender observes what the recipient wrote: a stream opened for a
/// request gets, from the frames written for that request and arriving in
/// the order of their sequence numbers, each reply in turn and then the
/// end of the stream (the handler's error, if it failed), and has ended.
/// A handler that made no reply leaves the stream empty.
pub proof fn lemma_replies_delivered(
    request: FrameRequestView,
    timeout: Option<nat>,
    opened_at: int,
    replies: Seq<ReplyMade>,
    terminal_id: Seq<char>,
    outcome: Result<(), String>,
    at: int,
    times: Seq<int>,
)
    requires
        times.len() == replies.len() + 1,
    ensures
        ({
            let stream = ReplyStreamView::opened(request.request_id, timeout, opened_at);
            let frames = handled_frames(
                ReplyWriterView::begun(request),
                replies,
                terminal_id,
                outcome,
                at,
            );
            let (after, polls) = stream.feed(arrivals_of(frames, times));
            &&& after.done
            &&& polls == items_of(replies).push(terminal_poll(outcome))
        }),
{
    let stream = ReplyStreamView::opened(request.request_id, timeout, opened_at);
    let writer = ReplyWriterView::begun(request);
    let frames = handled_frames(writer, replies, terminal_id, outcome, at);
    let arrivals = arrivals_of(frames, times);
    lemma_feed_replies(stream, writer, replies, times.drop_last());
    assert(arrivals.drop_last() =~= arrivals_of(reply_frames(writer, replies), times.drop_last()));
    let (before, polls) = stream.feed(arrivals.drop_last());
    let last = arrivals.last();
    assert(last.frame == frames[replies.len() as int]);
    assert(before.takes(last.frame));
}

/// A stream takes frames only in strictly increasing order of their
/// sequence numbers: a frame that is handed to the reader lies beyond
/// every frame taken before it, and moves the watermark to itself. No
/// frame moves the watermark back.
pub proof fn lemma_taken_in_order(stream: ReplyStreamView, frame: FrameReplyView, now: int)
    ensures
        stream.on_frame(frame, now).0.watermark >= stream.watermark,
        stream.on_frame(frame, now).1 is Item ==> frame.sequence > stream.watermark
            && stream.on_frame(frame, now).0.watermark == frame.sequence,
        stream.on_frame(frame, now).0.request_id == stream.request_id,
        stream.done ==> stream.on_frame(frame, now).0.done,
{
}

impl ReplyStreamView {
    /// The sequence numbers of the frames among `arrivals` whose replies
    /// the stream hands to its reader, in the order in which it does.
    pub open spec fn handed_out(self, arrivals: Seq<Arrival>) -> Seq<nat>
        decreases arrivals.len(),
    {
        if arrivals.len() == 0 {
            Seq::empty()
        } else {
            let before = self.feed(arrivals.drop_last()).0;
            let earlier = self.handed_out(arrivals.drop_last());
            if before.on_frame(arrivals.last().frame, arrivals.last().at).1 is Item {
                earlier.push(arrivals.last().frame.sequence)
            } else {
                earlier
            }
        }
    }
}

/// Whatever arrives and in whatever order, the reader of a stream gets
/// replies in strictly increasing order of their sequence numbers: each
/// reply handed out lies beyond the watermark at which the stream started
/// and beyond every reply handed out before it.
pub proof fn lemma_handed_out_in_order(stream: ReplyStreamView, arrivals: Seq<Arrival>)
    ensures
        stream.feed(arrivals).0.watermark >= stream.watermark,
        forall|i: int|
            0 <= i < stream.handed_out(arrivals).len() ==> stream.watermark < (
            #[trigger] stream.handed_out(arrivals)[i]) <= stream.feed(arrivals).0.watermark,
        forall|i: int, j: int|
            0 <= i < j < stream.handed_out(arrivals).len() ==> (
            #[trigger] stream.handed_out(arrivals)[i]) < (#[trigger] stream.handed_out(
                arrivals,
            )[j]),
    decreases arrivals.len(),
{
    if arrivals.len() > 0 {
        let fewer = arrivals.drop_last();
        let last = arrivals.last();
        lemma_handed_out_in_order(stream, fewer);
        let before = stream.feed(fewer).0;
        let earlier = stream.handed_out(fewer);
        let after = stream.feed(arrivals).0;
        let handed = stream.handed_out(arrivals);
        lemma_taken_in_order(before, last.frame, last.at);
        assert(after == before.on_frame(last.frame, last.at).0);
        if before.on_frame(last.frame, last.at).1 is Item {
            assert(handed == earlier.push(last.frame.sequence));
            assert forall|i: int| 0 <= i < handed.len() implies stream.watermark < (
            #[trigger] handed[i]) <= after.watermark by {
                if i < earlier.len() {
                    assert(handed[i] == earlier[i]);
                }
            }
            assert forall|i: int, j: int| 0 <= i < j < handed.len() implies (#[trigger] handed[i])
                < (#[trigger] handed[j]) by {
                assert(handed[i] == earlier[i]);
                if j < earlier.len() {
                    assert(handed[j] == earlier[j]);
                }
            }
        } else {
            assert(handed == earlier);
        }
    }
}

/// A handler that makes no reply leaves the stream empty: the sender gets
/// the end of the stream, or the handler's error, and nothing else.
pub proof fn lemma_no_reply_leaves_the_stream_empty(
    request: FrameRequestView,
    timeout: Option<nat>,
    opened_at: int,
    terminal_id: Seq<char>,
    outcome: Result<(), String>,
    at: int,
    arrived_at: int,
)
    ensures
        ({
            let stream = ReplyStreamView::opened(request.request_id, timeout, opened_at);
            let frames = handled_frames(
                ReplyWriterView::begun(request),
                Seq::empty(),
                terminal_id,
                outcome,
                at,
            );
            let (after, polls) = stream.feed(arrivals_of(frames, seq![arrived_at]));
            &&& frames.len() == 1
            &&& after.done
            &&& polls == seq![terminal_poll(outcome)]
        }),
{
    lemma_replies_delivered(
        request,
        timeout,
        opened_at,
        Seq::empty(),
        terminal_id,
        outcome,
        at,
        seq![arrived_at],
    );
    assert(items_of(Seq::empty()).push(terminal_poll(outcome)) =~= seq![terminal_poll(outcome)]);
}

/// After its end a stream hands out nothing more: whatever arrives, the
/// reader gets `End`, and the stream stays as it is.
pub proof fn lemma_nothing_after_the_end(stream: ReplyStreamView, arrivals: Seq<Arrival>)
    requires
        stream.done,
    ensures
        stream.feed(arrivals).0 == stream,
        stream.feed(arrivals).1.len() == arrivals.len(),
        forall|i: int|
            0 <= i < arrivals.len() ==> (#[trigger] stream.feed(arrivals).1[i]) == PollView::End,
    decreases arrivals.len(),
{
    if arrivals.len() > 0 {
        lemma_nothing_after_the_end(stream, arrivals.drop_last());
    }
}

/// A stream on which nothing arrives ends with `ReplyTimeout` as soon as
/// the reader finds more than the timeout gone since it was opened, and not
/// before. A stream without a timeout never ends that way.
pub proof fn lemma_silence_times_out(
    request_id: Seq<char>,
    timeout: Option<nat>,
    opened_at: int,
    now: int,
)
    ensures
        ({
            let stream = ReplyStreamView::opened(request_id, timeout, opened_at);
            let late = timeout is Some && now - opened_at > timeout.unwrap();
            &&& late ==> stream.on_tick(now).1 == PollView::Failed(
                SystemActorErrorView::ReplyTimeout,
            ) && stream.on_tick(now).0.done
            &&& !late ==> stream.on_tick(now) == (stream, PollView::Pending)
        }),
{
}

/// The timeout bounds the time between two frames, not the time since the
/// stream was opened: after a frame was taken at `taken_at`, the stream
/// does not time out before more than the timeout has passed since then.
pub proof fn lemma_timeout_counts_from_last_frame(
    stream: ReplyStreamView,
    frame: FrameReplyView,
    taken_at: int,
    now: int,
)
    requires
        stream.takes(frame),
        !frame.body.is_terminal(),
        stream.timeout is Some,
    ensures
        stream.on_frame(frame, taken_at).0.on_tick(now).1 is Failed <==> now - taken_at
            > stream.timeout.unwrap(),
{
}

/// A send is refused exactly when the health check was asked for and the
/// recipient is unhealthy. Without the check every send goes through, to
/// an actor that was never spawned too.
pub proof fn lemma_unchecked_send_goes_through(options: SendOptions, recipient_healthy: bool)
    requires
        !options.check_health,
    ensures
        !send_refused(options, recipient_healthy),
{
}

/// A send with the health check to an actor that was killed is refused, at
/// every instant and whatever was written for the actor since, until a
/// spawn creates its record again.
pub proof fn lemma_checked_send_to_killed_is_refused(
    options: SendOptions,
    stored: StoredActor,
    later: Seq<ActorWriteView>,
    now: int,
)
    requires
        options.check_health,
        none_creates_record(later),
    ensures
        send_refused(options, stored.after_all(kill_writes()).after_all(later).is_healthy(now)),
{
    lemma_killed_is_unhealthy(stored, later, now);
}

} // verus!

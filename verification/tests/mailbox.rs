use bioma::error::SystemActorError;
use bioma::frame::{FrameReply, FrameRequest, ReplyBody};
use bioma::identity::ActorId;
use bioma::mailbox::{plan_send, FirstReply, Poll, ReplyStream, ReplyWriter, SendOptions};
use bioma::time::{Span, Timestamp};

fn at(ms: u64) -> Timestamp {
    Timestamp::from_millis(ms)
}

fn request(id: &str, tag: &str, payload: &[u8]) -> FrameRequest {
    FrameRequest {
        request_id: id.to_string(),
        sender: ActorId::of("Relay", "/relay"),
        recipient: ActorId::of("Echo", "/e"),
        message_tag: tag.to_string(),
        payload: payload.to_vec(),
        created_at: at(0),
    }
}

fn reply(request_id: &str, sequence: u64, body: ReplyBody) -> FrameReply {
    FrameReply {
        reply_id: format!("{}-{}", request_id, sequence),
        request_id: request_id.to_string(),
        sender: ActorId::of("Echo", "/e"),
        recipient: ActorId::of("Relay", "/relay"),
        body,
        sequence,
        created_at: at(0),
    }
}

fn show(poll: Poll) -> String {
    match poll {
        Poll::Item(payload) => format!("item {:?}", payload),
        Poll::Failed(SystemActorError::HandlerError(text)) => format!("handler error {}", text),
        Poll::Failed(SystemActorError::ReplyTimeout) => "timeout".to_string(),
        Poll::Failed(other) => format!("error {:?}", other),
        Poll::End => "end".to_string(),
        Poll::Pending => "pending".to_string(),
    }
}

#[test]
fn send_options_default_to_no_check_and_no_timeout() {
    let options = SendOptions::default();
    assert!(!options.check_health);
    assert_eq!(options.timeout, None);
    assert_eq!(SendOptions::builder().build(), options);
    let options = SendOptions::builder().check_health(true).timeout(Span::from_secs(1)).build();
    assert!(options.check_health);
    assert_eq!(options.timeout, Some(Span::from_secs(1)));
    assert!(!SendOptions::builder().check_health(false).build().check_health);
}

#[test]
fn a_frame_gives_its_payload_under_its_own_tag_only() {
    let frame = request("r1", "TestMessage", b"hi");
    assert_eq!(frame.is("TestMessage"), Some(&b"hi".to_vec()));
    assert_eq!(frame.is("Other"), None);
    assert_eq!(frame.is(""), None);
    assert_eq!(frame.is("TestMessag"), None);
    assert_eq!(frame.payload_for("TestMessage").unwrap(), &b"hi".to_vec());
    assert!(matches!(frame.payload_for("Other"), Err(SystemActorError::MessageTypeMismatch)));
}

#[test]
fn a_frame_is_for_its_recipient() {
    let frame = request("r1", "TestMessage", b"hi");
    assert!(frame.is_for(&ActorId::of("Echo", "/e")));
    assert!(!frame.is_for(&ActorId::of("Echo", "/other")));
    assert!(!frame.is_for(&ActorId::of("Relay", "/relay")));
}

#[test]
fn terminal_bodies() {
    assert!(!ReplyBody::Payload(vec![1]).is_terminal());
    assert!(ReplyBody::EndOfStream.is_terminal());
    assert!(ReplyBody::Error("boom".to_string()).is_terminal());
}

#[test]
fn a_send_writes_the_request_and_opens_the_stream() {
    let sender = ActorId::of("Relay", "/relay");
    let recipient = ActorId::of("Echo", "/e");
    let sending = plan_send(
        &SendOptions::default(),
        false,
        "r1".to_string(),
        &sender,
        &recipient,
        "TestMessage",
        b"hi".to_vec(),
        at(42),
    )
    .unwrap();
    assert_eq!(sending.request.request_id, "r1");
    assert_eq!(sending.request.sender, sender);
    assert_eq!(sending.request.recipient, recipient);
    assert_eq!(sending.request.message_tag, "TestMessage");
    assert_eq!(sending.request.payload, b"hi".to_vec());
    assert_eq!(sending.request.created_at, at(42));
    assert!(!sending.stream.is_done());
}

#[test]
fn a_checked_send_to_an_unhealthy_actor_is_refused() {
    let sender = ActorId::of("Relay", "/relay");
    let recipient = ActorId::of("Echo", "/e");
    let options = SendOptions::builder().check_health(true).build();
    let refused = plan_send(
        &options,
        false,
        "r1".to_string(),
        &sender,
        &recipient,
        "TestMessage",
        Vec::new(),
        at(0),
    );
    match refused {
        Err(SystemActorError::UnhealthyActor(id)) => assert_eq!(id, recipient),
        other => panic!("unexpected {:?}", other),
    }
    let sent = plan_send(
        &options,
        true,
        "r2".to_string(),
        &sender,
        &recipient,
        "TestMessage",
        Vec::new(),
        at(0),
    );
    assert!(sent.is_ok());
}

#[test]
fn replies_are_numbered_from_one() {
    let frame = request("r1", "StreamRequest", b"3");
    let mut writer = ReplyWriter::begin(&frame);
    assert_eq!(writer.sent(), 0);
    assert!(writer.can_reply());
    let first = writer.reply("a".to_string(), vec![1], at(10));
    let second = writer.reply("b".to_string(), vec![2], at(20));
    let third = writer.reply("c".to_string(), vec![3], at(30));
    assert_eq!(writer.sent(), 3);
    assert_eq!((first.sequence, second.sequence, third.sequence), (1, 2, 3));
    assert_eq!(first.reply_id, "a");
    assert_eq!(first.request_id, "r1");
    assert_eq!(first.sender, ActorId::of("Echo", "/e"));
    assert_eq!(first.recipient, ActorId::of("Relay", "/relay"));
    assert_eq!(first.created_at, at(10));
    assert!(matches!(&second.body, ReplyBody::Payload(payload) if payload == &vec![2]));
    let done = writer.finish("z".to_string(), Ok(()), at(40));
    assert_eq!(done.terminal.sequence, 4);
    assert_eq!(done.terminal.reply_id, "z");
    assert_eq!(done.terminal.request_id, "r1");
    assert_eq!(done.terminal.sender, ActorId::of("Echo", "/e"));
    assert_eq!(done.terminal.recipient, ActorId::of("Relay", "/relay"));
    assert_eq!(done.terminal.created_at, at(40));
    assert!(matches!(done.terminal.body, ReplyBody::EndOfStream));
    assert_eq!(done.delete_request, "r1");
}

#[test]
fn a_handler_without_replies_writes_only_the_terminal_frame() {
    let frame = request("r1", "Quiet", b"");
    let done = ReplyWriter::begin(&frame).finish("z".to_string(), Ok(()), at(5));
    assert_eq!(done.terminal.sequence, 1);
    assert!(matches!(done.terminal.body, ReplyBody::EndOfStream));
    assert_eq!(done.delete_request, "r1");
}

#[test]
fn a_failed_handler_ends_with_its_error() {
    let frame = request("r1", "TriggerError", b"");
    let mut writer = ReplyWriter::begin(&frame);
    writer.reply("a".to_string(), vec![1], at(1));
    let done = writer.finish("z".to_string(), Err("Fake error".to_string()), at(2));
    assert_eq!(done.terminal.sequence, 2);
    assert!(matches!(&done.terminal.body, ReplyBody::Error(text) if text == "Fake error"));
    assert_eq!(done.delete_request, "r1");
}

#[test]
fn the_stream_hands_out_replies_in_order_and_ends_at_the_terminal_frame() {
    let mut stream = ReplyStream::open("r1".to_string(), None, at(0));
    let first = stream.on_frame(reply("r1", 1, ReplyBody::Payload(vec![1])), at(1));
    assert_eq!(show(first), "item [1]");
    let second = stream.on_frame(reply("r1", 2, ReplyBody::Payload(vec![2])), at(2));
    assert_eq!(show(second), "item [2]");
    assert!(!stream.is_done());
    assert_eq!(show(stream.on_frame(reply("r1", 3, ReplyBody::EndOfStream), at(3))), "end");
    assert!(stream.is_done());
    let late = stream.on_frame(reply("r1", 4, ReplyBody::Payload(vec![4])), at(4));
    assert_eq!(show(late), "end");
    assert_eq!(show(stream.on_tick(at(5))), "end");
}

#[test]
fn the_stream_passes_over_frames_of_other_requests_and_frames_it_has_seen() {
    let mut stream = ReplyStream::open("r1".to_string(), None, at(0));
    let other = stream.on_frame(reply("r2", 1, ReplyBody::Payload(vec![9])), at(1));
    assert_eq!(show(other), "pending");
    let other_end = stream.on_frame(reply("r2", 2, ReplyBody::EndOfStream), at(1));
    assert_eq!(show(other_end), "pending");
    assert!(!stream.is_done());
    let second = stream.on_frame(reply("r1", 2, ReplyBody::Payload(vec![2])), at(2));
    assert_eq!(show(second), "item [2]");
    let again = stream.on_frame(reply("r1", 2, ReplyBody::Payload(vec![2])), at(3));
    assert_eq!(show(again), "pending");
    let stale = stream.on_frame(reply("r1", 1, ReplyBody::Payload(vec![1])), at(3));
    assert_eq!(show(stale), "pending");
    let zero = stream.on_frame(reply("r1", 0, ReplyBody::EndOfStream), at(3));
    assert_eq!(show(zero), "pending");
    assert!(!stream.is_done());
}

#[test]
fn a_handler_error_reaches_the_reader_and_ends_the_stream() {
    let mut stream = ReplyStream::open("r1".to_string(), None, at(0));
    let failed = stream.on_frame(reply("r1", 1, ReplyBody::Error("Fake error".to_string())), at(1));
    assert_eq!(show(failed), "handler error Fake error");
    assert!(stream.is_done());
    let late = stream.on_frame(reply("r1", 2, ReplyBody::Payload(vec![1])), at(2));
    assert_eq!(show(late), "end");
}

#[test]
fn the_stream_times_out_when_nothing_arrives() {
    let mut stream = ReplyStream::open("r1".to_string(), Some(Span::from_secs(1)), at(0));
    assert_eq!(show(stream.on_tick(at(500))), "pending");
    assert_eq!(show(stream.on_tick(at(1_000))), "pending");
    assert!(!stream.is_done());
    assert_eq!(show(stream.on_tick(at(1_001))), "timeout");
    assert!(stream.is_done());
    assert_eq!(show(stream.on_tick(at(2_000))), "end");
}

#[test]
fn the_timeout_counts_from_the_last_frame_taken() {
    let mut stream = ReplyStream::open("r1".to_string(), Some(Span::from_secs(1)), at(0));
    let first = stream.on_frame(reply("r1", 1, ReplyBody::Payload(vec![1])), at(900));
    assert_eq!(show(first), "item [1]");
    assert_eq!(show(stream.on_tick(at(1_800))), "pending");
    let passed_over = stream.on_frame(reply("r2", 5, ReplyBody::Payload(vec![1])), at(1_850));
    assert_eq!(show(passed_over), "pending");
    assert_eq!(show(stream.on_tick(at(1_900))), "pending");
    assert_eq!(show(stream.on_tick(at(1_901))), "timeout");
}

#[test]
fn a_stream_without_a_timeout_waits_for_ever() {
    let mut stream = ReplyStream::open("r1".to_string(), None, at(0));
    assert_eq!(show(stream.on_tick(at(u64::MAX))), "pending");
    assert!(!stream.is_done());
}

#[test]
fn the_sender_observes_what_the_recipient_wrote() {
    let frame = request("r1", "StreamRequest", b"3");
    let mut writer = ReplyWriter::begin(&frame);
    let mut frames = Vec::new();
    for part in 1..=3u8 {
        frames.push(writer.reply(format!("p{}", part), vec![part], at(part as u64)));
    }
    frames.push(writer.finish("end".to_string(), Ok(()), at(4)).terminal);
    let mut stream = ReplyStream::open("r1".to_string(), Some(Span::from_secs(1)), at(0));
    let mut seen = Vec::new();
    for frame in frames {
        seen.push(show(stream.on_frame(frame, at(10))));
    }
    assert_eq!(seen, vec!["item [1]", "item [2]", "item [3]", "end"]);
    assert!(stream.is_done());
}

#[test]
fn the_first_reply_is_kept_and_the_rest_is_read_to_the_end() {
    let mut waiting = FirstReply::new();
    assert!(waiting.observe(Poll::Pending));
    assert!(waiting.observe(Poll::Item(vec![1])));
    assert!(waiting.observe(Poll::Item(vec![2])));
    assert!(!waiting.observe(Poll::Failed(SystemActorError::HandlerError("late".to_string()))));
    assert!(matches!(waiting.finish(), Some(Ok(payload)) if payload == vec![1]));
}

#[test]
fn a_stream_that_fails_first_gives_its_error() {
    let mut waiting = FirstReply::new();
    assert!(!waiting.observe(Poll::Failed(SystemActorError::ReplyTimeout)));
    assert!(matches!(waiting.finish(), Some(Err(SystemActorError::ReplyTimeout))));
}

#[test]
fn a_stream_that_ends_empty_gives_nothing() {
    let mut waiting = FirstReply::new();
    assert!(waiting.observe(Poll::Pending));
    assert!(!waiting.observe(Poll::End));
    assert!(waiting.finish().is_none());
}

#[test]
fn replies_to_an_actor_without_a_record_are_refused() {
    let frame = request("r1", "TestMessage", b"hi");
    let writer = ReplyWriter::begin(&frame);
    assert!(writer.check_requester(true).is_ok());
    match writer.check_requester(false) {
        Err(SystemActorError::ActorNotFound(id)) => assert_eq!(id, ActorId::of("Relay", "/relay")),
        other => panic!("unexpected {:?}", other),
    }
}

#[test]
fn a_store_failure_keeps_its_description() {
    match SystemActorError::from_store("connection reset".to_string()) {
        SystemActorError::StoreError(text) => assert_eq!(text, "connection reset"),
        other => panic!("unexpected {:?}", other),
    }
}

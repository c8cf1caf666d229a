use bioma::behavior::{dispatch, Dispatch};
use bioma::engine::{Engine, EngineOptions, Step};
use bioma::error::SystemActorError;
use bioma::frame::{FrameReply, FrameRequest};
use bioma::health::{HealthConfig, HealthRecord};
use bioma::identity::ActorId;
use bioma::lifecycle::{
    health, plan_beat, plan_kill, plan_save, plan_spawn, ActorWrite, SpawnExistsOptions,
    SpawnOptions,
};
use bioma::mailbox::{plan_send, FirstReply, Poll, ReplyStream, ReplyWriter, SendOptions};
use bioma::time::{Span, Timestamp};

struct Stored {
    id: ActorId,
    record: Option<Vec<u8>>,
    health: Option<HealthRecord>,
}

struct World {
    now_ms: u64,
    actors: Vec<Stored>,
    requests: Vec<FrameRequest>,
    replies: Vec<FrameReply>,
    ids: u64,
}

type Handler<'a> = &'a mut dyn FnMut(&[u8]) -> (Vec<Vec<u8>>, Result<(), String>);

impl World {
    fn new() -> World {
        World { now_ms: 1_000, actors: Vec::new(), requests: Vec::new(), replies: Vec::new(), ids: 0 }
    }

    fn now(&self) -> Timestamp {
        Timestamp::from_millis(self.now_ms)
    }

    fn sleep(&mut self, ms: u64) {
        self.now_ms += ms;
    }

    fn next_id(&mut self, prefix: &str) -> String {
        self.ids += 1;
        format!("{}{}", prefix, self.ids)
    }

    fn slot(&mut self, id: &ActorId) -> usize {
        match self.actors.iter().position(|stored| &stored.id == id) {
            Some(at) => at,
            None => {
                self.actors.push(Stored { id: id.clone(), record: None, health: None });
                self.actors.len() - 1
            },
        }
    }

    fn apply(&mut self, id: &ActorId, writes: Vec<ActorWrite>) {
        let at = self.slot(id);
        for write in writes {
            match write {
                ActorWrite::PutRecord(state) => self.actors[at].record = Some(state),
                ActorWrite::UpdateRecord(state) => {
                    if self.actors[at].record.is_some() {
                        self.actors[at].record = Some(state);
                    }
                },
                ActorWrite::DeleteRecord => self.actors[at].record = None,
                ActorWrite::DeletePending => {
                    self.requests.retain(|frame| &frame.recipient != id);
                    self.replies.retain(|frame| &frame.sender != id);
                },
                ActorWrite::PutHealth(record) => self.actors[at].health = Some(record),
                ActorWrite::DeleteHealth => self.actors[at].health = None,
            }
        }
    }

    fn spawn(
        &mut self,
        id: &ActorId,
        initial: Vec<u8>,
        options: SpawnOptions,
    ) -> Result<Vec<u8>, SystemActorError> {
        let at = self.slot(id);
        let existing = self.actors[at].record.clone();
        let plan = plan_spawn(id, existing, initial, &options, self.now())?;
        self.apply(id, plan.writes);
        Ok(plan.state)
    }

    fn kill(&mut self, id: &ActorId) {
        let plan = plan_kill();
        assert!(plan.cancel_monitor);
        self.apply(id, plan.writes);
    }

    fn save(&mut self, id: &ActorId, state: Vec<u8>) {
        self.apply(id, plan_save(state));
    }

    fn beat(&mut self, id: &ActorId) {
        let at = self.slot(id);
        if let Some(record) = self.actors[at].health {
            let config = HealthConfig::new(record.update_interval);
            let plan = plan_beat(&config, &record, self.now());
            assert_eq!(plan.pause, record.update_interval);
            self.apply(id, vec![plan.write]);
        }
    }

    fn run_with_beats(&mut self, id: &ActorId, ms: u64, interval_ms: u64) {
        let mut passed = 0;
        while passed + interval_ms <= ms {
            self.sleep(interval_ms);
            self.beat(id);
            passed += interval_ms;
        }
        self.sleep(ms - passed);
    }

    fn check_actor_health(&mut self, id: &ActorId) -> bool {
        let at = self.slot(id);
        let now = self.now();
        health(&self.actors[at].record, &self.actors[at].health, &now)
    }

    fn send(
        &mut self,
        sender: &ActorId,
        recipient: &ActorId,
        tag: &str,
        payload: Vec<u8>,
        options: SendOptions,
    ) -> Result<ReplyStream, SystemActorError> {
        let healthy = if options.check_health { self.check_actor_health(recipient) } else { true };
        let request_id = self.next_id("request-");
        let sending =
            plan_send(&options, healthy, request_id, sender, recipient, tag, payload, self.now())?;
        self.requests.push(sending.request);
        Ok(sending.stream)
    }

    fn serve(&mut self, id: &ActorId, tag: &str, handler: Handler) {
        loop {
            let next = self.requests.iter().position(|frame| frame.is_for(id));
            let received: Option<Result<FrameRequest, String>> =
                next.map(|at| Ok(self.requests.remove(at)));
            match dispatch(&received, tag) {
                Dispatch::Stop => break,
                Dispatch::Skip => continue,
                Dispatch::Handle => {},
            }
            let frame = received.unwrap().unwrap();
            let payload = frame.payload_for(tag).unwrap().clone();
            let mut writer = ReplyWriter::begin(&frame);
            let (answers, outcome) = handler(&payload);
            for answer in answers {
                assert!(writer.can_reply());
                let reply_id = self.next_id("reply-");
                let now = self.now();
                self.replies.push(writer.reply(reply_id, answer, now));
            }
            let reply_id = self.next_id("reply-");
            let done = writer.finish(reply_id, outcome, self.now());
            self.replies.push(done.terminal);
            assert_eq!(done.delete_request, frame.request_id);
        }
    }

    fn poll(&mut self, stream: &mut ReplyStream) -> Poll {
        while !self.replies.is_empty() {
            let frame = self.replies.remove(0);
            let now = self.now();
            match stream.on_frame(frame, now) {
                Poll::Pending => continue,
                other => return other,
            }
        }
        let now = self.now();
        stream.on_tick(now)
    }

    fn next(&mut self, stream: &mut ReplyStream, patience_ms: u64) -> Option<Result<Vec<u8>, SystemActorError>> {
        let mut waited = 0;
        loop {
            match self.poll(stream) {
                Poll::Item(payload) => return Some(Ok(payload)),
                Poll::Failed(error) => return Some(Err(error)),
                Poll::End => return None,
                Poll::Pending => {
                    if waited >= patience_ms {
                        panic!("the stream is still pending after {} ms", patience_ms);
                    }
                    self.sleep(100);
                    waited += 100;
                },
            }
        }
    }

    fn send_and_wait_reply(
        &mut self,
        sender: &ActorId,
        recipient: &ActorId,
        tag: &str,
        payload: Vec<u8>,
        options: SendOptions,
    ) -> Option<Result<Vec<u8>, SystemActorError>> {
        let mut stream = match self.send(sender, recipient, tag, payload, options) {
            Ok(stream) => stream,
            Err(error) => return Some(Err(error)),
        };
        let mut waiting = FirstReply::new();
        loop {
            let poll = self.poll(&mut stream);
            let pending = matches!(poll, Poll::Pending);
            if !waiting.observe(poll) {
                break;
            }
            if pending {
                self.sleep(100);
            }
        }
        waiting.finish()
    }
}

fn encode_response(content: &str, count: u64) -> Vec<u8> {
    let mut bytes = count.to_le_bytes().to_vec();
    bytes.extend_from_slice(content.as_bytes());
    bytes
}

fn decode_response(bytes: &[u8]) -> (String, u64) {
    let mut count = [0u8; 8];
    count.copy_from_slice(&bytes[..8]);
    (String::from_utf8(bytes[8..].to_vec()).unwrap(), u64::from_le_bytes(count))
}

fn test_actor_handler(count: &mut u64, payload: &[u8]) -> (Vec<Vec<u8>>, Result<(), String>) {
    *count += 1;
    let content = format!("Received: {}", String::from_utf8(payload.to_vec()).unwrap());
    (vec![encode_response(&content, *count)], Ok(()))
}

#[test]
fn test_connect() {
    let (options, steps) = Engine::test("/work");
    assert_eq!(options.namespace, "dev");
    assert_eq!(options.database, "bioma");
    assert!(matches!(&steps[0], Step::Open { address } if address == "memory"));
    let mut performed = 0;
    for _ in &steps {
        performed += 1;
    }
    assert_eq!(performed, 3);
    let engine = Engine::connected(options);
    assert_eq!(engine.options().endpoint, "memory");
    let ping: Result<(), String> = Ok(());
    assert_eq!(Engine::health(&ping), true);
}

#[test]
fn test_actor_health() {
    let mut world = World::new();
    let test_actor_id = ActorId::of("TestActor", "/test");
    world.spawn(&test_actor_id, vec![0], SpawnOptions::default()).unwrap();

    assert!(world.check_actor_health(&test_actor_id));

    world.kill(&test_actor_id);

    assert!(!world.check_actor_health(&test_actor_id));
    world.sleep(60_000);
    assert!(!world.check_actor_health(&test_actor_id));
}

#[test]
fn test_actor_message_handling() {
    let mut world = World::new();
    let test_actor_id = ActorId::of("TestActor", "/test");
    world.spawn(&test_actor_id, vec![0], SpawnOptions::default()).unwrap();
    let relay_actor_id = ActorId::of("Relay", "/relay");
    world.spawn(&relay_actor_id, Vec::new(), SpawnOptions::default()).unwrap();

    let mut response_stream = world
        .send(
            &relay_actor_id,
            &test_actor_id,
            "TestMessage",
            b"Hello, Actor!".to_vec(),
            SendOptions::default(),
        )
        .unwrap();
    let mut count = 0;
    world.serve(&test_actor_id, "TestMessage", &mut |payload| test_actor_handler(&mut count, payload));

    if let Some(Ok(response)) = world.next(&mut response_stream, 0) {
        let (content, count) = decode_response(&response);
        assert_eq!(content, "Received: Hello, Actor!");
        assert_eq!(count, 1);
    } else {
        panic!("No response received");
    }
    assert!(world.next(&mut response_stream, 0).is_none());
    assert!(world.requests.is_empty());
}

#[test]
fn test_actor_multiple_messages() {
    let mut world = World::new();
    let test_actor_id = ActorId::of("TestActor", "/test");
    world.spawn(&test_actor_id, vec![0], SpawnOptions::default()).unwrap();
    let relay_actor_id = ActorId::of("Relay", "/relay");
    world.spawn(&relay_actor_id, Vec::new(), SpawnOptions::default()).unwrap();

    let mut count = 0;
    for i in 1..=5u64 {
        let message = format!("Message {}", i);
        let mut response_stream = world
            .send(
                &relay_actor_id,
                &test_actor_id,
                "TestMessage",
                message.into_bytes(),
                SendOptions::default(),
            )
            .unwrap();
        world.serve(&test_actor_id, "TestMessage", &mut |payload| {
            test_actor_handler(&mut count, payload)
        });

        if let Some(Ok(response)) = world.next(&mut response_stream, 0) {
            let (content, count) = decode_response(&response);
            assert_eq!(content, format!("Received: Message {}", i));
            assert_eq!(count, i);
        } else {
            panic!("No response received for message {}", i);
        }
    }
}

#[test]
fn test_actor_lifecycle() {
    let mut world = World::new();
    let test_actor_id = ActorId::of("TestActor", "/test");
    world.spawn(&test_actor_id, vec![0], SpawnOptions::default()).unwrap();
    let relay_actor_id = ActorId::of("Relay", "/relay");
    world.spawn(&relay_actor_id, Vec::new(), SpawnOptions::default()).unwrap();

    let mut response_stream = world
        .send(
            &relay_actor_id,
            &test_actor_id,
            "TestMessage",
            b"Lifecycle test".to_vec(),
            SendOptions::default(),
        )
        .unwrap();
    let mut count = 0;
    world.serve(&test_actor_id, "TestMessage", &mut |payload| test_actor_handler(&mut count, payload));
    if let Some(Ok(response)) = world.next(&mut response_stream, 0) {
        let (content, count) = decode_response(&response);
        assert_eq!(content, "Received: Lifecycle test");
        assert_eq!(count, 1);
    } else {
        panic!("No response received");
    }

    // The actor's task is gone from here on: nobody serves its frames.
    world.sleep(100);

    let options = SendOptions::builder().timeout(Span::from_secs(1)).build();
    let started = world.now_ms;
    let result = world.send_and_wait_reply(
        &relay_actor_id,
        &test_actor_id,
        "TestMessage",
        b"After termination".to_vec(),
        options,
    );

    assert!(matches!(result, Some(Err(SystemActorError::ReplyTimeout))));
    assert_eq!(world.now_ms - started, 1_100);
    assert_eq!(world.requests.len(), 1);
}

#[test]
fn test_actor_error_handling() {
    let mut world = World::new();
    let error_actor_id = ActorId::of("ErrorActor", "/error_actor");
    world.spawn(&error_actor_id, Vec::new(), SpawnOptions::default()).unwrap();
    let relay_actor_id = ActorId::of("Relay", "/relay");
    world.spawn(&relay_actor_id, Vec::new(), SpawnOptions::default()).unwrap();

    let mut response_stream = world
        .send(&relay_actor_id, &error_actor_id, "TriggerError", Vec::new(), SendOptions::default())
        .unwrap();
    world.serve(&error_actor_id, "TriggerError", &mut |_| (Vec::new(), Err("Fake error".to_string())));

    let result = world.next(&mut response_stream, 0);
    assert!(result.is_none() || result.as_ref().unwrap().is_err());
    match result {
        Some(Err(SystemActorError::HandlerError(text))) => assert!(text.contains("Fake error")),
        other => panic!("unexpected {:?}", other),
    }
    assert!(world.next(&mut response_stream, 0).is_none());
}

#[test]
fn test_actor_state_persistence() {
    let mut world = World::new();
    let actor_id = ActorId::of("StatefulActor", "/stateful_actor");
    let state = world.spawn(&actor_id, 0u32.to_le_bytes().to_vec(), SpawnOptions::default());
    let mut count = u32::from_le_bytes(state.unwrap().try_into().unwrap());
    let relay_id = ActorId::of("Relay", "/relay");
    world.spawn(&relay_id, Vec::new(), SpawnOptions::default()).unwrap();

    let mut response_stream = world
        .send(&relay_id, &actor_id, "IncrementCount", Vec::new(), SendOptions::default())
        .unwrap();
    world.serve(&actor_id, "IncrementCount", &mut |_| {
        count += 1;
        (vec![count.to_le_bytes().to_vec()], Ok(()))
    });
    world.save(&actor_id, count.to_le_bytes().to_vec());
    if let Some(Ok(reply)) = world.next(&mut response_stream, 0) {
        assert_eq!(u32::from_le_bytes(reply.try_into().unwrap()), 1);
    } else {
        panic!("No response received");
    }

    world.sleep(100);

    let restored = world.spawn(
        &actor_id,
        0u32.to_le_bytes().to_vec(),
        SpawnOptions::builder().if_exists(SpawnExistsOptions::Restore).build(),
    );
    let mut count = u32::from_le_bytes(restored.unwrap().try_into().unwrap());
    assert_eq!(count, 1);

    let mut response_stream = world
        .send(&relay_id, &actor_id, "IncrementCount", Vec::new(), SendOptions::default())
        .unwrap();
    world.serve(&actor_id, "IncrementCount", &mut |_| {
        count += 1;
        (vec![count.to_le_bytes().to_vec()], Ok(()))
    });
    let response = if let Some(Ok(reply)) = world.next(&mut response_stream, 0) {
        u32::from_le_bytes(reply.try_into().unwrap())
    } else {
        panic!("No response received");
    };
    assert_eq!(response, 2);
}

#[test]
fn test_actor_large_message_mem_db() {
    let mut world = World::new();
    let large_data: Vec<u8> = (0..5_000_000u32).map(|i| (i % 251) as u8).collect();
    let stateful_actor_id = ActorId::of("StatefulActor", "/large_message_actor");
    world.spawn(&stateful_actor_id, vec![0], SpawnOptions::default()).unwrap();
    let relay_id = ActorId::of("Relay", "/relay");
    world.spawn(&relay_id, Vec::new(), SpawnOptions::default()).unwrap();

    let mut response_stream = world
        .send(&relay_id, &stateful_actor_id, "LargeMessage", large_data, SendOptions::default())
        .unwrap();
    world.serve(&stateful_actor_id, "LargeMessage", &mut |payload| {
        (vec![(payload.len() as u64).to_le_bytes().to_vec()], Ok(()))
    });

    if let Some(Ok(response)) = world.next(&mut response_stream, 0) {
        assert_eq!(u64::from_le_bytes(response.try_into().unwrap()), 5_000_000);
    } else {
        panic!("No response received");
    }
}

#[test]
fn test_actor_large_message_db() {
    let engine_options =
        EngineOptions::builder().endpoint("ws://localhost:9123".to_string()).build("/work");
    let plan = Engine::connect(&engine_options);
    assert!(matches!(&plan.steps[0], Step::Open { address } if address == "ws://localhost:9123"));

    let msg_size = 200_000;
    let mut world = World::new();
    let large_data: Vec<u8> = (0..msg_size as u32).map(|i| (i % 251) as u8).collect();
    let stateful_actor_id = ActorId::of("StatefulActor", "/large_message_actor");
    world.spawn(&stateful_actor_id, vec![0], SpawnOptions::default()).unwrap();
    let relay_id = ActorId::of("Relay", "/relay");
    world
        .spawn(
            &relay_id,
            Vec::new(),
            SpawnOptions::builder().if_exists(SpawnExistsOptions::Reset).build(),
        )
        .unwrap();

    let mut response_stream = world
        .send(&relay_id, &stateful_actor_id, "LargeMessage", large_data, SendOptions::default())
        .unwrap();
    world.serve(&stateful_actor_id, "LargeMessage", &mut |payload| {
        (vec![(payload.len() as u64).to_le_bytes().to_vec()], Ok(()))
    });

    let response = if let Some(Ok(size)) = world.next(&mut response_stream, 0) {
        u64::from_le_bytes(size.try_into().unwrap())
    } else {
        panic!("No response received");
    };
    assert_eq!(response, msg_size);
}

#[test]
fn test_actor_streaming_messages() {
    let mut world = World::new();
    let actor_id = ActorId::of("StreamingActor", "/test/streamer");
    world.spawn(&actor_id, vec![0], SpawnOptions::default()).unwrap();
    let sender_id = ActorId::of("StreamingActor", "/test/sender");
    world.spawn(&sender_id, vec![0], SpawnOptions::default()).unwrap();

    let mut stream =
        world.send(&sender_id, &actor_id, "StreamRequest", vec![3], SendOptions::default()).unwrap();
    world.serve(&actor_id, "StreamRequest", &mut |payload| {
        let count = payload[0] as u64;
        let parts = (0..count)
            .map(|i| encode_response(&format!("Message part {}", i + 1), i + 1))
            .collect();
        (parts, Ok(()))
    });

    let mut responses = Vec::new();
    while let Some(response) = world.next(&mut stream, 0) {
        responses.push(decode_response(&response.unwrap()));
    }

    assert_eq!(responses.len(), 3);
    for (i, (content, part)) in responses.iter().enumerate() {
        assert_eq!(*part, i as u64 + 1);
        assert_eq!(content, &format!("Message part {}", i + 1));
    }
    let sequences: Vec<u64> = world.replies.iter().map(|frame| frame.sequence).collect();
    assert!(sequences.is_empty());
}

#[test]
fn test_health_monitoring_disabled() {
    let mut world = World::new();
    let health_config = HealthConfig::new(Span::from_millis(100));
    let options = SpawnOptions::builder().health_config(health_config).build();
    let actor_id = ActorId::of("TestActor", "/health-disabled");
    world.spawn(&actor_id, vec![0], options).unwrap();
    let sender_id = ActorId::of("TestActor", "/sender");
    world.spawn(&sender_id, vec![0], SpawnOptions::default()).unwrap();

    assert!(world.check_actor_health(&actor_id));

    world.run_with_beats(&actor_id, 2_000, 100);

    assert!(world.check_actor_health(&actor_id));
}

#[test]
fn an_unwatched_actor_stays_healthy_without_heartbeats() {
    let mut world = World::new();
    let actor_id = ActorId::of("TestActor", "/unwatched");
    world.spawn(&actor_id, vec![0], SpawnOptions::default()).unwrap();
    assert!(world.check_actor_health(&actor_id));
    world.sleep(2_000);
    assert!(world.check_actor_health(&actor_id));
    world.sleep(86_400_000);
    assert!(world.check_actor_health(&actor_id));
    world.save(&actor_id, vec![1]);
    assert!(world.check_actor_health(&actor_id));
}

#[test]
fn a_watched_actor_is_unhealthy_once_three_intervals_passed_without_a_beat() {
    let mut world = World::new();
    let health_config = HealthConfig::new(Span::from_millis(100));
    let options = SpawnOptions::builder().health_config(health_config).build();
    let actor_id = ActorId::of("TestActor", "/health-test");
    world.spawn(&actor_id, vec![0], options).unwrap();

    assert!(world.check_actor_health(&actor_id));

    world.run_with_beats(&actor_id, 300, 100);
    assert!(world.check_actor_health(&actor_id));

    // The actor's task is gone from here on: no more heartbeats.
    world.sleep(200);
    assert!(world.check_actor_health(&actor_id));
    world.sleep(100);
    assert!(world.check_actor_health(&actor_id));
    world.sleep(1);
    assert!(!world.check_actor_health(&actor_id));
}

#[test]
fn a_checked_send_is_refused_once_the_recipient_is_unhealthy() {
    let mut world = World::new();
    let health_config = HealthConfig::new(Span::from_millis(100));
    let options = SpawnOptions::builder().health_config(health_config).build();
    let actor_id = ActorId::of("TestActor", "/health-check");
    world.spawn(&actor_id, vec![0], options).unwrap();
    let sender_id = ActorId::of("TestActor", "/sender");
    world.spawn(&sender_id, vec![0], SpawnOptions::default()).unwrap();

    let send_options = SendOptions::builder().check_health(true).timeout(Span::from_secs(1)).build();
    let message = b"Health check test".to_vec();
    let result = world.send(&sender_id, &actor_id, "TestMessage", message.clone(), send_options);
    assert!(result.is_ok());

    // The actor's task is gone from here on: no more heartbeats.
    world.sleep(301);

    let result = world.send(&sender_id, &actor_id, "TestMessage", message, send_options);
    match result {
        Err(SystemActorError::UnhealthyActor(id)) => assert_eq!(id, actor_id),
        _ => panic!("Expected UnhealthyActor error"),
    }
    assert_eq!(world.requests.len(), 1);
}

#[test]
fn a_checked_send_to_a_killed_actor_is_refused_at_once() {
    let mut world = World::new();
    let actor_id = ActorId::of("TestActor", "/killed");
    world.spawn(&actor_id, vec![0], SpawnOptions::default()).unwrap();
    let sender_id = ActorId::of("Relay", "/relay");
    world.kill(&actor_id);
    let send_options = SendOptions::builder().check_health(true).build();
    let result = world.send(&sender_id, &actor_id, "TestMessage", Vec::new(), send_options);
    assert!(matches!(result, Err(SystemActorError::UnhealthyActor(id)) if id == actor_id));
    assert!(world.requests.is_empty());
}

#[test]
fn an_unchecked_send_to_a_never_spawned_actor_is_written_and_times_out() {
    let mut world = World::new();
    let nobody = ActorId::of("TestActor", "/nobody");
    let sender_id = ActorId::of("Relay", "/relay");
    let send_options = SendOptions::builder().timeout(Span::from_millis(500)).build();
    let mut stream = world.send(&sender_id, &nobody, "TestMessage", b"hi".to_vec(), send_options);
    let stream = stream.as_mut().unwrap();
    assert_eq!(world.requests.len(), 1);
    assert!(world.requests[0].is_for(&nobody));
    let result = world.next(stream, 600);
    assert!(matches!(result, Some(Err(SystemActorError::ReplyTimeout))));
    assert!(world.next(stream, 0).is_none());
}

#[test]
fn a_handler_without_replies_leaves_the_stream_empty() {
    let mut world = World::new();
    let actor_id = ActorId::of("Quiet", "/quiet");
    world.spawn(&actor_id, Vec::new(), SpawnOptions::default()).unwrap();
    let sender_id = ActorId::of("Relay", "/relay");
    let mut stream =
        world.send(&sender_id, &actor_id, "Hush", Vec::new(), SendOptions::default()).unwrap();
    world.serve(&actor_id, "Hush", &mut |_| (Vec::new(), Ok(())));
    assert_eq!(world.replies.len(), 1);
    assert_eq!(world.replies[0].sequence, 1);
    assert!(world.next(&mut stream, 0).is_none());
    assert!(stream.is_done());
}

#[test]
fn echo_once() {
    let mut world = World::new();
    let echo = ActorId::of("Echo", "/e");
    world.spawn(&echo, Vec::new(), SpawnOptions::default()).unwrap();
    let relay = ActorId::of("Relay", "/relay");
    world.spawn(&relay, Vec::new(), SpawnOptions::default()).unwrap();
    let mut stream =
        world.send(&relay, &echo, "Message", b"hi".to_vec(), SendOptions::default()).unwrap();
    let mut count = 0;
    world.serve(&echo, "Message", &mut |payload| test_actor_handler(&mut count, payload));
    let reply = world.next(&mut stream, 0).unwrap().unwrap();
    assert_eq!(decode_response(&reply), ("Received: hi".to_string(), 1));
    assert!(world.next(&mut stream, 0).is_none());
}

#[test]
fn a_respawn_over_an_existing_record_needs_reset_or_restore() {
    let mut world = World::new();
    let health_config = HealthConfig::new(Span::from_millis(100));
    let options = SpawnOptions::builder().health_config(health_config).build();
    let actor_id = ActorId::of("TestActor", "/health-persist");
    world.spawn(&actor_id, vec![0], options).unwrap();
    world.run_with_beats(&actor_id, 200, 100);

    // The actor's task is gone from here on; its record is still there.
    world.sleep(1_000);
    assert!(!world.check_actor_health(&actor_id));
    let again = world.spawn(&actor_id, vec![0], options);
    assert!(matches!(again, Err(SystemActorError::ActorAlreadyExists(id)) if id == actor_id));

    let restore = SpawnOptions::builder()
        .if_exists(SpawnExistsOptions::Restore)
        .health_config(health_config)
        .build();
    world.spawn(&actor_id, vec![0], restore).unwrap();
    assert!(world.check_actor_health(&actor_id));
}

#[test]
fn reset_clears_what_was_pending_for_the_actor() {
    let mut world = World::new();
    let actor_id = ActorId::of("TestActor", "/busy");
    world.spawn(&actor_id, vec![5], SpawnOptions::default()).unwrap();
    let relay = ActorId::of("Relay", "/relay");
    world.send(&relay, &actor_id, "TestMessage", b"one".to_vec(), SendOptions::default()).unwrap();
    world.send(&relay, &actor_id, "TestMessage", b"two".to_vec(), SendOptions::default()).unwrap();
    assert_eq!(world.requests.len(), 2);
    let reset = SpawnOptions::builder().if_exists(SpawnExistsOptions::Reset).build();
    let state = world.spawn(&actor_id, vec![0], reset).unwrap();
    assert_eq!(state, vec![0]);
    assert!(world.requests.is_empty());
    assert!(world.check_actor_health(&actor_id));
}

#[test]
fn an_actor_passes_over_messages_it_does_not_know() {
    let mut world = World::new();
    let actor_id = ActorId::of("TestActor", "/picky");
    world.spawn(&actor_id, vec![0], SpawnOptions::default()).unwrap();
    let relay = ActorId::of("Relay", "/relay");
    let options = SendOptions::builder().timeout(Span::from_millis(200)).build();
    let mut unknown = world.send(&relay, &actor_id, "Unknown", b"?".to_vec(), options).unwrap();
    let mut known =
        world.send(&relay, &actor_id, "TestMessage", b"ok".to_vec(), options).unwrap();
    let mut count = 0;
    world.serve(&actor_id, "TestMessage", &mut |payload| test_actor_handler(&mut count, payload));
    assert_eq!(count, 1);
    let reply = world.next(&mut known, 0).unwrap().unwrap();
    assert_eq!(decode_response(&reply), ("Received: ok".to_string(), 1));
    let result = world.next(&mut unknown, 300);
    assert!(matches!(result, Some(Err(SystemActorError::ReplyTimeout))));
}

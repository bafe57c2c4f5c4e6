use ingest_bridge::{
    encode_message, frame_payload, open_queue, reply_for, Action, DispatchError, Dispatcher,
    EnqueueError, Event, IntakeReply, Message, Phase, QueueError, MAX_QUEUE_CAPACITY,
};

fn msg(s: &str) -> Message {
    Message::new(s.to_string())
}

fn dispatcher() -> Dispatcher {
    Dispatcher::new("my-topic".to_string(), "key".to_string())
}

fn expect_publish(a: Result<Action, DispatchError>) -> (String, String, String) {
    match a {
        Ok(Action::Publish(req)) => (req.topic, req.key, req.payload),
        other => panic!("expected a publish, got {:?}", other),
    }
}

fn expect_await(a: Result<Action, DispatchError>) {
    assert!(matches!(a, Ok(Action::AwaitBatch)), "expected to await a batch, got {:?}", a);
}

#[test]
fn batch_of_two_with_capacity_one_is_accepted_and_published_in_order() {
    let (tx, mut rx) = open_queue(1).unwrap();
    let batch = vec![msg("a"), msg("b")];
    let sent = tx.try_send(batch).map_err(|_| EnqueueError::QueueClosed);
    let reply = reply_for(&sent);
    assert_eq!(reply, IntakeReply::Accepted);
    assert_eq!(reply.status_code(), 200);
    assert_eq!(reply.body(), "Messages buffered for Kafka");

    let got = rx.try_recv().unwrap();
    let mut d = dispatcher();
    let (topic, key, first) = expect_publish(d.step(Event::Dequeued(got)));
    assert_eq!(topic, "my-topic");
    assert_eq!(key, "key");
    assert_eq!(first, "{\"data\":\"a\"}");
    let (_, _, second) = expect_publish(d.step(Event::Published));
    assert_eq!(second, "{\"data\":\"b\"}");
    expect_await(d.step(Event::Published));
    assert_eq!(d.phase(), Phase::Idle);
    assert!(d.failed_indices().is_empty());
}

#[test]
fn enqueue_after_consumer_shutdown_is_a_server_error() {
    let (tx, rx) = open_queue(4).unwrap();
    drop(rx);
    let sent = tx
        .try_send(vec![msg("a"), msg("b")])
        .map_err(|_| EnqueueError::QueueClosed);
    assert_eq!(sent, Err(EnqueueError::QueueClosed));
    let reply = reply_for(&sent);
    assert_eq!(reply, IntakeReply::ServerError);
    assert_eq!(reply.status_code(), 500);
    assert_eq!(reply.body(), "Failed to send messages to buffer");

    // The worker never sees that batch: told that the queue is closed, it stops
    // without a single publish.
    let mut d = dispatcher();
    assert!(matches!(d.step(Event::QueueClosed), Ok(Action::Stop)));
    assert_eq!(d.phase(), Phase::Stopped);
}

#[test]
fn failure_on_first_message_does_not_abort_the_second() {
    let mut d = dispatcher();
    let (_, _, first) = expect_publish(d.step(Event::Dequeued(vec![msg("a"), msg("b")])));
    assert_eq!(first, "{\"data\":\"a\"}");
    let (_, _, second) = expect_publish(d.step(Event::PublishFailed));
    assert_eq!(second, "{\"data\":\"b\"}");
    expect_await(d.step(Event::Published));
    assert_eq!(d.failed_indices(), &vec![0usize]);
}

#[test]
fn every_message_is_attempted_whatever_the_outcomes() {
    let mut d = dispatcher();
    let batch = vec![msg("m0"), msg("m1"), msg("m2"), msg("m3")];
    let outcomes = [false, true, false, false];
    let mut payloads = Vec::new();
    let mut action = d.step(Event::Dequeued(batch));
    for ok in outcomes {
        let (_, _, p) = expect_publish(action);
        payloads.push(p);
        action = d.step(if ok { Event::Published } else { Event::PublishFailed });
    }
    expect_await(action);
    assert_eq!(
        payloads,
        vec![
            "{\"data\":\"m0\"}",
            "{\"data\":\"m1\"}",
            "{\"data\":\"m2\"}",
            "{\"data\":\"m3\"}"
        ]
    );
    assert_eq!(d.failed_indices(), &vec![0usize, 2, 3]);
}

#[test]
fn two_batches_are_published_as_intact_units() {
    let (tx, mut rx) = open_queue(2).unwrap();
    tx.try_send(vec![msg("a1"), msg("a2")]).unwrap();
    tx.try_send(vec![msg("b1"), msg("b2"), msg("b3")]).unwrap();
    let mut d = dispatcher();
    let mut published = Vec::new();
    for _ in 0..2 {
        let batch = rx.try_recv().unwrap();
        let mut action = d.step(Event::Dequeued(batch));
        // A second batch is refused while one is being published.
        if let Ok(Action::Publish(req)) = action {
            published.push(req.payload);
            assert_eq!(
                d.step(Event::Dequeued(vec![msg("intruder")])).unwrap_err(),
                DispatchError::UnexpectedEvent
            );
            action = d.step(Event::Published);
        }
        while let Ok(Action::Publish(req)) = action {
            published.push(req.payload);
            action = d.step(Event::Published);
        }
        expect_await(action);
    }
    assert_eq!(
        published,
        vec![
            "{\"data\":\"a1\"}",
            "{\"data\":\"a2\"}",
            "{\"data\":\"b1\"}",
            "{\"data\":\"b2\"}",
            "{\"data\":\"b3\"}"
        ]
    );
}

#[test]
fn queue_refuses_more_than_its_capacity_without_waiting() {
    let (tx, mut rx) = open_queue(1).unwrap();
    assert_eq!(tx.max_capacity(), 1);
    tx.try_send(vec![msg("a")]).unwrap();
    assert!(tx.try_send(vec![msg("b")]).is_err());
    assert_eq!(rx.try_recv().unwrap()[0].data, "a");
    tx.try_send(vec![msg("b")]).unwrap();
}

#[test]
fn queue_capacity_is_checked() {
    assert_eq!(open_queue(0).err(), Some(QueueError::ZeroCapacity));
    assert_eq!(open_queue(usize::MAX).err(), Some(QueueError::CapacityTooLarge));
    assert_eq!(open_queue(MAX_QUEUE_CAPACITY + 1).err(), Some(QueueError::CapacityTooLarge));
    let (tx, _rx) = open_queue(1000).unwrap();
    assert_eq!(tx.max_capacity(), 1000);
}

#[test]
fn empty_batch_publishes_nothing() {
    let mut d = dispatcher();
    expect_await(d.step(Event::Dequeued(Vec::new())));
    assert_eq!(d.phase(), Phase::Idle);
}

#[test]
fn unexpected_events_are_refused_and_change_nothing() {
    let mut d = dispatcher();
    assert_eq!(d.step(Event::Published).unwrap_err(), DispatchError::UnexpectedEvent);
    assert_eq!(d.step(Event::PublishFailed).unwrap_err(), DispatchError::UnexpectedEvent);
    assert_eq!(d.phase(), Phase::Idle);
    expect_publish(d.step(Event::Dequeued(vec![msg("x")])));
    assert_eq!(d.step(Event::QueueClosed).unwrap_err(), DispatchError::UnexpectedEvent);
    assert_eq!(d.phase(), Phase::Publishing);
    expect_await(d.step(Event::Published));
    assert!(matches!(d.step(Event::QueueClosed), Ok(Action::Stop)));
    assert_eq!(
        d.step(Event::Dequeued(vec![msg("late")])).unwrap_err(),
        DispatchError::UnexpectedEvent
    );
    assert_eq!(d.phase(), Phase::Stopped);
}

#[test]
fn payload_escapes_the_text_as_json() {
    assert_eq!(encode_message(&msg("a")), "{\"data\":\"a\"}");
    assert_eq!(
        encode_message(&msg("say \"hi\"\n\\")),
        "{\"data\":\"say \\\"hi\\\"\\n\\\\\"}"
    );
    assert_eq!(encode_message(&msg("")), "{\"data\":\"\"}");
}

#[test]
fn frame_wraps_a_literal_as_the_data_field() {
    assert_eq!(frame_payload("\"x\""), "{\"data\":\"x\"}");
    assert_eq!(frame_payload("\"\""), "{\"data\":\"\"}");
}

#[test]
fn message_keeps_its_text() {
    let m = msg("hello");
    assert_eq!(m.data(), "hello");
}

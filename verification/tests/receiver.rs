use futures::channel::{mpsc, oneshot};

use pulsar_core::connection::{
    ConnectionSender, Register, ReceiverEvent, ReceiverState, ReceiverStatus, RequestKey, SerialId,
};
use pulsar_core::consumer::ConsumerOptions;
use pulsar_core::error::ConnectionError;
use pulsar_core::messages;
use pulsar_core::proto::{
    BaseCommand, CommandLookupTopicResponse, CommandMessage, CommandSendReceipt, CommandType,
    Message, MessageIdData, SubType,
};

fn lookup_response_frame(request_id: u64, url: &str) -> Message {
    let mut command = BaseCommand::base(CommandType::LookupResponse);
    command.lookup_topic_response = Some(CommandLookupTopicResponse {
        request_id,
        broker_service_url: Some(url.to_string()),
        broker_service_url_tls: None,
        response: Some(0),
        authoritative: Some(false),
        proxy_through_service_url: None,
    });
    Message { command, payload: None }
}

fn send_receipt_frame(producer_id: u64, sequence_id: u64) -> Message {
    let mut command = BaseCommand::base(CommandType::SendReceipt);
    command.send_receipt = Some(CommandSendReceipt {
        producer_id,
        sequence_id,
        message_id: Some(MessageIdData {
            ledger_id: 1,
            entry_id: sequence_id,
            partition: None,
            batch_index: None,
        }),
    });
    Message { command, payload: None }
}

fn delivery_frame(consumer_id: u64, entry_id: u64) -> Message {
    let mut command = BaseCommand::base(CommandType::Message);
    command.message = Some(CommandMessage {
        consumer_id,
        message_id: MessageIdData {
            ledger_id: 7,
            entry_id,
            partition: None,
            batch_index: None,
        },
        redelivery_count: None,
    });
    Message { command, payload: None }
}

fn sender_parts() -> (
    ConnectionSender,
    mpsc::UnboundedReceiver<Message>,
    mpsc::UnboundedReceiver<Register>,
    oneshot::Receiver<()>,
) {
    let (tx, tx_rx) = mpsc::unbounded();
    let (reg_tx, reg_rx) = mpsc::unbounded();
    let (shutdown_tx, shutdown_rx) = oneshot::channel();
    let sender = ConnectionSender::new(tx, reg_tx, shutdown_tx, SerialId::new());
    (sender, tx_rx, reg_rx, shutdown_rx)
}

fn receiver_with_outbound() -> (ReceiverState, mpsc::UnboundedReceiver<Message>) {
    let (out_tx, out_rx) = mpsc::unbounded();
    (ReceiverState::new(out_tx), out_rx)
}

fn next_registration(reg_rx: &mut mpsc::UnboundedReceiver<Register>) -> Register {
    reg_rx.try_next().unwrap().expect("a registration was posted")
}

fn next_frame(tx_rx: &mut mpsc::UnboundedReceiver<Message>) -> Message {
    tx_rx.try_next().unwrap().expect("a frame was enqueued")
}

#[test]
fn lookup_happy_path() {
    let (mut sender, mut tx_rx, mut reg_rx, _shutdown_rx) = sender_parts();
    let (mut receiver, _out_rx) = receiver_with_outbound();

    let pending = sender
        .lookup_topic("persistent://public/default/t".to_string(), false)
        .expect("channels are open");

    // The posted frame uses request id 0 and carries the topic.
    let frame = next_frame(&mut tx_rx);
    let lookup = frame.command.lookup_topic.clone().unwrap();
    assert_eq!(lookup.request_id, 0);
    assert_eq!(lookup.topic, "persistent://public/default/t");
    assert_eq!(frame.request_key(), Some(RequestKey::RequestId(0)));

    // The registration carries the same key.
    let reg = next_registration(&mut reg_rx);
    let status = receiver.handle_event(ReceiverEvent::Registration(reg));
    assert_eq!(status, ReceiverStatus::Continue);

    // The broker answers; the caller's resolver is completed.
    let reply = lookup_response_frame(0, "pulsar://b:6650");
    let status = receiver.handle_event(ReceiverEvent::Frame(reply));
    assert_eq!(status, ReceiverStatus::Continue);

    let mut pending = pending;
    let got = pending.try_recv().unwrap().expect("response was routed");
    let body = pulsar_core::connection::extract_lookup_topic_response(got).unwrap();
    assert_eq!(body.request_id, 0);
    assert_eq!(body.broker_service_url.as_deref(), Some("pulsar://b:6650"));
}

#[test]
fn concurrent_lookups_answered_in_reverse_order() {
    let (mut sender, mut tx_rx, mut reg_rx, _shutdown_rx) = sender_parts();
    let (mut receiver, _out_rx) = receiver_with_outbound();

    let first = sender.lookup_topic("t1".to_string(), false).unwrap();
    let second = sender.lookup_topic("t2".to_string(), true).unwrap();
    assert_eq!(next_frame(&mut tx_rx).request_key(), Some(RequestKey::RequestId(0)));
    assert_eq!(next_frame(&mut tx_rx).request_key(), Some(RequestKey::RequestId(1)));

    receiver.handle_event(ReceiverEvent::Registration(next_registration(&mut reg_rx)));
    receiver.handle_event(ReceiverEvent::Registration(next_registration(&mut reg_rx)));

    // Replies arrive in reverse order; each caller gets its own.
    receiver.handle_event(ReceiverEvent::Frame(lookup_response_frame(1, "pulsar://b2:6650")));
    receiver.handle_event(ReceiverEvent::Frame(lookup_response_frame(0, "pulsar://b1:6650")));

    let (mut first, mut second) = (first, second);
    let r1 = first.try_recv().unwrap().unwrap();
    let r2 = second.try_recv().unwrap().unwrap();
    assert_eq!(r1.command.lookup_topic_response.unwrap().request_id, 0);
    assert_eq!(r2.command.lookup_topic_response.unwrap().request_id, 1);
}

#[test]
fn send_receipts_matched_by_sequence() {
    let (mut sender, mut tx_rx, mut reg_rx, _shutdown_rx) = sender_parts();
    let (mut receiver, _out_rx) = receiver_with_outbound();

    // Create the producer first, as a real caller would.
    let created = sender
        .create_producer("t".to_string(), 7, None, pulsar_core::producer::ProducerOptions {
            encrypted: None,
            metadata: Vec::new(),
            schema: None,
        })
        .unwrap();
    assert_eq!(next_frame(&mut tx_rx).request_key(), Some(RequestKey::RequestId(0)));
    receiver.handle_event(ReceiverEvent::Registration(next_registration(&mut reg_rx)));
    let mut success = BaseCommand::base(CommandType::ProducerSuccess);
    success.producer_success = Some(pulsar_core::proto::CommandProducerSuccess {
        request_id: 0,
        producer_name: "p".to_string(),
    });
    receiver.handle_event(ReceiverEvent::Frame(Message { command: success, payload: None }));
    let mut created = created;
    let resp = created.try_recv().unwrap().unwrap();
    let body = pulsar_core::connection::extract_producer_success(resp).unwrap();
    assert_eq!(body.producer_name, "p");

    // Two sends in sequence order.
    let msg = || pulsar_core::producer::ProducerMessage {
        payload: vec![1, 2, 3],
        properties: Vec::new(),
        partition_key: None,
        replicate_to: Vec::new(),
        compression: None,
        uncompressed_size: None,
        num_messages_in_batch: None,
        event_time: None,
        encryption_keys: Vec::new(),
        encryption_algo: None,
        encryption_param: None,
        schema_version: None,
    };
    let wait0 = sender.send(7, "p".to_string(), 0, msg()).unwrap();
    let wait1 = sender.send(7, "p".to_string(), 1, msg()).unwrap();
    receiver.handle_event(ReceiverEvent::Registration(next_registration(&mut reg_rx)));
    receiver.handle_event(ReceiverEvent::Registration(next_registration(&mut reg_rx)));

    // The broker answers sequence 1 first.
    receiver.handle_event(ReceiverEvent::Frame(send_receipt_frame(7, 1)));
    receiver.handle_event(ReceiverEvent::Frame(send_receipt_frame(7, 0)));

    let (mut wait0, mut wait1) = (wait0, wait1);
    let r0 = pulsar_core::connection::extract_send_receipt(wait0.try_recv().unwrap().unwrap())
        .unwrap();
    let r1 = pulsar_core::connection::extract_send_receipt(wait1.try_recv().unwrap().unwrap())
        .unwrap();
    assert_eq!((r0.producer_id, r0.sequence_id), (7, 0));
    assert_eq!((r1.producer_id, r1.sequence_id), (7, 1));
}

#[test]
fn out_of_order_response_is_stashed_for_late_registration() {
    let (mut receiver, _out_rx) = receiver_with_outbound();

    // The reply to request 42 lands before anyone registered for it.
    let status = receiver.handle_event(ReceiverEvent::Frame(lookup_response_frame(42, "pulsar://b:6650")));
    assert_eq!(status, ReceiverStatus::Continue);

    // The late registration is completed immediately from the stash.
    let (resolver, mut response) = oneshot::channel();
    receiver.handle_event(ReceiverEvent::Registration(Register::Request {
        key: RequestKey::RequestId(42),
        resolver,
    }));
    let got = response.try_recv().unwrap().expect("stash completed the caller");
    assert_eq!(got.command.lookup_topic_response.unwrap().request_id, 42);
}

#[test]
fn ping_and_pong_round_trip() {
    let (sender, mut tx_rx, mut reg_rx, _shutdown_rx) = sender_parts();
    let (mut receiver, mut out_rx) = receiver_with_outbound();

    // Client side: send_ping enqueues a ping frame and registers for
    // the pong.
    let wait = sender.send_ping().unwrap();
    let frame = next_frame(&mut tx_rx);
    assert!(frame.command.ping.is_some());
    receiver.handle_event(ReceiverEvent::Registration(next_registration(&mut reg_rx)));

    let pong = messages::pong();
    receiver.handle_event(ReceiverEvent::Frame(pong));
    let mut wait = wait;
    assert_eq!(wait.try_recv().unwrap(), Some(()));

    // Server side: one inbound ping causes exactly one outbound pong.
    receiver.handle_event(ReceiverEvent::Frame(messages::ping()));
    let answered = out_rx.try_next().unwrap().unwrap();
    assert!(answered.command.pong.is_some());
    assert!(out_rx.try_next().is_err(), "exactly one pong was enqueued");
}

#[test]
fn stray_pong_without_pending_ping_is_ignored() {
    let (mut receiver, _out_rx) = receiver_with_outbound();
    let status = receiver.handle_event(ReceiverEvent::Frame(messages::pong()));
    assert_eq!(status, ReceiverStatus::Continue);
}

#[test]
fn transport_failure_terminates_and_cancels_waiters() {
    let (mut sender, mut _tx_rx, mut reg_rx, _shutdown_rx) = sender_parts();
    let (mut receiver, _out_rx) = receiver_with_outbound();

    let wait = sender.lookup_topic("t".to_string(), false).unwrap();
    receiver.handle_event(ReceiverEvent::Registration(next_registration(&mut reg_rx)));

    // The inbound stream fails: the loop is told to latch the error
    // and exit.
    let status = receiver.handle_event(ReceiverEvent::TransportError(ConnectionError::Io(
        "connection reset".to_string(),
    )));
    assert_eq!(
        status,
        ReceiverStatus::Terminate(Some(ConnectionError::Io("connection reset".to_string())))
    );

    // Dropping the receiver state drops the parked resolver, so the
    // waiting caller observes cancellation (mapped to Disconnected by
    // the shell).
    drop(receiver);
    let mut wait = wait;
    assert!(wait.try_recv().is_err(), "the waiter was cancelled");
}

#[test]
fn closed_inbound_and_closed_registrations_latch_disconnected() {
    let (mut receiver, _out_rx) = receiver_with_outbound();
    assert_eq!(
        receiver.handle_event(ReceiverEvent::InboundClosed),
        ReceiverStatus::Terminate(Some(ConnectionError::Disconnected))
    );
    assert_eq!(
        receiver.handle_event(ReceiverEvent::RegistrationsClosed),
        ReceiverStatus::Terminate(Some(ConnectionError::Disconnected))
    );
    assert_eq!(
        receiver.handle_event(ReceiverEvent::Shutdown),
        ReceiverStatus::Terminate(None)
    );
}

#[test]
fn dropped_caller_future_is_harmless() {
    let (mut receiver, _out_rx) = receiver_with_outbound();

    let (resolver, response) = oneshot::channel();
    receiver.handle_event(ReceiverEvent::Registration(Register::Request {
        key: RequestKey::RequestId(9),
        resolver,
    }));
    // The caller gives up before the response arrives.
    drop(response);

    // Routing the response to the closed resolver is a silent no-op.
    let status = receiver.handle_event(ReceiverEvent::Frame(lookup_response_frame(9, "pulsar://b:6650")));
    assert_eq!(status, ReceiverStatus::Continue);
}

#[test]
fn consumer_routing_in_order() {
    let (mut sender, mut tx_rx, mut reg_rx, _shutdown_rx) = sender_parts();
    let (mut receiver, _out_rx) = receiver_with_outbound();

    let (delivery_tx, mut delivery_rx) = mpsc::unbounded();
    let subscribed = sender
        .subscribe(
            delivery_tx,
            "t".to_string(),
            "sub".to_string(),
            SubType::Exclusive,
            3,
            None,
            ConsumerOptions {
                priority_level: None,
                durable: None,
                start_message_id: None,
                metadata: Vec::new(),
                read_compacted: None,
                schema: None,
                initial_position: None,
            },
        )
        .unwrap();

    // The consumer registration is posted strictly before the request
    // registration, so the routing entry exists before the broker can
    // deliver.
    let first = next_registration(&mut reg_rx);
    assert!(matches!(first, Register::Consumer { consumer_id: 3, .. }));
    let second = next_registration(&mut reg_rx);
    assert!(matches!(second, Register::Request { key: RequestKey::RequestId(0), .. }));
    receiver.handle_event(ReceiverEvent::Registration(first));
    receiver.handle_event(ReceiverEvent::Registration(second));

    // The subscribe frame went out.
    let frame = next_frame(&mut tx_rx);
    assert_eq!(frame.command.subscribe.unwrap().consumer_id, 3);

    // The broker confirms, then delivers three messages in order.
    let mut ok = BaseCommand::base(CommandType::Success);
    ok.success = Some(pulsar_core::proto::CommandSuccess { request_id: 0 });
    receiver.handle_event(ReceiverEvent::Frame(Message { command: ok, payload: None }));
    let mut subscribed = subscribed;
    let confirmed = subscribed.try_recv().unwrap().unwrap();
    assert!(pulsar_core::connection::extract_success(confirmed).is_ok());

    for entry in 0..3u64 {
        receiver.handle_event(ReceiverEvent::Frame(delivery_frame(3, entry)));
    }
    for entry in 0..3u64 {
        let got = delivery_rx.try_next().unwrap().unwrap();
        assert_eq!(got.command.message.unwrap().message_id.entry_id, entry);
    }
    assert!(delivery_rx.try_next().is_err(), "exactly three deliveries");

    // Fire-and-forget operations succeed while the connection is up.
    assert!(sender.send_flow(3, 100).is_ok());
    assert!(sender.send_ack(3, Vec::new(), false).is_ok());
    assert!(sender.send_redeliver_unacknowleged_messages(3, Vec::new()).is_ok());
    let _ = next_frame(&mut tx_rx);
}

#[test]
fn delivery_for_uninstalled_consumer_is_dropped() {
    let (mut receiver, _out_rx) = receiver_with_outbound();
    let status = receiver.handle_event(ReceiverEvent::Frame(delivery_frame(99, 0)));
    assert_eq!(status, ReceiverStatus::Continue);
}

#[test]
fn consumer_registration_overwrites_earlier_one() {
    let (mut receiver, _out_rx) = receiver_with_outbound();
    let (old_tx, mut old_rx) = mpsc::unbounded();
    let (new_tx, mut new_rx) = mpsc::unbounded();
    receiver.handle_event(ReceiverEvent::Registration(Register::Consumer {
        consumer_id: 3,
        resolver: old_tx,
    }));
    receiver.handle_event(ReceiverEvent::Registration(Register::Consumer {
        consumer_id: 3,
        resolver: new_tx,
    }));
    receiver.handle_event(ReceiverEvent::Frame(delivery_frame(3, 0)));
    assert!(new_rx.try_next().unwrap().is_some(), "the last installer wins");
    assert!(old_rx.try_next().is_err() || old_rx.try_next().unwrap().is_none());
}

#[test]
fn shutdown_fires_at_most_once() {
    let (mut sender, _tx_rx, _reg_rx, mut shutdown_rx) = sender_parts();
    assert!(sender.shutdown(), "the first drop fires the signal");
    assert!(!sender.shutdown(), "a second drop is a no-op");
    assert_eq!(shutdown_rx.try_recv().unwrap(), Some(()));
}

#[test]
fn operations_fail_with_disconnected_once_channels_close() {
    let (mut sender, tx_rx, reg_rx, _shutdown_rx) = sender_parts();
    drop(tx_rx);
    drop(reg_rx);
    assert!(matches!(
        sender.lookup_topic("t".to_string(), false),
        Err(ConnectionError::Disconnected)
    ));
    assert_eq!(sender.send_flow(1, 1), Err(ConnectionError::Disconnected));
    assert!(matches!(sender.send_ping(), Err(ConnectionError::Disconnected)));
}

#[test]
fn serial_ids_strictly_increase() {
    let mut id = SerialId::new();
    assert_eq!(id.get(), 0);
    assert_eq!(id.get(), 1);
    assert_eq!(id.get(), 2);
}

#[test]
fn remaining_rpcs_round_trip_by_request_id() {
    let (mut sender, mut tx_rx, mut reg_rx, _shutdown_rx) = sender_parts();
    let (mut receiver, _out_rx) = receiver_with_outbound();

    // Ids 0..3 go to four different RPCs.
    let part = sender.lookup_partitioned_topic("t".to_string()).unwrap();
    let topics = sender
        .get_topics_of_namespace("public/default".to_string(), pulsar_core::proto::Mode::All)
        .unwrap();
    let close_p = sender.close_producer(7).unwrap();
    let close_c = sender.close_consumer(3).unwrap();
    for _ in 0..4 {
        receiver.handle_event(ReceiverEvent::Registration(next_registration(&mut reg_rx)));
    }
    for expected in 0..4u64 {
        let frame = next_frame(&mut tx_rx);
        match expected {
            0 => assert_eq!(frame.command.partition_metadata.unwrap().request_id, 0),
            1 => assert_eq!(frame.command.get_topics_of_namespace.unwrap().request_id, 1),
            2 => assert_eq!(frame.command.close_producer.unwrap().request_id, 2),
            _ => assert_eq!(frame.command.close_consumer.unwrap().request_id, 3),
        }
    }

    // Answers, out of order.
    let mut c = BaseCommand::base(CommandType::Success);
    c.success = Some(pulsar_core::proto::CommandSuccess { request_id: 3 });
    receiver.handle_event(ReceiverEvent::Frame(Message { command: c, payload: None }));
    let mut c = BaseCommand::base(CommandType::Success);
    c.success = Some(pulsar_core::proto::CommandSuccess { request_id: 2 });
    receiver.handle_event(ReceiverEvent::Frame(Message { command: c, payload: None }));
    let mut c = BaseCommand::base(CommandType::GetTopicsOfNamespaceResponse);
    c.get_topics_of_namespace_response =
        Some(pulsar_core::proto::CommandGetTopicsOfNamespaceResponse {
            request_id: 1,
            topics: vec!["persistent://public/default/t".to_string()],
        });
    receiver.handle_event(ReceiverEvent::Frame(Message { command: c, payload: None }));
    let mut c = BaseCommand::base(CommandType::PartitionedMetadataResponse);
    c.partition_metadata_response =
        Some(pulsar_core::proto::CommandPartitionedTopicMetadataResponse {
            request_id: 0,
            partitions: Some(4),
            response: Some(0),
        });
    receiver.handle_event(ReceiverEvent::Frame(Message { command: c, payload: None }));

    let (mut part, mut topics, mut close_p, mut close_c) = (part, topics, close_p, close_c);
    let body = pulsar_core::connection::extract_partition_metadata_response(
        part.try_recv().unwrap().unwrap(),
    )
    .unwrap();
    assert_eq!(body.partitions, Some(4));
    let body = pulsar_core::connection::extract_get_topics_of_namespace_response(
        topics.try_recv().unwrap().unwrap(),
    )
    .unwrap();
    assert_eq!(body.topics, vec!["persistent://public/default/t".to_string()]);
    assert!(
        pulsar_core::connection::extract_success(close_p.try_recv().unwrap().unwrap()).is_ok()
    );
    assert!(
        pulsar_core::connection::extract_success(close_c.try_recv().unwrap().unwrap()).is_ok()
    );
}

//! Builders for every frame the connection core sends.  Each builder
//! pins the built frame exactly, so callers know precisely what goes on
//! the wire, in particular which correlation key the frame carries.

use vstd::prelude::*;

use crate::connection::{spec_request_key, Authentication, RequestKey};
use crate::consumer::ConsumerOptions;
use crate::producer::{ProducerMessage, ProducerOptions};
use crate::proto::{
    AckType, BaseCommand, CommandAck, CommandCloseConsumer, CommandCloseProducer, CommandConnect,
    CommandFlow, CommandGetTopicsOfNamespace, CommandLookupTopic,
    CommandPartitionedTopicMetadata, CommandPing, CommandPong, CommandProducer,
    CommandRedeliverUnacknowledgedMessages, CommandSend, CommandSubscribe, CommandType, Message,
    MessageIdData, MessageMetadata, Mode, Payload, SubType,
};

verus! {

/// The auth method name the handshake advertises for `auth`.
pub open spec fn spec_auth_method_name(auth: Option<Authentication>) -> Option<String> {
    match auth {
        Some(a) => Some(a.name),
        None => None,
    }
}

/// The auth payload the handshake carries for `auth`.
pub open spec fn spec_auth_data(auth: Option<Authentication>) -> Option<Vec<u8>> {
    match auth {
        Some(a) => Some(a.data),
        None => None,
    }
}

/// Handshake frame: protocol version 12, the fixed client version
/// string, optional credentials and proxy target.
pub fn connect(auth: Option<Authentication>, proxy_to_broker_url: Option<String>) -> (r: Message)
    ensures
        r.command.connect matches Some(c) && {
            &&& c.client_version@ == "2.0.1-incubating"@
            &&& r == (Message {
                command: BaseCommand {
                    connect: Some(CommandConnect {
                        client_version: c.client_version,
                        auth_method_name: spec_auth_method_name(auth),
                        auth_data: spec_auth_data(auth),
                        protocol_version: Some(12),
                        proxy_to_broker_url: proxy_to_broker_url,
                    }),
                    ..BaseCommand::spec_base(CommandType::Connect)
                },
                payload: None,
            })
        },
        spec_request_key(r) is None,
{
    let (auth_method_name, auth_data) = match auth {
        Some(a) => (Some(a.name), Some(a.data)),
        None => (None, None),
    };
    let mut command = BaseCommand::base(CommandType::Connect);
    command.connect = Some(CommandConnect {
        client_version: "2.0.1-incubating".to_owned(),
        auth_method_name,
        auth_data,
        protocol_version: Some(12),
        proxy_to_broker_url,
    });
    Message { command, payload: None }
}

/// Keep-alive probe.
pub fn ping() -> (r: Message)
    ensures
        r == (Message {
            command: BaseCommand {
                ping: Some(CommandPing {}),
                ..BaseCommand::spec_base(CommandType::Ping)
            },
            payload: None,
        }),
        spec_request_key(r) is None,
{
    let mut command = BaseCommand::base(CommandType::Ping);
    command.ping = Some(CommandPing {});
    Message { command, payload: None }
}

/// Keep-alive answer.
pub fn pong() -> (r: Message)
    ensures
        r == (Message {
            command: BaseCommand {
                pong: Some(CommandPong {}),
                ..BaseCommand::spec_base(CommandType::Pong)
            },
            payload: None,
        }),
        spec_request_key(r) is None,
{
    let mut command = BaseCommand::base(CommandType::Pong);
    command.pong = Some(CommandPong {});
    Message { command, payload: None }
}

/// Registers a producer under `producer_id`; the broker answers with
/// `ProducerSuccess` correlated by `request_id`.
pub fn create_producer(
    topic: String,
    producer_name: Option<String>,
    producer_id: u64,
    request_id: u64,
    options: ProducerOptions,
) -> (r: Message)
    ensures
        r == (Message {
            command: BaseCommand {
                producer: Some(CommandProducer {
                    topic: topic,
                    producer_id: producer_id,
                    request_id: request_id,
                    producer_name: producer_name,
                    encrypted: options.encrypted,
                    metadata: options.metadata,
                    schema: options.schema,
                }),
                ..BaseCommand::spec_base(CommandType::Producer)
            },
            payload: None,
        }),
        spec_request_key(r) == Some(RequestKey::RequestId(request_id)),
{
    let mut command = BaseCommand::base(CommandType::Producer);
    command.producer = Some(CommandProducer {
        topic,
        producer_id,
        request_id,
        producer_name,
        encrypted: options.encrypted,
        metadata: options.metadata,
        schema: options.schema,
    });
    Message { command, payload: None }
}

/// Asks for the topics of a namespace, correlated by `request_id`.
pub fn get_topics_of_namespace(request_id: u64, namespace: String, mode: Mode) -> (r: Message)
    ensures
        r == (Message {
            command: BaseCommand {
                get_topics_of_namespace: Some(CommandGetTopicsOfNamespace {
                    request_id: request_id,
                    namespace: namespace,
                    mode: Some(mode),
                }),
                ..BaseCommand::spec_base(CommandType::GetTopicsOfNamespace)
            },
            payload: None,
        }),
        spec_request_key(r) == Some(RequestKey::RequestId(request_id)),
{
    let mut command = BaseCommand::base(CommandType::GetTopicsOfNamespace);
    command.get_topics_of_namespace = Some(CommandGetTopicsOfNamespace {
        request_id,
        namespace,
        mode: Some(mode),
    });
    Message { command, payload: None }
}

/// The publish frame `send` builds: everything is fixed by the
/// arguments except the wall-clock `publish_time`.
pub open spec fn spec_send(
    producer_id: u64,
    producer_name: String,
    sequence_id: u64,
    message: ProducerMessage,
    publish_time: u64,
) -> Message {
    Message {
        command: BaseCommand {
            send: Some(CommandSend {
                producer_id: producer_id,
                sequence_id: sequence_id,
                num_messages: message.num_messages_in_batch,
            }),
            ..BaseCommand::spec_base(CommandType::Send)
        },
        payload: Some(Payload {
            metadata: MessageMetadata {
                producer_name: producer_name,
                sequence_id: sequence_id,
                publish_time: publish_time,
                properties: message.properties,
                replicated_from: None,
                partition_key: message.partition_key,
                replicate_to: message.replicate_to,
                compression: message.compression,
                uncompressed_size: message.uncompressed_size,
                num_messages_in_batch: message.num_messages_in_batch,
                event_time: message.event_time,
                encryption_keys: message.encryption_keys,
                encryption_algo: message.encryption_algo,
                encryption_param: message.encryption_param,
                schema_version: message.schema_version,
            },
            data: message.payload,
        }),
    }
}

/// Relies on chrono's `Utc::now` and `DateTime::timestamp_millis` for
/// the wall-clock time in milliseconds; nothing is assumed of the value.
#[verifier::external_body]
fn now_millis() -> (t: u64)
{
    chrono::Utc::now().timestamp_millis() as u64
}

/// Publish frame for one message, keyed by `(producer_id, sequence_id)`.
/// The frame is fixed by the arguments up to the wall-clock publish
/// time stamped into its metadata.
pub fn send(
    producer_id: u64,
    producer_name: String,
    sequence_id: u64,
    message: ProducerMessage,
) -> (r: Message)
    ensures
        exists|publish_time: u64|
            r == spec_send(producer_id, producer_name, sequence_id, message, publish_time),
{
    let publish_time = now_millis();
    let mut command = BaseCommand::base(CommandType::Send);
    command.send = Some(CommandSend {
        producer_id,
        sequence_id,
        num_messages: message.num_messages_in_batch,
    });
    let r = Message {
        command,
        payload: Some(Payload {
            metadata: MessageMetadata {
                producer_name,
                sequence_id,
                publish_time,
                properties: message.properties,
                replicated_from: None,
                partition_key: message.partition_key,
                replicate_to: message.replicate_to,
                compression: message.compression,
                uncompressed_size: message.uncompressed_size,
                num_messages_in_batch: message.num_messages_in_batch,
                event_time: message.event_time,
                encryption_keys: message.encryption_keys,
                encryption_algo: message.encryption_algo,
                encryption_param: message.encryption_param,
                schema_version: message.schema_version,
            },
            data: message.payload,
        }),
    };
    proof {
        assert(r == spec_send(producer_id, producer_name, sequence_id, message, publish_time));
    }
    r
}

/// Looks a topic up, correlated by `request_id`.
pub fn lookup_topic(topic: String, authoritative: bool, request_id: u64) -> (r: Message)
    ensures
        r == (Message {
            command: BaseCommand {
                lookup_topic: Some(CommandLookupTopic {
                    topic: topic,
                    request_id: request_id,
                    authoritative: Some(authoritative),
                }),
                ..BaseCommand::spec_base(CommandType::Lookup)
            },
            payload: None,
        }),
        spec_request_key(r) == Some(RequestKey::RequestId(request_id)),
{
    let mut command = BaseCommand::base(CommandType::Lookup);
    command.lookup_topic = Some(CommandLookupTopic {
        topic,
        request_id,
        authoritative: Some(authoritative),
    });
    Message { command, payload: None }
}

/// Asks for a topic's partition metadata, correlated by `request_id`.
pub fn lookup_partitioned_topic(topic: String, request_id: u64) -> (r: Message)
    ensures
        r == (Message {
            command: BaseCommand {
                partition_metadata: Some(CommandPartitionedTopicMetadata {
                    topic: topic,
                    request_id: request_id,
                }),
                ..BaseCommand::spec_base(CommandType::PartitionedMetadata)
            },
            payload: None,
        }),
        spec_request_key(r) == Some(RequestKey::RequestId(request_id)),
{
    let mut command = BaseCommand::base(CommandType::PartitionedMetadata);
    command.partition_metadata = Some(CommandPartitionedTopicMetadata { topic, request_id });
    Message { command, payload: None }
}

/// Closes a producer, correlated by `request_id`.
pub fn close_producer(producer_id: u64, request_id: u64) -> (r: Message)
    ensures
        r == (Message {
            command: BaseCommand {
                close_producer: Some(CommandCloseProducer {
                    producer_id: producer_id,
                    request_id: request_id,
                }),
                ..BaseCommand::spec_base(CommandType::CloseProducer)
            },
            payload: None,
        }),
        spec_request_key(r) == Some(RequestKey::RequestId(request_id)),
{
    let mut command = BaseCommand::base(CommandType::CloseProducer);
    command.close_producer = Some(CommandCloseProducer { producer_id, request_id });
    Message { command, payload: None }
}

/// Subscribes `consumer_id` to a topic, correlated by `request_id`.
pub fn subscribe(
    topic: String,
    subscription: String,
    sub_type: SubType,
    consumer_id: u64,
    request_id: u64,
    consumer_name: Option<String>,
    options: ConsumerOptions,
) -> (r: Message)
    ensures
        r == (Message {
            command: BaseCommand {
                subscribe: Some(CommandSubscribe {
                    topic: topic,
                    subscription: subscription,
                    sub_type: sub_type,
                    consumer_id: consumer_id,
                    request_id: request_id,
                    consumer_name: consumer_name,
                    priority_level: options.priority_level,
                    durable: options.durable,
                    start_message_id: options.start_message_id,
                    metadata: options.metadata,
                    read_compacted: options.read_compacted,
                    schema: options.schema,
                    initial_position: options.initial_position,
                }),
                ..BaseCommand::spec_base(CommandType::Subscribe)
            },
            payload: None,
        }),
        spec_request_key(r) == Some(RequestKey::RequestId(request_id)),
{
    let mut command = BaseCommand::base(CommandType::Subscribe);
    command.subscribe = Some(CommandSubscribe {
        topic,
        subscription,
        sub_type,
        consumer_id,
        request_id,
        consumer_name,
        priority_level: options.priority_level,
        durable: options.durable,
        start_message_id: options.start_message_id,
        metadata: options.metadata,
        read_compacted: options.read_compacted,
        schema: options.schema,
        initial_position: options.initial_position,
    });
    Message { command, payload: None }
}

/// Grants `message_permits` delivery permits to `consumer_id`;
/// fire-and-forget.
pub fn flow(consumer_id: u64, message_permits: u32) -> (r: Message)
    ensures
        r == (Message {
            command: BaseCommand {
                flow: Some(CommandFlow {
                    consumer_id: consumer_id,
                    message_permits: message_permits,
                }),
                ..BaseCommand::spec_base(CommandType::Flow)
            },
            payload: None,
        }),
{
    let mut command = BaseCommand::base(CommandType::Flow);
    command.flow = Some(CommandFlow { consumer_id, message_permits });
    Message { command, payload: None }
}

/// Acknowledges messages for `consumer_id`, one by one or cumulatively.
pub fn ack(consumer_id: u64, message_id: Vec<MessageIdData>, cumulative: bool) -> (r: Message)
    ensures
        r == (Message {
            command: BaseCommand {
                ack: Some(CommandAck {
                    consumer_id: consumer_id,
                    ack_type: (if cumulative {
                        AckType::Cumulative
                    } else {
                        AckType::Individual
                    }),
                    message_id: message_id,
                    validation_error: None,
                }),
                ..BaseCommand::spec_base(CommandType::Ack)
            },
            payload: None,
        }),
{
    let mut command = BaseCommand::base(CommandType::Ack);
    command.ack = Some(CommandAck {
        consumer_id,
        ack_type: if cumulative {
            AckType::Cumulative
        } else {
            AckType::Individual
        },
        message_id,
        validation_error: None,
    });
    Message { command, payload: None }
}

/// Asks the broker to redeliver unacknowledged messages of
/// `consumer_id`; fire-and-forget.
pub fn redeliver_unacknowleged_messages(
    consumer_id: u64,
    message_ids: Vec<MessageIdData>,
) -> (r: Message)
    ensures
        r == (Message {
            command: BaseCommand {
                redeliver_unacknowledged_messages: Some(CommandRedeliverUnacknowledgedMessages {
                    consumer_id: consumer_id,
                    message_ids: message_ids,
                }),
                ..BaseCommand::spec_base(CommandType::RedeliverUnacknowledgedMessages)
            },
            payload: None,
        }),
{
    let mut command = BaseCommand::base(CommandType::RedeliverUnacknowledgedMessages);
    command.redeliver_unacknowledged_messages =
        Some(CommandRedeliverUnacknowledgedMessages { consumer_id, message_ids });
    Message { command, payload: None }
}

/// Closes a consumer, correlated by `request_id`.
pub fn close_consumer(consumer_id: u64, request_id: u64) -> (r: Message)
    ensures
        r == (Message {
            command: BaseCommand {
                close_consumer: Some(CommandCloseConsumer {
                    consumer_id: consumer_id,
                    request_id: request_id,
                }),
                ..BaseCommand::spec_base(CommandType::CloseConsumer)
            },
            payload: None,
        }),
        spec_request_key(r) == Some(RequestKey::Consumer { consumer_id }),
{
    let mut command = BaseCommand::base(CommandType::CloseConsumer);
    command.close_consumer = Some(CommandCloseConsumer { consumer_id, request_id });
    Message { command, payload: None }
}

} // verus!

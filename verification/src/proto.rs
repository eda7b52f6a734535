//! In-memory model of the protocol frames the connection core reads and
//! builds.  The wire codec (length-prefixed framing, protobuf encoding)
//! is an external collaborator: the core only ever sees whole frames, so
//! the commands are modelled here as plain data.

use vstd::prelude::*;

verus! {

/// Discriminant of a `BaseCommand`.
#[derive(Clone, Copy, Debug, PartialEq, Eq, Structural)]
pub enum CommandType {
    Connect,
    Connected,
    Subscribe,
    Producer,
    Send,
    SendReceipt,
    SendError,
    Message,
    Ack,
    Flow,
    Success,
    Error,
    CloseProducer,
    CloseConsumer,
    ProducerSuccess,
    Ping,
    Pong,
    RedeliverUnacknowledgedMessages,
    PartitionedMetadata,
    PartitionedMetadataResponse,
    Lookup,
    LookupResponse,
    ActiveConsumerChange,
    ReachedEndOfTopic,
    GetTopicsOfNamespace,
    GetTopicsOfNamespaceResponse,
}

/// Subscription type of a `Subscribe` command.
#[derive(Clone, Copy, Debug, PartialEq, Eq, Structural)]
pub enum SubType {
    Exclusive,
    Shared,
    Failover,
}

/// Topic domain filter of a `GetTopicsOfNamespace` command.
#[derive(Clone, Copy, Debug, PartialEq, Eq, Structural)]
pub enum Mode {
    Persistent,
    NonPersistent,
    All,
}

/// Whether an `Ack` covers one message or everything up to it.
#[derive(Clone, Copy, Debug, PartialEq, Eq, Structural)]
pub enum AckType {
    Individual,
    Cumulative,
}

#[derive(Clone, Debug, PartialEq, Eq)]
pub struct KeyValue {
    pub key: String,
    pub value: String,
}

#[derive(Clone, Debug, PartialEq, Eq)]
pub struct MessageIdData {
    pub ledger_id: u64,
    pub entry_id: u64,
    pub partition: Option<i32>,
    pub batch_index: Option<i32>,
}

#[derive(Clone, Debug, PartialEq, Eq)]
pub struct Schema {
    pub name: String,
    pub schema_data: Vec<u8>,
    pub type_: i32,
    pub properties: Vec<KeyValue>,
}

#[derive(Clone, Debug, PartialEq, Eq)]
pub struct EncryptionKeys {
    pub key: String,
    pub value: Vec<u8>,
    pub metadata: Vec<KeyValue>,
}

#[derive(Clone, Debug, PartialEq, Eq)]
pub struct CommandConnect {
    pub client_version: String,
    pub auth_method_name: Option<String>,
    pub auth_data: Option<Vec<u8>>,
    pub protocol_version: Option<i32>,
    pub proxy_to_broker_url: Option<String>,
}

#[derive(Clone, Debug, PartialEq, Eq)]
pub struct CommandConnected {
    pub server_version: String,
    pub protocol_version: Option<i32>,
}

#[derive(Clone, Debug, PartialEq, Eq)]
pub struct CommandSubscribe {
    pub topic: String,
    pub subscription: String,
    pub sub_type: SubType,
    pub consumer_id: u64,
    pub request_id: u64,
    pub consumer_name: Option<String>,
    pub priority_level: Option<i32>,
    pub durable: Option<bool>,
    pub start_message_id: Option<MessageIdData>,
    pub metadata: Vec<KeyValue>,
    pub read_compacted: Option<bool>,
    pub schema: Option<Schema>,
    pub initial_position: Option<i32>,
}

#[derive(Clone, Debug, PartialEq, Eq)]
pub struct CommandProducer {
    pub topic: String,
    pub producer_id: u64,
    pub request_id: u64,
    pub producer_name: Option<String>,
    pub encrypted: Option<bool>,
    pub metadata: Vec<KeyValue>,
    pub schema: Option<Schema>,
}

#[derive(Clone, Debug, PartialEq, Eq)]
pub struct CommandSend {
    pub producer_id: u64,
    pub sequence_id: u64,
    pub num_messages: Option<i32>,
}

#[derive(Clone, Debug, PartialEq, Eq)]
pub struct CommandSendReceipt {
    pub producer_id: u64,
    pub sequence_id: u64,
    pub message_id: Option<MessageIdData>,
}

#[derive(Clone, Debug, PartialEq, Eq)]
pub struct CommandSendError {
    pub producer_id: u64,
    pub sequence_id: u64,
    pub error: i32,
    pub message: String,
}

#[derive(Clone, Debug, PartialEq, Eq)]
pub struct CommandMessage {
    pub consumer_id: u64,
    pub message_id: MessageIdData,
    pub redelivery_count: Option<u32>,
}

#[derive(Clone, Debug, PartialEq, Eq)]
pub struct CommandAck {
    pub consumer_id: u64,
    pub ack_type: AckType,
    pub message_id: Vec<MessageIdData>,
    pub validation_error: Option<i32>,
}

#[derive(Clone, Debug, PartialEq, Eq)]
pub struct CommandFlow {
    pub consumer_id: u64,
    pub message_permits: u32,
}

#[derive(Clone, Debug, PartialEq, Eq)]
pub struct CommandSuccess {
    pub request_id: u64,
}

#[derive(Clone, Debug, PartialEq, Eq)]
pub struct CommandError {
    pub request_id: u64,
    pub error: i32,
    pub message: String,
}

#[derive(Clone, Debug, PartialEq, Eq)]
pub struct CommandCloseProducer {
    pub producer_id: u64,
    pub request_id: u64,
}

#[derive(Clone, Debug, PartialEq, Eq)]
pub struct CommandCloseConsumer {
    pub consumer_id: u64,
    pub request_id: u64,
}

#[derive(Clone, Debug, PartialEq, Eq)]
pub struct CommandProducerSuccess {
    pub request_id: u64,
    pub producer_name: String,
}

#[derive(Clone, Debug, PartialEq, Eq)]
pub struct CommandPing {}

#[derive(Clone, Debug, PartialEq, Eq)]
pub struct CommandPong {}

#[derive(Clone, Debug, PartialEq, Eq)]
pub struct CommandRedeliverUnacknowledgedMessages {
    pub consumer_id: u64,
    pub message_ids: Vec<MessageIdData>,
}

#[derive(Clone, Debug, PartialEq, Eq)]
pub struct CommandPartitionedTopicMetadata {
    pub topic: String,
    pub request_id: u64,
}

#[derive(Clone, Debug, PartialEq, Eq)]
pub struct CommandPartitionedTopicMetadataResponse {
    pub request_id: u64,
    pub partitions: Option<u32>,
    pub response: Option<i32>,
}

#[derive(Clone, Debug, PartialEq, Eq)]
pub struct CommandLookupTopic {
    pub topic: String,
    pub request_id: u64,
    pub authoritative: Option<bool>,
}

#[derive(Clone, Debug, PartialEq, Eq)]
pub struct CommandLookupTopicResponse {
    pub request_id: u64,
    pub broker_service_url: Option<String>,
    pub broker_service_url_tls: Option<String>,
    pub response: Option<i32>,
    pub authoritative: Option<bool>,
    pub proxy_through_service_url: Option<bool>,
}

#[derive(Clone, Debug, PartialEq, Eq)]
pub struct CommandActiveConsumerChange {
    pub consumer_id: u64,
    pub is_active: Option<bool>,
}

#[derive(Clone, Debug, PartialEq, Eq)]
pub struct CommandReachedEndOfTopic {
    pub consumer_id: u64,
}

#[derive(Clone, Debug, PartialEq, Eq)]
pub struct CommandGetTopicsOfNamespace {
    pub request_id: u64,
    pub namespace: String,
    pub mode: Option<Mode>,
}

#[derive(Clone, Debug, PartialEq, Eq)]
pub struct CommandGetTopicsOfNamespaceResponse {
    pub request_id: u64,
    pub topics: Vec<String>,
}

/// One protocol command: a discriminant and at most one populated body.
#[derive(Clone, Debug, PartialEq, Eq)]
pub struct BaseCommand {
    pub type_: CommandType,
    pub connect: Option<CommandConnect>,
    pub connected: Option<CommandConnected>,
    pub subscribe: Option<CommandSubscribe>,
    pub producer: Option<CommandProducer>,
    pub send: Option<CommandSend>,
    pub send_receipt: Option<CommandSendReceipt>,
    pub send_error: Option<CommandSendError>,
    pub message: Option<CommandMessage>,
    pub ack: Option<CommandAck>,
    pub flow: Option<CommandFlow>,
    pub success: Option<CommandSuccess>,
    pub error: Option<CommandError>,
    pub close_producer: Option<CommandCloseProducer>,
    pub close_consumer: Option<CommandCloseConsumer>,
    pub producer_success: Option<CommandProducerSuccess>,
    pub ping: Option<CommandPing>,
    pub pong: Option<CommandPong>,
    pub redeliver_unacknowledged_messages: Option<CommandRedeliverUnacknowledgedMessages>,
    pub partition_metadata: Option<CommandPartitionedTopicMetadata>,
    pub partition_metadata_response: Option<CommandPartitionedTopicMetadataResponse>,
    pub lookup_topic: Option<CommandLookupTopic>,
    pub lookup_topic_response: Option<CommandLookupTopicResponse>,
    pub active_consumer_change: Option<CommandActiveConsumerChange>,
    pub reached_end_of_topic: Option<CommandReachedEndOfTopic>,
    pub get_topics_of_namespace: Option<CommandGetTopicsOfNamespace>,
    pub get_topics_of_namespace_response: Option<CommandGetTopicsOfNamespaceResponse>,
}

impl BaseCommand {
    /// A command of type `t` with every body empty.
    pub open spec fn spec_base(t: CommandType) -> BaseCommand {
        BaseCommand {
            type_: t,
            connect: None,
            connected: None,
            subscribe: None,
            producer: None,
            send: None,
            send_receipt: None,
            send_error: None,
            message: None,
            ack: None,
            flow: None,
            success: None,
            error: None,
            close_producer: None,
            close_consumer: None,
            producer_success: None,
            ping: None,
            pong: None,
            redeliver_unacknowledged_messages: None,
            partition_metadata: None,
            partition_metadata_response: None,
            lookup_topic: None,
            lookup_topic_response: None,
            active_consumer_change: None,
            reached_end_of_topic: None,
            get_topics_of_namespace: None,
            get_topics_of_namespace_response: None,
        }
    }

    /// Builds a command of type `t` with every body empty.
    pub fn base(t: CommandType) -> (r: BaseCommand)
        ensures
            r == BaseCommand::spec_base(t),
    {
        BaseCommand {
            type_: t,
            connect: None,
            connected: None,
            subscribe: None,
            producer: None,
            send: None,
            send_receipt: None,
            send_error: None,
            message: None,
            ack: None,
            flow: None,
            success: None,
            error: None,
            close_producer: None,
            close_consumer: None,
            producer_success: None,
            ping: None,
            pong: None,
            redeliver_unacknowledged_messages: None,
            partition_metadata: None,
            partition_metadata_response: None,
            lookup_topic: None,
            lookup_topic_response: None,
            active_consumer_change: None,
            reached_end_of_topic: None,
            get_topics_of_namespace: None,
            get_topics_of_namespace_response: None,
        }
    }
}

/// Metadata that travels with a published message's payload.
#[derive(Clone, Debug, PartialEq, Eq)]
pub struct MessageMetadata {
    pub producer_name: String,
    pub sequence_id: u64,
    pub publish_time: u64,
    pub properties: Vec<KeyValue>,
    pub replicated_from: Option<String>,
    pub partition_key: Option<String>,
    pub replicate_to: Vec<String>,
    pub compression: Option<i32>,
    pub uncompressed_size: Option<u32>,
    pub num_messages_in_batch: Option<i32>,
    pub event_time: Option<u64>,
    pub encryption_keys: Vec<EncryptionKeys>,
    pub encryption_algo: Option<String>,
    pub encryption_param: Option<Vec<u8>>,
    pub schema_version: Option<Vec<u8>>,
}

/// Raw bytes of a published message together with their metadata.
#[derive(Clone, Debug, PartialEq, Eq)]
pub struct Payload {
    pub metadata: MessageMetadata,
    pub data: Vec<u8>,
}

/// One protocol frame: a command and, for publishes and deliveries, a
/// payload.  Immutable after construction.
#[derive(Clone, Debug, PartialEq, Eq)]
pub struct Message {
    pub command: BaseCommand,
    pub payload: Option<Payload>,
}

} // verus!

//! The connection core: request correlation keys, the request-id
//! generator, the receiver state machine that routes inbound frames
//! back to their callers, the sender surface that issues requests, and
//! the pure parts of connection bootstrap.
//!
//! The async shell around this library owns the socket and the task
//! loop: it feeds every inbound event into [`ReceiverState::handle_event`]
//! and awaits the one-shot receivers the sender operations hand back.

use vstd::prelude::*;

use futures::channel::mpsc::UnboundedSender;
use futures::channel::oneshot::Receiver as OneshotReceiver;
use futures::channel::oneshot::Sender as OneshotSender;

use crate::channel::unbounded_send;
use crate::consumer::ConsumerOptions;
use crate::error::{spec_server_error, server_error, ConnectionError};
use crate::messages;
use crate::producer::{ProducerMessage, ProducerOptions};
use crate::proto::{
    CommandConnected, CommandGetTopicsOfNamespaceResponse, CommandLookupTopicResponse,
    CommandPartitionedTopicMetadataResponse, CommandProducerSuccess, CommandSendReceipt,
    CommandSuccess, Message, Mode, SubType,
};
use crate::tables::KeyTable;

verus! {

/// Identifies one exchange on the connection, for demultiplexing
/// inbound frames back to the caller that awaits them.  Keys are
/// totally ordered.
#[derive(Clone, Copy, Debug, PartialEq, Ord, PartialOrd, Eq, Structural)]
pub enum RequestKey {
    RequestId(u64),
    ProducerSend { producer_id: u64, sequence_id: u64 },
    Consumer { consumer_id: u64 },
}

/// Authentication parameters sent in the `Connect` handshake.
#[derive(Clone, Debug, PartialEq, Eq)]
pub struct Authentication {
    pub name: String,
    pub data: Vec<u8>,
}

/// Monotonic counter allocating request correlation ids.  Ids strictly
/// increase over a connection's lifetime and are never recycled.
#[derive(Clone, Debug, PartialEq, Eq, Structural)]
pub struct SerialId {
    next: u64,
}

impl SerialId {
    /// The id the next call of `get` returns.
    pub closed spec fn spec_next(self) -> u64 {
        self.next
    }

    /// A fresh generator starts at zero.
    pub fn new() -> (r: SerialId)
        ensures
            r.spec_next() == 0,
    {
        SerialId { next: 0 }
    }

    /// Returns the current id and advances the counter, so consecutive
    /// calls return strictly increasing ids.
    pub fn get(&mut self) -> (r: u64)
        requires
            old(self).spec_next() < u64::MAX,
        ensures
            r == old(self).spec_next(),
            final(self).spec_next() == old(self).spec_next() + 1,
    {
        let id = self.next;
        self.next = self.next + 1;
        id
    }
}

/// The correlation key an inbound frame is routed by:
/// a command that answers a request carries its `request_id`; a publish
/// receipt is keyed by `(producer_id, sequence_id)`; a broker-initiated
/// consumer delivery is keyed by its `consumer_id`; anything else has
/// no key and is dropped by the receiver.
pub open spec fn spec_request_key(m: Message) -> Option<RequestKey> {
    let c = m.command;
    if c.message is Some {
        Some(RequestKey::Consumer { consumer_id: c.message->0.consumer_id })
    } else if c.active_consumer_change is Some {
        Some(RequestKey::Consumer { consumer_id: c.active_consumer_change->0.consumer_id })
    } else if c.reached_end_of_topic is Some {
        Some(RequestKey::Consumer { consumer_id: c.reached_end_of_topic->0.consumer_id })
    } else if c.close_consumer is Some {
        Some(RequestKey::Consumer { consumer_id: c.close_consumer->0.consumer_id })
    } else if c.send_receipt is Some {
        Some(
            RequestKey::ProducerSend {
                producer_id: c.send_receipt->0.producer_id,
                sequence_id: c.send_receipt->0.sequence_id,
            },
        )
    } else if c.subscribe is Some {
        Some(RequestKey::RequestId(c.subscribe->0.request_id))
    } else if c.partition_metadata is Some {
        Some(RequestKey::RequestId(c.partition_metadata->0.request_id))
    } else if c.partition_metadata_response is Some {
        Some(RequestKey::RequestId(c.partition_metadata_response->0.request_id))
    } else if c.lookup_topic is Some {
        Some(RequestKey::RequestId(c.lookup_topic->0.request_id))
    } else if c.lookup_topic_response is Some {
        Some(RequestKey::RequestId(c.lookup_topic_response->0.request_id))
    } else if c.producer is Some {
        Some(RequestKey::RequestId(c.producer->0.request_id))
    } else if c.producer_success is Some {
        Some(RequestKey::RequestId(c.producer_success->0.request_id))
    } else if c.close_producer is Some {
        Some(RequestKey::RequestId(c.close_producer->0.request_id))
    } else if c.success is Some {
        Some(RequestKey::RequestId(c.success->0.request_id))
    } else if c.error is Some {
        Some(RequestKey::RequestId(c.error->0.request_id))
    } else if c.get_topics_of_namespace is Some {
        Some(RequestKey::RequestId(c.get_topics_of_namespace->0.request_id))
    } else if c.get_topics_of_namespace_response is Some {
        Some(RequestKey::RequestId(c.get_topics_of_namespace_response->0.request_id))
    } else {
        None
    }
}

impl Message {
    /// The correlation key this frame is routed by, per
    /// [`spec_request_key`].
    pub fn request_key(&self) -> (r: Option<RequestKey>)
        ensures
            r == spec_request_key(*self),
    {
        let c = &self.command;
        if let Some(m) = &c.message {
            Some(RequestKey::Consumer { consumer_id: m.consumer_id })
        } else if let Some(m) = &c.active_consumer_change {
            Some(RequestKey::Consumer { consumer_id: m.consumer_id })
        } else if let Some(m) = &c.reached_end_of_topic {
            Some(RequestKey::Consumer { consumer_id: m.consumer_id })
        } else if let Some(m) = &c.close_consumer {
            Some(RequestKey::Consumer { consumer_id: m.consumer_id })
        } else if let Some(m) = &c.send_receipt {
            Some(
                RequestKey::ProducerSend {
                    producer_id: m.producer_id,
                    sequence_id: m.sequence_id,
                },
            )
        } else if let Some(m) = &c.subscribe {
            Some(RequestKey::RequestId(m.request_id))
        } else if let Some(m) = &c.partition_metadata {
            Some(RequestKey::RequestId(m.request_id))
        } else if let Some(m) = &c.partition_metadata_response {
            Some(RequestKey::RequestId(m.request_id))
        } else if let Some(m) = &c.lookup_topic {
            Some(RequestKey::RequestId(m.request_id))
        } else if let Some(m) = &c.lookup_topic_response {
            Some(RequestKey::RequestId(m.request_id))
        } else if let Some(m) = &c.producer {
            Some(RequestKey::RequestId(m.request_id))
        } else if let Some(m) = &c.producer_success {
            Some(RequestKey::RequestId(m.request_id))
        } else if let Some(m) = &c.close_producer {
            Some(RequestKey::RequestId(m.request_id))
        } else if let Some(m) = &c.success {
            Some(RequestKey::RequestId(m.request_id))
        } else if let Some(m) = &c.error {
            Some(RequestKey::RequestId(m.request_id))
        } else if let Some(m) = &c.get_topics_of_namespace {
            Some(RequestKey::RequestId(m.request_id))
        } else if let Some(m) = &c.get_topics_of_namespace_response {
            Some(RequestKey::RequestId(m.request_id))
        } else {
            None
        }
    }
}

/// A record a caller posts to the receiver: a single-shot completion
/// for one exchange, a many-shot delivery channel for a consumer, or a
/// single-shot completion for the next pong.
pub enum Register {
    Request { key: RequestKey, resolver: OneshotSender<Message> },
    Consumer { consumer_id: u64, resolver: UnboundedSender<Message> },
    Ping { resolver: OneshotSender<()> },
}

/// One wakeup's worth of input to the receiver: the shutdown signal
/// fired, a registration arrived or their inbox closed, or an inbound
/// frame, transport error or end of stream was read.
pub enum ReceiverEvent {
    Shutdown,
    Registration(Register),
    RegistrationsClosed,
    Frame(Message),
    TransportError(ConnectionError),
    InboundClosed,
}

/// What the loop driving the receiver must do next: keep polling, or
/// exit after latching the given error (orderly shutdown latches none).
#[derive(Debug, PartialEq, Eq)]
pub enum ReceiverStatus {
    Continue,
    Terminate(Option<ConnectionError>),
}

/// Routing state of the receiver task.  It owns the per-identity
/// tables; every mutation goes through [`ReceiverState::handle_event`].
pub struct ReceiverState {
    outbound: UnboundedSender<Message>,
    pending_requests: KeyTable<OneshotSender<Message>>,
    received_messages: KeyTable<Message>,
    consumers: KeyTable<UnboundedSender<Message>>,
    ping: Option<OneshotSender<()>>,
}

impl ReceiverState {
    /// Resolvers of callers awaiting a response, by key.
    pub closed spec fn pending(self) -> Map<RequestKey, OneshotSender<Message>> {
        self.pending_requests@
    }

    /// Responses that arrived before their caller registered, by key.
    pub closed spec fn stashed(self) -> Map<RequestKey, Message> {
        self.received_messages@
    }

    /// Delivery channels of installed consumers, keyed by
    /// `RequestKey::Consumer`.
    pub closed spec fn consumer_sinks(self) -> Map<RequestKey, UnboundedSender<Message>> {
        self.consumers@
    }

    /// The resolver of the one meaningful outstanding ping, if any.
    pub closed spec fn pending_ping(self) -> Option<OneshotSender<()>> {
        self.ping
    }

    /// A key is never pending and stashed at once, and consumer
    /// channels are keyed by consumer keys only.
    pub closed spec fn wf(self) -> bool {
        &&& self.pending_requests.wf()
        &&& self.received_messages.wf()
        &&& self.consumers.wf()
        &&& forall|k: RequestKey|
            self.pending().contains_key(k) ==> !self.stashed().contains_key(k)
        &&& forall|k: RequestKey| self.consumer_sinks().contains_key(k) ==> k is Consumer
    }

    /// The routing state of `b` is that of `a`, unchanged.
    pub open spec fn same_routing(a: ReceiverState, b: ReceiverState) -> bool {
        &&& a.pending() == b.pending()
        &&& a.stashed() == b.stashed()
        &&& a.consumer_sinks() == b.consumer_sinks()
        &&& a.pending_ping() == b.pending_ping()
    }

    /// Fresh routing state around the outbound queue handle the
    /// receiver answers pings on.
    pub fn new(outbound: UnboundedSender<Message>) -> (r: ReceiverState)
        ensures
            r.wf(),
            r.pending() == Map::<RequestKey, OneshotSender<Message>>::empty(),
            r.stashed() == Map::<RequestKey, Message>::empty(),
            r.consumer_sinks() == Map::<RequestKey, UnboundedSender<Message>>::empty(),
            r.pending_ping() is None,
    {
        ReceiverState {
            outbound,
            pending_requests: KeyTable::new(),
            received_messages: KeyTable::new(),
            consumers: KeyTable::new(),
            ping: None,
        }
    }

    /// One step of the receiver: route `event` and say whether the loop
    /// goes on.  Precedence and routing follow the design exactly:
    ///
    /// - shutdown ends the task orderly, latching no error;
    /// - a `Request` registration is completed at once from the stash
    ///   when its response already arrived, else parked as pending;
    /// - `Consumer` and `Ping` registrations install their resolver,
    ///   the last installer winning;
    /// - a closed registration inbox or inbound stream, or a transport
    ///   error, ends the task with the error to latch;
    /// - an inbound `Ping` enqueues one `Pong`; an inbound `Pong`
    ///   completes the outstanding ping, if any;
    /// - any other inbound frame is routed by its key: request-style
    ///   keys complete the pending resolver or are stashed for the
    ///   late registrant; consumer keys are pushed to the installed
    ///   consumer channel; unkeyed frames are dropped.
    pub fn handle_event(&mut self, event: ReceiverEvent) -> (status: ReceiverStatus)
        requires
            old(self).wf(),
        ensures
            final(self).wf(),
            match event {
                ReceiverEvent::Shutdown => {
                    &&& status == ReceiverStatus::Terminate(None::<ConnectionError>)
                    &&& ReceiverState::same_routing(*old(self), *final(self))
                },
                ReceiverEvent::Registration(Register::Request { key, resolver }) => {
                    &&& status == ReceiverStatus::Continue
                    &&& final(self).consumer_sinks() == old(self).consumer_sinks()
                    &&& final(self).pending_ping() == old(self).pending_ping()
                    &&& if old(self).stashed().contains_key(key) {
                        &&& final(self).stashed() == old(self).stashed().remove(key)
                        &&& final(self).pending() == old(self).pending()
                    } else {
                        &&& final(self).pending() == old(self).pending().insert(key, resolver)
                        &&& final(self).stashed() == old(self).stashed()
                    }
                },
                ReceiverEvent::Registration(Register::Consumer { consumer_id, resolver }) => {
                    &&& status == ReceiverStatus::Continue
                    &&& final(self).consumer_sinks() == old(self).consumer_sinks().insert(
                        RequestKey::Consumer { consumer_id },
                        resolver,
                    )
                    &&& final(self).pending() == old(self).pending()
                    &&& final(self).stashed() == old(self).stashed()
                    &&& final(self).pending_ping() == old(self).pending_ping()
                },
                ReceiverEvent::Registration(Register::Ping { resolver }) => {
                    &&& status == ReceiverStatus::Continue
                    &&& final(self).pending_ping() == Some(resolver)
                    &&& final(self).pending() == old(self).pending()
                    &&& final(self).stashed() == old(self).stashed()
                    &&& final(self).consumer_sinks() == old(self).consumer_sinks()
                },
                ReceiverEvent::RegistrationsClosed => {
                    &&& status == ReceiverStatus::Terminate(Some(ConnectionError::Disconnected))
                    &&& ReceiverState::same_routing(*old(self), *final(self))
                },
                ReceiverEvent::Frame(msg) => {
                    &&& status == ReceiverStatus::Continue
                    &&& final(self).consumer_sinks() == old(self).consumer_sinks()
                    &&& if msg.command.ping is Some {
                        ReceiverState::same_routing(*old(self), *final(self))
                    } else if msg.command.pong is Some {
                        &&& final(self).pending_ping() is None
                        &&& final(self).pending() == old(self).pending()
                        &&& final(self).stashed() == old(self).stashed()
                    } else {
                        &&& final(self).pending_ping() == old(self).pending_ping()
                        &&& match spec_request_key(msg) {
                            Some(key) => match key {
                                RequestKey::Consumer { .. } => {
                                    &&& final(self).pending() == old(self).pending()
                                    &&& final(self).stashed() == old(self).stashed()
                                },
                                _ => {
                                    if old(self).pending().contains_key(key) {
                                        &&& final(self).pending() == old(self).pending().remove(
                                            key,
                                        )
                                        &&& final(self).stashed() == old(self).stashed()
                                    } else {
                                        &&& final(self).stashed() == old(self).stashed().insert(
                                            key,
                                            msg,
                                        )
                                        &&& final(self).pending() == old(self).pending()
                                    }
                                },
                            },
                            None => {
                                &&& final(self).pending() == old(self).pending()
                                &&& final(self).stashed() == old(self).stashed()
                            },
                        }
                    }
                },
                ReceiverEvent::TransportError(e) => {
                    &&& status == ReceiverStatus::Terminate(Some(e))
                    &&& ReceiverState::same_routing(*old(self), *final(self))
                },
                ReceiverEvent::InboundClosed => {
                    &&& status == ReceiverStatus::Terminate(Some(ConnectionError::Disconnected))
                    &&& ReceiverState::same_routing(*old(self), *final(self))
                },
            },
    {
        match event {
            ReceiverEvent::Shutdown => ReceiverStatus::Terminate(None),
            ReceiverEvent::Registration(Register::Request { key, resolver }) => {
                match self.received_messages.remove(key) {
                    Some(msg) => {
                        // The caller registered after its response
                        // arrived: complete it at once from the stash.
                        // A dropped caller is not an error.
                        let _ = resolver.send(msg);
                        proof {
                            assert forall|k: RequestKey|
                                self.pending().contains_key(k) implies !self.stashed().contains_key(
                                k,
                            ) by {
                                assert(!old(self).stashed().contains_key(k));
                            }
                        }
                    },
                    None => {
                        self.pending_requests.insert(key, resolver);
                        proof {
                            assert forall|k: RequestKey|
                                self.pending().contains_key(k) implies !self.stashed().contains_key(
                                k,
                            ) by {
                                if k != key {
                                    assert(old(self).pending().contains_key(k));
                                }
                            }
                        }
                    },
                }
                proof {
                    assert(self.consumers == old(self).consumers);
                    assert forall|k: RequestKey|
                        self.consumer_sinks().contains_key(k) implies k is Consumer by {
                        assert(old(self).consumer_sinks().contains_key(k));
                    }
                }
                ReceiverStatus::Continue
            },
            ReceiverEvent::Registration(Register::Consumer { consumer_id, resolver }) => {
                self.consumers.insert(RequestKey::Consumer { consumer_id }, resolver);
                proof {
                    assert forall|k: RequestKey|
                        self.consumer_sinks().contains_key(k) implies k is Consumer by {
                        if k != (RequestKey::Consumer { consumer_id }) {
                            assert(old(self).consumer_sinks().contains_key(k));
                        }
                    }
                    assert(self.pending_requests == old(self).pending_requests);
                    assert(self.received_messages == old(self).received_messages);
                    assert forall|k: RequestKey|
                        self.pending().contains_key(k) implies !self.stashed().contains_key(
                        k,
                    ) by {
                        assert(old(self).pending().contains_key(k));
                    }
                }
                ReceiverStatus::Continue
            },
            ReceiverEvent::Registration(Register::Ping { resolver }) => {
                self.ping = Some(resolver);
                proof {
                    assert forall|k: RequestKey|
                        self.pending().contains_key(k) implies !self.stashed().contains_key(
                        k,
                    ) by {
                        assert(old(self).pending().contains_key(k));
                    }
                    assert forall|k: RequestKey|
                        self.consumer_sinks().contains_key(k) implies k is Consumer by {
                        assert(old(self).consumer_sinks().contains_key(k));
                    }
                }
                ReceiverStatus::Continue
            },
            ReceiverEvent::RegistrationsClosed => {
                ReceiverStatus::Terminate(Some(ConnectionError::Disconnected))
            },
            ReceiverEvent::Frame(msg) => {
                if msg.command.ping.is_some() {
                    let _ = unbounded_send(&self.outbound, messages::pong());
                        ReceiverStatus::Continue
                } else if msg.command.pong.is_some() {
                    if let Some(resolver) = self.ping.take() {
                        let _ = resolver.send(());
                    }
                    proof {
                        assert(self.pending_requests == old(self).pending_requests);
                        assert(self.received_messages == old(self).received_messages);
                        assert(self.consumers == old(self).consumers);
                        assert forall|k: RequestKey|
                            self.pending().contains_key(k) implies !self.stashed().contains_key(
                            k,
                        ) by {
                            assert(old(self).pending().contains_key(k));
                        }
                        assert forall|k: RequestKey|
                            self.consumer_sinks().contains_key(k) implies k is Consumer by {
                            assert(old(self).consumer_sinks().contains_key(k));
                        }
                    }
                    ReceiverStatus::Continue
                } else {
                    match msg.request_key() {
                        Some(key) => match key {
                            RequestKey::Consumer { .. } => {
                                if let Some(consumer) = self.consumers.get(key) {
                                    let _ = unbounded_send(consumer, msg);
                                }
                                proof {
                                    assert(self.consumers == old(self).consumers);
                                    assert forall|k2: RequestKey|
                                        self.consumer_sinks().contains_key(
                                            k2,
                                        ) implies k2 is Consumer by {
                                        assert(old(self).consumer_sinks().contains_key(k2));
                                    }
                                }
                                ReceiverStatus::Continue
                            },
                            _ => {
                                match self.pending_requests.remove(key) {
                                    Some(resolver) => {
                                        // The caller may have dropped its
                                        // future; sending to a closed
                                        // resolver is a no-op.
                                        let _ = resolver.send(msg);
                                        proof {
                                            assert forall|k2: RequestKey|
                                                self.pending().contains_key(
                                                    k2,
                                                ) implies !self.stashed().contains_key(k2) by {
                                                assert(old(self).pending().contains_key(k2));
                                            }
                                        }
                                    },
                                    None => {
                                        self.received_messages.insert(key, msg);
                                        proof {
                                            assert forall|k2: RequestKey|
                                                self.pending().contains_key(
                                                    k2,
                                                ) implies !self.stashed().contains_key(k2) by {
                                                assert(old(self).pending().contains_key(k2));
                                            }
                                        }
                                    },
                                }
                                proof {
                                    assert(self.consumers == old(self).consumers);
                                    assert forall|k2: RequestKey|
                                        self.consumer_sinks().contains_key(
                                            k2,
                                        ) implies k2 is Consumer by {
                                        assert(old(self).consumer_sinks().contains_key(k2));
                                    }
                                }
                                ReceiverStatus::Continue
                            },
                        },
                        None => ReceiverStatus::Continue,
                    }
                }
            },
            ReceiverEvent::TransportError(e) => ReceiverStatus::Terminate(Some(e)),
            ReceiverEvent::InboundClosed => {
                ReceiverStatus::Terminate(Some(ConnectionError::Disconnected))
            },
        }
    }
}

/// The public handle callers issue requests through: it builds each
/// frame, posts the registration and the frame to the receiver and
/// writer, and hands back the one-shot receiver the caller awaits
/// outside the library.  Failure to post either record means the
/// connection is torn down: the operation reports `Disconnected`.
pub struct ConnectionSender {
    tx: UnboundedSender<Message>,
    registrations: UnboundedSender<Register>,
    receiver_shutdown: Option<OneshotSender<()>>,
    request_id: SerialId,
}

impl ConnectionSender {
    /// The request id the next id-allocating operation uses.
    pub closed spec fn next_request_id(self) -> u64 {
        self.request_id.spec_next()
    }

    /// True while the shutdown signal has not been fired yet.
    pub closed spec fn shutdown_armed(self) -> bool {
        self.receiver_shutdown is Some
    }

    /// Assembles the handle around the outbound queue, the registration
    /// inbox, the shutdown signal and the id generator.
    pub fn new(
        tx: UnboundedSender<Message>,
        registrations: UnboundedSender<Register>,
        receiver_shutdown: OneshotSender<()>,
        request_id: SerialId,
    ) -> (r: ConnectionSender)
        ensures
            r.next_request_id() == request_id.spec_next(),
            r.shutdown_armed(),
    {
        ConnectionSender {
            tx,
            registrations,
            receiver_shutdown: Some(receiver_shutdown),
            request_id,
        }
    }

    /// The id the next id-allocating operation will use; the shell
    /// checks it against the counter's limit before calling one.
    pub fn peek_request_id(&self) -> (r: u64)
        ensures
            r == self.next_request_id(),
    {
        self.request_id.next
    }

    /// Posts the registration for `key` and then enqueues `msg`; on
    /// success the returned receiver yields the correlated response.
    fn send_message(&self, msg: Message, key: RequestKey) -> (r: Result<
        OneshotReceiver<Message>,
        ConnectionError,
    >)
        ensures
            r matches Err(e) ==> e == ConnectionError::Disconnected,
    {
        let (resolver, response) = futures::channel::oneshot::channel();
        let posted = unbounded_send(&self.registrations, Register::Request { key, resolver });
        let queued = unbounded_send(&self.tx, msg);
        match (posted, queued) {
            (Ok(()), Ok(())) => Ok(response),
            _ => Err(ConnectionError::Disconnected),
        }
    }

    /// Publishes one message under `(producer_id, sequence_id)`; the
    /// receipt arrives on the returned receiver.  Callers preserve
    /// per-producer order by enqueueing sends in sequence order.
    pub fn send(
        &self,
        producer_id: u64,
        producer_name: String,
        sequence_id: u64,
        message: ProducerMessage,
    ) -> (r: Result<OneshotReceiver<Message>, ConnectionError>)
        ensures
            r matches Err(e) ==> e == ConnectionError::Disconnected,
    {
        let key = RequestKey::ProducerSend { producer_id, sequence_id };
        let msg = messages::send(producer_id, producer_name, sequence_id, message);
        self.send_message(msg, key)
    }

    /// Posts a ping registration and enqueues a `Ping` frame; the
    /// returned receiver completes on the next `Pong`.
    pub fn send_ping(&self) -> (r: Result<OneshotReceiver<()>, ConnectionError>)
        ensures
            r matches Err(e) ==> e == ConnectionError::Disconnected,
    {
        let (resolver, response) = futures::channel::oneshot::channel();
        let posted = unbounded_send(&self.registrations, Register::Ping { resolver });
        let queued = unbounded_send(&self.tx, messages::ping());
        match (posted, queued) {
            (Ok(()), Ok(())) => Ok(response),
            _ => Err(ConnectionError::Disconnected),
        }
    }

    /// Issues a topic lookup under a fresh request id.
    pub fn lookup_topic(&mut self, topic: String, authoritative: bool) -> (r: Result<
        OneshotReceiver<Message>,
        ConnectionError,
    >)
        requires
            old(self).next_request_id() < u64::MAX,
        ensures
            final(self).next_request_id() == old(self).next_request_id() + 1,
            final(self).shutdown_armed() == old(self).shutdown_armed(),
            r matches Err(e) ==> e == ConnectionError::Disconnected,
    {
        let request_id = self.request_id.get();
        let msg = messages::lookup_topic(topic, authoritative, request_id);
        self.send_message(msg, RequestKey::RequestId(request_id))
    }

    /// Asks for a topic's partition metadata under a fresh request id.
    pub fn lookup_partitioned_topic(&mut self, topic: String) -> (r: Result<
        OneshotReceiver<Message>,
        ConnectionError,
    >)
        requires
            old(self).next_request_id() < u64::MAX,
        ensures
            final(self).next_request_id() == old(self).next_request_id() + 1,
            final(self).shutdown_armed() == old(self).shutdown_armed(),
            r matches Err(e) ==> e == ConnectionError::Disconnected,
    {
        let request_id = self.request_id.get();
        let msg = messages::lookup_partitioned_topic(topic, request_id);
        self.send_message(msg, RequestKey::RequestId(request_id))
    }

    /// Registers a producer under a fresh request id.
    pub fn create_producer(
        &mut self,
        topic: String,
        producer_id: u64,
        producer_name: Option<String>,
        options: ProducerOptions,
    ) -> (r: Result<OneshotReceiver<Message>, ConnectionError>)
        requires
            old(self).next_request_id() < u64::MAX,
        ensures
            final(self).next_request_id() == old(self).next_request_id() + 1,
            final(self).shutdown_armed() == old(self).shutdown_armed(),
            r matches Err(e) ==> e == ConnectionError::Disconnected,
    {
        let request_id = self.request_id.get();
        let msg = messages::create_producer(topic, producer_name, producer_id, request_id, options);
        self.send_message(msg, RequestKey::RequestId(request_id))
    }

    /// Asks for the topics of a namespace under a fresh request id.
    pub fn get_topics_of_namespace(&mut self, namespace: String, mode: Mode) -> (r: Result<
        OneshotReceiver<Message>,
        ConnectionError,
    >)
        requires
            old(self).next_request_id() < u64::MAX,
        ensures
            final(self).next_request_id() == old(self).next_request_id() + 1,
            final(self).shutdown_armed() == old(self).shutdown_armed(),
            r matches Err(e) ==> e == ConnectionError::Disconnected,
    {
        let request_id = self.request_id.get();
        let msg = messages::get_topics_of_namespace(request_id, namespace, mode);
        self.send_message(msg, RequestKey::RequestId(request_id))
    }

    /// Closes a producer under a fresh request id.
    pub fn close_producer(&mut self, producer_id: u64) -> (r: Result<
        OneshotReceiver<Message>,
        ConnectionError,
    >)
        requires
            old(self).next_request_id() < u64::MAX,
        ensures
            final(self).next_request_id() == old(self).next_request_id() + 1,
            final(self).shutdown_armed() == old(self).shutdown_armed(),
            r matches Err(e) ==> e == ConnectionError::Disconnected,
    {
        let request_id = self.request_id.get();
        let msg = messages::close_producer(producer_id, request_id);
        self.send_message(msg, RequestKey::RequestId(request_id))
    }

    /// Subscribes a consumer.  The consumer's delivery channel is
    /// posted to the receiver strictly before the subscribe frame is
    /// enqueued, so the routing entry exists before the broker can
    /// deliver; if that post fails the subscribe frame is never sent.
    pub fn subscribe(
        &mut self,
        resolver: UnboundedSender<Message>,
        topic: String,
        subscription: String,
        sub_type: SubType,
        consumer_id: u64,
        consumer_name: Option<String>,
        options: ConsumerOptions,
    ) -> (r: Result<OneshotReceiver<Message>, ConnectionError>)
        requires
            old(self).next_request_id() < u64::MAX,
        ensures
            final(self).next_request_id() == old(self).next_request_id() + 1,
            final(self).shutdown_armed() == old(self).shutdown_armed(),
            r matches Err(e) ==> e == ConnectionError::Disconnected,
    {
        let request_id = self.request_id.get();
        let msg = messages::subscribe(
            topic,
            subscription,
            sub_type,
            consumer_id,
            request_id,
            consumer_name,
            options,
        );
        match unbounded_send(&self.registrations, Register::Consumer { consumer_id, resolver }) {
            Ok(()) => {},
            Err(_) => {
                return Err(ConnectionError::Disconnected);
            },
        }
        self.send_message(msg, RequestKey::RequestId(request_id))
    }

    /// Grants delivery permits; fire-and-forget.
    pub fn send_flow(&self, consumer_id: u64, message_permits: u32) -> (r: Result<
        (),
        ConnectionError,
    >)
        ensures
            r matches Err(e) ==> e == ConnectionError::Disconnected,
    {
        match unbounded_send(&self.tx, messages::flow(consumer_id, message_permits)) {
            Ok(()) => Ok(()),
            Err(_) => Err(ConnectionError::Disconnected),
        }
    }

    /// Acknowledges messages; fire-and-forget.
    pub fn send_ack(
        &self,
        consumer_id: u64,
        message_ids: Vec<crate::proto::MessageIdData>,
        cumulative: bool,
    ) -> (r: Result<(), ConnectionError>)
        ensures
            r matches Err(e) ==> e == ConnectionError::Disconnected,
    {
        match unbounded_send(&self.tx, messages::ack(consumer_id, message_ids, cumulative)) {
            Ok(()) => Ok(()),
            Err(_) => Err(ConnectionError::Disconnected),
        }
    }

    /// Asks for redelivery of unacknowledged messages; fire-and-forget.
    pub fn send_redeliver_unacknowleged_messages(
        &self,
        consumer_id: u64,
        message_ids: Vec<crate::proto::MessageIdData>,
    ) -> (r: Result<(), ConnectionError>)
        ensures
            r matches Err(e) ==> e == ConnectionError::Disconnected,
    {
        match unbounded_send(
            &self.tx,
            messages::redeliver_unacknowleged_messages(consumer_id, message_ids),
        ) {
            Ok(()) => Ok(()),
            Err(_) => Err(ConnectionError::Disconnected),
        }
    }

    /// Closes a consumer under a fresh request id.
    pub fn close_consumer(&mut self, consumer_id: u64) -> (r: Result<
        OneshotReceiver<Message>,
        ConnectionError,
    >)
        requires
            old(self).next_request_id() < u64::MAX,
        ensures
            final(self).next_request_id() == old(self).next_request_id() + 1,
            final(self).shutdown_armed() == old(self).shutdown_armed(),
            r matches Err(e) ==> e == ConnectionError::Disconnected,
    {
        let request_id = self.request_id.get();
        let msg = messages::close_consumer(consumer_id, request_id);
        self.send_message(msg, RequestKey::RequestId(request_id))
    }

    /// Fires the receiver's shutdown signal.  Only the first call
    /// fires; any later call is a no-op, so dropping the connection
    /// twice fires shutdown at most once.
    pub fn shutdown(&mut self) -> (fired: bool)
        ensures
            fired == old(self).shutdown_armed(),
            !final(self).shutdown_armed(),
            final(self).next_request_id() == old(self).next_request_id(),
    {
        match self.receiver_shutdown.take() {
            Some(signal) => {
                let _ = signal.send(());
                true
            },
            None => false,
        }
    }
}

/// An established connection: an opaque random label, the origin URL,
/// and the sender surface.  The shell that owns the transport drives
/// shutdown through [`ConnectionSender::shutdown`] when the connection
/// is dropped.
pub struct Connection {
    id: i64,
    url: String,
    sender: ConnectionSender,
}

impl Connection {
    /// The opaque label of this connection.
    pub closed spec fn spec_id(self) -> i64 {
        self.id
    }

    /// The origin URL of this connection.
    pub closed spec fn spec_url(self) -> String {
        self.url
    }

    /// The sender surface of this connection.
    pub closed spec fn spec_sender(self) -> ConnectionSender {
        self.sender
    }

    /// Assembles a connection around a ready sender and labels it with
    /// a random id, used for logging only.
    pub fn new(url: String, sender: ConnectionSender) -> (r: Connection)
        ensures
            r.spec_url() == url,
            r.spec_sender() == sender,
    {
        let id = random_connection_id();
        Connection { id, url, sender }
    }

    /// The opaque random label of this connection.
    pub fn id(&self) -> (r: i64)
        ensures
            r == self.spec_id(),
    {
        self.id
    }

    /// The URL this connection was opened against.
    pub fn url(&self) -> (r: &String)
        ensures
            *r == self.spec_url(),
    {
        &self.url
    }

    /// The sender surface, e.g. `conn.sender().send_ping()`.
    pub fn sender(&self) -> (r: &ConnectionSender)
        ensures
            *r == self.spec_sender(),
    {
        &self.sender
    }

    /// The sender surface, for the operations that allocate request
    /// ids and so take it mutably.
    pub fn sender_mut(&mut self) -> (r: &mut ConnectionSender)
        ensures
            *r == old(self).spec_sender(),
            final(self).spec_sender() == *final(r),
            final(self).spec_id() == old(self).spec_id(),
            final(self).spec_url() == old(self).spec_url(),
    {
        &mut self.sender
    }

    /// Fires the receiver's shutdown signal; only the first call of
    /// the connection's lifetime fires.
    pub fn shutdown(&mut self) -> (fired: bool)
        ensures
            fired == old(self).spec_sender().shutdown_armed(),
            !final(self).spec_sender().shutdown_armed(),
            final(self).spec_id() == old(self).spec_id(),
            final(self).spec_url() == old(self).spec_url(),
    {
        self.sender.shutdown()
    }
}

impl ReceiverState {
    /// Law: a key is never awaited and stashed at once.  Whenever a
    /// caller is pending under a key, no response under that key is
    /// sitting in the stash — each response either completes a waiting
    /// caller or waits for a late one, never both.
    pub proof fn lemma_pending_stash_exclusive(self, k: RequestKey)
        requires
            self.wf(),
            self.pending().contains_key(k),
        ensures
            !self.stashed().contains_key(k),
    {
    }
}

/// True exactly when the two slices hold the same characters.
fn str_eq(a: &str, b: &str) -> (r: bool)
    ensures
        r == (a@ == b@),
{
    let x: String = a.to_owned();
    let y: String = b.to_owned();
    x == y
}

/// Whether `scheme` selects TLS.  Only `pulsar` (plain) and
/// `pulsar+ssl` (TLS) belong to the URL surface; any other scheme is
/// refused with `NotFound`.
pub fn scheme_tls(scheme: &str) -> (r: Result<bool, ConnectionError>)
    ensures
        scheme@ == "pulsar"@ ==> r == Ok::<bool, ConnectionError>(false),
        scheme@ == "pulsar+ssl"@ ==> r == Ok::<bool, ConnectionError>(true),
        scheme@ != "pulsar"@ && scheme@ != "pulsar+ssl"@ ==> r == Err::<bool, ConnectionError>(
            ConnectionError::NotFound,
        ),
{
    proof {
        reveal_strlit("pulsar");
        reveal_strlit("pulsar+ssl");
        assert("pulsar"@.len() == 6);
        assert("pulsar+ssl"@.len() == 10);
        assert("pulsar"@ != "pulsar+ssl"@);
    }
    if str_eq(scheme, "pulsar") {
        Ok(false)
    } else if str_eq(scheme, "pulsar+ssl") {
        Ok(true)
    } else {
        Err(ConnectionError::NotFound)
    }
}

/// The default broker port of the URL surface: 6650 plain, 6651 TLS.
pub fn default_port(tls: bool) -> (r: u16)
    ensures
        r == (if tls {
            6651u16
        } else {
            6650u16
        }),
{
    if tls {
        6651
    } else {
        6650
    }
}

/// Relies on rand's `thread_rng` and `Rng::gen_range`: a uniformly
/// random index below `len` (the range `0..len` is non-empty).
#[verifier::external_body]
fn random_index(len: usize) -> (r: usize)
    requires
        len > 0,
    ensures
        r < len,
{
    rand::Rng::gen_range(&mut rand::thread_rng(), 0..len)
}

/// Relies on rand's `random`: an arbitrary label for a connection.
#[verifier::external_body]
fn random_connection_id() -> (r: i64) {
    rand::random()
}

/// Picks one element uniformly at random, spreading load across
/// multi-address DNS answers; an empty set is refused with `NotFound`.
pub fn choose_one<T>(v: Vec<T>) -> (r: Result<T, ConnectionError>)
    ensures
        v@.len() == 0 ==> (r matches Err(e) && e == ConnectionError::NotFound),
        v@.len() > 0 ==> (r matches Ok(x) && v@.contains(x)),
{
    if v.is_empty() {
        Err(ConnectionError::NotFound)
    } else {
        let mut picked = v;
        let i = random_index(picked.len());
        let x = picked.swap_remove(i);
        proof {
            assert(v@[i as int] == x);
        }
        Ok(x)
    }
}

/// Classifies the frame that answers the `Connect` handshake: a broker
/// `error` command fails with `PulsarError`; a `Connected` command
/// succeeds; any other frame is `Unexpected`; a transport error is
/// passed through; end of stream is `Disconnected`.
pub fn handshake_result(msg: Option<Result<Message, ConnectionError>>) -> (r: Result<
    CommandConnected,
    ConnectionError,
>)
    ensures
        match msg {
            None => r == Err::<CommandConnected, ConnectionError>(ConnectionError::Disconnected),
            Some(Err(e)) => r == Err::<CommandConnected, ConnectionError>(e),
            Some(Ok(m)) => {
                if m.command.error is Some {
                    r == Err::<CommandConnected, ConnectionError>(
                        ConnectionError::PulsarError(
                            spec_server_error(m.command.error->0.error),
                            Some(m.command.error->0.message),
                        ),
                    )
                } else if m.command.connected is Some {
                    r == Ok::<CommandConnected, ConnectionError>(m.command.connected->0)
                } else {
                    r matches Err(e) && e is Unexpected
                }
            },
        },
{
    match msg {
        Some(Ok(m)) => {
            if m.command.error.is_some() {
                let e = m.command.error.unwrap();
                Err(ConnectionError::PulsarError(server_error(e.error), Some(e.message)))
            } else if m.command.connected.is_some() {
                Ok(m.command.connected.unwrap())
            } else {
                Err(
                    ConnectionError::Unexpected(
                        "handshake reply carried no Connected command".to_owned(),
                    ),
                )
            }
        },
        Some(Err(e)) => Err(e),
        None => Err(ConnectionError::Disconnected),
    }
}

/// Turns a correlated response into the caller's result: a broker
/// `error` command becomes `PulsarError`; otherwise `extract` picks
/// the expected body out of the frame, and a response without it is
/// `UnexpectedResponse`.
pub fn extract_message<T, F: FnOnce(Message) -> Option<T>>(message: Message, extract: F) -> (r:
    Result<T, ConnectionError>)
    requires
        message.command.error is None ==> call_requires(extract, (message,)),
    ensures
        message.command.error matches Some(e) ==> r == Err::<T, ConnectionError>(
            ConnectionError::PulsarError(spec_server_error(e.error), Some(e.message)),
        ),
        message.command.error is None ==> match r {
            Ok(t) => call_ensures(extract, (message,), Some(t)),
            Err(e) => e is UnexpectedResponse && call_ensures(extract, (message,), None::<T>),
        },
{
    if message.command.error.is_some() {
        let e = message.command.error.unwrap();
        Err(ConnectionError::PulsarError(server_error(e.error), Some(e.message)))
    } else {
        match extract(message) {
            Some(t) => Ok(t),
            None => Err(
                ConnectionError::UnexpectedResponse(
                    "response carried no matching command body".to_owned(),
                ),
            ),
        }
    }
}

/// Pulls the `SendReceipt` body out of a correlated response, as the
/// awaiting caller of the matching sender operation expects it.
pub fn extract_send_receipt(message: Message) -> (r: Result<CommandSendReceipt, ConnectionError>)
    ensures
        message.command.error matches Some(e) ==> r == Err::<CommandSendReceipt, ConnectionError>(
            ConnectionError::PulsarError(spec_server_error(e.error), Some(e.message)),
        ),
        message.command.error is None ==> match message.command.send_receipt {
            Some(body) => r == Ok::<CommandSendReceipt, ConnectionError>(body),
            None => (r matches Err(e) && e is UnexpectedResponse),
        },
{
    if message.command.error.is_some() {
        let e = message.command.error.unwrap();
        Err(ConnectionError::PulsarError(server_error(e.error), Some(e.message)))
    } else {
        match message.command.send_receipt {
            Some(body) => Ok(body),
            None => Err(
                ConnectionError::UnexpectedResponse(
                    "response carried no matching command body".to_owned(),
                ),
            ),
        }
    }
}

/// Pulls the `LookupTopicResponse` body out of a correlated response, as the
/// awaiting caller of the matching sender operation expects it.
pub fn extract_lookup_topic_response(message: Message) -> (r: Result<CommandLookupTopicResponse, ConnectionError>)
    ensures
        message.command.error matches Some(e) ==> r == Err::<CommandLookupTopicResponse, ConnectionError>(
            ConnectionError::PulsarError(spec_server_error(e.error), Some(e.message)),
        ),
        message.command.error is None ==> match message.command.lookup_topic_response {
            Some(body) => r == Ok::<CommandLookupTopicResponse, ConnectionError>(body),
            None => (r matches Err(e) && e is UnexpectedResponse),
        },
{
    if message.command.error.is_some() {
        let e = message.command.error.unwrap();
        Err(ConnectionError::PulsarError(server_error(e.error), Some(e.message)))
    } else {
        match message.command.lookup_topic_response {
            Some(body) => Ok(body),
            None => Err(
                ConnectionError::UnexpectedResponse(
                    "response carried no matching command body".to_owned(),
                ),
            ),
        }
    }
}

/// Pulls the `PartitionedTopicMetadataResponse` body out of a correlated response, as the
/// awaiting caller of the matching sender operation expects it.
pub fn extract_partition_metadata_response(message: Message) -> (r: Result<CommandPartitionedTopicMetadataResponse, ConnectionError>)
    ensures
        message.command.error matches Some(e) ==> r == Err::<CommandPartitionedTopicMetadataResponse, ConnectionError>(
            ConnectionError::PulsarError(spec_server_error(e.error), Some(e.message)),
        ),
        message.command.error is None ==> match message.command.partition_metadata_response {
            Some(body) => r == Ok::<CommandPartitionedTopicMetadataResponse, ConnectionError>(body),
            None => (r matches Err(e) && e is UnexpectedResponse),
        },
{
    if message.command.error.is_some() {
        let e = message.command.error.unwrap();
        Err(ConnectionError::PulsarError(server_error(e.error), Some(e.message)))
    } else {
        match message.command.partition_metadata_response {
            Some(body) => Ok(body),
            None => Err(
                ConnectionError::UnexpectedResponse(
                    "response carried no matching command body".to_owned(),
                ),
            ),
        }
    }
}

/// Pulls the `ProducerSuccess` body out of a correlated response, as the
/// awaiting caller of the matching sender operation expects it.
pub fn extract_producer_success(message: Message) -> (r: Result<CommandProducerSuccess, ConnectionError>)
    ensures
        message.command.error matches Some(e) ==> r == Err::<CommandProducerSuccess, ConnectionError>(
            ConnectionError::PulsarError(spec_server_error(e.error), Some(e.message)),
        ),
        message.command.error is None ==> match message.command.producer_success {
            Some(body) => r == Ok::<CommandProducerSuccess, ConnectionError>(body),
            None => (r matches Err(e) && e is UnexpectedResponse),
        },
{
    if message.command.error.is_some() {
        let e = message.command.error.unwrap();
        Err(ConnectionError::PulsarError(server_error(e.error), Some(e.message)))
    } else {
        match message.command.producer_success {
            Some(body) => Ok(body),
            None => Err(
                ConnectionError::UnexpectedResponse(
                    "response carried no matching command body".to_owned(),
                ),
            ),
        }
    }
}

/// Pulls the `GetTopicsOfNamespaceResponse` body out of a correlated response, as the
/// awaiting caller of the matching sender operation expects it.
pub fn extract_get_topics_of_namespace_response(message: Message) -> (r: Result<CommandGetTopicsOfNamespaceResponse, ConnectionError>)
    ensures
        message.command.error matches Some(e) ==> r == Err::<CommandGetTopicsOfNamespaceResponse, ConnectionError>(
            ConnectionError::PulsarError(spec_server_error(e.error), Some(e.message)),
        ),
        message.command.error is None ==> match message.command.get_topics_of_namespace_response {
            Some(body) => r == Ok::<CommandGetTopicsOfNamespaceResponse, ConnectionError>(body),
            None => (r matches Err(e) && e is UnexpectedResponse),
        },
{
    if message.command.error.is_some() {
        let e = message.command.error.unwrap();
        Err(ConnectionError::PulsarError(server_error(e.error), Some(e.message)))
    } else {
        match message.command.get_topics_of_namespace_response {
            Some(body) => Ok(body),
            None => Err(
                ConnectionError::UnexpectedResponse(
                    "response carried no matching command body".to_owned(),
                ),
            ),
        }
    }
}

/// Pulls the `Success` body out of a correlated response, as the
/// awaiting caller of the matching sender operation expects it.
pub fn extract_success(message: Message) -> (r: Result<CommandSuccess, ConnectionError>)
    ensures
        message.command.error matches Some(e) ==> r == Err::<CommandSuccess, ConnectionError>(
            ConnectionError::PulsarError(spec_server_error(e.error), Some(e.message)),
        ),
        message.command.error is None ==> match message.command.success {
            Some(body) => r == Ok::<CommandSuccess, ConnectionError>(body),
            None => (r matches Err(e) && e is UnexpectedResponse),
        },
{
    if message.command.error.is_some() {
        let e = message.command.error.unwrap();
        Err(ConnectionError::PulsarError(server_error(e.error), Some(e.message)))
    } else {
        match message.command.success {
            Some(body) => Ok(body),
            None => Err(
                ConnectionError::UnexpectedResponse(
                    "response carried no matching command body".to_owned(),
                ),
            ),
        }
    }
}

} // verus!

//! Options and payload data a higher-level producer hands to the
//! connection core when publishing.

use vstd::prelude::*;

use crate::proto::{EncryptionKeys, KeyValue, Schema};

verus! {

/// Per-producer options passed through in a `Producer` registration.
#[derive(Clone, Debug, PartialEq, Eq)]
pub struct ProducerOptions {
    pub encrypted: Option<bool>,
    pub metadata: Vec<KeyValue>,
    pub schema: Option<Schema>,
}

/// One message to publish: raw bytes plus the metadata that travels
/// with them.
#[derive(Clone, Debug, PartialEq, Eq)]
pub struct ProducerMessage {
    pub payload: Vec<u8>,
    pub properties: Vec<KeyValue>,
    pub partition_key: Option<String>,
    pub replicate_to: Vec<String>,
    pub compression: Option<i32>,
    pub uncompressed_size: Option<u32>,
    pub num_messages_in_batch: Option<i32>,
    pub event_time: Option<u64>,
    pub encryption_keys: Vec<EncryptionKeys>,
    pub encryption_algo: Option<String>,
    pub encryption_param: Option<Vec<u8>>,
    pub schema_version: Option<Vec<u8>>,
}

} // verus!

//! Options a higher-level consumer hands to the connection core when
//! subscribing.

use vstd::prelude::*;

use crate::proto::{KeyValue, MessageIdData, Schema};

verus! {

/// Per-subscription options passed through in a `Subscribe` command.
#[derive(Clone, Debug, PartialEq, Eq)]
pub struct ConsumerOptions {
    pub priority_level: Option<i32>,
    pub durable: Option<bool>,
    pub start_message_id: Option<MessageIdData>,
    pub metadata: Vec<KeyValue>,
    pub read_compacted: Option<bool>,
    pub schema: Option<Schema>,
    pub initial_position: Option<i32>,
}

} // verus!

use vstd::prelude::*;
use crate::amount::U256;
use crate::client::EngineClient;
use crate::header::{Address, H256};

verus! {

/// A log entry as a transaction emitted it.
#[derive(Clone, Debug, PartialEq, Eq)]
pub struct LogEntry {
    /// The address of the contract that emitted it.
    pub address: Address,
    /// The topics, in order.
    pub topics: Vec<H256>,
    /// The payload.
    pub data: Vec<u8>,
}

/// A log entry placed in the chain: the block and the transaction that hold it.
#[derive(Clone, Debug, PartialEq, Eq)]
pub struct LocalizedLogEntry {
    /// The entry itself.
    pub entry: LogEntry,
    /// The hash of the block that holds it.
    pub block_hash: H256,
    /// The number of that block.
    pub block_number: u64,
    /// The hash of the transaction that emitted it.
    pub transaction_hash: H256,
    /// The index of that transaction in its block.
    pub transaction_index: u64,
    /// The index of the entry in its block.
    pub log_index: u64,
    /// The index of the entry among those of its transaction.
    pub transaction_log_index: u64,
}

/// Whether a log record belongs to a block yet.
#[derive(Clone, Copy, Debug, PartialEq, Eq)]
pub enum LogType {
    /// In a block of the chain.
    Mined,
    /// Not in a block yet.
    Pending,
}

impl LogType {
    /// The name of the status: "mined" or "pending".
    pub fn as_str(&self) -> (r: &'static str)
        ensures
            *self == LogType::Mined ==> r@ == "mined"@,
            *self == LogType::Pending ==> r@ == "pending"@,
    {
        match self {
            LogType::Mined => {
                proof {
                    reveal_strlit("mined");
                }
                "mined"
            },
            LogType::Pending => {
                proof {
                    reveal_strlit("pending");
                }
                "pending"
            },
        }
    }
}

/// A log record, with what its links resolve to once it has been enriched.
#[derive(Clone, Debug, PartialEq, Eq)]
pub struct LogDetails {
    pub address: Address,
    pub topics: Vec<H256>,
    pub data: Vec<u8>,
    pub block_hash: Option<H256>,
    pub block_number: Option<U256>,
    pub transaction_hash: Option<H256>,
    pub transaction_index: Option<U256>,
    pub log_index: Option<U256>,
    pub transaction_log_index: Option<U256>,
    pub log_type: LogType,
    /// The timestamp of the block, once resolved.
    pub timestamp: Option<u64>,
    /// The value of the transaction, once resolved.
    pub value: Option<U256>,
}

impl LogDetails {
    /// A mined record: every link of the entry, its fields copied, nothing
    /// resolved yet.
    pub open spec fn mined_from(e: LocalizedLogEntry) -> LogDetails {
        LogDetails {
            address: e.entry.address,
            topics: e.entry.topics,
            data: e.entry.data,
            block_hash: Some(e.block_hash),
            block_number: Some(U256 { words: [e.block_number, 0, 0, 0] }),
            transaction_hash: Some(e.transaction_hash),
            transaction_index: Some(U256 { words: [e.transaction_index, 0, 0, 0] }),
            log_index: Some(U256 { words: [e.log_index, 0, 0, 0] }),
            transaction_log_index: Some(U256 { words: [e.transaction_log_index, 0, 0, 0] }),
            log_type: LogType::Mined,
            timestamp: None,
            value: None,
        }
    }

    /// A pending record: the entry's fields copied, no links.
    pub open spec fn pending_from(e: LogEntry) -> LogDetails {
        LogDetails {
            address: e.address,
            topics: e.topics,
            data: e.data,
            block_hash: None,
            block_number: None,
            transaction_hash: None,
            transaction_index: None,
            log_index: None,
            transaction_log_index: None,
            log_type: LogType::Pending,
            timestamp: None,
            value: None,
        }
    }
}

impl From<LocalizedLogEntry> for LogDetails {
    fn from(e: LocalizedLogEntry) -> (r: LogDetails)
        ensures
            r == LogDetails::mined_from(e),
    {
        LogDetails {
            address: e.entry.address,
            topics: e.entry.topics,
            data: e.entry.data,
            block_hash: Some(e.block_hash),
            block_number: Some(U256::from_u64(e.block_number)),
            transaction_hash: Some(e.transaction_hash),
            transaction_index: Some(U256::from_u64(e.transaction_index)),
            log_index: Some(U256::from_u64(e.log_index)),
            transaction_log_index: Some(U256::from_u64(e.transaction_log_index)),
            log_type: LogType::Mined,
            timestamp: None,
            value: None,
        }
    }
}

impl vstd::std_specs::convert::FromSpecImpl<LocalizedLogEntry> for LogDetails {
    open spec fn obeys_from_spec() -> bool {
        true
    }

    open spec fn from_spec(e: LocalizedLogEntry) -> LogDetails {
        LogDetails::mined_from(e)
    }
}

impl From<LogEntry> for LogDetails {
    fn from(e: LogEntry) -> (r: LogDetails)
        ensures
            r == LogDetails::pending_from(e),
    {
        LogDetails {
            address: e.address,
            topics: e.topics,
            data: e.data,
            block_hash: None,
            block_number: None,
            transaction_hash: None,
            transaction_index: None,
            log_index: None,
            transaction_log_index: None,
            log_type: LogType::Pending,
            timestamp: None,
            value: None,
        }
    }
}

impl vstd::std_specs::convert::FromSpecImpl<LogEntry> for LogDetails {
    open spec fn obeys_from_spec() -> bool {
        true
    }

    open spec fn from_spec(e: LogEntry) -> LogDetails {
        LogDetails::pending_from(e)
    }
}

/// What `value` returns: the value of the linked transaction, where there is
/// a link and the client resolves it.
pub open spec fn spec_value<C: EngineClient>(client: &C, log: &LogDetails) -> Option<U256> {
    match log.transaction_hash {
        Some(h) => match client.transaction_view(h@) {
            Some(t) => Some(t.value),
            None => None,
        },
        None => None,
    }
}

/// What `timestamp` returns: the timestamp of the linked block, where there is
/// a link and the client resolves it.
pub open spec fn spec_timestamp<C: EngineClient>(client: &C, log: &LogDetails) -> Option<u64> {
    match log.block_hash {
        Some(h) => match client.block_header_view(h@) {
            Some(b) => Some(b.timestamp),
            None => None,
        },
        None => None,
    }
}

/// The value of the transaction that the record links to.
pub fn value<C: EngineClient>(client: &C, log: &LogDetails) -> (r: Option<U256>)
    ensures
        r == spec_value(client, log),
{
    match &log.transaction_hash {
        Some(h) => match client.transaction(h) {
            Some(t) => Some(t.value),
            None => None,
        },
        None => None,
    }
}

/// The timestamp of the block that the record links to.
pub fn timestamp<C: EngineClient>(client: &C, log: &LogDetails) -> (r: Option<u64>)
    ensures
        r == spec_timestamp(client, log),
{
    match &log.block_hash {
        Some(h) => match client.block_header(h) {
            Some(b) => Some(b.timestamp),
            None => None,
        },
        None => None,
    }
}

/// The record with its value and timestamp resolved through the client; every
/// other field as it was.
pub fn enrich<C: EngineClient>(client: &C, log: LogDetails) -> (r: LogDetails)
    ensures
        r.value == spec_value(client, &log),
        r.timestamp == spec_timestamp(client, &log),
        r.address == log.address,
        r.topics == log.topics,
        r.data == log.data,
        r.block_hash == log.block_hash,
        r.block_number == log.block_number,
        r.transaction_hash == log.transaction_hash,
        r.transaction_index == log.transaction_index,
        r.log_index == log.log_index,
        r.transaction_log_index == log.transaction_log_index,
        r.log_type == log.log_type,
{
    let v = value(client, &log);
    let t = timestamp(client, &log);
    let mut out = log;
    out.value = v;
    out.timestamp = t;
    out
}

} // verus!

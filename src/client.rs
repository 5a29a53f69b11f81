use vstd::prelude::*;
use crate::amount::U256;
use crate::header::{H256, same_bytes};

verus! {

/// A transaction as a client resolves it.
#[derive(Clone, Copy, Debug, PartialEq, Eq)]
pub struct TransactionRecord {
    /// The amount transferred, in base units.
    pub value: U256,
}

/// A block header as a client resolves it.
#[derive(Clone, Copy, Debug, PartialEq, Eq)]
pub struct HeaderRecord {
    /// Seconds since the epoch.
    pub timestamp: u64,
}

/// A handle for querying chain data by identifier.
pub trait EngineClient {
    /// The transaction that `hash` identifies, if the client knows it.
    spec fn transaction_view(&self, hash: Seq<u8>) -> Option<TransactionRecord>;

    /// The block header that `hash` identifies, if the client knows it.
    spec fn block_header_view(&self, hash: Seq<u8>) -> Option<HeaderRecord>;

    /// Resolve a transaction by its hash.
    fn transaction(&self, hash: &H256) -> (r: Option<TransactionRecord>)
        ensures
            r == self.transaction_view(hash@),
    ;

    /// Resolve a block header by its hash.
    fn block_header(&self, hash: &H256) -> (r: Option<HeaderRecord>)
        ensures
            r == self.block_header_view(hash@),
    ;
}

/// The value of the first entry whose hash is `key`.
pub open spec fn first_match<T>(entries: Seq<(H256, T)>, key: Seq<u8>) -> Option<T>
    decreases entries.len(),
{
    if entries.len() == 0 {
        None
    } else if entries[0].0@ == key {
        Some(entries[0].1)
    } else {
        first_match(entries.drop_first(), key)
    }
}

/// Look up the first entry whose hash is `key`.
fn lookup<T: Copy>(entries: &Vec<(H256, T)>, key: &H256) -> (r: Option<T>)
    ensures
        r == first_match(entries@, key@),
{
    let mut i: usize = 0;
    proof {
        assert(entries@.subrange(0, entries@.len() as int) =~= entries@);
    }
    while i < entries.len()
        invariant
            i <= entries@.len(),
            first_match(entries@, key@) == first_match(
                entries@.subrange(i as int, entries@.len() as int),
                key@,
            ),
        decreases entries@.len() - i,
    {
        let rest = Ghost(entries@.subrange(i as int, entries@.len() as int));
        if same_bytes(entries[i].0.as_slice(), key.as_slice()) {
            return Some(entries[i].1);
        }
        proof {
            assert(rest@.drop_first() =~= entries@.subrange(i + 1, entries@.len() as int));
        }
        i = i + 1;
    }
    None
}

/// A client that answers from records held in memory.
#[derive(Clone, Debug)]
pub struct MemoryClient {
    /// Transactions by hash; the first entry of a hash counts.
    pub transactions: Vec<(H256, TransactionRecord)>,
    /// Block headers by hash; the first entry of a hash counts.
    pub headers: Vec<(H256, HeaderRecord)>,
}

impl MemoryClient {
    /// A client that knows nothing.
    pub fn new() -> (r: MemoryClient)
        ensures
            r.transactions@.len() == 0,
            r.headers@.len() == 0,
    {
        MemoryClient { transactions: Vec::new(), headers: Vec::new() }
    }

    /// Record a transaction. Where its hash is known already, the earlier
    /// record keeps answering.
    pub fn insert_transaction(&mut self, hash: H256, record: TransactionRecord)
        ensures
            final(self).transactions@ == old(self).transactions@.push((hash, record)),
            final(self).headers == old(self).headers,
    {
        self.transactions.push((hash, record));
    }

    /// Record a block header. Where its hash is known already, the earlier
    /// record keeps answering.
    pub fn insert_header(&mut self, hash: H256, record: HeaderRecord)
        ensures
            final(self).headers@ == old(self).headers@.push((hash, record)),
            final(self).transactions == old(self).transactions,
    {
        self.headers.push((hash, record));
    }
}

impl EngineClient for MemoryClient {
    open spec fn transaction_view(&self, hash: Seq<u8>) -> Option<TransactionRecord> {
        first_match(self.transactions@, hash)
    }

    open spec fn block_header_view(&self, hash: Seq<u8>) -> Option<HeaderRecord> {
        first_match(self.headers@, hash)
    }

    fn transaction(&self, hash: &H256) -> (r: Option<TransactionRecord>) {
        lookup(&self.transactions, hash)
    }

    fn block_header(&self, hash: &H256) -> (r: Option<HeaderRecord>) {
        lookup(&self.headers, hash)
    }
}

} // verus!

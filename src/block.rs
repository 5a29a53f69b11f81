use vstd::prelude::*;
use crate::amount::{U256, u256_bound};
use crate::header::{Address, Header, SimpleHeader, same_bytes};

verus! {

/// A "live" block is one which is in the process of the transition.
/// The state of this block can be mutated by arbitrary rules of the
/// state transition function.
pub trait LiveBlock: Sized + 'static {
    /// The block header type.
    type Header: Header;

    /// The current header.
    spec fn header_view(&self) -> Self::Header;

    /// The uncle headers, in order.
    spec fn uncles_view(&self) -> Seq<Self::Header>;

    /// Get a reference to the header.
    fn header(&self) -> (r: &Self::Header)
        ensures
            *r == self.header_view(),
    ;

    /// Get a reference to the uncle headers. If the block type doesn't
    /// support uncles, return the empty slice.
    fn uncles(&self) -> (r: &[Self::Header])
        ensures
            r@ == self.uncles_view(),
    ;
}

/// Trait for blocks which have a transaction type.
pub trait Transactions: LiveBlock {
    /// The transaction type.
    type Transaction;

    /// The transactions, in execution order.
    spec fn transactions_view(&self) -> Seq<Self::Transaction>;

    /// Get a reference to the transactions in this block.
    fn transactions(&self) -> (r: &[Self::Transaction])
        ensures
            r@ == self.transactions_view(),
    ;
}

/// Whether entry `i` is the first entry of `address` among `accounts`.
pub open spec fn is_first(accounts: Seq<(Address, U256)>, address: Seq<u8>, i: int) -> bool {
    &&& 0 <= i < accounts.len()
    &&& accounts[i].0@ == address
    &&& forall|j: int| 0 <= j < i ==> accounts[j].0@ != address
}

/// The balance of `address`: the amount of its first entry, zero where it has
/// none.
pub open spec fn balance_in(accounts: Seq<(Address, U256)>, address: Seq<u8>) -> nat {
    if exists|i: int| is_first(accounts, address, i) {
        accounts[choose|i: int| is_first(accounts, address, i)].1.value()
    } else {
        0
    }
}

proof fn lemma_first_unique(accounts: Seq<(Address, U256)>, address: Seq<u8>, i: int, k: int)
    requires
        is_first(accounts, address, i),
        is_first(accounts, address, k),
    ensures
        i == k,
{
}

/// Replacing the amount of the first entry of an address changes that
/// address's balance alone.
proof fn lemma_balance_after_set(accounts: Seq<(Address, U256)>, k: int, entry: (Address, U256))
    requires
        is_first(accounts, entry.0@, k),
    ensures
        forall|b: Seq<u8>|
            #[trigger] balance_in(accounts.update(k, entry), b) == if b == entry.0@ {
                entry.1.value()
            } else {
                balance_in(accounts, b)
            },
{
    let updated = accounts.update(k, entry);
    assert forall|b: Seq<u8>|
        #[trigger] balance_in(updated, b) == if b == entry.0@ {
            entry.1.value()
        } else {
            balance_in(accounts, b)
        } by {
        if b == entry.0@ {
            assert(is_first(updated, b, k));
            let c = choose|i: int| is_first(updated, b, i);
            lemma_first_unique(updated, b, c, k);
        } else {
            assert forall|i: int| is_first(updated, b, i) <==> is_first(accounts, b, i) by {
                if is_first(accounts, b, i) {
                    assert forall|j: int| 0 <= j < i implies updated[j].0@ != b by {
                        assert(accounts[j].0@ != b);
                    }
                }
                if is_first(updated, b, i) {
                    assert forall|j: int| 0 <= j < i implies accounts[j].0@ != b by {
                        assert(updated[j].0@ != b);
                    }
                }
            }
            if exists|i: int| is_first(accounts, b, i) {
                let c1 = choose|i: int| is_first(updated, b, i);
                let c2 = choose|i: int| is_first(accounts, b, i);
                lemma_first_unique(accounts, b, c1, c2);
            }
        }
    }
}

/// Appending an entry for an address that has none sets its balance and
/// leaves the others.
proof fn lemma_balance_after_push(accounts: Seq<(Address, U256)>, entry: (Address, U256))
    requires
        forall|j: int| 0 <= j < accounts.len() ==> accounts[j].0@ != entry.0@,
    ensures
        forall|b: Seq<u8>|
            #[trigger] balance_in(accounts.push(entry), b) == if b == entry.0@ {
                entry.1.value()
            } else {
                balance_in(accounts, b)
            },
{
    let pushed = accounts.push(entry);
    assert forall|b: Seq<u8>|
        #[trigger] balance_in(pushed, b) == if b == entry.0@ {
            entry.1.value()
        } else {
            balance_in(accounts, b)
        } by {
        let n = accounts.len() as int;
        if b == entry.0@ {
            assert(is_first(pushed, b, n));
            let c = choose|i: int| is_first(pushed, b, i);
            lemma_first_unique(pushed, b, c, n);
        } else {
            assert forall|i: int| is_first(pushed, b, i) <==> is_first(accounts, b, i) by {
                if is_first(accounts, b, i) {
                    assert forall|j: int| 0 <= j < i implies pushed[j].0@ != b by {
                        assert(accounts[j].0@ != b);
                    }
                }
                if is_first(pushed, b, i) {
                    assert forall|j: int| 0 <= j < i implies accounts[j].0@ != b by {
                        assert(pushed[j].0@ != b);
                    }
                }
            }
            if exists|i: int| is_first(accounts, b, i) {
                let c1 = choose|i: int| is_first(pushed, b, i);
                let c2 = choose|i: int| is_first(accounts, b, i);
                lemma_first_unique(accounts, b, c1, c2);
            }
        }
    }
}

/// The index of the first entry of `address`, if it has one.
pub fn find_account(accounts: &Vec<(Address, U256)>, address: &Address) -> (r: Option<usize>)
    ensures
        match r {
            Some(k) => is_first(accounts@, address@, k as int),
            None => forall|j: int| 0 <= j < accounts@.len() ==> accounts@[j].0@ != address@,
        },
{
    let mut i: usize = 0;
    while i < accounts.len()
        invariant
            i <= accounts@.len(),
            forall|j: int| 0 <= j < i ==> accounts@[j].0@ != address@,
        decreases accounts@.len() - i,
    {
        if same_bytes(accounts[i].0.as_slice(), address.as_slice()) {
            return Some(i);
        }
        i = i + 1;
    }
    None
}

/// A balance would pass the largest value that a `U256` holds.
#[derive(Clone, Copy, Debug, PartialEq, Eq)]
pub struct BalanceOverflow;

/// A block of the reference machine: a header, its uncles, opaque encoded
/// transactions, and the account balances of its state.
#[derive(Clone, Debug)]
pub struct SimpleBlock {
    pub header: SimpleHeader,
    pub uncles: Vec<SimpleHeader>,
    pub transactions: Vec<Vec<u8>>,
    pub accounts: Vec<(Address, U256)>,
}

impl SimpleBlock {
    /// The balance of `address` in this block's state.
    pub open spec fn balance_of(&self, address: Seq<u8>) -> nat {
        balance_in(self.accounts@, address)
    }

    /// A block with the given header and uncles, no transactions and an empty
    /// state.
    pub fn new(header: SimpleHeader, uncles: Vec<SimpleHeader>) -> (r: SimpleBlock)
        ensures
            r.header == header,
            r.uncles@ == uncles@,
            r.transactions@.len() == 0,
            forall|a: Seq<u8>| r.balance_of(a) == 0,
    {
        SimpleBlock { header, uncles, transactions: Vec::new(), accounts: Vec::new() }
    }

    /// The balance of `address`.
    pub fn balance(&self, address: &Address) -> (r: U256)
        ensures
            r.value() == self.balance_of(address@),
    {
        match find_account(&self.accounts, address) {
            Some(k) => {
                proof {
                    let c = choose|i: int| is_first(self.accounts@, address@, i);
                    lemma_first_unique(self.accounts@, address@, c, k as int);
                }
                self.accounts[k].1
            },
            None => U256::zero(),
        }
    }

    /// Add `amount` to the balance of `address`; on overflow fail and change
    /// nothing.
    pub fn add_balance(&mut self, address: &Address, amount: &U256) -> (r: Result<(), BalanceOverflow>)
        ensures
            r is Err <==> old(self).balance_of(address@) + amount.value() >= u256_bound(),
            r is Err ==> *final(self) == *old(self),
            r is Ok ==> final(self).balance_of(address@) == old(self).balance_of(address@)
                + amount.value(),
            forall|b: Seq<u8>| b != address@ ==> #[trigger] final(self).balance_of(b) == old(self).balance_of(b),
            final(self).header == old(self).header,
            final(self).uncles == old(self).uncles,
            final(self).transactions == old(self).transactions,
    {
        let current = self.balance(address);
        match current.checked_add(amount) {
            None => Err(BalanceOverflow),
            Some(sum) => {
                match find_account(&self.accounts, address) {
                    Some(k) => {
                        proof {
                            lemma_balance_after_set(self.accounts@, k as int, (*address, sum));
                        }
                        self.accounts.set(k, (*address, sum));
                    },
                    None => {
                        proof {
                            lemma_balance_after_push(self.accounts@, (*address, sum));
                        }
                        self.accounts.push((*address, sum));
                    },
                }
                Ok(())
            },
        }
    }

    /// Append a transaction at the end of the execution order.
    pub fn push_transaction(&mut self, transaction: Vec<u8>)
        ensures
            final(self).transactions@ == old(self).transactions@.push(transaction),
            final(self).header == old(self).header,
            final(self).uncles == old(self).uncles,
            final(self).accounts == old(self).accounts,
    {
        self.transactions.push(transaction);
    }
}

impl LiveBlock for SimpleBlock {
    type Header = SimpleHeader;

    open spec fn header_view(&self) -> SimpleHeader {
        self.header
    }

    open spec fn uncles_view(&self) -> Seq<SimpleHeader> {
        self.uncles@
    }

    fn header(&self) -> (r: &SimpleHeader) {
        &self.header
    }

    fn uncles(&self) -> (r: &[SimpleHeader]) {
        self.uncles.as_slice()
    }
}

impl Transactions for SimpleBlock {
    type Transaction = Vec<u8>;

    open spec fn transactions_view(&self) -> Seq<Vec<u8>> {
        self.transactions@
    }

    fn transactions(&self) -> (r: &[Vec<u8>]) {
        self.transactions.as_slice()
    }
}

/// Building a live block and reading it back gives the header and the uncles
/// it was built from, uncles in their order.
pub proof fn lemma_view_consistency(header: SimpleHeader, uncles: Seq<SimpleHeader>, live: SimpleBlock)
    requires
        live.header == header,
        live.uncles@ == uncles,
    ensures
        live.header_view() == header,
        live.uncles_view() == uncles,
        forall|i: int| 0 <= i < uncles.len() ==> live.uncles_view()[i] == uncles[i],
{
}

} // verus!

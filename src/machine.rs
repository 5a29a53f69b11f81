use vstd::prelude::*;
use crate::amount::{U256, u256_bound};
use crate::block::{BalanceOverflow, LiveBlock, SimpleBlock};
use crate::header::{Address, Header, SimpleHeader};

verus! {

/// Machine-related types localized to a specific lifetime.
pub trait LocalizedMachine<'a>: Sync + Send {
    /// Definition of auxiliary data associated to a specific block.
    type AuxiliaryData: 'a;

    /// A context providing access to the state in a controlled capacity.
    /// Generally also provides verifiable proofs.
    type StateContext: ?Sized + 'a;
}

/// Generalization of types surrounding blockchain-suitable state machines.
pub trait Machine: for<'a> LocalizedMachine<'a> {
    /// The block header type.
    type Header: Header;

    /// The live block type.
    type LiveBlock: LiveBlock<Header = Self::Header>;

    /// A handle to a blockchain client for this machine.
    type EngineClient: ?Sized;

    /// A description of needed auxiliary data.
    type AuxiliaryRequest;

    /// Errors which can occur when querying or interacting with the machine.
    type Error;
}

/// A state machine that uses balances.
pub trait WithBalances: Machine + Sized {
    /// The balance of `address` as `live` observes it; `None` where the
    /// machine cannot resolve the account.
    spec fn balance_view(&self, live: Self::LiveBlock, address: Seq<u8>) -> Option<nat>;

    /// Whether `note_rewards` records rewards. A machine that keeps the
    /// default does not.
    spec fn records_rewards(&self) -> bool;

    /// Get the balance, in base units, associated with an account.
    /// Extracts data from the live block.
    fn balance(&self, live: &Self::LiveBlock, address: &Address) -> (r: Result<U256, Self::Error>)
        ensures
            match r {
                Ok(v) => self.balance_view(*live, address@) == Some(v.value()),
                Err(_) => self.balance_view(*live, address@) is None,
            },
    ;

    /// Increment the balance of an account in the state of the live block.
    fn add_balance(&self, live: &mut Self::LiveBlock, address: &Address, amount: &U256) -> (r:
        Result<(), Self::Error>)
        ensures
            r is Ok ==> self.balance_view(*old(live), address@) is Some,
            r is Ok ==> self.balance_view(*final(live), address@) == Some(
                self.balance_view(*old(live), address@).unwrap() + amount.value(),
            ),
            r is Ok ==> forall|other: Seq<u8>|
                other != address@ ==> #[trigger] self.balance_view(*final(live), other)
                    == self.balance_view(*old(live), other),
    ;

    /// Note block rewards. "direct" rewards are for authors, "indirect" are for
    /// e.g. uncles.
    fn note_rewards(
        &self,
        live: &mut Self::LiveBlock,
        direct: &[(Address, U256)],
        indirect: &[(Address, U256)],
    ) -> (r: Result<(), Self::Error>)
        ensures
            !self.records_rewards() ==> r is Ok && *final(live) == *old(live),
    {
        Ok(())
    }
}

/// `after` is `before` with `amount` added to the balance of `address`, and
/// every other balance as it was: what a successful `add_balance` promises.
pub open spec fn credited<M: WithBalances>(
    m: M,
    before: M::LiveBlock,
    after: M::LiveBlock,
    address: Seq<u8>,
    amount: nat,
) -> bool {
    &&& m.balance_view(before, address) is Some
    &&& m.balance_view(after, address) == Some(m.balance_view(before, address).unwrap() + amount)
    &&& forall|other: Seq<u8>|
        other != address ==> #[trigger] m.balance_view(after, other) == m.balance_view(
            before,
            other,
        )
}

/// Adding an amount to an account and reading the balance back gives the
/// initial balance plus the amount; the balances of other accounts are as
/// they were.
pub proof fn lemma_balance_round_trip<M: WithBalances>(
    m: M,
    live: M::LiveBlock,
    after: M::LiveBlock,
    address: Seq<u8>,
    initial: nat,
    amount: nat,
)
    requires
        m.balance_view(live, address) == Some(initial),
        credited(m, live, after, address, amount),
    ensures
        m.balance_view(after, address) == Some(initial + amount),
        forall|other: Seq<u8>|
            other != address ==> #[trigger] m.balance_view(after, other) == m.balance_view(
                live,
                other,
            ),
{
}

/// Errors of the reference machine.
#[derive(Clone, Copy, Debug, PartialEq, Eq)]
pub enum MachineError {
    /// A balance would pass the largest value that a `U256` holds.
    Overflow,
}

/// The reference machine: plain headers, blocks that keep their balances in
/// memory, and balance arithmetic that fails on overflow.
#[derive(Clone, Copy, Debug)]
pub struct SimpleMachine;

/// Auxiliary data is a borrowed byte string; the state context is a borrowed
/// list of balances. Neither outlives the borrow it was made for.
impl<'a> LocalizedMachine<'a> for SimpleMachine {
    type AuxiliaryData = &'a [u8];

    type StateContext = [(Address, U256)];
}

impl Machine for SimpleMachine {
    type Header = SimpleHeader;

    type LiveBlock = SimpleBlock;

    type EngineClient = crate::client::MemoryClient;

    type AuxiliaryRequest = ();

    type Error = MachineError;
}

impl WithBalances for SimpleMachine {
    open spec fn balance_view(&self, live: SimpleBlock, address: Seq<u8>) -> Option<nat> {
        Some(live.balance_of(address))
    }

    open spec fn records_rewards(&self) -> bool {
        false
    }

    fn balance(&self, live: &SimpleBlock, address: &Address) -> (r: Result<U256, MachineError>)
        ensures
            r is Ok,
    {
        Ok(live.balance(address))
    }

    fn add_balance(&self, live: &mut SimpleBlock, address: &Address, amount: &U256) -> (r: Result<
        (),
        MachineError,
    >)
        ensures
            r is Err <==> old(live).balance_of(address@) + amount.value() >= u256_bound(),
            r is Err ==> *final(live) == *old(live),
            final(live).header == old(live).header,
            final(live).uncles == old(live).uncles,
            final(live).transactions == old(live).transactions,
    {
        match live.add_balance(address, amount) {
            Ok(()) => Ok(()),
            Err(BalanceOverflow) => Err(MachineError::Overflow),
        }
    }
}

} // verus!

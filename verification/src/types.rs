//! The records that the contract keeps, returns and announces.
use soroban_sdk::Address;
use vstd::prelude::*;

verus! {

/// `soroban_sdk::Address`, the identity of an account or a contract. The
/// library stores addresses and hands them on; it never looks inside one.
#[verifier::external_type_specification]
#[verifier::external_body]
pub struct ExAddress(soroban_sdk::Address);

/// `<soroban_sdk::Address as Clone>::clone`, which copies the two handles that
/// an address is made of. Claimed without proof: the copy is the same address.
pub assume_specification[ <Address as Clone>::clone ](address: &Address) -> (copy: Address)
    ensures
        copy == *address,
;

/// One payment stream: `deposit` tokens that vest linearly from `start_time` to
/// `end_time` in favour of `recipient`.
#[derive(Debug, Eq, PartialEq)]
pub struct Stream {
    pub sender: Address,
    pub recipient: Address,
    pub token: Address,
    /// Total amount deposited when the stream was created. Immutable.
    pub deposit: i128,
    /// Unix timestamp (seconds) at which vesting begins.
    pub start_time: u64,
    /// Unix timestamp (seconds) at which vesting completes.
    pub end_time: u64,
    /// Cumulative amount already withdrawn by the recipient.
    pub withdrawn: i128,
    /// Set once `cancel` is called; vesting is frozen at `cancel_time`.
    pub canceled: bool,
    /// Ledger timestamp at which the stream was canceled (0 if never).
    pub cancel_time: u64,
}

impl Clone for Stream {
    fn clone(&self) -> (copy: Self)
        ensures
            copy == *self,
    {
        Stream {
            sender: self.sender.clone(),
            recipient: self.recipient.clone(),
            token: self.token.clone(),
            deposit: self.deposit,
            start_time: self.start_time,
            end_time: self.end_time,
            withdrawn: self.withdrawn,
            canceled: self.canceled,
            cancel_time: self.cancel_time,
        }
    }
}

/// The keys of the contract's storage.
#[derive(Clone, Copy, Debug, Eq, PartialEq, PartialOrd, Ord, Structural)]
pub enum DataKey {
    /// Monotonically increasing counter used to mint the next stream id.
    NextId,
    /// Individual stream, keyed by id.
    Stream(u32),
}

/// What is stored under a [`DataKey`].
#[derive(Debug, Eq, PartialEq)]
pub enum StoredValue {
    /// The value under `DataKey::NextId`.
    NextId(u32),
    /// The value under `DataKey::Stream`.
    Stream(Stream),
}

/// Why a call was refused.
#[derive(Clone, Copy, Debug, Eq, PartialEq, Structural)]
pub enum StreamError {
    /// `end_time` was not strictly after `start_time`.
    InvalidTimeRange,
    /// `deposit` was zero or negative.
    InvalidDeposit,
    /// No stream exists for the given id.
    StreamNotFound,
    /// The stream was already canceled.
    AlreadyCanceled,
    /// The requested withdrawal exceeds the currently vested, unwithdrawn balance.
    InsufficientVestedBalance,
    /// The requested withdrawal amount was zero or negative.
    InvalidWithdrawAmount,
}

impl StreamError {
    /// The number by which callers on the chain know this error.
    pub fn code(self) -> (code: u32)
        ensures
            code == match self {
                StreamError::InvalidTimeRange => 1u32,
                StreamError::InvalidDeposit => 2u32,
                StreamError::StreamNotFound => 3u32,
                StreamError::AlreadyCanceled => 4u32,
                StreamError::InsufficientVestedBalance => 5u32,
                StreamError::InvalidWithdrawAmount => 6u32,
            },
    {
        match self {
            StreamError::InvalidTimeRange => 1,
            StreamError::InvalidDeposit => 2,
            StreamError::StreamNotFound => 3,
            StreamError::AlreadyCanceled => 4,
            StreamError::InsufficientVestedBalance => 5,
            StreamError::InvalidWithdrawAmount => 6,
        }
    }
}

/// Announces a new stream.
#[derive(Clone, Debug, Eq, PartialEq)]
pub struct StreamCreated {
    pub stream_id: u32,
    pub sender: Address,
    pub recipient: Address,
    pub token: Address,
    pub deposit: i128,
    pub start_time: u64,
    pub end_time: u64,
}

/// Announces a withdrawal.
#[derive(Clone, Debug, Eq, PartialEq)]
pub struct StreamWithdrawn {
    pub stream_id: u32,
    pub recipient: Address,
    pub amount: i128,
}

/// Announces a cancellation and how the escrowed funds were split.
#[derive(Clone, Debug, Eq, PartialEq)]
pub struct StreamCanceled {
    pub stream_id: u32,
    pub sender: Address,
    pub recipient: Address,
    pub refunded_to_sender: i128,
    pub paid_to_recipient: i128,
}

/// An event that the contract publishes, indexed by its stream id.
#[derive(Debug, Eq, PartialEq)]
pub enum Event {
    Created(StreamCreated),
    Withdrawn(StreamWithdrawn),
    Canceled(StreamCanceled),
}

/// Something that a call asks of the host that runs it. The host serves the
/// requests of a call in order; one that it cannot serve aborts the whole call.
#[derive(Debug, Eq, PartialEq)]
pub enum Request {
    /// Go on only if this address has authorized the call.
    Authorize(Address),
    /// Store a value under a key.
    Write(DataKey, StoredValue),
    /// Move `amount` of `token` from one address to another.
    Transfer { token: Address, from: Address, to: Address, amount: i128 },
    /// Publish an event.
    Publish(Event),
}

} // verus!

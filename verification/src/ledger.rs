//! The ledger as a call of the contract sees it, and the requests that the call
//! makes of the host.
use crate::types::{
    DataKey, Event, Request, StoredValue, Stream, StreamCanceled, StreamCreated, StreamError,
    StreamWithdrawn,
};
use soroban_sdk::Address;
use std::collections::BTreeMap;
use vstd::prelude::*;

verus! {

/// What a call reads of the ledger, and what it asks of the host in return.
///
/// `next_id` and `streams` hold the stored values that have been read; a call
/// updates them together with the `Write` request that makes the change
/// permanent.
pub struct Ledger {
    /// Time of the current ledger, as a Unix timestamp in seconds.
    pub timestamp: u64,
    /// The address of the contract itself, which holds the escrowed tokens.
    pub contract: Address,
    /// The value stored under `DataKey::NextId`, if there is one.
    pub next_id: Option<u32>,
    /// The streams stored under `DataKey::Stream`, by id.
    pub streams: BTreeMap<u32, Stream>,
    /// The requests made so far, in order.
    pub requests: Vec<Request>,
}

/// A [`Ledger`] as a mathematical value.
#[verifier::ext_equal]
pub struct LedgerState {
    pub timestamp: u64,
    pub contract: Address,
    pub next_id: Option<u32>,
    pub streams: Map<u32, Stream>,
    pub requests: Seq<Request>,
}

impl View for Ledger {
    type V = LedgerState;

    open spec fn view(&self) -> LedgerState {
        LedgerState {
            timestamp: self.timestamp,
            contract: self.contract,
            next_id: self.next_id,
            streams: self.streams@,
            requests: self.requests@,
        }
    }
}

impl LedgerState {
    /// Every stream is well-formed.
    pub open spec fn wf(self) -> bool {
        forall|id: u32| #[trigger] self.streams.contains_key(id) ==> self.streams[id].wf()
    }

    /// The id that the next stream gets.
    pub open spec fn fresh_id(self) -> u32 {
        match self.next_id {
            Some(id) => id,
            None => 0,
        }
    }

    /// The stream stored under an id, or the error where there is none.
    pub open spec fn lookup(self, id: u32) -> Result<Stream, StreamError> {
        if self.streams.contains_key(id) {
            Ok(self.streams[id])
        } else {
            Err(StreamError::StreamNotFound)
        }
    }

    /// The state after the given requests and nothing else.
    pub open spec fn requesting(self, requests: Seq<Request>) -> LedgerState {
        LedgerState { requests: self.requests + requests, ..self }
    }

    /// The state after the stream `id` has been set to `stream`.
    pub open spec fn storing(self, id: u32, stream: Stream) -> LedgerState {
        LedgerState { streams: self.streams.insert(id, stream), ..self }
    }

    /// What `create_stream` returns.
    pub open spec fn create_result(self, deposit: i128, start_time: u64, end_time: u64) -> Result<
        u32,
        StreamError,
    > {
        if end_time <= start_time {
            Err(StreamError::InvalidTimeRange)
        } else if deposit <= 0 {
            Err(StreamError::InvalidDeposit)
        } else {
            Ok(self.fresh_id())
        }
    }

    /// The state that `create_stream` leaves behind, where `opened` is the
    /// stream to open.
    pub open spec fn after_create(self, opened: Stream) -> LedgerState {
        match self.create_result(opened.deposit, opened.start_time, opened.end_time) {
            Ok(id) => LedgerState { next_id: Some((id + 1) as u32), ..self }.storing(
                id,
                opened,
            ).requesting(create_requests(id, opened, self.contract)),
            Err(_) => self.requesting(seq![Request::Authorize(opened.sender)]),
        }
    }

    /// What `withdraw` returns.
    pub open spec fn withdraw_result(self, id: u32, amount: i128) -> Result<(), StreamError> {
        if amount <= 0 {
            Err(StreamError::InvalidWithdrawAmount)
        } else if !self.streams.contains_key(id) {
            Err(StreamError::StreamNotFound)
        } else if amount > self.streams[id].available(self.timestamp) {
            Err(StreamError::InsufficientVestedBalance)
        } else {
            Ok(())
        }
    }

    /// The state that `withdraw` leaves behind.
    pub open spec fn after_withdraw(self, id: u32, amount: i128) -> LedgerState {
        match self.withdraw_result(id, amount) {
            Ok(_) => {
                let paid = self.streams[id].after_withdraw(amount);
                self.storing(id, paid).requesting(
                    withdraw_requests(id, paid, amount, self.contract),
                )
            },
            Err(StreamError::InsufficientVestedBalance) => self.requesting(
                seq![Request::Authorize(self.streams[id].recipient)],
            ),
            Err(_) => self,
        }
    }

    /// What `cancel` returns.
    pub open spec fn cancel_result(self, id: u32) -> Result<(), StreamError> {
        if !self.streams.contains_key(id) {
            Err(StreamError::StreamNotFound)
        } else if self.streams[id].canceled {
            Err(StreamError::AlreadyCanceled)
        } else {
            Ok(())
        }
    }

    /// The state that `cancel` leaves behind.
    pub open spec fn after_cancel(self, id: u32) -> LedgerState {
        match self.cancel_result(id) {
            Ok(_) => self.storing(
                id,
                self.streams[id].after_cancel(self.timestamp),
            ).requesting(cancel_requests(id, self.streams[id], self.timestamp, self.contract)),
            Err(StreamError::AlreadyCanceled) => self.requesting(
                seq![Request::Authorize(self.streams[id].sender)],
            ),
            Err(_) => self,
        }
    }
}

impl Stream {
    /// A newly opened stream.
    pub open spec fn opened(
        sender: Address,
        recipient: Address,
        token: Address,
        deposit: i128,
        start_time: u64,
        end_time: u64,
    ) -> Stream {
        Stream {
            sender,
            recipient,
            token,
            deposit,
            start_time,
            end_time,
            withdrawn: 0,
            canceled: false,
            cancel_time: 0,
        }
    }

    /// The stream after a withdrawal of `amount`.
    pub open spec fn after_withdraw(self, amount: i128) -> Stream {
        Stream { withdrawn: (self.withdrawn + amount) as i128, ..self }
    }

    /// The stream after its cancellation at `now`: whatever had vested counts
    /// as withdrawn.
    pub open spec fn after_cancel(self, now: u64) -> Stream {
        Stream { canceled: true, cancel_time: now, withdrawn: self.vested(now) as i128, ..self }
    }

    /// The part of the deposit that has not vested at `now`.
    pub open spec fn unvested(self, now: u64) -> int {
        self.deposit - self.vested(now)
    }
}

/// The requests of a successful `create_stream`: the sender authorizes, the
/// counter and the stream are stored, the deposit moves into escrow, and the
/// new stream is announced.
pub open spec fn create_requests(id: u32, stream: Stream, contract: Address) -> Seq<Request> {
    seq![Request::Authorize(stream.sender)].push(
        Request::Write(DataKey::NextId, StoredValue::NextId((id + 1) as u32)),
    ).push(
        Request::Write(DataKey::Stream(id), StoredValue::Stream(stream)),
    ).push(
        Request::Transfer {
            token: stream.token,
            from: stream.sender,
            to: contract,
            amount: stream.deposit,
        },
    ).push(
        Request::Publish(
            Event::Created(
                StreamCreated {
                    stream_id: id,
                    sender: stream.sender,
                    recipient: stream.recipient,
                    token: stream.token,
                    deposit: stream.deposit,
                    start_time: stream.start_time,
                    end_time: stream.end_time,
                },
            ),
        ),
    )
}

/// The requests of a successful `withdraw` of `amount` that leaves `stream`
/// behind: the recipient authorizes, the stream is stored, the amount is paid,
/// and the withdrawal is announced.
pub open spec fn withdraw_requests(
    id: u32,
    stream: Stream,
    amount: i128,
    contract: Address,
) -> Seq<Request> {
    seq![Request::Authorize(stream.recipient)].push(
        Request::Write(DataKey::Stream(id), StoredValue::Stream(stream)),
    ).push(
        Request::Transfer {
            token: stream.token,
            from: contract,
            to: stream.recipient,
            amount,
        },
    ).push(
        Request::Publish(
            Event::Withdrawn(
                StreamWithdrawn { stream_id: id, recipient: stream.recipient, amount },
            ),
        ),
    )
}

/// A payment of `amount`, or no request at all where there is nothing to pay.
pub open spec fn payment(token: Address, from: Address, to: Address, amount: int) -> Seq<Request> {
    if amount > 0 {
        seq![Request::Transfer { token, from, to, amount: amount as i128 }]
    } else {
        seq![]
    }
}

/// The requests of a successful `cancel` of `stream` at `now`: the sender
/// authorizes, the canceled stream is stored, the recipient gets what had
/// vested and was not withdrawn, the sender gets the rest, and the split is
/// announced.
pub open spec fn cancel_requests(id: u32, stream: Stream, now: u64, contract: Address) -> Seq<
    Request,
> {
    seq![Request::Authorize(stream.sender)].push(
        Request::Write(DataKey::Stream(id), StoredValue::Stream(stream.after_cancel(now))),
    ) + payment(stream.token, contract, stream.recipient, stream.available(now)) + payment(
        stream.token,
        contract,
        stream.sender,
        stream.unvested(now),
    ) + seq![
        Request::Publish(
            Event::Canceled(
                StreamCanceled {
                    stream_id: id,
                    sender: stream.sender,
                    recipient: stream.recipient,
                    refunded_to_sender: stream.unvested(now) as i128,
                    paid_to_recipient: stream.available(now) as i128,
                },
            ),
        ),
    ]
}

} // verus!

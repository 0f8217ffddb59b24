//! Laws of single calls: what each call promises about the stream it works on,
//! about every other stream, and about the requests it makes.
use crate::ledger::LedgerState;
use crate::types::{Event, Request, Stream, StreamCanceled, StreamError};
use soroban_sdk::Address;
use vstd::prelude::*;

verus! {

/// A call that can change the contract's state, or the passing of time between
/// two calls.
pub enum Call {
    /// The ledger closes at a later time.
    Advance { to: u64 },
    /// `create_stream`
    Create {
        sender: Address,
        recipient: Address,
        token: Address,
        deposit: i128,
        start_time: u64,
        end_time: u64,
    },
    /// `withdraw`
    Withdraw { id: u32, amount: i128 },
    /// `cancel`
    Cancel { id: u32 },
}

impl LedgerState {
    /// The state after a call.
    pub open spec fn after(self, call: Call) -> LedgerState {
        match call {
            Call::Advance { to } => LedgerState { timestamp: to, ..self },
            Call::Create { sender, recipient, token, deposit, start_time, end_time } =>
                self.after_create(
                    Stream::opened(sender, recipient, token, deposit, start_time, end_time),
                ),
            Call::Withdraw { id, amount } => self.after_withdraw(id, amount),
            Call::Cancel { id } => self.after_cancel(id),
        }
    }

    /// Whether a call can be made in this state: time does not run backwards,
    /// and the counter has not run out.
    pub open spec fn admits(self, call: Call) -> bool {
        match call {
            Call::Advance { to } => self.timestamp <= to,
            Call::Create { deposit, start_time, end_time, .. } => start_time < end_time && deposit
                > 0 ==> self.fresh_id() < u32::MAX,
            Call::Withdraw { .. } | Call::Cancel { .. } => true,
        }
    }

    /// Whether a call is refused with an error.
    pub open spec fn refuses(self, call: Call) -> bool {
        match call {
            Call::Advance { .. } => false,
            Call::Create { deposit, start_time, end_time, .. } => self.create_result(
                deposit,
                start_time,
                end_time,
            ) is Err,
            Call::Withdraw { id, amount } => self.withdraw_result(id, amount) is Err,
            Call::Cancel { id } => self.cancel_result(id) is Err,
        }
    }

    /// The requests that a call makes.
    pub open spec fn requests_of(self, call: Call) -> Seq<Request> {
        self.after(call).requests.skip(self.requests.len() as int)
    }

    /// Whether two states agree on what a call reads: the time, the contract's
    /// address, and for a creation the counter, for a cancellation the stream,
    /// and for a withdrawal the stream too, unless the amount rules it out.
    pub open spec fn agrees_for(self, other: LedgerState, call: Call) -> bool {
        &&& self.timestamp == other.timestamp
        &&& self.contract == other.contract
        &&& match call {
            Call::Advance { .. } => true,
            Call::Create { .. } => self.next_id == other.next_id,
            Call::Withdraw { id, amount } => amount > 0 ==> self.lookup(id) == other.lookup(id),
            Call::Cancel { id } => self.lookup(id) == other.lookup(id),
        }
    }

    /// The stream that a call works on.
    pub open spec fn target(self, call: Call) -> Option<u32> {
        match call {
            Call::Advance { .. } => None,
            Call::Create { .. } => Some(self.fresh_id()),
            Call::Withdraw { id, .. } => Some(id),
            Call::Cancel { id } => Some(id),
        }
    }

    /// The party whose authorization a call needs.
    pub open spec fn authority(self, call: Call) -> Option<Address> {
        match call {
            Call::Advance { .. } => None,
            Call::Create { sender, .. } => Some(sender),
            Call::Withdraw { id, .. } => Some(self.streams[id].recipient),
            Call::Cancel { id } => Some(self.streams[id].sender),
        }
    }

    /// What holds of the contract's state between calls: every stream is
    /// well-formed, no more has been withdrawn than has vested, no cancellation
    /// lies in the future, and ids not handed out yet are unused.
    pub open spec fn sound(self) -> bool {
        &&& self.wf()
        &&& forall|id: u32| #[trigger]
            self.streams.contains_key(id) ==> {
                &&& id < self.fresh_id()
                &&& 0 <= self.streams[id].available(self.timestamp)
                &&& self.streams[id].canceled ==> self.streams[id].cancel_time <= self.timestamp
            }
    }
}

/// The contract's state stays sound through every call.
pub proof fn law_calls_keep_the_state_sound(state: LedgerState, call: Call)
    requires
        state.sound(),
        state.admits(call),
    ensures
        state.after(call).sound(),
{
    let next = state.after(call);
    assert forall|id: u32| #[trigger] next.streams.contains_key(id) implies {
        &&& next.streams[id].wf()
        &&& id < next.fresh_id()
        &&& 0 <= next.streams[id].available(next.timestamp)
        &&& next.streams[id].canceled ==> next.streams[id].cancel_time <= next.timestamp
    } by {
        let stream = next.streams[id];
        if state.streams.contains_key(id) {
            let before = state.streams[id];
            crate::vesting::law_vested_within_deposit(before, state.timestamp);
            crate::vesting::law_vesting_never_falls(before, state.timestamp, next.timestamp);
        }
    }
}

/// `withdraw` succeeds exactly when the stream exists and the amount is positive
/// and at most what `withdrawable` reports.
pub proof fn law_withdraw_accepts_what_is_withdrawable(state: LedgerState, id: u32, amount: i128)
    ensures
        state.withdraw_result(id, amount) is Ok <==> {
            &&& state.streams.contains_key(id)
            &&& 0 < amount <= state.streams[id].available(state.timestamp)
        },
{
}

/// `cancel` succeeds exactly once per stream, whatever the time: as long as the
/// stream exists and has not been canceled.
pub proof fn law_cancel_succeeds_once(state: LedgerState, id: u32)
    ensures
        state.cancel_result(id) is Ok <==> {
            &&& state.streams.contains_key(id)
            &&& !state.streams[id].canceled
        },
        state.after_cancel(id).cancel_result(id) is Err,
{
}

/// A withdrawal lowers what is withdrawable, at any time, by exactly the amount
/// withdrawn.
pub proof fn law_withdraw_lowers_withdrawable(
    state: LedgerState,
    id: u32,
    amount: i128,
    now: u64,
)
    requires
        state.wf(),
        state.withdraw_result(id, amount) is Ok,
    ensures
        state.after_withdraw(id, amount).streams[id].available(now) == state.streams[id].available(
            now,
        ) - amount,
{
    crate::vesting::law_vested_within_deposit(state.streams[id], state.timestamp);
}

/// Withdrawals accumulate: after a withdrawal a second one succeeds exactly when
/// a single one of both amounts would have, and leaves the same streams behind.
pub proof fn law_withdrawals_accumulate(state: LedgerState, id: u32, first: i128, second: i128)
    requires
        state.wf(),
        state.withdraw_result(id, first) is Ok,
        0 < second,
        first + second <= i128::MAX,
    ensures
        ({
            let both = (first + second) as i128;
            let between = state.after_withdraw(id, first);
            &&& between.withdraw_result(id, second) is Ok <==> state.withdraw_result(
                id,
                both,
            ) is Ok
            &&& between.withdraw_result(id, second) is Ok ==> between.after_withdraw(
                id,
                second,
            ).streams == state.after_withdraw(id, both).streams
        }),
{
    let both = (first + second) as i128;
    let between = state.after_withdraw(id, first);
    crate::vesting::law_vested_within_deposit(state.streams[id], state.timestamp);
    if between.withdraw_result(id, second) is Ok {
        assert(between.after_withdraw(id, second).streams =~= state.after_withdraw(
            id,
            both,
        ).streams);
    }
}

/// Once the window has ended, the recipient of a stream that was not canceled
/// can withdraw everything that is left, and then nothing is withdrawable or
/// escrowed any more.
pub proof fn law_everything_can_be_withdrawn_at_the_end(state: LedgerState, id: u32)
    requires
        state.wf(),
        state.streams.contains_key(id),
        !state.streams[id].canceled,
        state.streams[id].end_time <= state.timestamp,
        state.streams[id].withdrawn < state.streams[id].deposit,
    ensures
        ({
            let rest = (state.streams[id].deposit - state.streams[id].withdrawn) as i128;
            &&& state.withdraw_result(id, rest) is Ok
            &&& state.after_withdraw(id, rest).streams[id].available(state.timestamp) == 0
            &&& state.after_withdraw(id, rest).streams[id].escrowed() == 0
        }),
{
}

impl Stream {
    /// The part of the deposit that is still in escrow.
    pub open spec fn escrowed(self) -> int {
        if self.canceled {
            0
        } else {
            self.deposit - self.withdrawn
        }
    }
}

/// Cancellation pays out the whole escrow, and splits it without loss: the
/// recipient gets what `withdrawable` reports, the sender gets what has not
/// vested, together with earlier withdrawals that is the deposit, and the
/// transfers add up to both shares.
pub proof fn law_cancel_splits_the_escrow(state: LedgerState, id: u32)
    requires
        state.sound(),
        state.cancel_result(id) is Ok,
    ensures
        ({
            let stream = state.streams[id];
            let now = state.timestamp;
            let requests = crate::ledger::cancel_requests(id, stream, now, state.contract);
            let to_recipient = stream.available(now);
            let to_sender = stream.unvested(now);
            &&& state.after_cancel(id).requests == state.requests + requests
            &&& 0 <= to_recipient
            &&& 0 <= to_sender
            &&& stream.withdrawn + to_recipient + to_sender == stream.deposit
            &&& crate::tally::transferred(requests) == to_recipient + to_sender == stream.escrowed()
            &&& requests.last() == Request::Publish(
                Event::Canceled(
                    StreamCanceled {
                        stream_id: id,
                        sender: stream.sender,
                        recipient: stream.recipient,
                        refunded_to_sender: to_sender as i128,
                        paid_to_recipient: to_recipient as i128,
                    },
                ),
            )
            &&& state.after_cancel(id).streams[id].escrowed() == 0
        }),
{
    broadcast use crate::tally::group_total;

    crate::vesting::law_vested_within_deposit(state.streams[id], state.timestamp);
}

/// A canceled stream is closed for good: nothing is withdrawable from it at any
/// time, every withdrawal is refused, and so is a second cancellation.
pub proof fn law_canceled_streams_stay_closed(
    state: LedgerState,
    id: u32,
    amount: i128,
    now: u64,
)
    requires
        state.wf(),
        state.streams.contains_key(id),
        state.streams[id].canceled,
        0 < amount,
    ensures
        state.streams[id].available(now) == 0,
        state.withdraw_result(id, amount) == Err::<(), StreamError>(
            StreamError::InsufficientVestedBalance,
        ),
        state.cancel_result(id) == Err::<(), StreamError>(StreamError::AlreadyCanceled),
{
}

/// A successful cancellation leaves a canceled stream behind.
pub proof fn law_cancel_closes_the_stream(state: LedgerState, id: u32)
    requires
        state.wf(),
        state.cancel_result(id) is Ok,
    ensures
        ({
            let after = state.after_cancel(id);
            &&& after.wf()
            &&& after.streams[id].canceled
            &&& after.streams[id].cancel_time == state.timestamp
            &&& forall|now: u64| #[trigger] after.streams[id].available(now) == 0
        }),
{
    crate::vesting::law_vested_within_deposit(state.streams[id], state.timestamp);
}

/// A refused call changes nothing that is stored, moves no token and announces
/// nothing: it asks for an authorization at most.
pub proof fn law_refused_calls_change_nothing(state: LedgerState, call: Call)
    requires
        state.refuses(call),
    ensures
        state.after(call) == state || state.after(call) == state.requesting(
            seq![Request::Authorize(state.authority(call).unwrap())],
        ),
{
}

/// Whatever a call asks of the host, it first asks for the authorization of the
/// party in charge: the sender creates and cancels, the recipient withdraws.
pub proof fn law_authorization_comes_first(state: LedgerState, call: Call)
    ensures
        state.after(call).requests.len() > state.requests.len() ==> {
            &&& state.authority(call) matches Some(party)
            &&& state.after(call).requests[state.requests.len() as int] == Request::Authorize(
                party,
            )
        },
        state.after(call).requests.take(state.requests.len() as int) =~= state.requests,
        state.after(call).requests.len() == state.requests.len() ==> {
            &&& state.after(call).streams == state.streams
            &&& state.after(call).next_id == state.next_id
        },
{
}

/// Streams are independent: a call leaves every stream but the one it works on
/// as it was.
pub proof fn law_other_streams_are_untouched(state: LedgerState, call: Call, other: u32)
    requires
        state.target(call) != Some(other),
    ensures
        state.after(call).streams.contains_key(other) == state.streams.contains_key(other),
        state.streams.contains_key(other) ==> state.after(call).streams[other]
            == state.streams[other],
{
}

impl Stream {
    /// Whether two states of a stream agree on what was fixed at its creation.
    pub open spec fn same_terms(self, other: Stream) -> bool {
        &&& self.sender == other.sender
        &&& self.recipient == other.recipient
        &&& self.token == other.token
        &&& self.deposit == other.deposit
        &&& self.start_time == other.start_time
        &&& self.end_time == other.end_time
    }
}

/// A stream is never removed and its terms never change. What has been
/// withdrawn never falls, and a cancellation is never undone or moved.
pub proof fn law_terms_never_change(state: LedgerState, call: Call, id: u32)
    requires
        state.sound(),
        state.admits(call),
        state.streams.contains_key(id),
    ensures
        state.after(call).streams.contains_key(id),
        state.after(call).streams[id].same_terms(state.streams[id]),
        state.streams[id].withdrawn <= state.after(call).streams[id].withdrawn,
        state.streams[id].canceled ==> state.after(call).streams[id] == state.streams[id],
{
    crate::vesting::law_vested_within_deposit(state.streams[id], state.timestamp);
}

/// A new stream gets an id that no stream has, later streams get greater ids,
/// and the stream stored under it is the one that was asked for.
pub proof fn law_new_streams_get_fresh_ids(state: LedgerState, opened: Stream)
    requires
        state.sound(),
        state.fresh_id() < u32::MAX,
        state.create_result(opened.deposit, opened.start_time, opened.end_time) is Ok,
    ensures
        ({
            let id = state.create_result(opened.deposit, opened.start_time, opened.end_time)->Ok_0;
            &&& !state.streams.contains_key(id)
            &&& state.after_create(opened).fresh_id() == id + 1
            &&& state.after_create(opened).streams.contains_key(id)
            &&& state.after_create(opened).streams[id] == opened
        }),
{
}

/// A call depends on what it reads alone: on a ledger that holds no more than
/// that, it returns the same, makes the same requests, and leaves the same time,
/// counter and stream behind as on the whole one.
pub proof fn law_calls_depend_on_what_they_read(part: LedgerState, full: LedgerState, call: Call)
    requires
        part.agrees_for(full, call),
    ensures
        part.refuses(call) == full.refuses(call),
        part.requests_of(call) == full.requests_of(call),
        match call {
            Call::Advance { .. } => part.after(call).timestamp == full.after(call).timestamp,
            Call::Create { deposit, start_time, end_time, .. } => {
                let result = part.create_result(deposit, start_time, end_time);
                &&& result == full.create_result(deposit, start_time, end_time)
                &&& part.after(call).next_id == full.after(call).next_id
                &&& result matches Ok(id) ==> part.after(call).lookup(id) == full.after(
                    call,
                ).lookup(id)
            },
            Call::Withdraw { id, amount } => {
                &&& part.withdraw_result(id, amount) == full.withdraw_result(id, amount)
                &&& amount > 0 ==> part.after(call).lookup(id) == full.after(call).lookup(id)
            },
            Call::Cancel { id } => {
                &&& part.cancel_result(id) == full.cancel_result(id)
                &&& part.after(call).lookup(id) == full.after(call).lookup(id)
            },
        },
{
    assert(part.requests_of(call) =~= full.requests_of(call));
}

} // verus!

//! What the operations mean: each law here speaks of nothing but the arguments of
//! an operation, the fields of the ledger and the streams before and after it,
//! the requests in between, and plain arithmetic.
use crate::laws::Call;
use crate::ledger::LedgerState;
use crate::types::{
    DataKey, Event, Request, StoredValue, Stream, StreamCanceled, StreamCreated, StreamError,
    StreamWithdrawn,
};
use soroban_sdk::Address;
use vstd::prelude::*;

verus! {

/// A number is at most a quotient rounded down exactly when its product with the
/// divisor is at most the dividend.
proof fn lemma_at_most_quotient(x: int, dividend: int, divisor: int)
    requires
        0 < divisor,
    ensures
        x <= dividend / divisor <==> x * divisor <= dividend,
{
    let quotient = dividend / divisor;
    vstd::arithmetic::div_mod::lemma_fundamental_div_mod(dividend, divisor);
    if x <= quotient {
        assert(x * divisor <= divisor * quotient) by (nonlinear_arith)
            requires
                x <= quotient,
                0 < divisor,
        ;
    } else {
        assert(x * divisor >= divisor * quotient + divisor) by (nonlinear_arith)
            requires
                x >= quotient + 1,
                0 < divisor,
        ;
    }
}

/// Vesting is linear in the ledger's own time, up to rounding down by less than
/// one unit: nothing up to the start, the elapsed share of the deposit inside the
/// window, everything from its end on. For a canceled stream the time of its
/// cancellation counts instead, whatever the ledger's time is.
pub proof fn law_vesting_is_linear_in_time(stream: Stream, now: u64)
    requires
        0 <= stream.deposit,
    ensures
        !stream.canceled && now <= stream.start_time ==> stream.vested(now) == 0,
        !stream.canceled && stream.start_time < now && stream.end_time <= now ==> stream.vested(now)
            == stream.deposit,
        !stream.canceled && stream.start_time <= now <= stream.end_time && stream.start_time
            < stream.end_time ==> stream.vested(now) * (stream.end_time - stream.start_time)
            <= stream.deposit * (now - stream.start_time) < (stream.vested(now) + 1) * (
        stream.end_time - stream.start_time),
        stream.canceled && stream.cancel_time <= stream.start_time ==> stream.vested(now) == 0,
        stream.canceled && stream.start_time < stream.cancel_time && stream.end_time
            <= stream.cancel_time ==> stream.vested(now) == stream.deposit,
        stream.canceled && stream.start_time <= stream.cancel_time <= stream.end_time
            && stream.start_time < stream.end_time ==> stream.vested(now) * (stream.end_time
            - stream.start_time) <= stream.deposit * (stream.cancel_time - stream.start_time) < (
        stream.vested(now) + 1) * (stream.end_time - stream.start_time),
{
    if stream.start_time < stream.end_time && stream.start_time <= stream.clock(now)
        <= stream.end_time {
        crate::vesting::law_vesting_rounds_down(stream, now);
    }
}

/// What is withdrawable and what has been withdrawn add up to what has vested.
pub proof fn law_withdrawable_completes_the_vested_amount(stream: Stream, now: u64)
    ensures
        stream.available(now) + stream.withdrawn == stream.vested(now),
{
}

/// A stream is well-formed exactly when its deposit and its window are positive,
/// what was withdrawn lies between nothing and the deposit, and either it was not
/// canceled and has no cancellation time, or it was and what counts as withdrawn
/// is the share of the deposit for that time, rounded down.
pub proof fn law_well_formedness(stream: Stream)
    ensures
        stream.wf() <==> {
            &&& 0 < stream.deposit
            &&& stream.start_time < stream.end_time
            &&& 0 <= stream.withdrawn <= stream.deposit
            &&& !stream.canceled ==> stream.cancel_time == 0
            &&& stream.canceled && stream.cancel_time <= stream.start_time ==> stream.withdrawn
                == 0
            &&& stream.canceled && stream.end_time <= stream.cancel_time ==> stream.withdrawn
                == stream.deposit
            &&& stream.canceled && stream.start_time < stream.cancel_time < stream.end_time ==> {
                &&& stream.withdrawn * (stream.end_time - stream.start_time) <= stream.deposit * (
                stream.cancel_time - stream.start_time)
                &&& stream.deposit * (stream.cancel_time - stream.start_time) < (stream.withdrawn
                    + 1) * (stream.end_time - stream.start_time)
            }
        },
{
    if stream.canceled && stream.start_time < stream.cancel_time < stream.end_time {
        let dividend = stream.deposit * (stream.cancel_time - stream.start_time);
        let divisor = stream.end_time - stream.start_time;
        lemma_at_most_quotient(stream.withdrawn as int, dividend, divisor);
        lemma_at_most_quotient(stream.withdrawn + 1, dividend, divisor);
    }
}

/// A ledger is well-formed by its streams alone, whatever its time, its counter and
/// the requests made so far: exactly when each stream that it holds has a positive
/// deposit and window, a withdrawn amount within the deposit, and a cancellation
/// time only if it was canceled, in which case what counts as withdrawn is the share
/// of the deposit for that time, rounded down.
pub proof fn law_ledgers_are_well_formed_by_their_streams(state: LedgerState)
    ensures
        state.wf() <==> forall|id: u32| #[trigger]
            state.streams.contains_key(id) ==> {
                let stream = state.streams[id];
                let total = stream.end_time - stream.start_time;
                let share = stream.deposit * (stream.cancel_time - stream.start_time);
                &&& 0 < stream.deposit
                &&& 0 < total
                &&& 0 <= stream.withdrawn <= stream.deposit
                &&& !stream.canceled ==> stream.cancel_time == 0
                &&& stream.canceled && stream.cancel_time <= stream.start_time ==> stream.withdrawn
                    == 0
                &&& stream.canceled && stream.end_time <= stream.cancel_time ==> stream.withdrawn
                    == stream.deposit
                &&& stream.canceled && stream.start_time < stream.cancel_time < stream.end_time
                    ==> stream.withdrawn * total <= share < (stream.withdrawn + 1) * total
            },
{
    assert forall|id: u32| #[trigger] state.streams.contains_key(id) implies {
        let stream = state.streams[id];
        let total = stream.end_time - stream.start_time;
        let share = stream.deposit * (stream.cancel_time - stream.start_time);
        stream.wf() <==> {
            &&& 0 < stream.deposit
            &&& 0 < total
            &&& 0 <= stream.withdrawn <= stream.deposit
            &&& !stream.canceled ==> stream.cancel_time == 0
            &&& stream.canceled && stream.cancel_time <= stream.start_time ==> stream.withdrawn == 0
            &&& stream.canceled && stream.end_time <= stream.cancel_time ==> stream.withdrawn
                == stream.deposit
            &&& stream.canceled && stream.start_time < stream.cancel_time < stream.end_time
                ==> stream.withdrawn * total <= share < (stream.withdrawn + 1) * total
        }
    } by {
        law_well_formedness(state.streams[id]);
    }
}

/// A lookup returns what is stored under the id, and fails exactly where nothing
/// is.
pub proof fn law_lookups_return_what_is_stored(state: LedgerState, id: u32)
    ensures
        state.streams.contains_key(id) ==> state.lookup(id) == Ok::<Stream, StreamError>(
            state.streams[id],
        ),
        !state.streams.contains_key(id) ==> state.lookup(id) == Err::<Stream, StreamError>(
            StreamError::StreamNotFound,
        ),
{
}

/// Creation does what was asked for. It is refused exactly for an empty window,
/// or else for a deposit that is not positive, and a refused creation asks for the
/// sender's authorization and does nothing. Otherwise the stream with the given
/// parties, token, deposit and window, from which nothing has been withdrawn, is
/// stored under the number that the counter shows; the counter moves on by one; no
/// other stream changes; and on the sender's authorization alone the given deposit
/// of the given token moves from the sender to the contract and the given terms
/// are announced.
pub proof fn law_creation_does_what_was_asked(
    state: LedgerState,
    sender: Address,
    recipient: Address,
    token: Address,
    deposit: i128,
    start_time: u64,
    end_time: u64,
)
    requires
        start_time < end_time && deposit > 0 ==> state.next_id != Some(u32::MAX),
    ensures
        ({
            let call = Call::Create { sender, recipient, token, deposit, start_time, end_time };
            let result = state.create_result(deposit, start_time, end_time);
            let after = state.after(call);
            let n = state.requests.len() as int;
            let id = match state.next_id {
                Some(next_id) => next_id,
                None => 0u32,
            };
            &&& after.timestamp == state.timestamp
            &&& after.contract == state.contract
            &&& n < after.requests.len()
            &&& after.requests.take(n) == state.requests
            &&& after.requests[n] == Request::Authorize(sender)
            &&& if end_time <= start_time || deposit <= 0 {
                &&& result == Err::<u32, StreamError>(
                    if end_time <= start_time {
                        StreamError::InvalidTimeRange
                    } else {
                        StreamError::InvalidDeposit
                    },
                )
                &&& after.next_id == state.next_id
                &&& after.streams == state.streams
                &&& after.requests.len() == n + 1
            } else {
                &&& result == Ok::<u32, StreamError>(id)
                &&& after.next_id == Some((id + 1) as u32)
                &&& after.streams == state.streams.insert(id, after.streams[id])
                &&& after.streams[id].sender == sender
                &&& after.streams[id].recipient == recipient
                &&& after.streams[id].token == token
                &&& after.streams[id].deposit == deposit
                &&& after.streams[id].start_time == start_time
                &&& after.streams[id].end_time == end_time
                &&& after.streams[id].withdrawn == 0
                &&& !after.streams[id].canceled
                &&& after.streams[id].cancel_time == 0
                &&& after.requests.len() == n + 5
                &&& after.requests[n + 1] == Request::Write(
                    DataKey::NextId,
                    StoredValue::NextId((id + 1) as u32),
                )
                &&& after.requests[n + 2] == Request::Write(
                    DataKey::Stream(id),
                    StoredValue::Stream(after.streams[id]),
                )
                &&& after.requests[n + 3] == (Request::Transfer {
                    token,
                    from: sender,
                    to: state.contract,
                    amount: deposit,
                })
                &&& after.requests[n + 4] == Request::Publish(
                    Event::Created(
                        StreamCreated {
                            stream_id: id,
                            sender,
                            recipient,
                            token,
                            deposit,
                            start_time,
                            end_time,
                        },
                    ),
                )
            }
        }),
{
    let call = Call::Create { sender, recipient, token, deposit, start_time, end_time };
    let after = state.after(call);
    assert(after.requests.take(state.requests.len() as int) =~= state.requests);
    assert(after.streams =~= state.streams.insert(state.fresh_id(), after.streams[state.fresh_id()])
        || after.streams =~= state.streams);
}

/// Withdrawal pays what was asked for, or nothing. It is refused exactly for an
/// amount that is not positive, or else for a stream that does not exist, or else
/// where all withdrawals together would exceed the linear share of the deposit for
/// the time that counts. Otherwise the amount is added to what was withdrawn and
/// nothing else about any stream changes; and on the recipient's authorization
/// alone that amount of the stream's token moves from the contract to the
/// recipient and is announced.
pub proof fn law_withdrawal_pays_what_was_asked(state: LedgerState, id: u32, amount: i128)
    requires
        state.wf(),
    ensures
        ({
            let result = state.withdraw_result(id, amount);
            let after = state.after(Call::Withdraw { id, amount });
            let n = state.requests.len() as int;
            let stream = state.streams[id];
            let time = if stream.canceled {
                stream.cancel_time
            } else {
                state.timestamp
            };
            let drawn = stream.withdrawn + amount;
            &&& after.timestamp == state.timestamp
            &&& after.contract == state.contract
            &&& after.next_id == state.next_id
            &&& n <= after.requests.len()
            &&& after.requests.take(n) == state.requests
            &&& if amount <= 0 {
                &&& result == Err::<(), StreamError>(StreamError::InvalidWithdrawAmount)
                &&& after.streams == state.streams
                &&& after.requests.len() == n
            } else if !state.streams.contains_key(id) {
                &&& result == Err::<(), StreamError>(StreamError::StreamNotFound)
                &&& after.streams == state.streams
                &&& after.requests.len() == n
            } else if time <= stream.start_time || drawn > stream.deposit || (time < stream.end_time
                && drawn * (stream.end_time - stream.start_time) > stream.deposit * (time
                - stream.start_time)) {
                &&& result == Err::<(), StreamError>(StreamError::InsufficientVestedBalance)
                &&& after.streams == state.streams
                &&& after.requests.len() == n + 1
                &&& after.requests[n] == Request::Authorize(stream.recipient)
            } else {
                &&& result == Ok::<(), StreamError>(())
                &&& after.streams == state.streams.insert(id, after.streams[id])
                &&& after.streams[id].sender == stream.sender
                &&& after.streams[id].recipient == stream.recipient
                &&& after.streams[id].token == stream.token
                &&& after.streams[id].deposit == stream.deposit
                &&& after.streams[id].start_time == stream.start_time
                &&& after.streams[id].end_time == stream.end_time
                &&& after.streams[id].withdrawn == drawn
                &&& after.streams[id].canceled == stream.canceled
                &&& after.streams[id].cancel_time == stream.cancel_time
                &&& after.requests.len() == n + 4
                &&& after.requests[n] == Request::Authorize(stream.recipient)
                &&& after.requests[n + 1] == Request::Write(
                    DataKey::Stream(id),
                    StoredValue::Stream(after.streams[id]),
                )
                &&& after.requests[n + 2] == (Request::Transfer {
                    token: stream.token,
                    from: state.contract,
                    to: stream.recipient,
                    amount,
                })
                &&& after.requests[n + 3] == Request::Publish(
                    Event::Withdrawn(
                        StreamWithdrawn { stream_id: id, recipient: stream.recipient, amount },
                    ),
                )
            }
        }),
{
    let after = state.after(Call::Withdraw { id, amount });
    assert(after.requests.take(state.requests.len() as int) =~= state.requests);
    if amount > 0 && state.streams.contains_key(id) {
        let stream = state.streams[id];
        let time = if stream.canceled {
            stream.cancel_time
        } else {
            state.timestamp
        };
        crate::vesting::law_vested_within_deposit(stream, state.timestamp);
        if stream.start_time < time < stream.end_time {
            lemma_at_most_quotient(
                stream.withdrawn + amount,
                stream.deposit * (time - stream.start_time),
                stream.end_time - stream.start_time,
            );
        }
    }
}

/// Cancellation settles the stream at the ledger's time. It is refused exactly for
/// a stream that does not exist, or else for one that was canceled before.
/// Otherwise the stream is marked as canceled now, what counts as withdrawn becomes
/// the linear share of the deposit for this time, rounded down, and nothing else
/// about any stream changes; and on the sender's authorization alone the increase
/// moves from the contract to the recipient, the rest of the deposit moves from the
/// contract to the sender, each in the stream's token and only if it is positive,
/// and both amounts are announced.
pub proof fn law_cancellation_settles_the_stream(state: LedgerState, id: u32)
    requires
        state.wf(),
    ensures
        ({
            let result = state.cancel_result(id);
            let after = state.after(Call::Cancel { id });
            let n = state.requests.len() as int;
            let stream = state.streams[id];
            let now = state.timestamp;
            &&& after.timestamp == state.timestamp
            &&& after.contract == state.contract
            &&& after.next_id == state.next_id
            &&& n <= after.requests.len()
            &&& after.requests.take(n) == state.requests
            &&& if !state.streams.contains_key(id) {
                &&& result == Err::<(), StreamError>(StreamError::StreamNotFound)
                &&& after.streams == state.streams
                &&& after.requests.len() == n
            } else if stream.canceled {
                &&& result == Err::<(), StreamError>(StreamError::AlreadyCanceled)
                &&& after.streams == state.streams
                &&& after.requests.len() == n + 1
                &&& after.requests[n] == Request::Authorize(stream.sender)
            } else {
                let settled = after.streams[id].withdrawn as int;
                let to_recipient = settled - stream.withdrawn;
                let to_sender = stream.deposit - settled;
                let paid = if to_recipient > 0 {
                    1int
                } else {
                    0
                };
                let refunded = if to_sender > 0 {
                    1int
                } else {
                    0
                };
                &&& result == Ok::<(), StreamError>(())
                &&& now <= stream.start_time ==> settled == 0
                &&& stream.end_time <= now ==> settled == stream.deposit
                &&& stream.start_time <= now <= stream.end_time ==> settled * (stream.end_time
                    - stream.start_time) <= stream.deposit * (now - stream.start_time) < (settled
                    + 1) * (stream.end_time - stream.start_time)
                &&& after.streams == state.streams.insert(id, after.streams[id])
                &&& after.streams[id].sender == stream.sender
                &&& after.streams[id].recipient == stream.recipient
                &&& after.streams[id].token == stream.token
                &&& after.streams[id].deposit == stream.deposit
                &&& after.streams[id].start_time == stream.start_time
                &&& after.streams[id].end_time == stream.end_time
                &&& after.streams[id].canceled
                &&& after.streams[id].cancel_time == now
                &&& after.requests.len() == n + 3 + paid + refunded
                &&& after.requests[n] == Request::Authorize(stream.sender)
                &&& after.requests[n + 1] == Request::Write(
                    DataKey::Stream(id),
                    StoredValue::Stream(after.streams[id]),
                )
                &&& to_recipient > 0 ==> after.requests[n + 2] == (Request::Transfer {
                    token: stream.token,
                    from: state.contract,
                    to: stream.recipient,
                    amount: to_recipient as i128,
                })
                &&& to_sender > 0 ==> after.requests[n + 2 + paid] == (Request::Transfer {
                    token: stream.token,
                    from: state.contract,
                    to: stream.sender,
                    amount: to_sender as i128,
                })
                &&& after.requests[n + 2 + paid + refunded] == Request::Publish(
                    Event::Canceled(
                        StreamCanceled {
                            stream_id: id,
                            sender: stream.sender,
                            recipient: stream.recipient,
                            refunded_to_sender: to_sender as i128,
                            paid_to_recipient: to_recipient as i128,
                        },
                    ),
                )
            }
        }),
{
    let after = state.after(Call::Cancel { id });
    assert(after.requests.take(state.requests.len() as int) =~= state.requests);
    if state.streams.contains_key(id) {
        let stream = state.streams[id];
        crate::vesting::law_vested_within_deposit(stream, state.timestamp);
        law_vesting_is_linear_in_time(stream, state.timestamp);
    }
}

/// A call needs the authorization of one party alone, and asks for it before
/// anything else: the sender's to create a stream, the recipient's to withdraw
/// from it, the sender's to cancel it.
pub proof fn law_one_authorization_is_enough(state: LedgerState, call: Call, i: int)
    requires
        state.requests.len() <= i < state.after(call).requests.len(),
    ensures
        state.after(call).requests[i] is Authorize <==> i == state.requests.len(),
        state.after(call).requests[i] matches Request::Authorize(party) ==> match call {
            Call::Advance { .. } => false,
            Call::Create { sender, .. } => party == sender,
            Call::Withdraw { id, .. } => party == state.streams[id].recipient,
            Call::Cancel { id } => party == state.streams[id].sender,
        },
{
}

/// What was asked for is what can be read back: a lookup under the id that a
/// creation returns finds the given parties, token, deposit and window, whatever
/// the time is by then.
pub proof fn law_a_created_stream_can_be_read_back(
    state: LedgerState,
    sender: Address,
    recipient: Address,
    token: Address,
    deposit: i128,
    start_time: u64,
    end_time: u64,
    later: u64,
)
    requires
        start_time < end_time,
        deposit > 0,
        state.next_id != Some(u32::MAX),
    ensures
        ({
            let call = Call::Create { sender, recipient, token, deposit, start_time, end_time };
            let after = state.after(call).after(Call::Advance { to: later });
            &&& state.create_result(deposit, start_time, end_time) matches Ok(id)
            &&& after.lookup(id) matches Ok(stream)
            &&& stream.sender == sender
            &&& stream.recipient == recipient
            &&& stream.token == token
            &&& stream.deposit == deposit
            &&& stream.start_time == start_time
            &&& stream.end_time == end_time
            &&& stream.withdrawn == 0
            &&& !stream.canceled
            &&& after.timestamp == later
        }),
{
}

} // verus!

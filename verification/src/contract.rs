//! The entry points of the contract.
use crate::ledger::{Ledger, LedgerState};
use crate::types::{
    DataKey, Event, Request, StoredValue, Stream, StreamCanceled, StreamCreated, StreamError,
    StreamWithdrawn,
};
use crate::vesting::vested_amount;
use soroban_sdk::Address;
use vstd::prelude::*;

verus! {

broadcast use vstd::std_specs::btree::group_btree_axioms;

/// The streaming contract.
pub struct DripswaveStream;

impl DripswaveStream {
    /// Create a new stream. `sender` must authorize; `deposit` is pulled
    /// from `sender` into the contract's own token balance immediately, so
    /// the full amount is escrowed for the lifetime of the stream. Returns
    /// the new stream's id.
    pub fn create_stream(
        env: &mut Ledger,
        sender: Address,
        recipient: Address,
        token: Address,
        deposit: i128,
        start_time: u64,
        end_time: u64,
    ) -> (result: Result<u32, StreamError>)
        requires
            old(env)@.wf(),
            start_time < end_time && deposit > 0 ==> old(env)@.fresh_id() < u32::MAX,
        ensures
            result == old(env)@.create_result(deposit, start_time, end_time),
            final(env)@ == old(env)@.after_create(
                Stream::opened(sender, recipient, token, deposit, start_time, end_time),
            ),
            final(env)@.wf(),
            ({
                let before = *old(env);
                let after = *final(env);
                let n = before.requests@.len() as int;
                let id = match before.next_id {
                    Some(next_id) => next_id,
                    None => 0u32,
                };
                &&& after.timestamp == before.timestamp
                &&& after.contract == before.contract
                &&& n < after.requests@.len()
                &&& after.requests@.take(n) == before.requests@
                &&& after.requests@[n] == Request::Authorize(sender)
                &&& if end_time <= start_time || deposit <= 0 {
                    &&& result == Err::<u32, StreamError>(
                        if end_time <= start_time {
                            StreamError::InvalidTimeRange
                        } else {
                            StreamError::InvalidDeposit
                        },
                    )
                    &&& after.next_id == before.next_id
                    &&& after.streams@ == before.streams@
                    &&& after.requests@.len() == n + 1
                } else {
                    &&& result == Ok::<u32, StreamError>(id)
                    &&& after.next_id == Some((id + 1) as u32)
                    &&& after.streams@ == before.streams@.insert(id, after.streams@[id])
                    &&& after.streams@[id].sender == sender
                    &&& after.streams@[id].recipient == recipient
                    &&& after.streams@[id].token == token
                    &&& after.streams@[id].deposit == deposit
                    &&& after.streams@[id].start_time == start_time
                    &&& after.streams@[id].end_time == end_time
                    &&& after.streams@[id].withdrawn == 0
                    &&& !after.streams@[id].canceled
                    &&& after.streams@[id].cancel_time == 0
                    &&& after.requests@.len() == n + 5
                    &&& after.requests@[n + 1] == Request::Write(
                        DataKey::NextId,
                        StoredValue::NextId((id + 1) as u32),
                    )
                    &&& after.requests@[n + 2] == Request::Write(
                        DataKey::Stream(id),
                        StoredValue::Stream(after.streams@[id]),
                    )
                    &&& after.requests@[n + 3] == (Request::Transfer {
                        token,
                        from: sender,
                        to: before.contract,
                        amount: deposit,
                    })
                    &&& after.requests@[n + 4] == Request::Publish(
                        Event::Created(
                            StreamCreated {
                                stream_id: id,
                                sender,
                                recipient,
                                token,
                                deposit,
                                start_time,
                                end_time,
                            },
                        ),
                    )
                }
            }),
    {
        proof {
            crate::meaning::law_creation_does_what_was_asked(
                env@,
                sender,
                recipient,
                token,
                deposit,
                start_time,
                end_time,
            );
        }
        env.requests.push(Request::Authorize(sender.clone()));

        if end_time <= start_time {
            return Err(StreamError::InvalidTimeRange);
        }
        if deposit <= 0 {
            return Err(StreamError::InvalidDeposit);
        }
        let id: u32 = Self::next_id(env);

        let stream = Stream {
            sender: sender.clone(),
            recipient: recipient.clone(),
            token: token.clone(),
            deposit,
            start_time,
            end_time,
            withdrawn: 0,
            canceled: false,
            cancel_time: 0,
        };
        Self::store_stream(env, id, stream);

        let contract = env.contract.clone();
        env.requests.push(
            Request::Transfer {
                token: token.clone(),
                from: sender.clone(),
                to: contract,
                amount: deposit,
            },
        );

        env.requests.push(
            Request::Publish(
                Event::Created(
                    StreamCreated {
                        stream_id: id,
                        sender,
                        recipient,
                        token,
                        deposit,
                        start_time,
                        end_time,
                    },
                ),
            ),
        );

        Ok(id)
    }

    /// Amount currently vested but not yet withdrawn for `stream_id`, as of
    /// the current ledger timestamp (or the cancellation time, if canceled).
    pub fn withdrawable(env: &Ledger, stream_id: u32) -> (result: Result<i128, StreamError>)
        requires
            env@.wf(),
        ensures
            match result {
                Ok(amount) => {
                    &&& env@.streams.contains_key(stream_id)
                    &&& amount == env@.streams[stream_id].available(env.timestamp)
                },
                Err(error) => {
                    &&& !env@.streams.contains_key(stream_id)
                    &&& error == StreamError::StreamNotFound
                },
            },
            result is Ok <==> env.streams@.contains_key(stream_id),
            result matches Err(error) ==> error == StreamError::StreamNotFound,
            result matches Ok(amount) ==> {
                let stream = env.streams@[stream_id];
                let vested = amount + stream.withdrawn;
                let time = if stream.canceled {
                    stream.cancel_time
                } else {
                    env.timestamp
                };
                &&& time <= stream.start_time ==> vested == 0
                &&& stream.end_time <= time ==> vested == stream.deposit
                &&& stream.start_time <= time <= stream.end_time ==> vested * (stream.end_time
                    - stream.start_time) <= stream.deposit * (time - stream.start_time) < (vested
                    + 1) * (stream.end_time - stream.start_time)
            },
    {
        let stream = Self::load_stream(env, stream_id)?;
        let now: u64 = env.timestamp;
        proof {
            crate::vesting::law_vested_within_deposit(stream, now);
            crate::meaning::law_vesting_is_linear_in_time(stream, now);
        }
        Ok(vested_amount(&stream, now) - stream.withdrawn)
    }

    /// Withdraw `amount` of the vested balance to the stream's recipient.
    /// The recipient must authorize. Refused if `amount` exceeds what is
    /// currently vested and unwithdrawn.
    pub fn withdraw(env: &mut Ledger, stream_id: u32, amount: i128) -> (result: Result<
        (),
        StreamError,
    >)
        requires
            old(env)@.wf(),
        ensures
            result == old(env)@.withdraw_result(stream_id, amount),
            final(env)@ == old(env)@.after_withdraw(stream_id, amount),
            final(env)@.wf(),
            ({
                let before = *old(env);
                let after = *final(env);
                let n = before.requests@.len() as int;
                let stream = before.streams@[stream_id];
                let time = if stream.canceled {
                    stream.cancel_time
                } else {
                    before.timestamp
                };
                let drawn = stream.withdrawn + amount;
                &&& after.timestamp == before.timestamp
                &&& after.contract == before.contract
                &&& after.next_id == before.next_id
                &&& n <= after.requests@.len()
                &&& after.requests@.take(n) == before.requests@
                &&& if amount <= 0 {
                    &&& result == Err::<(), StreamError>(StreamError::InvalidWithdrawAmount)
                    &&& after.streams@ == before.streams@
                    &&& after.requests@.len() == n
                } else if !before.streams@.contains_key(stream_id) {
                    &&& result == Err::<(), StreamError>(StreamError::StreamNotFound)
                    &&& after.streams@ == before.streams@
                    &&& after.requests@.len() == n
                } else if time <= stream.start_time || drawn > stream.deposit || (time
                    < stream.end_time && drawn * (stream.end_time - stream.start_time)
                    > stream.deposit * (time - stream.start_time)) {
                    &&& result == Err::<(), StreamError>(StreamError::InsufficientVestedBalance)
                    &&& after.streams@ == before.streams@
                    &&& after.requests@.len() == n + 1
                    &&& after.requests@[n] == Request::Authorize(stream.recipient)
                } else {
                    &&& result == Ok::<(), StreamError>(())
                    &&& after.streams@ == before.streams@.insert(
                        stream_id,
                        after.streams@[stream_id],
                    )
                    &&& after.streams@[stream_id].sender == stream.sender
                    &&& after.streams@[stream_id].recipient == stream.recipient
                    &&& after.streams@[stream_id].token == stream.token
                    &&& after.streams@[stream_id].deposit == stream.deposit
                    &&& after.streams@[stream_id].start_time == stream.start_time
                    &&& after.streams@[stream_id].end_time == stream.end_time
                    &&& after.streams@[stream_id].withdrawn == drawn
                    &&& after.streams@[stream_id].canceled == stream.canceled
                    &&& after.streams@[stream_id].cancel_time == stream.cancel_time
                    &&& after.requests@.len() == n + 4
                    &&& after.requests@[n] == Request::Authorize(stream.recipient)
                    &&& after.requests@[n + 1] == Request::Write(
                        DataKey::Stream(stream_id),
                        StoredValue::Stream(after.streams@[stream_id]),
                    )
                    &&& after.requests@[n + 2] == (Request::Transfer {
                        token: stream.token,
                        from: before.contract,
                        to: stream.recipient,
                        amount,
                    })
                    &&& after.requests@[n + 3] == Request::Publish(
                        Event::Withdrawn(
                            StreamWithdrawn { stream_id, recipient: stream.recipient, amount },
                        ),
                    )
                }
            }),
    {
        proof {
            crate::meaning::law_withdrawal_pays_what_was_asked(env@, stream_id, amount);
        }
        if amount <= 0 {
            return Err(StreamError::InvalidWithdrawAmount);
        }
        let mut stream = Self::load_stream(env, stream_id)?;
        env.requests.push(Request::Authorize(stream.recipient.clone()));

        let now: u64 = env.timestamp;
        proof {
            crate::vesting::law_vested_within_deposit(stream, now);
        }
        let available: i128 = vested_amount(&stream, now) - stream.withdrawn;
        if amount > available {
            return Err(StreamError::InsufficientVestedBalance);
        }
        stream.withdrawn += amount;
        Self::store_stream(env, stream_id, stream.clone());

        let contract = env.contract.clone();
        env.requests.push(
            Request::Transfer {
                token: stream.token.clone(),
                from: contract,
                to: stream.recipient.clone(),
                amount,
            },
        );

        env.requests.push(
            Request::Publish(
                Event::Withdrawn(
                    StreamWithdrawn { stream_id, recipient: stream.recipient, amount },
                ),
            ),
        );

        Ok(())
    }

    /// Cancel a stream. The sender must authorize. Whatever has vested (and
    /// not yet been withdrawn) as of the cancellation moment is paid to the
    /// recipient; the remainder is refunded to the sender. A stream can only
    /// be canceled once.
    pub fn cancel(env: &mut Ledger, stream_id: u32) -> (result: Result<(), StreamError>)
        requires
            old(env)@.wf(),
        ensures
            result == old(env)@.cancel_result(stream_id),
            final(env)@ == old(env)@.after_cancel(stream_id),
            final(env)@.wf(),
            ({
                let before = *old(env);
                let after = *final(env);
                let n = before.requests@.len() as int;
                let stream = before.streams@[stream_id];
                let now = before.timestamp;
                &&& after.timestamp == before.timestamp
                &&& after.contract == before.contract
                &&& after.next_id == before.next_id
                &&& n <= after.requests@.len()
                &&& after.requests@.take(n) == before.requests@
                &&& if !before.streams@.contains_key(stream_id) {
                    &&& result == Err::<(), StreamError>(StreamError::StreamNotFound)
                    &&& after.streams@ == before.streams@
                    &&& after.requests@.len() == n
                } else if stream.canceled {
                    &&& result == Err::<(), StreamError>(StreamError::AlreadyCanceled)
                    &&& after.streams@ == before.streams@
                    &&& after.requests@.len() == n + 1
                    &&& after.requests@[n] == Request::Authorize(stream.sender)
                } else {
                    let settled = after.streams@[stream_id].withdrawn as int;
                    let to_recipient = settled - stream.withdrawn;
                    let to_sender = stream.deposit - settled;
                    let paid = if to_recipient > 0 {
                        1int
                    } else {
                        0
                    };
                    let refunded = if to_sender > 0 {
                        1int
                    } else {
                        0
                    };
                    &&& result == Ok::<(), StreamError>(())
                    &&& now <= stream.start_time ==> settled == 0
                    &&& stream.end_time <= now ==> settled == stream.deposit
                    &&& stream.start_time <= now <= stream.end_time ==> settled * (stream.end_time
                        - stream.start_time) <= stream.deposit * (now - stream.start_time) < (
                    settled + 1) * (stream.end_time - stream.start_time)
                    &&& after.streams@ == before.streams@.insert(
                        stream_id,
                        after.streams@[stream_id],
                    )
                    &&& after.streams@[stream_id].sender == stream.sender
                    &&& after.streams@[stream_id].recipient == stream.recipient
                    &&& after.streams@[stream_id].token == stream.token
                    &&& after.streams@[stream_id].deposit == stream.deposit
                    &&& after.streams@[stream_id].start_time == stream.start_time
                    &&& after.streams@[stream_id].end_time == stream.end_time
                    &&& after.streams@[stream_id].canceled
                    &&& after.streams@[stream_id].cancel_time == now
                    &&& after.requests@.len() == n + 3 + paid + refunded
                    &&& after.requests@[n] == Request::Authorize(stream.sender)
                    &&& after.requests@[n + 1] == Request::Write(
                        DataKey::Stream(stream_id),
                        StoredValue::Stream(after.streams@[stream_id]),
                    )
                    &&& to_recipient > 0 ==> after.requests@[n + 2] == (Request::Transfer {
                        token: stream.token,
                        from: before.contract,
                        to: stream.recipient,
                        amount: to_recipient as i128,
                    })
                    &&& to_sender > 0 ==> after.requests@[n + 2 + paid] == (Request::Transfer {
                        token: stream.token,
                        from: before.contract,
                        to: stream.sender,
                        amount: to_sender as i128,
                    })
                    &&& after.requests@[n + 2 + paid + refunded] == Request::Publish(
                        Event::Canceled(
                            StreamCanceled {
                                stream_id,
                                sender: stream.sender,
                                recipient: stream.recipient,
                                refunded_to_sender: to_sender as i128,
                                paid_to_recipient: to_recipient as i128,
                            },
                        ),
                    )
                }
            }),
    {
        proof {
            crate::meaning::law_cancellation_settles_the_stream(env@, stream_id);
        }
        let mut stream = Self::load_stream(env, stream_id)?;
        env.requests.push(Request::Authorize(stream.sender.clone()));

        if stream.canceled {
            return Err(StreamError::AlreadyCanceled);
        }
        let now: u64 = env.timestamp;
        proof {
            crate::vesting::law_vested_within_deposit(stream, now);
        }
        let vested: i128 = vested_amount(&stream, now);
        let owed_to_recipient: i128 = vested - stream.withdrawn;
        let owed_to_sender: i128 = stream.deposit - vested;

        stream.canceled = true;
        stream.cancel_time = now;
        stream.withdrawn = vested;
        Self::store_stream(env, stream_id, stream.clone());

        if owed_to_recipient > 0 {
            let contract = env.contract.clone();
            env.requests.push(
                Request::Transfer {
                    token: stream.token.clone(),
                    from: contract,
                    to: stream.recipient.clone(),
                    amount: owed_to_recipient,
                },
            );
        }
        if owed_to_sender > 0 {
            let contract = env.contract.clone();
            env.requests.push(
                Request::Transfer {
                    token: stream.token.clone(),
                    from: contract,
                    to: stream.sender.clone(),
                    amount: owed_to_sender,
                },
            );
        }
        env.requests.push(
            Request::Publish(
                Event::Canceled(
                    StreamCanceled {
                        stream_id,
                        sender: stream.sender,
                        recipient: stream.recipient,
                        refunded_to_sender: owed_to_sender,
                        paid_to_recipient: owed_to_recipient,
                    },
                ),
            ),
        );

        Ok(())
    }

    /// Fetch a stream's full stored state.
    pub fn get_stream(env: &Ledger, stream_id: u32) -> (result: Result<Stream, StreamError>)
        ensures
            result == env@.lookup(stream_id),
            env.streams@.contains_key(stream_id) ==> result == Ok::<Stream, StreamError>(
                env.streams@[stream_id],
            ),
            !env.streams@.contains_key(stream_id) ==> result == Err::<Stream, StreamError>(
                StreamError::StreamNotFound,
            ),
    {
        Self::load_stream(env, stream_id)
    }

    /// Looks a stream up by its id.
    pub fn load_stream(env: &Ledger, stream_id: u32) -> (result: Result<Stream, StreamError>)
        ensures
            result == env@.lookup(stream_id),
            env.streams@.contains_key(stream_id) ==> result == Ok::<Stream, StreamError>(
                env.streams@[stream_id],
            ),
            !env.streams@.contains_key(stream_id) ==> result == Err::<Stream, StreamError>(
                StreamError::StreamNotFound,
            ),
    {
        match env.streams.get(&stream_id) {
            Some(stream) => Ok(stream.clone()),
            None => Err(StreamError::StreamNotFound),
        }
    }

    /// Stores a stream under its id.
    fn store_stream(env: &mut Ledger, stream_id: u32, stream: Stream)
        ensures
            final(env)@ == old(env)@.storing(stream_id, stream).requesting(
                seq![Request::Write(DataKey::Stream(stream_id), StoredValue::Stream(stream))],
            ),
            final(env).timestamp == old(env).timestamp,
            final(env).contract == old(env).contract,
            final(env).next_id == old(env).next_id,
            final(env).streams@ == old(env).streams@.insert(stream_id, stream),
            final(env).requests@ == old(env).requests@.push(
                Request::Write(DataKey::Stream(stream_id), StoredValue::Stream(stream)),
            ),
    {
        env.requests.push(
            Request::Write(DataKey::Stream(stream_id), StoredValue::Stream(stream.clone())),
        );
        env.streams.insert(stream_id, stream);
    }

    /// Takes the next stream id and advances the counter.
    fn next_id(env: &mut Ledger) -> (id: u32)
        requires
            old(env)@.fresh_id() < u32::MAX,
        ensures
            id == old(env)@.fresh_id(),
            final(env)@ == (LedgerState {
                next_id: Some((id + 1) as u32),
                ..old(env)@
            }).requesting(
                seq![
                    Request::Write(DataKey::NextId, StoredValue::NextId((id + 1) as u32)),
                ],
            ),
            id == match old(env).next_id {
                Some(next_id) => next_id,
                None => 0,
            },
            final(env).timestamp == old(env).timestamp,
            final(env).contract == old(env).contract,
            final(env).next_id == Some((id + 1) as u32),
            final(env).streams@ == old(env).streams@,
            final(env).requests@ == old(env).requests@.push(
                Request::Write(DataKey::NextId, StoredValue::NextId((id + 1) as u32)),
            ),
    {
        let id: u32 = env.next_id.unwrap_or(0);
        env.requests.push(Request::Write(DataKey::NextId, StoredValue::NextId(id + 1)));
        env.next_id = Some(id + 1);
        id
    }
}

} // verus!

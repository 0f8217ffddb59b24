//! Laws of whole histories: what holds after any sequence of calls, starting
//! from the empty contract.
use crate::laws::Call;
use crate::ledger::LedgerState;
use crate::types::{DataKey, Event, Request, StoredValue, Stream};
use soroban_sdk::Address;
use vstd::prelude::*;

verus! {

impl LedgerState {
    /// The contract as it is deployed: nothing stored, nothing requested.
    pub open spec fn deployed(contract: Address, timestamp: u64) -> LedgerState {
        LedgerState {
            timestamp,
            contract,
            next_id: None,
            streams: Map::empty(),
            requests: Seq::empty(),
        }
    }

    /// The state after a sequence of calls.
    pub open spec fn run(self, calls: Seq<Call>) -> LedgerState
        decreases calls.len(),
    {
        if calls.len() == 0 {
            self
        } else {
            self.run(calls.drop_last()).after(calls.last())
        }
    }

    /// Whether every call of a sequence can be made when its turn comes.
    pub open spec fn admits_all(self, calls: Seq<Call>) -> bool
        decreases calls.len(),
    {
        calls.len() > 0 ==> self.admits_all(calls.drop_last()) && self.run(
            calls.drop_last(),
        ).admits(calls.last())
    }
}

/// A newly deployed contract is sound.
pub proof fn law_deployment_is_sound(contract: Address, timestamp: u64)
    ensures
        LedgerState::deployed(contract, timestamp).sound(),
{
}

/// Whatever calls are made, the contract's state stays sound: every stream is
/// well-formed, and no more has been withdrawn from it than has vested.
pub proof fn law_histories_stay_sound(state: LedgerState, calls: Seq<Call>)
    requires
        state.sound(),
        state.admits_all(calls),
    ensures
        state.run(calls).sound(),
        state.run(calls).contract == state.contract,
    decreases calls.len(),
{
    if calls.len() > 0 {
        law_histories_stay_sound(state, calls.drop_last());
        crate::laws::law_calls_keep_the_state_sound(state.run(calls.drop_last()), calls.last());
    }
}

/// A lookup, after any calls on a newly deployed contract, finds only streams
/// that are in order: a positive deposit, a window of positive length, no more
/// withdrawn than has vested, no cancellation time before a cancellation nor one
/// in the future, everything vested paid out at a cancellation, and an id that
/// was handed out.
pub proof fn law_lookups_find_streams_in_order(
    contract: Address,
    start: u64,
    calls: Seq<Call>,
    id: u32,
)
    requires
        LedgerState::deployed(contract, start).admits_all(calls),
    ensures
        ({
            let state = LedgerState::deployed(contract, start).run(calls);
            let now = state.timestamp;
            state.lookup(id) matches Ok(stream) ==> {
                &&& 0 < stream.deposit
                &&& stream.start_time < stream.end_time
                &&& 0 <= stream.withdrawn <= stream.vested(now) <= stream.deposit
                &&& !stream.canceled ==> stream.cancel_time == 0
                &&& stream.canceled ==> stream.cancel_time <= now && stream.withdrawn
                    == stream.vested(stream.cancel_time)
                &&& id < state.fresh_id()
            }
        }),
{
    let deployed = LedgerState::deployed(contract, start);
    law_deployment_is_sound(contract, start);
    law_histories_stay_sound(deployed, calls);
    if let Ok(stream) = deployed.run(calls).lookup(id) {
        crate::vesting::law_vested_within_deposit(stream, deployed.run(calls).timestamp);
    }
}

/// Streams last: whatever calls follow, a lookup finds a stream again with the
/// terms it was created with, what has been withdrawn from it never falls,
/// and once canceled it does not change at all.
pub proof fn law_streams_last(state: LedgerState, calls: Seq<Call>, id: u32)
    requires
        state.sound(),
        state.admits_all(calls),
        state.lookup(id) is Ok,
    ensures
        ({
            let before = state.lookup(id)->Ok_0;
            &&& state.run(calls).lookup(id) matches Ok(after)
            &&& after.same_terms(before)
            &&& before.withdrawn <= after.withdrawn
            &&& before.canceled ==> after == before
        }),
    decreases calls.len(),
{
    if calls.len() > 0 {
        law_streams_last(state, calls.drop_last(), id);
        law_histories_stay_sound(state, calls.drop_last());
        crate::laws::law_terms_never_change(state.run(calls.drop_last()), calls.last(), id);
    }
}

/// Ids are never reused: whatever calls are made, the counter never falls, so
/// that a stream created later has a greater id.
pub proof fn law_ids_only_grow(state: LedgerState, calls: Seq<Call>)
    requires
        state.admits_all(calls),
    ensures
        state.fresh_id() <= state.run(calls).fresh_id(),
    decreases calls.len(),
{
    if calls.len() > 0 {
        law_ids_only_grow(state, calls.drop_last());
    }
}

impl LedgerState {
    /// How many streams a sequence of calls creates.
    pub open spec fn creations(self, calls: Seq<Call>) -> nat
        decreases calls.len(),
    {
        if calls.len() == 0 {
            0
        } else {
            self.creations(calls.drop_last()) + if calls.last() is Create && !self.run(
                calls.drop_last(),
            ).refuses(calls.last()) {
                1nat
            } else {
                0
            }
        }
    }
}

/// Ids have no gaps: after any calls on a newly deployed contract, the counter
/// is the number of streams created, and exactly the ids below it are in use.
pub proof fn law_ids_have_no_gaps(contract: Address, start: u64, calls: Seq<Call>)
    requires
        LedgerState::deployed(contract, start).admits_all(calls),
    ensures
        ({
            let deployed = LedgerState::deployed(contract, start);
            let state = deployed.run(calls);
            &&& state.fresh_id() == deployed.creations(calls)
            &&& forall|id: u32| #[trigger]
                state.streams.contains_key(id) <==> id < state.fresh_id()
        }),
    decreases calls.len(),
{
    if calls.len() > 0 {
        law_ids_have_no_gaps(contract, start, calls.drop_last());
    }
}

/// The counter stored by the given requests.
pub open spec fn written_next_id(requests: Seq<Request>) -> Option<u32>
    decreases requests.len(),
{
    if requests.len() == 0 {
        None
    } else {
        match requests.last() {
            Request::Write(DataKey::NextId, StoredValue::NextId(next_id)) => Some(next_id),
            _ => written_next_id(requests.drop_last()),
        }
    }
}

/// The streams stored by the given requests.
pub open spec fn written_streams(requests: Seq<Request>) -> Map<u32, Stream>
    decreases requests.len(),
{
    if requests.len() == 0 {
        Map::empty()
    } else {
        match requests.last() {
            Request::Write(DataKey::Stream(id), StoredValue::Stream(stream)) => written_streams(
                requests.drop_last(),
            ).insert(id, stream),
            _ => written_streams(requests.drop_last()),
        }
    }
}

/// The requests mirror the state: a host that stores what it is asked to store
/// holds, after any sequence of calls, exactly the counter and the streams that
/// the calls read and returned.
pub proof fn law_storage_mirrors_the_state(contract: Address, start: u64, calls: Seq<Call>)
    requires
        LedgerState::deployed(contract, start).admits_all(calls),
    ensures
        ({
            let state = LedgerState::deployed(contract, start).run(calls);
            &&& written_next_id(state.requests) == state.next_id
            &&& written_streams(state.requests) == state.streams
        }),
    decreases calls.len(),
{
    if calls.len() > 0 {
        law_storage_mirrors_the_state(contract, start, calls.drop_last());
        let state = LedgerState::deployed(contract, start).run(calls.drop_last());
        lemma_call_writes(state, calls.last());
    }
}

/// What a request adds to the writes of those before it.
broadcast proof fn lemma_written_push(requests: Seq<Request>, request: Request)
    ensures
        #![trigger written_next_id(requests.push(request))]
        #![trigger written_streams(requests.push(request))]
        written_next_id(requests.push(request)) == match request {
            Request::Write(DataKey::NextId, StoredValue::NextId(next_id)) => Some(next_id),
            _ => written_next_id(requests),
        },
        written_streams(requests.push(request)) == match request {
            Request::Write(DataKey::Stream(id), StoredValue::Stream(stream)) => written_streams(
                requests,
            ).insert(id, stream),
            _ => written_streams(requests),
        },
{
    assert(requests.push(request).drop_last() =~= requests);
}

/// What further requests add to the writes of those before them.
broadcast proof fn lemma_written_concat(before: Seq<Request>, added: Seq<Request>)
    ensures
        #![trigger written_next_id(before + added)]
        #![trigger written_streams(before + added)]
        written_next_id(before + added) == match written_next_id(added) {
            Some(next_id) => Some(next_id),
            None => written_next_id(before),
        },
        written_streams(before + added) == written_streams(before).union_prefer_right(
            written_streams(added),
        ),
    decreases added.len(),
{
    if added.len() == 0 {
        assert(before + added =~= before);
    } else {
        assert((before + added).drop_last() =~= before + added.drop_last());
        lemma_written_concat(before, added.drop_last());
    }
    assert(written_streams(before + added) =~= written_streams(before).union_prefer_right(
        written_streams(added),
    ));
}

proof fn lemma_call_writes(state: LedgerState, call: Call)
    requires
        written_next_id(state.requests) == state.next_id,
        written_streams(state.requests) == state.streams,
    ensures
        written_next_id(state.after(call).requests) == state.after(call).next_id,
        written_streams(state.after(call).requests) == state.after(call).streams,
{
    broadcast use {lemma_written_push, lemma_written_concat};

    let next = state.after(call);
    assert(written_streams(next.requests) =~= next.streams);
}

} // verus!

//! Laws of the escrow: the contract's token balance always covers what its
//! streams still owe.
//!
//! The laws are stated for an arbitrary numbering `account` of
//! addresses, so that two addresses may well be the same account.
use crate::laws::Call;
use crate::ledger::LedgerState;
use crate::types::Stream;
use soroban_sdk::Address;
use vstd::prelude::*;

verus! {

/// What a stream still holds in escrow of `token`.
pub open spec fn escrow_in(account: spec_fn(Address) -> int, token: int) -> spec_fn(Stream) -> int {
    |stream: Stream|
        if account(stream.token) == token {
            stream.escrowed()
        } else {
            0
        }
}

impl LedgerState {
    /// What all streams together still hold in escrow of `token`.
    pub open spec fn escrow(self, account: spec_fn(Address) -> int, token: int) -> int {
        crate::tally::streams_total(
            self.streams,
            escrow_in(account, token),
            self.fresh_id() as nat,
        )
    }

    /// By how much the requests made so far change the contract's own balance
    /// in `token`.
    pub open spec fn own_balance_change(
        self,
        account: spec_fn(Address) -> int,
        token: int,
    ) -> int {
        crate::tally::balance_change(self.requests, account, token, account(self.contract))
    }
}

/// How one call changes the contract's balance and its escrow.
proof fn lemma_call_moves_escrow(
    state: LedgerState,
    call: Call,
    account: spec_fn(Address) -> int,
    token: int,
)
    requires
        state.sound(),
        state.admits(call),
        call matches Call::Create { sender, .. } ==> account(sender) != account(state.contract),
        forall|id: u32| #[trigger]
            state.streams.contains_key(id) ==> account(state.streams[id].sender) != account(
                state.contract,
            ),
    ensures
        ({
            let next = state.after(call);
            let balance_gain = next.own_balance_change(account, token)
                - state.own_balance_change(account, token);
            let escrow_gain = next.escrow(account, token) - state.escrow(account, token);
            &&& balance_gain >= escrow_gain
            &&& (forall|id: u32| #[trigger]
                next.streams.contains_key(id) ==> account(next.streams[id].recipient) != account(
                    state.contract,
                )) ==> balance_gain == escrow_gain
        }),
{
    broadcast use crate::tally::group_total;

    let next = state.after(call);
    if let Some(id) = state.target(call) {
        if !state.refuses(call) {
            let bound = state.fresh_id() as nat;
            let stream = next.streams[id];
            assert(next.streams == state.streams.insert(id, stream));
            assert(next.streams.contains_key(id));
            crate::tally::lemma_streams_total_insert(
                state.streams,
                escrow_in(account, token),
                bound,
                id,
                stream,
            );
            if state.streams.contains_key(id) {
                crate::vesting::law_vested_within_deposit(state.streams[id], state.timestamp);
            }
        }
    }
}

/// Any history of a newly deployed contract is sound.
pub(crate) proof fn lemma_sound(contract: Address, start: u64, calls: Seq<Call>)
    requires
        LedgerState::deployed(contract, start).admits_all(calls),
    ensures
        LedgerState::deployed(contract, start).run(calls).sound(),
        LedgerState::deployed(contract, start).run(calls).contract == contract,
{
    let deployed = LedgerState::deployed(contract, start);
    crate::history::law_deployment_is_sound(contract, start);
    crate::history::law_histories_stay_sound(deployed, calls);
}

/// Solvency: as long as the contract opens no streams in its own name, its
/// balance in every token covers, after any sequence of calls, what its streams
/// hold in escrow of that token.
pub proof fn law_balance_covers_the_escrow(
    contract: Address,
    start: u64,
    calls: Seq<Call>,
    account: spec_fn(Address) -> int,
    token: int,
)
    requires
        LedgerState::deployed(contract, start).admits_all(calls),
        forall|i: int|
            0 <= i < calls.len() ==> (#[trigger] calls[i] matches Call::Create { sender, .. }
                ==> account(sender) != account(contract)),
    ensures
        ({
            let state = LedgerState::deployed(contract, start).run(calls);
            state.own_balance_change(account, token) >= state.escrow(account, token)
        }),
    decreases calls.len(),
{
    if calls.len() > 0 {
        let earlier = calls.drop_last();
        let state = LedgerState::deployed(contract, start).run(earlier);
        law_balance_covers_the_escrow(contract, start, earlier, account, token);
        lemma_sound(contract, start, earlier);
        lemma_senders(contract, start, earlier, account);
        assert(calls[calls.len() - 1] == calls.last());
        lemma_call_moves_escrow(state, calls.last(), account, token);
    }
}

/// Where the contract is neither sender nor recipient of a stream, its balance
/// in every token is, after any sequence of calls, exactly what its streams hold
/// in escrow of that token.
pub proof fn law_balance_is_the_escrow(
    contract: Address,
    start: u64,
    calls: Seq<Call>,
    account: spec_fn(Address) -> int,
    token: int,
)
    requires
        LedgerState::deployed(contract, start).admits_all(calls),
        forall|i: int|
            0 <= i < calls.len() ==> (#[trigger] calls[i] matches Call::Create {
                sender,
                recipient,
                ..
            } ==> account(sender) != account(contract) && account(recipient) != account(
                contract,
            )),
    ensures
        ({
            let state = LedgerState::deployed(contract, start).run(calls);
            state.own_balance_change(account, token) == state.escrow(account, token)
        }),
    decreases calls.len(),
{
    if calls.len() > 0 {
        let earlier = calls.drop_last();
        let state = LedgerState::deployed(contract, start).run(earlier);
        law_balance_is_the_escrow(contract, start, earlier, account, token);
        lemma_sound(contract, start, earlier);
        lemma_senders(contract, start, earlier, account);
        lemma_recipients(contract, start, calls, account);
        assert(calls[calls.len() - 1] == calls.last());
        lemma_call_moves_escrow(state, calls.last(), account, token);
    }
}

/// The senders of all streams come from the calls that created them.
proof fn lemma_senders(
    contract: Address,
    start: u64,
    calls: Seq<Call>,
    account: spec_fn(Address) -> int,
)
    requires
        LedgerState::deployed(contract, start).admits_all(calls),
        forall|i: int|
            0 <= i < calls.len() ==> (#[trigger] calls[i] matches Call::Create { sender, .. }
                ==> account(sender) != account(contract)),
    ensures
        ({
            let state = LedgerState::deployed(contract, start).run(calls);
            forall|id: u32| #[trigger]
                state.streams.contains_key(id) ==> account(state.streams[id].sender) != account(
                    contract,
                )
        }),
    decreases calls.len(),
{
    if calls.len() > 0 {
        lemma_senders(contract, start, calls.drop_last(), account);
        assert(calls[calls.len() - 1] == calls.last());
    }
}

/// The recipients of all streams come from the calls that created them.
proof fn lemma_recipients(
    contract: Address,
    start: u64,
    calls: Seq<Call>,
    account: spec_fn(Address) -> int,
)
    requires
        LedgerState::deployed(contract, start).admits_all(calls),
        forall|i: int|
            0 <= i < calls.len() ==> (#[trigger] calls[i] matches Call::Create { recipient, .. }
                ==> account(recipient) != account(contract)),
    ensures
        ({
            let state = LedgerState::deployed(contract, start).run(calls);
            forall|id: u32| #[trigger]
                state.streams.contains_key(id) ==> account(state.streams[id].recipient) != account(
                    contract,
                )
        }),
    decreases calls.len(),
{
    if calls.len() > 0 {
        lemma_recipients(contract, start, calls.drop_last(), account);
        assert(calls[calls.len() - 1] == calls.last());
    }
}

} // verus!

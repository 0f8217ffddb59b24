//! Laws of the payments: what the contract transfers and announces for its
//! streams, and that it never pays out more than has vested.
//!
//! The laws about transfers are stated for an arbitrary numbering `account` of
//! addresses, so that two addresses may well be the same account.
use crate::laws::Call;
use crate::ledger::LedgerState;
use crate::types::{Request, Stream};
use soroban_sdk::Address;
use vstd::prelude::*;

verus! {

impl Call {
    /// Whether the call draws on the escrow of the stream `id`.
    pub open spec fn draws_on(self, id: u32) -> bool {
        match self {
            Call::Withdraw { id: target, .. } => target == id,
            Call::Cancel { id: target } => target == id,
            _ => false,
        }
    }
}

impl Stream {
    /// What has been refunded to the sender.
    pub open spec fn refunded(self) -> int {
        if self.canceled {
            self.deposit - self.withdrawn
        } else {
            0
        }
    }
}

impl LedgerState {
    /// What the calls that draw on the stream `id` move of `token` out of the
    /// account `from` into the account `to`.
    pub open spec fn moved_for(
        self,
        calls: Seq<Call>,
        id: u32,
        account: spec_fn(Address) -> int,
        token: int,
        from: int,
        to: int,
    ) -> int
        decreases calls.len(),
    {
        if calls.len() == 0 {
            0
        } else {
            self.moved_for(calls.drop_last(), id, account, token, from, to)
                + if calls.last().draws_on(id) {
                crate::tally::moved(
                    self.run(calls.drop_last()).requests_of(calls.last()),
                    account,
                    token,
                    from,
                    to,
                )
            } else {
                0
            }
        }
    }
}

/// What a call adds to the announcements about the stream `id`.
proof fn lemma_call_announces(state: LedgerState, call: Call, id: u32)
    requires
        state.sound(),
        state.admits(call),
    ensures
        ({
            let next = state.after(call);
            let paid = crate::tally::announced_paid(next.requests, id)
                - crate::tally::announced_paid(state.requests, id);
            let refunded = crate::tally::announced_refund(next.requests, id)
                - crate::tally::announced_refund(state.requests, id);
            match call {
                Call::Withdraw { id: target, amount } if target == id && !state.refuses(call) =>
                    paid == amount && refunded == 0,
                Call::Cancel { id: target } if target == id && !state.refuses(call) => paid
                    == state.streams[id].available(state.timestamp) && refunded
                    == state.streams[id].unvested(state.timestamp),
                _ => paid == 0 && refunded == 0,
            }
        }),
{
    broadcast use crate::tally::group_total;

    if state.streams.contains_key(id) {
        crate::vesting::law_vested_within_deposit(state.streams[id], state.timestamp);
    }
}

/// The contract never announces more than has vested: after any sequence of
/// calls, the payments announced for a stream are what counts as withdrawn from
/// it, which is at most what has vested; a refund is announced only for a
/// canceled stream, and is then the whole rest of the deposit.
pub proof fn law_announcements_never_exceed_what_has_vested(
    contract: Address,
    start: u64,
    calls: Seq<Call>,
    id: u32,
)
    requires
        LedgerState::deployed(contract, start).admits_all(calls),
    ensures
        ({
            let state = LedgerState::deployed(contract, start).run(calls);
            let stream = state.streams[id];
            let paid = crate::tally::announced_paid(state.requests, id);
            let refunded = crate::tally::announced_refund(state.requests, id);
            if state.streams.contains_key(id) {
                &&& paid == stream.withdrawn
                &&& 0 <= paid <= stream.vested(state.timestamp)
                &&& refunded == stream.refunded()
            } else {
                paid == 0 && refunded == 0
            }
        }),
    decreases calls.len(),
{
    crate::escrow::lemma_sound(contract, start, calls);
    if calls.len() > 0 {
        let earlier = calls.drop_last();
        let state = LedgerState::deployed(contract, start).run(earlier);
        law_announcements_never_exceed_what_has_vested(contract, start, earlier, id);
        crate::escrow::lemma_sound(contract, start, earlier);
        lemma_call_announces(state, calls.last(), id);
        if state.streams.contains_key(id) {
            crate::vesting::law_vested_within_deposit(state.streams[id], state.timestamp);
        }
    }
}

/// The requests of a call that draws on a stream, one by one.
proof fn lemma_requests_of(state: LedgerState, call: Call, id: u32)
    requires
        call.draws_on(id),
    ensures
        state.after(call).requests == state.requests + state.requests_of(call),
        state.refuses(call) ==> state.requests_of(call).len() <= 1,
        state.refuses(call) && state.requests_of(call).len() == 1 ==> state.requests_of(call)
            == seq![Request::Authorize(state.authority(call).unwrap())],
        !state.refuses(call) ==> state.requests_of(call) == match call {
            Call::Withdraw { amount, .. } => crate::ledger::withdraw_requests(
                id,
                state.streams[id].after_withdraw(amount),
                amount,
                state.contract,
            ),
            _ => crate::ledger::cancel_requests(
                id,
                state.streams[id],
                state.timestamp,
                state.contract,
            ),
        },
{
}

/// The money follows the announcements: whatever call draws on a stream, it
/// transfers what it announces and nothing else. What it announces as paid goes
/// from the contract to the recipient, and what it announces as refunded goes
/// from the contract to the sender, in the stream's token; where both are one
/// account, that account gets both.
pub proof fn law_transfers_are_what_is_announced(
    state: LedgerState,
    call: Call,
    id: u32,
    account: spec_fn(Address) -> int,
)
    requires
        state.sound(),
        state.streams.contains_key(id),
        call.draws_on(id),
    ensures
        ({
            let stream = state.streams[id];
            let requests = state.requests_of(call);
            let paid = crate::tally::announced_paid(requests, id);
            let refunded = crate::tally::announced_refund(requests, id);
            let token = account(stream.token);
            let contract = account(state.contract);
            let recipient = account(stream.recipient);
            let sender = account(stream.sender);
            let to_recipient = crate::tally::moved(requests, account, token, contract, recipient);
            let to_sender = crate::tally::moved(requests, account, token, contract, sender);
            &&& 0 <= paid
            &&& 0 <= refunded
            &&& crate::tally::transferred(requests) == paid + refunded
            &&& if recipient != sender {
                to_recipient == paid && to_sender == refunded
            } else {
                to_recipient == paid + refunded
            }
        }),
{
    broadcast use crate::tally::group_total;

    lemma_requests_of(state, call, id);
    crate::vesting::law_vested_within_deposit(state.streams[id], state.timestamp);
    if state.refuses(call) {
        if state.requests_of(call).len() == 0 {
            assert(state.requests_of(call) =~= Seq::empty());
        }
    }
}

/// No call draws on a stream that does not exist.
proof fn lemma_nothing_drawn(
    state: LedgerState,
    calls: Seq<Call>,
    id: u32,
    account: spec_fn(Address) -> int,
    token: int,
    from: int,
    to: int,
)
    requires
        !state.run(calls).streams.contains_key(id),
    ensures
        state.moved_for(calls, id, account, token, from, to) == 0,
    decreases calls.len(),
{
    broadcast use crate::tally::group_total;

    if calls.len() > 0 {
        let earlier = state.run(calls.drop_last());
        lemma_nothing_drawn(state, calls.drop_last(), id, account, token, from, to);
        if calls.last().draws_on(id) {
            assert(earlier.requests_of(calls.last()) =~= Seq::empty());
        }
    }
}

/// The contract never pays out more than has vested: after any sequence of
/// calls, what was transferred for a stream to its recipient is what counts as
/// withdrawn from it, which is at most what has vested; what was transferred to
/// its sender is the rest of the deposit if the stream was canceled, and nothing
/// otherwise. Where recipient and sender are one account, that account got both.
pub proof fn law_transfers_never_exceed_what_has_vested(
    contract: Address,
    start: u64,
    calls: Seq<Call>,
    id: u32,
    account: spec_fn(Address) -> int,
)
    requires
        LedgerState::deployed(contract, start).admits_all(calls),
        LedgerState::deployed(contract, start).run(calls).streams.contains_key(id),
    ensures
        ({
            let deployed = LedgerState::deployed(contract, start);
            let state = deployed.run(calls);
            let stream = state.streams[id];
            let token = account(stream.token);
            let escrow = account(contract);
            let recipient = account(stream.recipient);
            let sender = account(stream.sender);
            let to_recipient = deployed.moved_for(calls, id, account, token, escrow, recipient);
            let to_sender = deployed.moved_for(calls, id, account, token, escrow, sender);
            &&& if recipient != sender {
                to_recipient == stream.withdrawn && to_sender == stream.refunded()
            } else {
                to_recipient == stream.withdrawn + stream.refunded()
            }
            &&& 0 <= stream.withdrawn <= stream.vested(state.timestamp)
            &&& 0 <= stream.refunded() <= stream.unvested(state.timestamp)
        }),
    decreases calls.len(),
{
    broadcast use crate::tally::group_total;

    let deployed = LedgerState::deployed(contract, start);
    crate::escrow::lemma_sound(contract, start, calls);
    let state = deployed.run(calls);
    crate::vesting::law_vested_within_deposit(state.streams[id], state.timestamp);
    if calls.len() > 0 {
        let earlier = deployed.run(calls.drop_last());
        let call = calls.last();
        let stream = state.streams[id];
        let token = account(stream.token);
        let escrow = account(contract);
        let recipient = account(stream.recipient);
        let sender = account(stream.sender);
        crate::escrow::lemma_sound(contract, start, calls.drop_last());
        if earlier.streams.contains_key(id) {
            law_transfers_never_exceed_what_has_vested(
                contract,
                start,
                calls.drop_last(),
                id,
                account,
            );
            crate::laws::law_terms_never_change(earlier, call, id);
            crate::vesting::law_vested_within_deposit(earlier.streams[id], earlier.timestamp);
            if call.draws_on(id) {
                law_transfers_are_what_is_announced(earlier, call, id, account);
                lemma_call_announces(earlier, call, id);
                lemma_requests_of(earlier, call, id);
            }
        } else {
            let before = calls.drop_last();
            lemma_nothing_drawn(deployed, before, id, account, token, escrow, recipient);
            lemma_nothing_drawn(deployed, before, id, account, token, escrow, sender);
        }
    }
}

/// What a stream has paid out to the account `holder` in `token`.
pub open spec fn paid_out_by(
    account: spec_fn(Address) -> int,
    token: int,
    holder: int,
) -> spec_fn(Stream) -> int {
    |stream: Stream|
        if account(stream.token) == token {
            (if account(stream.recipient) == holder {
                stream.withdrawn as int
            } else {
                0
            }) + (if account(stream.sender) == holder {
                stream.refunded()
            } else {
                0
            })
        } else {
            0
        }
}

/// What a stream may have paid out to the account `holder` in `token` by `now`:
/// what has vested, if `holder` is the recipient, and what has not, if `holder`
/// is the sender and the stream is canceled.
pub open spec fn payable_by(
    account: spec_fn(Address) -> int,
    token: int,
    holder: int,
    now: u64,
) -> spec_fn(Stream) -> int {
    |stream: Stream|
        if account(stream.token) == token {
            (if account(stream.recipient) == holder {
                stream.vested(now)
            } else {
                0
            }) + (if account(stream.sender) == holder && stream.canceled {
                stream.unvested(now)
            } else {
                0
            })
        } else {
            0
        }
}

/// What one call moves out of the contract is what its stream pays out.
proof fn lemma_call_pays_out(
    state: LedgerState,
    call: Call,
    account: spec_fn(Address) -> int,
    token: int,
    holder: int,
)
    requires
        state.sound(),
        state.admits(call),
        call matches Call::Create { sender, .. } ==> account(sender) != account(state.contract),
    ensures
        ({
            let next = state.after(call);
            let contract = account(state.contract);
            let paid_out = paid_out_by(account, token, holder);
            crate::tally::moved(next.requests, account, token, contract, holder)
                - crate::tally::moved(state.requests, account, token, contract, holder)
                == crate::tally::streams_total(next.streams, paid_out, next.fresh_id() as nat)
                - crate::tally::streams_total(state.streams, paid_out, state.fresh_id() as nat)
        }),
{
    broadcast use crate::tally::group_total;

    let next = state.after(call);
    if let Some(id) = state.target(call) {
        if !state.refuses(call) {
            let stream = next.streams[id];
            assert(next.streams == state.streams.insert(id, stream));
            crate::tally::lemma_streams_total_insert(
                state.streams,
                paid_out_by(account, token, holder),
                state.fresh_id() as nat,
                id,
                stream,
            );
            if state.streams.contains_key(id) {
                crate::vesting::law_vested_within_deposit(state.streams[id], state.timestamp);
            }
        }
    }
}

/// All money that leaves the contract is owed: as long as the contract opens no
/// streams in its own name, what it has transferred to an account, after any
/// sequence of calls and in any token, is what the streams count as withdrawn by
/// that account and refunded to it. That is at most what has vested for it as a
/// recipient, and what had not vested for it as the sender of canceled streams.
pub proof fn law_outgoing_money_is_owed(
    contract: Address,
    start: u64,
    calls: Seq<Call>,
    account: spec_fn(Address) -> int,
    token: int,
    holder: int,
)
    requires
        LedgerState::deployed(contract, start).admits_all(calls),
        forall|i: int|
            0 <= i < calls.len() ==> (#[trigger] calls[i] matches Call::Create { sender, .. }
                ==> account(sender) != account(contract)),
    ensures
        ({
            let state = LedgerState::deployed(contract, start).run(calls);
            let bound = state.fresh_id() as nat;
            crate::tally::moved(state.requests, account, token, account(contract), holder)
                == crate::tally::streams_total(
                state.streams,
                paid_out_by(account, token, holder),
                bound,
            ) <= crate::tally::streams_total(
                state.streams,
                payable_by(account, token, holder, state.timestamp),
                bound,
            )
        }),
    decreases calls.len(),
{
    let deployed = LedgerState::deployed(contract, start);
    let state = deployed.run(calls);
    crate::escrow::lemma_sound(contract, start, calls);
    if calls.len() > 0 {
        let earlier = calls.drop_last();
        law_outgoing_money_is_owed(contract, start, earlier, account, token, holder);
        crate::escrow::lemma_sound(contract, start, earlier);
        assert(calls[calls.len() - 1] == calls.last());
        lemma_call_pays_out(deployed.run(earlier), calls.last(), account, token, holder);
    }
    crate::tally::lemma_streams_total_ordered(
        state.streams,
        paid_out_by(account, token, holder),
        payable_by(account, token, holder, state.timestamp),
        state.fresh_id() as nat,
    );
}

} // verus!

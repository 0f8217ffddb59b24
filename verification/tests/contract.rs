//! The contract against a real token: each call works on what the host has
//! stored, and the host then serves the requests of the call in order.
use dripswave_stream::{
    DataKey, DripswaveStream, Ledger, Request, StoredValue, Stream, StreamError,
};
use soroban_sdk::testutils::{
    Address as AddressTestUtils, ContractFunctionSet, EnvTestConfig, Ledger as LedgerTestUtils,
};
use soroban_sdk::token::{StellarAssetClient, TokenClient};
use soroban_sdk::{Address, Env, Val};
use std::collections::BTreeMap;

/// Stands for the deployed contract, so that it has an address of its own.
struct Deployed;

impl ContractFunctionSet for Deployed {
    fn call(&self, _func: &str, _env: Env, _args: &[Val]) -> Option<Val> {
        None
    }
}

/// Bundles everything a test typically needs: a registered token (with the
/// sender pre-funded), the deployed streaming contract with its storage, and
/// two parties.
struct TestCtx<'a> {
    env: Env,
    contract_id: Address,
    token: TokenClient<'a>,
    token_id: Address,
    sender: Address,
    recipient: Address,
    next_id: Option<u32>,
    streams: BTreeMap<u32, Stream>,
}

const START: u64 = 1_000;
const END: u64 = 2_000;
const DEPOSIT: i128 = 1_000_000;
const SENDER_FUNDING: i128 = 1_000_000_000;

impl TestCtx<'_> {
    /// The ledger as a call that may touch the stream `id` sees it.
    fn ledger(&self, id: Option<u32>) -> Ledger {
        let mut streams = BTreeMap::new();
        if let Some(id) = id {
            if let Some(stream) = self.streams.get(&id) {
                streams.insert(id, stream.clone());
            }
        }
        Ledger {
            timestamp: self.env.ledger().timestamp(),
            contract: self.contract_id.clone(),
            next_id: self.next_id,
            streams,
            requests: Vec::new(),
        }
    }

    /// Serves the requests of a call, as the contract, in order.
    fn serve(&mut self, requests: Vec<Request>) {
        let env = self.env.clone();
        let id = self.contract_id.clone();
        env.as_contract(&id, || {
            for request in requests {
                match request {
                    Request::Authorize(party) => party.require_auth(),
                    Request::Write(DataKey::NextId, StoredValue::NextId(next_id)) => {
                        self.next_id = Some(next_id);
                    }
                    Request::Write(DataKey::Stream(id), StoredValue::Stream(stream)) => {
                        self.streams.insert(id, stream);
                    }
                    Request::Write(key, value) => panic!("{:?} under {:?}", value, key),
                    Request::Transfer { token, from, to, amount } => {
                        TokenClient::new(&env, &token).transfer(&from, &to, &amount);
                    }
                    Request::Publish(_) => {}
                }
            }
        });
    }

    fn create_stream(
        &mut self,
        deposit: i128,
        start_time: u64,
        end_time: u64,
    ) -> Result<u32, StreamError> {
        let mut ledger = self.ledger(None);
        let result = DripswaveStream::create_stream(
            &mut ledger,
            self.sender.clone(),
            self.recipient.clone(),
            self.token_id.clone(),
            deposit,
            start_time,
            end_time,
        );
        self.serve(ledger.requests);
        result
    }

    fn withdrawable(&self, id: u32) -> Result<i128, StreamError> {
        DripswaveStream::withdrawable(&self.ledger(Some(id)), id)
    }

    fn withdraw(&mut self, id: u32, amount: i128) -> Result<(), StreamError> {
        let mut ledger = self.ledger(Some(id));
        let result = DripswaveStream::withdraw(&mut ledger, id, amount);
        self.serve(ledger.requests);
        result
    }

    fn cancel(&mut self, id: u32) -> Result<(), StreamError> {
        let mut ledger = self.ledger(Some(id));
        let result = DripswaveStream::cancel(&mut ledger, id);
        self.serve(ledger.requests);
        result
    }

    fn get_stream(&self, id: u32) -> Result<Stream, StreamError> {
        DripswaveStream::get_stream(&self.ledger(Some(id)), id)
    }
}

/// Standard fixture. Calls `mock_all_auths`, so it's meant for tests that
/// exercise happy paths and business-logic errors rather than the auth
/// boundary itself (see the dedicated auth tests near the bottom, which
/// turn the mock off for the call under test).
fn setup(env: &Env) -> TestCtx<'static> {
    env.mock_all_auths();

    let admin = Address::generate(env);
    let sender = Address::generate(env);
    let recipient = Address::generate(env);

    let token_id = env.register_stellar_asset_contract_v2(admin).address();
    let token = TokenClient::new(env, &token_id);
    StellarAssetClient::new(env, &token_id).mint(&sender, &SENDER_FUNDING);

    let contract_id = env.register(Deployed, ());

    TestCtx {
        env: env.clone(),
        contract_id,
        token,
        token_id,
        sender,
        recipient,
        next_id: None,
        streams: BTreeMap::new(),
    }
}

fn set_time(env: &Env, t: u64) {
    env.ledger().with_mut(|li| li.timestamp = t);
}

fn new_env_at(t: u64) -> Env {
    let env = Env::new_with_config(EnvTestConfig { capture_snapshot_at_drop: false });
    set_time(&env, t);
    env
}

#[test]
fn test_create_stream_escrows_funds_and_stores_state() {
    let env = new_env_at(0);
    let mut ctx = setup(&env);

    let id = ctx.create_stream(DEPOSIT, START, END).unwrap();
    assert_eq!(id, 0);

    // Funds left the sender and are held by the contract.
    assert_eq!(ctx.token.balance(&ctx.sender), SENDER_FUNDING - DEPOSIT);
    assert_eq!(ctx.token.balance(&ctx.contract_id), DEPOSIT);

    let stream = ctx.get_stream(id).unwrap();
    assert_eq!(stream.sender, ctx.sender);
    assert_eq!(stream.recipient, ctx.recipient);
    assert_eq!(stream.token, ctx.token_id);
    assert_eq!(stream.deposit, DEPOSIT);
    assert_eq!(stream.start_time, START);
    assert_eq!(stream.end_time, END);
    assert_eq!(stream.withdrawn, 0);
    assert!(!stream.canceled);
}

#[test]
fn test_create_stream_rejects_end_before_start() {
    let env = new_env_at(0);
    let mut ctx = setup(&env);

    let result = ctx.create_stream(DEPOSIT, END, START);
    assert_eq!(result, Err(StreamError::InvalidTimeRange));
}

#[test]
fn test_create_stream_rejects_end_equal_start() {
    let env = new_env_at(0);
    let mut ctx = setup(&env);

    let result = ctx.create_stream(DEPOSIT, START, START);
    assert_eq!(result, Err(StreamError::InvalidTimeRange));
}

#[test]
fn test_create_stream_rejects_zero_deposit() {
    let env = new_env_at(0);
    let mut ctx = setup(&env);

    let result = ctx.create_stream(0, START, END);
    assert_eq!(result, Err(StreamError::InvalidDeposit));
}

#[test]
fn test_create_stream_rejects_negative_deposit() {
    let env = new_env_at(0);
    let mut ctx = setup(&env);

    let result = ctx.create_stream(-500, START, END);
    assert_eq!(result, Err(StreamError::InvalidDeposit));
}

#[test]
fn test_multiple_streams_are_independent() {
    let env = new_env_at(0);
    let mut ctx = setup(&env);

    let id_a = ctx.create_stream(DEPOSIT, START, END).unwrap();
    let id_b = ctx.create_stream(DEPOSIT * 2, START, END * 2).unwrap();
    assert_ne!(id_a, id_b);

    set_time(&env, START + (END - START) / 2);
    // Stream A's window is [START, END] (length 1000) -> 50% vested here.
    // Stream B's window is [START, END*2] (length 3000) -> only 1/6 vested
    // at this same timestamp. They must not bleed into each other.
    let a = ctx.withdrawable(id_a).unwrap();
    let b = ctx.withdrawable(id_b).unwrap();
    assert_eq!(a, DEPOSIT / 2);
    assert_eq!(b, (DEPOSIT * 2) * 500 / 3000);
}

#[test]
fn test_withdrawable_zero_before_start() {
    let env = new_env_at(0);
    let mut ctx = setup(&env);
    let id = ctx.create_stream(DEPOSIT, START, END).unwrap();

    set_time(&env, START - 1);
    assert_eq!(ctx.withdrawable(id), Ok(0));

    set_time(&env, 0);
    assert_eq!(ctx.withdrawable(id), Ok(0));
}

#[test]
fn test_withdrawable_partial_mid_stream() {
    let env = new_env_at(0);
    let mut ctx = setup(&env);
    let id = ctx.create_stream(DEPOSIT, START, END).unwrap();

    // 25% of the way through the window.
    set_time(&env, START + (END - START) / 4);
    assert_eq!(ctx.withdrawable(id), Ok(DEPOSIT / 4));

    // 75% of the way through.
    set_time(&env, START + (END - START) * 3 / 4);
    assert_eq!(ctx.withdrawable(id), Ok(DEPOSIT * 3 / 4));
}

#[test]
fn test_withdrawable_full_at_end() {
    let env = new_env_at(0);
    let mut ctx = setup(&env);
    let id = ctx.create_stream(DEPOSIT, START, END).unwrap();

    set_time(&env, END);
    assert_eq!(ctx.withdrawable(id), Ok(DEPOSIT));
}

#[test]
fn test_withdrawable_full_after_end() {
    let env = new_env_at(0);
    let mut ctx = setup(&env);
    let id = ctx.create_stream(DEPOSIT, START, END).unwrap();

    set_time(&env, END + 1_000_000);
    assert_eq!(ctx.withdrawable(id), Ok(DEPOSIT));
}

#[test]
fn test_vesting_rounding_is_floor_not_ceiling() {
    let env = new_env_at(0);
    let mut ctx = setup(&env);
    // 1000 units over 3 seconds -> 1 second elapsed should floor to 333,
    // never round up to 334 (which would over-pay relative to true vesting).
    let id = ctx.create_stream(1000, 0, 3).unwrap();

    set_time(&env, 1);
    assert_eq!(ctx.withdrawable(id), Ok(333));

    set_time(&env, 2);
    assert_eq!(ctx.withdrawable(id), Ok(666));

    set_time(&env, 3);
    assert_eq!(ctx.withdrawable(id), Ok(1000));
}

#[test]
fn test_withdraw_partial_updates_state_and_transfers() {
    let env = new_env_at(0);
    let mut ctx = setup(&env);
    let id = ctx.create_stream(DEPOSIT, START, END).unwrap();

    set_time(&env, START + (END - START) / 2);
    ctx.withdraw(id, DEPOSIT / 4).unwrap();

    assert_eq!(ctx.token.balance(&ctx.recipient), DEPOSIT / 4);
    assert_eq!(ctx.token.balance(&ctx.contract_id), DEPOSIT - DEPOSIT / 4);

    let stream = ctx.get_stream(id).unwrap();
    assert_eq!(stream.withdrawn, DEPOSIT / 4);
    // Half has vested, a quarter was withdrawn -> a quarter remains claimable.
    assert_eq!(ctx.withdrawable(id), Ok(DEPOSIT / 4));
}

#[test]
fn test_multiple_partial_withdraws_accumulate() {
    let env = new_env_at(0);
    let mut ctx = setup(&env);
    let id = ctx.create_stream(DEPOSIT, START, END).unwrap();

    set_time(&env, START + (END - START) / 4);
    ctx.withdraw(id, DEPOSIT / 8).unwrap();

    set_time(&env, START + (END - START) / 2);
    ctx.withdraw(id, DEPOSIT / 8).unwrap();

    set_time(&env, END);
    ctx.withdraw(id, DEPOSIT * 3 / 4).unwrap();

    assert_eq!(ctx.token.balance(&ctx.recipient), DEPOSIT);
    let stream = ctx.get_stream(id).unwrap();
    assert_eq!(stream.withdrawn, DEPOSIT);
    assert_eq!(ctx.withdrawable(id), Ok(0));
}

#[test]
fn test_withdraw_full_amount_at_end_zeroes_withdrawable() {
    let env = new_env_at(0);
    let mut ctx = setup(&env);
    let id = ctx.create_stream(DEPOSIT, START, END).unwrap();

    set_time(&env, END);
    ctx.withdraw(id, DEPOSIT).unwrap();
    assert_eq!(ctx.withdrawable(id), Ok(0));
    assert_eq!(ctx.token.balance(&ctx.contract_id), 0);
}

#[test]
fn test_withdraw_more_than_vested_fails() {
    let env = new_env_at(0);
    let mut ctx = setup(&env);
    let id = ctx.create_stream(DEPOSIT, START, END).unwrap();

    set_time(&env, START + (END - START) / 4); // 25% vested
    let result = ctx.withdraw(id, DEPOSIT / 2);
    assert_eq!(result, Err(StreamError::InsufficientVestedBalance));
}

#[test]
fn test_withdraw_zero_amount_fails() {
    let env = new_env_at(0);
    let mut ctx = setup(&env);
    let id = ctx.create_stream(DEPOSIT, START, END).unwrap();

    set_time(&env, END);
    let result = ctx.withdraw(id, 0);
    assert_eq!(result, Err(StreamError::InvalidWithdrawAmount));
}

#[test]
fn test_withdraw_nonexistent_stream_fails() {
    let env = new_env_at(0);
    let mut ctx = setup(&env);
    let result = ctx.withdraw(999, 1);
    assert_eq!(result, Err(StreamError::StreamNotFound));
}

#[test]
fn test_get_stream_nonexistent_fails() {
    let env = new_env_at(0);
    let ctx = setup(&env);
    let result = ctx.get_stream(999);
    assert_eq!(result, Err(StreamError::StreamNotFound));
}

#[test]
fn test_cancel_before_start_refunds_all_to_sender() {
    let env = new_env_at(0);
    let mut ctx = setup(&env);
    let id = ctx.create_stream(DEPOSIT, START, END).unwrap();

    set_time(&env, START - 1);
    ctx.cancel(id).unwrap();

    assert_eq!(ctx.token.balance(&ctx.sender), SENDER_FUNDING);
    assert_eq!(ctx.token.balance(&ctx.recipient), 0);
    assert_eq!(ctx.token.balance(&ctx.contract_id), 0);

    let stream = ctx.get_stream(id).unwrap();
    assert!(stream.canceled);
}

#[test]
fn test_cancel_mid_stream_splits_correctly() {
    let env = new_env_at(0);
    let mut ctx = setup(&env);
    let id = ctx.create_stream(DEPOSIT, START, END).unwrap();

    set_time(&env, START + (END - START) / 4); // 25% vested
    ctx.cancel(id).unwrap();

    assert_eq!(ctx.token.balance(&ctx.recipient), DEPOSIT / 4);
    // Recipient got the 25% that had vested; sender gets the other 75%
    // (the unvested remainder) refunded, so net they're only down a quarter
    // of the original deposit relative to their starting balance.
    assert_eq!(ctx.token.balance(&ctx.sender), SENDER_FUNDING - DEPOSIT / 4);
    assert_eq!(ctx.token.balance(&ctx.contract_id), 0);

    // Time marches on after cancellation, but vesting must stay frozen.
    set_time(&env, END);
    assert_eq!(ctx.withdrawable(id), Ok(0));
}

#[test]
fn test_cancel_after_partial_withdraw_pays_remaining_vested() {
    let env = new_env_at(0);
    let mut ctx = setup(&env);
    let id = ctx.create_stream(DEPOSIT, START, END).unwrap();

    set_time(&env, START + (END - START) / 4); // 25% vested
    ctx.withdraw(id, DEPOSIT / 8).unwrap();

    set_time(&env, START + (END - START) / 2); // 50% vested
    ctx.cancel(id).unwrap();

    // Recipient already had 1/8; cancel should top them up to the 1/2
    // that had vested by the cancellation moment, i.e. another 3/8.
    assert_eq!(ctx.token.balance(&ctx.recipient), DEPOSIT / 2);
    assert_eq!(ctx.token.balance(&ctx.sender), SENDER_FUNDING - DEPOSIT / 2);
    assert_eq!(ctx.token.balance(&ctx.contract_id), 0);
}

#[test]
fn test_cancel_after_end_pays_recipient_fully() {
    let env = new_env_at(0);
    let mut ctx = setup(&env);
    let id = ctx.create_stream(DEPOSIT, START, END).unwrap();

    set_time(&env, END + 100);
    ctx.cancel(id).unwrap();

    assert_eq!(ctx.token.balance(&ctx.recipient), DEPOSIT);
    assert_eq!(ctx.token.balance(&ctx.sender), SENDER_FUNDING - DEPOSIT);
}

#[test]
fn test_cancel_twice_fails() {
    let env = new_env_at(0);
    let mut ctx = setup(&env);
    let id = ctx.create_stream(DEPOSIT, START, END).unwrap();

    set_time(&env, START + 1);
    ctx.cancel(id).unwrap();

    let result = ctx.cancel(id);
    assert_eq!(result, Err(StreamError::AlreadyCanceled));
}

#[test]
fn test_cancel_nonexistent_stream_fails() {
    let env = new_env_at(0);
    let mut ctx = setup(&env);
    let result = ctx.cancel(999);
    assert_eq!(result, Err(StreamError::StreamNotFound));
}

/// The fixture with one stream, and from then on with strict verification and
/// an empty authorized-address list, so any subsequent `require_auth` call
/// fails unless the caller supplies a real, valid signature.
fn setup_unmocked(env: &Env) -> TestCtx<'static> {
    let mut ctx = setup(env);
    let id = ctx.create_stream(DEPOSIT, START, END).unwrap();
    assert_eq!(id, 0);
    env.set_auths(&[]);
    ctx
}

#[test]
#[should_panic]
fn test_withdraw_requires_recipient_auth() {
    let env = new_env_at(END);
    let mut ctx = setup_unmocked(&env);
    let _ = ctx.withdraw(0, DEPOSIT / 2);
}

#[test]
#[should_panic]
fn test_cancel_requires_sender_auth() {
    let env = new_env_at(START + 1);
    let mut ctx = setup_unmocked(&env);
    let _ = ctx.cancel(0);
}

#[test]
#[should_panic]
fn test_create_stream_requires_sender_auth() {
    let env = new_env_at(0);
    let mut ctx = setup(&env);

    // No matching authorization for `sender` on this call.
    env.set_auths(&[]);
    let _ = ctx.create_stream(DEPOSIT, START, END);
}

//! Dripswave Stream: a linear token-streaming (vesting) contract for Soroban.
//!
//! A `sender` deposits a fixed amount of a token up front, naming a
//! `recipient` and a `[start, end]` time window. Tokens vest linearly across
//! that window. The recipient can withdraw any vested-but-unwithdrawn
//! balance at any time. The sender can cancel a stream at any time; vested
//! funds go to the recipient and the unvested remainder is refunded to the
//! sender. Vesting is computed lazily from ledger timestamps: no external
//! keeper or cron is required.
pub mod contract;
pub mod escrow;
pub mod history;
pub mod laws;
pub mod ledger;
pub mod meaning;
pub mod payouts;
pub mod tally;
pub mod types;
pub mod vesting;

pub use contract::DripswaveStream;
pub use ledger::Ledger;
pub use types::{
    DataKey, Event, Request, StoredValue, Stream, StreamCanceled, StreamCreated, StreamError,
    StreamWithdrawn,
};
pub use vesting::vested_amount;

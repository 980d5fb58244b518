//! An auto-compounding yield vault: a share ledger, and the decisions of the
//! deposit, auto-compound and withdrawal workflows that act on it.
//!
//! The vault pools deposits of many users into one liquidity position on an
//! exchange and stakes it in a farm. This crate keeps the books and decides what
//! is to be sent to those services; it sends nothing itself. Every entry point
//! takes what the host knows of the call (who calls, what the previous remote
//! call returned) as plain values and answers with the calls to issue next.

pub mod arith;
pub mod calls;
pub mod codec;
pub mod compound;
pub mod contract;
pub mod decimal;
pub mod deposit;
pub mod errors;
pub mod holdings;
pub mod laws;
pub mod ledger;
pub mod rebase;
pub mod remote;
pub mod sequencer;
pub mod state;
pub mod withdraw;

pub use state::RunningState;
pub use calls::{
    Call, ExtRefFakes, FluxusFarming, RefExchange, Request, SwapAction, VaultContract, Wrapnear,
};
pub use contract::{AccountSnapshot, Contract, RefStorageState};
pub use deposit::BalanceOrder;
pub use errors::{ErrorKind, VaultError};
pub use holdings::Holding;
pub use ledger::ShareLedger;
pub use sequencer::{CallContext, PromiseOutcome};

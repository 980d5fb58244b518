//! The single calls to the exchange and the farm that the vault offers as
//! entry points of their own.

use vstd::prelude::*;
use crate::calls::{
    amounts_view, exchange_call, farm_call, to_exchange, to_farm, Call, CallView, FluxusFarming,
    FluxusFarmingView, RefExchange, RefExchangeView, LIQUIDITY_DEPOSIT, REGISTRATION_DEPOSIT,
};
use crate::contract::{gate, step_done, Contract};
use crate::errors::VaultError;
use crate::sequencer::{CallContext, PromiseOutcome};

verus! {

/// The answer of an entry point that is open to all while the vault runs.
pub open spec fn while_running(
    state: crate::state::RunningState,
    call: CallView,
) -> Result<CallView, VaultError> {
    match gate(state) {
        Err(e) => Err(e),
        Ok(_) => Ok(call),
    }
}

/// The view of an answer that holds one call.
pub open spec fn call_answer(res: Result<Call, VaultError>) -> Result<CallView, VaultError> {
    match res {
        Ok(call) => Ok(call@),
        Err(e) => Err(e),
    }
}

impl Contract {
    /// Call the ref get_pool_shares function: resumes when liquidity has gone
    /// into the pool, and asks the exchange how many shares of `pool_id` the
    /// account `account_id` holds; what the exchange returns is what this
    /// step hands on. For the vault itself only; an addition of liquidity
    /// that failed ends the chain.
    pub fn call_get_pool_shares(
        &self,
        ctx: &CallContext,
        pool_id: u64,
        account_id: String,
        results: &Vec<PromiseOutcome>,
    ) -> (res: Result<Call, VaultError>)
        ensures
            call_answer(res) == (match step_done(self@, *ctx, results@) {
                Err(e) => Err::<CallView, VaultError>(e),
                Ok(_) => Ok(
                    to_exchange(
                        RefExchangeView::GetPoolShares { pool_id, account_id: account_id@ },
                        0,
                        10_000_000_000_000,
                    ),
                ),
            }),
    {
        match self.enter_step(ctx, results) {
            Err(e) => Err(e),
            Ok(_) => Ok(
                exchange_call(
                    RefExchange::GetPoolShares { pool_id, account_id },
                    0,
                    10_000_000_000_000,
                ),
            ),
        }
    }

    /// Call the ref metadata function.
    pub fn call_meta(&self) -> (res: Result<Call, VaultError>)
        ensures
            call_answer(res) == while_running(
                self@.state,
                to_exchange(RefExchangeView::Metadata, 0, 3_000_000_000_000),
            ),
    {
        match self.assert_contract_running() {
            Err(e) => Err(e),
            Ok(_) => Ok(exchange_call(RefExchange::Metadata, 0, 3_000_000_000_000)),
        }
    }

    /// Call the ref user_register function: registers `account_id` with the
    /// exchange.
    pub fn call_user_register(&self, account_id: String) -> (res: Result<Call, VaultError>)
        ensures
            call_answer(res) == while_running(
                self@.state,
                to_exchange(
                    RefExchangeView::StorageDeposit { account_id: account_id@ },
                    REGISTRATION_DEPOSIT,
                    3_000_000_000_000,
                ),
            ),
    {
        match self.assert_contract_running() {
            Err(e) => Err(e),
            Ok(_) => Ok(
                exchange_call(
                    RefExchange::StorageDeposit { account_id },
                    REGISTRATION_DEPOSIT,
                    3_000_000_000_000,
                ),
            ),
        }
    }

    /// Call the ref get_deposits function: asks the exchange what
    /// `account_id` holds there of each token.
    pub fn call_get_deposits(&self, account_id: String) -> (call: Call)
        ensures
            call@ == to_exchange(
                RefExchangeView::GetDeposits { account_id: account_id@ },
                1,
                15_000_000_000_000,
            ),
    {
        exchange_call(RefExchange::GetDeposits { account_id }, 1, 15_000_000_000_000)
    }

    /// Ref function to add liquidity in the pool.
    pub fn call_add_liquidity(
        &self,
        pool_id: u64,
        amounts: Vec<u128>,
        min_amounts: Option<Vec<u128>>,
    ) -> (res: Result<Call, VaultError>)
        ensures
            call_answer(res) == while_running(
                self@.state,
                to_exchange(
                    RefExchangeView::AddLiquidity {
                        pool_id,
                        amounts: amounts@,
                        min_amounts: amounts_view(min_amounts),
                    },
                    LIQUIDITY_DEPOSIT,
                    30_000_000_000_000,
                ),
            ),
    {
        match self.assert_contract_running() {
            Err(e) => Err(e),
            Ok(_) => Ok(
                exchange_call(
                    RefExchange::AddLiquidity { pool_id, amounts, min_amounts },
                    LIQUIDITY_DEPOSIT,
                    30_000_000_000_000,
                ),
            ),
        }
    }

    /// Ref function to stake the lps/shares: transfers `amount` of `token_id`
    /// to `receiver_id` with `msg`.
    pub fn call_stake(&self, receiver_id: String, token_id: String, amount: u128, msg: String) -> (res:
        Result<Call, VaultError>)
        ensures
            call_answer(res) == while_running(
                self@.state,
                to_exchange(
                    RefExchangeView::MftTransferCall {
                        receiver_id: receiver_id@,
                        token_id: token_id@,
                        amount,
                        msg: msg@,
                    },
                    1,
                    75_000_000_000_000,
                ),
            ),
    {
        match self.assert_contract_running() {
            Err(e) => Err(e),
            Ok(_) => Ok(
                exchange_call(
                    RefExchange::MftTransferCall { receiver_id, token_id, amount, msg },
                    1,
                    75_000_000_000_000,
                ),
            ),
        }
    }

    /// Ref function to withdraw the rewards to exchange ref contract.
    pub fn call_withdraw_reward(&self, token_id: String, amount: u128, unregister: String) -> (res:
        Result<Call, VaultError>)
        ensures
            call_answer(res) == while_running(
                self@.state,
                to_farm(
                    FluxusFarmingView::WithdrawReward {
                        token_id: token_id@,
                        amount,
                        unregister: unregister@,
                    },
                    1,
                    180_000_000_000_000,
                ),
            ),
    {
        match self.assert_contract_running() {
            Err(e) => Err(e),
            Ok(_) => Ok(
                farm_call(
                    FluxusFarming::WithdrawReward { token_id, amount, unregister },
                    1,
                    180_000_000_000_000,
                ),
            ),
        }
    }
}

} // verus!

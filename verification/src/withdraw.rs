//! The withdrawal workflow, in two phases.
//!
//! The first phase takes all shares of the depositor off the ledger at once,
//! so that nothing can be withdrawn twice. Then, one after the other, as many
//! liquidity shares are unstaked, that liquidity is removed for no less than
//! a floor of each token, the vault's deposits at the exchange are read, and
//! both tokens are swapped into the wrapped native token. The second phase
//! reads what the vault holds of the wrapped native token, takes it out of
//! the exchange, unwraps it and has the depositor credited with exactly what
//! was unwrapped. When the first phase has run, the second can be tried again
//! on its own.
//!
//! Each remote call is asked for by the step in which the call before it
//! ended; a call that failed ends the phase there, and what earlier steps did
//! stays done.

use vstd::prelude::*;
use vstd::string::StringExecFns;
use crate::calls::{
    chain_of_1, chain_of_2, exchange_call, farm_call, pair_of, plan_of_1, plan_of_2, plan_view,
    single_swap, swap_of, to_exchange, to_farm, to_vault, to_wrap, vault_call, wrap_call, CallView,
    FluxusFarming, FluxusFarmingView, Plan, RefExchange, RefExchangeView, VaultContract,
    VaultContractView, Wrapnear, WrapnearView, CONTRACT_ID_DAI_TESTNET, CONTRACT_ID_EHT_TESTNET,
    CONTRACT_ID_WRAP_TESTNET, MIN_WITHDRAWN, VAULT_POOL, WRAP_TO_FIRST_POOL, WRAP_TO_SECOND_POOL,
};
use crate::codec::{balance_in, balance_of};
use crate::contract::{
    entered_as, plan_answer, step_balances, step_done, then_plan, Contract, VaultState,
};
use crate::deposit::{BalanceOrder, BalanceOrderView};
use crate::errors::VaultError;
use crate::holdings::{as_map, table_of, Holding};
use crate::sequencer::{CallContext, PromiseOutcome};

verus! {

/// The chain with which the first phase starts for `shares` liquidity
/// shares: they are unstaked, and the step that removes the liquidity
/// follows.
pub open spec fn unstake_plan(
    current: Seq<char>,
    seed_id: Seq<char>,
    msg: Seq<char>,
    vault_contract: Seq<char>,
    shares: u128,
) -> Seq<Seq<CallView>> {
    seq![
        seq![
            to_farm(
                FluxusFarmingView::WithdrawSeed { seed_id, amount: shares, msg },
                1,
                180_000_000_000_000,
            ),
            to_vault(
                current,
                VaultContractView::CallbackUnstaked { vault_contract, shares },
                0,
                75_000_000_000_000,
            ),
        ],
    ]
}

/// The chain that takes `shares` liquidity shares out of the pool for no less
/// than the floor of each token, and hands on to the step that reads what
/// came out.
pub open spec fn remove_plan(current: Seq<char>, vault_contract: Seq<char>, shares: u128) -> Seq<
    Seq<CallView>,
> {
    seq![
        seq![
            to_exchange(
                RefExchangeView::RemoveLiquidity {
                    pool_id: VAULT_POOL,
                    shares,
                    min_amounts: seq![MIN_WITHDRAWN, MIN_WITHDRAWN],
                },
                1,
                8_000_000_000_000,
            ),
            to_vault(
                current,
                VaultContractView::CallbackLiquidityRemoved { vault_contract },
                0,
                60_000_000_000_000,
            ),
        ],
    ]
}

/// The chain that reads the vault's deposits at the exchange and hands them
/// to the step that swaps them.
pub open spec fn read_out_plan(current: Seq<char>, vault_contract: Seq<char>) -> Seq<
    Seq<CallView>,
> {
    seq![
        seq![
            to_exchange(
                RefExchangeView::GetDeposits { account_id: vault_contract },
                1,
                9_000_000_000_000,
            ),
            to_vault(current, VaultContractView::SwapToWithdrawAll, 0, 41_500_000_000_000),
        ],
    ]
}

/// The two swaps that turn `first` and `second` of the pool's tokens into the
/// wrapped native token. Neither waits for the other.
pub open spec fn swap_back_plan(first: u128, second: u128) -> Seq<Seq<CallView>> {
    seq![
        seq![
            to_exchange(
                swap_of(
                    WRAP_TO_FIRST_POOL,
                    CONTRACT_ID_EHT_TESTNET@,
                    first,
                    CONTRACT_ID_WRAP_TESTNET@,
                ),
                1,
                15_000_000_000_000,
            ),
        ],
        seq![
            to_exchange(
                swap_of(
                    WRAP_TO_SECOND_POOL,
                    CONTRACT_ID_DAI_TESTNET@,
                    second,
                    CONTRACT_ID_WRAP_TESTNET@,
                ),
                1,
                15_000_000_000_000,
            ),
        ],
    ]
}

/// The chain with which the second phase starts: the vault's deposits at the
/// exchange are read and handed to the step that takes the wrapped native
/// token out for `account_id`.
pub open spec fn settle_withdrawal_plan(
    current: Seq<char>,
    vault_contract: Seq<char>,
    account_id: Seq<char>,
) -> Seq<Seq<CallView>> {
    seq![
        seq![
            to_exchange(
                RefExchangeView::GetDeposits { account_id: vault_contract },
                1,
                10_000_000_000_000,
            ),
            to_vault(
                current,
                VaultContractView::CallbackToWithdraw { account_id },
                1,
                100_000_000_000_000,
            ),
        ],
    ]
}

/// The chain that takes `amount` of the wrapped native token out of the
/// exchange, keeps the vault registered there, and hands on to the step that
/// unwraps it for `account_id`.
pub open spec fn take_out_plan(current: Seq<char>, account_id: Seq<char>, amount: u128) -> Seq<
    Seq<CallView>,
> {
    seq![
        seq![
            to_exchange(
                RefExchangeView::Withdraw {
                    token_id: CONTRACT_ID_WRAP_TESTNET@,
                    amount,
                    unregister: Some(false),
                },
                1,
                70_000_000_000_000,
            ),
            to_vault(
                current,
                VaultContractView::CallbackToNearWithdraw { account_id, amount },
                1,
                20_000_000_000_000,
            ),
        ],
    ]
}

/// The chain that unwraps `amount` and hands on to the step that credits
/// `account_id` with it.
pub open spec fn unwrap_plan(current: Seq<char>, account_id: Seq<char>, amount: u128) -> Seq<
    Seq<CallView>,
> {
    seq![
        seq![
            to_wrap(WrapnearView::NearWithdraw { amount }, 1, 3_000_000_000_000),
            to_vault(
                current,
                VaultContractView::SubNearBalance { account_id, amount_available: amount },
                0,
                5_000_000_000_000,
            ),
        ],
    ]
}

/// The vault after the first phase was entered for `account_id`, beside the
/// calls to issue: all shares of the depositor are off the ledger. Refused
/// while paused, for anyone but the depositor, and for one who holds nothing.
pub open spec fn withdrawn(
    s: VaultState,
    ctx: CallContext,
    seed_id: Seq<char>,
    msg: Seq<char>,
    vault_contract: Seq<char>,
    account_id: Seq<char>,
) -> Result<(VaultState, Seq<Seq<CallView>>), VaultError> {
    match entered_as(s, ctx, account_id) {
        Err(e) => Err(e),
        Ok(_) => if s.ledger.share(account_id) == 0 {
            Err(VaultError::InsufficientShares)
        } else {
            Ok(
                (
                    VaultState {
                        ledger: s.ledger.debited(account_id, s.ledger.share(account_id)),
                        ..s
                    },
                    unstake_plan(
                        ctx.current@,
                        seed_id,
                        msg,
                        vault_contract,
                        s.ledger.share(account_id) as u128,
                    ),
                ),
            )
        },
    }
}

/// What is done with the balances that the vault holds at the exchange when
/// liquidity has come out of the pool: all it holds of the pool's two tokens
/// is swapped back. Balances that do not name both tokens are malformed.
pub open spec fn swap_back_answer(balances: Map<Seq<char>, nat>) -> Result<
    Seq<Seq<CallView>>,
    VaultError,
> {
    match (
        balance_in(balances, CONTRACT_ID_EHT_TESTNET@),
        balance_in(balances, CONTRACT_ID_DAI_TESTNET@),
    ) {
        (Some(first), Some(second)) => Ok(swap_back_plan(first, second)),
        _ => Err(VaultError::MalformedResult),
    }
}

/// What is done with the balances that the vault holds at the exchange in
/// the second phase: all it holds of the wrapped native token is taken out
/// for `account_id`. Answers that amount beside the calls. Balances that do
/// not name the token are malformed.
pub open spec fn take_out_answer(
    current: Seq<char>,
    account_id: Seq<char>,
    balances: Map<Seq<char>, nat>,
) -> Result<(u128, Seq<Seq<CallView>>), VaultError> {
    match balance_in(balances, CONTRACT_ID_WRAP_TESTNET@) {
        Some(amount) => Ok((amount, take_out_plan(current, account_id, amount))),
        None => Err(VaultError::MalformedResult),
    }
}

/// What the step that swaps back answers.
pub open spec fn swap_to_withdraw_all_answer(
    s: VaultState,
    ctx: CallContext,
    results: Seq<PromiseOutcome>,
) -> Result<Seq<Seq<CallView>>, VaultError> {
    match step_balances(s, ctx, results) {
        Err(e) => Err(e),
        Ok(balances) => swap_back_answer(balances),
    }
}

/// What the step that takes the wrapped native token out answers.
pub open spec fn callback_to_withdraw_answer(
    s: VaultState,
    ctx: CallContext,
    account_id: Seq<char>,
    results: Seq<PromiseOutcome>,
) -> Result<(u128, Seq<Seq<CallView>>), VaultError> {
    match step_balances(s, ctx, results) {
        Err(e) => Err(e),
        Ok(balances) => take_out_answer(ctx.current@, account_id, balances),
    }
}

/// What the step answers that credits a depositor when the unwrapping has
/// returned: where it succeeded, `amount_available` is added to what
/// `account_id` may spend, whoever the depositor is.
pub open spec fn sub_near_balance_answer(
    s: VaultState,
    ctx: CallContext,
    account_id: Seq<char>,
    amount_available: u128,
    results: Seq<PromiseOutcome>,
) -> Result<BalanceOrderView, VaultError> {
    match step_done(s, ctx, results) {
        Err(e) => Err(e),
        Ok(_) => Ok(BalanceOrderView::Credit { account_id, amount: amount_available }),
    }
}

impl Contract {
    /// Withdraw user lps and send it to the Vault contract: the first phase
    /// of a withdrawal of all that `account_id` holds.
    pub fn withdraw_all(
        &mut self,
        ctx: &CallContext,
        seed_id: &String,
        msg: &String,
        vault_contract: &String,
        account_id: &String,
    ) -> (res: Result<Plan, VaultError>)
        requires
            old(self).wf(),
        ensures
            final(self).wf(),
            match res {
                Ok(plan) => withdrawn(
                    old(self)@,
                    *ctx,
                    seed_id@,
                    msg@,
                    vault_contract@,
                    account_id@,
                ) == Ok::<(VaultState, Seq<Seq<CallView>>), VaultError>(
                    (final(self)@, plan_view(plan@)),
                ),
                Err(e) => withdrawn(
                    old(self)@,
                    *ctx,
                    seed_id@,
                    msg@,
                    vault_contract@,
                    account_id@,
                ) == Err::<(VaultState, Seq<Seq<CallView>>), VaultError>(e) && *final(self)
                    == *old(self),
            },
    {
        match self.enter_as(ctx, account_id) {
            Err(e) => {
                return Err(e);
            },
            Ok(_) => {},
        }
        if self.ledger.get_share(account_id) == 0 {
            return Err(VaultError::InsufficientShares);
        }
        let shares: u128 = self.ledger.debit_all(account_id);
        let unstake = farm_call(
            FluxusFarming::WithdrawSeed { seed_id: seed_id.clone(), amount: shares, msg: msg.clone() },
            1,
            180_000_000_000_000,
        );
        let next = vault_call(
            &ctx.current,
            VaultContract::CallbackUnstaked { vault_contract: vault_contract.clone(), shares },
            0,
            75_000_000_000_000,
        );
        Ok(plan_of_1(chain_of_2(unstake, next)))
    }

    /// Resumes when the liquidity shares of a withdrawal have been unstaked,
    /// and takes as many out of the pool. An unstaking that failed ends the
    /// withdrawal.
    pub fn callback_unstaked(
        &self,
        ctx: &CallContext,
        vault_contract: &String,
        shares: u128,
        results: &Vec<PromiseOutcome>,
    ) -> (res: Result<Plan, VaultError>)
        ensures
            plan_answer(res) == then_plan(
                self@,
                *ctx,
                results@,
                remove_plan(ctx.current@, vault_contract@, shares),
            ),
    {
        match self.enter_step(ctx, results) {
            Err(e) => Err(e),
            Ok(_) => Ok(remove_liquidity(&ctx.current, vault_contract, shares)),
        }
    }

    /// Resumes when the liquidity of a withdrawal has come out of the pool,
    /// and has what the vault holds at the exchange read. A removal that
    /// failed ends the withdrawal.
    pub fn callback_liquidity_removed(
        &self,
        ctx: &CallContext,
        vault_contract: &String,
        results: &Vec<PromiseOutcome>,
    ) -> (res: Result<Plan, VaultError>)
        ensures
            plan_answer(res) == then_plan(
                self@,
                *ctx,
                results@,
                read_out_plan(ctx.current@, vault_contract@),
            ),
    {
        match self.enter_step(ctx, results) {
            Err(e) => Err(e),
            Ok(_) => Ok(read_out(&ctx.current, vault_contract)),
        }
    }

    /// Swap pool tokens to wnear: resumes with the vault's deposits at the
    /// exchange and swaps all it holds of the pool's two tokens into the
    /// wrapped native token. Deposits that do not name both tokens are
    /// malformed.
    pub fn swap_to_withdraw_all(&self, ctx: &CallContext, results: &Vec<PromiseOutcome>) -> (res:
        Result<Plan, VaultError>)
        ensures
            plan_answer(res) == swap_to_withdraw_all_answer(self@, *ctx, results@),
    {
        match self.enter_step_with_balances(ctx, results) {
            Err(e) => Err(e),
            Ok(rows) => swap_back(&rows),
        }
    }

    /// Second call in order to withdraw the amount deposited: starts the
    /// second phase for `account_id`. Call `withdraw_all` before calling
    /// this.
    pub fn withdraw_all_2(&self, ctx: &CallContext, vault_contract: &String, account_id: &String) -> (res:
        Result<Plan, VaultError>)
        ensures
            match res {
                Ok(plan) => entered_as(self@, *ctx, account_id@) is Ok && plan_view(plan@)
                    == settle_withdrawal_plan(ctx.current@, vault_contract@, account_id@),
                Err(e) => entered_as(self@, *ctx, account_id@) == Err::<(), VaultError>(e),
            },
    {
        match self.enter_as(ctx, account_id) {
            Err(e) => {
                return Err(e);
            },
            Ok(_) => {},
        }
        let read_deposits = exchange_call(
            RefExchange::GetDeposits { account_id: vault_contract.clone() },
            1,
            10_000_000_000_000,
        );
        let next = vault_call(
            &ctx.current,
            VaultContract::CallbackToWithdraw { account_id: account_id.clone() },
            1,
            100_000_000_000_000,
        );
        Ok(plan_of_1(chain_of_2(read_deposits, next)))
    }

    /// Take out wnear from ref-exchange and send it to Vault contract:
    /// resumes with the vault's deposits at the exchange and takes out all it
    /// holds of the wrapped native token. Answers that amount beside the
    /// calls to issue. Deposits that do not name the token are malformed.
    pub fn callback_to_withdraw(
        &self,
        ctx: &CallContext,
        account_id: &String,
        results: &Vec<PromiseOutcome>,
    ) -> (res: Result<(u128, Plan), VaultError>)
        ensures
            match res {
                Ok(reply) => callback_to_withdraw_answer(self@, *ctx, account_id@, results@)
                    == Ok::<(u128, Seq<Seq<CallView>>), VaultError>(
                    (reply.0, plan_view(reply.1@)),
                ),
                Err(e) => callback_to_withdraw_answer(self@, *ctx, account_id@, results@) == Err::<
                    (u128, Seq<Seq<CallView>>),
                    VaultError,
                >(e),
            },
    {
        match self.enter_step_with_balances(ctx, results) {
            Err(e) => Err(e),
            Ok(rows) => take_out(&ctx.current, account_id, &rows),
        }
    }

    /// Resumes when `amount` of the wrapped native token has been taken out
    /// of the exchange, and unwraps it. A taking out that failed ends the
    /// phase.
    pub fn callback_to_near_withdraw(
        &self,
        ctx: &CallContext,
        account_id: &String,
        amount: u128,
        results: &Vec<PromiseOutcome>,
    ) -> (res: Result<Plan, VaultError>)
        ensures
            plan_answer(res) == then_plan(
                self@,
                *ctx,
                results@,
                unwrap_plan(ctx.current@, account_id@, amount),
            ),
    {
        match self.enter_step(ctx, results) {
            Err(e) => Err(e),
            Ok(_) => Ok(unwrap_and_credit(&ctx.current, account_id, amount)),
        }
    }

    /// Resumes when `amount_available` has been unwrapped: has exactly that
    /// amount added to what `account_id` may spend, whoever the depositor is.
    /// For the vault itself only; an unwrapping that failed credits nothing.
    pub fn sub_near_balance(
        &self,
        ctx: &CallContext,
        account_id: &String,
        amount_available: u128,
        results: &Vec<PromiseOutcome>,
    ) -> (res: Result<BalanceOrder, VaultError>)
        ensures
            match res {
                Ok(order) => sub_near_balance_answer(
                    self@,
                    *ctx,
                    account_id@,
                    amount_available,
                    results@,
                ) == Ok::<BalanceOrderView, VaultError>(order@),
                Err(e) => sub_near_balance_answer(
                    self@,
                    *ctx,
                    account_id@,
                    amount_available,
                    results@,
                ) == Err::<BalanceOrderView, VaultError>(e),
            },
    {
        match self.enter_step(ctx, results) {
            Err(e) => Err(e),
            Ok(_) => Ok(
                BalanceOrder::Credit { account_id: account_id.clone(), amount: amount_available },
            ),
        }
    }
}

/// The chain of `remove_plan`.
pub fn remove_liquidity(current: &String, vault_contract: &String, shares: u128) -> (plan: Plan)
    ensures
        plan_view(plan@) == remove_plan(current@, vault_contract@, shares),
{
    let remove = exchange_call(
        RefExchange::RemoveLiquidity {
            pool_id: VAULT_POOL,
            shares,
            min_amounts: pair_of(MIN_WITHDRAWN, MIN_WITHDRAWN),
        },
        1,
        8_000_000_000_000,
    );
    let next = vault_call(
        current,
        VaultContract::CallbackLiquidityRemoved { vault_contract: vault_contract.clone() },
        0,
        60_000_000_000_000,
    );
    plan_of_1(chain_of_2(remove, next))
}

/// The chain of `read_out_plan`.
pub fn read_out(current: &String, vault_contract: &String) -> (plan: Plan)
    ensures
        plan_view(plan@) == read_out_plan(current@, vault_contract@),
{
    let read_deposits = exchange_call(
        RefExchange::GetDeposits { account_id: vault_contract.clone() },
        1,
        9_000_000_000_000,
    );
    let next = vault_call(current, VaultContract::SwapToWithdrawAll, 0, 41_500_000_000_000);
    plan_of_1(chain_of_2(read_deposits, next))
}

/// The two swaps that turn all that `balances` hold of the pool's two tokens
/// into the wrapped native token. Balances that do not name both tokens are
/// malformed.
pub fn swap_back(balances: &Vec<Holding>) -> (res: Result<Plan, VaultError>)
    ensures
        plan_answer(res) == swap_back_answer(as_map(table_of(balances@))),
{
    let first: u128 = match balance_of(balances, CONTRACT_ID_EHT_TESTNET) {
        Some(n) => n,
        None => {
            return Err(VaultError::MalformedResult);
        },
    };
    let second: u128 = match balance_of(balances, CONTRACT_ID_DAI_TESTNET) {
        Some(n) => n,
        None => {
            return Err(VaultError::MalformedResult);
        },
    };
    let swap_first = exchange_call(
        single_swap(WRAP_TO_FIRST_POOL, CONTRACT_ID_EHT_TESTNET, first, CONTRACT_ID_WRAP_TESTNET),
        1,
        15_000_000_000_000,
    );
    let swap_second = exchange_call(
        single_swap(WRAP_TO_SECOND_POOL, CONTRACT_ID_DAI_TESTNET, second, CONTRACT_ID_WRAP_TESTNET),
        1,
        15_000_000_000_000,
    );
    Ok(plan_of_2(chain_of_1(swap_first), chain_of_1(swap_second)))
}

/// The chain in which the vault `current` takes all that `balances` hold of
/// the wrapped native token out of the exchange for `account_id`, beside that
/// amount. Balances that do not name the token are malformed.
pub fn take_out(current: &String, account_id: &String, balances: &Vec<Holding>) -> (res: Result<
    (u128, Plan),
    VaultError,
>)
    ensures
        match res {
            Ok(reply) => take_out_answer(current@, account_id@, as_map(table_of(balances@)))
                == Ok::<(u128, Seq<Seq<CallView>>), VaultError>((reply.0, plan_view(reply.1@))),
            Err(e) => take_out_answer(current@, account_id@, as_map(table_of(balances@))) == Err::<
                (u128, Seq<Seq<CallView>>),
                VaultError,
            >(e),
        },
{
    let amount: u128 = match balance_of(balances, CONTRACT_ID_WRAP_TESTNET) {
        Some(n) => n,
        None => {
            return Err(VaultError::MalformedResult);
        },
    };
    let call = exchange_call(
        RefExchange::Withdraw {
            token_id: String::from_str(CONTRACT_ID_WRAP_TESTNET),
            amount,
            unregister: Some(false),
        },
        1,
        70_000_000_000_000,
    );
    let next = vault_call(
        current,
        VaultContract::CallbackToNearWithdraw { account_id: account_id.clone(), amount },
        1,
        20_000_000_000_000,
    );
    Ok((amount, plan_of_1(chain_of_2(call, next))))
}

/// The chain in which the vault `current` unwraps `amount` and has exactly
/// that amount credited to `account_id`.
pub fn unwrap_and_credit(current: &String, account_id: &String, amount: u128) -> (plan: Plan)
    ensures
        plan_view(plan@) == unwrap_plan(current@, account_id@, amount),
{
    let unwrap_it = wrap_call(Wrapnear::NearWithdraw { amount }, 1, 3_000_000_000_000);
    let credit = vault_call(
        current,
        VaultContract::SubNearBalance { account_id: account_id.clone(), amount_available: amount },
        0,
        5_000_000_000_000,
    );
    plan_of_1(chain_of_2(unwrap_it, credit))
}

} // verus!

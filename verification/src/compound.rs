//! The auto-compound workflow: the farm's reward is claimed, swapped into the
//! pool's two tokens, added as liquidity and staked, and the shares that the
//! pool grew by are distributed over all depositors.
//!
//! An operator triggers each leg: the claim; the withdrawal of the claimed
//! reward from the farm; its transfer to the exchange and the two swaps; the
//! addition of liquidity, the distribution and the stake. A claim that
//! accrued nothing runs through all of them and changes nothing.

use vstd::prelude::*;
use vstd::string::StringExecFns;
use crate::calls::{
    chain_of_1, chain_of_2, chain_of_4, exchange_call, farm_call, no_plan, plan_of_1,
    plan_of_2, plan_view, reward_token_call, single_swap, swap_of, to_exchange, to_farm,
    to_reward_token, to_vault, vault_call, CallView, ExtRefFakes, ExtRefFakesView, FluxusFarming,
    FluxusFarmingView, Plan, RefExchange, RefExchangeView, VaultContract, VaultContractView,
    CONTRACT_ID_DAI_TESTNET, CONTRACT_ID_EHT_TESTNET, CONTRACT_ID_REF_EXC,
    CONTRACT_ID_REF_TESTNET, FARM_SEED, LIQUIDITY_DEPOSIT, REWARD_KEY, REWARD_TO_FIRST_POOL,
    REWARD_TO_SECOND_POOL, VAULT_POOL,
};
use crate::codec::{balance_in, balance_of, shares_of_text};
use crate::contract::{
    entered_as_operator, entered_as_vault, plan_answer, step_amount, step_balances, step_shares,
    then_plan, Contract, VaultState,
};
use crate::decimal::{amount_text, decimal_text, parse_amount};
use crate::deposit::{add_liquidity, add_liquidity_call};
use crate::errors::VaultError;
use crate::holdings::{
    amount_of, as_map, assign, assigned, find_row, holds, lookup, table_of, Holding,
};
use crate::sequencer::{CallContext, PromiseOutcome};

verus! {

/// The call that claims the farm's reward for the vault's stake.
pub open spec fn claim_plan() -> Seq<Seq<CallView>> {
    seq![
        seq![
            to_farm(
                FluxusFarmingView::ClaimRewardBySeed { seed_id: FARM_SEED@ },
                0,
                40_000_000_000_000,
            ),
        ],
    ]
}

/// The chain that reads what the farm holds of the reward token for the vault
/// and hands it to the step that withdraws it.
pub open spec fn reward_plan(current: Seq<char>) -> Seq<Seq<CallView>> {
    seq![
        seq![
            to_farm(
                FluxusFarmingView::GetReward {
                    account_id: current,
                    token_id: CONTRACT_ID_REF_TESTNET@,
                },
                1,
                3_000_000_000_000,
            ),
            to_vault(
                current,
                VaultContractView::CallbackWithdrawRewards { token_id: CONTRACT_ID_REF_TESTNET@ },
                1,
                190_000_000_000_000,
            ),
        ],
    ]
}

/// The call that withdraws `amount` of `token_id` from the farm and keeps the
/// vault registered there.
pub open spec fn withdraw_reward_call(token_id: Seq<char>, amount: u128) -> CallView {
    to_farm(
        FluxusFarmingView::WithdrawReward { token_id, amount, unregister: "false"@ },
        1,
        180_000_000_000_000,
    )
}

/// The chain that sends `amount` of the reward token to the exchange, and
/// hands on to the step that has the vault's deposits there read.
pub open spec fn transfer_plan(current: Seq<char>, farm_id: Seq<char>, amount: u128) -> Seq<
    Seq<CallView>,
> {
    seq![
        seq![
            to_reward_token(
                ExtRefFakesView::FtTransferCall {
                    receiver_id: CONTRACT_ID_REF_EXC@,
                    amount: decimal_text(amount as nat),
                    msg: ""@,
                },
                1,
                45_000_000_000_000,
            ),
            to_vault(
                current,
                VaultContractView::CallbackRewardSent { farm_id },
                0,
                60_000_000_000_000,
            ),
        ],
    ]
}

/// The chain that reads the vault's deposits at the exchange when the reward
/// has arrived there, and hands them to the step that swaps it.
pub open spec fn reward_sent_plan(current: Seq<char>, farm_id: Seq<char>) -> Seq<Seq<CallView>> {
    seq![
        seq![
            to_exchange(
                RefExchangeView::GetDeposits { account_id: current },
                1,
                9_000_000_000_000,
            ),
            to_vault(current, VaultContractView::SwapToAuto { farm_id }, 0, 41_500_000_000_000),
        ],
    ]
}

/// The two swaps that turn half of `reward` each into one of the pool's
/// tokens. Neither waits for the other.
pub open spec fn swap_reward_plan(reward: u128) -> Seq<Seq<CallView>> {
    seq![
        seq![
            to_exchange(
                swap_of(
                    REWARD_TO_FIRST_POOL,
                    CONTRACT_ID_REF_TESTNET@,
                    reward / 2,
                    CONTRACT_ID_EHT_TESTNET@,
                ),
                1,
                15_000_000_000_000,
            ),
        ],
        seq![
            to_exchange(
                swap_of(
                    REWARD_TO_SECOND_POOL,
                    CONTRACT_ID_REF_TESTNET@,
                    reward / 2,
                    CONTRACT_ID_DAI_TESTNET@,
                ),
                1,
                15_000_000_000_000,
            ),
        ],
    ]
}

/// The chain that reads the vault's deposits at the exchange and hands them
/// to the step that adds them as liquidity.
pub open spec fn restake_plan(current: Seq<char>) -> Seq<Seq<CallView>> {
    seq![
        seq![
            to_exchange(
                RefExchangeView::GetDeposits { account_id: current },
                1,
                9_000_000_000_000,
            ),
            to_vault(
                current,
                VaultContractView::StakeAndLiquidityAuto {
                    account_id: current,
                    vault_contract: current,
                },
                LIQUIDITY_DEPOSIT,
                200_000_000_000_000,
            ),
        ],
    ]
}

/// The chain that settles a compound: liquidity is added; when that has
/// succeeded the pool's share count is read again; what it grew by is
/// distributed; and as much is staked.
pub open spec fn compound_plan(
    current: Seq<char>,
    account_id: Seq<char>,
    first: u128,
    second: u128,
) -> Seq<Seq<CallView>> {
    seq![
        seq![
            add_liquidity_call(first, second),
            to_vault(
                current,
                VaultContractView::CallGetPoolShares { pool_id: VAULT_POOL, account_id },
                0,
                18_000_000_000_000,
            ),
            to_vault(current, VaultContractView::CallbackToBalance, 0, 15_000_000_000_000),
            to_vault(current, VaultContractView::CallbackStake { account_id }, 0, 90_000_000_000_000),
        ],
    ]
}

/// The call that has the ledger distribute what the pool's share count
/// `pool_total` exceeds the recorded total by; none where it exceeds it by
/// nothing.
pub open spec fn distribution_plan(current: Seq<char>, pool_total: u128, increase: u128) -> Seq<
    Seq<CallView>,
> {
    if increase > 0 {
        seq![
            seq![
                to_vault(
                    current,
                    VaultContractView::BalanceActualization { shares: decimal_text(pool_total as nat) },
                    1,
                    5_000_000_000_000,
                ),
            ],
        ]
    } else {
        Seq::<Seq<CallView>>::empty()
    }
}

/// What is done with the balances that the vault holds at the exchange when
/// a reward has been swapped: what it holds of the pool's two tokens is added
/// as liquidity. Balances that do not name both tokens are malformed.
pub open spec fn compound_answer(
    current: Seq<char>,
    account_id: Seq<char>,
    balances: Map<Seq<char>, nat>,
) -> Result<Seq<Seq<CallView>>, VaultError> {
    match (
        balance_in(balances, CONTRACT_ID_EHT_TESTNET@),
        balance_in(balances, CONTRACT_ID_DAI_TESTNET@),
    ) {
        (Some(first), Some(second)) => Ok(compound_plan(current, account_id, first, second)),
        _ => Err(VaultError::MalformedResult),
    }
}

/// The vault after the reward that `balances` hold was swapped, beside the
/// calls to issue: half of it goes into each of the pool's tokens, and
/// nothing is kept under `farm_id` any more. Balances that do not name the
/// reward token are malformed.
pub open spec fn reward_swapped(s: VaultState, farm_id: Seq<char>, balances: Map<Seq<char>, nat>) -> Result<
    (VaultState, Seq<Seq<CallView>>),
    VaultError,
> {
    match balance_in(balances, CONTRACT_ID_REF_TESTNET@) {
        Some(reward) => Ok(
            (
                VaultState { rewards: assigned(s.rewards, farm_id, 0), ..s },
                swap_reward_plan(reward),
            ),
        ),
        None => Err(VaultError::MalformedResult),
    }
}

/// What the step that swaps the reward answers.
pub open spec fn swap_to_auto_answer(
    s: VaultState,
    ctx: CallContext,
    farm_id: Seq<char>,
    results: Seq<PromiseOutcome>,
) -> Result<(VaultState, Seq<Seq<CallView>>), VaultError> {
    match step_balances(s, ctx, results) {
        Err(e) => Err(e),
        Ok(balances) => reward_swapped(s, farm_id, balances),
    }
}

/// The vault after `amount` of claimed reward was put beside what is kept
/// under the reward key. Refused where the sum no longer fits.
pub open spec fn reward_kept(s: VaultState, amount: u128) -> Result<VaultState, VaultError> {
    if amount_of(s.rewards, REWARD_KEY@) + amount > u128::MAX {
        Err(VaultError::LedgerOverflow)
    } else {
        Ok(
            VaultState {
                rewards: assigned(
                    s.rewards,
                    REWARD_KEY@,
                    amount_of(s.rewards, REWARD_KEY@) + amount as nat,
                ),
                ..s
            },
        )
    }
}

/// The vault after the step that withdraws a claimed reward.
pub open spec fn reward_withdrawn(s: VaultState, ctx: CallContext, results: Seq<PromiseOutcome>) -> Result<
    (VaultState, u128),
    VaultError,
> {
    match step_amount(s, ctx, results) {
        Err(e) => Err(e),
        Ok(amount) => match reward_kept(s, amount) {
            Err(e) => Err(e),
            Ok(after) => Ok((after, amount)),
        },
    }
}

/// What the transfer of a kept reward answers: refused while paused, for
/// anyone who may not compound, and where nothing is kept under `farm_id`.
pub open spec fn auto_function_1_answer(s: VaultState, ctx: CallContext, farm_id: Seq<char>) -> Result<
    Seq<Seq<CallView>>,
    VaultError,
> {
    match entered_as_operator(s, ctx) {
        Err(e) => Err(e),
        Ok(_) => if !holds(s.rewards, farm_id) {
            Err(VaultError::NoBalance)
        } else {
            Ok(transfer_plan(ctx.current@, farm_id, amount_of(s.rewards, farm_id) as u128))
        },
    }
}

/// The vault after the ledger distributed what the pool's share count, given
/// as `shares` in decimal digits, exceeds the recorded total by. Refused
/// while paused, for anyone but the vault itself, for a text that spells no
/// number, and for a count below what the ledger has given out.
pub open spec fn actualized(s: VaultState, ctx: CallContext, shares: Seq<char>) -> Result<
    VaultState,
    VaultError,
> {
    match entered_as_vault(s, ctx) {
        Err(e) => Err(e),
        Ok(_) => match shares_of_text(Some(shares)) {
            Err(e) => Err(e),
            Ok(pool_total) => if pool_total < s.ledger.assigned() {
                Err(VaultError::LedgerUnderflow)
            } else {
                Ok(VaultState { ledger: s.ledger.compounded(pool_total as nat), ..s })
            },
        },
    }
}

impl Contract {
    /// Function to claim the reward from the farm contract.
    pub fn claim_reward(&self, ctx: &CallContext) -> (res: Result<Plan, VaultError>)
        ensures
            match res {
                Ok(plan) => entered_as_operator(self@, *ctx) is Ok && plan_view(plan@)
                    == claim_plan(),
                Err(e) => entered_as_operator(self@, *ctx) == Err::<(), VaultError>(e),
            },
    {
        match self.enter_as_operator(ctx) {
            Err(e) => {
                return Err(e);
            },
            Ok(_) => {},
        }
        let claim = farm_call(
            FluxusFarming::ClaimRewardBySeed { seed_id: String::from_str(FARM_SEED) },
            0,
            40_000_000_000_000,
        );
        Ok(plan_of_1(chain_of_1(claim)))
    }

    /// Function to claim the reward from the farm contract: reads what the
    /// farm holds of the reward token for the vault and has it withdrawn.
    pub fn withdraw_of_reward(&self, ctx: &CallContext) -> (res: Result<Plan, VaultError>)
        ensures
            match res {
                Ok(plan) => entered_as_operator(self@, *ctx) is Ok && plan_view(plan@)
                    == reward_plan(ctx.current@),
                Err(e) => entered_as_operator(self@, *ctx) == Err::<(), VaultError>(e),
            },
    {
        match self.enter_as_operator(ctx) {
            Err(e) => {
                return Err(e);
            },
            Ok(_) => {},
        }
        let read_reward = farm_call(
            FluxusFarming::GetReward {
                account_id: ctx.current.clone(),
                token_id: String::from_str(CONTRACT_ID_REF_TESTNET),
            },
            1,
            3_000_000_000_000,
        );
        let withdraw = vault_call(
            &ctx.current,
            VaultContract::CallbackWithdrawRewards {
                token_id: String::from_str(CONTRACT_ID_REF_TESTNET),
            },
            1,
            190_000_000_000_000,
        );
        Ok(plan_of_1(chain_of_2(read_reward, withdraw)))
    }

    /// Get the reward claimed and withdraw it: resumes with the amount that
    /// the farm holds for the vault, has it withdrawn, and keeps it beside
    /// what is left of earlier claims. Answers the amount beside the call to
    /// issue.
    pub fn callback_withdraw_rewards(
        &mut self,
        ctx: &CallContext,
        token_id: &String,
        results: &Vec<PromiseOutcome>,
    ) -> (res: Result<(u128, Plan), VaultError>)
        requires
            old(self).wf(),
        ensures
            final(self).wf(),
            match res {
                Ok(reply) => reward_withdrawn(old(self)@, *ctx, results@) == Ok::<
                    (VaultState, u128),
                    VaultError,
                >((final(self)@, reply.0)) && plan_view(reply.1@) == seq![
                    seq![withdraw_reward_call(token_id@, reply.0)],
                ],
                Err(e) => reward_withdrawn(old(self)@, *ctx, results@) == Err::<
                    (VaultState, u128),
                    VaultError,
                >(e) && *final(self) == *old(self),
            },
    {
        let amount: u128 = match self.enter_step_with_amount(ctx, results) {
            Err(e) => {
                return Err(e);
            },
            Ok(n) => n,
        };
        match self.keep_reward(token_id, amount) {
            Err(e) => Err(e),
            Ok(plan) => Ok((amount, plan)),
        }
    }

    /// Has `amount` of `token_id` withdrawn from the farm and keeps it beside
    /// what is left of earlier claims. Refused where the sum no longer fits.
    pub fn keep_reward(&mut self, token_id: &String, amount: u128) -> (res: Result<
        Plan,
        VaultError,
    >)
        requires
            old(self).wf(),
        ensures
            final(self).wf(),
            match res {
                Ok(plan) => reward_kept(old(self)@, amount) == Ok::<VaultState, VaultError>(
                    final(self)@,
                ) && plan_view(plan@) == seq![seq![withdraw_reward_call(token_id@, amount)]],
                Err(e) => reward_kept(old(self)@, amount) == Err::<VaultState, VaultError>(e)
                    && *final(self) == *old(self),
            },
    {
        let key = String::from_str(REWARD_KEY);
        let residue: u128 = lookup(&self.last_reward_amount, &key);
        if amount > u128::MAX - residue {
            return Err(VaultError::LedgerOverflow);
        }
        assign(&mut self.last_reward_amount, &key, residue + amount);
        let withdraw = farm_call(
            FluxusFarming::WithdrawReward {
                token_id: token_id.clone(),
                amount,
                unregister: String::from_str("false"),
            },
            1,
            180_000_000_000_000,
        );
        Ok(plan_of_1(chain_of_1(withdraw)))
    }

    /// Transfer lp tokens to ref-exchange then swap the amount the contract
    /// has in the exchange: sends what is kept under `farm_id` of the reward
    /// token to the exchange and has it swapped.
    pub fn auto_function_1(&self, ctx: &CallContext, farm_id: &String) -> (res: Result<
        Plan,
        VaultError,
    >)
        ensures
            match res {
                Ok(plan) => auto_function_1_answer(self@, *ctx, farm_id@) == Ok::<
                    Seq<Seq<CallView>>,
                    VaultError,
                >(plan_view(plan@)),
                Err(e) => auto_function_1_answer(self@, *ctx, farm_id@) == Err::<
                    Seq<Seq<CallView>>,
                    VaultError,
                >(e),
            },
    {
        match self.enter_as_operator(ctx) {
            Err(e) => {
                return Err(e);
            },
            Ok(_) => {},
        }
        if find_row(&self.last_reward_amount, farm_id).is_none() {
            return Err(VaultError::NoBalance);
        }
        let amount: u128 = lookup(&self.last_reward_amount, farm_id);
        let transfer = reward_token_call(
            ExtRefFakes::FtTransferCall {
                receiver_id: String::from_str(CONTRACT_ID_REF_EXC),
                amount: amount_text(amount),
                msg: String::from_str(""),
            },
            1,
            45_000_000_000_000,
        );
        let next = vault_call(
            &ctx.current,
            VaultContract::CallbackRewardSent { farm_id: farm_id.clone() },
            0,
            60_000_000_000_000,
        );
        Ok(plan_of_1(chain_of_2(transfer, next)))
    }

    /// Resumes when the reward has been sent to the exchange, and has the
    /// vault's deposits there read. A transfer that failed ends the compound.
    pub fn callback_reward_sent(
        &self,
        ctx: &CallContext,
        farm_id: &String,
        results: &Vec<PromiseOutcome>,
    ) -> (res: Result<Plan, VaultError>)
        ensures
            plan_answer(res) == then_plan(
                self@,
                *ctx,
                results@,
                reward_sent_plan(ctx.current@, farm_id@),
            ),
    {
        match self.enter_step(ctx, results) {
            Err(e) => Err(e),
            Ok(_) => {
                let read_deposits = exchange_call(
                    RefExchange::GetDeposits { account_id: ctx.current.clone() },
                    1,
                    9_000_000_000_000,
                );
                let swap = vault_call(
                    &ctx.current,
                    VaultContract::SwapToAuto { farm_id: farm_id.clone() },
                    0,
                    41_500_000_000_000,
                );
                Ok(plan_of_1(chain_of_2(read_deposits, swap)))
            },
        }
    }

    /// Swap the auto-compound rewards to ETH and DAI: resumes with the
    /// vault's deposits at the exchange, swaps half of what it holds of the
    /// reward token into each of the pool's tokens, and keeps nothing under
    /// `farm_id` any more. Deposits that do not name the reward token are
    /// malformed.
    pub fn swap_to_auto(&mut self, ctx: &CallContext, farm_id: &String, results: &Vec<PromiseOutcome>) -> (res:
        Result<Plan, VaultError>)
        requires
            old(self).wf(),
        ensures
            final(self).wf(),
            match res {
                Ok(plan) => swap_to_auto_answer(old(self)@, *ctx, farm_id@, results@) == Ok::<
                    (VaultState, Seq<Seq<CallView>>),
                    VaultError,
                >((final(self)@, plan_view(plan@))),
                Err(e) => swap_to_auto_answer(old(self)@, *ctx, farm_id@, results@) == Err::<
                    (VaultState, Seq<Seq<CallView>>),
                    VaultError,
                >(e) && *final(self) == *old(self),
            },
    {
        match self.enter_step_with_balances(ctx, results) {
            Err(e) => Err(e),
            Ok(rows) => self.swap_reward(farm_id, &rows),
        }
    }

    /// Swaps half of what `balances` hold of the reward token into each of
    /// the pool's tokens, and keeps nothing under `farm_id` any more.
    /// Balances that do not name the reward token are malformed.
    pub fn swap_reward(&mut self, farm_id: &String, balances: &Vec<Holding>) -> (res: Result<
        Plan,
        VaultError,
    >)
        requires
            old(self).wf(),
        ensures
            final(self).wf(),
            match res {
                Ok(plan) => reward_swapped(old(self)@, farm_id@, as_map(table_of(balances@)))
                    == Ok::<(VaultState, Seq<Seq<CallView>>), VaultError>(
                    (final(self)@, plan_view(plan@)),
                ),
                Err(e) => reward_swapped(old(self)@, farm_id@, as_map(table_of(balances@)))
                    == Err::<(VaultState, Seq<Seq<CallView>>), VaultError>(e) && *final(self)
                    == *old(self),
            },
    {
        let reward: u128 = match balance_of(balances, CONTRACT_ID_REF_TESTNET) {
            Some(n) => n,
            None => {
                return Err(VaultError::MalformedResult);
            },
        };
        let swap_first = exchange_call(
            single_swap(
                REWARD_TO_FIRST_POOL,
                CONTRACT_ID_REF_TESTNET,
                reward / 2,
                CONTRACT_ID_EHT_TESTNET,
            ),
            1,
            15_000_000_000_000,
        );
        let swap_second = exchange_call(
            single_swap(
                REWARD_TO_SECOND_POOL,
                CONTRACT_ID_REF_TESTNET,
                reward / 2,
                CONTRACT_ID_DAI_TESTNET,
            ),
            1,
            15_000_000_000_000,
        );
        assign(&mut self.last_reward_amount, farm_id, 0);
        Ok(plan_of_2(chain_of_1(swap_first), chain_of_1(swap_second)))
    }

    /// Get amount of tokens available then stake it: reads the vault's
    /// deposits at the exchange and has them added as liquidity.
    pub fn auto_function_2(&self, ctx: &CallContext) -> (res: Result<Plan, VaultError>)
        ensures
            match res {
                Ok(plan) => entered_as_operator(self@, *ctx) is Ok && plan_view(plan@)
                    == restake_plan(ctx.current@),
                Err(e) => entered_as_operator(self@, *ctx) == Err::<(), VaultError>(e),
            },
    {
        match self.enter_as_operator(ctx) {
            Err(e) => {
                return Err(e);
            },
            Ok(_) => {},
        }
        let read_deposits = exchange_call(
            RefExchange::GetDeposits { account_id: ctx.current.clone() },
            1,
            9_000_000_000_000,
        );
        let add = vault_call(
            &ctx.current,
            VaultContract::StakeAndLiquidityAuto {
                account_id: ctx.current.clone(),
                vault_contract: ctx.current.clone(),
            },
            LIQUIDITY_DEPOSIT,
            200_000_000_000_000,
        );
        Ok(plan_of_1(chain_of_2(read_deposits, add)))
    }

    /// Auto-compound function. Responsible to add liquidity and stake:
    /// resumes with the vault's deposits at the exchange and adds what it
    /// holds of the pool's two tokens as liquidity. Deposits that do not name
    /// both tokens are malformed.
    pub fn stake_and_liquidity_auto(
        &self,
        ctx: &CallContext,
        account_id: &String,
        vault_contract: &String,
        results: &Vec<PromiseOutcome>,
    ) -> (res: Result<Plan, VaultError>)
        ensures
            plan_answer(res) == (match step_balances(self@, *ctx, results@) {
                Err(e) => Err::<Seq<Seq<CallView>>, VaultError>(e),
                Ok(balances) => compound_answer(ctx.current@, account_id@, balances),
            }),
    {
        match self.enter_step_with_balances(ctx, results) {
            Err(e) => Err(e),
            Ok(rows) => liquidity_of_compound(&ctx.current, account_id, &rows),
        }
    }

    /// Read shares for each account registered: resumes with the pool's share
    /// count and, where it exceeds the recorded total, has the ledger
    /// distribute the increase. Answers the increase in decimal digits, which
    /// is what the next step stakes, beside the call to issue.
    pub fn callback_to_balance(&self, ctx: &CallContext, results: &Vec<PromiseOutcome>) -> (res:
        Result<(String, Plan), VaultError>)
        ensures
            match res {
                Ok(reply) => step_shares(self@, *ctx, results@) matches Ok(pool_total) && reply.0@
                    == decimal_text(self@.ledger.increase(pool_total as nat)) && plan_view(
                    reply.1@,
                ) == distribution_plan(
                    ctx.current@,
                    pool_total,
                    self@.ledger.increase(pool_total as nat) as u128,
                ),
                Err(e) => step_shares(self@, *ctx, results@) == Err::<u128, VaultError>(e),
            },
    {
        match self.enter_step_with_shares(ctx, results) {
            Err(e) => Err(e),
            Ok(pool_total) => Ok(self.distribution(&ctx.current, pool_total)),
        }
    }

    /// What is to be done when the pool reports `pool_total` shares after a
    /// compound: where that exceeds the recorded total, the ledger is to
    /// distribute the increase. Answers the increase in decimal digits beside
    /// the call to issue.
    pub fn distribution(&self, current: &String, pool_total: u128) -> (reply: (String, Plan))
        ensures
            reply.0@ == decimal_text(self@.ledger.increase(pool_total as nat)),
            plan_view(reply.1@) == distribution_plan(
                current@,
                pool_total,
                self@.ledger.increase(pool_total as nat) as u128,
            ),
    {
        let recorded: u128 = self.ledger.vault_total();
        let increase: u128 = if pool_total > recorded {
            pool_total - recorded
        } else {
            0
        };
        let plan = if increase > 0 {
            let distribute = vault_call(
                current,
                VaultContract::BalanceActualization { shares: amount_text(pool_total) },
                1,
                5_000_000_000_000,
            );
            plan_of_1(chain_of_1(distribute))
        } else {
            no_plan()
        };
        (amount_text(increase), plan)
    }

    /// Update user balances based on the user's percentage in the Vault:
    /// records the pool's share count `shares` and distributes what it
    /// exceeds the recorded total by over all depositors, in proportion to
    /// their holdings, each part rounded down.
    pub fn balance_actualization(&mut self, ctx: &CallContext, shares: &String) -> (res: Result<
        (),
        VaultError,
    >)
        requires
            old(self).wf(),
        ensures
            final(self).wf(),
            match res {
                Ok(_) => actualized(old(self)@, *ctx, shares@) == Ok::<VaultState, VaultError>(
                    final(self)@,
                ),
                Err(e) => actualized(old(self)@, *ctx, shares@) == Err::<VaultState, VaultError>(e)
                    && *final(self) == *old(self),
            },
    {
        match self.enter_as_vault(ctx) {
            Err(e) => {
                return Err(e);
            },
            Ok(_) => {},
        }
        let pool_total: u128 = match parse_amount(shares) {
            Some(n) => n,
            None => {
                return Err(VaultError::MalformedResult);
            },
        };
        match self.ledger.rebase_all(pool_total) {
            Ok(_) => Ok(()),
            Err(e) => Err(e),
        }
    }
}

/// What the vault `current` does with the balances that it holds at the
/// exchange when a reward has been swapped: it adds what it holds of the
/// pool's two tokens as liquidity and has the compound settled. Balances that
/// do not name both tokens are malformed.
pub fn liquidity_of_compound(current: &String, account_id: &String, balances: &Vec<Holding>) -> (res:
    Result<Plan, VaultError>)
    ensures
        plan_answer(res) == compound_answer(current@, account_id@, as_map(table_of(balances@))),
{
    let first: u128 = match balance_of(balances, CONTRACT_ID_EHT_TESTNET) {
        Some(n) => n,
        None => {
            return Err(VaultError::MalformedResult);
        },
    };
    let second: u128 = match balance_of(balances, CONTRACT_ID_DAI_TESTNET) {
        Some(n) => n,
        None => {
            return Err(VaultError::MalformedResult);
        },
    };
    let read_shares = vault_call(
        current,
        VaultContract::CallGetPoolShares { pool_id: VAULT_POOL, account_id: account_id.clone() },
        0,
        18_000_000_000_000,
    );
    let distribute = vault_call(current, VaultContract::CallbackToBalance, 0, 15_000_000_000_000);
    let stake_it = vault_call(
        current,
        VaultContract::CallbackStake { account_id: account_id.clone() },
        0,
        90_000_000_000_000,
    );
    Ok(plan_of_1(chain_of_4(add_liquidity(first, second), read_shares, distribute, stake_it)))
}

} // verus!

//! The deposit workflow: a depositor's available balance is swapped into the
//! pool's two tokens, added as liquidity, credited as shares and staked.
//!
//! A deposit leaves the idle state when the depositor asks for it and comes
//! back to it through these states, one after the other: shares queried (the
//! pool's share count is read as the count before), swapped (first one half,
//! then the other went into one of the pool's tokens), liquidity added (what
//! the swaps gave was read back and put into the pool), shares refreshed (the
//! share count is read again, recorded, and what it grew by goes to the
//! depositor), staked (what was credited is staked in the farm).
//!
//! Each remote call is asked for by the step in which the call before it
//! ended, so nothing starts before what it depends on has returned, and a
//! call that failed ends the deposit there; what earlier steps did stays done.
//! What a step needs of the steps before it (the depositor, the amount, the
//! count before) travels with the call that enters it and is kept nowhere.
//! Deposits of different depositors may run side by side, step by step.

use vstd::prelude::*;
use vstd::string::StringExecFns;
use crate::calls::{
    chain_of_1, chain_of_2, chain_of_4, chain_view, exchange_call, pair_of, plan_of_1, plan_view,
    single_swap, swap_of, to_exchange, to_vault, to_wrap, vault_call, wrap_call, Call, CallView,
    Plan, RefExchange, RefExchangeView, Request, RequestView, VaultContract, VaultContractView,
    Wrapnear, WrapnearView, CONTRACT_ID_DAI_TESTNET, CONTRACT_ID_EHT_TESTNET, CONTRACT_ID_FARM,
    CONTRACT_ID_WRAP_TESTNET, LIQUIDITY_DEPOSIT, POOL_TOKEN, VAULT_POOL, WRAP_TO_FIRST_POOL,
    WRAP_TO_SECOND_POOL,
};
use crate::codec::{balance_in, balance_of};
use crate::contract::{
    available, available_of, entered_as, gate, step_balances, step_done, step_shares,
    AccountSnapshot, Contract, VaultState,
};
use crate::decimal::{amount_text, decimal_text};
use crate::errors::VaultError;
use crate::holdings::{as_map, table_of, Holding};
use crate::sequencer::{CallContext, PromiseOutcome};

verus! {

/// What the vault asks of the balance store.
#[derive(Clone, PartialEq, Eq, Debug)]
pub enum BalanceOrder {
    /// Take `amount` of the native token from what `account_id` may spend.
    Debit { account_id: String, amount: u128 },
    /// Add `amount` of the native token to what `account_id` may spend.
    Credit { account_id: String, amount: u128 },
    /// Add `amount` of `token_id` to the balance of `account_id`.
    Deposit { account_id: String, token_id: String, amount: u128 },
}

/// The view of an order to the balance store.
pub enum BalanceOrderView {
    Debit { account_id: Seq<char>, amount: u128 },
    Credit { account_id: Seq<char>, amount: u128 },
    Deposit { account_id: Seq<char>, token_id: Seq<char>, amount: u128 },
}

impl View for BalanceOrder {
    type V = BalanceOrderView;

    open spec fn view(&self) -> BalanceOrderView {
        match *self {
            BalanceOrder::Debit { account_id, amount } => BalanceOrderView::Debit {
                account_id: account_id@,
                amount,
            },
            BalanceOrder::Credit { account_id, amount } => BalanceOrderView::Credit {
                account_id: account_id@,
                amount,
            },
            BalanceOrder::Deposit { account_id, token_id, amount } => BalanceOrderView::Deposit {
                account_id: account_id@,
                token_id: token_id@,
                amount,
            },
        }
    }
}

/// The chain with which a deposit of `amount` starts: the pool's share count
/// is read and handed to the step that takes it as the count before.
pub open spec fn query_plan(
    current: Seq<char>,
    account_id: Seq<char>,
    vault_contract: Seq<char>,
    amount: u128,
) -> Seq<Seq<CallView>> {
    seq![
        seq![
            to_exchange(
                RefExchangeView::GetPoolShares { pool_id: VAULT_POOL, account_id: vault_contract },
                0,
                10_000_000_000_000,
            ),
            to_vault(
                current,
                VaultContractView::CallbackSharesQueried { account_id, vault_contract, amount },
                0,
                260_000_000_000_000,
            ),
        ],
    ]
}

/// The chain that swaps the first half of `amount` from the wrapped native
/// token into the pool's first token, whatever it gives, and hands on to the
/// step that swaps the second.
pub open spec fn first_swap_plan(
    current: Seq<char>,
    account_id: Seq<char>,
    vault_contract: Seq<char>,
    amount: u128,
    baseline: u128,
) -> Seq<Seq<CallView>> {
    seq![
        seq![
            to_exchange(
                swap_of(
                    WRAP_TO_FIRST_POOL,
                    CONTRACT_ID_WRAP_TESTNET@,
                    amount / 2,
                    CONTRACT_ID_EHT_TESTNET@,
                ),
                1,
                15_000_000_000_000,
            ),
            to_vault(
                current,
                VaultContractView::CallbackFirstSwapped {
                    account_id,
                    vault_contract,
                    amount,
                    baseline,
                },
                0,
                240_000_000_000_000,
            ),
        ],
    ]
}

/// The chain that swaps the second half of `amount` from the wrapped native
/// token into the pool's second token, whatever it gives, and hands on to the
/// step that takes `amount` from the depositor's balance.
pub open spec fn second_swap_plan(
    current: Seq<char>,
    account_id: Seq<char>,
    vault_contract: Seq<char>,
    amount: u128,
    baseline: u128,
) -> Seq<Seq<CallView>> {
    seq![
        seq![
            to_exchange(
                swap_of(
                    WRAP_TO_SECOND_POOL,
                    CONTRACT_ID_WRAP_TESTNET@,
                    amount / 2,
                    CONTRACT_ID_DAI_TESTNET@,
                ),
                1,
                15_000_000_000_000,
            ),
            to_vault(
                current,
                VaultContractView::AddNearBalance {
                    account_id,
                    vault_contract,
                    amount_available: amount,
                    baseline,
                },
                0,
                220_000_000_000_000,
            ),
        ],
    ]
}

/// The chain that reads what the swaps gave: the vault's deposits at the
/// exchange are read and handed to the step that adds them as liquidity.
pub open spec fn read_back_plan(
    current: Seq<char>,
    account_id: Seq<char>,
    vault_contract: Seq<char>,
    baseline: u128,
) -> Seq<Seq<CallView>> {
    seq![
        seq![
            to_exchange(
                RefExchangeView::GetDeposits { account_id: vault_contract },
                1,
                15_000_000_000_000,
            ),
            to_vault(
                current,
                VaultContractView::CallbackStakeLiquidity { account_id, vault_contract, baseline },
                LIQUIDITY_DEPOSIT,
                200_000_000_000_000,
            ),
        ],
    ]
}

/// The call that adds `second` and `first` of the pool's tokens as liquidity.
pub open spec fn add_liquidity_call(first: u128, second: u128) -> CallView {
    to_exchange(
        RefExchangeView::AddLiquidity {
            pool_id: VAULT_POOL,
            amounts: seq![second, first],
            min_amounts: None,
        },
        LIQUIDITY_DEPOSIT,
        30_000_000_000_000,
    )
}

/// The chain that settles a deposit: liquidity is added; when that has
/// succeeded the pool's share count is read again; what it grew by over
/// `baseline` is credited to `account_id`; and what was credited is staked.
pub open spec fn settle_plan(
    current: Seq<char>,
    account_id: Seq<char>,
    vault_contract: Seq<char>,
    baseline: u128,
    first: u128,
    second: u128,
) -> Seq<Seq<CallView>> {
    seq![
        seq![
            add_liquidity_call(first, second),
            to_vault(
                current,
                VaultContractView::CallGetPoolShares {
                    pool_id: VAULT_POOL,
                    account_id: vault_contract,
                },
                0,
                18_000_000_000_000,
            ),
            to_vault(
                current,
                VaultContractView::CallbackUpdateUserBalance { account_id, baseline },
                0,
                5_000_000_000_000,
            ),
            to_vault(current, VaultContractView::CallbackStake { account_id }, 0, 90_000_000_000_000),
        ],
    ]
}

/// The call that stakes `amount` of the pool's liquidity token in the farm.
pub open spec fn stake_call(amount: u128) -> CallView {
    to_exchange(
        RefExchangeView::MftTransferCall {
            receiver_id: CONTRACT_ID_FARM@,
            token_id: POOL_TOKEN@,
            amount,
            msg: ""@,
        },
        1,
        75_000_000_000_000,
    )
}

/// The chain that wraps `amount` of the native token and sends it on to
/// `receiver_id` with `msg`.
pub open spec fn wrap_plan(receiver_id: Seq<char>, amount: u128, msg: Seq<char>) -> Seq<
    Seq<CallView>,
> {
    seq![
        seq![
            to_wrap(WrapnearView::NearDeposit, amount, 5_000_000_000_000),
            to_wrap(
                WrapnearView::FtTransferCall {
                    receiver_id,
                    amount: decimal_text(amount as nat),
                    msg,
                },
                1,
                45_000_000_000_000,
            ),
        ],
    ]
}

/// The call in which the vault `current` asks itself for its metadata.
pub open spec fn metadata_call(current: Seq<char>) -> CallView {
    CallView {
        receiver: current,
        request: RequestView::Exchange(RefExchangeView::Metadata),
        deposit: 0,
        gas: 5_000_000_000_000,
    }
}

/// What starting a deposit answers: refused while paused, for anyone but the
/// depositor, and for a depositor with nothing available; else the chain of
/// `query_plan` for all that is available.
pub open spec fn add_to_vault_answer(
    s: VaultState,
    ctx: CallContext,
    account_id: Seq<char>,
    vault_contract: Seq<char>,
    available: u128,
) -> Result<Seq<Seq<CallView>>, VaultError> {
    match entered_as(s, ctx, account_id) {
        Err(e) => Err(e),
        Ok(_) => if available == 0 {
            Err(VaultError::NoBalance)
        } else {
            Ok(query_plan(ctx.current@, account_id, vault_contract, available))
        },
    }
}

/// What wrapping answers: refused as a deposit is; else the calls of
/// `wrap_plan` for all that is available.
pub open spec fn near_to_wrap_answer(
    s: VaultState,
    ctx: CallContext,
    account_id: Seq<char>,
    receiver_id: Seq<char>,
    msg: Seq<char>,
    available: u128,
) -> Result<Seq<Seq<CallView>>, VaultError> {
    match entered_as(s, ctx, account_id) {
        Err(e) => Err(e),
        Ok(_) => if available == 0 {
            Err(VaultError::NoBalance)
        } else {
            Ok(wrap_plan(receiver_id, available, msg))
        },
    }
}

/// What the step answers that takes the pool's share count before a deposit:
/// the count it resumes with travels on as the baseline, and the first swap
/// is asked for. Nothing is recorded and nobody is credited.
pub open spec fn callback_shares_queried_answer(
    s: VaultState,
    ctx: CallContext,
    account_id: Seq<char>,
    vault_contract: Seq<char>,
    amount: u128,
    results: Seq<PromiseOutcome>,
) -> Result<Seq<Seq<CallView>>, VaultError> {
    match step_shares(s, ctx, results) {
        Err(e) => Err(e),
        Ok(baseline) => Ok(
            first_swap_plan(ctx.current@, account_id, vault_contract, amount, baseline),
        ),
    }
}

/// What the step answers that follows the first swap: where the swap
/// succeeded, the second is asked for.
pub open spec fn callback_first_swapped_answer(
    s: VaultState,
    ctx: CallContext,
    account_id: Seq<char>,
    vault_contract: Seq<char>,
    amount: u128,
    baseline: u128,
    results: Seq<PromiseOutcome>,
) -> Result<Seq<Seq<CallView>>, VaultError> {
    match step_done(s, ctx, results) {
        Err(e) => Err(e),
        Ok(_) => Ok(second_swap_plan(ctx.current@, account_id, vault_contract, amount, baseline)),
    }
}

/// What the step answers that follows the second swap: where the swap
/// succeeded, `amount_available` is taken from what the depositor may spend,
/// and what the swaps gave is read back.
pub open spec fn add_near_balance_answer(
    s: VaultState,
    ctx: CallContext,
    account_id: Seq<char>,
    vault_contract: Seq<char>,
    amount_available: u128,
    baseline: u128,
    results: Seq<PromiseOutcome>,
) -> Result<(BalanceOrderView, Seq<Seq<CallView>>), VaultError> {
    match step_done(s, ctx, results) {
        Err(e) => Err(e),
        Ok(_) => Ok(
            (
                BalanceOrderView::Debit { account_id, amount: amount_available },
                read_back_plan(ctx.current@, account_id, vault_contract, baseline),
            ),
        ),
    }
}

/// What is done with the balances that the vault holds at the exchange when
/// a deposit has been swapped: what it holds of the pool's two tokens is
/// added as liquidity. Balances that do not name both tokens are malformed.
pub open spec fn liquidity_answer(
    current: Seq<char>,
    account_id: Seq<char>,
    vault_contract: Seq<char>,
    baseline: u128,
    balances: Map<Seq<char>, nat>,
) -> Result<(Seq<u128>, Seq<Seq<CallView>>), VaultError> {
    match (
        balance_in(balances, CONTRACT_ID_EHT_TESTNET@),
        balance_in(balances, CONTRACT_ID_DAI_TESTNET@),
    ) {
        (Some(first), Some(second)) => Ok(
            (
                seq![second, first],
                settle_plan(current, account_id, vault_contract, baseline, first, second),
            ),
        ),
        _ => Err(VaultError::MalformedResult),
    }
}

/// What the step that adds liquidity answers: the two amounts, second token
/// first, beside the chain of `settle_plan` for them.
pub open spec fn callback_stake_liquidity_answer(
    s: VaultState,
    ctx: CallContext,
    account_id: Seq<char>,
    vault_contract: Seq<char>,
    baseline: u128,
    results: Seq<PromiseOutcome>,
) -> Result<(Seq<u128>, Seq<Seq<CallView>>), VaultError> {
    match step_balances(s, ctx, results) {
        Err(e) => Err(e),
        Ok(balances) => liquidity_answer(
            ctx.current@,
            account_id,
            vault_contract,
            baseline,
            balances,
        ),
    }
}

/// The vault after a deposit of `account_id` settled that found the pool at
/// `baseline` before its liquidity went in and at `pool_total` after, beside
/// what the depositor was credited: what the pool grew by in between.
/// Refused where the pool shrank in between, and where what it held before
/// does not cover what the ledger has given out.
pub open spec fn deposit_settled(
    s: VaultState,
    account_id: Seq<char>,
    baseline: u128,
    pool_total: u128,
) -> Result<(VaultState, u128), VaultError> {
    if pool_total < baseline {
        Err(VaultError::LedgerUnderflow)
    } else if baseline < s.ledger.assigned() {
        Err(VaultError::LedgerOverflow)
    } else {
        Ok(
            (
                VaultState {
                    ledger: s.ledger.deposited(account_id, baseline as nat, pool_total as nat),
                    ..s
                },
                (pool_total - baseline) as u128,
            ),
        )
    }
}

/// The vault after the step that reads the pool's share count when the
/// liquidity of a deposit has gone in.
pub open spec fn settled_deposit(
    s: VaultState,
    ctx: CallContext,
    account_id: Seq<char>,
    baseline: u128,
    results: Seq<PromiseOutcome>,
) -> Result<(VaultState, u128), VaultError> {
    match step_shares(s, ctx, results) {
        Err(e) => Err(e),
        Ok(pool_total) => deposit_settled(s, account_id, baseline, pool_total),
    }
}

impl Contract {
    /// Swap wnear added and stake it: starts the deposit of all that
    /// `account_id` has available. Answers `OK!` beside the calls to issue.
    pub fn add_to_vault(
        &self,
        ctx: &CallContext,
        account_id: &String,
        vault_contract: &String,
        account: Option<&AccountSnapshot>,
    ) -> (res: Result<(String, Plan), VaultError>)
        ensures
            match res {
                Ok(reply) => reply.0@ == "OK!"@ && add_to_vault_answer(
                    self@,
                    *ctx,
                    account_id@,
                    vault_contract@,
                    available_of(account),
                ) == Ok::<Seq<Seq<CallView>>, VaultError>(plan_view(reply.1@)),
                Err(e) => add_to_vault_answer(
                    self@,
                    *ctx,
                    account_id@,
                    vault_contract@,
                    available_of(account),
                ) == Err::<Seq<Seq<CallView>>, VaultError>(e),
            },
    {
        match self.enter_as(ctx, account_id) {
            Err(e) => {
                return Err(e);
            },
            Ok(_) => {},
        }
        let amount: u128 = available(account);
        if amount == 0 {
            return Err(VaultError::NoBalance);
        }
        let read_shares = exchange_call(
            RefExchange::GetPoolShares { pool_id: VAULT_POOL, account_id: vault_contract.clone() },
            0,
            10_000_000_000_000,
        );
        let take_baseline = vault_call(
            &ctx.current,
            VaultContract::CallbackSharesQueried {
                account_id: account_id.clone(),
                vault_contract: vault_contract.clone(),
                amount,
            },
            0,
            260_000_000_000_000,
        );
        Ok((String::from_str("OK!"), plan_of_1(chain_of_2(read_shares, take_baseline))))
    }

    /// Resumes with the pool's share count before the liquidity of a deposit
    /// goes in. The count travels on as the baseline of the deposit; nothing
    /// is recorded and nobody is credited. Asks for the first swap.
    pub fn callback_shares_queried(
        &self,
        ctx: &CallContext,
        account_id: &String,
        vault_contract: &String,
        amount: u128,
        results: &Vec<PromiseOutcome>,
    ) -> (res: Result<Plan, VaultError>)
        ensures
            match res {
                Ok(plan) => callback_shares_queried_answer(
                    self@,
                    *ctx,
                    account_id@,
                    vault_contract@,
                    amount,
                    results@,
                ) == Ok::<Seq<Seq<CallView>>, VaultError>(plan_view(plan@)),
                Err(e) => callback_shares_queried_answer(
                    self@,
                    *ctx,
                    account_id@,
                    vault_contract@,
                    amount,
                    results@,
                ) == Err::<Seq<Seq<CallView>>, VaultError>(e),
            },
    {
        match self.enter_step_with_shares(ctx, results) {
            Err(e) => Err(e),
            Ok(baseline) => Ok(first_swap(&ctx.current, account_id, vault_contract, amount, baseline)),
        }
    }

    /// Resumes when the first swap of a deposit has returned, and asks for
    /// the second. A swap that failed ends the deposit.
    pub fn callback_first_swapped(
        &self,
        ctx: &CallContext,
        account_id: &String,
        vault_contract: &String,
        amount: u128,
        baseline: u128,
        results: &Vec<PromiseOutcome>,
    ) -> (res: Result<Plan, VaultError>)
        ensures
            match res {
                Ok(plan) => callback_first_swapped_answer(
                    self@,
                    *ctx,
                    account_id@,
                    vault_contract@,
                    amount,
                    baseline,
                    results@,
                ) == Ok::<Seq<Seq<CallView>>, VaultError>(plan_view(plan@)),
                Err(e) => callback_first_swapped_answer(
                    self@,
                    *ctx,
                    account_id@,
                    vault_contract@,
                    amount,
                    baseline,
                    results@,
                ) == Err::<Seq<Seq<CallView>>, VaultError>(e),
            },
    {
        match self.enter_step(ctx, results) {
            Err(e) => Err(e),
            Ok(_) => Ok(second_swap(&ctx.current, account_id, vault_contract, amount, baseline)),
        }
    }

    /// Resumes when the second swap of a deposit has returned: has
    /// `amount_available` taken from what `account_id` may spend, and asks
    /// for what the swaps gave to be read back. For the vault itself only; a
    /// swap that failed ends the deposit and takes nothing.
    pub fn add_near_balance(
        &self,
        ctx: &CallContext,
        account_id: &String,
        vault_contract: &String,
        amount_available: u128,
        baseline: u128,
        results: &Vec<PromiseOutcome>,
    ) -> (res: Result<(BalanceOrder, Plan), VaultError>)
        ensures
            match res {
                Ok(reply) => add_near_balance_answer(
                    self@,
                    *ctx,
                    account_id@,
                    vault_contract@,
                    amount_available,
                    baseline,
                    results@,
                ) == Ok::<(BalanceOrderView, Seq<Seq<CallView>>), VaultError>(
                    (reply.0@, plan_view(reply.1@)),
                ),
                Err(e) => add_near_balance_answer(
                    self@,
                    *ctx,
                    account_id@,
                    vault_contract@,
                    amount_available,
                    baseline,
                    results@,
                ) == Err::<(BalanceOrderView, Seq<Seq<CallView>>), VaultError>(e),
            },
    {
        match self.enter_step(ctx, results) {
            Err(e) => Err(e),
            Ok(_) => Ok(
                (
                    BalanceOrder::Debit {
                        account_id: account_id.clone(),
                        amount: amount_available,
                    },
                    read_back(&ctx.current, account_id, vault_contract, baseline),
                ),
            ),
        }
    }

    /// Function to swap near to wnear and send it to ref: wraps all that
    /// `account_id` has available and sends it on to `receiver_id`.
    pub fn near_to_wrap(
        &self,
        ctx: &CallContext,
        account_id: &String,
        receiver_id: &String,
        msg: &String,
        account: Option<&AccountSnapshot>,
    ) -> (res: Result<Plan, VaultError>)
        ensures
            match res {
                Ok(plan) => near_to_wrap_answer(
                    self@,
                    *ctx,
                    account_id@,
                    receiver_id@,
                    msg@,
                    available_of(account),
                ) == Ok::<Seq<Seq<CallView>>, VaultError>(plan_view(plan@)),
                Err(e) => near_to_wrap_answer(
                    self@,
                    *ctx,
                    account_id@,
                    receiver_id@,
                    msg@,
                    available_of(account),
                ) == Err::<Seq<Seq<CallView>>, VaultError>(e),
            },
    {
        match self.enter_as(ctx, account_id) {
            Err(e) => {
                return Err(e);
            },
            Ok(_) => {},
        }
        let amount: u128 = available(account);
        if amount == 0 {
            return Err(VaultError::NoBalance);
        }
        let wrap = wrap_call(Wrapnear::NearDeposit, amount, 5_000_000_000_000);
        let send = wrap_call(
            Wrapnear::FtTransferCall {
                receiver_id: receiver_id.clone(),
                amount: amount_text(amount),
                msg: msg.clone(),
            },
            1,
            45_000_000_000_000,
        );
        Ok(plan_of_1(chain_of_2(wrap, send)))
    }

    /// Responsible to add liquidity and stake: resumes with the vault's
    /// deposits at the exchange and adds what it holds of the pool's two
    /// tokens as liquidity. Answers the two amounts, second token first,
    /// beside the calls to issue. Deposits that do not name both tokens are
    /// malformed.
    pub fn callback_stake_liquidity(
        &self,
        ctx: &CallContext,
        account_id: &String,
        vault_contract: &String,
        baseline: u128,
        results: &Vec<PromiseOutcome>,
    ) -> (res: Result<(Vec<u128>, Plan), VaultError>)
        ensures
            match res {
                Ok(reply) => callback_stake_liquidity_answer(
                    self@,
                    *ctx,
                    account_id@,
                    vault_contract@,
                    baseline,
                    results@,
                ) == Ok::<(Seq<u128>, Seq<Seq<CallView>>), VaultError>(
                    (reply.0@, plan_view(reply.1@)),
                ),
                Err(e) => callback_stake_liquidity_answer(
                    self@,
                    *ctx,
                    account_id@,
                    vault_contract@,
                    baseline,
                    results@,
                ) == Err::<(Seq<u128>, Seq<Seq<CallView>>), VaultError>(e),
            },
    {
        match self.enter_step_with_balances(ctx, results) {
            Err(e) => Err(e),
            Ok(rows) => liquidity_of_deposit(
                &ctx.current,
                account_id,
                vault_contract,
                baseline,
                &rows,
            ),
        }
    }

    /// Change the user_balance and the vault balance of lps/shares: resumes
    /// with the pool's share count when the liquidity of a deposit has gone
    /// in, records it, and credits `account_id` with what it grew by over
    /// `baseline`. Answers what was credited, in decimal digits.
    pub fn callback_update_user_balance(
        &mut self,
        ctx: &CallContext,
        account_id: &String,
        baseline: u128,
        results: &Vec<PromiseOutcome>,
    ) -> (res: Result<String, VaultError>)
        requires
            old(self).wf(),
        ensures
            final(self).wf(),
            match res {
                Ok(text) => settled_deposit(
                    old(self)@,
                    *ctx,
                    account_id@,
                    baseline,
                    results@,
                ) matches Ok(done) && final(self)@ == done.0 && text@ == decimal_text(
                    done.1 as nat,
                ),
                Err(e) => settled_deposit(old(self)@, *ctx, account_id@, baseline, results@)
                    == Err::<(VaultState, u128), VaultError>(e) && *final(self) == *old(self),
            },
    {
        let pool_total: u128 = match self.enter_step_with_shares(ctx, results) {
            Err(e) => {
                return Err(e);
            },
            Ok(n) => n,
        };
        match self.settle_deposit(account_id, baseline, pool_total) {
            Ok(delta) => Ok(amount_text(delta)),
            Err(e) => Err(e),
        }
    }

    /// Settles a deposit of `account_id` that found the pool at `baseline`
    /// before its liquidity went in and at `pool_total` after: records
    /// `pool_total` as the vault's shares and credits the depositor with what
    /// the pool grew by in between. Refused where the pool shrank in
    /// between, and where what it held before does not cover what the ledger
    /// has given out.
    pub fn settle_deposit(&mut self, account_id: &String, baseline: u128, pool_total: u128) -> (res:
        Result<u128, VaultError>)
        requires
            old(self).wf(),
        ensures
            final(self).wf(),
            match res {
                Ok(delta) => deposit_settled(old(self)@, account_id@, baseline, pool_total) == Ok::<
                    (VaultState, u128),
                    VaultError,
                >((final(self)@, delta)),
                Err(e) => deposit_settled(old(self)@, account_id@, baseline, pool_total) == Err::<
                    (VaultState, u128),
                    VaultError,
                >(e) && *final(self) == *old(self),
            },
    {
        proof {
            self.ledger.lemma_wf();
        }
        if pool_total < baseline {
            return Err(VaultError::LedgerUnderflow);
        }
        if baseline < self.ledger.assigned_total() {
            return Err(VaultError::LedgerOverflow);
        }
        let delta: u128 = pool_total - baseline;
        let recorded = self.ledger.refresh_total(pool_total);
        assert(recorded is Ok);
        let credit = self.ledger.credit_share(account_id, delta);
        assert(credit is Ok);
        Ok(delta)
    }

    /// Receives shares from auto-compound and stake it: resumes with a number
    /// of shares and stakes as many of the pool's liquidity token in the farm.
    pub fn callback_stake(
        &self,
        ctx: &CallContext,
        account_id: &String,
        results: &Vec<PromiseOutcome>,
    ) -> (res: Result<Plan, VaultError>)
        ensures
            match res {
                Ok(plan) => step_shares(self@, *ctx, results@) matches Ok(amount) && plan_view(
                    plan@,
                ) == seq![seq![stake_call(amount)]],
                Err(e) => step_shares(self@, *ctx, results@) == Err::<u128, VaultError>(e),
            },
    {
        match self.enter_step_with_shares(ctx, results) {
            Err(e) => Err(e),
            Ok(amount) => Ok(stake_shares(amount)),
        }
    }

    /// Callback on receiving tokens by this contract: has `amount` of the
    /// token that calls added to the balance of `sender_id`, and asks the
    /// vault for its metadata. Answers the order to the balance store, the
    /// call to issue and the amount that is handed back to the sender, which
    /// is nothing. Refused while paused.
    pub fn ft_on_transfer(&self, ctx: &CallContext, sender_id: &String, amount: u128, msg: &String) -> (res:
        Result<(BalanceOrder, Call, u128), VaultError>)
        ensures
            match res {
                Ok(reply) => gate(self@.state) is Ok && reply.0@ == (BalanceOrderView::Deposit {
                    account_id: sender_id@,
                    token_id: ctx.predecessor@,
                    amount,
                }) && reply.1@ == metadata_call(ctx.current@) && reply.2 == 0,
                Err(e) => gate(self@.state) == Err::<(), VaultError>(e),
            },
    {
        match self.assert_contract_running() {
            Err(e) => {
                return Err(e);
            },
            Ok(_) => {},
        }
        let order = BalanceOrder::Deposit {
            account_id: sender_id.clone(),
            token_id: ctx.predecessor.clone(),
            amount,
        };
        let metadata = Call {
            receiver: ctx.current.clone(),
            request: Request::Exchange(RefExchange::Metadata),
            deposit: 0,
            gas: 5_000_000_000_000,
        };
        Ok((order, metadata, 0))
    }
}

/// The chain of `first_swap_plan`.
pub fn first_swap(
    current: &String,
    account_id: &String,
    vault_contract: &String,
    amount: u128,
    baseline: u128,
) -> (plan: Plan)
    ensures
        plan_view(plan@) == first_swap_plan(
            current@,
            account_id@,
            vault_contract@,
            amount,
            baseline,
        ),
{
    let swap = exchange_call(
        single_swap(
            WRAP_TO_FIRST_POOL,
            CONTRACT_ID_WRAP_TESTNET,
            amount / 2,
            CONTRACT_ID_EHT_TESTNET,
        ),
        1,
        15_000_000_000_000,
    );
    let next = vault_call(
        current,
        VaultContract::CallbackFirstSwapped {
            account_id: account_id.clone(),
            vault_contract: vault_contract.clone(),
            amount,
            baseline,
        },
        0,
        240_000_000_000_000,
    );
    plan_of_1(chain_of_2(swap, next))
}

/// The chain of `second_swap_plan`.
pub fn second_swap(
    current: &String,
    account_id: &String,
    vault_contract: &String,
    amount: u128,
    baseline: u128,
) -> (plan: Plan)
    ensures
        plan_view(plan@) == second_swap_plan(
            current@,
            account_id@,
            vault_contract@,
            amount,
            baseline,
        ),
{
    let swap = exchange_call(
        single_swap(
            WRAP_TO_SECOND_POOL,
            CONTRACT_ID_WRAP_TESTNET,
            amount / 2,
            CONTRACT_ID_DAI_TESTNET,
        ),
        1,
        15_000_000_000_000,
    );
    let next = vault_call(
        current,
        VaultContract::AddNearBalance {
            account_id: account_id.clone(),
            vault_contract: vault_contract.clone(),
            amount_available: amount,
            baseline,
        },
        0,
        220_000_000_000_000,
    );
    plan_of_1(chain_of_2(swap, next))
}

/// The chain of `read_back_plan`.
pub fn read_back(current: &String, account_id: &String, vault_contract: &String, baseline: u128) -> (plan:
    Plan)
    ensures
        plan_view(plan@) == read_back_plan(current@, account_id@, vault_contract@, baseline),
{
    let read_deposits = exchange_call(
        RefExchange::GetDeposits { account_id: vault_contract.clone() },
        1,
        15_000_000_000_000,
    );
    let next = vault_call(
        current,
        VaultContract::CallbackStakeLiquidity {
            account_id: account_id.clone(),
            vault_contract: vault_contract.clone(),
            baseline,
        },
        LIQUIDITY_DEPOSIT,
        200_000_000_000_000,
    );
    plan_of_1(chain_of_2(read_deposits, next))
}

/// The call that adds `second` and `first` of the pool's tokens as liquidity.
pub fn add_liquidity(first: u128, second: u128) -> (call: Call)
    ensures
        call@ == add_liquidity_call(first, second),
{
    exchange_call(
        RefExchange::AddLiquidity {
            pool_id: VAULT_POOL,
            amounts: pair_of(second, first),
            min_amounts: None,
        },
        LIQUIDITY_DEPOSIT,
        30_000_000_000_000,
    )
}

/// What the vault `current` does with the balances that it holds at the
/// exchange when a deposit of `account_id` has been swapped: it adds what it
/// holds of the pool's two tokens as liquidity and has the deposit settled
/// against `baseline`. Answers the two amounts, second token first, beside
/// the calls to issue. Balances that do not name both tokens are malformed.
pub fn liquidity_of_deposit(
    current: &String,
    account_id: &String,
    vault_contract: &String,
    baseline: u128,
    balances: &Vec<Holding>,
) -> (res: Result<(Vec<u128>, Plan), VaultError>)
    ensures
        match res {
            Ok(reply) => liquidity_answer(
                current@,
                account_id@,
                vault_contract@,
                baseline,
                as_map(table_of(balances@)),
            ) == Ok::<(Seq<u128>, Seq<Seq<CallView>>), VaultError>((reply.0@, plan_view(reply.1@))),
            Err(e) => liquidity_answer(
                current@,
                account_id@,
                vault_contract@,
                baseline,
                as_map(table_of(balances@)),
            ) == Err::<(Seq<u128>, Seq<Seq<CallView>>), VaultError>(e),
        },
{
    let first: u128 = match balance_of(balances, CONTRACT_ID_EHT_TESTNET) {
        Some(n) => n,
        None => {
            return Err(VaultError::MalformedResult);
        },
    };
    let second: u128 = match balance_of(balances, CONTRACT_ID_DAI_TESTNET) {
        Some(n) => n,
        None => {
            return Err(VaultError::MalformedResult);
        },
    };
    let chain = settle_chain(current, account_id, vault_contract, baseline, first, second);
    Ok((pair_of(second, first), plan_of_1(chain)))
}

/// The one call that stakes `amount` of the pool's liquidity token in the
/// farm.
pub fn stake_shares(amount: u128) -> (plan: Plan)
    ensures
        plan_view(plan@) == seq![seq![stake_call(amount)]],
{
    plan_of_1(chain_of_1(stake(amount)))
}

/// The chain of `settle_plan`.
pub fn settle_chain(
    current: &String,
    account_id: &String,
    vault_contract: &String,
    baseline: u128,
    first: u128,
    second: u128,
) -> (chain: Vec<Call>)
    ensures
        seq![chain_view(chain@)] == settle_plan(
            current@,
            account_id@,
            vault_contract@,
            baseline,
            first,
            second,
        ),
{
    let read_shares = vault_call(
        current,
        VaultContract::CallGetPoolShares { pool_id: VAULT_POOL, account_id: vault_contract.clone() },
        0,
        18_000_000_000_000,
    );
    let credit = vault_call(
        current,
        VaultContract::CallbackUpdateUserBalance { account_id: account_id.clone(), baseline },
        0,
        5_000_000_000_000,
    );
    let stake_it = vault_call(
        current,
        VaultContract::CallbackStake { account_id: account_id.clone() },
        0,
        90_000_000_000_000,
    );
    chain_of_4(add_liquidity(first, second), read_shares, credit, stake_it)
}

/// The call that stakes `amount` of the pool's liquidity token in the farm.
pub fn stake(amount: u128) -> (call: Call)
    ensures
        call@ == stake_call(amount),
{
    exchange_call(
        RefExchange::MftTransferCall {
            receiver_id: String::from_str(CONTRACT_ID_FARM),
            token_id: String::from_str(POOL_TOKEN),
            amount,
            msg: String::from_str(""),
        },
        1,
        75_000_000_000_000,
    )
}

} // verus!

//! What holds of the vault as a whole.

use vstd::prelude::*;
use crate::calls::CallView;
use crate::compound::{actualized, auto_function_1_answer, reward_withdrawn, swap_to_auto_answer};
use crate::contract::{
    entered_as, entered_as_operator, entered_as_vault, gate, step_amount, step_balances, step_done,
    step_shares, then_plan, VaultState,
};
use crate::deposit::{
    add_near_balance_answer, add_to_vault_answer, callback_first_swapped_answer,
    callback_shares_queried_answer, callback_stake_liquidity_answer, near_to_wrap_answer,
    settled_deposit, BalanceOrderView,
};
use crate::errors::{ErrorKind, VaultError};
use crate::remote::while_running;
use crate::sequencer::{CallContext, PromiseOutcome};
use crate::state::RunningState;
use crate::withdraw::{
    callback_to_withdraw_answer, sub_near_balance_answer, swap_to_withdraw_all_answer, withdrawn,
};

verus! {

/// A paused vault refuses every entry point but the reads, whoever calls and
/// whatever the call carries: each of them answers `Paused`, which is a
/// failed precondition. Their contracts add that a refusal leaves the vault
/// as it was and asks for no call.
pub proof fn lemma_paused_refuses(
    s: VaultState,
    ctx: CallContext,
    account_id: Seq<char>,
    other_id: Seq<char>,
    text: Seq<char>,
    more_text: Seq<char>,
    amount: u128,
    baseline: u128,
    results: Seq<PromiseOutcome>,
    call: CallView,
    plan: Seq<Seq<CallView>>,
)
    requires
        s.state == RunningState::Paused,
    ensures
        VaultError::Paused.spec_kind() == ErrorKind::Precondition,
        gate(s.state) == Err::<(), VaultError>(VaultError::Paused),
        entered_as(s, ctx, account_id) == Err::<(), VaultError>(VaultError::Paused),
        entered_as_operator(s, ctx) == Err::<(), VaultError>(VaultError::Paused),
        entered_as_vault(s, ctx) == Err::<(), VaultError>(VaultError::Paused),
        step_done(s, ctx, results) == Err::<(), VaultError>(VaultError::Paused),
        step_shares(s, ctx, results) == Err::<u128, VaultError>(VaultError::Paused),
        step_amount(s, ctx, results) == Err::<u128, VaultError>(VaultError::Paused),
        step_balances(s, ctx, results) == Err::<Map<Seq<char>, nat>, VaultError>(
            VaultError::Paused,
        ),
        then_plan(s, ctx, results, plan) == Err::<Seq<Seq<CallView>>, VaultError>(
            VaultError::Paused,
        ),
        while_running(s.state, call) == Err::<CallView, VaultError>(VaultError::Paused),
        add_to_vault_answer(s, ctx, account_id, other_id, amount) == Err::<
            Seq<Seq<CallView>>,
            VaultError,
        >(VaultError::Paused),
        near_to_wrap_answer(s, ctx, account_id, other_id, text, amount) == Err::<
            Seq<Seq<CallView>>,
            VaultError,
        >(VaultError::Paused),
        callback_shares_queried_answer(s, ctx, account_id, other_id, amount, results) == Err::<
            Seq<Seq<CallView>>,
            VaultError,
        >(VaultError::Paused),
        callback_first_swapped_answer(s, ctx, account_id, other_id, amount, baseline, results)
            == Err::<Seq<Seq<CallView>>, VaultError>(VaultError::Paused),
        add_near_balance_answer(s, ctx, account_id, other_id, amount, baseline, results) == Err::<
            (BalanceOrderView, Seq<Seq<CallView>>),
            VaultError,
        >(VaultError::Paused),
        callback_stake_liquidity_answer(s, ctx, account_id, other_id, baseline, results) == Err::<
            (Seq<u128>, Seq<Seq<CallView>>),
            VaultError,
        >(VaultError::Paused),
        settled_deposit(s, ctx, account_id, baseline, results) == Err::<
            (VaultState, u128),
            VaultError,
        >(VaultError::Paused),
        withdrawn(s, ctx, text, more_text, other_id, account_id) == Err::<
            (VaultState, Seq<Seq<CallView>>),
            VaultError,
        >(VaultError::Paused),
        swap_to_withdraw_all_answer(s, ctx, results) == Err::<Seq<Seq<CallView>>, VaultError>(
            VaultError::Paused,
        ),
        callback_to_withdraw_answer(s, ctx, account_id, results) == Err::<
            (u128, Seq<Seq<CallView>>),
            VaultError,
        >(VaultError::Paused),
        sub_near_balance_answer(s, ctx, account_id, amount, results) == Err::<
            BalanceOrderView,
            VaultError,
        >(VaultError::Paused),
        reward_withdrawn(s, ctx, results) == Err::<(VaultState, u128), VaultError>(
            VaultError::Paused,
        ),
        auto_function_1_answer(s, ctx, text) == Err::<Seq<Seq<CallView>>, VaultError>(
            VaultError::Paused,
        ),
        swap_to_auto_answer(s, ctx, text, results) == Err::<
            (VaultState, Seq<Seq<CallView>>),
            VaultError,
        >(VaultError::Paused),
        actualized(s, ctx, text) == Err::<VaultState, VaultError>(VaultError::Paused),
{
}

/// A remote call that failed ends its workflow: the step that resumes after
/// it refuses, whatever it would have gone on with, and asks for no call.
pub proof fn lemma_failed_call_ends_chain(
    s: VaultState,
    ctx: CallContext,
    results: Seq<PromiseOutcome>,
    plan: Seq<Seq<CallView>>,
)
    requires
        results.len() == 1,
        results[0] is Failed,
    ensures
        step_done(s, ctx, results) is Err,
        step_shares(s, ctx, results) is Err,
        step_amount(s, ctx, results) is Err,
        step_balances(s, ctx, results) is Err,
        then_plan(s, ctx, results, plan) is Err,
        s.state == RunningState::Running && ctx.predecessor@ == ctx.current@ ==> then_plan(
            s,
            ctx,
            results,
            plan,
        ) == Err::<Seq<Seq<CallView>>, VaultError>(VaultError::RemoteCallFailed),
{
}

/// A withdrawal takes everything at once: after the first phase was entered
/// the depositor holds nothing, and entering it again is refused for want of
/// shares.
pub proof fn lemma_no_second_withdrawal(
    s: VaultState,
    ctx: CallContext,
    seed_id: Seq<char>,
    msg: Seq<char>,
    vault_contract: Seq<char>,
    account_id: Seq<char>,
)
    requires
        s.ledger.wf(),
        withdrawn(s, ctx, seed_id, msg, vault_contract, account_id) is Ok,
    ensures
        withdrawn(s, ctx, seed_id, msg, vault_contract, account_id)->Ok_0.0.ledger.share(
            account_id,
        ) == 0,
        withdrawn(
            withdrawn(s, ctx, seed_id, msg, vault_contract, account_id)->Ok_0.0,
            ctx,
            seed_id,
            msg,
            vault_contract,
            account_id,
        ) == Err::<(VaultState, Seq<Seq<CallView>>), VaultError>(VaultError::InsufficientShares),
{
    crate::ledger::lemma_debit_to_zero_idempotent(s.ledger, account_id);
}

} // verus!

use vault_contract::calls::{
    CONTRACT_ID_DAI_TESTNET, CONTRACT_ID_EHT_TESTNET, CONTRACT_ID_FARM, CONTRACT_ID_REF_EXC,
    CONTRACT_ID_REF_TESTNET, CONTRACT_ID_WRAP_TESTNET, REWARD_KEY,
};
use vault_contract::{
    AccountSnapshot, BalanceOrder, Call, CallContext, Contract, ExtRefFakes, FluxusFarming,
    Holding, PromiseOutcome, RefExchange, RefStorageState, Request, SwapAction, VaultContract,
    VaultError, Wrapnear,
};

const VAULT: &str = "vault.testnet";
const OWNER: &str = "owner.testnet";
const ALICE: &str = "alice.testnet";

const TGAS: u64 = 1_000_000_000_000;
const LIQUIDITY_DEPOSIT: u128 = 970_000_000_000_000_000_000;

fn s(text: &str) -> String {
    text.to_string()
}

fn from(predecessor: &str) -> CallContext {
    CallContext { predecessor: s(predecessor), current: s(VAULT) }
}

fn own() -> CallContext {
    from(VAULT)
}

fn returned(json: &str) -> Vec<PromiseOutcome> {
    vec![PromiseOutcome::Successful(json.as_bytes().to_vec())]
}

fn with_available(amount: u128) -> AccountSnapshot {
    AccountSnapshot {
        near_amount: amount + 7,
        storage_usage: 7,
        storage_available: amount,
        tokens: vec![Holding { id: s(CONTRACT_ID_WRAP_TESTNET), amount: 11 }],
    }
}

fn exchange(request: RefExchange, deposit: u128, gas: u64) -> Call {
    Call { receiver: s(CONTRACT_ID_REF_EXC), request: Request::Exchange(request), deposit, gas }
}

fn farm(request: FluxusFarming, deposit: u128, gas: u64) -> Call {
    Call { receiver: s(CONTRACT_ID_FARM), request: Request::Farm(request), deposit, gas }
}

fn wrap(request: Wrapnear, deposit: u128, gas: u64) -> Call {
    Call { receiver: s(CONTRACT_ID_WRAP_TESTNET), request: Request::Wrap(request), deposit, gas }
}

fn vault(request: VaultContract, deposit: u128, gas: u64) -> Call {
    Call { receiver: s(VAULT), request: Request::Vault(request), deposit, gas }
}

fn swap(pool_id: u64, token_in: &str, amount_in: u128, token_out: &str) -> Call {
    exchange(
        RefExchange::Swap {
            actions: vec![SwapAction {
                pool_id,
                token_in: s(token_in),
                amount_in: Some(amount_in),
                token_out: s(token_out),
                min_amount_out: 0,
            }],
            referral_id: None,
        },
        1,
        15 * TGAS,
    )
}

fn add_liquidity(first: u128, second: u128) -> Call {
    exchange(
        RefExchange::AddLiquidity { pool_id: 193, amounts: vec![second, first], min_amounts: None },
        LIQUIDITY_DEPOSIT,
        30 * TGAS,
    )
}

fn failed() -> Vec<PromiseOutcome> {
    vec![PromiseOutcome::Failed]
}

fn done() -> Vec<PromiseOutcome> {
    vec![PromiseOutcome::Successful(Vec::new())]
}

fn stake(amount: u128) -> Call {
    exchange(
        RefExchange::MftTransferCall {
            receiver_id: s(CONTRACT_ID_FARM),
            token_id: s(":193"),
            amount,
            msg: s(""),
        },
        1,
        75 * TGAS,
    )
}

// A vault in which `holder` holds `shares` of as many recorded.
fn vault_with(holder: &str, shares: u128) -> Contract {
    let mut v = Contract::new(s(OWNER), 0);
    let text = format!("\"{}\"", shares);
    assert_eq!(
        v.callback_update_user_balance(&own(), &s(holder), 0, &returned(&text)),
        Ok(shares.to_string())
    );
    v
}

#[test]
fn new_vault_runs_and_owes_nothing() {
    let v = Contract::new(s(OWNER), 17);
    assert_eq!(v.owner_id(), OWNER);
    assert_eq!(v.vault_shares(), 17);
    assert_eq!(v.running_state().to_string(), "Running");
    assert_eq!(v.assert_contract_running(), Ok(()));
    assert_eq!(v.get_user_shares(&s(ALICE)), None);
    assert!(v.get_whitelisted_tokens().is_empty());
    assert!(v.last_reward_amount().is_empty());
    assert!(v.ledger().entries().is_empty());
}

#[test]
fn deposit_starts_with_the_count_before() {
    let v = Contract::new(s(OWNER), 5_000_000);
    let account = with_available(1_000_001);
    let (answer, plan) =
        v.add_to_vault(&from(ALICE), &s(ALICE), &s(VAULT), Some(&account)).unwrap();
    assert_eq!(answer, "OK!");
    assert_eq!(
        plan,
        vec![vec![
            exchange(
                RefExchange::GetPoolShares { pool_id: 193, account_id: s(VAULT) },
                0,
                10 * TGAS
            ),
            vault(
                VaultContract::CallbackSharesQueried {
                    account_id: s(ALICE),
                    vault_contract: s(VAULT),
                    amount: 1_000_001
                },
                0,
                260 * TGAS
            ),
        ]]
    );
}

#[test]
fn deposit_runs_one_step_after_the_other() {
    let mut v = Contract::new(s(OWNER), 5_000_000);
    // shares queried: the count before travels on, nothing is recorded
    assert_eq!(
        v.callback_shares_queried(&own(), &s(ALICE), &s(VAULT), 1_000_001, &returned("\"5000000\"")),
        Ok(vec![vec![
            swap(356, CONTRACT_ID_WRAP_TESTNET, 500_000, CONTRACT_ID_EHT_TESTNET),
            vault(
                VaultContract::CallbackFirstSwapped {
                    account_id: s(ALICE),
                    vault_contract: s(VAULT),
                    amount: 1_000_001,
                    baseline: 5_000_000
                },
                0,
                240 * TGAS
            ),
        ]])
    );
    assert_eq!(v.get_user_shares(&s(ALICE)), None);
    assert_eq!(v.vault_shares(), 5_000_000);
    // the second swap follows the first
    assert_eq!(
        v.callback_first_swapped(&own(), &s(ALICE), &s(VAULT), 1_000_001, 5_000_000, &returned("\"7\"")),
        Ok(vec![vec![
            swap(231, CONTRACT_ID_WRAP_TESTNET, 500_000, CONTRACT_ID_DAI_TESTNET),
            vault(
                VaultContract::AddNearBalance {
                    account_id: s(ALICE),
                    vault_contract: s(VAULT),
                    amount_available: 1_000_001,
                    baseline: 5_000_000
                },
                0,
                220 * TGAS
            ),
        ]])
    );
    // swapped: the depositor pays, and what the swaps gave is read back
    assert_eq!(
        v.add_near_balance(&own(), &s(ALICE), &s(VAULT), 1_000_001, 5_000_000, &returned("\"9\"")),
        Ok((
            BalanceOrder::Debit { account_id: s(ALICE), amount: 1_000_001 },
            vec![vec![
                exchange(RefExchange::GetDeposits { account_id: s(VAULT) }, 1, 15 * TGAS),
                vault(
                    VaultContract::CallbackStakeLiquidity {
                        account_id: s(ALICE),
                        vault_contract: s(VAULT),
                        baseline: 5_000_000
                    },
                    LIQUIDITY_DEPOSIT,
                    200 * TGAS
                ),
            ]]
        ))
    );
    // liquidity added
    let deposits = r#"{"dai.fakes.testnet":"40","wrap.testnet":"3","eth.fakes.testnet":"25"}"#;
    let (amounts, plan) = v
        .callback_stake_liquidity(&own(), &s(ALICE), &s(VAULT), 5_000_000, &returned(deposits))
        .unwrap();
    assert_eq!(amounts, vec![40, 25]);
    assert_eq!(
        plan,
        vec![vec![
            add_liquidity(25, 40),
            vault(
                VaultContract::CallGetPoolShares { pool_id: 193, account_id: s(VAULT) },
                0,
                18 * TGAS
            ),
            vault(
                VaultContract::CallbackUpdateUserBalance {
                    account_id: s(ALICE),
                    baseline: 5_000_000
                },
                0,
                5 * TGAS
            ),
            vault(VaultContract::CallbackStake { account_id: s(ALICE) }, 0, 90 * TGAS),
        ]]
    );
    // the count is read again only when the liquidity went in
    assert_eq!(
        v.call_get_pool_shares(&own(), 193, s(VAULT), &done()),
        Ok(exchange(RefExchange::GetPoolShares { pool_id: 193, account_id: s(VAULT) }, 0, 10 * TGAS))
    );
    // shares refreshed
    assert_eq!(
        v.callback_update_user_balance(&own(), &s(ALICE), 5_000_000, &returned("\"5000100\"")),
        Ok(s("100"))
    );
    assert_eq!(v.get_user_shares(&s(ALICE)), Some(s("100")));
    assert_eq!(v.vault_shares(), 5_000_100);
    // staked
    assert_eq!(v.callback_stake(&own(), &s(ALICE), &returned("\"100\"")), Ok(vec![vec![stake(100)]]));
}

#[test]
fn a_failed_step_ends_the_deposit() {
    let mut v = Contract::new(s(OWNER), 5_000_000);
    assert_eq!(
        v.callback_shares_queried(&own(), &s(ALICE), &s(VAULT), 10, &failed()),
        Err(VaultError::RemoteCallFailed)
    );
    assert_eq!(
        v.callback_first_swapped(&own(), &s(ALICE), &s(VAULT), 10, 5, &failed()),
        Err(VaultError::RemoteCallFailed)
    );
    assert_eq!(
        v.add_near_balance(&own(), &s(ALICE), &s(VAULT), 10, 5, &failed()),
        Err(VaultError::RemoteCallFailed)
    );
    assert_eq!(
        v.callback_stake_liquidity(&own(), &s(ALICE), &s(VAULT), 5, &failed()),
        Err(VaultError::RemoteCallFailed)
    );
    assert_eq!(
        v.call_get_pool_shares(&own(), 193, s(VAULT), &failed()),
        Err(VaultError::RemoteCallFailed)
    );
    assert_eq!(
        v.callback_update_user_balance(&own(), &s(ALICE), 5, &failed()),
        Err(VaultError::RemoteCallFailed)
    );
    assert_eq!(v.callback_stake(&own(), &s(ALICE), &failed()), Err(VaultError::RemoteCallFailed));
    assert_eq!(v.get_user_shares(&s(ALICE)), None);
    assert_eq!(v.vault_shares(), 5_000_000);
}

#[test]
fn deposit_is_for_the_depositor_with_a_balance() {
    let v = Contract::new(s(OWNER), 0);
    let account = with_available(10);
    assert_eq!(
        v.add_to_vault(&from(OWNER), &s(ALICE), &s(VAULT), Some(&account)),
        Err(VaultError::NotAllowed)
    );
    assert_eq!(
        v.add_to_vault(&from(ALICE), &s(ALICE), &s(VAULT), None),
        Err(VaultError::NoBalance)
    );
    assert_eq!(
        v.add_to_vault(&from(ALICE), &s(ALICE), &s(VAULT), Some(&with_available(0))),
        Err(VaultError::NoBalance)
    );
}

#[test]
fn deposit_of_one_million_credits_what_the_pool_grew_by() {
    let mut v = Contract::new(s(OWNER), 5_000_000);
    let account = with_available(1_000_000);
    assert!(v.add_to_vault(&from(ALICE), &s(ALICE), &s(VAULT), Some(&account)).is_ok());
    // the pool's total before
    let plan = v
        .callback_shares_queried(&own(), &s(ALICE), &s(VAULT), 1_000_000, &returned("\"5000000\""))
        .unwrap();
    assert_eq!(
        plan[0][1].request,
        Request::Vault(VaultContract::CallbackFirstSwapped {
            account_id: s(ALICE),
            vault_contract: s(VAULT),
            amount: 1_000_000,
            baseline: 5_000_000
        })
    );
    assert_eq!(v.get_user_shares(&s(ALICE)), None);
    // and after liquidity was added
    assert_eq!(
        v.callback_update_user_balance(&own(), &s(ALICE), 5_000_000, &returned("\"5000100\"")),
        Ok(s("100"))
    );
    assert_eq!(v.get_user_shares(&s(ALICE)), Some(s("100")));
    assert_eq!(v.ledger().get_share(&s(ALICE)), 100);
    assert_eq!(v.vault_shares(), 5_000_100);
    assert_eq!(v.ledger().assigned_total(), 100);
}

#[test]
fn settle_deposit_credits_what_the_pool_grew_by_since_the_count_before() {
    let mut v = Contract::new(s(OWNER), 10);
    assert_eq!(v.settle_deposit(&s(ALICE), 10, 25), Ok(15));
    assert_eq!(v.vault_shares(), 25);
    // a deposit that added nothing gets an entry at zero
    assert_eq!(v.settle_deposit(&s(OWNER), 25, 25), Ok(0));
    assert_eq!(v.get_user_shares(&s(OWNER)), Some(s("0")));
    // the pool shrank between the two counts
    assert_eq!(v.settle_deposit(&s(ALICE), 25, 24), Err(VaultError::LedgerUnderflow));
    // the count before does not cover what is given out: crediting the
    // difference would give out more than the pool holds
    assert_eq!(v.settle_deposit(&s(ALICE), 14, 30), Err(VaultError::LedgerOverflow));
    assert_eq!(v.vault_shares(), 25);
    assert_eq!(v.get_user_shares(&s(ALICE)), Some(s("15")));
    // a count before above the recorded total: the difference stays unowed
    assert_eq!(v.settle_deposit(&s(ALICE), 40, 45), Ok(5));
    assert_eq!(v.get_user_shares(&s(ALICE)), Some(s("20")));
    assert_eq!(v.vault_shares(), 45);
    assert_eq!(v.ledger().assigned_total(), 20);
    // the pool may be recorded lower, as long as it covers what is given out
    assert_eq!(v.settle_deposit(&s(ALICE), 20, 21), Ok(1));
    assert_eq!(v.vault_shares(), 21);
    assert_eq!(v.ledger().assigned_total(), 21);
}

#[test]
fn two_deposits_on_one_count_before_cannot_both_be_credited_in_full() {
    let mut v = Contract::new(s(OWNER), 0);
    // both found the pool at 0; the first added 10, the second 5
    assert_eq!(v.settle_deposit(&s(ALICE), 0, 10), Ok(10));
    assert_eq!(v.settle_deposit(&s(OWNER), 0, 15), Err(VaultError::LedgerOverflow));
    assert_eq!(v.ledger().assigned_total(), 10);
    assert_eq!(v.vault_shares(), 10);
}

#[test]
fn a_token_that_the_exchange_does_not_name_is_malformed() {
    let v = Contract::new(s(OWNER), 0);
    for deposits in [
        r#"{"eth.fakes.testnet":"9"}"#,
        r#"{"dai.fakes.testnet":"9"}"#,
        r#"{"wrap.testnet":"9"}"#,
        "{}",
    ] {
        assert_eq!(
            v.callback_stake_liquidity(&own(), &s(ALICE), &s(VAULT), 0, &returned(deposits)),
            Err(VaultError::MalformedResult)
        );
        assert_eq!(
            v.stake_and_liquidity_auto(&own(), &s(VAULT), &s(VAULT), &returned(deposits)),
            Err(VaultError::MalformedResult)
        );
        assert_eq!(
            v.swap_to_withdraw_all(&own(), &returned(deposits)),
            Err(VaultError::MalformedResult)
        );
    }
    // a token that is named with nothing held is named
    let zero = r#"{"eth.fakes.testnet":"0","dai.fakes.testnet":"0"}"#;
    let (amounts, plan) =
        v.callback_stake_liquidity(&own(), &s(ALICE), &s(VAULT), 0, &returned(zero)).unwrap();
    assert_eq!(amounts, vec![0, 0]);
    assert_eq!(plan[0][0], add_liquidity(0, 0));
    assert_eq!(
        v.callback_to_withdraw(&own(), &s(ALICE), &returned(r#"{"eth.fakes.testnet":"9"}"#)),
        Err(VaultError::MalformedResult)
    );
    let mut w = Contract::new(s(OWNER), 0);
    assert!(w.keep_reward(&s("t"), 5).is_ok());
    assert_eq!(
        w.swap_to_auto(&own(), &s(REWARD_KEY), &returned(r#"{"eth.fakes.testnet":"9"}"#)),
        Err(VaultError::MalformedResult)
    );
    assert_eq!(w.last_reward_amount(), &vec![Holding { id: s(REWARD_KEY), amount: 5 }]);
}

#[test]
fn stake_transfers_the_shares_to_the_farm() {
    let v = Contract::new(s(OWNER), 0);
    assert_eq!(v.callback_stake(&own(), &s(ALICE), &returned("\"100\"")), Ok(vec![vec![stake(100)]]));
    assert_eq!(v.callback_stake(&own(), &s(ALICE), &returned("\"0\"")), Ok(vec![vec![stake(0)]]));
}

#[test]
fn any_depositor_is_credited_but_only_by_the_vault_itself() {
    let v = Contract::new(s(OWNER), 0);
    assert_eq!(
        v.sub_near_balance(&own(), &s(ALICE), 777, &done()),
        Ok(BalanceOrder::Credit { account_id: s(ALICE), amount: 777 })
    );
    assert_eq!(
        v.sub_near_balance(&own(), &s(OWNER), 8, &done()),
        Ok(BalanceOrder::Credit { account_id: s(OWNER), amount: 8 })
    );
    // a stranger, the depositor and the owner get no order
    assert_eq!(v.sub_near_balance(&from("x.testnet"), &s(OWNER), 8, &done()), Err(VaultError::NotAllowed));
    assert_eq!(v.sub_near_balance(&from(ALICE), &s(ALICE), 8, &done()), Err(VaultError::NotAllowed));
    assert_eq!(v.sub_near_balance(&from(OWNER), &s(OWNER), 8, &done()), Err(VaultError::NotAllowed));
    assert_eq!(
        v.add_near_balance(&from(OWNER), &s(OWNER), &s(VAULT), 5, 0, &done()),
        Err(VaultError::NotAllowed)
    );
    // nothing is credited for an unwrapping that failed or did not happen
    assert_eq!(v.sub_near_balance(&own(), &s(ALICE), 777, &failed()), Err(VaultError::RemoteCallFailed));
    assert_eq!(v.sub_near_balance(&own(), &s(ALICE), 777, &vec![]), Err(VaultError::TooManyResults));
}

#[test]
fn received_tokens_go_to_the_senders_balance() {
    let v = Contract::new(s(OWNER), 0);
    let (order, call, unused) =
        v.ft_on_transfer(&from(CONTRACT_ID_WRAP_TESTNET), &s(ALICE), 77, &s("")).unwrap();
    assert_eq!(
        order,
        BalanceOrder::Deposit {
            account_id: s(ALICE),
            token_id: s(CONTRACT_ID_WRAP_TESTNET),
            amount: 77
        }
    );
    assert_eq!(
        call,
        Call {
            receiver: s(VAULT),
            request: Request::Exchange(RefExchange::Metadata),
            deposit: 0,
            gas: 5 * TGAS,
        }
    );
    assert_eq!(unused, 0);
}

#[test]
fn withdrawal_takes_all_shares_at_once() {
    let mut v = vault_with(ALICE, 500);
    let plan = v.withdraw_all(&from(ALICE), &s("seed"), &s("msg"), &s(VAULT), &s(ALICE)).unwrap();
    assert_eq!(
        plan,
        vec![vec![
            farm(
                FluxusFarming::WithdrawSeed { seed_id: s("seed"), amount: 500, msg: s("msg") },
                1,
                180 * TGAS
            ),
            vault(
                VaultContract::CallbackUnstaked { vault_contract: s(VAULT), shares: 500 },
                0,
                75 * TGAS
            ),
        ]]
    );
    // the entry is zero at once
    assert_eq!(v.get_user_shares(&s(ALICE)), Some(s("0")));
    assert_eq!(v.vault_shares(), 500);
    // a second withdrawal before the first settled finds nothing
    assert_eq!(
        v.withdraw_all(&from(ALICE), &s("seed"), &s("msg"), &s(VAULT), &s(ALICE)),
        Err(VaultError::InsufficientShares)
    );
    assert_eq!(v.get_user_shares(&s(ALICE)), Some(s("0")));
}

#[test]
fn first_phase_unstakes_removes_reads_and_swaps_in_turn() {
    let v = Contract::new(s(OWNER), 0);
    assert_eq!(
        v.callback_unstaked(&own(), &s(VAULT), 500, &done()),
        Ok(vec![vec![
            exchange(
                RefExchange::RemoveLiquidity {
                    pool_id: 193,
                    shares: 500,
                    min_amounts: vec![1000, 1000]
                },
                1,
                8 * TGAS
            ),
            vault(
                VaultContract::CallbackLiquidityRemoved { vault_contract: s(VAULT) },
                0,
                60 * TGAS
            ),
        ]])
    );
    assert_eq!(
        v.callback_liquidity_removed(&own(), &s(VAULT), &done()),
        Ok(vec![vec![
            exchange(RefExchange::GetDeposits { account_id: s(VAULT) }, 1, 9 * TGAS),
            vault(VaultContract::SwapToWithdrawAll, 0, 41_500_000_000_000),
        ]])
    );
    let deposits = r#"{"eth.fakes.testnet":"25","dai.fakes.testnet":"40"}"#;
    assert_eq!(
        v.swap_to_withdraw_all(&own(), &returned(deposits)),
        Ok(vec![
            vec![swap(356, CONTRACT_ID_EHT_TESTNET, 25, CONTRACT_ID_WRAP_TESTNET)],
            vec![swap(231, CONTRACT_ID_DAI_TESTNET, 40, CONTRACT_ID_WRAP_TESTNET)],
        ])
    );
    // a step that failed ends the phase
    assert_eq!(v.callback_unstaked(&own(), &s(VAULT), 500, &failed()), Err(VaultError::RemoteCallFailed));
    assert_eq!(
        v.callback_liquidity_removed(&own(), &s(VAULT), &failed()),
        Err(VaultError::RemoteCallFailed)
    );
    assert_eq!(v.swap_to_withdraw_all(&own(), &failed()), Err(VaultError::RemoteCallFailed));
    assert_eq!(v.callback_unstaked(&from(ALICE), &s(VAULT), 500, &done()), Err(VaultError::NotAllowed));
}

#[test]
fn withdrawal_is_for_the_holder() {
    let mut v = vault_with(ALICE, 500);
    assert_eq!(
        v.withdraw_all(&from(OWNER), &s("seed"), &s(""), &s(VAULT), &s(ALICE)),
        Err(VaultError::NotAllowed)
    );
    assert_eq!(
        v.withdraw_all(&from(OWNER), &s("seed"), &s(""), &s(VAULT), &s(OWNER)),
        Err(VaultError::InsufficientShares)
    );
    assert_eq!(v.get_user_shares(&s(ALICE)), Some(s("500")));
    assert_eq!(v.get_user_shares(&s(OWNER)), None);
}

#[test]
fn second_phase_takes_out_unwraps_and_credits() {
    let v = Contract::new(s(OWNER), 0);
    assert_eq!(
        v.withdraw_all_2(&from(ALICE), &s(VAULT), &s(ALICE)),
        Ok(vec![vec![
            exchange(RefExchange::GetDeposits { account_id: s(VAULT) }, 1, 10 * TGAS),
            vault(VaultContract::CallbackToWithdraw { account_id: s(ALICE) }, 1, 100 * TGAS),
        ]])
    );
    assert_eq!(
        v.withdraw_all_2(&from(OWNER), &s(VAULT), &s(ALICE)),
        Err(VaultError::NotAllowed)
    );
    assert_eq!(
        v.callback_to_withdraw(
            &own(),
            &s(ALICE),
            &returned(r#"{"wrap.testnet":"777","eth.fakes.testnet":"5"}"#)
        ),
        Ok((
            777,
            vec![vec![
                exchange(
                    RefExchange::Withdraw {
                        token_id: s(CONTRACT_ID_WRAP_TESTNET),
                        amount: 777,
                        unregister: Some(false)
                    },
                    1,
                    70 * TGAS
                ),
                vault(
                    VaultContract::CallbackToNearWithdraw { account_id: s(ALICE), amount: 777 },
                    1,
                    20 * TGAS
                ),
            ]]
        ))
    );
    assert_eq!(
        v.callback_to_near_withdraw(&own(), &s(ALICE), 777, &done()),
        Ok(vec![vec![
            wrap(Wrapnear::NearWithdraw { amount: 777 }, 1, 3 * TGAS),
            vault(
                VaultContract::SubNearBalance { account_id: s(ALICE), amount_available: 777 },
                0,
                5 * TGAS
            ),
        ]])
    );
    assert_eq!(
        v.sub_near_balance(&own(), &s(ALICE), 777, &done()),
        Ok(BalanceOrder::Credit { account_id: s(ALICE), amount: 777 })
    );
    // nothing is unwrapped that was not taken out
    assert_eq!(
        v.callback_to_near_withdraw(&own(), &s(ALICE), 777, &failed()),
        Err(VaultError::RemoteCallFailed)
    );
}

#[test]
fn compound_is_for_operators() {
    let v = Contract::new(s(OWNER), 0);
    let claim = vec![vec![farm(
        FluxusFarming::ClaimRewardBySeed { seed_id: s("exchange.ref-dev.testnet@193") },
        0,
        40 * TGAS,
    )]];
    assert_eq!(v.claim_reward(&from(OWNER)), Ok(claim.clone()));
    assert_eq!(v.claim_reward(&from("goldmine.testnet")), Ok(claim.clone()));
    assert_eq!(v.claim_reward(&from("hobbyhodlrtest.testnet")), Ok(claim.clone()));
    assert_eq!(v.claim_reward(&own()), Ok(claim));
    assert_eq!(v.claim_reward(&from(ALICE)), Err(VaultError::NotAllowed));
    assert_eq!(v.check_autocompounds_caller(&from(ALICE)), Err(VaultError::NotAllowed));
    assert_eq!(v.check_autocompounds_caller(&from(OWNER)), Ok(()));
    assert_eq!(v.withdraw_of_reward(&from(ALICE)), Err(VaultError::NotAllowed));
    assert_eq!(v.auto_function_1(&from(ALICE), &s(REWARD_KEY)), Err(VaultError::NotAllowed));
    assert_eq!(v.auto_function_2(&from(ALICE)), Err(VaultError::NotAllowed));
}

#[test]
fn claimed_rewards_are_withdrawn_and_kept() {
    let mut v = Contract::new(s(OWNER), 0);
    assert_eq!(
        v.withdraw_of_reward(&from(OWNER)),
        Ok(vec![vec![
            farm(
                FluxusFarming::GetReward {
                    account_id: s(VAULT),
                    token_id: s(CONTRACT_ID_REF_TESTNET)
                },
                1,
                3 * TGAS
            ),
            vault(
                VaultContract::CallbackWithdrawRewards { token_id: s(CONTRACT_ID_REF_TESTNET) },
                1,
                190 * TGAS
            ),
        ]])
    );
    let withdraw = |amount: u128| {
        vec![vec![farm(
            FluxusFarming::WithdrawReward {
                token_id: s(CONTRACT_ID_REF_TESTNET),
                amount,
                unregister: s("false"),
            },
            1,
            180 * TGAS,
        )]]
    };
    assert_eq!(
        v.callback_withdraw_rewards(&own(), &s(CONTRACT_ID_REF_TESTNET), &returned("\"700\"")),
        Ok((700, withdraw(700)))
    );
    assert_eq!(
        v.callback_withdraw_rewards(&own(), &s(CONTRACT_ID_REF_TESTNET), &returned("\"301\"")),
        Ok((301, withdraw(301)))
    );
    assert_eq!(v.last_reward_amount(), &vec![Holding { id: s(REWARD_KEY), amount: 1001 }]);
    // a claim that accrued nothing keeps what there is
    assert_eq!(
        v.callback_withdraw_rewards(&own(), &s(CONTRACT_ID_REF_TESTNET), &returned("\"0\"")),
        Ok((0, withdraw(0)))
    );
    assert_eq!(v.last_reward_amount(), &vec![Holding { id: s(REWARD_KEY), amount: 1001 }]);
}

#[test]
fn kept_rewards_that_no_longer_fit_are_refused() {
    let mut v = Contract::new(s(OWNER), 0);
    let max = format!("\"{}\"", u128::MAX);
    assert!(v.callback_withdraw_rewards(&own(), &s("t"), &returned(&max)).is_ok());
    assert_eq!(
        v.callback_withdraw_rewards(&own(), &s("t"), &returned("\"1\"")),
        Err(VaultError::LedgerOverflow)
    );
    assert_eq!(v.last_reward_amount(), &vec![Holding { id: s(REWARD_KEY), amount: u128::MAX }]);
}

#[test]
fn kept_rewards_are_sent_to_the_exchange_and_swapped() {
    let mut v = Contract::new(s(OWNER), 0);
    assert_eq!(v.auto_function_1(&from(OWNER), &s(REWARD_KEY)), Err(VaultError::NoBalance));
    assert!(v.callback_withdraw_rewards(&own(), &s("t"), &returned("\"1001\"")).is_ok());
    assert_eq!(v.auto_function_1(&from(OWNER), &s("other")), Err(VaultError::NoBalance));
    assert_eq!(
        v.auto_function_1(&from(OWNER), &s(REWARD_KEY)),
        Ok(vec![vec![
            Call {
                receiver: s(CONTRACT_ID_REF_TESTNET),
                request: Request::RewardToken(ExtRefFakes::FtTransferCall {
                    receiver_id: s(CONTRACT_ID_REF_EXC),
                    amount: s("1001"),
                    msg: s(""),
                }),
                deposit: 1,
                gas: 45 * TGAS,
            },
            vault(VaultContract::CallbackRewardSent { farm_id: s(REWARD_KEY) }, 0, 60 * TGAS),
        ]])
    );
    assert_eq!(
        v.callback_reward_sent(&own(), &s(REWARD_KEY), &returned("\"0\"")),
        Ok(vec![vec![
            exchange(RefExchange::GetDeposits { account_id: s(VAULT) }, 1, 9 * TGAS),
            vault(VaultContract::SwapToAuto { farm_id: s(REWARD_KEY) }, 0, 41_500_000_000_000),
        ]])
    );
    assert_eq!(
        v.callback_reward_sent(&own(), &s(REWARD_KEY), &failed()),
        Err(VaultError::RemoteCallFailed)
    );
    assert_eq!(
        v.swap_to_auto(&own(), &s(REWARD_KEY), &returned(r#"{"ref.fakes.testnet":"1001"}"#)),
        Ok(vec![
            vec![swap(321, CONTRACT_ID_REF_TESTNET, 500, CONTRACT_ID_EHT_TESTNET)],
            vec![swap(326, CONTRACT_ID_REF_TESTNET, 500, CONTRACT_ID_DAI_TESTNET)],
        ])
    );
    assert_eq!(v.last_reward_amount(), &vec![Holding { id: s(REWARD_KEY), amount: 0 }]);
    // what is kept at zero is still sent
    assert!(v.auto_function_1(&from(OWNER), &s(REWARD_KEY)).is_ok());
}

#[test]
fn compound_adds_liquidity_and_distributes() {
    let mut v = vault_with("a.testnet", 300);
    assert_eq!(
        v.callback_update_user_balance(&own(), &s("b.testnet"), 300, &returned("\"1000\"")),
        Ok(s("700"))
    );
    assert_eq!(
        v.auto_function_2(&from(OWNER)),
        Ok(vec![vec![
            exchange(RefExchange::GetDeposits { account_id: s(VAULT) }, 1, 9 * TGAS),
            vault(
                VaultContract::StakeAndLiquidityAuto {
                    account_id: s(VAULT),
                    vault_contract: s(VAULT)
                },
                LIQUIDITY_DEPOSIT,
                200 * TGAS
            ),
        ]])
    );
    let deposits = r#"{"eth.fakes.testnet":"25","dai.fakes.testnet":"40"}"#;
    assert_eq!(
        v.stake_and_liquidity_auto(&own(), &s(VAULT), &s(VAULT), &returned(deposits)),
        Ok(vec![vec![
            add_liquidity(25, 40),
            vault(
                VaultContract::CallGetPoolShares { pool_id: 193, account_id: s(VAULT) },
                0,
                18 * TGAS
            ),
            vault(VaultContract::CallbackToBalance, 0, 15 * TGAS),
            vault(VaultContract::CallbackStake { account_id: s(VAULT) }, 0, 90 * TGAS),
        ]])
    );
    assert_eq!(
        v.callback_to_balance(&own(), &returned("\"1100\"")),
        Ok((
            s("100"),
            vec![vec![vault(VaultContract::BalanceActualization { shares: s("1100") }, 1, 5 * TGAS)]]
        ))
    );
    // reading alone moves nothing
    assert_eq!(v.vault_shares(), 1000);
    assert_eq!(v.balance_actualization(&own(), &s("1100")), Ok(()));
    assert_eq!(v.get_user_shares(&s("a.testnet")), Some(s("330")));
    assert_eq!(v.get_user_shares(&s("b.testnet")), Some(s("770")));
    assert_eq!(v.vault_shares(), 1100);
    assert_eq!(v.ledger().assigned_total(), 1100);
}

#[test]
fn a_compound_that_accrued_nothing_changes_nothing() {
    let mut v = vault_with(ALICE, 300);
    assert_eq!(v.callback_to_balance(&own(), &returned("\"300\"")), Ok((s("0"), vec![])));
    assert_eq!(v.callback_to_balance(&own(), &returned("\"0\"")), Ok((s("0"), vec![])));
    assert_eq!(v.balance_actualization(&own(), &s("300")), Ok(()));
    assert_eq!(v.get_user_shares(&s(ALICE)), Some(s("300")));
    assert_eq!(v.vault_shares(), 300);
}

#[test]
fn distribution_is_for_the_vault_itself() {
    let mut v = vault_with(ALICE, 300);
    assert_eq!(v.balance_actualization(&from(OWNER), &s("400")), Err(VaultError::NotAllowed));
    assert_eq!(v.balance_actualization(&own(), &s("4oo")), Err(VaultError::MalformedResult));
    assert_eq!(v.balance_actualization(&own(), &s("299")), Err(VaultError::LedgerUnderflow));
    assert_eq!(v.get_user_shares(&s(ALICE)), Some(s("300")));
    assert_eq!(v.vault_shares(), 300);
}

#[test]
fn single_calls_are_built_as_asked() {
    let v = Contract::new(s(OWNER), 0);
    assert_eq!(
        v.call_get_pool_shares(&own(), 7, s(ALICE), &done()),
        Ok(exchange(RefExchange::GetPoolShares { pool_id: 7, account_id: s(ALICE) }, 0, 10 * TGAS))
    );
    assert_eq!(
        v.call_get_pool_shares(&from(ALICE), 7, s(ALICE), &done()),
        Err(VaultError::NotAllowed)
    );
    assert_eq!(v.call_get_pool_shares(&own(), 7, s(ALICE), &vec![]), Err(VaultError::TooManyResults));
    assert_eq!(v.call_meta(), Ok(exchange(RefExchange::Metadata, 0, 3 * TGAS)));
    assert_eq!(
        v.call_user_register(s(ALICE)),
        Ok(exchange(
            RefExchange::StorageDeposit { account_id: s(ALICE) },
            10_000_000_000_000_000_000_000,
            3 * TGAS
        ))
    );
    assert_eq!(
        v.call_get_deposits(s(ALICE)),
        exchange(RefExchange::GetDeposits { account_id: s(ALICE) }, 1, 15 * TGAS)
    );
    assert_eq!(
        v.call_add_liquidity(5, vec![1, 2], Some(vec![3, 4])),
        Ok(exchange(
            RefExchange::AddLiquidity {
                pool_id: 5,
                amounts: vec![1, 2],
                min_amounts: Some(vec![3, 4])
            },
            LIQUIDITY_DEPOSIT,
            30 * TGAS
        ))
    );
    assert_eq!(
        v.call_stake(s("farm"), s(":1"), 9, s("m")),
        Ok(exchange(
            RefExchange::MftTransferCall {
                receiver_id: s("farm"),
                token_id: s(":1"),
                amount: 9,
                msg: s("m")
            },
            1,
            75 * TGAS
        ))
    );
    assert_eq!(
        v.call_withdraw_reward(s("t"), 9, s("false")),
        Ok(farm(
            FluxusFarming::WithdrawReward { token_id: s("t"), amount: 9, unregister: s("false") },
            1,
            180 * TGAS
        ))
    );
}

#[test]
fn reads_answer_from_the_balance_store() {
    let v = Contract::new(s(OWNER), 0);
    let account = with_available(10);
    assert_eq!(
        v.get_user_storage_state(&from(ALICE), &s(ALICE), Some(&account)),
        Ok(Some(RefStorageState { deposit: 17, usage: 7 }))
    );
    assert_eq!(v.get_user_storage_state(&from(ALICE), &s(ALICE), None), Ok(None));
    assert_eq!(
        v.get_user_storage_state(&from(OWNER), &s(ALICE), Some(&account)),
        Err(VaultError::NotAllowed)
    );
    assert_eq!(
        v.get_deposits(Some(&account)),
        vec![Holding { id: s(CONTRACT_ID_WRAP_TESTNET), amount: 11 }]
    );
    assert_eq!(v.get_deposits(None), Vec::<Holding>::new());
}

#[test]
fn whitelist_lists_each_token_once() {
    let mut v = Contract::new(s(OWNER), 0);
    assert_eq!(
        v.extend_whitelisted_tokens(&from(OWNER), vec![s("a.testnet"), s("b.testnet"), s("a.testnet")]),
        Ok(())
    );
    assert_eq!(
        v.extend_whitelisted_tokens(&from(OWNER), vec![s("c.testnet"), s("b.testnet")]),
        Ok(())
    );
    assert_eq!(v.get_whitelisted_tokens(), vec![s("a.testnet"), s("b.testnet"), s("c.testnet")]);
    assert_eq!(v.extend_whitelisted_tokens(&from(OWNER), vec![]), Ok(()));
    assert_eq!(v.get_whitelisted_tokens().len(), 3);
}

use vault_contract::contract::{all_different, all_distinct, available, is_listed};
use vault_contract::decimal::{amount_text, parse_amount};
use vault_contract::sequencer::{
    is_self_call, resume, resume_with_amount, resume_with_balances, resume_with_shares,
};
use vault_contract::{
    AccountSnapshot, CallContext, Contract, ErrorKind, Holding, PromiseOutcome, RunningState,
    ShareLedger, VaultError,
};

const VAULT: &str = "vault.testnet";
const OWNER: &str = "owner.testnet";
const ALICE: &str = "alice.testnet";

fn s(text: &str) -> String {
    text.to_string()
}

fn from(predecessor: &str) -> CallContext {
    CallContext { predecessor: s(predecessor), current: s(VAULT) }
}

fn own() -> CallContext {
    from(VAULT)
}

fn returned(json: &str) -> Vec<PromiseOutcome> {
    vec![PromiseOutcome::Successful(json.as_bytes().to_vec())]
}

fn paused_vault() -> Contract {
    let ledger = ShareLedger::restore(vec![Holding { id: s(ALICE), amount: 500 }], 500).unwrap();
    Contract::restore(
        s(OWNER),
        ledger,
        vec![s("a.testnet")],
        RunningState::Paused,
        vec![Holding { id: s("farm"), amount: 9 }],
    )
    .unwrap()
}

fn funded() -> AccountSnapshot {
    AccountSnapshot { near_amount: 10, storage_usage: 1, storage_available: 9, tokens: vec![] }
}

#[test]
fn running_state_has_a_name() {
    assert_eq!(RunningState::Running.to_string(), "Running");
    assert_eq!(RunningState::Paused.to_string(), "Paused");
    assert!(RunningState::Running.is_running());
    assert!(!RunningState::Paused.is_running());
}

#[test]
fn errors_have_a_kind_and_a_message() {
    let all = [
        (VaultError::NotAllowed, ErrorKind::Authorization, "ERR_NOT_ALLOWED"),
        (VaultError::NoBalance, ErrorKind::Precondition, "ERROR 1: User doesnt have balance."),
        (VaultError::InsufficientShares, ErrorKind::Precondition, "ERR_INSUFFICIENT_SHARES"),
        (VaultError::Paused, ErrorKind::Precondition, "E51: contract paused"),
        (VaultError::TooManyResults, ErrorKind::Protocol, "ERR_TOO_MANY_RESULTS"),
        (VaultError::MalformedResult, ErrorKind::Protocol, "ERR_WRONG_VAL_RECEIVED"),
        (VaultError::RemoteCallFailed, ErrorKind::Remote, "ERR_CALL_FAILED"),
        (VaultError::LedgerUnderflow, ErrorKind::Numeric, "ERR_LEDGER_UNDERFLOW"),
        (VaultError::LedgerOverflow, ErrorKind::Numeric, "ERR_LEDGER_OVERFLOW"),
    ];
    for (error, kind, message) in all {
        assert_eq!(error.kind(), kind);
        assert_eq!(error.message(), message);
    }
}

#[test]
fn a_step_resumes_with_exactly_one_result_of_the_vaults_own_call() {
    let bytes = b"\"12\"".to_vec();
    let one = vec![PromiseOutcome::Successful(bytes.clone())];
    assert!(is_self_call(&own()));
    assert!(!is_self_call(&from(ALICE)));
    assert_eq!(resume(&own(), &one), Ok(&bytes));
    assert_eq!(resume(&from(ALICE), &one), Err(VaultError::NotAllowed));
    assert_eq!(resume(&own(), &vec![]), Err(VaultError::TooManyResults));
    let two = vec![PromiseOutcome::Successful(bytes.clone()), PromiseOutcome::Successful(bytes)];
    assert_eq!(resume(&own(), &two), Err(VaultError::TooManyResults));
    assert_eq!(resume(&own(), &vec![PromiseOutcome::Failed]), Err(VaultError::RemoteCallFailed));
    // the caller is looked at before the results
    assert_eq!(resume(&from(ALICE), &vec![]), Err(VaultError::NotAllowed));
}

#[test]
fn shares_come_as_a_json_string_of_digits() {
    assert_eq!(resume_with_shares(&own(), &returned("\"5000100\"")), Ok(5_000_100));
    assert_eq!(resume_with_shares(&own(), &returned(" \"0\" ")), Ok(0));
    assert_eq!(
        resume_with_shares(&own(), &returned("\"340282366920938463463374607431768211455\"")),
        Ok(u128::MAX)
    );
    for bad in [
        "\"340282366920938463463374607431768211456\"",
        "5000100",
        "\"12a\"",
        "\"\"",
        "\"-1\"",
        "\"12\" x",
        "[\"12\"]",
        "",
        "\"12",
    ] {
        assert_eq!(resume_with_shares(&own(), &returned(bad)), Err(VaultError::MalformedResult));
    }
    assert_eq!(resume_with_shares(&from(ALICE), &returned("\"1\"")), Err(VaultError::NotAllowed));
    assert_eq!(
        resume_with_shares(&own(), &vec![PromiseOutcome::Failed]),
        Err(VaultError::RemoteCallFailed)
    );
}

#[test]
fn amounts_come_as_a_json_string_of_digits() {
    assert_eq!(resume_with_amount(&own(), &returned("\"700\"")), Ok(700));
    assert_eq!(resume_with_amount(&own(), &returned("700")), Err(VaultError::MalformedResult));
    assert_eq!(resume_with_amount(&own(), &returned("\"7.5\"")), Err(VaultError::MalformedResult));
    assert_eq!(resume_with_amount(&own(), &vec![]), Err(VaultError::TooManyResults));
}

#[test]
fn balances_come_as_a_json_object_by_account() {
    let rows = resume_with_balances(
        &own(),
        &returned(r#"{"eth.fakes.testnet":"25","dai.fakes.testnet":"40"}"#),
    )
    .unwrap();
    let mut sorted = rows.clone();
    sorted.sort_by(|a, b| a.id.cmp(&b.id));
    assert_eq!(
        sorted,
        vec![
            Holding { id: s("dai.fakes.testnet"), amount: 40 },
            Holding { id: s("eth.fakes.testnet"), amount: 25 },
        ]
    );
    assert_eq!(resume_with_balances(&own(), &returned("{}")), Ok(vec![]));
    for bad in [
        r#"{"eth.fakes.testnet":25}"#,
        r#"{"eth.fakes.testnet":"x"}"#,
        r#"{"Not An Account":"1"}"#,
        r#"["eth.fakes.testnet"]"#,
        "\"25\"",
        "{",
    ] {
        assert_eq!(resume_with_balances(&own(), &returned(bad)), Err(VaultError::MalformedResult));
    }
    assert_eq!(
        resume_with_balances(&own(), &vec![PromiseOutcome::Failed]),
        Err(VaultError::RemoteCallFailed)
    );
}

#[test]
fn steps_refuse_what_they_were_not_wired_for() {
    let mut v = Contract::new(s(OWNER), 0);
    let two = vec![PromiseOutcome::Successful(vec![]), PromiseOutcome::Failed];
    let failed = vec![PromiseOutcome::Failed];
    assert_eq!(
        v.callback_update_user_balance(&own(), &s(ALICE), 0, &two),
        Err(VaultError::TooManyResults)
    );
    assert_eq!(
        v.callback_update_user_balance(&own(), &s(ALICE), 0, &failed),
        Err(VaultError::RemoteCallFailed)
    );
    assert_eq!(
        v.callback_update_user_balance(&own(), &s(ALICE), 0, &returned("{}")),
        Err(VaultError::MalformedResult)
    );
    assert_eq!(
        v.callback_update_user_balance(&from(ALICE), &s(ALICE), 0, &returned("\"5\"")),
        Err(VaultError::NotAllowed)
    );
    assert_eq!(v.get_user_shares(&s(ALICE)), None);
    assert_eq!(v.vault_shares(), 0);
    assert_eq!(v.callback_stake(&own(), &s(ALICE), &failed), Err(VaultError::RemoteCallFailed));
    assert_eq!(
        v.callback_stake_liquidity(&own(), &s(ALICE), &s(VAULT), 0, &returned("\"5\"")),
        Err(VaultError::MalformedResult)
    );
    assert_eq!(
        v.stake_and_liquidity_auto(&from(OWNER), &s(VAULT), &s(VAULT), &returned("{}")),
        Err(VaultError::NotAllowed)
    );
    assert_eq!(v.callback_to_balance(&own(), &two), Err(VaultError::TooManyResults));
    assert_eq!(
        v.callback_withdraw_rewards(&own(), &s("t"), &returned("7")),
        Err(VaultError::MalformedResult)
    );
    assert_eq!(v.swap_to_auto(&own(), &s("farm"), &failed), Err(VaultError::RemoteCallFailed));
    assert!(v.last_reward_amount().is_empty());
    assert_eq!(v.swap_to_withdraw_all(&own(), &vec![]), Err(VaultError::TooManyResults));
    assert_eq!(
        v.callback_to_withdraw(&from(ALICE), &s(ALICE), &returned("{}")),
        Err(VaultError::NotAllowed)
    );
    assert_eq!(
        v.callback_to_near_withdraw(&own(), &s(ALICE), 5, &two),
        Err(VaultError::TooManyResults)
    );
}

#[test]
fn a_deposit_cannot_settle_below_what_was_given_out() {
    let mut v = Contract::new(s(OWNER), 0);
    assert_eq!(
        v.callback_update_user_balance(&own(), &s(ALICE), 0, &returned("\"500\"")),
        Ok(s("500"))
    );
    assert_eq!(
        v.callback_update_user_balance(&own(), &s(OWNER), 500, &returned("\"499\"")),
        Err(VaultError::LedgerUnderflow)
    );
    assert_eq!(
        v.callback_update_user_balance(&own(), &s(OWNER), 499, &returned("\"510\"")),
        Err(VaultError::LedgerOverflow)
    );
    assert_eq!(v.get_user_shares(&s(OWNER)), None);
    assert_eq!(v.vault_shares(), 500);
}

#[test]
fn a_paused_vault_refuses_everything_but_reads() {
    let mut v = paused_vault();
    let account = funded();
    let one = returned("\"600\"");
    let deposits = returned("{}");
    assert_eq!(v.running_state(), RunningState::Paused);
    assert_eq!(v.assert_contract_running(), Err(VaultError::Paused));
    assert_eq!(VaultError::Paused.kind(), ErrorKind::Precondition);

    assert_eq!(v.extend_whitelisted_tokens(&from(OWNER), vec![s("b.testnet")]), Err(VaultError::Paused));
    assert_eq!(
        v.add_to_vault(&from(ALICE), &s(ALICE), &s(VAULT), Some(&account)),
        Err(VaultError::Paused)
    );
    assert_eq!(
        v.near_to_wrap(&from(ALICE), &s(ALICE), &s(OWNER), &s(""), Some(&account)),
        Err(VaultError::Paused)
    );
    assert_eq!(
        v.callback_stake_liquidity(&own(), &s(ALICE), &s(VAULT), 0, &deposits),
        Err(VaultError::Paused)
    );
    assert_eq!(
        v.callback_update_user_balance(&own(), &s(ALICE), 0, &one),
        Err(VaultError::Paused)
    );
    assert_eq!(
        v.callback_shares_queried(&own(), &s(ALICE), &s(VAULT), 9, &one),
        Err(VaultError::Paused)
    );
    assert_eq!(
        v.callback_first_swapped(&own(), &s(ALICE), &s(VAULT), 9, 0, &one),
        Err(VaultError::Paused)
    );
    assert_eq!(v.callback_unstaked(&own(), &s(VAULT), 9, &one), Err(VaultError::Paused));
    assert_eq!(v.callback_liquidity_removed(&own(), &s(VAULT), &one), Err(VaultError::Paused));
    assert_eq!(v.callback_reward_sent(&own(), &s("farm"), &one), Err(VaultError::Paused));
    assert_eq!(v.enter_step(&own(), &one), Err(VaultError::Paused));
    assert_eq!(v.callback_stake(&own(), &s(ALICE), &one), Err(VaultError::Paused));
    assert_eq!(
        v.add_near_balance(&own(), &s(OWNER), &s(VAULT), 1, 0, &one),
        Err(VaultError::Paused)
    );
    assert_eq!(v.sub_near_balance(&own(), &s(OWNER), 1, &one), Err(VaultError::Paused));
    assert_eq!(v.ft_on_transfer(&from("token"), &s(ALICE), 1, &s("")), Err(VaultError::Paused));
    assert_eq!(
        v.withdraw_all(&from(ALICE), &s("seed"), &s(""), &s(VAULT), &s(ALICE)),
        Err(VaultError::Paused)
    );
    assert_eq!(v.withdraw_all_2(&from(ALICE), &s(VAULT), &s(ALICE)), Err(VaultError::Paused));
    assert_eq!(v.swap_to_withdraw_all(&own(), &deposits), Err(VaultError::Paused));
    assert_eq!(v.callback_to_withdraw(&own(), &s(ALICE), &deposits), Err(VaultError::Paused));
    assert_eq!(
        v.callback_to_near_withdraw(&own(), &s(ALICE), 1, &one),
        Err(VaultError::Paused)
    );
    assert_eq!(v.claim_reward(&from(OWNER)), Err(VaultError::Paused));
    assert_eq!(v.withdraw_of_reward(&from(OWNER)), Err(VaultError::Paused));
    assert_eq!(v.callback_withdraw_rewards(&own(), &s("t"), &one), Err(VaultError::Paused));
    assert_eq!(v.auto_function_1(&from(OWNER), &s("farm")), Err(VaultError::Paused));
    assert_eq!(v.swap_to_auto(&own(), &s("farm"), &deposits), Err(VaultError::Paused));
    assert_eq!(v.auto_function_2(&from(OWNER)), Err(VaultError::Paused));
    assert_eq!(
        v.stake_and_liquidity_auto(&own(), &s(VAULT), &s(VAULT), &deposits),
        Err(VaultError::Paused)
    );
    assert_eq!(v.callback_to_balance(&own(), &one), Err(VaultError::Paused));
    assert_eq!(v.balance_actualization(&own(), &s("600")), Err(VaultError::Paused));
    assert_eq!(v.call_get_pool_shares(&own(), 193, s(VAULT), &one), Err(VaultError::Paused));
    assert_eq!(v.call_meta(), Err(VaultError::Paused));
    assert_eq!(v.call_user_register(s(ALICE)), Err(VaultError::Paused));
    assert_eq!(v.call_add_liquidity(193, vec![1, 2], None), Err(VaultError::Paused));
    assert_eq!(v.call_stake(s("f"), s(":193"), 1, s("")), Err(VaultError::Paused));
    assert_eq!(v.call_withdraw_reward(s("t"), 1, s("false")), Err(VaultError::Paused));
    // pausing comes before the question who calls
    assert_eq!(v.claim_reward(&from(ALICE)), Err(VaultError::Paused));
    assert_eq!(v.enter_as(&from(OWNER), &s(ALICE)), Err(VaultError::Paused));
    assert_eq!(v.enter_as_operator(&from(ALICE)), Err(VaultError::Paused));
    assert_eq!(v.enter_as_vault(&from(ALICE)), Err(VaultError::Paused));
    assert_eq!(v.enter_step_with_shares(&own(), &one), Err(VaultError::Paused));
    assert_eq!(v.enter_step_with_amount(&own(), &one), Err(VaultError::Paused));
    assert_eq!(v.enter_step_with_balances(&own(), &deposits), Err(VaultError::Paused));

    // nothing has moved, and the reads still answer
    assert_eq!(v.get_user_shares(&s(ALICE)), Some(s("500")));
    assert_eq!(v.vault_shares(), 500);
    assert_eq!(v.get_whitelisted_tokens(), vec![s("a.testnet")]);
    assert_eq!(v.last_reward_amount(), &vec![Holding { id: s("farm"), amount: 9 }]);
    assert!(v.get_user_storage_state(&from(ALICE), &s(ALICE), Some(&account)).is_ok());
    assert_eq!(v.get_deposits(Some(&account)), vec![]);
}

#[test]
fn a_running_vault_lets_the_right_caller_in() {
    let v = Contract::new(s(OWNER), 0);
    assert_eq!(v.enter_as(&from(ALICE), &s(ALICE)), Ok(()));
    assert_eq!(v.enter_as(&from(OWNER), &s(ALICE)), Err(VaultError::NotAllowed));
    assert_eq!(v.enter_as_operator(&from(OWNER)), Ok(()));
    assert_eq!(v.enter_as_operator(&from(ALICE)), Err(VaultError::NotAllowed));
    assert_eq!(v.enter_as_vault(&own()), Ok(()));
    assert_eq!(v.enter_as_vault(&from(OWNER)), Err(VaultError::NotAllowed));
    assert_eq!(v.enter_step_with_shares(&own(), &returned("\"8\"")), Ok(8));
    assert_eq!(v.enter_step_with_amount(&own(), &returned("\"9\"")), Ok(9));
    assert_eq!(
        v.enter_step_with_balances(&own(), &returned(r#"{"wrap.testnet":"3"}"#)),
        Ok(vec![Holding { id: s("wrap.testnet"), amount: 3 }])
    );
    assert_eq!(v.enter_step(&own(), &returned("")), Ok(()));
    assert_eq!(v.enter_step(&from(ALICE), &returned("")), Err(VaultError::NotAllowed));
    assert_eq!(v.enter_step(&own(), &vec![PromiseOutcome::Failed]), Err(VaultError::RemoteCallFailed));
}

#[test]
fn restore_takes_lists_without_repeats_only() {
    let ledger = || ShareLedger::new(3);
    assert!(Contract::restore(s(OWNER), ledger(), vec![], RunningState::Running, vec![]).is_some());
    assert!(Contract::restore(
        s(OWNER),
        ledger(),
        vec![s("a"), s("b"), s("a")],
        RunningState::Running,
        vec![]
    )
    .is_none());
    let twice = vec![Holding { id: s("k"), amount: 1 }, Holding { id: s("k"), amount: 2 }];
    assert!(Contract::restore(s(OWNER), ledger(), vec![], RunningState::Running, twice).is_none());
    let v = Contract::restore(
        s(OWNER),
        ledger(),
        vec![s("a"), s("b")],
        RunningState::Running,
        vec![Holding { id: s("k"), amount: 1 }],
    )
    .unwrap();
    assert_eq!(v.owner_id(), OWNER);
    assert_eq!(v.vault_shares(), 3);
    assert_eq!(v.get_whitelisted_tokens(), vec![s("a"), s("b")]);
}

#[test]
fn list_helpers_tell_repeats() {
    assert!(is_listed(&vec![s("a"), s("b")], &s("b")));
    assert!(!is_listed(&vec![s("a"), s("b")], &s("c")));
    assert!(all_different(&vec![s("a"), s("b")]));
    assert!(!all_different(&vec![s("a"), s("b"), s("a")]));
    assert!(all_distinct(&vec![Holding { id: s("a"), amount: 1 }, Holding { id: s("b"), amount: 1 }]));
    assert!(!all_distinct(&vec![Holding { id: s("a"), amount: 1 }, Holding { id: s("a"), amount: 2 }]));
    assert_eq!(available(Some(&funded())), 9);
    assert_eq!(available(None), 0);
}

#[test]
fn amounts_are_written_in_decimal_digits() {
    assert_eq!(amount_text(0), "0");
    assert_eq!(amount_text(7), "7");
    assert_eq!(amount_text(10), "10");
    assert_eq!(amount_text(5_000_100), "5000100");
    assert_eq!(amount_text(u128::MAX), "340282366920938463463374607431768211455");
    for n in [1u128, 9, 99, 100, 101, 1 << 64, u128::MAX - 1, 970_000_000_000_000_000_000] {
        assert_eq!(amount_text(n), n.to_string());
    }
}

#[test]
fn amounts_are_read_from_decimal_digits() {
    assert_eq!(parse_amount(&s("0")), Some(0));
    assert_eq!(parse_amount(&s("5000100")), Some(5_000_100));
    assert_eq!(parse_amount(&s("+12")), Some(12));
    assert_eq!(parse_amount(&s("007")), Some(7));
    assert_eq!(parse_amount(&s("340282366920938463463374607431768211455")), Some(u128::MAX));
    assert_eq!(parse_amount(&s("340282366920938463463374607431768211456")), None);
    assert_eq!(parse_amount(&s("3402823669209384634633746074317682114550")), None);
    let others = [
        "", "+", "-", "-1", "-0", "++1", "1+", " 1", "1 ", "1_000", "1.0", "1e3", "0x10", "١٢",
        "１２", "12a", "a12", "+-1", "00000000000000000000000000000000000000000000000001",
        "99999999999999999999999999999999999999999", "+0", "+007",
    ];
    for text in others {
        assert_eq!(parse_amount(&s(text)), text.parse::<u128>().ok(), "{:?}", text);
    }
    for n in [0u128, 1, 9, 10, 12345, 1 << 100, u128::MAX] {
        assert_eq!(parse_amount(&amount_text(n)), Some(n));
    }
}

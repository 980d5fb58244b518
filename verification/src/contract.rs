//! The vault: its state, who may do what, and the entry points that read it.

use vstd::prelude::*;
use vstd::string::StringExecFns;
use crate::calls::{plan_view, CallView, Plan};
use crate::decimal::{amount_text, decimal_text};
use crate::errors::VaultError;
use crate::holdings::{as_map, distinct, holds, table_of, Holding, Table};
use crate::ledger::{LedgerState, ShareLedger};
use crate::sequencer::{
    is_self_call, resume, resume_with_amount, resume_with_balances, resume_with_shares, resumed,
    resumed_amount, resumed_balances, resumed_shares, CallContext, PromiseOutcome,
};
use crate::state::RunningState;

verus! {

/// An account that may trigger a compound beside the owner and the vault itself.
pub const OPERATOR_GOLDMINE: &'static str = "goldmine.testnet";

/// An account that may trigger a compound beside the owner and the vault itself.
pub const OPERATOR_HOBBYHODLR: &'static str = "hobbyhodlrtest.testnet";

/// What the balance store holds for one depositor, as the host read it.
#[derive(Clone, PartialEq, Eq, Debug)]
pub struct AccountSnapshot {
    /// The native amount that the depositor has put down.
    pub near_amount: u128,
    /// What of it pays for the depositor's storage.
    pub storage_usage: u128,
    /// What of it the depositor may spend.
    pub storage_available: u128,
    /// The depositor's balance of each token.
    pub tokens: Vec<Holding>,
}

/// A depositor's native amount and what of it is bound by storage.
#[derive(Clone, Copy, PartialEq, Eq, Debug, Structural)]
pub struct RefStorageState {
    pub deposit: u128,
    pub usage: u128,
}

/// The model of the vault.
pub struct VaultState {
    /// The owner's account.
    pub owner: Seq<char>,
    /// The share ledger.
    pub ledger: LedgerState,
    /// The tokens that may be routed through swaps, in the order in which they
    /// were listed.
    pub whitelist: Seq<Seq<char>>,
    /// Whether the vault accepts work.
    pub state: RunningState,
    /// The rewards claimed and not yet swapped, by key.
    pub rewards: Table,
}

/// The list `tokens` holds no token twice.
pub open spec fn no_repeats(tokens: Seq<Seq<char>>) -> bool {
    forall|i: int, j: int| 0 <= i < j < tokens.len() ==> tokens[i] != tokens[j]
}

/// The list `known` with those of `tokens` put behind it, first to last, that
/// it does not hold yet.
pub open spec fn extended(known: Seq<Seq<char>>, tokens: Seq<Seq<char>>) -> Seq<Seq<char>>
    decreases tokens.len(),
{
    if tokens.len() == 0 {
        known
    } else {
        let before = extended(known, tokens.drop_last());
        if before.contains(tokens.last()) {
            before
        } else {
            before.push(tokens.last())
        }
    }
}

/// Extending keeps every listed token where it is, lists every new one, lists
/// nothing else and nothing twice.
pub proof fn lemma_extended(known: Seq<Seq<char>>, tokens: Seq<Seq<char>>)
    requires
        no_repeats(known),
    ensures
        no_repeats(extended(known, tokens)),
        known.len() <= extended(known, tokens).len(),
        forall|i: int| 0 <= i < known.len() ==> extended(known, tokens)[i] == known[i],
        forall|t: Seq<char>|
            extended(known, tokens).contains(t) <==> known.contains(t) || tokens.contains(t),
    decreases tokens.len(),
{
    if tokens.len() > 0 {
        let rest = tokens.drop_last();
        let last = tokens.last();
        lemma_extended(known, rest);
        let before = extended(known, rest);
        let all = extended(known, tokens);
        assert forall|t: Seq<char>| all.contains(t) <==> known.contains(t) || tokens.contains(
            t,
        ) by {
            if tokens.contains(t) {
                let k = choose|k: int| 0 <= k < tokens.len() && tokens[k] == t;
                if k < rest.len() {
                    assert(rest[k] == t);
                    assert(rest.contains(t));
                }
            }
            if rest.contains(t) {
                let k = choose|k: int| 0 <= k < rest.len() && rest[k] == t;
                assert(tokens[k] == t);
            }
            assert(tokens[tokens.len() - 1] == last);
            if before.contains(last) {
            } else {
                if all.contains(t) {
                    let k = choose|k: int| 0 <= k < all.len() && all[k] == t;
                    if k < before.len() {
                        assert(before[k] == t);
                    }
                }
                if before.contains(t) {
                    let k = choose|k: int| 0 <= k < before.len() && before[k] == t;
                    assert(all[k] == t);
                }
                assert(all[before.len() as int] == last);
            }
        }
        if !before.contains(last) {
            assert forall|i: int, j: int| 0 <= i < j < all.len() implies all[i] != all[j] by {
                if j == before.len() {
                    assert(before[i] == all[i]);
                    assert(before.contains(all[i]));
                } else {
                    assert(before[i] != before[j]);
                }
            }
        }
    } else {
        assert forall|t: Seq<char>| tokens.contains(t) implies false by {}
    }
}

/// The views of a list of tokens.
pub open spec fn names_view(names: Seq<String>) -> Seq<Seq<char>> {
    names.map_values(|n: String| n@)
}

/// The vault.
#[derive(Debug)]
pub struct Contract {
    pub(crate) owner_id: String,
    pub(crate) ledger: ShareLedger,
    pub(crate) whitelisted_tokens: Vec<String>,
    pub(crate) state: RunningState,
    pub(crate) last_reward_amount: Vec<Holding>,
}

impl View for Contract {
    type V = VaultState;

    open(crate) spec fn view(&self) -> VaultState {
        VaultState {
            owner: self.owner_id@,
            ledger: self.ledger@,
            whitelist: names_view(self.whitelisted_tokens@),
            state: self.state,
            rewards: table_of(self.last_reward_amount@),
        }
    }
}

/// Whether `account` may trigger a compound: the owner, one of the two
/// operators, or the vault itself.
pub open spec fn may_compound(owner: Seq<char>, current: Seq<char>, account: Seq<char>) -> bool {
    ||| account == owner
    ||| account == OPERATOR_GOLDMINE@
    ||| account == OPERATOR_HOBBYHODLR@
    ||| account == current
}

impl Contract {
    /// The ledger is sound, and neither the whitelist nor the rewards hold a
    /// name twice.
    pub open(crate) spec fn wf(&self) -> bool {
        &&& self.ledger.wf()
        &&& no_repeats(names_view(self.whitelisted_tokens@))
        &&& distinct(table_of(self.last_reward_amount@))
    }

    /// What `wf` says of the model: no more shares are given out than the
    /// pool reported, and no name occurs twice.
    pub proof fn lemma_wf(&self)
        requires
            self.wf(),
        ensures
            self@.ledger.wf(),
            self@.ledger.vault_total <= u128::MAX,
            no_repeats(self@.whitelist),
            distinct(self@.rewards),
    {
        self.ledger.lemma_wf();
    }

    /// A running vault of `owner_id` that holds `vault_shares` shares of the
    /// pool and owes none of them to anyone.
    pub fn new(owner_id: String, vault_shares: u128) -> (vault: Contract)
        ensures
            vault.wf(),
            vault@ == (VaultState {
                owner: owner_id@,
                ledger: LedgerState {
                    holdings: Seq::<(Seq<char>, nat)>::empty(),
                    vault_total: vault_shares as nat,
                },
                whitelist: Seq::<Seq<char>>::empty(),
                state: RunningState::Running,
                rewards: Seq::<(Seq<char>, nat)>::empty(),
            }),
    {
        let vault = Contract {
            owner_id,
            ledger: ShareLedger::new(vault_shares),
            whitelisted_tokens: Vec::new(),
            state: RunningState::Running,
            last_reward_amount: Vec::new(),
        };
        assert(names_view(vault.whitelisted_tokens@) =~= Seq::<Seq<char>>::empty());
        assert(table_of(vault.last_reward_amount@) =~= Seq::<(Seq<char>, nat)>::empty());
        vault
    }

    /// The vault in `state` that holds what was kept of it: its ledger, its
    /// whitelist and its rewards. `None` where a token is listed twice or a
    /// reward key occurs twice.
    pub fn restore(
        owner_id: String,
        ledger: ShareLedger,
        whitelisted_tokens: Vec<String>,
        state: RunningState,
        last_reward_amount: Vec<Holding>,
    ) -> (vault: Option<Contract>)
        requires
            ledger.wf(),
        ensures
            vault is Some <==> no_repeats(names_view(whitelisted_tokens@)) && distinct(
                table_of(last_reward_amount@),
            ),
            vault matches Some(v) ==> v.wf() && v@ == (VaultState {
                owner: owner_id@,
                ledger: ledger@,
                whitelist: names_view(whitelisted_tokens@),
                state,
                rewards: table_of(last_reward_amount@),
            }),
    {
        if !all_different(&whitelisted_tokens) {
            return None;
        }
        if !all_distinct(&last_reward_amount) {
            return None;
        }
        Some(Contract { owner_id, ledger, whitelisted_tokens, state, last_reward_amount })
    }

    /// The owner's account.
    pub fn owner_id(&self) -> (owner: &String)
        ensures
            owner@ == self@.owner,
    {
        &self.owner_id
    }

    /// Whether the vault accepts work.
    pub fn running_state(&self) -> (state: RunningState)
        ensures
            state == self@.state,
    {
        self.state
    }

    /// The share ledger.
    pub fn ledger(&self) -> (ledger: &ShareLedger)
        ensures
            ledger@ == self@.ledger,
            self.wf() ==> ledger.wf(),
    {
        &self.ledger
    }

    /// The shares that the pool last reported for the vault.
    pub fn vault_shares(&self) -> (shares: u128)
        ensures
            shares == self@.ledger.vault_total,
    {
        self.ledger.vault_total()
    }

    /// The rewards claimed and not yet swapped, by key.
    pub fn last_reward_amount(&self) -> (rewards: &Vec<Holding>)
        ensures
            table_of(rewards@) == self@.rewards,
    {
        &self.last_reward_amount
    }

    /// Refuses while the vault is paused.
    pub fn assert_contract_running(&self) -> (res: Result<(), VaultError>)
        ensures
            res == gate(self@.state),
    {
        match self.state {
            RunningState::Running => Ok(()),
            RunningState::Paused => Err(VaultError::Paused),
        }
    }

    /// Refuses an account that may not trigger a compound.
    pub fn check_autocompounds_caller(&self, ctx: &CallContext) -> (res: Result<(), VaultError>)
        ensures
            res == (if may_compound(self@.owner, ctx.current@, ctx.predecessor@) {
                Ok::<(), VaultError>(())
            } else {
                Err(VaultError::NotAllowed)
            }),
    {
        let account = &ctx.predecessor;
        let goldmine = String::from_str(OPERATOR_GOLDMINE);
        let hobbyhodlr = String::from_str(OPERATOR_HOBBYHODLR);
        if *account != self.owner_id && *account != goldmine && *account != hobbyhodlr && *account
            != ctx.current {
            Err(VaultError::NotAllowed)
        } else {
            Ok(())
        }
    }

    /// The shares of `account_id` in decimal digits; `None` for one who has no
    /// entry. One who withdrew everything has an entry, at zero.
    pub fn get_user_shares(&self, account_id: &String) -> (shares: Option<String>)
        ensures
            shares is Some <==> holds(self@.ledger.holdings, account_id@),
            shares matches Some(text) ==> text@ == decimal_text(self@.ledger.share(account_id@)),
    {
        if self.ledger.has_entry(account_id) {
            Some(amount_text(self.ledger.get_share(account_id)))
        } else {
            None
        }
    }

    /// Lists `tokens` on the whitelist, each once, behind those already
    /// listed. For the owner only.
    pub fn extend_whitelisted_tokens(&mut self, ctx: &CallContext, tokens: Vec<String>) -> (res:
        Result<(), VaultError>)
        requires
            old(self).wf(),
        ensures
            final(self).wf(),
            res == (if old(self)@.state == RunningState::Paused {
                Err::<(), VaultError>(VaultError::Paused)
            } else if ctx.predecessor@ != old(self)@.owner {
                Err(VaultError::NotAllowed)
            } else {
                Ok(())
            }),
            res is Err ==> *final(self) == *old(self),
            res is Ok ==> final(self)@ == (VaultState {
                whitelist: extended(old(self)@.whitelist, names_view(tokens@)),
                ..old(self)@
            }),
    {
        if !self.state.is_running() {
            return Err(VaultError::Paused);
        }
        if ctx.predecessor != self.owner_id {
            return Err(VaultError::NotAllowed);
        }
        let ghost known = names_view(self.whitelisted_tokens@);
        let ghost wanted = names_view(tokens@);
        let mut i: usize = 0;
        proof {
            assert(wanted.take(0) =~= Seq::<Seq<char>>::empty());
        }
        while i < tokens.len()
            invariant
                i <= tokens.len(),
                wanted == names_view(tokens@),
                no_repeats(known),
                names_view(self.whitelisted_tokens@) == extended(known, wanted.take(i as int)),
                self.owner_id == old(self).owner_id,
                self.ledger == old(self).ledger,
                self.state == old(self).state,
                self.last_reward_amount == old(self).last_reward_amount,
            decreases tokens.len() - i,
        {
            let ghost done = wanted.take(i as int);
            let ghost next = wanted.take(i as int + 1);
            proof {
                assert(next.drop_last() =~= done);
                assert(next.last() == tokens[i as int]@);
            }
            if !is_listed(&self.whitelisted_tokens, &tokens[i]) {
                let ghost before = names_view(self.whitelisted_tokens@);
                self.whitelisted_tokens.push(tokens[i].clone());
                assert(names_view(self.whitelisted_tokens@) =~= before.push(tokens[i as int]@));
            }
            i += 1;
        }
        proof {
            assert(wanted.take(tokens.len() as int) =~= wanted);
            lemma_extended(known, wanted);
        }
        Ok(())
    }

    /// Return the whitelisted tokens, in the order in which they were listed.
    pub fn get_whitelisted_tokens(&self) -> (tokens: Vec<String>)
        ensures
            names_view(tokens@) == self@.whitelist,
    {
        let mut tokens: Vec<String> = Vec::new();
        let mut i: usize = 0;
        while i < self.whitelisted_tokens.len()
            invariant
                i <= self.whitelisted_tokens.len(),
                names_view(tokens@) == names_view(self.whitelisted_tokens@).take(i as int),
            decreases self.whitelisted_tokens.len() - i,
        {
            let ghost before = names_view(tokens@);
            let ghost all = names_view(self.whitelisted_tokens@);
            tokens.push(self.whitelisted_tokens[i].clone());
            proof {
                assert(names_view(tokens@) =~= before.push(all[i as int]));
                assert(all.take(i as int + 1) =~= all.take(i as int).push(all[i as int]));
            }
            i += 1;
        }
        assert(names_view(self.whitelisted_tokens@).take(self.whitelisted_tokens.len() as int)
            =~= names_view(self.whitelisted_tokens@));
        tokens
    }

    /// The native amount of `account_id` and what of it is bound by storage,
    /// out of what the balance store holds for the account; `None` where it
    /// holds nothing. For the account itself only.
    pub fn get_user_storage_state(
        &self,
        ctx: &CallContext,
        account_id: &String,
        account: Option<&AccountSnapshot>,
    ) -> (res: Result<Option<RefStorageState>, VaultError>)
        ensures
            res == (if ctx.predecessor@ != account_id@ {
                Err::<Option<RefStorageState>, VaultError>(VaultError::NotAllowed)
            } else {
                Ok(
                    match account {
                        Some(a) => Some(
                            RefStorageState { deposit: a.near_amount, usage: a.storage_usage },
                        ),
                        None => None,
                    },
                )
            }),
    {
        if ctx.predecessor != *account_id {
            return Err(VaultError::NotAllowed);
        }
        match account {
            Some(a) => Ok(Some(RefStorageState { deposit: a.near_amount, usage: a.storage_usage })),
            None => Ok(None),
        }
    }

    /// The balances by token of a depositor, out of what the balance store
    /// holds for the account; none where it holds nothing.
    pub fn get_deposits(&self, account: Option<&AccountSnapshot>) -> (balances: Vec<Holding>)
        ensures
            table_of(balances@) == (match account {
                Some(a) => table_of(a.tokens@),
                None => Seq::<(Seq<char>, nat)>::empty(),
            }),
    {
        let mut balances: Vec<Holding> = Vec::new();
        match account {
            Some(a) => {
                let mut i: usize = 0;
                while i < a.tokens.len()
                    invariant
                        i <= a.tokens.len(),
                        table_of(balances@) == table_of(a.tokens@).take(i as int),
                    decreases a.tokens.len() - i,
                {
                    let ghost before = table_of(balances@);
                    let ghost all = table_of(a.tokens@);
                    balances.push(
                        Holding { id: a.tokens[i].id.clone(), amount: a.tokens[i].amount },
                    );
                    proof {
                        assert(table_of(balances@) =~= before.push(all[i as int]));
                        assert(all.take(i as int + 1) =~= all.take(i as int).push(all[i as int]));
                    }
                    i += 1;
                }
                assert(table_of(a.tokens@).take(a.tokens.len() as int) =~= table_of(a.tokens@));
            },
            None => {
                assert(table_of(balances@) =~= Seq::<(Seq<char>, nat)>::empty());
            },
        }
        balances
    }
}

/// What a paused vault answers to anything but a read.
pub open spec fn gate(state: RunningState) -> Result<(), VaultError> {
    if state == RunningState::Paused {
        Err(VaultError::Paused)
    } else {
        Ok(())
    }
}

/// Whether an entry point that serves `account_id` alone lets the caller in:
/// not while the vault is paused, and nobody but the account itself.
pub open spec fn entered_as(s: VaultState, ctx: CallContext, account_id: Seq<char>) -> Result<
    (),
    VaultError,
> {
    if s.state == RunningState::Paused {
        Err(VaultError::Paused)
    } else if ctx.predecessor@ != account_id {
        Err(VaultError::NotAllowed)
    } else {
        Ok(())
    }
}

/// Whether an entry point of the compound lets the caller in: not while the
/// vault is paused, and nobody but the owner, an operator or the vault itself.
pub open spec fn entered_as_operator(s: VaultState, ctx: CallContext) -> Result<(), VaultError> {
    if s.state == RunningState::Paused {
        Err(VaultError::Paused)
    } else if !may_compound(s.owner, ctx.current@, ctx.predecessor@) {
        Err(VaultError::NotAllowed)
    } else {
        Ok(())
    }
}

/// Whether a step that only the vault itself may enter lets the caller in.
pub open spec fn entered_as_vault(s: VaultState, ctx: CallContext) -> Result<(), VaultError> {
    if s.state == RunningState::Paused {
        Err(VaultError::Paused)
    } else if ctx.predecessor@ != ctx.current@ {
        Err(VaultError::NotAllowed)
    } else {
        Ok(())
    }
}

/// Whether a step of the vault may go on after a call that hands nothing on
/// but its success.
pub open spec fn step_done(s: VaultState, ctx: CallContext, results: Seq<PromiseOutcome>) -> Result<
    (),
    VaultError,
> {
    if s.state == RunningState::Paused {
        Err(VaultError::Paused)
    } else {
        match resumed(ctx, results) {
            Ok(_) => Ok(()),
            Err(e) => Err(e),
        }
    }
}

/// The number of shares that a step of the vault resumes with.
pub open spec fn step_shares(s: VaultState, ctx: CallContext, results: Seq<PromiseOutcome>) -> Result<
    u128,
    VaultError,
> {
    if s.state == RunningState::Paused {
        Err(VaultError::Paused)
    } else {
        resumed_shares(ctx, results)
    }
}

/// The amount that a step of the vault resumes with.
pub open spec fn step_amount(s: VaultState, ctx: CallContext, results: Seq<PromiseOutcome>) -> Result<
    u128,
    VaultError,
> {
    if s.state == RunningState::Paused {
        Err(VaultError::Paused)
    } else {
        resumed_amount(ctx, results)
    }
}

/// The balances by token that a step of the vault resumes with.
pub open spec fn step_balances(
    s: VaultState,
    ctx: CallContext,
    results: Seq<PromiseOutcome>,
) -> Result<Map<Seq<char>, nat>, VaultError> {
    if s.state == RunningState::Paused {
        Err(VaultError::Paused)
    } else {
        resumed_balances(ctx, results)
    }
}

/// The answer of a step that goes on with `plan` where the call before it
/// succeeded.
pub open spec fn then_plan(
    s: VaultState,
    ctx: CallContext,
    results: Seq<PromiseOutcome>,
    plan: Seq<Seq<CallView>>,
) -> Result<Seq<Seq<CallView>>, VaultError> {
    match step_done(s, ctx, results) {
        Err(e) => Err(e),
        Ok(_) => Ok(plan),
    }
}

/// The view of an answer that holds a plan.
pub open spec fn plan_answer(res: Result<Plan, VaultError>) -> Result<
    Seq<Seq<CallView>>,
    VaultError,
> {
    match res {
        Ok(plan) => Ok(plan_view(plan@)),
        Err(e) => Err(e),
    }
}

/// What the depositor may spend, by what the balance store holds for the
/// account; nothing where it holds nothing.
pub open spec fn available_of(account: Option<&AccountSnapshot>) -> u128 {
    match account {
        Some(a) => a.storage_available,
        None => 0,
    }
}

impl Contract {
    /// Lets the caller into an entry point that serves `account_id` alone.
    pub fn enter_as(&self, ctx: &CallContext, account_id: &String) -> (res: Result<(), VaultError>)
        ensures
            res == entered_as(self@, *ctx, account_id@),
    {
        if !self.state.is_running() {
            Err(VaultError::Paused)
        } else if ctx.predecessor != *account_id {
            Err(VaultError::NotAllowed)
        } else {
            Ok(())
        }
    }

    /// Lets the caller into an entry point of the compound.
    pub fn enter_as_operator(&self, ctx: &CallContext) -> (res: Result<(), VaultError>)
        ensures
            res == entered_as_operator(self@, *ctx),
    {
        if !self.state.is_running() {
            Err(VaultError::Paused)
        } else {
            self.check_autocompounds_caller(ctx)
        }
    }

    /// Lets the caller into a step that only the vault itself may enter.
    pub fn enter_as_vault(&self, ctx: &CallContext) -> (res: Result<(), VaultError>)
        ensures
            res == entered_as_vault(self@, *ctx),
    {
        if !self.state.is_running() {
            Err(VaultError::Paused)
        } else if !is_self_call(ctx) {
            Err(VaultError::NotAllowed)
        } else {
            Ok(())
        }
    }

    /// Enters a step that resumes after a call that hands nothing on but its
    /// success.
    pub fn enter_step(&self, ctx: &CallContext, results: &Vec<PromiseOutcome>) -> (res: Result<
        (),
        VaultError,
    >)
        ensures
            res == step_done(self@, *ctx, results@),
    {
        if !self.state.is_running() {
            Err(VaultError::Paused)
        } else {
            match resume(ctx, results) {
                Ok(_) => Ok(()),
                Err(e) => Err(e),
            }
        }
    }

    /// Enters a step that resumes with a number of shares.
    pub fn enter_step_with_shares(&self, ctx: &CallContext, results: &Vec<PromiseOutcome>) -> (res:
        Result<u128, VaultError>)
        ensures
            res == step_shares(self@, *ctx, results@),
    {
        if !self.state.is_running() {
            Err(VaultError::Paused)
        } else {
            resume_with_shares(ctx, results)
        }
    }

    /// Enters a step that resumes with an amount.
    pub fn enter_step_with_amount(&self, ctx: &CallContext, results: &Vec<PromiseOutcome>) -> (res:
        Result<u128, VaultError>)
        ensures
            res == step_amount(self@, *ctx, results@),
    {
        if !self.state.is_running() {
            Err(VaultError::Paused)
        } else {
            resume_with_amount(ctx, results)
        }
    }

    /// Enters a step that resumes with balances by token. They come as rows
    /// without repeated names, in no stated order.
    pub fn enter_step_with_balances(
        &self,
        ctx: &CallContext,
        results: &Vec<PromiseOutcome>,
    ) -> (res: Result<Vec<Holding>, VaultError>)
        ensures
            match res {
                Ok(rows) => distinct(table_of(rows@)) && step_balances(self@, *ctx, results@)
                    == Ok::<Map<Seq<char>, nat>, VaultError>(as_map(table_of(rows@))),
                Err(e) => step_balances(self@, *ctx, results@) == Err::<
                    Map<Seq<char>, nat>,
                    VaultError,
                >(e),
            },
    {
        if !self.state.is_running() {
            Err(VaultError::Paused)
        } else {
            resume_with_balances(ctx, results)
        }
    }
}

/// What the depositor may spend, by what the balance store holds for the
/// account; nothing where it holds nothing.
pub fn available(account: Option<&AccountSnapshot>) -> (amount: u128)
    ensures
        amount == available_of(account),
{
    match account {
        Some(a) => a.storage_available,
        None => 0,
    }
}

/// Whether `token` is among `tokens`.
pub fn is_listed(tokens: &Vec<String>, token: &String) -> (listed: bool)
    ensures
        listed == names_view(tokens@).contains(token@),
{
    let mut i: usize = 0;
    while i < tokens.len()
        invariant
            i <= tokens.len(),
            forall|k: int| 0 <= k < i ==> names_view(tokens@)[k] != token@,
        decreases tokens.len() - i,
    {
        if tokens[i] == *token {
            assert(names_view(tokens@)[i as int] == token@);
            return true;
        }
        i += 1;
    }
    false
}

/// Whether no token occurs twice in `tokens`.
pub fn all_different(tokens: &Vec<String>) -> (different: bool)
    ensures
        different == no_repeats(names_view(tokens@)),
{
    let ghost names = names_view(tokens@);
    let mut j: usize = 0;
    while j < tokens.len()
        invariant
            j <= tokens.len(),
            names == names_view(tokens@),
            forall|a: int, b: int| 0 <= a < b < j ==> names[a] != names[b],
        decreases tokens.len() - j,
    {
        let mut i: usize = 0;
        while i < j
            invariant
                i <= j < tokens.len(),
                names == names_view(tokens@),
                forall|a: int| 0 <= a < i ==> names[a] != names[j as int],
            decreases j - i,
        {
            if tokens[i] == tokens[j] {
                assert(names[i as int] == names[j as int]);
                return false;
            }
            i += 1;
        }
        j += 1;
    }
    true
}

/// Whether no name occurs twice in `rows`.
pub fn all_distinct(rows: &Vec<Holding>) -> (different: bool)
    ensures
        different == distinct(table_of(rows@)),
{
    let ghost t = table_of(rows@);
    let mut j: usize = 0;
    while j < rows.len()
        invariant
            j <= rows.len(),
            t == table_of(rows@),
            forall|a: int, b: int| 0 <= a < b < j ==> (#[trigger] t[a]).0 != (#[trigger] t[b]).0,
        decreases rows.len() - j,
    {
        let mut i: usize = 0;
        while i < j
            invariant
                i <= j < rows.len(),
                t == table_of(rows@),
                forall|a: int| 0 <= a < i ==> (#[trigger] t[a]).0 != t[j as int].0,
            decreases j - i,
        {
            if rows[i].id == rows[j].id {
                assert(t[i as int].0 == t[j as int].0);
                return false;
            }
            i += 1;
        }
        j += 1;
    }
    true
}

} // verus!

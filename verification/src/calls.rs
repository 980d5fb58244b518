//! The calls that the vault asks its host to issue: to the exchange, the
//! farm, the wrapped-native token, the reward token, and to the vault itself
//! when a chain of calls is to resume in one of its own steps.
//!
//! A call is data. Each type here has a view in which account names and
//! messages are sequences of characters, and the contracts of the entry
//! points state the calls they ask for as such views.

use vstd::prelude::*;
use vstd::string::StringExecFns;

verus! {

/// The exchange on which the vault holds its liquidity.
pub const CONTRACT_ID_REF_EXC: &'static str = "exchange.ref-dev.testnet";

/// The farm in which the vault stakes its liquidity shares.
pub const CONTRACT_ID_FARM: &'static str = "farm.leopollum.testnet";

/// The token in which the farm pays rewards.
pub const CONTRACT_ID_REF_TESTNET: &'static str = "ref.fakes.testnet";

/// The wrapped native token.
pub const CONTRACT_ID_WRAP_TESTNET: &'static str = "wrap.testnet";

/// The first token of the vault's pool.
pub const CONTRACT_ID_EHT_TESTNET: &'static str = "eth.fakes.testnet";

/// The second token of the vault's pool.
pub const CONTRACT_ID_DAI_TESTNET: &'static str = "dai.fakes.testnet";

/// The pool in which the vault holds its liquidity.
pub const VAULT_POOL: u64 = 193;

/// The pool that trades the wrapped native token against the pool's first token.
pub const WRAP_TO_FIRST_POOL: u64 = 356;

/// The pool that trades the wrapped native token against the pool's second token.
pub const WRAP_TO_SECOND_POOL: u64 = 231;

/// The pool that trades the reward token against the pool's first token.
pub const REWARD_TO_FIRST_POOL: u64 = 321;

/// The pool that trades the reward token against the pool's second token.
pub const REWARD_TO_SECOND_POOL: u64 = 326;

/// The seed under which the farm holds the vault's stake.
pub const FARM_SEED: &'static str = "exchange.ref-dev.testnet@193";

/// The pool's liquidity token as the exchange names it in a transfer.
pub const POOL_TOKEN: &'static str = ":193";

/// The key under which claimed rewards are kept until they are swapped.
pub const REWARD_KEY: &'static str = "ref-finance.testnet@193#1";

/// What is attached to a call that adds liquidity, to pay for its storage.
pub const LIQUIDITY_DEPOSIT: u128 = 970000000000000000000;

/// What is attached to a registration with the exchange.
pub const REGISTRATION_DEPOSIT: u128 = 10000000000000000000000;

/// The least that a withdrawal accepts of each token when it removes liquidity.
pub const MIN_WITHDRAWN: u128 = 1000;

/// Single swap action.
#[derive(Clone, PartialEq, Eq, Debug)]
pub struct SwapAction {
    /// Pool which should be used for swapping.
    pub pool_id: u64,
    /// Token to swap from.
    pub token_in: String,
    /// Amount to exchange. With `None` the exchange takes what the previous
    /// action gave.
    pub amount_in: Option<u128>,
    /// Token to swap into.
    pub token_out: String,
    /// Required minimum amount of `token_out`.
    pub min_amount_out: u128,
}

/// The view of a swap action.
pub struct SwapActionView {
    pub pool_id: u64,
    pub token_in: Seq<char>,
    pub amount_in: Option<u128>,
    pub token_out: Seq<char>,
    pub min_amount_out: u128,
}

impl View for SwapAction {
    type V = SwapActionView;

    open spec fn view(&self) -> SwapActionView {
        SwapActionView {
            pool_id: self.pool_id,
            token_in: self.token_in@,
            amount_in: self.amount_in,
            token_out: self.token_out@,
            min_amount_out: self.min_amount_out,
        }
    }
}

/// The views of a vector of swap actions.
pub open spec fn actions_view(actions: Seq<SwapAction>) -> Seq<SwapActionView> {
    actions.map_values(|a: SwapAction| a@)
}

/// The views of the amounts that a call may leave out.
pub open spec fn amounts_view(amounts: Option<Vec<u128>>) -> Option<Seq<u128>> {
    match amounts {
        Some(v) => Some(v@),
        None => None,
    }
}

/// The view of a name that a call may leave out.
pub open spec fn name_view(name: Option<String>) -> Option<Seq<char>> {
    match name {
        Some(n) => Some(n@),
        None => None,
    }
}

/// What the vault asks of the exchange, and of itself where it answers as an
/// exchange does.
#[derive(Clone, PartialEq, Eq, Debug)]
pub enum RefExchange {
    ExchangeCallbackPostWithdraw { token_id: String, sender_id: String, amount: u128 },
    GetPoolShares { pool_id: u64, account_id: String },
    Metadata,
    StorageDeposit { account_id: String },
    GetDeposits { account_id: String },
    AddLiquidity { pool_id: u64, amounts: Vec<u128>, min_amounts: Option<Vec<u128>> },
    Swap { actions: Vec<SwapAction>, referral_id: Option<String> },
    MftTransferCall { receiver_id: String, token_id: String, amount: u128, msg: String },
    RemoveLiquidity { pool_id: u64, shares: u128, min_amounts: Vec<u128> },
    Withdraw { token_id: String, amount: u128, unregister: Option<bool> },
}

/// The view of a request to the exchange.
pub enum RefExchangeView {
    ExchangeCallbackPostWithdraw { token_id: Seq<char>, sender_id: Seq<char>, amount: u128 },
    GetPoolShares { pool_id: u64, account_id: Seq<char> },
    Metadata,
    StorageDeposit { account_id: Seq<char> },
    GetDeposits { account_id: Seq<char> },
    AddLiquidity { pool_id: u64, amounts: Seq<u128>, min_amounts: Option<Seq<u128>> },
    Swap { actions: Seq<SwapActionView>, referral_id: Option<Seq<char>> },
    MftTransferCall { receiver_id: Seq<char>, token_id: Seq<char>, amount: u128, msg: Seq<char> },
    RemoveLiquidity { pool_id: u64, shares: u128, min_amounts: Seq<u128> },
    Withdraw { token_id: Seq<char>, amount: u128, unregister: Option<bool> },
}

impl View for RefExchange {
    type V = RefExchangeView;

    open spec fn view(&self) -> RefExchangeView {
        match *self {
            RefExchange::ExchangeCallbackPostWithdraw { token_id, sender_id, amount } =>
                RefExchangeView::ExchangeCallbackPostWithdraw {
                    token_id: token_id@,
                    sender_id: sender_id@,
                    amount,
                },
            RefExchange::GetPoolShares { pool_id, account_id } => RefExchangeView::GetPoolShares {
                pool_id,
                account_id: account_id@,
            },
            RefExchange::Metadata => RefExchangeView::Metadata,
            RefExchange::StorageDeposit { account_id } => RefExchangeView::StorageDeposit {
                account_id: account_id@,
            },
            RefExchange::GetDeposits { account_id } => RefExchangeView::GetDeposits {
                account_id: account_id@,
            },
            RefExchange::AddLiquidity { pool_id, amounts, min_amounts } =>
                RefExchangeView::AddLiquidity {
                    pool_id,
                    amounts: amounts@,
                    min_amounts: amounts_view(min_amounts),
                },
            RefExchange::Swap { actions, referral_id } => RefExchangeView::Swap {
                actions: actions_view(actions@),
                referral_id: name_view(referral_id),
            },
            RefExchange::MftTransferCall { receiver_id, token_id, amount, msg } =>
                RefExchangeView::MftTransferCall {
                    receiver_id: receiver_id@,
                    token_id: token_id@,
                    amount,
                    msg: msg@,
                },
            RefExchange::RemoveLiquidity { pool_id, shares, min_amounts } =>
                RefExchangeView::RemoveLiquidity { pool_id, shares, min_amounts: min_amounts@ },
            RefExchange::Withdraw { token_id, amount, unregister } => RefExchangeView::Withdraw {
                token_id: token_id@,
                amount,
                unregister,
            },
        }
    }
}

/// What the vault asks of the farm.
#[derive(Clone, PartialEq, Eq, Debug)]
pub enum FluxusFarming {
    MftTransferCall { receiver_id: String, token_id: String, amount: u128, msg: String },
    ClaimRewardBySeed { seed_id: String },
    WithdrawSeed { seed_id: String, amount: u128, msg: String },
    WithdrawReward { token_id: String, amount: u128, unregister: String },
    GetReward { account_id: String, token_id: String },
}

/// The view of a request to the farm.
pub enum FluxusFarmingView {
    MftTransferCall { receiver_id: Seq<char>, token_id: Seq<char>, amount: u128, msg: Seq<char> },
    ClaimRewardBySeed { seed_id: Seq<char> },
    WithdrawSeed { seed_id: Seq<char>, amount: u128, msg: Seq<char> },
    WithdrawReward { token_id: Seq<char>, amount: u128, unregister: Seq<char> },
    GetReward { account_id: Seq<char>, token_id: Seq<char> },
}

impl View for FluxusFarming {
    type V = FluxusFarmingView;

    open spec fn view(&self) -> FluxusFarmingView {
        match *self {
            FluxusFarming::MftTransferCall { receiver_id, token_id, amount, msg } =>
                FluxusFarmingView::MftTransferCall {
                    receiver_id: receiver_id@,
                    token_id: token_id@,
                    amount,
                    msg: msg@,
                },
            FluxusFarming::ClaimRewardBySeed { seed_id } => FluxusFarmingView::ClaimRewardBySeed {
                seed_id: seed_id@,
            },
            FluxusFarming::WithdrawSeed { seed_id, amount, msg } => FluxusFarmingView::WithdrawSeed {
                seed_id: seed_id@,
                amount,
                msg: msg@,
            },
            FluxusFarming::WithdrawReward { token_id, amount, unregister } =>
                FluxusFarmingView::WithdrawReward {
                    token_id: token_id@,
                    amount,
                    unregister: unregister@,
                },
            FluxusFarming::GetReward { account_id, token_id } => FluxusFarmingView::GetReward {
                account_id: account_id@,
                token_id: token_id@,
            },
        }
    }
}

/// What the vault asks of the wrapped native token.
#[derive(Clone, PartialEq, Eq, Debug)]
pub enum Wrapnear {
    StorageDeposit,
    NearDeposit,
    FtTransferCall { receiver_id: String, amount: String, msg: String },
    NearWithdraw { amount: u128 },
}

/// The view of a request to the wrapped native token.
pub enum WrapnearView {
    StorageDeposit,
    NearDeposit,
    FtTransferCall { receiver_id: Seq<char>, amount: Seq<char>, msg: Seq<char> },
    NearWithdraw { amount: u128 },
}

impl View for Wrapnear {
    type V = WrapnearView;

    open spec fn view(&self) -> WrapnearView {
        match *self {
            Wrapnear::StorageDeposit => WrapnearView::StorageDeposit,
            Wrapnear::NearDeposit => WrapnearView::NearDeposit,
            Wrapnear::FtTransferCall { receiver_id, amount, msg } => WrapnearView::FtTransferCall {
                receiver_id: receiver_id@,
                amount: amount@,
                msg: msg@,
            },
            Wrapnear::NearWithdraw { amount } => WrapnearView::NearWithdraw { amount },
        }
    }
}

/// What the vault asks of the reward token.
#[derive(Clone, PartialEq, Eq, Debug)]
pub enum ExtRefFakes {
    FtTransferCall { receiver_id: String, amount: String, msg: String },
}

/// The view of a request to the reward token.
pub enum ExtRefFakesView {
    FtTransferCall { receiver_id: Seq<char>, amount: Seq<char>, msg: Seq<char> },
}

impl View for ExtRefFakes {
    type V = ExtRefFakesView;

    open spec fn view(&self) -> ExtRefFakesView {
        match *self {
            ExtRefFakes::FtTransferCall { receiver_id, amount, msg } =>
                ExtRefFakesView::FtTransferCall {
                    receiver_id: receiver_id@,
                    amount: amount@,
                    msg: msg@,
                },
        }
    }
}

/// The steps of the vault in which a chain of calls resumes. A step names
/// where a workflow waits while a call is under way, and carries what the
/// workflow needs to go on from there: who deposits or withdraws, how much,
/// and what earlier steps found. Nothing of a workflow under way is kept
/// anywhere else.
#[derive(Clone, PartialEq, Eq, Debug)]
pub enum VaultContract {
    CallbackSharesQueried { account_id: String, vault_contract: String, amount: u128 },
    CallbackFirstSwapped {
        account_id: String,
        vault_contract: String,
        amount: u128,
        baseline: u128,
    },
    CallbackStakeLiquidity { account_id: String, vault_contract: String, baseline: u128 },
    CallbackUpdateUserBalance { account_id: String, baseline: u128 },
    CallGetPoolShares { pool_id: u64, account_id: String },
    CallbackWithdrawRewards { token_id: String },
    CallbackUnstaked { vault_contract: String, shares: u128 },
    CallbackLiquidityRemoved { vault_contract: String },
    SwapToWithdrawAll,
    CallbackToWithdraw { account_id: String },
    CallbackToNearWithdraw { account_id: String, amount: u128 },
    CallbackStake { account_id: String },
    CallbackRewardSent { farm_id: String },
    SwapToAuto { farm_id: String },
    CallbackToBalance,
    StakeAndLiquidityAuto { account_id: String, vault_contract: String },
    BalanceActualization { shares: String },
    AddNearBalance {
        account_id: String,
        vault_contract: String,
        amount_available: u128,
        baseline: u128,
    },
    SubNearBalance { account_id: String, amount_available: u128 },
}

/// The view of a step of the vault.
pub enum VaultContractView {
    CallbackSharesQueried { account_id: Seq<char>, vault_contract: Seq<char>, amount: u128 },
    CallbackFirstSwapped {
        account_id: Seq<char>,
        vault_contract: Seq<char>,
        amount: u128,
        baseline: u128,
    },
    CallbackStakeLiquidity { account_id: Seq<char>, vault_contract: Seq<char>, baseline: u128 },
    CallbackUpdateUserBalance { account_id: Seq<char>, baseline: u128 },
    CallGetPoolShares { pool_id: u64, account_id: Seq<char> },
    CallbackWithdrawRewards { token_id: Seq<char> },
    CallbackUnstaked { vault_contract: Seq<char>, shares: u128 },
    CallbackLiquidityRemoved { vault_contract: Seq<char> },
    SwapToWithdrawAll,
    CallbackToWithdraw { account_id: Seq<char> },
    CallbackToNearWithdraw { account_id: Seq<char>, amount: u128 },
    CallbackStake { account_id: Seq<char> },
    CallbackRewardSent { farm_id: Seq<char> },
    SwapToAuto { farm_id: Seq<char> },
    CallbackToBalance,
    StakeAndLiquidityAuto { account_id: Seq<char>, vault_contract: Seq<char> },
    BalanceActualization { shares: Seq<char> },
    AddNearBalance {
        account_id: Seq<char>,
        vault_contract: Seq<char>,
        amount_available: u128,
        baseline: u128,
    },
    SubNearBalance { account_id: Seq<char>, amount_available: u128 },
}

impl View for VaultContract {
    type V = VaultContractView;

    open spec fn view(&self) -> VaultContractView {
        match *self {
            VaultContract::CallbackSharesQueried { account_id, vault_contract, amount } =>
                VaultContractView::CallbackSharesQueried {
                    account_id: account_id@,
                    vault_contract: vault_contract@,
                    amount,
                },
            VaultContract::CallbackFirstSwapped { account_id, vault_contract, amount, baseline } =>
                VaultContractView::CallbackFirstSwapped {
                    account_id: account_id@,
                    vault_contract: vault_contract@,
                    amount,
                    baseline,
                },
            VaultContract::CallbackStakeLiquidity { account_id, vault_contract, baseline } =>
                VaultContractView::CallbackStakeLiquidity {
                    account_id: account_id@,
                    vault_contract: vault_contract@,
                    baseline,
                },
            VaultContract::CallbackUpdateUserBalance { account_id, baseline } =>
                VaultContractView::CallbackUpdateUserBalance { account_id: account_id@, baseline },
            VaultContract::CallGetPoolShares { pool_id, account_id } =>
                VaultContractView::CallGetPoolShares { pool_id, account_id: account_id@ },
            VaultContract::CallbackWithdrawRewards { token_id } =>
                VaultContractView::CallbackWithdrawRewards { token_id: token_id@ },
            VaultContract::CallbackUnstaked { vault_contract, shares } =>
                VaultContractView::CallbackUnstaked { vault_contract: vault_contract@, shares },
            VaultContract::CallbackLiquidityRemoved { vault_contract } =>
                VaultContractView::CallbackLiquidityRemoved { vault_contract: vault_contract@ },
            VaultContract::SwapToWithdrawAll => VaultContractView::SwapToWithdrawAll,
            VaultContract::CallbackToWithdraw { account_id } =>
                VaultContractView::CallbackToWithdraw { account_id: account_id@ },
            VaultContract::CallbackToNearWithdraw { account_id, amount } =>
                VaultContractView::CallbackToNearWithdraw { account_id: account_id@, amount },
            VaultContract::CallbackRewardSent { farm_id } => VaultContractView::CallbackRewardSent {
                farm_id: farm_id@,
            },
            VaultContract::CallbackStake { account_id } => VaultContractView::CallbackStake {
                account_id: account_id@,
            },
            VaultContract::SwapToAuto { farm_id } => VaultContractView::SwapToAuto {
                farm_id: farm_id@,
            },
            VaultContract::CallbackToBalance => VaultContractView::CallbackToBalance,
            VaultContract::StakeAndLiquidityAuto { account_id, vault_contract } =>
                VaultContractView::StakeAndLiquidityAuto {
                    account_id: account_id@,
                    vault_contract: vault_contract@,
                },
            VaultContract::BalanceActualization { shares } =>
                VaultContractView::BalanceActualization { shares: shares@ },
            VaultContract::AddNearBalance {
                account_id,
                vault_contract,
                amount_available,
                baseline,
            } => VaultContractView::AddNearBalance {
                account_id: account_id@,
                vault_contract: vault_contract@,
                amount_available,
                baseline,
            },
            VaultContract::SubNearBalance { account_id, amount_available } =>
                VaultContractView::SubNearBalance { account_id: account_id@, amount_available },
        }
    }
}

/// What a call asks for, by the interface that it goes through.
#[derive(Clone, PartialEq, Eq, Debug)]
pub enum Request {
    Exchange(RefExchange),
    Farm(FluxusFarming),
    Wrap(Wrapnear),
    RewardToken(ExtRefFakes),
    Vault(VaultContract),
}

/// The view of a request.
pub enum RequestView {
    Exchange(RefExchangeView),
    Farm(FluxusFarmingView),
    Wrap(WrapnearView),
    RewardToken(ExtRefFakesView),
    Vault(VaultContractView),
}

impl View for Request {
    type V = RequestView;

    open spec fn view(&self) -> RequestView {
        match *self {
            Request::Exchange(r) => RequestView::Exchange(r@),
            Request::Farm(r) => RequestView::Farm(r@),
            Request::Wrap(r) => RequestView::Wrap(r@),
            Request::RewardToken(r) => RequestView::RewardToken(r@),
            Request::Vault(r) => RequestView::Vault(r@),
        }
    }
}

/// One call: to whom, what, with how much attached and how much gas.
#[derive(Clone, PartialEq, Eq, Debug)]
pub struct Call {
    /// The account that receives the call.
    pub receiver: String,
    /// What is asked of it.
    pub request: Request,
    /// The amount attached, in the smallest unit of the native token.
    pub deposit: u128,
    /// The gas attached.
    pub gas: u64,
}

/// The view of a call.
pub struct CallView {
    pub receiver: Seq<char>,
    pub request: RequestView,
    pub deposit: u128,
    pub gas: u64,
}

impl View for Call {
    type V = CallView;

    open spec fn view(&self) -> CallView {
        CallView {
            receiver: self.receiver@,
            request: self.request@,
            deposit: self.deposit,
            gas: self.gas,
        }
    }
}

/// A chain of calls: each is issued when the one before it has returned, and
/// sees its result. A call to a remote service is followed by steps of the
/// vault only: the step looks at the result and asks for what comes next, or
/// ends the chain.
pub type Chain = Vec<Call>;

/// The calls that an entry point asks for: chains that run independently of
/// each other. Where one thing has to follow another, both stand in one
/// chain, or the second is asked for by the step in which the first ends.
pub type Plan = Vec<Chain>;

/// The view of a chain.
pub open spec fn chain_view(chain: Seq<Call>) -> Seq<CallView> {
    chain.map_values(|c: Call| c@)
}

/// The view of a plan.
pub open spec fn plan_view(plan: Seq<Vec<Call>>) -> Seq<Seq<CallView>> {
    plan.map_values(|chain: Vec<Call>| chain_view(chain@))
}

/// A call to the exchange.
pub open spec fn to_exchange(request: RefExchangeView, deposit: u128, gas: u64) -> CallView {
    CallView {
        receiver: CONTRACT_ID_REF_EXC@,
        request: RequestView::Exchange(request),
        deposit,
        gas,
    }
}

/// A call to the farm.
pub open spec fn to_farm(request: FluxusFarmingView, deposit: u128, gas: u64) -> CallView {
    CallView { receiver: CONTRACT_ID_FARM@, request: RequestView::Farm(request), deposit, gas }
}

/// A call to the wrapped native token.
pub open spec fn to_wrap(request: WrapnearView, deposit: u128, gas: u64) -> CallView {
    CallView {
        receiver: CONTRACT_ID_WRAP_TESTNET@,
        request: RequestView::Wrap(request),
        deposit,
        gas,
    }
}

/// A call to the reward token.
pub open spec fn to_reward_token(request: ExtRefFakesView, deposit: u128, gas: u64) -> CallView {
    CallView {
        receiver: CONTRACT_ID_REF_TESTNET@,
        request: RequestView::RewardToken(request),
        deposit,
        gas,
    }
}

/// A call to the vault `current` itself.
pub open spec fn to_vault(
    current: Seq<char>,
    request: VaultContractView,
    deposit: u128,
    gas: u64,
) -> CallView {
    CallView { receiver: current, request: RequestView::Vault(request), deposit, gas }
}

/// A call to the exchange.
pub fn exchange_call(request: RefExchange, deposit: u128, gas: u64) -> (call: Call)
    ensures
        call@ == to_exchange(request@, deposit, gas),
{
    Call {
        receiver: String::from_str(CONTRACT_ID_REF_EXC),
        request: Request::Exchange(request),
        deposit,
        gas,
    }
}

/// A call to the farm.
pub fn farm_call(request: FluxusFarming, deposit: u128, gas: u64) -> (call: Call)
    ensures
        call@ == to_farm(request@, deposit, gas),
{
    Call {
        receiver: String::from_str(CONTRACT_ID_FARM),
        request: Request::Farm(request),
        deposit,
        gas,
    }
}

/// A call to the wrapped native token.
pub fn wrap_call(request: Wrapnear, deposit: u128, gas: u64) -> (call: Call)
    ensures
        call@ == to_wrap(request@, deposit, gas),
{
    Call {
        receiver: String::from_str(CONTRACT_ID_WRAP_TESTNET),
        request: Request::Wrap(request),
        deposit,
        gas,
    }
}

/// A call to the reward token.
pub fn reward_token_call(request: ExtRefFakes, deposit: u128, gas: u64) -> (call: Call)
    ensures
        call@ == to_reward_token(request@, deposit, gas),
{
    Call {
        receiver: String::from_str(CONTRACT_ID_REF_TESTNET),
        request: Request::RewardToken(request),
        deposit,
        gas,
    }
}

/// A call to the vault `current` itself.
pub fn vault_call(current: &String, request: VaultContract, deposit: u128, gas: u64) -> (call: Call)
    ensures
        call@ == to_vault(current@, request@, deposit, gas),
{
    Call { receiver: current.clone(), request: Request::Vault(request), deposit, gas }
}

/// The chain of one call.
pub fn chain_of_1(a: Call) -> (chain: Vec<Call>)
    ensures
        chain_view(chain@) == seq![a@],
{
    let mut chain: Vec<Call> = Vec::new();
    chain.push(a);
    assert(chain_view(chain@) =~= seq![a@]);
    chain
}

/// The chain of two calls.
pub fn chain_of_2(a: Call, b: Call) -> (chain: Vec<Call>)
    ensures
        chain_view(chain@) == seq![a@, b@],
{
    let mut chain: Vec<Call> = Vec::new();
    chain.push(a);
    chain.push(b);
    assert(chain_view(chain@) =~= seq![a@, b@]);
    chain
}

/// The chain of four calls.
pub fn chain_of_4(a: Call, b: Call, c: Call, d: Call) -> (chain: Vec<Call>)
    ensures
        chain_view(chain@) == seq![a@, b@, c@, d@],
{
    let mut chain: Vec<Call> = Vec::new();
    chain.push(a);
    chain.push(b);
    chain.push(c);
    chain.push(d);
    assert(chain_view(chain@) =~= seq![a@, b@, c@, d@]);
    chain
}

/// The plan that asks for nothing.
pub fn no_plan() -> (plan: Vec<Vec<Call>>)
    ensures
        plan_view(plan@) == Seq::<Seq<CallView>>::empty(),
{
    let plan: Vec<Vec<Call>> = Vec::new();
    assert(plan_view(plan@) =~= Seq::<Seq<CallView>>::empty());
    plan
}

/// The plan of one chain.
pub fn plan_of_1(a: Vec<Call>) -> (plan: Vec<Vec<Call>>)
    ensures
        plan_view(plan@) == seq![chain_view(a@)],
{
    let mut plan: Vec<Vec<Call>> = Vec::new();
    plan.push(a);
    assert(plan_view(plan@) =~= seq![chain_view(a@)]);
    plan
}

/// The plan of two chains.
pub fn plan_of_2(a: Vec<Call>, b: Vec<Call>) -> (plan: Vec<Vec<Call>>)
    ensures
        plan_view(plan@) == seq![chain_view(a@), chain_view(b@)],
{
    let mut plan: Vec<Vec<Call>> = Vec::new();
    plan.push(a);
    plan.push(b);
    assert(plan_view(plan@) =~= seq![chain_view(a@), chain_view(b@)]);
    plan
}

/// The view of a swap of one action without a referral.
pub open spec fn swap_of(
    pool_id: u64,
    token_in: Seq<char>,
    amount_in: u128,
    token_out: Seq<char>,
) -> RefExchangeView {
    RefExchangeView::Swap {
        actions: seq![
            SwapActionView {
                pool_id,
                token_in,
                amount_in: Some(amount_in),
                token_out,
                min_amount_out: 0,
            },
        ],
        referral_id: None,
    }
}

/// A swap of `amount_in` of `token_in` into `token_out` on pool `pool_id`,
/// whatever it gives, without a referral.
pub fn single_swap(pool_id: u64, token_in: &str, amount_in: u128, token_out: &str) -> (request:
    RefExchange)
    ensures
        request@ == swap_of(pool_id, token_in@, amount_in, token_out@),
{
    let action = SwapAction {
        pool_id,
        token_in: String::from_str(token_in),
        amount_in: Some(amount_in),
        token_out: String::from_str(token_out),
        min_amount_out: 0,
    };
    let mut actions: Vec<SwapAction> = Vec::new();
    actions.push(action);
    assert(actions_view(actions@) =~= seq![action@]);
    RefExchange::Swap { actions, referral_id: None }
}

/// The amounts `[first, second]`.
pub fn pair_of(first: u128, second: u128) -> (amounts: Vec<u128>)
    ensures
        amounts@ == seq![first, second],
{
    let mut amounts: Vec<u128> = Vec::new();
    amounts.push(first);
    amounts.push(second);
    assert(amounts@ =~= seq![first, second]);
    amounts
}

} // verus!

//! The saga coordinator: the handlers of the vault. Each one reads the
//! ledger, decides, writes the ledger, and only then returns the messages
//! that the host is to execute, in order. A handler that fails leaves the
//! ledger as it found it.
use vstd::prelude::*;
use vstd::string::*;
use crate::allocation::{mint_fault, mint_plan_of, plan_mint, MintPlan, Weights};
use crate::error::{ContractError, InputFault};
use crate::host::{deposit_amount, deposit_of, ChainSnapshot, ChainSnapshotView, Env, EnvView};
use crate::math::{decimal_text, uint128_to_string, Decimal18};
use crate::msg::{ConfigResponse, ConfigView, HandleMsg, HandleMsgView, InitMsg, InitMsgView};
use crate::msg::{LogAttribute, LogAttributeView, QueryMsg, QueryResponse, QueryResponseView};
use crate::msg::{Response, StateResponse, VaultMsg, VaultMsgView};
use crate::redemption::{burn_fault, burn_plan_of, plan_burn, BurnPlan};
use crate::state::{check_weights, read_config, read_state, store_config, store_state};
use crate::state::{weights_valid, Config, Ledger, State};

verus! {

/// The number of decimals of the claim token.
pub const CLAIM_TOKEN_DECIMALS: u8 = 6;

/// The upper-case form of a text, as std's `str::to_uppercase` gives it.
pub uninterp spec fn uppercase_text(s: Seq<char>) -> Seq<char>;

/// `str::to_uppercase` of std: the text with every character replaced by its
/// upper-case form.
#[verifier::external_body]
fn str_to_uppercase(s: &str) -> (r: String)
    ensures
        r@ == uppercase_text(s@),
{
    s.to_uppercase()
}

/// The denomination of the native reserve asset.
pub open spec fn native_denom_text() -> Seq<char> {
    "uluna"@
}

/// The symbol of the claim token.
pub open spec fn claim_symbol_text() -> Seq<char> {
    "eTerra"@
}

/// The name of a claim token whose base denomination, without its first
/// character and in upper case, is `ticker`.
pub open spec fn token_name_text(ticker: Seq<char>) -> Seq<char> {
    "Edge Terra "@ + ticker
}

/// The name of the claim token for a base denomination.
pub open spec fn claim_name_text(denom: Seq<char>) -> Seq<char> {
    token_name_text(uppercase_text(denom.skip(1)))
}

/// The name of a claim token from the upper-case ticker of its base unit.
pub fn token_name(ticker: &str) -> (r: String)
    ensures
        r@ == token_name_text(ticker@),
{
    "Edge Terra ".to_owned().concat(ticker)
}

/// The name of the claim token for a base denomination: the denomination
/// without its first character, in upper case, behind the vault's own prefix.
/// A denomination without characters has no such name.
pub fn claim_token_name(denom: &String) -> (r: Option<String>)
    ensures
        r is Some <==> denom@.len() > 0,
        r is Some ==> r->Some_0@ == claim_name_text(denom@),
{
    let text = denom.as_str();
    let len = text.unicode_len();
    if len == 0 {
        return None;
    }
    let rest = text.substring_char(1, len);
    assert(rest@ =~= denom@.skip(1));
    let ticker = str_to_uppercase(rest);
    Some(token_name(ticker.as_str()))
}

/// A log entry.
pub fn log(key: &str, value: String) -> (r: LogAttribute)
    ensures
        r@ == (LogAttributeView { key: key@, value: value@ }),
{
    LogAttribute { key: key.to_owned(), value }
}

/// The three allocation weights of a configuration.
pub open spec fn weights_of(config: ConfigView) -> Weights {
    Weights { luna: config.alloc_luna, anc: config.alloc_anc, mir: config.alloc_mir }
}

/// The books of a vault that has taken no deposit yet.
pub open spec fn empty_state() -> State {
    State {
        total_supply: 0,
        reserve_luna: Decimal18 { atomics: 0 },
        reserve_anc: Decimal18 { atomics: 0 },
        reserve_mir: Decimal18 { atomics: 0 },
    }
}

/// The configuration that a vault is created with.
pub open spec fn initial_config(env: EnvView, msg: InitMsgView) -> ConfigView {
    ConfigView {
        owner_addr: env.sender,
        stable_denom: msg.stable_denom,
        eterra_contract: None,
        terraswap_factory: msg.terraswap_factory,
        alloc_luna: msg.alloc_luna,
        alloc_anc: msg.alloc_anc,
        alloc_mir: msg.alloc_mir,
        mint_strategy: msg.mint_strategy,
    }
}

/// The message that creates the claim token of a new vault.
pub open spec fn instantiate_message(env: EnvView, msg: InitMsgView) -> VaultMsgView {
    VaultMsgView::InstantiateToken {
        code_id: msg.eterra_code_id,
        name: claim_name_text(msg.stable_denom),
        symbol: claim_symbol_text(),
        decimals: CLAIM_TOKEN_DECIMALS,
        initial_holder: env.contract_address,
        initial_balance: 0,
        minter: env.contract_address,
        hook_contract: env.contract_address,
    }
}

/// Why the creation of a vault is refused, if it is: the first of these that
/// holds. The ledger holds a configuration already, which is written once;
/// the weights do not add up to 10,000 basis points; the base denomination is
/// empty.
pub open spec fn init_fault(pre: Ledger, msg: InitMsgView) -> Option<ContractError> {
    if pre.config_view() is Some {
        Some(ContractError::Unauthorized)
    } else if !weights_valid(msg.alloc_luna, msg.alloc_anc, msg.alloc_mir) {
        Some(ContractError::InvalidInput(InputFault::WeightTotal))
    } else if msg.stable_denom.len() == 0 {
        Some(ContractError::InvalidInput(InputFault::EmptyDenom))
    } else {
        None
    }
}

/// What the creation of a vault does to the ledger and returns.
pub open spec fn init_spec(
    pre: Ledger,
    env: EnvView,
    msg: InitMsgView,
    post: Ledger,
    r: Result<Response, ContractError>,
) -> bool {
    match r {
        Ok(response) => {
            &&& init_fault(pre, msg) is None
            &&& post.config_view() == Some(initial_config(env, msg))
            &&& post.stored_state() == Some(empty_state())
            &&& response@.messages == seq![instantiate_message(env, msg)]
            &&& response@.log == Seq::<LogAttributeView>::empty()
        },
        Err(e) => init_fault(pre, msg) == Some(e) && post == pre,
    }
}

/// Creates the vault on a ledger that holds no configuration: stores the
/// configuration, with no companion token yet, and empty books, and asks the
/// host to create the claim token contract, which is to call back once it
/// exists.
pub fn init(ledger: &mut Ledger, env: Env, msg: InitMsg) -> (r: Result<Response, ContractError>)
    ensures
        init_spec(*old(ledger), env@, msg@, *final(ledger), r),
{
    if ledger.has_config() {
        return Err(ContractError::Unauthorized);
    }
    if !check_weights(msg.alloc_luna, msg.alloc_anc, msg.alloc_mir) {
        return Err(ContractError::InvalidInput(InputFault::WeightTotal));
    }
    let name = match claim_token_name(&msg.stable_denom) {
        Some(name) => name,
        None => {
            return Err(ContractError::InvalidInput(InputFault::EmptyDenom));
        },
    };
    let config = Config {
        owner_addr: env.sender,
        stable_denom: msg.stable_denom,
        eterra_contract: None,
        terraswap_factory: msg.terraswap_factory,
        alloc_luna: msg.alloc_luna,
        alloc_anc: msg.alloc_anc,
        alloc_mir: msg.alloc_mir,
        mint_strategy: msg.mint_strategy,
    };
    let state = State {
        total_supply: 0,
        reserve_luna: Decimal18::zero(),
        reserve_anc: Decimal18::zero(),
        reserve_mir: Decimal18::zero(),
    };
    store_config(ledger, config)?;
    store_state(ledger, state);
    let create = VaultMsg::InstantiateToken {
        code_id: msg.eterra_code_id,
        name,
        symbol: "eTerra".to_owned(),
        decimals: CLAIM_TOKEN_DECIMALS,
        initial_holder: env.contract_address.clone(),
        initial_balance: 0,
        minter: env.contract_address.clone(),
        hook_contract: env.contract_address,
    };
    let response = Response { messages: vec![create], log: Vec::new() };
    assert(response@.messages =~= seq![instantiate_message(env@, msg@)]);
    assert(response@.log =~= Seq::<LogAttributeView>::empty());
    Ok(response)
}

/// The configuration once the companion token is bound to an address.
pub open spec fn registered_config(config: ConfigView, sender: Seq<char>) -> ConfigView {
    ConfigView { eterra_contract: Some(sender), ..config }
}

/// Why a registration is refused, if it is: the ledger holds no
/// configuration, or else a companion token is bound already.
pub open spec fn register_fault(pre: Ledger) -> Option<ContractError> {
    match pre.config_view() {
        None => Some(ContractError::NotInitialized),
        Some(config) => if config.eterra_contract is Some {
            Some(ContractError::Unauthorized)
        } else {
            None
        },
    }
}

/// What a registration does to the ledger and returns.
pub open spec fn register_spec(
    pre: Ledger,
    env: EnvView,
    post: Ledger,
    r: Result<Response, ContractError>,
) -> bool {
    match r {
        Ok(response) => {
            &&& register_fault(pre) is None
            &&& post.config_view() == Some(
                registered_config(pre.config_view()->Some_0, env.sender),
            )
            &&& post.stored_state() == pre.stored_state()
            &&& response@.messages == Seq::<VaultMsgView>::empty()
            &&& response@.log == seq![LogAttributeView { key: "eterra"@, value: env.sender }]
        },
        Err(e) => register_fault(pre) == Some(e) && post == pre,
    }
}

/// Binds the caller as the vault's companion token. This succeeds once: while
/// a companion token is bound, every further call is unauthorized.
pub fn register_eterra(ledger: &mut Ledger, env: Env) -> (r: Result<Response, ContractError>)
    ensures
        register_spec(*old(ledger), env@, *final(ledger), r),
{
    let config = read_config(ledger)?;
    if config.eterra_contract.is_some() {
        return Err(ContractError::Unauthorized);
    }
    let bound = Config {
        owner_addr: config.owner_addr,
        stable_denom: config.stable_denom,
        eterra_contract: Some(env.sender.clone()),
        terraswap_factory: config.terraswap_factory,
        alloc_luna: config.alloc_luna,
        alloc_anc: config.alloc_anc,
        alloc_mir: config.alloc_mir,
        mint_strategy: config.mint_strategy,
    };
    store_config(ledger, bound)?;
    let response = Response { messages: Vec::new(), log: vec![log("eterra", env.sender)] };
    assert(response@.messages =~= Seq::<VaultMsgView>::empty());
    assert(response@.log =~= seq![LogAttributeView { key: "eterra"@, value: env@.sender }]);
    Ok(response)
}

/// The deposit that a call carries for a vault with the given configuration.
pub open spec fn call_deposit(config: ConfigView, env: EnvView) -> u128 {
    deposit_of(env.sent_funds, config.stable_denom)
}

/// Why a deposit is refused, if it is: the first of these that holds. The
/// ledger lacks a record; nothing of the base denomination is attached; no
/// companion token is bound; the allocation engine refuses the deposit.
pub open spec fn mint_call_fault(pre: Ledger, env: EnvView, chain: ChainSnapshotView) -> Option<
    ContractError,
> {
    match (pre.config_view(), pre.stored_state()) {
        (Some(config), Some(state)) => if call_deposit(config, env) == 0 {
            Some(ContractError::InvalidInput(InputFault::ZeroDeposit))
        } else if config.eterra_contract is None {
            Some(ContractError::InvalidInput(InputFault::TokenUnset))
        } else {
            mint_fault(
                weights_of(config),
                config.mint_strategy,
                state,
                call_deposit(config, env),
                chain.deposit_after_tax,
                chain.rates,
            )
        },
        _ => Some(ContractError::NotInitialized),
    }
}

/// The plan of a deposit that is not refused.
pub open spec fn mint_call_plan(pre: Ledger, env: EnvView, chain: ChainSnapshotView) -> MintPlan {
    let config = pre.config_view()->Some_0;
    mint_plan_of(
        weights_of(config),
        config.mint_strategy,
        pre.stored_state()->Some_0,
        call_deposit(config, env),
        chain.deposit_after_tax,
        chain.rates.values(),
    )
}

/// The messages of a deposit, in the order in which the host executes them:
/// the swap into the first token asset, the swap into the second, the swap
/// into the native asset, and the mint of the claim tokens to the depositor.
pub open spec fn mint_messages(
    config: ConfigView,
    env: EnvView,
    chain: ChainSnapshotView,
    plan: MintPlan,
) -> Seq<VaultMsgView> {
    seq![
        VaultMsgView::PairSwap {
            pair: chain.pair_anc,
            denom: config.stable_denom,
            amount: plan.targets.anc,
        },
        VaultMsgView::PairSwap {
            pair: chain.pair_mir,
            denom: config.stable_denom,
            amount: plan.targets.mir,
        },
        VaultMsgView::MarketSwap {
            trader: env.contract_address,
            offer_denom: config.stable_denom,
            offer_amount: plan.targets.luna,
            ask_denom: native_denom_text(),
        },
        VaultMsgView::MintClaim {
            token: config.eterra_contract->Some_0,
            recipient: env.sender,
            amount: plan.mint_amount,
        },
    ]
}

/// What a deposit does to the ledger and returns.
pub open spec fn mint_spec(
    pre: Ledger,
    env: EnvView,
    chain: ChainSnapshotView,
    post: Ledger,
    r: Result<Response, ContractError>,
) -> bool {
    match r {
        Ok(response) => {
            let plan = mint_call_plan(pre, env, chain);
            &&& mint_call_fault(pre, env, chain) is None
            &&& post.stored_config() == pre.stored_config()
            &&& post.stored_state() == Some(plan.state)
            &&& response@.messages == mint_messages(pre.config_view()->Some_0, env, chain, plan)
            &&& response@.log == seq![
                LogAttributeView { key: "mint"@, value: decimal_text(plan.mint_amount as nat) },
            ]
        },
        Err(e) => mint_call_fault(pre, env, chain) == Some(e) && post == pre,
    }
}

/// Takes the deposit attached to the call: splits what is left of it after
/// tax over the reserve assets, enters the minted claim tokens and the
/// quantities bought into the books, and queues the three swaps and the mint.
/// On a vault that holds both records, a call is refused as a zero deposit
/// exactly when nothing of the base denomination is attached, whatever the
/// chain reports and whether or not a companion token is bound.
pub fn mint(ledger: &mut Ledger, env: Env, chain: &ChainSnapshot) -> (r: Result<
    Response,
    ContractError,
>)
    ensures
        mint_spec(*old(ledger), env@, chain@, *final(ledger), r),
        r is Ok ==> final(ledger).stored_state()->Some_0.total_supply == old(
            ledger,
        ).stored_state()->Some_0.total_supply + mint_call_plan(
            *old(ledger),
            env@,
            chain@,
        ).mint_amount,
        r is Ok ==> mint_call_plan(*old(ledger), env@, chain@).targets.total() <= call_deposit(
            old(ledger).config_view()->Some_0,
            env@,
        ),
        old(ledger).config_view() is Some && old(ledger).stored_state() is Some ==> (r
            == Err::<Response, ContractError>(ContractError::InvalidInput(InputFault::ZeroDeposit))
            <==> call_deposit(old(ledger).config_view()->Some_0, env@) == 0),
{
    let config = read_config(ledger)?;
    let state = read_state(ledger)?;
    let deposit = deposit_amount(&env, &config.stable_denom);
    if deposit == 0 {
        return Err(ContractError::InvalidInput(InputFault::ZeroDeposit));
    }
    let token = match &config.eterra_contract {
        Some(token) => token.clone(),
        None => {
            return Err(ContractError::InvalidInput(InputFault::TokenUnset));
        },
    };
    let weights = Weights { luna: config.alloc_luna, anc: config.alloc_anc, mir: config.alloc_mir };
    let plan = plan_mint(
        &weights,
        config.mint_strategy,
        &state,
        deposit,
        chain.deposit_after_tax,
        &chain.rates,
    )?;
    store_state(ledger, plan.state);
    let mut messages: Vec<VaultMsg> = Vec::new();
    messages.push(
        VaultMsg::PairSwap {
            pair: chain.pair_anc.clone(),
            denom: config.stable_denom.clone(),
            amount: plan.targets.anc,
        },
    );
    messages.push(
        VaultMsg::PairSwap {
            pair: chain.pair_mir.clone(),
            denom: config.stable_denom.clone(),
            amount: plan.targets.mir,
        },
    );
    messages.push(
        VaultMsg::MarketSwap {
            trader: env.contract_address,
            offer_denom: config.stable_denom,
            offer_amount: plan.targets.luna,
            ask_denom: "uluna".to_owned(),
        },
    );
    messages.push(VaultMsg::MintClaim { token, recipient: env.sender, amount: plan.mint_amount });
    let response = Response { messages, log: vec![log("mint", uint128_to_string(plan.mint_amount))] };
    assert(response@.messages =~= mint_messages(
        old(ledger).config_view()->Some_0,
        env@,
        chain@,
        plan,
    ));
    assert(response@.log =~= seq![
        LogAttributeView { key: "mint"@, value: decimal_text(plan.mint_amount as nat) },
    ]);
    Ok(response)
}

/// Why a redemption is refused, if it is: the first of these that holds. The
/// ledger lacks a record; no companion token is bound; the redemption engine
/// refuses the request.
pub open spec fn burn_call_fault(pre: Ledger, chain: ChainSnapshotView) -> Option<ContractError> {
    match (pre.config_view(), pre.stored_state()) {
        (Some(config), Some(state)) => if config.eterra_contract is None {
            Some(ContractError::InvalidInput(InputFault::TokenUnset))
        } else {
            burn_fault(weights_of(config), state, chain.claim_balance, chain.holdings)
        },
        _ => Some(ContractError::NotInitialized),
    }
}

/// The plan of a redemption that is not refused.
pub open spec fn burn_call_plan(pre: Ledger, chain: ChainSnapshotView) -> BurnPlan {
    burn_plan_of(
        weights_of(pre.config_view()->Some_0),
        pre.stored_state()->Some_0,
        chain.claim_balance,
        chain.holdings,
    )
}

/// The messages of a redemption, in the order in which the host executes
/// them: the swap of the first token asset's slice, the swap of the second's,
/// the swap of the native asset's slice, the burn of the claim tokens, and the
/// call back to the vault that pays the requester.
pub open spec fn burn_messages(
    config: ConfigView,
    env: EnvView,
    chain: ChainSnapshotView,
    plan: BurnPlan,
) -> Seq<VaultMsgView> {
    seq![
        VaultMsgView::TokenSwap {
            token: config.eterra_contract->Some_0,
            pair: chain.pair_anc,
            amount: plan.slices.anc,
        },
        VaultMsgView::TokenSwap {
            token: config.eterra_contract->Some_0,
            pair: chain.pair_mir,
            amount: plan.slices.mir,
        },
        VaultMsgView::MarketSwap {
            trader: env.contract_address,
            offer_denom: native_denom_text(),
            offer_amount: plan.slices.luna,
            ask_denom: config.stable_denom,
        },
        VaultMsgView::BurnClaim {
            token: config.eterra_contract->Some_0,
            amount: plan.burn_amount,
        },
        VaultMsgView::FinalizeRedemption {
            contract: env.contract_address,
            requester: env.sender,
        },
    ]
}

/// What a redemption does to the ledger and returns.
pub open spec fn burn_spec(
    pre: Ledger,
    env: EnvView,
    chain: ChainSnapshotView,
    post: Ledger,
    r: Result<Response, ContractError>,
) -> bool {
    match r {
        Ok(response) => {
            let plan = burn_call_plan(pre, chain);
            &&& burn_call_fault(pre, chain) is None
            &&& post.stored_config() == pre.stored_config()
            &&& post.stored_state() == Some(plan.state)
            &&& response@.messages == burn_messages(pre.config_view()->Some_0, env, chain, plan)
            &&& response@.log == seq![
                LogAttributeView { key: "burn"@, value: decimal_text(plan.burn_amount as nat) },
            ]
        },
        Err(e) => burn_call_fault(pre, chain) == Some(e) && post == pre,
    }
}

/// Redeems all claim tokens that the vault holds: takes them off the
/// outstanding supply and queues the swap of every reserve's slice, the burn
/// and the call back that pays the caller.
pub fn burn(ledger: &mut Ledger, env: Env, chain: &ChainSnapshot) -> (r: Result<
    Response,
    ContractError,
>)
    ensures
        burn_spec(*old(ledger), env@, chain@, *final(ledger), r),
        r is Ok ==> final(ledger).stored_state()->Some_0.total_supply == old(
            ledger,
        ).stored_state()->Some_0.total_supply - chain.claim_balance,
{
    let config = read_config(ledger)?;
    let state = read_state(ledger)?;
    let token = match &config.eterra_contract {
        Some(token) => token.clone(),
        None => {
            return Err(ContractError::InvalidInput(InputFault::TokenUnset));
        },
    };
    let weights = Weights { luna: config.alloc_luna, anc: config.alloc_anc, mir: config.alloc_mir };
    let plan = plan_burn(&weights, &state, chain.claim_balance, &chain.holdings)?;
    store_state(ledger, plan.state);
    let mut messages: Vec<VaultMsg> = Vec::new();
    messages.push(
        VaultMsg::TokenSwap {
            token: token.clone(),
            pair: chain.pair_anc.clone(),
            amount: plan.slices.anc,
        },
    );
    messages.push(
        VaultMsg::TokenSwap {
            token: token.clone(),
            pair: chain.pair_mir.clone(),
            amount: plan.slices.mir,
        },
    );
    messages.push(
        VaultMsg::MarketSwap {
            trader: env.contract_address.clone(),
            offer_denom: "uluna".to_owned(),
            offer_amount: plan.slices.luna,
            ask_denom: config.stable_denom,
        },
    );
    messages.push(VaultMsg::BurnClaim { token, amount: plan.burn_amount });
    messages.push(
        VaultMsg::FinalizeRedemption { contract: env.contract_address, requester: env.sender },
    );
    let response = Response { messages, log: vec![log("burn", uint128_to_string(plan.burn_amount))] };
    assert(response@.messages =~= burn_messages(
        old(ledger).config_view()->Some_0,
        env@,
        chain@,
        plan,
    ));
    assert(response@.log =~= seq![
        LogAttributeView { key: "burn"@, value: decimal_text(plan.burn_amount as nat) },
    ]);
    Ok(response)
}

/// Why a payout is refused, if it is: the caller is not the vault itself, or
/// else the ledger holds no configuration.
pub open spec fn redeem_fault(pre: Ledger, env: EnvView) -> Option<ContractError> {
    if env.sender != env.contract_address {
        Some(ContractError::Unauthorized)
    } else if pre.config_view() is None {
        Some(ContractError::NotInitialized)
    } else {
        None
    }
}

/// What a payout does to the ledger, which is nothing, and returns.
pub open spec fn redeem_spec(
    pre: Ledger,
    env: EnvView,
    sender: Seq<char>,
    chain: ChainSnapshotView,
    post: Ledger,
    r: Result<Response, ContractError>,
) -> bool {
    &&& post == pre
    &&& match r {
        Ok(response) => {
            &&& redeem_fault(pre, env) is None
            &&& response@.messages == seq![
                VaultMsgView::Payout {
                    from: env.contract_address,
                    to: sender,
                    denom: pre.config_view()->Some_0.stable_denom,
                    amount: chain.stable_balance,
                },
            ]
            &&& response@.log == seq![
                LogAttributeView {
                    key: "redeem"@,
                    value: decimal_text(chain.stable_balance as nat),
                },
            ]
        },
        Err(e) => redeem_fault(pre, env) == Some(e),
    }
}

/// Pays the vault's whole settled balance of the base denomination to the
/// requester of a redemption. Only the vault itself may call this.
pub fn redeem_token(ledger: &mut Ledger, env: Env, sender: String, chain: &ChainSnapshot) -> (r:
    Result<Response, ContractError>)
    ensures
        redeem_spec(*old(ledger), env@, sender@, chain@, *final(ledger), r),
        env@.sender != env@.contract_address ==> r is Err && r->Err_0
            == ContractError::Unauthorized,
{
    if env.sender != env.contract_address {
        return Err(ContractError::Unauthorized);
    }
    let config = read_config(ledger)?;
    let payout = VaultMsg::Payout {
        from: env.contract_address,
        to: sender,
        denom: config.stable_denom,
        amount: chain.stable_balance,
    };
    let response = Response {
        messages: vec![payout],
        log: vec![log("redeem", uint128_to_string(chain.stable_balance))],
    };
    assert(response@.messages =~= seq![
        VaultMsgView::Payout {
            from: env@.contract_address,
            to: sender@,
            denom: old(ledger).config_view()->Some_0.stable_denom,
            amount: chain.stable_balance,
        },
    ]);
    assert(response@.log =~= seq![
        LogAttributeView { key: "redeem"@, value: decimal_text(chain.stable_balance as nat) },
    ]);
    Ok(response)
}

/// What a command does to the ledger and returns: what its handler does.
pub open spec fn handle_spec(
    pre: Ledger,
    env: EnvView,
    msg: HandleMsgView,
    chain: ChainSnapshotView,
    post: Ledger,
    r: Result<Response, ContractError>,
) -> bool {
    match msg {
        HandleMsgView::Mint => mint_spec(pre, env, chain, post, r),
        HandleMsgView::RegisterETerra => register_spec(pre, env, post, r),
        HandleMsgView::Burn => burn_spec(pre, env, chain, post, r),
        HandleMsgView::RedeemToken { sender } => redeem_spec(pre, env, sender, chain, post, r),
    }
}

/// Hands a command to its handler.
pub fn handle(ledger: &mut Ledger, env: Env, msg: HandleMsg, chain: &ChainSnapshot) -> (r: Result<
    Response,
    ContractError,
>)
    ensures
        handle_spec(*old(ledger), env@, msg@, chain@, *final(ledger), r),
{
    match msg {
        HandleMsg::Mint {  } => mint(ledger, env, chain),
        HandleMsg::RegisterETerra {  } => register_eterra(ledger, env),
        HandleMsg::Burn {  } => burn(ledger, env, chain),
        HandleMsg::RedeemToken { sender } => redeem_token(ledger, env, sender, chain),
    }
}

/// The stored configuration, as a query reports it.
pub fn query_config(ledger: &Ledger) -> (r: Result<ConfigResponse, ContractError>)
    ensures
        match ledger.config_view() {
            Some(config) => r is Ok && r->Ok_0@ == config,
            None => r == Err::<ConfigResponse, ContractError>(ContractError::NotInitialized),
        },
{
    let config = read_config(ledger)?;
    Ok(
        ConfigResponse {
            owner_addr: config.owner_addr,
            stable_denom: config.stable_denom,
            eterra_contract: config.eterra_contract,
            terraswap_factory: config.terraswap_factory,
            alloc_luna: config.alloc_luna,
            alloc_anc: config.alloc_anc,
            alloc_mir: config.alloc_mir,
            mint_strategy: config.mint_strategy,
        },
    )
}

/// The stored books, as a query reports them.
pub fn query_state(ledger: &Ledger) -> (r: Result<StateResponse, ContractError>)
    ensures
        match ledger.stored_state() {
            Some(state) => r == Ok::<StateResponse, ContractError>(
                StateResponse {
                    total_supply: state.total_supply,
                    reserve_luna: state.reserve_luna,
                    reserve_anc: state.reserve_anc,
                    reserve_mir: state.reserve_mir,
                },
            ),
            None => r == Err::<StateResponse, ContractError>(ContractError::NotInitialized),
        },
{
    let state = read_state(ledger)?;
    Ok(
        StateResponse {
            total_supply: state.total_supply,
            reserve_luna: state.reserve_luna,
            reserve_anc: state.reserve_anc,
            reserve_mir: state.reserve_mir,
        },
    )
}

/// What a query returns: the projection of the record that it asks for, or
/// the failure of a ledger that does not hold that record.
pub open spec fn query_spec(ledger: Ledger, msg: QueryMsg, r: Result<QueryResponse, ContractError>) -> bool {
    match msg {
        QueryMsg::Config {  } => match ledger.config_view() {
            Some(config) => r is Ok && r->Ok_0@ == QueryResponseView::Config(config),
            None => r is Err && r->Err_0 == ContractError::NotInitialized,
        },
        QueryMsg::State {  } => match ledger.stored_state() {
            Some(state) => r is Ok && r->Ok_0@ == QueryResponseView::State(
                StateResponse {
                    total_supply: state.total_supply,
                    reserve_luna: state.reserve_luna,
                    reserve_anc: state.reserve_anc,
                    reserve_mir: state.reserve_mir,
                },
            ),
            None => r is Err && r->Err_0 == ContractError::NotInitialized,
        },
    }
}

/// Answers a read-only request.
pub fn query(ledger: &Ledger, msg: QueryMsg) -> (r: Result<QueryResponse, ContractError>)
    ensures
        query_spec(*ledger, msg, r),
{
    match msg {
        QueryMsg::Config {  } => match query_config(ledger) {
            Ok(config) => Ok(QueryResponse::Config(config)),
            Err(e) => Err(e),
        },
        QueryMsg::State {  } => match query_state(ledger) {
            Ok(state) => Ok(QueryResponse::State(state)),
            Err(e) => Err(e),
        },
    }
}

} // verus!

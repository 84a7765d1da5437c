//! Requests that the vault accepts, the answers to its queries, and the
//! messages that it hands to the host for later execution.
use vstd::prelude::*;
use crate::math::Decimal18;

verus! {

/// How the amount of claim tokens minted for a deposit is found.
#[derive(Clone, Copy, Debug, PartialEq, Eq, Structural)]
pub enum MintStrategy {
    /// One claim unit per deposited base unit.
    DirectDeposit,
    /// The outstanding supply times the deposit, divided by the pool's value.
    ProRata,
}

/// The text of an optional string.
pub open spec fn opt_text(o: Option<String>) -> Option<Seq<char>> {
    match o {
        Some(s) => Some(s@),
        None => None,
    }
}

/// The parameters with which a vault is created.
#[derive(Clone, Debug, PartialEq, Eq)]
pub struct InitMsg {
    pub alloc_luna: Decimal18,
    pub alloc_anc: Decimal18,
    pub alloc_mir: Decimal18,
    pub eterra_code_id: u64,
    pub stable_denom: String,
    pub terraswap_factory: String,
    pub mint_strategy: MintStrategy,
}

pub struct InitMsgView {
    pub alloc_luna: Decimal18,
    pub alloc_anc: Decimal18,
    pub alloc_mir: Decimal18,
    pub eterra_code_id: u64,
    pub stable_denom: Seq<char>,
    pub terraswap_factory: Seq<char>,
    pub mint_strategy: MintStrategy,
}

impl View for InitMsg {
    type V = InitMsgView;

    open spec fn view(&self) -> InitMsgView {
        InitMsgView {
            alloc_luna: self.alloc_luna,
            alloc_anc: self.alloc_anc,
            alloc_mir: self.alloc_mir,
            eterra_code_id: self.eterra_code_id,
            stable_denom: self.stable_denom@,
            terraswap_factory: self.terraswap_factory@,
            mint_strategy: self.mint_strategy,
        }
    }
}

/// A command to the vault.
#[derive(Clone, Debug, PartialEq, Eq)]
pub enum HandleMsg {
    /// Deposit the attached base funds.
    Mint {},
    /// Bind the calling claim token contract to the vault.
    RegisterETerra {},
    /// Redeem all claim tokens that the vault holds.
    Burn {},
    /// Pay the settled base balance out to `sender`; the vault calls this itself.
    RedeemToken { sender: String },
}

pub enum HandleMsgView {
    Mint,
    RegisterETerra,
    Burn,
    RedeemToken { sender: Seq<char> },
}

impl View for HandleMsg {
    type V = HandleMsgView;

    open spec fn view(&self) -> HandleMsgView {
        match self {
            HandleMsg::Mint {  } => HandleMsgView::Mint,
            HandleMsg::RegisterETerra {  } => HandleMsgView::RegisterETerra,
            HandleMsg::Burn {  } => HandleMsgView::Burn,
            HandleMsg::RedeemToken { sender } => HandleMsgView::RedeemToken { sender: sender@ },
        }
    }
}

/// A read-only request.
#[derive(Clone, Copy, Debug, PartialEq, Eq, Structural)]
pub enum QueryMsg {
    Config {},
    State {},
}

/// The vault's state as a query reports it.
#[derive(Clone, Copy, Debug, PartialEq, Eq, Structural)]
pub struct StateResponse {
    pub total_supply: u128,
    pub reserve_luna: Decimal18,
    pub reserve_anc: Decimal18,
    pub reserve_mir: Decimal18,
}

/// The vault's configuration as a query reports it.
#[derive(Clone, Debug, PartialEq, Eq)]
pub struct ConfigResponse {
    pub owner_addr: String,
    pub stable_denom: String,
    pub eterra_contract: Option<String>,
    pub terraswap_factory: String,
    pub alloc_luna: Decimal18,
    pub alloc_anc: Decimal18,
    pub alloc_mir: Decimal18,
    pub mint_strategy: MintStrategy,
}

/// The text and numbers of a configuration.
pub struct ConfigView {
    pub owner_addr: Seq<char>,
    pub stable_denom: Seq<char>,
    pub eterra_contract: Option<Seq<char>>,
    pub terraswap_factory: Seq<char>,
    pub alloc_luna: Decimal18,
    pub alloc_anc: Decimal18,
    pub alloc_mir: Decimal18,
    pub mint_strategy: MintStrategy,
}

impl View for ConfigResponse {
    type V = ConfigView;

    open spec fn view(&self) -> ConfigView {
        ConfigView {
            owner_addr: self.owner_addr@,
            stable_denom: self.stable_denom@,
            eterra_contract: opt_text(self.eterra_contract),
            terraswap_factory: self.terraswap_factory@,
            alloc_luna: self.alloc_luna,
            alloc_anc: self.alloc_anc,
            alloc_mir: self.alloc_mir,
            mint_strategy: self.mint_strategy,
        }
    }
}

/// What a simulated swap reports.
#[derive(Clone, Copy, Debug, PartialEq, Eq, Structural)]
pub struct SwapRateResponse {
    pub return_amount: Decimal18,
    pub spread_amount: Decimal18,
    pub commission_amount: Decimal18,
}

/// The answer to a query.
#[derive(Clone, Debug, PartialEq, Eq)]
pub enum QueryResponse {
    Config(ConfigResponse),
    State(StateResponse),
}

pub enum QueryResponseView {
    Config(ConfigView),
    State(StateResponse),
}

impl View for QueryResponse {
    type V = QueryResponseView;

    open spec fn view(&self) -> QueryResponseView {
        match self {
            QueryResponse::Config(c) => QueryResponseView::Config(c@),
            QueryResponse::State(s) => QueryResponseView::State(*s),
        }
    }
}

/// A message that the vault queues for the host. The host executes the queued
/// messages in order after the handler has returned, all of them or none.
#[derive(Clone, Debug, PartialEq, Eq)]
pub enum VaultMsg {
    /// Create the claim token contract. The vault holds the initial balance,
    /// is the only minter, and is called back once the token exists.
    InstantiateToken {
        code_id: u64,
        name: String,
        symbol: String,
        decimals: u8,
        initial_holder: String,
        initial_balance: u128,
        minter: String,
        hook_contract: String,
    },
    /// Offer `amount` of the native `denom` to a trading pair, funds attached.
    PairSwap { pair: String, denom: String, amount: u128 },
    /// Swap native coins on the market.
    MarketSwap { trader: String, offer_denom: String, offer_amount: u128, ask_denom: String },
    /// Mint claim tokens to a recipient.
    MintClaim { token: String, recipient: String, amount: u128 },
    /// Send `amount` through a token contract to a trading pair, to be swapped.
    TokenSwap { token: String, pair: String, amount: u128 },
    /// Burn claim tokens.
    BurnClaim { token: String, amount: u128 },
    /// Call the vault itself to pay the requester once the swaps have settled.
    FinalizeRedemption { contract: String, requester: String },
    /// Transfer base funds.
    Payout { from: String, to: String, denom: String, amount: u128 },
}

pub enum VaultMsgView {
    InstantiateToken {
        code_id: u64,
        name: Seq<char>,
        symbol: Seq<char>,
        decimals: u8,
        initial_holder: Seq<char>,
        initial_balance: u128,
        minter: Seq<char>,
        hook_contract: Seq<char>,
    },
    PairSwap { pair: Seq<char>, denom: Seq<char>, amount: u128 },
    MarketSwap {
        trader: Seq<char>,
        offer_denom: Seq<char>,
        offer_amount: u128,
        ask_denom: Seq<char>,
    },
    MintClaim { token: Seq<char>, recipient: Seq<char>, amount: u128 },
    TokenSwap { token: Seq<char>, pair: Seq<char>, amount: u128 },
    BurnClaim { token: Seq<char>, amount: u128 },
    FinalizeRedemption { contract: Seq<char>, requester: Seq<char> },
    Payout { from: Seq<char>, to: Seq<char>, denom: Seq<char>, amount: u128 },
}

impl View for VaultMsg {
    type V = VaultMsgView;

    open spec fn view(&self) -> VaultMsgView {
        match self {
            VaultMsg::InstantiateToken {
                code_id,
                name,
                symbol,
                decimals,
                initial_holder,
                initial_balance,
                minter,
                hook_contract,
            } => VaultMsgView::InstantiateToken {
                code_id: *code_id,
                name: name@,
                symbol: symbol@,
                decimals: *decimals,
                initial_holder: initial_holder@,
                initial_balance: *initial_balance,
                minter: minter@,
                hook_contract: hook_contract@,
            },
            VaultMsg::PairSwap { pair, denom, amount } => VaultMsgView::PairSwap {
                pair: pair@,
                denom: denom@,
                amount: *amount,
            },
            VaultMsg::MarketSwap {
                trader,
                offer_denom,
                offer_amount,
                ask_denom,
            } => VaultMsgView::MarketSwap {
                trader: trader@,
                offer_denom: offer_denom@,
                offer_amount: *offer_amount,
                ask_denom: ask_denom@,
            },
            VaultMsg::MintClaim { token, recipient, amount } => VaultMsgView::MintClaim {
                token: token@,
                recipient: recipient@,
                amount: *amount,
            },
            VaultMsg::TokenSwap { token, pair, amount } => VaultMsgView::TokenSwap {
                token: token@,
                pair: pair@,
                amount: *amount,
            },
            VaultMsg::BurnClaim { token, amount } => VaultMsgView::BurnClaim {
                token: token@,
                amount: *amount,
            },
            VaultMsg::FinalizeRedemption { contract, requester } => {
                VaultMsgView::FinalizeRedemption { contract: contract@, requester: requester@ }
            },
            VaultMsg::Payout { from, to, denom, amount } => VaultMsgView::Payout {
                from: from@,
                to: to@,
                denom: denom@,
                amount: *amount,
            },
        }
    }
}

/// A key and a value that the vault reports about a handled command.
#[derive(Clone, Debug, PartialEq, Eq)]
pub struct LogAttribute {
    pub key: String,
    pub value: String,
}

pub struct LogAttributeView {
    pub key: Seq<char>,
    pub value: Seq<char>,
}

impl View for LogAttribute {
    type V = LogAttributeView;

    open spec fn view(&self) -> LogAttributeView {
        LogAttributeView { key: self.key@, value: self.value@ }
    }
}

/// What a handler returns: the messages to execute, in order, and the log.
#[derive(Clone, Debug, PartialEq, Eq)]
pub struct Response {
    pub messages: Vec<VaultMsg>,
    pub log: Vec<LogAttribute>,
}

pub struct ResponseView {
    pub messages: Seq<VaultMsgView>,
    pub log: Seq<LogAttributeView>,
}

impl View for Response {
    type V = ResponseView;

    open spec fn view(&self) -> ResponseView {
        ResponseView {
            messages: self.messages@.map_values(|m: VaultMsg| m@),
            log: self.log@.map_values(|l: LogAttribute| l@),
        }
    }
}

} // verus!

use eterra_vault::allocation::{Basket, Rates};
use eterra_vault::contract::{handle, init, query, query_config, query_state};
use eterra_vault::error::{ArithmeticFault, ContractError, InputFault};
use eterra_vault::host::{ChainSnapshot, Coin, Env};
use eterra_vault::math::Decimal18;
use eterra_vault::msg::{
    HandleMsg, InitMsg, LogAttribute, MintStrategy, QueryMsg, QueryResponse, Response,
    StateResponse, VaultMsg,
};
use eterra_vault::state::{read_config, read_state, store_state, Ledger, State};

const MOCK_CONTRACT_ADDR: &str = "cosmos2contract";

fn whole(units: u128) -> Decimal18 {
    Decimal18::from_units(units).unwrap()
}

fn mock_env(sender: &str, sent: &[Coin]) -> Env {
    Env {
        sender: sender.to_string(),
        contract_address: MOCK_CONTRACT_ADDR.to_string(),
        sent_funds: sent.to_vec(),
    }
}

fn init_msg(strategy: MintStrategy) -> InitMsg {
    InitMsg {
        alloc_luna: whole(5000),
        alloc_mir: whole(2500),
        alloc_anc: whole(2500),
        stable_denom: "uusd".to_string(),
        eterra_code_id: 123u64,
        terraswap_factory: "terraswapfactory".to_string(),
        mint_strategy: strategy,
    }
}

fn par_rates() -> Rates {
    Rates { luna: Some(whole(1)), anc: Some(whole(1)), mir: Some(whole(1)) }
}

fn chain(deposit_after_tax: u128, claim_balance: u128, holdings: u128, stable: u128) -> ChainSnapshot {
    ChainSnapshot {
        pair_anc: "pairANC".to_string(),
        pair_mir: "pairMIRROR".to_string(),
        deposit_after_tax,
        rates: par_rates(),
        claim_balance,
        holdings: Basket { luna: holdings, anc: holdings, mir: holdings },
        stable_balance: stable,
    }
}

fn log(key: &str, value: &str) -> LogAttribute {
    LogAttribute { key: key.to_string(), value: value.to_string() }
}

fn instantiate_expected() -> Vec<VaultMsg> {
    vec![VaultMsg::InstantiateToken {
        code_id: 123u64,
        name: "Edge Terra USD".to_string(),
        symbol: "eTerra".to_string(),
        decimals: 6u8,
        initial_holder: MOCK_CONTRACT_ADDR.to_string(),
        initial_balance: 0,
        minter: MOCK_CONTRACT_ADDR.to_string(),
        hook_contract: MOCK_CONTRACT_ADDR.to_string(),
    }]
}

fn registered_vault(strategy: MintStrategy) -> Ledger {
    let mut ledger = Ledger::new();
    init(&mut ledger, mock_env("creator", &[]), init_msg(strategy)).unwrap();
    handle(
        &mut ledger,
        mock_env("ETerra", &[]),
        HandleMsg::RegisterETerra {},
        &chain(0, 0, 0, 0),
    )
    .unwrap();
    ledger
}

#[test]
fn proper_initialization() {
    let mut ledger = Ledger::new();
    let msg = init_msg(MintStrategy::DirectDeposit);
    let env = mock_env("creator", &[]);

    let res = init(&mut ledger, env, msg).unwrap();
    assert_eq!(res.messages, instantiate_expected());

    // Register edge token contract
    let msg = HandleMsg::RegisterETerra {};
    let env = mock_env("ETerra", &[]);
    let _res = handle(&mut ledger, env, msg, &chain(0, 0, 0, 0)).unwrap();

    // Cannot register again
    let msg = HandleMsg::RegisterETerra {};
    let env = mock_env("ETerra", &[]);
    let _res = handle(&mut ledger, env, msg, &chain(0, 0, 0, 0)).unwrap_err();

    let config = query_config(&ledger).unwrap();
    assert_eq!("terraswapfactory", config.terraswap_factory.as_str());
    assert_eq!("uusd", config.stable_denom.as_str());
}

#[test]
fn mint() {
    let mut ledger = Ledger::new();
    let msg = init_msg(MintStrategy::DirectDeposit);
    let env = mock_env("creator", &[]);

    let res = init(&mut ledger, env, msg).unwrap();
    assert_eq!(res.messages, instantiate_expected());

    // Register edge token contract
    let msg = HandleMsg::RegisterETerra {};
    let env = mock_env("ETerra", &[]);
    let _res = handle(&mut ledger, env, msg, &chain(0, 0, 0, 0)).unwrap();

    // Cannot register again
    let msg = HandleMsg::RegisterETerra {};
    let env = mock_env("ETerra", &[]);
    let _res = handle(&mut ledger, env, msg, &chain(0, 0, 0, 0)).unwrap_err();

    let msg = HandleMsg::Mint {};
    let env = mock_env("alice", &[Coin { denom: "uusd".to_string(), amount: 100000u128 }]);
    let snapshot = chain(100000, 0, 0, 0);
    let res = handle(&mut ledger, env, msg, &snapshot).unwrap();
    let _balance = snapshot.stable_balance;

    assert_eq!(0u128, _balance);
    assert_eq!(res.messages.len(), 4);
    assert_eq!(res.log, vec![log("mint", "100000")]);
    assert_eq!(
        res.messages[0],
        VaultMsg::PairSwap {
            pair: "pairANC".to_string(),
            denom: "uusd".to_string(),
            amount: 25000u128,
        }
    );
    assert_eq!(
        res.messages[1],
        VaultMsg::PairSwap {
            pair: "pairMIRROR".to_string(),
            denom: "uusd".to_string(),
            amount: 25000u128,
        }
    );
    assert_eq!(
        res.messages[2],
        VaultMsg::MarketSwap {
            trader: "cosmos2contract".to_string(),
            offer_denom: "uusd".to_string(),
            offer_amount: 50000u128,
            ask_denom: "uluna".to_string(),
        }
    );
    assert_eq!(
        res.messages[3],
        VaultMsg::MintClaim {
            token: "ETerra".to_string(),
            recipient: "alice".to_string(),
            amount: 100000u128,
        }
    );
}

#[test]
fn burn() {
    let mut ledger = Ledger::new();
    let msg = init_msg(MintStrategy::DirectDeposit);
    let env = mock_env("creator", &[]);

    let res = init(&mut ledger, env, msg).unwrap();
    assert_eq!(res.messages, instantiate_expected());

    // Register edge token contract
    let msg = HandleMsg::RegisterETerra {};
    let env = mock_env("ETerra", &[]);
    let _res = handle(&mut ledger, env, msg, &chain(0, 0, 0, 0)).unwrap();

    // Cannot register again
    let msg = HandleMsg::RegisterETerra {};
    let env = mock_env("ETerra", &[]);
    let _res = handle(&mut ledger, env, msg, &chain(0, 0, 0, 0)).unwrap_err();

    let mut state: State = read_state(&ledger).unwrap();
    state.total_supply = 20000u128;
    store_state(&mut ledger, state);

    let msg = HandleMsg::Burn {};
    let env = mock_env("alice", &[]);
    let res = handle(&mut ledger, env, msg, &chain(0, 5000, 1000000, 0)).unwrap();

    assert_eq!(
        res.messages[0],
        VaultMsg::TokenSwap {
            token: "ETerra".to_string(),
            pair: "pairANC".to_string(),
            amount: 62500u128,
        }
    );
    assert_eq!(
        res.messages[1],
        VaultMsg::TokenSwap {
            token: "ETerra".to_string(),
            pair: "pairMIRROR".to_string(),
            amount: 62500u128,
        }
    );
    assert_eq!(
        res.messages[2],
        VaultMsg::MarketSwap {
            trader: "cosmos2contract".to_string(),
            offer_denom: "uluna".to_string(),
            offer_amount: 125000u128,
            ask_denom: "uusd".to_string(),
        }
    );
    assert_eq!(
        res.messages[3],
        VaultMsg::BurnClaim { token: "ETerra".to_string(), amount: 5000u128 }
    );
    assert_eq!(
        res.messages[4],
        VaultMsg::FinalizeRedemption {
            contract: MOCK_CONTRACT_ADDR.to_string(),
            requester: "alice".to_string(),
        }
    )
}

#[test]
fn redeem_token() {
    let mut ledger = Ledger::new();
    let msg = init_msg(MintStrategy::DirectDeposit);
    let env = mock_env("creator", &[]);

    let _res = init(&mut ledger, env, msg).unwrap();
    // Register edge token contract
    let msg = HandleMsg::RegisterETerra {};
    let env = mock_env("ETerra", &[]);
    let _res = handle(&mut ledger, env, msg, &chain(0, 0, 0, 0)).unwrap();

    let msg = HandleMsg::RedeemToken { sender: "alice".to_string() };
    let env = mock_env("alice", &[]);
    let snapshot = chain(0, 0, 1000000, 10000);
    // invalid sender
    let _res = handle(&mut ledger, env, msg.clone(), &snapshot).unwrap_err();
    let env = mock_env(MOCK_CONTRACT_ADDR, &[]);
    let res = handle(&mut ledger, env, msg, &snapshot).unwrap();
    assert_eq!(
        res.messages[0],
        VaultMsg::Payout {
            from: MOCK_CONTRACT_ADDR.to_string(),
            to: "alice".to_string(),
            denom: "uusd".to_string(),
            amount: 10000u128,
        }
    )
}

#[test]
fn init_stores_config_and_empty_books() {
    let mut ledger = Ledger::new();
    let res = init(&mut ledger, mock_env("creator", &[]), init_msg(MintStrategy::ProRata)).unwrap();
    assert_eq!(res.log, vec![]);
    let config = read_config(&ledger).unwrap();
    assert_eq!(config.owner_addr, "creator");
    assert_eq!(config.eterra_contract, None);
    assert_eq!(config.alloc_luna, whole(5000));
    assert_eq!(config.alloc_anc, whole(2500));
    assert_eq!(config.alloc_mir, whole(2500));
    assert_eq!(config.mint_strategy, MintStrategy::ProRata);
    assert_eq!(
        read_state(&ledger).unwrap(),
        State {
            total_supply: 0,
            reserve_luna: Decimal18::zero(),
            reserve_anc: Decimal18::zero(),
            reserve_mir: Decimal18::zero(),
        }
    );
}

#[test]
fn init_rejects_weights_off_the_total() {
    let mut ledger = Ledger::new();
    let mut msg = init_msg(MintStrategy::DirectDeposit);
    msg.alloc_luna = whole(5001);
    let err = init(&mut ledger, mock_env("creator", &[]), msg).unwrap_err();
    assert_eq!(err, ContractError::InvalidInput(InputFault::WeightTotal));
    assert_eq!(ledger, Ledger::new());
    assert_eq!(read_config(&ledger).unwrap_err(), ContractError::NotInitialized);
}

#[test]
fn init_accepts_fractional_weights_that_add_up() {
    let mut ledger = Ledger::new();
    let mut msg = init_msg(MintStrategy::DirectDeposit);
    msg.alloc_luna = Decimal18 { atomics: 3_333_500_000_000_000_000_000 };
    msg.alloc_anc = Decimal18 { atomics: 3_333_250_000_000_000_000_000 };
    msg.alloc_mir = Decimal18 { atomics: 3_333_250_000_000_000_000_000 };
    init(&mut ledger, mock_env("creator", &[]), msg).unwrap();
}

#[test]
fn init_rejects_empty_denom() {
    let mut ledger = Ledger::new();
    let mut msg = init_msg(MintStrategy::DirectDeposit);
    msg.stable_denom = String::new();
    let err = init(&mut ledger, mock_env("creator", &[]), msg).unwrap_err();
    assert_eq!(err, ContractError::InvalidInput(InputFault::EmptyDenom));
    assert_eq!(ledger, Ledger::new());
}

#[test]
fn token_name_drops_first_character_and_upper_cases_the_rest() {
    let mut ledger = Ledger::new();
    let mut msg = init_msg(MintStrategy::DirectDeposit);
    msg.stable_denom = "ukrw".to_string();
    let res = init(&mut ledger, mock_env("creator", &[]), msg).unwrap();
    match &res.messages[0] {
        VaultMsg::InstantiateToken { name, .. } => assert_eq!(name, "Edge Terra KRW"),
        other => panic!("unexpected message {:?}", other),
    }
}

#[test]
fn registration_binds_first_caller_only() {
    let mut ledger = Ledger::new();
    init(&mut ledger, mock_env("creator", &[]), init_msg(MintStrategy::DirectDeposit)).unwrap();
    let res = handle(
        &mut ledger,
        mock_env("anyone", &[]),
        HandleMsg::RegisterETerra {},
        &chain(0, 0, 0, 0),
    )
    .unwrap();
    assert_eq!(res, Response { messages: vec![], log: vec![log("eterra", "anyone")] });
    assert_eq!(read_config(&ledger).unwrap().eterra_contract, Some("anyone".to_string()));

    let err = handle(
        &mut ledger,
        mock_env("somebody else", &[]),
        HandleMsg::RegisterETerra {},
        &chain(0, 0, 0, 0),
    )
    .unwrap_err();
    assert_eq!(err, ContractError::Unauthorized);
    assert_eq!(read_config(&ledger).unwrap().eterra_contract, Some("anyone".to_string()));
}

#[test]
fn handlers_need_an_initialised_ledger() {
    let mut ledger = Ledger::new();
    let snapshot = chain(100, 100, 100, 100);
    let coin = Coin { denom: "uusd".to_string(), amount: 100 };
    for msg in [HandleMsg::Mint {}, HandleMsg::RegisterETerra {}, HandleMsg::Burn {}] {
        let err = handle(&mut ledger, mock_env("alice", &[coin.clone()]), msg, &snapshot)
            .unwrap_err();
        assert_eq!(err, ContractError::NotInitialized);
    }
    let err = handle(
        &mut ledger,
        mock_env(MOCK_CONTRACT_ADDR, &[]),
        HandleMsg::RedeemToken { sender: "alice".to_string() },
        &snapshot,
    )
    .unwrap_err();
    assert_eq!(err, ContractError::NotInitialized);
    assert_eq!(query(&ledger, QueryMsg::Config {}).unwrap_err(), ContractError::NotInitialized);
    assert_eq!(query(&ledger, QueryMsg::State {}).unwrap_err(), ContractError::NotInitialized);
}

#[test]
fn mint_and_burn_are_rejected_while_token_is_unset() {
    let mut ledger = Ledger::new();
    init(&mut ledger, mock_env("creator", &[]), init_msg(MintStrategy::DirectDeposit)).unwrap();
    let coin = Coin { denom: "uusd".to_string(), amount: 100 };
    let err = handle(
        &mut ledger,
        mock_env("alice", &[coin]),
        HandleMsg::Mint {},
        &chain(100, 0, 0, 0),
    )
    .unwrap_err();
    assert_eq!(err, ContractError::InvalidInput(InputFault::TokenUnset));
    let err = handle(&mut ledger, mock_env("alice", &[]), HandleMsg::Burn {}, &chain(0, 1, 1, 0))
        .unwrap_err();
    assert_eq!(err, ContractError::InvalidInput(InputFault::TokenUnset));
}

#[test]
fn mint_rejects_zero_deposit() {
    let mut ledger = registered_vault(MintStrategy::DirectDeposit);
    let before = read_state(&ledger).unwrap();
    // no funds at all
    let err = handle(&mut ledger, mock_env("alice", &[]), HandleMsg::Mint {}, &chain(0, 0, 0, 0))
        .unwrap_err();
    assert_eq!(err, ContractError::InvalidInput(InputFault::ZeroDeposit));
    // funds of another denomination only
    let other = Coin { denom: "ukrw".to_string(), amount: 5 };
    let err = handle(
        &mut ledger,
        mock_env("alice", &[other]),
        HandleMsg::Mint {},
        &chain(0, 0, 0, 0),
    )
    .unwrap_err();
    assert_eq!(err, ContractError::InvalidInput(InputFault::ZeroDeposit));
    assert_eq!(read_state(&ledger).unwrap(), before);
}

#[test]
fn mint_takes_first_coin_of_the_base_denomination() {
    let mut ledger = registered_vault(MintStrategy::DirectDeposit);
    let funds = [
        Coin { denom: "ukrw".to_string(), amount: 7 },
        Coin { denom: "uusd".to_string(), amount: 40000 },
        Coin { denom: "uusd".to_string(), amount: 9 },
    ];
    let res = handle(
        &mut ledger,
        mock_env("alice", &funds),
        HandleMsg::Mint {},
        &chain(40000, 0, 0, 0),
    )
    .unwrap();
    assert_eq!(res.log, vec![log("mint", "40000")]);
    assert_eq!(read_state(&ledger).unwrap().total_supply, 40000);
}

#[test]
fn mint_rejects_tax_above_deposit() {
    let mut ledger = registered_vault(MintStrategy::DirectDeposit);
    let coin = Coin { denom: "uusd".to_string(), amount: 100 };
    let err = handle(
        &mut ledger,
        mock_env("alice", &[coin]),
        HandleMsg::Mint {},
        &chain(101, 0, 0, 0),
    )
    .unwrap_err();
    assert_eq!(err, ContractError::InvalidInput(InputFault::TaxExceedsDeposit));
}

#[test]
fn mint_rejects_missing_or_zero_rate() {
    let mut ledger = registered_vault(MintStrategy::DirectDeposit);
    let coin = Coin { denom: "uusd".to_string(), amount: 100 };
    let mut snapshot = chain(100, 0, 0, 0);
    snapshot.rates.anc = None;
    let err = handle(&mut ledger, mock_env("alice", &[coin.clone()]), HandleMsg::Mint {}, &snapshot)
        .unwrap_err();
    assert_eq!(err, ContractError::ArithmeticFailure(ArithmeticFault::DivisionByZero));
    snapshot.rates.anc = Some(Decimal18::zero());
    let err = handle(&mut ledger, mock_env("alice", &[coin]), HandleMsg::Mint {}, &snapshot)
        .unwrap_err();
    assert_eq!(err, ContractError::ArithmeticFailure(ArithmeticFault::DivisionByZero));
    assert_eq!(read_state(&ledger).unwrap().total_supply, 0);
}

#[test]
fn mint_rejects_amounts_that_overflow() {
    let mut ledger = registered_vault(MintStrategy::DirectDeposit);
    let coin = Coin { denom: "uusd".to_string(), amount: u128::MAX };
    let err = handle(
        &mut ledger,
        mock_env("alice", &[coin]),
        HandleMsg::Mint {},
        &chain(u128::MAX, 0, 0, 0),
    )
    .unwrap_err();
    assert_eq!(err, ContractError::ArithmeticFailure(ArithmeticFault::Overflow));
    assert_eq!(read_state(&ledger).unwrap().total_supply, 0);
}

#[test]
fn mint_splits_what_is_left_after_tax_and_mints_the_raw_deposit() {
    let mut ledger = registered_vault(MintStrategy::DirectDeposit);
    let coin = Coin { denom: "uusd".to_string(), amount: 100000 };
    let mut snapshot = chain(99001, 0, 0, 0);
    snapshot.rates = Rates {
        luna: Some(whole(4)),
        anc: Some(Decimal18 { atomics: 2_500_000_000_000_000_000 }),
        mir: Some(Decimal18 { atomics: 500_000_000_000_000_000 }),
    };
    let res = handle(&mut ledger, mock_env("alice", &[coin]), HandleMsg::Mint {}, &snapshot)
        .unwrap();
    // 99001 * 25% = 24750.25, 99001 * 50% = 49500.5
    assert_eq!(
        res.messages,
        vec![
            VaultMsg::PairSwap {
                pair: "pairANC".to_string(),
                denom: "uusd".to_string(),
                amount: 24750,
            },
            VaultMsg::PairSwap {
                pair: "pairMIRROR".to_string(),
                denom: "uusd".to_string(),
                amount: 24750,
            },
            VaultMsg::MarketSwap {
                trader: MOCK_CONTRACT_ADDR.to_string(),
                offer_denom: "uusd".to_string(),
                offer_amount: 49500,
                ask_denom: "uluna".to_string(),
            },
            VaultMsg::MintClaim {
                token: "ETerra".to_string(),
                recipient: "alice".to_string(),
                amount: 100000,
            },
        ]
    );
    // 49500 / 4 = 12375, 24750 / 2.5 = 9900, 24750 / 0.5 = 49500
    assert_eq!(
        read_state(&ledger).unwrap(),
        State {
            total_supply: 100000,
            reserve_luna: whole(12375),
            reserve_anc: whole(9900),
            reserve_mir: whole(49500),
        }
    );
}

#[test]
fn supply_after_several_mints_is_the_sum_of_what_they_minted() {
    let mut ledger = registered_vault(MintStrategy::DirectDeposit);
    let mut minted_total = 0u128;
    for amount in [1u128, 999, 100000, 7] {
        let coin = Coin { denom: "uusd".to_string(), amount };
        let res = handle(
            &mut ledger,
            mock_env("alice", &[coin]),
            HandleMsg::Mint {},
            &chain(amount, 0, 0, 0),
        )
        .unwrap();
        match &res.messages[3] {
            VaultMsg::MintClaim { amount, .. } => minted_total += amount,
            other => panic!("unexpected message {:?}", other),
        }
    }
    assert_eq!(minted_total, 101007);
    assert_eq!(read_state(&ledger).unwrap().total_supply, 101007);
}

#[test]
fn pro_rata_mint_prices_the_deposit_against_the_pool() {
    let mut ledger = registered_vault(MintStrategy::ProRata);
    store_state(
        &mut ledger,
        State {
            total_supply: 1000,
            reserve_luna: whole(100),
            reserve_anc: whole(200),
            reserve_mir: whole(300),
        },
    );
    let coin = Coin { denom: "uusd".to_string(), amount: 500 };
    let mut snapshot = chain(500, 0, 0, 0);
    snapshot.rates =
        Rates { luna: Some(whole(10)), anc: Some(whole(2)), mir: Some(whole(2)) };
    // pool value 100 * 10 + 200 * 2 + 300 * 2 = 2000; 1000 * 500 / 2000 = 250
    let res = handle(&mut ledger, mock_env("alice", &[coin]), HandleMsg::Mint {}, &snapshot)
        .unwrap();
    assert_eq!(res.log, vec![log("mint", "250")]);
    assert_eq!(
        read_state(&ledger).unwrap(),
        State {
            total_supply: 1250,
            reserve_luna: whole(125),
            reserve_anc: whole(262),
            reserve_mir: whole(362),
        }
    );
}

#[test]
fn pro_rata_mint_divides_by_the_nominal_value_when_the_pool_is_worthless() {
    let mut ledger = registered_vault(MintStrategy::ProRata);
    store_state(
        &mut ledger,
        State {
            total_supply: 3,
            reserve_luna: Decimal18::zero(),
            reserve_anc: Decimal18::zero(),
            reserve_mir: Decimal18::zero(),
        },
    );
    let coin = Coin { denom: "uusd".to_string(), amount: 500 };
    let res = handle(
        &mut ledger,
        mock_env("alice", &[coin]),
        HandleMsg::Mint {},
        &chain(500, 0, 0, 0),
    )
    .unwrap();
    assert_eq!(res.log, vec![log("mint", "1500")]);
    assert_eq!(read_state(&ledger).unwrap().total_supply, 1503);
}

#[test]
fn burn_takes_the_burned_amount_off_the_supply() {
    let mut ledger = registered_vault(MintStrategy::DirectDeposit);
    let mut state = read_state(&ledger).unwrap();
    state.total_supply = 20000;
    state.reserve_anc = whole(77);
    store_state(&mut ledger, state);
    let res = handle(
        &mut ledger,
        mock_env("alice", &[]),
        HandleMsg::Burn {},
        &chain(0, 5000, 1000000, 0),
    )
    .unwrap();
    assert_eq!(res.messages.len(), 5);
    assert_eq!(res.log, vec![log("burn", "5000")]);
    assert_eq!(
        read_state(&ledger).unwrap(),
        State { total_supply: 15000, reserve_anc: whole(77), ..state }
    );
}

#[test]
fn burn_beyond_supply_fails_and_leaves_supply() {
    let mut ledger = registered_vault(MintStrategy::DirectDeposit);
    let mut state = read_state(&ledger).unwrap();
    state.total_supply = 20000;
    store_state(&mut ledger, state);
    let err = handle(
        &mut ledger,
        mock_env("alice", &[]),
        HandleMsg::Burn {},
        &chain(0, 20001, 1000000, 0),
    )
    .unwrap_err();
    assert_eq!(err, ContractError::ArithmeticFailure(ArithmeticFault::Underflow));
    assert_eq!(read_state(&ledger).unwrap(), state);
}

#[test]
fn burn_with_nothing_outstanding_fails() {
    let mut ledger = registered_vault(MintStrategy::DirectDeposit);
    let err = handle(
        &mut ledger,
        mock_env("alice", &[]),
        HandleMsg::Burn {},
        &chain(0, 0, 1000000, 0),
    )
    .unwrap_err();
    assert_eq!(err, ContractError::InvalidInput(InputFault::ZeroSupply));
    let err = handle(
        &mut ledger,
        mock_env("alice", &[]),
        HandleMsg::Burn {},
        &chain(0, 5, 1000000, 0),
    )
    .unwrap_err();
    assert_eq!(err, ContractError::InvalidInput(InputFault::ZeroSupply));
    assert_eq!(read_state(&ledger).unwrap().total_supply, 0);
}

#[test]
fn burn_rejects_holdings_that_overflow() {
    let mut ledger = registered_vault(MintStrategy::DirectDeposit);
    let mut state = read_state(&ledger).unwrap();
    state.total_supply = 20000;
    store_state(&mut ledger, state);
    let err = handle(
        &mut ledger,
        mock_env("alice", &[]),
        HandleMsg::Burn {},
        &chain(0, 5000, u128::MAX, 0),
    )
    .unwrap_err();
    assert_eq!(err, ContractError::ArithmeticFailure(ArithmeticFault::Overflow));
    assert_eq!(read_state(&ledger).unwrap(), state);
}

#[test]
fn redeem_token_is_for_the_vault_itself() {
    let mut ledger = registered_vault(MintStrategy::DirectDeposit);
    let msg = HandleMsg::RedeemToken { sender: "alice".to_string() };
    for caller in ["alice", "creator", "ETerra", ""] {
        let err = handle(&mut ledger, mock_env(caller, &[]), msg.clone(), &chain(0, 0, 0, 10000))
            .unwrap_err();
        assert_eq!(err, ContractError::Unauthorized);
    }
    let res = handle(
        &mut ledger,
        mock_env(MOCK_CONTRACT_ADDR, &[]),
        msg,
        &chain(0, 0, 0, 10000),
    )
    .unwrap();
    assert_eq!(res.messages.len(), 1);
    assert_eq!(res.log, vec![log("redeem", "10000")]);
}

#[test]
fn queries_project_the_records() {
    let mut ledger = registered_vault(MintStrategy::ProRata);
    let state = State {
        total_supply: 12,
        reserve_luna: whole(1),
        reserve_anc: whole(2),
        reserve_mir: whole(3),
    };
    store_state(&mut ledger, state);
    assert_eq!(
        query_state(&ledger).unwrap(),
        StateResponse {
            total_supply: 12,
            reserve_luna: whole(1),
            reserve_anc: whole(2),
            reserve_mir: whole(3),
        }
    );
    match query(&ledger, QueryMsg::State {}).unwrap() {
        QueryResponse::State(s) => assert_eq!(s.total_supply, 12),
        other => panic!("unexpected answer {:?}", other),
    }
    match query(&ledger, QueryMsg::Config {}).unwrap() {
        QueryResponse::Config(c) => {
            assert_eq!(c.owner_addr, "creator");
            assert_eq!(c.stable_denom, "uusd");
            assert_eq!(c.eterra_contract, Some("ETerra".to_string()));
            assert_eq!(c.terraswap_factory, "terraswapfactory");
            assert_eq!(c.alloc_luna, whole(5000));
            assert_eq!(c.mint_strategy, MintStrategy::ProRata);
        }
        other => panic!("unexpected answer {:?}", other),
    }
}

#[test]
fn init_is_refused_on_a_vault_that_exists() {
    let mut ledger = registered_vault(MintStrategy::DirectDeposit);
    let before = read_config(&ledger).unwrap();
    let err = init(&mut ledger, mock_env("creator", &[]), init_msg(MintStrategy::ProRata))
        .unwrap_err();
    assert_eq!(err, ContractError::Unauthorized);
    assert_eq!(read_config(&ledger).unwrap(), before);
}

#[test]
fn logged_amounts_are_decimal_numerals() {
    let mut ledger = registered_vault(MintStrategy::DirectDeposit);
    for (balance, text) in [
        (0u128, "0"),
        (7, "7"),
        (1090, "1090"),
        (u128::MAX, "340282366920938463463374607431768211455"),
    ] {
        let res = handle(
            &mut ledger,
            mock_env(MOCK_CONTRACT_ADDR, &[]),
            HandleMsg::RedeemToken { sender: "alice".to_string() },
            &chain(0, 0, 0, balance),
        )
        .unwrap();
        assert_eq!(res.log, vec![log("redeem", text)]);
    }
}

#[test]
fn zero_deposit_is_refused_before_the_token_is_looked_at() {
    let mut ledger = Ledger::new();
    init(&mut ledger, mock_env("creator", &[]), init_msg(MintStrategy::DirectDeposit)).unwrap();
    let before = read_state(&ledger).unwrap();
    let mut snapshot = chain(0, 0, 0, 0);
    snapshot.rates = Rates { luna: None, anc: None, mir: None };
    let other = Coin { denom: "ukrw".to_string(), amount: 5 };
    for funds in [vec![], vec![other]] {
        let err = handle(&mut ledger, mock_env("alice", &funds), HandleMsg::Mint {}, &snapshot)
            .unwrap_err();
        assert_eq!(err, ContractError::InvalidInput(InputFault::ZeroDeposit));
    }
    assert_eq!(read_state(&ledger).unwrap(), before);
}

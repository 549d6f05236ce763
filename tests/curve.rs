use flambe::curve::{
    check_to_pending, compute_swap, deploy, instantiate, qy_info, qy_simulate, reply,
    reply_pool_creation, reply_position_creation, swap, Config, ReplyIds, SubMsgResult,
};
use flambe::math::{checked_mul_floor, Decimal18};
use flambe::types::{
    Action, Coin, ContractError, CurveCall, CurveInit, FactoryCall, FlambeSetting, FlambeStatus,
    PoolCreationInfo,
};

const E18: u128 = 1_000_000_000_000_000_000;

fn s(x: &str) -> String {
    x.to_string()
}

fn setting() -> FlambeSetting {
    FlambeSetting {
        pair_denom: s("inj"),
        pair_decimals: 18,
        threshold: 50_500 * E18,
        initial_price: Decimal18::permille(100),
        initial_supply: 1_000_000_000_000,
        pool_creation_info: PoolCreationInfo { lower_tick: -100, upper_tick: 100 },
    }
}

fn init() -> CurveInit {
    CurveInit {
        burner_addr: s("burner"),
        creator: s("creator"),
        factory: s("factory"),
        fee_collector: s("fee_collector"),
        flambe_setting: setting(),
        owner: s("owner"),
        swap_fee: Decimal18::percent(1),
    }
}

fn curve() -> Config {
    instantiate(init(), vec![Coin { denom: s("factory/f/mjj"), amount: 1_000_000_000_000 }]).unwrap()
}

#[test]
fn spread_factor() {
    let dec = Decimal18::permille(5);
    let mul = checked_mul_floor(10_u128.pow(18), dec).unwrap();
    assert_eq!(mul, 5000000000000000_u128);
}

#[test]
fn instantiate_sets_virtual_reserve_from_price_and_decimals() {
    let config = curve();
    // 1_000_000 tokens at 0.1 are worth 100_000 of an 18-decimal asset.
    assert_eq!(config.virtual_reserve, 100_000 * E18);
    assert_eq!(config.status, FlambeStatus::OPEN);
    assert_eq!(config.main_denom, "factory/f/mjj");
}

#[test]
fn instantiate_rejects_bad_input() {
    assert_eq!(instantiate(init(), vec![]), Err(ContractError::InvalidFunds));
    let mut bad_fee = init();
    bad_fee.swap_fee = Decimal18::one();
    assert_eq!(
        instantiate(bad_fee, vec![Coin { denom: s("t"), amount: 10 }]),
        Err(ContractError::InvalidFee)
    );
    let mut bad_decimals = init();
    bad_decimals.flambe_setting.pair_decimals = 5;
    assert_eq!(
        instantiate(bad_decimals, vec![Coin { denom: s("t"), amount: 10 }]),
        Err(ContractError::InvalidConfig)
    );
    let mut huge = init();
    huge.flambe_setting.initial_price = Decimal18::raw(u128::MAX);
    assert_eq!(
        instantiate(huge, vec![Coin { denom: s("t"), amount: u128::MAX }]),
        Err(ContractError::Arithmetic)
    );
}

#[test]
fn first_buy_matches_exact_truncation() {
    let config = curve();
    let offer = Coin { denom: s("inj"), amount: 1_000 * E18 };
    // The offered coin has arrived: the curve holds it already.
    let r = compute_swap(&config, &offer, 1_000_000_000_000, 1_000 * E18, false).unwrap();
    assert_eq!(r.swap_fee, Coin { denom: s("inj"), amount: 10 * E18 });
    // 1_000_000 - 1_000_000 * 100_000 / (100_000 + 990) = 9802.950787 tokens.
    assert_eq!(r.return_amount, Coin { denom: s("factory/f/mjj"), amount: 9_802_950_787 });
}

#[test]
fn simulation_matches_execution() {
    let config = curve();
    let sim = qy_simulate(&config, s("inj"), 1_000 * E18, 1_000_000_000_000, 0).unwrap();
    let offer = Coin { denom: s("inj"), amount: 1_000 * E18 };
    let real = compute_swap(&config, &offer, 1_000_000_000_000, 1_000 * E18, false).unwrap();
    assert_eq!(sim, real);
}

#[test]
fn larger_offer_never_returns_less() {
    let config = curve();
    let mut last = 0;
    for amount in [0u128, 1, 999, 1_000 * E18, 5_000 * E18, 80_000 * E18] {
        let q = qy_simulate(&config, s("inj"), amount, 1_000_000_000_000, 0).unwrap();
        assert!(q.return_amount.amount >= last);
        last = q.return_amount.amount;
    }
}

#[test]
fn zero_fee_and_zero_offer() {
    let mut config = curve();
    config.swap_fee = Decimal18::zero();
    let q = qy_simulate(&config, s("inj"), 1_000 * E18, 1_000_000_000_000, 0).unwrap();
    assert_eq!(q.swap_fee.amount, 0);
    // The whole offer enters the curve: 10^12 * 1_000 / 101_000 rounded down.
    assert_eq!(q.return_amount.amount, 9_900_990_099);
    let zero = qy_simulate(&config, s("inj"), 0, 1_000_000_000_000, 0).unwrap();
    assert_eq!(zero.return_amount.amount, 0);
    assert_eq!(zero.price_impact, Decimal18::one());
}

#[test]
fn sell_quote_prices_in_the_paired_asset() {
    let config = curve();
    let q = qy_simulate(&config, s("factory/f/mjj"), 5_000_000_000, 1_000_000_000_000, 0).unwrap();
    assert_eq!(q.swap_fee, Coin { denom: s("factory/f/mjj"), amount: 50_000_000 });
    assert_eq!(q.return_amount.denom, "inj");
    // 100_000 * 4_950 / 1_004_950 in the paired asset's units.
    assert_eq!(q.return_amount.amount, 492_561_818_995_969_948_753);
}

#[test]
fn unknown_denom_is_refused() {
    let config = curve();
    assert_eq!(
        qy_simulate(&config, s("atom"), 10, 1_000_000_000_000, 0),
        Err(ContractError::InvalidDenom)
    );
}

#[test]
fn real_swap_with_offer_missing_from_balance_fails() {
    let config = curve();
    let offer = Coin { denom: s("factory/f/mjj"), amount: 10 };
    assert_eq!(compute_swap(&config, &offer, 5, 0, false), Err(ContractError::Arithmetic));
}

#[test]
fn swap_pays_fee_proceeds_and_notifies() {
    let config = curve();
    let out = swap(
        &config,
        &s("curve"),
        &s("factory"),
        vec![Coin { denom: s("inj"), amount: 1_000 * E18 }],
        s("user"),
        9_802_950_787,
        1_000_000_000_000,
        1_000 * E18,
    )
    .unwrap();
    assert_eq!(
        out.messages,
        vec![
            Action::BankSend { to: s("fee_collector"), coin: Coin { denom: s("inj"), amount: 10 * E18 } },
            Action::BankSend { to: s("user"), coin: Coin { denom: s("factory/f/mjj"), amount: 9_802_950_787 } },
            Action::ExecuteFactory { contract: s("factory"), msg: FactoryCall::UpdateFlambeLiquidity, funds: None },
            Action::ExecuteCurve { contract: s("curve"), msg: CurveCall::CheckToPending, funds: None },
        ]
    );
}

#[test]
fn swap_errors() {
    let mut config = curve();
    let funds = || vec![Coin { denom: s("inj"), amount: 1_000 * E18 }];
    let call = |c: &Config, sender: &str, f: Vec<Coin>, min: u128| {
        swap(c, &s("curve"), &s(sender), f, s("user"), min, 1_000_000_000_000, 1_000 * E18).map(|o| o.output)
    };
    assert_eq!(call(&config, "user", funds(), 0), Err(ContractError::Unauthorized));
    assert_eq!(call(&config, "factory", vec![], 0), Err(ContractError::InvalidFunds));
    assert_eq!(call(&config, "factory", funds(), 9_802_950_788), Err(ContractError::SlippageError));
    config.status = FlambeStatus::PENDING;
    assert_eq!(call(&config, "factory", funds(), 0), Err(ContractError::PumpClosed));
}

#[test]
fn threshold_check_is_idempotent() {
    let mut config = curve();
    let below = 50_000 * E18;
    assert_eq!(check_to_pending(&mut config, &s("curve"), &s("curve"), below), Ok(vec![]));
    assert_eq!(check_to_pending(&mut config, &s("curve"), &s("curve"), below), Ok(vec![]));
    assert_eq!(config.status, FlambeStatus::OPEN);
    let msgs = check_to_pending(&mut config, &s("curve"), &s("curve"), 50_500 * E18).unwrap();
    assert_eq!(
        msgs,
        vec![Action::ExecuteFactory {
            contract: s("factory"),
            msg: FactoryCall::UpdateFlambeStatus { status: FlambeStatus::PENDING },
            funds: None,
        }]
    );
    assert_eq!(config.status, FlambeStatus::PENDING);
    assert_eq!(check_to_pending(&mut config, &s("curve"), &s("curve"), 60_000 * E18), Ok(vec![]));
    assert_eq!(config.status, FlambeStatus::PENDING);
    assert_eq!(
        check_to_pending(&mut config, &s("curve"), &s("user"), 60_000 * E18),
        Err(ContractError::Unauthorized)
    );
}

#[test]
fn deploy_splits_reserves_and_closes() {
    let mut config = curve();
    config.status = FlambeStatus::PENDING;
    let main = 664_451_827_243 + 1;
    let pair = 50_500 * E18;
    let msgs = deploy(&mut config, &s("curve"), &s("factory"), main, pair, &s("dojo")).unwrap();
    assert_eq!(config.status, FlambeStatus::CLOSED);
    // deploy = 50_500 * 664_451.827243 / 150_500, rounded down; one unit went to
    // the registration.
    let deploy_amount = match &msgs[1] {
        Action::CreatePair { main, pair: p, .. } => {
            assert_eq!(p.amount, pair);
            main.amount
        }
        other => panic!("unexpected {:?}", other),
    };
    assert_eq!(deploy_amount, 222_955_596_516);
    assert_eq!(
        msgs[2],
        Action::BankSend {
            to: s("burner"),
            coin: Coin { denom: s("factory/f/mjj"), amount: 441_496_230_727 },
        }
    );
    assert_eq!(msgs.len(), 5);
}

#[test]
fn deploy_twice_fails_the_second_time() {
    let mut config = curve();
    config.status = FlambeStatus::PENDING;
    assert!(deploy(&mut config, &s("curve"), &s("factory"), 1_000_000, 50_500 * E18, &s("dojo")).is_ok());
    assert_eq!(
        deploy(&mut config, &s("curve"), &s("factory"), 1_000_000, 50_500 * E18, &s("dojo")),
        Err(ContractError::NotPending)
    );
    assert_eq!(config.status, FlambeStatus::CLOSED);
}

#[test]
fn deploy_errors() {
    let mut config = curve();
    assert_eq!(
        deploy(&mut config, &s("curve"), &s("owner"), 10, 10, &s("dojo")),
        Err(ContractError::Unauthorized)
    );
    assert_eq!(
        deploy(&mut config, &s("curve"), &s("factory"), 10, 10, &s("dojo")),
        Err(ContractError::NotPending)
    );
    config.status = FlambeStatus::PENDING;
    assert_eq!(
        deploy(&mut config, &s("curve"), &s("factory"), 0, 10, &s("dojo")),
        Err(ContractError::Arithmetic)
    );
    assert_eq!(config.status, FlambeStatus::PENDING);
}

#[test]
fn info_reports_price() {
    let config = curve();
    let info = qy_info(&config, 1_000_000_000_000, 0).unwrap();
    // (0 + 100_000 * 10^18) / 10^12 = 10^11 as a decimal.
    assert_eq!(info.price, Decimal18::raw(100_000_000_000 * E18));
    assert_eq!(qy_info(&config, 0, 0).unwrap().price, Decimal18::zero());
}

#[test]
fn pool_creation_reply_opens_position() {
    let config = curve();
    // Protobuf for a message whose field 1 (pool_id) is 5.
    let reply_data = SubMsgResult::Success { data: Some(vec![0x08, 0x05]) };
    let msgs = reply_pool_creation(&config, &s("curve"), reply_data, 100_000_000, 10 * E18).unwrap();
    match &msgs[0] {
        Action::CreatePosition { pool_id, lower_tick, upper_tick, reply_id, pair, .. } => {
            assert_eq!(*pool_id, 5);
            assert_eq!((*lower_tick, *upper_tick), (-100, 100));
            assert_eq!(*reply_id, ReplyIds::PositionCreation.repr());
            assert_eq!(pair.amount, 10 * E18);
        }
        other => panic!("unexpected {:?}", other),
    }
}

#[test]
fn reply_errors() {
    let config = curve();
    let failed = SubMsgResult::Failure { message: s("boom") };
    assert_eq!(reply_pool_creation(&config, &s("curve"), failed, 1, 1), Err(ContractError::ReplyError));
    let empty = SubMsgResult::Success { data: None };
    assert_eq!(reply_pool_creation(&config, &s("curve"), empty, 1, 1), Err(ContractError::ReplyError));
    let no_bytes = SubMsgResult::Success { data: Some(vec![]) };
    assert_eq!(reply_pool_creation(&config, &s("curve"), no_bytes, 1, 1), Err(ContractError::ReplyError));
    let garbage = SubMsgResult::Success { data: Some(vec![0xff]) };
    assert_eq!(reply_pool_creation(&config, &s("curve"), garbage, 1, 1), Err(ContractError::ReplyError));
    assert_eq!(
        reply(&config, &s("curve"), 7, SubMsgResult::Success { data: None }, 1, 1),
        Err(ContractError::InvalidReplyId(7))
    );
}

#[test]
fn position_reply_burns_leftover() {
    let config = curve();
    let ok = SubMsgResult::Success { data: Some(vec![0x08, 0x01]) };
    assert_eq!(
        reply_position_creation(&config, ok, 42),
        Ok(vec![Action::BankSend { to: s("burner"), coin: Coin { denom: s("factory/f/mjj"), amount: 42 } }])
    );
    let ok = SubMsgResult::Success { data: Some(vec![0x08, 0x01]) };
    assert_eq!(reply_position_creation(&config, ok, 0), Ok(vec![]));
    assert_eq!(
        reply_position_creation(&config, SubMsgResult::Success { data: None }, 42),
        Err(ContractError::ReplyError)
    );
    assert_eq!(
        reply_position_creation(&config, SubMsgResult::Success { data: Some(vec![]) }, 42),
        Err(ContractError::ReplyError)
    );
    assert_eq!(
        reply_position_creation(&config, SubMsgResult::Failure { message: s("boom") }, 42),
        Err(ContractError::ReplyError)
    );
}

#[test]
fn status_names() {
    assert_eq!(FlambeStatus::OPEN.to_string(), "OPEN");
    assert_eq!(FlambeStatus::PENDING.to_string(), "PENDING");
    assert_eq!(FlambeStatus::CLOSED.to_string(), "CLOSED");
}

#[test]
fn zero_offer_against_a_tiny_price_has_no_impact() {
    let mut config = curve();
    config.virtual_reserve = 0;
    // Paired reserve 1 against 10^19 tokens: the price is below 10^-18.
    let buy = qy_simulate(&config, s("inj"), 0, 10_000_000_000_000_000_000, 1).unwrap();
    assert_eq!((buy.return_amount.amount, buy.swap_fee.amount, buy.price_impact), (0, 0, Decimal18::one()));
    let sell = qy_simulate(&config, s("factory/f/mjj"), 0, 10_000_000_000_000_000_000, 1).unwrap();
    assert_eq!((sell.return_amount.amount, sell.swap_fee.amount, sell.price_impact), (0, 0, Decimal18::one()));
}

#[test]
fn position_never_asks_for_more_than_held() {
    let mut config = curve();
    config.virtual_reserve = 0;
    let reply_data = SubMsgResult::Success { data: Some(vec![0x08, 0x05]) };
    let msgs = reply_pool_creation(&config, &s("curve"), reply_data, 700_000_000_000_000_000, 1).unwrap();
    match &msgs[0] {
        Action::CreatePosition { main, .. } => assert_eq!(main.amount, 700_000_000_000_000_000),
        other => panic!("unexpected {:?}", other),
    }
}

#[test]
fn pool_creation_is_tagged_for_its_reply() {
    let mut config = curve();
    config.status = FlambeStatus::PENDING;
    let msgs = deploy(&mut config, &s("curve"), &s("factory"), 1_000_001, 10 * E18, &s("dojo")).unwrap();
    match &msgs[1] {
        Action::CreatePair { reply_id, main, .. } => {
            assert_eq!(*reply_id, ReplyIds::PoolCreation.repr());
            // 10 * 10^6 / (10 + 100_000) of the tokens left after the registration unit.
            assert_eq!(main.amount, 99);
        }
        other => panic!("unexpected {:?}", other),
    }
}

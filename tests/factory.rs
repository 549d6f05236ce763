use flambe::curve::FlambeInfo;
use flambe::factory::{
    create_token_factory, end_flambe, instantiate, qy_flambe, qy_flambes, register_denom_on_dojo,
    route_swap, update_config, update_flambe_liquidity, update_flambe_status, Config, EndFlambeMsg,
    InstantiateMsg, UpdateConfigMsg,
};
use flambe::math::Decimal18;
use flambe::registry::{FlambeBaseInfo, FlambeFilter, FlambesFilter, Registry};
use flambe::types::{
    derive_denom_from_subdenom, Action, Coin, ContractError, CreateFactoryInput, CurveCall,
    FlambeSetting, FlambeStatus, PoolCreationInfo, ProtocolTokenInfo, ProtocolTokensInfoCreation,
};

fn s(x: &str) -> String {
    x.to_string()
}

fn setting(price: Decimal18) -> FlambeSetting {
    FlambeSetting {
        pair_denom: s("denom_pair"),
        pair_decimals: 6,
        threshold: 100_000,
        initial_price: price,
        initial_supply: 1_000_000,
        pool_creation_info: PoolCreationInfo { lower_tick: 0, upper_tick: 10 },
    }
}

fn token(index: usize) -> ProtocolTokenInfo {
    ProtocolTokenInfo {
        denom: format!("flambe_{index}_denom"),
        description: format!("description_{index}"),
        name: format!("flambe_{index}"),
        total_supply: 100,
        symbol: format!("fl_{index}"),
        uri: s(""),
        uri_hash: s(""),
    }
}

fn record(index: usize, price: Decimal18, liquidity: u128) -> FlambeBaseInfo {
    FlambeBaseInfo {
        creator: format!("creator_{}", index % 2),
        flambe_address: format!("flambe_{index}"),
        flambe_setting: setting(Decimal18::permille(100)),
        main_token: token(index),
        status: if index % 3 == 0 { FlambeStatus::PENDING } else { FlambeStatus::OPEN },
        last_price: price,
        last_liquidity: liquidity,
    }
}

fn seven() -> Registry {
    let mut reg = Registry::new();
    let data = [(100, 100_000), (100, 200_000), (300, 300_000), (300, 100_000), (200, 200_000), (200, 300_000), (200, 400_000)];
    for (i, (p, l)) in data.iter().enumerate() {
        reg.insert(record(i + 1, Decimal18::permille(*p), *l)).unwrap();
    }
    reg
}

fn denoms(page: &[FlambeBaseInfo]) -> Vec<String> {
    page.iter().map(|r| r.main_token.denom.clone()).collect()
}

#[test]
fn liquidity_pages_cover_all_records_once() {
    let reg = seven();
    let mut cursor: Option<(u128, String)> = None;
    let mut seen = vec![];
    let mut pages = vec![];
    loop {
        let page = qy_flambes(&reg, Some(2), &FlambesFilter::ByLiquidity { start_after: cursor.clone() });
        pages.push(denoms(&page));
        seen.extend(page.iter().map(|r| (r.last_liquidity, r.main_token.denom.clone())));
        if page.len() < 2 {
            break;
        }
        let last = page.last().unwrap();
        cursor = Some((last.last_liquidity, last.main_token.denom.clone()));
    }
    let expected: Vec<(u128, String)> = vec![
        (400_000, s("flambe_7_denom")),
        (300_000, s("flambe_6_denom")),
        (300_000, s("flambe_3_denom")),
        (200_000, s("flambe_5_denom")),
        (200_000, s("flambe_2_denom")),
        (100_000, s("flambe_4_denom")),
        (100_000, s("flambe_1_denom")),
    ];
    assert_eq!(seen, expected);
    let d = |i: usize| format!("flambe_{i}_denom");
    assert_eq!(pages, vec![vec![d(7), d(6)], vec![d(3), d(5)], vec![d(2), d(4)], vec![d(1)]]);
}

#[test]
fn price_pages_resume_after_cursor() {
    let reg = seven();
    let cursor = Some((Decimal18::permille(200), s("flambe_5_denom")));
    let page = qy_flambes(&reg, Some(2), &FlambesFilter::ByPrice { start_after: cursor });
    assert_eq!(denoms(&page), vec![s("flambe_2_denom"), s("flambe_1_denom")]);
    let top = qy_flambes(&reg, None, &FlambesFilter::ByPrice { start_after: None });
    assert_eq!(
        denoms(&top),
        vec![
            s("flambe_4_denom"),
            s("flambe_3_denom"),
            s("flambe_7_denom"),
            s("flambe_6_denom"),
            s("flambe_5_denom"),
            s("flambe_2_denom"),
            s("flambe_1_denom"),
        ]
    );
}

#[test]
fn creator_status_and_all_filters() {
    let reg = seven();
    let by_creator = qy_flambes(&reg, None, &FlambesFilter::ByCreator { creator: s("creator_0"), start_after: None });
    assert_eq!(denoms(&by_creator), vec![s("flambe_6_denom"), s("flambe_4_denom"), s("flambe_2_denom")]);
    let by_status = qy_flambes(&reg, None, &FlambesFilter::ByStatus { status: FlambeStatus::PENDING, start_after: None });
    assert_eq!(denoms(&by_status), vec![s("flambe_6_denom"), s("flambe_3_denom")]);
    let all = qy_flambes(&reg, Some(3), &FlambesFilter::Empty { start_after: Some(s("flambe_5_denom")) });
    assert_eq!(denoms(&all), vec![s("flambe_4_denom"), s("flambe_3_denom"), s("flambe_2_denom")]);
}

#[test]
fn page_limit_is_clamped() {
    let mut reg = Registry::new();
    for i in 0..40 {
        reg.insert(record(100 + i, Decimal18::permille(1), 1)).unwrap();
    }
    assert_eq!(qy_flambes(&reg, Some(100), &FlambesFilter::Empty { start_after: None }).len(), 30);
    assert_eq!(qy_flambes(&reg, None, &FlambesFilter::Empty { start_after: None }).len(), 10);
    assert_eq!(qy_flambes(&reg, Some(0), &FlambesFilter::Empty { start_after: None }).len(), 0);
}

#[test]
fn registry_keeps_keys_unique() {
    let mut reg = seven();
    assert_eq!(reg.insert(record(1, Decimal18::zero(), 0)), Err(ContractError::FlambeAlreadyExists));
    let mut same_address = record(9, Decimal18::zero(), 0);
    same_address.flambe_address = s("flambe_2");
    assert_eq!(reg.insert(same_address), Err(ContractError::FlambeAlreadyExists));
    assert_eq!(reg.len(), 7);
}

#[test]
fn status_and_liquidity_updates() {
    let mut reg = seven();
    update_flambe_status(&mut reg, &s("flambe_2"), FlambeStatus::CLOSED).unwrap();
    let rec = qy_flambe(&reg, &FlambeFilter::ByFlambeAddr(s("flambe_2"))).unwrap();
    assert_eq!(rec.status, FlambeStatus::CLOSED);
    let info = FlambeInfo {
        virtual_reserve: 1,
        main_amount: 2,
        main_denom: s("flambe_2_denom"),
        pair_amount: 777,
        pair_denom: s("denom_pair"),
        price: Decimal18::permille(5),
    };
    update_flambe_liquidity(&mut reg, &s("flambe_2"), &info).unwrap();
    let rec = qy_flambe(&reg, &FlambeFilter::ByTokenDenom(s("flambe_2_denom"))).unwrap();
    assert_eq!((rec.last_liquidity, rec.last_price), (777, Decimal18::permille(5)));
    assert_eq!(update_flambe_status(&mut reg, &s("stranger"), FlambeStatus::OPEN), Err(ContractError::FlambeNotFound));
    assert_eq!(update_flambe_liquidity(&mut reg, &s("stranger"), &info), Err(ContractError::FlambeNotFound));
}

fn reward_token(symbol: &str) -> ProtocolTokensInfoCreation {
    ProtocolTokensInfoCreation {
        description: s("d"),
        name: s(symbol),
        total_supply: 1_000_000,
        symbol: s(symbol),
        uri: s(""),
        uri_hash: s(""),
    }
}

fn factory() -> Config {
    let msg = InstantiateMsg {
        burner: s("burner"),
        cook_token: reward_token("COOK"),
        cookie_token: reward_token("COOKIE"),
        cookie_ratio: Decimal18::percent(50),
        cookie_owner_reward: 1_000,
        dojoswap_factory: s("dojo"),
        fee_collector: s("fees"),
        flambe_code_id: 7,
        flambe_fee_creation: Some(Coin { denom: s("inj"), amount: 10 }),
        flambe_settings: vec![setting(Decimal18::permille(100))],
        owner: s("owner"),
        swap_fee: Decimal18::percent(1),
    };
    let (config, msgs) = instantiate(msg, &s("fac")).unwrap();
    assert_eq!(msgs.len(), 10);
    config
}

#[test]
fn factory_instantiate_issues_reward_tokens() {
    let config = factory();
    assert_eq!(config.cook_token.denom, "factory/fac/COOK");
    assert_eq!(config.cookie_token.denom, "factory/fac/COOKIE");
    assert_eq!(config.counter_flambe, 0);
    assert_eq!(derive_denom_from_subdenom(&s("creator"), &s("mjj")), "factory/creator/mjj");
}

#[test]
fn factory_instantiate_rejects_invalid_settings() {
    let msg = InstantiateMsg {
        burner: s("burner"),
        cook_token: reward_token("COOK"),
        cookie_token: reward_token("COOKIE"),
        cookie_ratio: Decimal18::percent(50),
        cookie_owner_reward: 1_000,
        dojoswap_factory: s("dojo"),
        fee_collector: s("fees"),
        flambe_code_id: 7,
        flambe_fee_creation: None,
        flambe_settings: vec![setting(Decimal18::zero())],
        owner: s("owner"),
        swap_fee: Decimal18::percent(1),
    };
    assert_eq!(instantiate(msg, &s("fac")).map(|_| ()), Err(ContractError::InvalidConfig));
}

fn end(addr: &str) -> EndFlambeMsg {
    EndFlambeMsg { flambe_address: s(addr) }
}

fn input() -> CreateFactoryInput {
    CreateFactoryInput {
        description: s("Test"),
        name: s("Mini Jiooji"),
        symbol: s("MJJ"),
        uri: s(""),
        uri_hash: s(""),
    }
}

#[test]
fn create_curve_registers_and_counts() {
    let mut config = factory();
    let mut reg = Registry::new();
    let msgs = create_token_factory(&mut config, &mut reg, &s("fac"), &s("user"), s("mjj"), 0, input(), s("curve_0")).unwrap();
    assert_eq!(config.counter_flambe, 1);
    assert_eq!(msgs.len(), 6);
    assert_eq!(msgs[5], Action::BankSend { to: s("fees"), coin: Coin { denom: s("inj"), amount: 10 } });
    let rec = qy_flambe(&reg, &FlambeFilter::ByTokenDenom(s("factory/fac/mjj"))).unwrap();
    assert_eq!(rec.status, FlambeStatus::OPEN);
    assert_eq!(rec.last_price, Decimal18::permille(100));
    assert_eq!(rec.last_liquidity, 0);
    assert_eq!(rec.flambe_address, "curve_0");
    assert_eq!(
        create_token_factory(&mut config, &mut reg, &s("fac"), &s("user"), s("mjj"), 0, input(), s("curve_1")),
        Err(ContractError::FlambeAlreadyExists)
    );
    assert_eq!(
        create_token_factory(&mut config, &mut reg, &s("fac"), &s("user"), s("other"), 3, input(), s("curve_1")),
        Err(ContractError::InvalidFlambeSettingIndex { index: 3 })
    );
    assert_eq!(config.counter_flambe, 1);
}

#[test]
fn routing_buys_sells_and_rewards() {
    let mut config = factory();
    let mut reg = Registry::new();
    create_token_factory(&mut config, &mut reg, &s("fac"), &s("user"), s("mjj"), 0, input(), s("curve_0")).unwrap();
    let buy = route_swap(&config, &reg, &s("buyer"), vec![Coin { denom: s("denom_pair"), amount: 1_000 }], &s("curve_0"), 5, 3).unwrap();
    // Reward: 1_000 * 1% * 50% = 5, clamped to the 3 the factory holds.
    assert_eq!(
        buy.messages,
        vec![
            Action::CurveSwap { contract: s("curve_0"), min_amount_out: 5, user: s("buyer"), funds: Coin { denom: s("denom_pair"), amount: 1_000 } },
            Action::BankSend { to: s("buyer"), coin: Coin { denom: s("factory/fac/COOKIE"), amount: 3 } },
        ]
    );
    let sell = route_swap(&config, &reg, &s("seller"), vec![Coin { denom: s("factory/fac/mjj"), amount: 9 }], &s("curve_0"), 0, 3).unwrap();
    assert_eq!(sell.messages.len(), 1);
    assert_eq!((buy.reward_due, buy.reward_paid), (5, 3));
    assert_eq!((sell.reward_due, sell.reward_paid), (0, 0));
    assert_eq!(
        route_swap(&config, &reg, &s("x"), vec![Coin { denom: s("atom"), amount: 9 }], &s("curve_0"), 0, 3),
        Err(ContractError::InvalidFlambeDenom)
    );
    assert_eq!(
        route_swap(&config, &reg, &s("x"), vec![Coin { denom: s("atom"), amount: 9 }], &s("nowhere"), 0, 3),
        Err(ContractError::FlambeNotFound)
    );
    assert_eq!(route_swap(&config, &reg, &s("x"), vec![], &s("curve_0"), 0, 3), Err(ContractError::InvalidFunds));
}

#[test]
fn end_curve_requires_owner_and_pending() {
    let mut config = factory();
    let mut reg = Registry::new();
    create_token_factory(&mut config, &mut reg, &s("fac"), &s("creator"), s("mjj"), 0, input(), s("curve_0")).unwrap();
    assert_eq!(end_flambe(&config, &reg, &s("random"), &end("curve_0"), 5_000), Err(ContractError::Unauthorized));
    assert_eq!(end_flambe(&config, &reg, &s("owner"), &end("curve_0"), 5_000), Err(ContractError::InvalidFlambeStatus));
    update_flambe_status(&mut reg, &s("curve_0"), FlambeStatus::PENDING).unwrap();
    assert_eq!(
        end_flambe(&config, &reg, &s("owner"), &end("curve_0"), 5_000),
        Ok(vec![
            Action::ExecuteCurve { contract: s("curve_0"), msg: CurveCall::Deploy, funds: None },
            Action::BankSend { to: s("creator"), coin: Coin { denom: s("factory/fac/COOKIE"), amount: 1_000 } },
        ])
    );
}

#[test]
fn denom_registration_takes_one_unit() {
    let mut config = factory();
    let mut reg = Registry::new();
    create_token_factory(&mut config, &mut reg, &s("fac"), &s("creator"), s("mjj"), 0, input(), s("curve_0")).unwrap();
    let one = vec![Coin { denom: s("factory/fac/mjj"), amount: 1 }];
    let msgs = register_denom_on_dojo(&config, &reg, &s("curve_0"), one).unwrap();
    assert_eq!(msgs.len(), 1);
    let two = vec![Coin { denom: s("factory/fac/mjj"), amount: 2 }];
    assert_eq!(
        register_denom_on_dojo(&config, &reg, &s("curve_0"), two),
        Err(ContractError::InvalidDenomRegistrationAmount { requested: 1 })
    );
    let wrong = vec![Coin { denom: s("inj"), amount: 1 }];
    assert_eq!(register_denom_on_dojo(&config, &reg, &s("curve_0"), wrong), Err(ContractError::InvalidFunds));
}

#[test]
fn config_updates() {
    let mut config = factory();
    let empty = || UpdateConfigMsg {
        burner: None,
        cookie_ratio: None,
        cookie_owner_reward: None,
        fee_collector: None,
        flambe_code_id: None,
        flambe_settings: None,
        owner: None,
        swap_fee: None,
    };
    assert_eq!(update_config(&mut config, &s("owner"), empty()), Err(ContractError::InvalidEmptyUpdate));
    assert_eq!(update_config(&mut config, &s("random"), empty()), Err(ContractError::Unauthorized));
    let mut bad = empty();
    bad.swap_fee = Some(Decimal18::one());
    assert_eq!(update_config(&mut config, &s("owner"), bad), Err(ContractError::InvalidConfig));
    assert_eq!(config.swap_fee, Decimal18::percent(1));
    let mut good = empty();
    good.burner = Some(s("new_burner"));
    good.fee_collector = Some(s("new_fee_collector"));
    update_config(&mut config, &s("owner"), good).unwrap();
    assert_eq!(config.burner, "new_burner");
    assert_eq!(config.fee_collector, "new_fee_collector");
    assert_eq!(config.validate(), Ok(()));
}

#[test]
fn test() {
    // Seven curves, some sharing a price or a liquidity, listed through both
    // value indexes and paged two at a time.
    let reg = seven();
    let liquidities: Vec<u128> = qy_flambes(&reg, Some(7), &FlambesFilter::ByLiquidity { start_after: None })
        .iter()
        .map(|r| r.last_liquidity)
        .collect();
    assert_eq!(liquidities, vec![400_000, 300_000, 300_000, 200_000, 200_000, 100_000, 100_000]);
    let prices: Vec<Decimal18> = qy_flambes(&reg, Some(7), &FlambesFilter::ByPrice { start_after: None })
        .iter()
        .map(|r| r.last_price)
        .collect();
    let p = Decimal18::permille;
    assert_eq!(prices, vec![p(300), p(300), p(200), p(200), p(200), p(100), p(100)]);

    let after_5 = qy_flambes(&reg, Some(2), &FlambesFilter::ByPrice { start_after: Some((p(200), s("flambe_5_denom"))) });
    assert_eq!(denoms(&after_5), vec![s("flambe_2_denom"), s("flambe_1_denom")]);
    let after_2 = qy_flambes(&reg, Some(2), &FlambesFilter::ByPrice { start_after: Some((p(100), s("flambe_2_denom"))) });
    assert_eq!(denoms(&after_2), vec![s("flambe_1_denom")]);

    let mut start_after = None;
    let mut data = vec![];
    loop {
        let page = qy_flambes(&reg, Some(2), &FlambesFilter::ByPrice { start_after: start_after.clone() });
        data.extend(page.iter().map(|r| (r.main_token.denom.clone(), r.last_price)));
        if page.len() == 2 {
            let last = page.last().unwrap();
            start_after = Some((last.last_price, last.main_token.denom.clone()));
        } else {
            break;
        }
    }
    assert_eq!(data.len(), 7);
    assert_eq!(data[0], (s("flambe_4_denom"), p(300)));
    assert_eq!(data[6], (s("flambe_1_denom"), p(100)));
}

//! The curve engine: one token's virtual-reserve constant-product curve, its
//! quotes and trades, the threshold check, and the migration of its reserves
//! to a liquidity pool.
use crate::math::{
    checked_mul_floor, e18, lemma_div_le, lemma_scale_le, lemma_scaled_fits, mul_ratio,
    wide_add, wide_from_u128, wide_full_mul, wide_max, wide_mul_ratio, wide_sub, wide_to_u128,
    Decimal18, Wide, DECIMAL_FRACTIONAL,
};
use crate::types::{
    only_one_coin, Action, Coin, ContractError, CurveCall, CurveInit, FactoryCall, FlambeSetting,
    FlambeStatus, TOKEN_DECIMALS,
};
use osmosis_std::types::osmosis::concentratedliquidity::poolmodel::concentrated::v1beta1::MsgCreateConcentratedPoolResponse;
use vstd::prelude::*;

verus! {

/// A curve's configuration, set when it is instantiated.
#[derive(Debug, PartialEq, Eq)]
pub struct Config {
    pub burner_addr: String,
    pub creator: String,
    pub factory: String,
    pub fee_collector: String,
    pub flambe_setting: FlambeSetting,
    pub main_denom: String,
    pub owner: String,
    pub status: FlambeStatus,
    pub swap_fee: Decimal18,
    pub virtual_reserve: u128,
}

/// The outcome of a quote: what the trader receives, the fee taken from the
/// offered coin, and the price impact as a ratio of the price after the trade
/// to the price before it (one is no impact).
#[derive(Debug, PartialEq, Eq)]
pub struct SwapResponse {
    pub return_amount: Coin,
    pub swap_fee: Coin,
    pub price_impact: Decimal18,
}

/// The fee on `amount`, rounded down.
pub open spec fn fee_of(amount: int, fee: Decimal18) -> int {
    mul_ratio(amount, fee.atomics as int, e18())
}

/// What a constant-product curve with reserves `ask` and `offer` pays for
/// `net` offered units: `ask - offer * ask / (offer + net)`, with the quotient
/// taken to 18 decimals and the result rounded down.
pub open spec fn curve_return(ask: int, offer: int, net: int) -> int {
    (ask * e18() - (offer * ask * e18()) / (offer + net)) / e18()
}

/// A ratio `num / den` to 18 decimals, when it exists and fits.
pub open spec fn ratio18(num: int, den: int) -> Option<int> {
    if den == 0 || mul_ratio(num, e18(), den) > u128::MAX {
        None
    } else {
        Some(mul_ratio(num, e18(), den))
    }
}

/// The price after a trade divided by the price before it, as one exact
/// ratio rounded down to 18 decimals. A buy prices the curve's token in the
/// paired asset, `offer / ask` before and `(offer + net) / (ask - ret)` after;
/// a sell prices the paired asset in the token, `ask / offer` before and
/// `(ask - ret) / (offer + net)` after.
pub open spec fn price_impact(is_buy: bool, ask: int, offer: int, net: int, ret: int) -> Option<int> {
    if is_buy {
        ratio18((offer + net) * ask, (ask - ret) * offer)
    } else {
        ratio18((ask - ret) * offer, (offer + net) * ask)
    }
}

/// The quote for `amount` offered against reserves `ask` and `offer`:
/// `(return, fee, price impact)`, or `None` when the arithmetic fails.
pub open spec fn quote(is_buy: bool, ask: int, offer: int, amount: int, fee: Decimal18) -> Option<(int, int, int)> {
    let fee_amount = fee_of(amount, fee);
    let net = amount - fee_amount;
    if net < 0 || offer + net == 0 {
        None
    } else {
        let ret = curve_return(ask, offer, net);
        match price_impact(is_buy, ask, offer, net, ret) {
            Some(i) => Some((ret, fee_amount, i)),
            None => None,
        }
    }
}

/// The reserves a trade sees, `(ask, offer)`: the balances held, with the
/// virtual reserve added to the paired side; for a real trade the offered
/// amount has already arrived and is taken back out of the offer side.
pub open spec fn pools(config: Config, is_buy: bool, amount: int, main_balance: int, pair_balance: int, is_simulation: bool) -> (int, int) {
    let pair_side = pair_balance + config.virtual_reserve;
    let ask = if is_buy { main_balance } else { pair_side };
    let offer_pool = if is_buy { pair_side } else { main_balance };
    (ask, if is_simulation { offer_pool } else { offer_pool - amount })
}

/// The result of `compute_swap`, over integers.
pub open spec fn swap_result(config: Config, offer_denom: Seq<char>, amount: int, main_balance: int, pair_balance: int, is_simulation: bool) -> Result<(int, int, int), ContractError> {
    if pair_balance + config.virtual_reserve > u128::MAX {
        Err(ContractError::Arithmetic)
    } else if offer_denom != config.main_denom@ && offer_denom != config.flambe_setting.pair_denom@ {
        Err(ContractError::InvalidDenom)
    } else {
        let is_buy = offer_denom != config.main_denom@;
        let (ask, offer) = pools(config, is_buy, amount, main_balance, pair_balance, is_simulation);
        if offer < 0 {
            Err(ContractError::Arithmetic)
        } else {
            match quote(is_buy, ask, offer, amount, config.swap_fee) {
                Some(q) => Ok(q),
                None => Err(ContractError::Arithmetic),
            }
        }
    }
}

/// `curve_return` computed in 256 bits; `None` exactly when both the offer
/// reserve and the net offer are zero.
fn curve_return_exec(ask: u128, offer: u128, net: u128) -> (r: Option<u128>)
    ensures
        offer + net == 0 ==> r is None,
        offer + net != 0 ==> r == Some(curve_return(ask as int, offer as int, net as int) as u128),
        offer + net != 0 ==> 0 <= curve_return(ask as int, offer as int, net as int) <= ask,
{
    let ghost a = ask as int;
    let ghost o = offer as int;
    let ghost n = net as int;
    let e18w = wide_from_u128(DECIMAL_FRACTIONAL);
    let one = wide_from_u128(1);
    let product = wide_full_mul(offer, ask);
    let ow = wide_from_u128(offer);
    let nw = wide_from_u128(net);
    proof {
        assert(o + n <= wide_max()) by (nonlinear_arith)
            requires
                0 <= o <= u128::MAX,
                0 <= n <= u128::MAX,
                wide_max() == (u128::MAX as int + 1) * (u128::MAX as int + 1) - 1,
        ;
    }
    let den = wide_add(&ow, &nw).unwrap();
    let aw = wide_from_u128(ask);
    proof {
        lemma_scaled_fits(a);
        assert(mul_ratio(a, e18(), 1) == a * e18());
    }
    let scaled_ask = wide_mul_ratio(&aw, &e18w, &one).unwrap();
    let q = match wide_mul_ratio(&product, &e18w, &den) {
        Some(q) => q,
        None => {
            proof {
                if o + n != 0 {
                    lemma_scale_le(o, o + n, a * e18());
                    assert(o * a * e18() == o * (a * e18())) by (nonlinear_arith);
                }
            }
            return None;
        },
    };
    proof {
        lemma_scale_le(o, o + n, a * e18());
        assert(o * a * e18() == o * (a * e18())) by (nonlinear_arith);
    }
    let diff = wide_sub(&scaled_ask, &q).unwrap();
    proof {
        lemma_div_le(diff.value() as int, e18());
        assert(mul_ratio(1, diff.value() as int, e18()) == (diff.value() as int) / e18());
        assert((diff.value() as int) / e18() <= a) by {
            vstd::arithmetic::div_mod::lemma_div_is_ordered(diff.value() as int, a * e18(), e18());
            vstd::arithmetic::div_mod::lemma_div_multiples_vanish(a, e18());
            assert(a * e18() == e18() * a) by (nonlinear_arith);
        }
    }
    let ret = wide_mul_ratio(&one, &diff, &e18w).unwrap();
    wide_to_u128(&ret)
}

/// The price impact of a trade, as `price_impact` states it, computed from
/// exact 256-bit products.
fn price_impact_exec(is_buy: bool, ask: u128, offer: u128, net: u128, ret: u128) -> (r: Option<u128>)
    requires
        ret <= ask,
        offer + net > 0,
    ensures
        r == (match price_impact(is_buy, ask as int, offer as int, net as int, ret as int) {
            Some(v) => Some(v as u128),
            None => None::<u128>,
        }),
{
    let ghost a = ask as int;
    let ghost o = offer as int;
    let ghost n = net as int;
    let ghost rest = (ask - ret) as int;
    let e18w = wide_from_u128(DECIMAL_FRACTIONAL);
    let one = wide_from_u128(1);
    let askw = wide_from_u128(ask);
    proof {
        assert(o + n <= wide_max()) by (nonlinear_arith)
            requires
                0 <= o <= u128::MAX,
                0 <= n <= u128::MAX,
                wide_max() == (u128::MAX as int + 1) * (u128::MAX as int + 1) - 1,
        ;
    }
    let sumw = wide_add(&wide_from_u128(offer), &wide_from_u128(net)).unwrap();
    let rested = wide_full_mul(ask - ret, offer);
    let v = if is_buy {
        proof {
            lemma_scaled_fits(o + n);
            assert(mul_ratio(o + n, e18(), 1) == (o + n) * e18());
        }
        let scaled = wide_mul_ratio(&sumw, &e18w, &one).unwrap();
        proof {
            assert((o + n) * e18() * a == (o + n) * a * e18()) by (nonlinear_arith);
        }
        match wide_mul_ratio(&scaled, &askw, &rested) {
            Some(w) => w,
            None => {
                proof {
                    if rest * o != 0 {
                        assert(wide_max() > u128::MAX) by (nonlinear_arith)
                            requires
                                wide_max() == (u128::MAX as int + 1) * (u128::MAX as int + 1) - 1,
                        ;
                    }
                }
                return None;
            },
        }
    } else {
        proof {
            lemma_scaled_fits(rest);
            assert(rest * o * e18() == o * (rest * e18())) by (nonlinear_arith);
            lemma_scale_le(o, o + n, rest * e18());
        }
        let step = wide_mul_ratio(&rested, &e18w, &sumw).unwrap();
        if ask == 0 {
            proof {
                assert((o + n) * a == 0);
            }
            return None;
        }
        proof {
            lemma_div_le(step.value() as int, a);
            assert(rest * o * e18() >= 0) by (nonlinear_arith)
                requires
                    rest >= 0,
                    o >= 0,
            ;
            vstd::arithmetic::div_mod::lemma_div_denominator(rest * o * e18(), o + n, a);
            assert(mul_ratio(step.value() as int, 1, a) == (step.value() as int) / a);
        }
        wide_mul_ratio(&step, &one, &askw).unwrap()
    };
    wide_to_u128(&v)
}

/// Quotes a trade of `offer` against the curve's reserves. `main_balance` and
/// `pair_balance` are what the curve holds; the virtual reserve is added to
/// the paired side. For a real trade (`is_simulation` false) the offered coin
/// has already arrived, so its amount is taken back out of the offer side
/// first; a simulation quotes against the balances as they are.
pub fn compute_swap(config: &Config, offer: &Coin, main_balance: u128, pair_balance: u128, is_simulation: bool) -> (r: Result<SwapResponse, ContractError>)
    ensures
        match swap_result(*config, offer.denom@, offer.amount as int, main_balance as int, pair_balance as int, is_simulation) {
            Ok((ret, fee, impact)) => r matches Ok(resp) && {
                let is_buy = offer.denom@ != config.main_denom@;
                &&& resp.return_amount.amount == ret
                &&& resp.swap_fee.amount == fee
                &&& resp.price_impact.atomics == impact
                &&& resp.return_amount.denom == if is_buy { config.main_denom } else { config.flambe_setting.pair_denom }
                &&& resp.swap_fee.denom == if is_buy { config.flambe_setting.pair_denom } else { config.main_denom }
            },
            Err(e) => r == Err::<SwapResponse, ContractError>(e),
        },
{
    let pair_side = match pair_balance.checked_add(config.virtual_reserve) {
        Some(v) => v,
        None => return Err(ContractError::Arithmetic),
    };
    let is_buy = if offer.denom == config.main_denom {
        false
    } else if offer.denom == config.flambe_setting.pair_denom {
        true
    } else {
        return Err(ContractError::InvalidDenom);
    };
    let ask = if is_buy { main_balance } else { pair_side };
    let offer_pool = if is_buy { pair_side } else { main_balance };
    let offer_qta = if is_simulation {
        offer_pool
    } else {
        match offer_pool.checked_sub(offer.amount) {
            Some(v) => v,
            None => return Err(ContractError::Arithmetic),
        }
    };
    let fee_amount = match checked_mul_floor(offer.amount, config.swap_fee) {
        Some(v) => v,
        None => return Err(ContractError::Arithmetic),
    };
    if fee_amount > offer.amount {
        return Err(ContractError::Arithmetic);
    }
    let net = offer.amount - fee_amount;
    let ret = match curve_return_exec(ask, offer_qta, net) {
        Some(v) => v,
        None => return Err(ContractError::Arithmetic),
    };
    let impact = match price_impact_exec(is_buy, ask, offer_qta, net, ret) {
        Some(v) => v,
        None => return Err(ContractError::Arithmetic),
    };
    let (ask_denom, offer_denom) = if is_buy {
        (config.main_denom.clone(), config.flambe_setting.pair_denom.clone())
    } else {
        (config.flambe_setting.pair_denom.clone(), config.main_denom.clone())
    };
    Ok(SwapResponse {
        return_amount: Coin { denom: ask_denom, amount: ret },
        swap_fee: Coin { denom: offer_denom, amount: fee_amount },
        price_impact: Decimal18::raw(impact),
    })
}

/// A bank transfer of a copy of `coin` to `to`.
pub open spec fn send_spec(to: String, coin: Coin) -> Action {
    Action::BankSend { to, coin: Coin { denom: coin.denom, amount: coin.amount } }
}

fn send(to: &String, coin: &Coin) -> (r: Action)
    ensures
        r == send_spec(*to, *coin),
{
    Action::BankSend { to: to.clone(), coin: Coin { denom: coin.denom.clone(), amount: coin.amount } }
}

/// A call on the factory that carries no funds.
pub open spec fn factory_call(factory: String, msg: FactoryCall) -> Action {
    Action::ExecuteFactory { contract: factory, msg, funds: None }
}

/// A call a curve makes on itself.
pub open spec fn self_call(contract: String, msg: CurveCall) -> Action {
    Action::ExecuteCurve { contract, msg, funds: None }
}

/// What a trade dispatches: the fee to the fee collector (only when it is not
/// zero), the proceeds to the trader, a liquidity refresh on the factory, and
/// the threshold check on the curve itself.
pub open spec fn swap_messages(config: Config, contract: String, user: String, output: Coin, fee: Coin) -> Seq<Action> {
    let head = if fee.amount > 0 {
        seq![send_spec(config.fee_collector, fee)]
    } else {
        Seq::<Action>::empty()
    };
    head + seq![
        send_spec(user, output),
        factory_call(config.factory, FactoryCall::UpdateFlambeLiquidity),
        self_call(contract, CurveCall::CheckToPending),
    ]
}

/// A completed trade: the messages to dispatch and what was exchanged.
#[derive(Debug, PartialEq, Eq)]
pub struct SwapOutcome {
    pub messages: Vec<Action>,
    pub input: Coin,
    pub output: Coin,
    pub fee: Coin,
    pub user: String,
}

/// Executes a trade routed by the factory. `funds` is what came with the
/// call; the balances are the curve's own, read after the funds arrived.
pub fn swap(
    config: &Config,
    contract: &String,
    sender: &String,
    funds: Vec<Coin>,
    user: String,
    min_amount_out: u128,
    main_balance: u128,
    pair_balance: u128,
) -> (r: Result<SwapOutcome, ContractError>)
    ensures
        sender@ != config.factory@ ==> r == Err::<SwapOutcome, ContractError>(ContractError::Unauthorized),
        sender@ == config.factory@ && config.status != FlambeStatus::OPEN ==> r == Err::<SwapOutcome, ContractError>(ContractError::PumpClosed),
        sender@ == config.factory@ && config.status == FlambeStatus::OPEN && funds.len() != 1 ==> r == Err::<SwapOutcome, ContractError>(ContractError::InvalidFunds),
        sender@ == config.factory@ && config.status == FlambeStatus::OPEN && funds.len() == 1 ==> match swap_result(*config, funds[0].denom@, funds[0].amount as int, main_balance as int, pair_balance as int, false) {
            Err(e) => r == Err::<SwapOutcome, ContractError>(e),
            Ok((ret, fee, _)) => if ret < min_amount_out {
                r == Err::<SwapOutcome, ContractError>(ContractError::SlippageError)
            } else {
                r matches Ok(o) && {
                    &&& o.input == funds[0]
                    &&& o.output.amount == ret
                    &&& o.fee.amount == fee
                    &&& o.output.denom == if funds[0].denom@ != config.main_denom@ { config.main_denom } else { config.flambe_setting.pair_denom }
                    &&& o.fee.denom == if funds[0].denom@ != config.main_denom@ { config.flambe_setting.pair_denom } else { config.main_denom }
                    &&& o.user == user
                    &&& o.messages@ == swap_messages(*config, *contract, user, o.output, o.fee)
                }
            },
        },
{
    if *sender != config.factory {
        return Err(ContractError::Unauthorized);
    }
    if config.status != FlambeStatus::OPEN {
        return Err(ContractError::PumpClosed);
    }
    let offer = only_one_coin(funds, None)?;
    let resp = compute_swap(config, &offer, main_balance, pair_balance, false)?;
    if resp.return_amount.amount < min_amount_out {
        return Err(ContractError::SlippageError);
    }
    let mut messages: Vec<Action> = Vec::new();
    if resp.swap_fee.amount > 0 {
        messages.push(send(&config.fee_collector, &resp.swap_fee));
    }
    messages.push(send(&user, &resp.return_amount));
    messages.push(Action::ExecuteFactory { contract: config.factory.clone(), msg: FactoryCall::UpdateFlambeLiquidity, funds: None });
    messages.push(Action::ExecuteCurve { contract: contract.clone(), msg: CurveCall::CheckToPending, funds: None });
    proof {
        assert(messages@ =~= swap_messages(*config, *contract, user, resp.return_amount, resp.swap_fee));
    }
    Ok(SwapOutcome { messages, input: offer, output: resp.return_amount, fee: resp.swap_fee, user })
}

/// The configuration with a new status and nothing else changed.
pub open spec fn with_status(config: Config, status: FlambeStatus) -> Config {
    Config { status, ..config }
}

/// The configuration after the threshold check: an open curve whose paired
/// balance has reached the threshold becomes pending.
pub open spec fn threshold_step(config: Config, pair_balance: int) -> Config {
    if config.status == FlambeStatus::OPEN && pair_balance >= config.flambe_setting.threshold {
        with_status(config, FlambeStatus::PENDING)
    } else {
        config
    }
}

/// The threshold check a curve runs on itself after every trade: an open
/// curve whose paired balance has reached the threshold becomes pending and
/// tells the factory; otherwise nothing changes.
pub fn check_to_pending(config: &mut Config, contract: &String, sender: &String, pair_balance: u128) -> (r: Result<Vec<Action>, ContractError>)
    ensures
        sender@ != contract@ ==> r == Err::<Vec<Action>, ContractError>(ContractError::Unauthorized) && *final(config) == *old(config),
        sender@ == contract@ ==> r is Ok && *final(config) == threshold_step(*old(config), pair_balance as int),
        sender@ == contract@ && old(config).status == FlambeStatus::OPEN && pair_balance >= old(config).flambe_setting.threshold ==> {
            &&& *final(config) == with_status(*old(config), FlambeStatus::PENDING)
            &&& r matches Ok(m) && m@ == seq![factory_call(old(config).factory, FactoryCall::UpdateFlambeStatus { status: FlambeStatus::PENDING })]
        },
        sender@ == contract@ && !(old(config).status == FlambeStatus::OPEN && pair_balance >= old(config).flambe_setting.threshold) ==> {
            &&& *final(config) == *old(config)
            &&& r matches Ok(m) && m@.len() == 0
        },
{
    if *sender != *contract {
        return Err(ContractError::Unauthorized);
    }
    let mut messages: Vec<Action> = Vec::new();
    if config.status == FlambeStatus::OPEN && pair_balance >= config.flambe_setting.threshold {
        config.status = FlambeStatus::PENDING;
        messages.push(Action::ExecuteFactory {
            contract: config.factory.clone(),
            msg: FactoryCall::UpdateFlambeStatus { status: FlambeStatus::PENDING },
            funds: None,
        });
        proof {
            assert(messages@ =~= seq![factory_call(old(config).factory, FactoryCall::UpdateFlambeStatus { status: FlambeStatus::PENDING })]);
        }
    }
    Ok(messages)
}

/// The amount of the curve's token that matches `pair` at the curve's price
/// `(pair + virtual reserve) / main`, so that a pool seeded with both opens
/// where the curve closed. `None` when the arithmetic fails.
pub open spec fn deploy_amount(virtual_reserve: int, main: int, pair: int) -> Option<int> {
    if pair + virtual_reserve == 0 {
        None
    } else {
        Some((pair * main) / (pair + virtual_reserve))
    }
}

/// The split of the curve's tokens at migration, `(deploy, burn)`: `deploy`
/// as `deploy_amount` gives it and `burn` the rest of `main`.
pub open spec fn migration_split(virtual_reserve: int, main: int, pair: int) -> Option<(int, int)> {
    match deploy_amount(virtual_reserve, main, pair) {
        Some(deploy) => if deploy > main {
            None
        } else {
            Some((deploy, main - deploy))
        },
        None => None,
    }
}

/// `deploy_amount` computed exactly in 256 bits; it never exceeds `main`.
fn deploy_amount_exec(virtual_reserve: u128, main: u128, pair: u128) -> (r: Option<u128>)
    ensures
        r == (match deploy_amount(virtual_reserve as int, main as int, pair as int) {
            Some(d) => Some(d as u128),
            None => None::<u128>,
        }),
        r matches Some(d) ==> d <= main,
        deploy_amount(virtual_reserve as int, main as int, pair as int) matches Some(d) ==> 0 <= d <= main,
{
    proof {
        if pair + virtual_reserve != 0 {
            lemma_scale_le(pair as int, pair + virtual_reserve, main as int);
        }
        assert(pair + virtual_reserve <= wide_max()) by (nonlinear_arith)
            requires
                0 <= pair <= u128::MAX,
                0 <= virtual_reserve <= u128::MAX,
                wide_max() == (u128::MAX as int + 1) * (u128::MAX as int + 1) - 1,
        ;
    }
    let total = wide_add(&wide_from_u128(pair), &wide_from_u128(virtual_reserve)).unwrap();
    if pair == 0 && virtual_reserve == 0 {
        return None;
    }
    proof {
        lemma_scale_le(pair as int, pair + virtual_reserve, main as int);
        assert(pair * main == (pair as int) * (main as int));
    }
    let d = wide_mul_ratio(&wide_from_u128(pair), &wide_from_u128(main), &total).unwrap();
    wide_to_u128(&d)
}

/// `migration_split` computed.
fn migration_split_exec(virtual_reserve: u128, main: u128, pair: u128) -> (r: Option<(u128, u128)>)
    ensures
        r == (match migration_split(virtual_reserve as int, main as int, pair as int) {
            Some((d, b)) => Some((d as u128, b as u128)),
            None => None::<(u128, u128)>,
        }),
{
    let deploy = match deploy_amount_exec(virtual_reserve, main, pair) {
        Some(d) => d,
        None => return None,
    };
    if deploy > main {
        return None;
    }
    Some((deploy, main - deploy))
}

/// What the migration dispatches: one unit of the token to the factory so it
/// registers the denomination with the pool factory, the pool creation seeded
/// with both reserves and tagged to resume on its reply, the excess supply to the burn address (only when there
/// is some), the burn of the pool's liquidity tokens, and the factory's status
/// update.
pub open spec fn deploy_messages(config: Config, contract: String, pool_factory: String, deploy: int, burn: int, pair: int) -> Seq<Action> {
    let burn_msg = if burn > 0 {
        seq![send_spec(config.burner_addr, Coin { denom: config.main_denom, amount: burn as u128 })]
    } else {
        Seq::<Action>::empty()
    };
    seq![
        Action::ExecuteFactory {
            contract: config.factory,
            msg: FactoryCall::RegisterDenomOnDojo,
            funds: Some(Coin { denom: config.main_denom, amount: 1 }),
        },
        Action::CreatePair {
            pool_factory,
            main: Coin { denom: config.main_denom, amount: deploy as u128 },
            pair: Coin { denom: config.flambe_setting.pair_denom, amount: pair as u128 },
            reply_id: 1,
        },
    ] + burn_msg + seq![
        self_call(contract, CurveCall::PrivateBurnLps),
        factory_call(config.factory, FactoryCall::UpdateFlambeStatus { status: FlambeStatus::CLOSED }),
    ]
}

/// Ends a pending curve, on the factory's command: the curve closes for good
/// and its reserves move to a new pool. The registration of the token's
/// decimals with the pool factory costs one unit of the token, sent along with
/// it; the rest of the token balance is split by `migration_split`, so that
/// what goes to the pool, what is burned and that unit add up to the whole
/// balance.
/// `pool_factory` is the pool factory the factory is configured with. On an
/// error nothing changes.
pub fn deploy(
    config: &mut Config,
    contract: &String,
    sender: &String,
    main_balance: u128,
    pair_balance: u128,
    pool_factory: &String,
) -> (r: Result<Vec<Action>, ContractError>)
    ensures
        r is Err ==> *final(config) == *old(config),
        r is Ok ==> (migration_split(old(config).virtual_reserve as int, main_balance - 1, pair_balance as int) matches Some((d, b))
            && d == (pair_balance * (main_balance - 1)) / (pair_balance + old(config).virtual_reserve)
            && d + b + 1 == main_balance),
        sender@ != old(config).factory@ ==> r == Err::<Vec<Action>, ContractError>(ContractError::Unauthorized),
        sender@ == old(config).factory@ && old(config).status != FlambeStatus::PENDING ==> r == Err::<Vec<Action>, ContractError>(ContractError::NotPending),
        sender@ == old(config).factory@ && old(config).status == FlambeStatus::PENDING ==> {
            if main_balance == 0 {
                r == Err::<Vec<Action>, ContractError>(ContractError::Arithmetic)
            } else {
                match migration_split(old(config).virtual_reserve as int, main_balance - 1, pair_balance as int) {
                    None => r == Err::<Vec<Action>, ContractError>(ContractError::Arithmetic),
                    Some((d, b)) => {
                        &&& *final(config) == with_status(*old(config), FlambeStatus::CLOSED)
                        &&& r matches Ok(m) && m@ == deploy_messages(*old(config), *contract, *pool_factory, d, b, pair_balance as int)
                    },
                }
            }
        },
{
    if *sender != config.factory {
        return Err(ContractError::Unauthorized);
    }
    if config.status != FlambeStatus::PENDING {
        return Err(ContractError::NotPending);
    }
    if main_balance == 0 {
        return Err(ContractError::Arithmetic);
    }
    let main = main_balance - 1;
    let (deploy_amount, burn_amount) = match migration_split_exec(config.virtual_reserve, main, pair_balance) {
        Some(split) => split,
        None => return Err(ContractError::Arithmetic),
    };
    config.status = FlambeStatus::CLOSED;
    let mut messages: Vec<Action> = Vec::new();
    messages.push(Action::ExecuteFactory {
        contract: config.factory.clone(),
        msg: FactoryCall::RegisterDenomOnDojo,
        funds: Some(Coin { denom: config.main_denom.clone(), amount: 1 }),
    });
    messages.push(Action::CreatePair {
        pool_factory: pool_factory.clone(),
        main: Coin { denom: config.main_denom.clone(), amount: deploy_amount },
        pair: Coin { denom: config.flambe_setting.pair_denom.clone(), amount: pair_balance },
        reply_id: ReplyIds::PoolCreation.repr(),
    });
    if burn_amount > 0 {
        messages.push(Action::BankSend {
            to: config.burner_addr.clone(),
            coin: Coin { denom: config.main_denom.clone(), amount: burn_amount },
        });
    }
    messages.push(Action::ExecuteCurve { contract: contract.clone(), msg: CurveCall::PrivateBurnLps, funds: None });
    messages.push(Action::ExecuteFactory {
        contract: config.factory.clone(),
        msg: FactoryCall::UpdateFlambeStatus { status: FlambeStatus::CLOSED },
        funds: None,
    });
    proof {
        assert(messages@ =~= deploy_messages(*old(config), *contract, *pool_factory, deploy_amount as int, burn_amount as int, pair_balance as int));
    }
    Ok(messages)
}

/// Sends the liquidity tokens the curve holds after its migration to the burn
/// address. Only the curve itself may call it; `lp_balance` is its balance of
/// the pool's liquidity token.
pub fn burn_lps(config: &Config, contract: &String, sender: &String, lp_balance: Coin) -> (r: Result<Vec<Action>, ContractError>)
    ensures
        sender@ != contract@ ==> r == Err::<Vec<Action>, ContractError>(ContractError::Unauthorized),
        sender@ == contract@ ==> (r matches Ok(m) && m@ == seq![send_spec(config.burner_addr, lp_balance)]),
{
    if *sender != *contract {
        return Err(ContractError::Unauthorized);
    }
    let mut messages: Vec<Action> = Vec::new();
    messages.push(send(&config.burner_addr, &lp_balance));
    proof {
        assert(messages@ =~= seq![send_spec(config.burner_addr, lp_balance)]);
    }
    Ok(messages)
}

/// The steps of the migration that wait for an external reply, by the id the
/// reply comes back with.
#[derive(Clone, Copy, Debug, PartialEq, Eq, Structural)]
pub enum ReplyIds {
    PoolCreation,
    PositionCreation,
}

pub open spec fn reply_id_of(id: ReplyIds) -> u64 {
    match id {
        ReplyIds::PoolCreation => 1,
        ReplyIds::PositionCreation => 2,
    }
}

impl ReplyIds {
    pub fn repr(&self) -> (r: u64)
        ensures
            r == reply_id_of(*self),
    {
        match self {
            ReplyIds::PoolCreation => 1,
            ReplyIds::PositionCreation => 2,
        }
    }

    pub fn from_repr(id: u64) -> (r: Option<ReplyIds>)
        ensures
            r matches Some(s) ==> reply_id_of(s) == id,
            r is None <==> id != 1 && id != 2,
    {
        if id == 1 {
            Some(ReplyIds::PoolCreation)
        } else if id == 2 {
            Some(ReplyIds::PositionCreation)
        } else {
            None
        }
    }
}

/// The outcome of an external call, as its reply delivers it.
#[derive(Debug, PartialEq, Eq)]
pub enum SubMsgResult {
    Success { data: Option<Vec<u8>> },
    Failure { message: String },
}

/// The pool id that a pool-creation reply's bytes encode, if they encode one.
pub uninterp spec fn created_pool_id(data: Seq<u8>) -> Option<u64>;

/// Relies on prost's `Message::decode` for osmosis' generated
/// `MsgCreateConcentratedPoolResponse`: the `pool_id` field of the decoded
/// message, or an error when the bytes are not such a message. The result
/// depends on the bytes alone.
#[verifier::external_body]
fn decode_pool_id(data: &Vec<u8>) -> (r: Option<u64>)
    ensures
        r == created_pool_id(data@),
{
    match <MsgCreateConcentratedPoolResponse as prost::Message>::decode(data.as_slice()) {
        Ok(m) => Some(m.pool_id),
        Err(_) => None,
    }
}

/// A list of messages or an error, as a sequence.
pub open spec fn messages_view(r: Result<Vec<Action>, ContractError>) -> Result<Seq<Action>, ContractError> {
    match r {
        Ok(m) => Ok(m@),
        Err(e) => Err(e),
    }
}

/// What opening the position in pool `pool_id` dispatches: the position,
/// seeded with the paired balance and the matching amount of the token, and
/// the factory's status update.
pub open spec fn open_position_result(config: Config, contract: String, pool_id: u64, main_balance: int, pair_balance: int) -> Result<Seq<Action>, ContractError> {
    match deploy_amount(config.virtual_reserve as int, main_balance, pair_balance) {
        None => Err(ContractError::Arithmetic),
        Some(d) => if d > main_balance {
            Err(ContractError::Arithmetic)
        } else {
            Ok(seq![
            Action::CreatePosition {
                pool_id,
                sender: contract,
                lower_tick: config.flambe_setting.pool_creation_info.lower_tick,
                upper_tick: config.flambe_setting.pool_creation_info.upper_tick,
                main: Coin { denom: config.main_denom, amount: d as u128 },
                pair: Coin { denom: config.flambe_setting.pair_denom, amount: pair_balance as u128 },
                reply_id: 2,
            },
            factory_call(config.factory, FactoryCall::UpdateFlambeStatus { status: FlambeStatus::CLOSED }),
        ])
        },
    }
}

/// Opens a funded position in the pool `pool_id` that the migration created,
/// at the configured tick range.
pub fn open_position(config: &Config, contract: &String, pool_id: u64, main_balance: u128, pair_balance: u128) -> (r: Result<Vec<Action>, ContractError>)
    ensures
        messages_view(r) == open_position_result(*config, *contract, pool_id, main_balance as int, pair_balance as int),
        r is Ok ==> (deploy_amount(config.virtual_reserve as int, main_balance as int, pair_balance as int) matches Some(d) && d <= main_balance),
{
    let deploy = match deploy_amount_exec(config.virtual_reserve, main_balance, pair_balance) {
        Some(d) => d,
        None => return Err(ContractError::Arithmetic),
    };
    if deploy > main_balance {
        return Err(ContractError::Arithmetic);
    }
    let mut messages: Vec<Action> = Vec::new();
    messages.push(Action::CreatePosition {
        pool_id,
        sender: contract.clone(),
        lower_tick: config.flambe_setting.pool_creation_info.lower_tick,
        upper_tick: config.flambe_setting.pool_creation_info.upper_tick,
        main: Coin { denom: config.main_denom.clone(), amount: deploy },
        pair: Coin { denom: config.flambe_setting.pair_denom.clone(), amount: pair_balance },
        reply_id: ReplyIds::PositionCreation.repr(),
    });
    messages.push(Action::ExecuteFactory {
        contract: config.factory.clone(),
        msg: FactoryCall::UpdateFlambeStatus { status: FlambeStatus::CLOSED },
        funds: None,
    });
    proof {
        assert(messages@ =~= open_position_result(*config, *contract, pool_id, main_balance as int, pair_balance as int)->Ok_0);
    }
    Ok(messages)
}

/// Whether a reply reports success with a non-empty payload.
pub open spec fn has_payload(result: SubMsgResult) -> bool {
    result matches SubMsgResult::Success { data: Some(d) } && d@.len() > 0
}

/// The result of the pool-creation reply.
pub open spec fn pool_reply_result(config: Config, contract: String, result: SubMsgResult, main_balance: int, pair_balance: int) -> Result<Seq<Action>, ContractError> {
    if !has_payload(result) {
        Err(ContractError::ReplyError)
    } else {
        match result {
        SubMsgResult::Success { data: Some(d) } => match created_pool_id(d@) {
            Some(id) => open_position_result(config, contract, id, main_balance, pair_balance),
            None => Err(ContractError::ReplyError),
        },
        _ => Err(ContractError::ReplyError),
        }
    }
}

/// The result of the position-creation reply: like the pool's, a failed call
/// or a reply without a payload is fatal.
pub open spec fn position_reply_result(config: Config, result: SubMsgResult, main_balance: u128) -> Result<Seq<Action>, ContractError> {
    if !has_payload(result) {
        Err(ContractError::ReplyError)
    } else {
        Ok(if main_balance > 0 {
            seq![send_spec(config.burner_addr, Coin { denom: config.main_denom, amount: main_balance })]
        } else {
            Seq::<Action>::empty()
        })
    }
}

/// Resumes the migration once the pool exists: a failed call, a reply
/// without a payload or one without a readable pool id is fatal; otherwise the position is opened.
pub fn reply_pool_creation(config: &Config, contract: &String, result: SubMsgResult, main_balance: u128, pair_balance: u128) -> (r: Result<Vec<Action>, ContractError>)
    ensures
        messages_view(r) == pool_reply_result(*config, *contract, result, main_balance as int, pair_balance as int),
{
    let data = match result {
        SubMsgResult::Success { data: Some(d) } => d,
        _ => return Err(ContractError::ReplyError),
    };
    if data.len() == 0 {
        return Err(ContractError::ReplyError);
    }
    let pool_id = match decode_pool_id(&data) {
        Some(id) => id,
        None => return Err(ContractError::ReplyError),
    };
    open_position(config, contract, pool_id, main_balance, pair_balance)
}

/// The last step of the migration: whatever is left of the token goes to the
/// burn address.
pub fn reply_position_creation(config: &Config, result: SubMsgResult, main_balance: u128) -> (r: Result<Vec<Action>, ContractError>)
    ensures
        messages_view(r) == position_reply_result(*config, result, main_balance),
{
    let empty = match &result {
        SubMsgResult::Success { data: Some(d) } => d.len() == 0,
        _ => true,
    };
    if empty {
        return Err(ContractError::ReplyError);
    }
    let mut messages: Vec<Action> = Vec::new();
    if main_balance > 0 {
        messages.push(Action::BankSend {
            to: config.burner_addr.clone(),
            coin: Coin { denom: config.main_denom.clone(), amount: main_balance },
        });
    }
    proof {
        if main_balance > 0 {
            assert(messages@ =~= seq![send_spec(config.burner_addr, Coin { denom: config.main_denom, amount: main_balance })]);
        } else {
            assert(messages@ =~= Seq::<Action>::empty());
        }
    }
    Ok(messages)
}

/// Routes a reply to the step of the migration it resumes.
pub fn reply(config: &Config, contract: &String, id: u64, result: SubMsgResult, main_balance: u128, pair_balance: u128) -> (r: Result<Vec<Action>, ContractError>)
    ensures
        messages_view(r) == if id == 1 {
            pool_reply_result(*config, *contract, result, main_balance as int, pair_balance as int)
        } else if id == 2 {
            position_reply_result(*config, result, main_balance)
        } else {
            Err(ContractError::InvalidReplyId(id))
        },
{
    match ReplyIds::from_repr(id) {
        Some(ReplyIds::PoolCreation) => reply_pool_creation(config, contract, result, main_balance, pair_balance),
        Some(ReplyIds::PositionCreation) => reply_position_creation(config, result, main_balance),
        None => Err(ContractError::InvalidReplyId(id)),
    }
}

/// `10^n`.
pub open spec fn pow10(n: nat) -> int
    decreases n,
{
    if n == 0 {
        1
    } else {
        10 * pow10((n - 1) as nat)
    }
}

proof fn lemma_pow10_grows(i: nat, j: nat)
    requires
        i <= j,
    ensures
        1 <= pow10(i) <= pow10(j),
    decreases j,
{
    if j > 0 {
        if i < j {
            lemma_pow10_grows(i, (j - 1) as nat);
        } else {
            lemma_pow10_grows(0, (j - 1) as nat);
        }
    }
}

/// `10^n`, when it fits in 128 bits.
fn checked_pow10(n: u8) -> (r: Option<u128>)
    ensures
        r is Some <==> pow10(n as nat) <= u128::MAX,
        r matches Some(v) ==> v == pow10(n as nat),
{
    let mut acc: u128 = 1;
    let mut i: u8 = 0;
    while i < n
        invariant
            i <= n,
            acc == pow10(i as nat),
        decreases n - i,
    {
        proof {
            lemma_pow10_grows(i as nat + 1, n as nat);
        }
        acc = match acc.checked_mul(10) {
            Some(v) => v,
            None => return None,
        };
        i = i + 1;
    }
    Some(acc)
}

/// The virtual reserve of a curve started with `supply` tokens at
/// `initial_price`: their value in the paired asset, scaled from the token's
/// decimals to the paired asset's.
pub open spec fn virtual_reserve_of(supply: int, initial_price: Decimal18, pair_decimals: u8) -> int {
    mul_ratio(supply, initial_price.atomics as int, e18()) * pow10((pair_decimals - TOKEN_DECIMALS) as nat)
}

/// The configuration a curve starts with.
pub open spec fn initial_config(init: CurveInit, main_denom: String, virtual_reserve: int) -> Config {
    Config {
        burner_addr: init.burner_addr,
        creator: init.creator,
        factory: init.factory,
        fee_collector: init.fee_collector,
        flambe_setting: init.flambe_setting,
        main_denom,
        owner: init.owner,
        status: FlambeStatus::OPEN,
        swap_fee: init.swap_fee,
        virtual_reserve: virtual_reserve as u128,
    }
}

/// Starts a curve from the whole supply of its token, which must come as the
/// only coin of `funds`. The swap fee must be below one and the paired asset
/// must have at least the token's decimals.
pub fn instantiate(init: CurveInit, funds: Vec<Coin>) -> (r: Result<Config, ContractError>)
    ensures
        funds.len() != 1 ==> r == Err::<Config, ContractError>(ContractError::InvalidFunds),
        funds.len() == 1 && init.swap_fee.atomics >= e18() ==> r == Err::<Config, ContractError>(ContractError::InvalidFee),
        funds.len() == 1 && init.swap_fee.atomics < e18() && init.flambe_setting.pair_decimals < TOKEN_DECIMALS ==> r == Err::<Config, ContractError>(ContractError::InvalidConfig),
        funds.len() == 1 && init.swap_fee.atomics < e18() && init.flambe_setting.pair_decimals >= TOKEN_DECIMALS ==> {
            let reserve = virtual_reserve_of(funds[0].amount as int, init.flambe_setting.initial_price, init.flambe_setting.pair_decimals);
            let scale = pow10((init.flambe_setting.pair_decimals - TOKEN_DECIMALS) as nat);
            if mul_ratio(funds[0].amount as int, init.flambe_setting.initial_price.atomics as int, e18()) > u128::MAX
                || scale > u128::MAX || reserve > u128::MAX {
                r == Err::<Config, ContractError>(ContractError::Arithmetic)
            } else {
                r == Ok::<Config, ContractError>(initial_config(init, funds[0].denom, reserve))
            }
        },
{
    let coin = only_one_coin(funds, None)?;
    if init.swap_fee.atomics >= DECIMAL_FRACTIONAL {
        return Err(ContractError::InvalidFee);
    }
    if init.flambe_setting.pair_decimals < TOKEN_DECIMALS {
        return Err(ContractError::InvalidConfig);
    }
    let value = match checked_mul_floor(coin.amount, init.flambe_setting.initial_price) {
        Some(v) => v,
        None => return Err(ContractError::Arithmetic),
    };
    let scale = match checked_pow10(init.flambe_setting.pair_decimals - TOKEN_DECIMALS) {
        Some(v) => v,
        None => return Err(ContractError::Arithmetic),
    };
    let virtual_reserve = match value.checked_mul(scale) {
        Some(v) => v,
        None => return Err(ContractError::Arithmetic),
    };
    Ok(Config {
        burner_addr: init.burner_addr,
        creator: init.creator,
        factory: init.factory,
        fee_collector: init.fee_collector,
        flambe_setting: init.flambe_setting,
        main_denom: coin.denom,
        owner: init.owner,
        status: FlambeStatus::OPEN,
        swap_fee: init.swap_fee,
        virtual_reserve,
    })
}

/// A snapshot of a curve's reserves and price.
#[derive(Debug, PartialEq, Eq)]
pub struct FlambeInfo {
    pub virtual_reserve: u128,
    pub main_amount: u128,
    pub main_denom: String,
    pub pair_amount: u128,
    pub pair_denom: String,
    pub price: Decimal18,
}

/// The curve's reserves and its price `(pair + virtual reserve) / main`, zero
/// when there is no token left to price.
pub fn qy_info(config: &Config, main_balance: u128, pair_balance: u128) -> (r: Result<FlambeInfo, ContractError>)
    ensures
        pair_balance + config.virtual_reserve > u128::MAX ==> r == Err::<FlambeInfo, ContractError>(ContractError::Arithmetic),
        pair_balance + config.virtual_reserve <= u128::MAX ==> (r matches Ok(info) && {
            &&& info.virtual_reserve == config.virtual_reserve
            &&& info.main_amount == main_balance
            &&& info.main_denom == config.main_denom
            &&& info.pair_amount == pair_balance
            &&& info.pair_denom == config.flambe_setting.pair_denom
            &&& info.price.atomics == match ratio18(pair_balance + config.virtual_reserve, main_balance as int) {
                Some(p) => p,
                None => 0,
            }
        }),
{
    let total = match pair_balance.checked_add(config.virtual_reserve) {
        Some(v) => v,
        None => return Err(ContractError::Arithmetic),
    };
    let price = match Decimal18::checked_from_ratio(total, main_balance) {
        Some(p) => p,
        None => Decimal18::zero(),
    };
    Ok(FlambeInfo {
        virtual_reserve: config.virtual_reserve,
        main_amount: main_balance,
        main_denom: config.main_denom.clone(),
        pair_amount: pair_balance,
        pair_denom: config.flambe_setting.pair_denom.clone(),
        price,
    })
}

/// Quotes offering `amount` of `offer` against the balances as they are.
pub fn qy_simulate(config: &Config, offer: String, amount: u128, main_balance: u128, pair_balance: u128) -> (r: Result<SwapResponse, ContractError>)
    ensures
        match swap_result(*config, offer@, amount as int, main_balance as int, pair_balance as int, true) {
            Ok((ret, fee, impact)) => r matches Ok(resp) && {
                let is_buy = offer@ != config.main_denom@;
                &&& resp.return_amount.amount == ret
                &&& resp.swap_fee.amount == fee
                &&& resp.price_impact.atomics == impact
                &&& resp.return_amount.denom == if is_buy { config.main_denom } else { config.flambe_setting.pair_denom }
                &&& resp.swap_fee.denom == if is_buy { config.flambe_setting.pair_denom } else { config.main_denom }
            },
            Err(e) => r == Err::<SwapResponse, ContractError>(e),
        },
{
    let coin = Coin { denom: offer, amount };
    compute_swap(config, &coin, main_balance, pair_balance, true)
}

} // verus!

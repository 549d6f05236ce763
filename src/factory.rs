//! The factory: its configuration, the creation of curves, the routing of
//! trades to them, the bookkeeping of their status and liquidity in the
//! registry, and the end of a curve.
use crate::curve::FlambeInfo;
use crate::math::{checked_mul_floor, e18, mul_ratio, Decimal18, DECIMAL_FRACTIONAL};
use crate::registry::{
    has_address, is_page, with_liquidity, with_status, FlambeBaseInfo, FlambeFilter, FlambesFilter,
    Registry,
};
use crate::types::{
    derive_denom_from_subdenom, factory_denom, only_one_coin, Action, Coin, ContractError,
    CreateFactoryInput, CurveCall, CurveInit, FlambeSetting, FlambeStatus, ProtocolTokenInfo,
    ProtocolTokensInfoCreation, TOKEN_DECIMALS,
};
use vstd::prelude::*;

verus! {

/// The factory's configuration.
#[derive(Debug, PartialEq, Eq)]
pub struct Config {
    pub burner: String,
    pub cook_token: ProtocolTokenInfo,
    pub cookie_token: ProtocolTokenInfo,
    pub cookie_ratio: Decimal18,
    pub cookie_owner_reward: u128,
    pub fee_collector: String,
    pub flambe_fee_creation: Option<Coin>,
    pub flambe_code_id: u64,
    pub flambe_settings: Vec<FlambeSetting>,
    pub owner: String,
    pub swap_fee: Decimal18,
    pub counter_flambe: u64,
    pub dojoswap_factory: String,
}

/// A preset is usable: a positive price, supply and threshold, and a paired
/// asset with 6 to 18 decimals.
pub open spec fn setting_valid(s: FlambeSetting) -> bool {
    &&& s.initial_price.atomics != 0
    &&& s.initial_supply != 0
    &&& s.threshold != 0
    &&& 6 <= s.pair_decimals <= 18
}

/// A configuration is usable: a swap fee below one and usable presets.
pub open spec fn config_valid(c: Config) -> bool {
    &&& c.swap_fee.atomics < e18()
    &&& forall|i: int| 0 <= i < c.flambe_settings@.len() ==> setting_valid(#[trigger] c.flambe_settings@[i])
}

impl Config {
    /// Checks the configuration's rules.
    pub fn validate(&self) -> (r: Result<(), ContractError>)
        ensures
            r is Ok <==> config_valid(*self),
            r is Err ==> r == Err::<(), ContractError>(ContractError::InvalidConfig),
    {
        if self.swap_fee.atomics >= DECIMAL_FRACTIONAL {
            return Err(ContractError::InvalidConfig);
        }
        let mut i: usize = 0;
        while i < self.flambe_settings.len()
            invariant
                i <= self.flambe_settings@.len(),
                forall|k: int| 0 <= k < i ==> setting_valid(#[trigger] self.flambe_settings@[k]),
            decreases self.flambe_settings@.len() - i,
        {
            let s = &self.flambe_settings[i];
            if s.initial_price.atomics == 0 || s.initial_supply == 0 || s.threshold == 0 || s.pair_decimals < 6 || s.pair_decimals > 18 {
                return Err(ContractError::InvalidConfig);
            }
            i = i + 1;
        }
        Ok(())
    }
}

/// A change of the factory's configuration; each field that is given
/// replaces the current one.
#[derive(Debug, PartialEq, Eq)]
pub struct UpdateConfigMsg {
    pub burner: Option<String>,
    pub cookie_ratio: Option<Decimal18>,
    pub cookie_owner_reward: Option<u128>,
    pub fee_collector: Option<String>,
    pub flambe_code_id: Option<u64>,
    pub flambe_settings: Option<Vec<FlambeSetting>>,
    pub owner: Option<String>,
    pub swap_fee: Option<Decimal18>,
}

pub open spec fn or_keep<A>(new: Option<A>, old: A) -> A {
    match new {
        Some(v) => v,
        None => old,
    }
}

/// Whether an update changes nothing.
pub open spec fn update_is_empty(msg: UpdateConfigMsg) -> bool {
    &&& msg.burner is None
    &&& msg.cookie_ratio is None
    &&& msg.cookie_owner_reward is None
    &&& msg.fee_collector is None
    &&& msg.flambe_code_id is None
    &&& msg.flambe_settings is None
    &&& msg.owner is None
    &&& msg.swap_fee is None
}

/// The configuration after an update.
pub open spec fn updated(c: Config, msg: UpdateConfigMsg) -> Config {
    Config {
        burner: or_keep(msg.burner, c.burner),
        cookie_ratio: or_keep(msg.cookie_ratio, c.cookie_ratio),
        cookie_owner_reward: or_keep(msg.cookie_owner_reward, c.cookie_owner_reward),
        fee_collector: or_keep(msg.fee_collector, c.fee_collector),
        flambe_code_id: or_keep(msg.flambe_code_id, c.flambe_code_id),
        flambe_settings: or_keep(msg.flambe_settings, c.flambe_settings),
        owner: or_keep(msg.owner, c.owner),
        swap_fee: or_keep(msg.swap_fee, c.swap_fee),
        ..c
    }
}

fn settings_valid(settings: &Vec<FlambeSetting>) -> (r: bool)
    ensures
        r <==> forall|i: int| 0 <= i < settings@.len() ==> setting_valid(#[trigger] settings@[i]),
{
    let mut i: usize = 0;
    while i < settings.len()
        invariant
            i <= settings@.len(),
            forall|k: int| 0 <= k < i ==> setting_valid(#[trigger] settings@[k]),
        decreases settings@.len() - i,
    {
        let s = &settings[i];
        if s.initial_price.atomics == 0 || s.initial_supply == 0 || s.threshold == 0 || s.pair_decimals < 6 || s.pair_decimals > 18 {
            return false;
        }
        i = i + 1;
    }
    true
}

/// The owner changes the configuration; the result must still be valid. On
/// an error nothing changes.
pub fn update_config(config: &mut Config, sender: &String, msg: UpdateConfigMsg) -> (r: Result<(), ContractError>)
    ensures
        r is Err ==> *final(config) == *old(config),
        sender@ != old(config).owner@ ==> r == Err::<(), ContractError>(ContractError::Unauthorized),
        sender@ == old(config).owner@ && update_is_empty(msg) ==> r == Err::<(), ContractError>(ContractError::InvalidEmptyUpdate),
        sender@ == old(config).owner@ && !update_is_empty(msg) ==> if config_valid(updated(*old(config), msg)) {
            r is Ok && *final(config) == updated(*old(config), msg)
        } else {
            r == Err::<(), ContractError>(ContractError::InvalidConfig)
        },
{
    if *sender != config.owner {
        return Err(ContractError::Unauthorized);
    }
    let ghost m = msg;
    let empty = msg.burner.is_none() && msg.cookie_ratio.is_none() && msg.cookie_owner_reward.is_none()
        && msg.fee_collector.is_none() && msg.flambe_code_id.is_none() && msg.flambe_settings.is_none()
        && msg.owner.is_none() && msg.swap_fee.is_none();
    if empty {
        return Err(ContractError::InvalidEmptyUpdate);
    }
    let fee = match msg.swap_fee {
        Some(f) => f,
        None => config.swap_fee,
    };
    let valid_settings = match &msg.flambe_settings {
        Some(v) => settings_valid(v),
        None => settings_valid(&config.flambe_settings),
    };
    proof {
        let u = updated(*old(config), m);
        assert(u.swap_fee == fee);
        assert(u.flambe_settings@ == match m.flambe_settings {
            Some(v) => v@,
            None => old(config).flambe_settings@,
        });
        assert(config_valid(u) <==> fee.atomics < e18() && valid_settings);
    }
    if fee.atomics >= DECIMAL_FRACTIONAL || !valid_settings {
        return Err(ContractError::InvalidConfig);
    }
    if let Some(v) = msg.burner {
        config.burner = v;
    }
    if let Some(v) = msg.cookie_ratio {
        config.cookie_ratio = v;
    }
    if let Some(v) = msg.cookie_owner_reward {
        config.cookie_owner_reward = v;
    }
    if let Some(v) = msg.fee_collector {
        config.fee_collector = v;
    }
    if let Some(v) = msg.flambe_code_id {
        config.flambe_code_id = v;
    }
    if let Some(v) = msg.flambe_settings {
        config.flambe_settings = v;
    }
    if let Some(v) = msg.owner {
        config.owner = v;
    }
    config.swap_fee = fee;
    Ok(())
}

/// What the registry shows of a curve: its record and a snapshot of its
/// reserves.
#[derive(Debug, PartialEq, Eq)]
pub struct FlambeFullInfo {
    pub creator: String,
    pub flambe_address: String,
    pub flambe_setting: FlambeSetting,
    pub main_amount: u128,
    pub pair_amount: u128,
    pub price: Decimal18,
    pub status: FlambeStatus,
    pub token: ProtocolTokenInfo,
    pub virtual_reserve: u128,
}

impl FlambeBaseInfo {
    pub fn into_full_info(self, info: FlambeInfo) -> (r: FlambeFullInfo)
        ensures
            r == (FlambeFullInfo {
                creator: self.creator,
                flambe_address: self.flambe_address,
                flambe_setting: self.flambe_setting,
                main_amount: info.main_amount,
                pair_amount: info.pair_amount,
                price: info.price,
                status: self.status,
                token: self.main_token,
                virtual_reserve: info.virtual_reserve,
            }),
    {
        FlambeFullInfo {
            token: self.main_token,
            creator: self.creator,
            flambe_address: self.flambe_address,
            status: self.status,
            flambe_setting: self.flambe_setting,
            virtual_reserve: info.virtual_reserve,
            main_amount: info.main_amount,
            pair_amount: info.pair_amount,
            price: info.price,
        }
    }
}

/// The record a new curve enters the registry with.
pub open spec fn new_record(creator: String, curve_address: String, setting: FlambeSetting, token: ProtocolTokenInfo) -> FlambeBaseInfo {
    FlambeBaseInfo {
        creator,
        flambe_address: curve_address,
        flambe_setting: setting,
        main_token: token,
        status: FlambeStatus::OPEN,
        last_price: setting.initial_price,
        last_liquidity: 0,
    }
}

/// What creating a curve dispatches: the denomination, the mint of the whole
/// supply to the factory, the token's metadata, the hand-over of the
/// denomination's admin rights to the burn address (so no more can be
/// minted), the curve's instantiation funded with the supply, and the
/// creation fee when one is configured.
pub open spec fn creation_messages(config: Config, contract: String, sender: String, subdenom: String, setting: FlambeSetting, token: ProtocolTokenInfo) -> Seq<Action> {
    let supply = Coin { denom: token.denom, amount: setting.initial_supply };
    let fee = match config.flambe_fee_creation {
        Some(c) => seq![Action::BankSend { to: config.fee_collector, coin: c }],
        None => Seq::<Action>::empty(),
    };
    seq![
        Action::CreateDenom { sender: contract, subdenom, name: token.name, symbol: token.symbol },
        Action::Mint { sender: contract, coin: supply },
        Action::SetDenomMetadata { sender: contract, token, exponent: TOKEN_DECIMALS },
        Action::ChangeAdmin { sender: contract, denom: token.denom, new_admin: config.burner },
        Action::InstantiateCurve {
            admin: config.owner,
            code_id: config.flambe_code_id,
            salt: config.counter_flambe,
            init: CurveInit {
                burner_addr: config.burner,
                creator: sender,
                factory: contract,
                fee_collector: config.fee_collector,
                flambe_setting: setting,
                owner: config.owner,
                swap_fee: config.swap_fee,
            },
            funds: supply,
        },
    ] + fee
}

/// Creates a curve from preset `setting_index` for a new token
/// `factory/<contract>/<subdenom>`. `curve_address` is the address the curve
/// will be instantiated at, derived from the factory's address and its
/// creation counter. The curve enters the registry as open at the preset's
/// price with no liquidity, and the counter moves on. On an error nothing
/// changes.
pub fn create_token_factory(
    config: &mut Config,
    registry: &mut Registry,
    contract: &String,
    sender: &String,
    subdenom: String,
    setting_index: u8,
    input: CreateFactoryInput,
    curve_address: String,
) -> (r: Result<Vec<Action>, ContractError>)
    requires
        old(registry).wf(),
    ensures
        final(registry).wf(),
        r is Err ==> *final(config) == *old(config) && final(registry)@ == old(registry)@,
        setting_index >= old(config).flambe_settings@.len() ==> r == Err::<Vec<Action>, ContractError>(ContractError::InvalidFlambeSettingIndex { index: setting_index }),
        setting_index < old(config).flambe_settings@.len() ==> {
            let setting = old(config).flambe_settings@[setting_index as int];
            let token = ProtocolTokenInfo {
                denom: final(registry)@.last().main_token.denom,
                description: input.description,
                name: input.name,
                total_supply: setting.initial_supply,
                symbol: input.symbol,
                uri: input.uri,
                uri_hash: input.uri_hash,
            };
            let denom = factory_denom(contract@, subdenom@);
            if old(config).counter_flambe == u64::MAX {
                r == Err::<Vec<Action>, ContractError>(ContractError::Arithmetic)
            } else if exists|i: int| 0 <= i < old(registry)@.len() && ((#[trigger] old(registry)@[i]).main_token.denom@ == denom || old(registry)@[i].flambe_address@ == curve_address@) {
                r == Err::<Vec<Action>, ContractError>(ContractError::FlambeAlreadyExists)
            } else {
                &&& r matches Ok(m) && m@ == creation_messages(*old(config), *contract, *sender, subdenom, setting, token)
                &&& token.denom@ == denom
                &&& final(registry)@ == old(registry)@.push(new_record(*sender, curve_address, setting, token))
                &&& *final(config) == (Config { counter_flambe: (old(config).counter_flambe + 1) as u64, ..*old(config) })
            }
        },
{
    if setting_index as usize >= config.flambe_settings.len() {
        return Err(ContractError::InvalidFlambeSettingIndex { index: setting_index });
    }
    if config.counter_flambe == u64::MAX {
        return Err(ContractError::Arithmetic);
    }
    let setting = config.flambe_settings[setting_index as usize].copy();
    let denom = derive_denom_from_subdenom(contract, &subdenom);
    let token = input.to_protocol_token(denom, setting.initial_supply);
    let record = FlambeBaseInfo {
        creator: sender.clone(),
        flambe_address: curve_address,
        flambe_setting: setting.copy(),
        main_token: token.copy(),
        status: FlambeStatus::OPEN,
        last_price: setting.initial_price,
        last_liquidity: 0,
    };
    let ghost old_records = registry@;
    match registry.insert(record) {
        Ok(()) => {},
        Err(e) => {
            proof {
                let d = factory_denom(contract@, subdenom@);
                if crate::registry::has_denom(old_records, d) {
                    let i = choose|i: int| 0 <= i < old_records.len() && #[trigger] old_records[i].main_token.denom@ == d;
                    assert(old_records[i].main_token.denom@ == d);
                } else {
                    let i = choose|i: int| 0 <= i < old_records.len() && #[trigger] old_records[i].flambe_address@ == curve_address@;
                    assert(old_records[i].flambe_address@ == curve_address@);
                }
            }
            return Err(e);
        },
    }
    let supply_denom = token.denom.clone();
    let mut messages: Vec<Action> = Vec::new();
    messages.push(Action::CreateDenom {
        sender: contract.clone(),
        subdenom,
        name: token.name.clone(),
        symbol: token.symbol.clone(),
    });
    messages.push(Action::Mint {
        sender: contract.clone(),
        coin: Coin { denom: supply_denom.clone(), amount: setting.initial_supply },
    });
    messages.push(Action::ChangeAdmin {
        sender: contract.clone(),
        denom: supply_denom.clone(),
        new_admin: config.burner.clone(),
    });
    let set_metadata = Action::SetDenomMetadata { sender: contract.clone(), token, exponent: TOKEN_DECIMALS };
    messages.insert(2, set_metadata);
    messages.push(Action::InstantiateCurve {
        admin: config.owner.clone(),
        code_id: config.flambe_code_id,
        salt: config.counter_flambe,
        init: CurveInit {
            burner_addr: config.burner.clone(),
            creator: sender.clone(),
            factory: contract.clone(),
            fee_collector: config.fee_collector.clone(),
            flambe_setting: setting,
            owner: config.owner.clone(),
            swap_fee: config.swap_fee,
        },
        funds: Coin { denom: supply_denom, amount: config.flambe_settings[setting_index as usize].initial_supply },
    });
    match &config.flambe_fee_creation {
        Some(fee) => {
            messages.push(Action::BankSend {
                to: config.fee_collector.clone(),
                coin: Coin { denom: fee.denom.clone(), amount: fee.amount },
            });
        },
        None => {},
    }
    config.counter_flambe = config.counter_flambe + 1;
    proof {
        let setting = old(config).flambe_settings@[setting_index as int];
        let token = registry@.last().main_token;
        assert(messages@ =~= creation_messages(*old(config), *contract, *sender, subdenom, setting, token));
    }
    Ok(messages)
}

/// What the factory is instantiated with.
#[derive(Debug, PartialEq, Eq)]
pub struct InstantiateMsg {
    pub burner: String,
    pub cook_token: ProtocolTokensInfoCreation,
    pub cookie_token: ProtocolTokensInfoCreation,
    pub cookie_ratio: Decimal18,
    pub cookie_owner_reward: u128,
    pub dojoswap_factory: String,
    pub fee_collector: String,
    pub flambe_code_id: u64,
    pub flambe_fee_creation: Option<Coin>,
    pub flambe_settings: Vec<FlambeSetting>,
    pub owner: String,
    pub swap_fee: Decimal18,
}

/// The messages that issue one of the factory's reward tokens: the
/// denomination, its whole supply minted and sent to the owner, its metadata,
/// and its admin rights handed to the burn address.
pub open spec fn issue_messages(contract: String, owner: String, burner: String, token: ProtocolTokenInfo) -> Seq<Action> {
    seq![
        Action::CreateDenom { sender: contract, subdenom: token.symbol, name: token.name, symbol: token.symbol },
        Action::Mint { sender: contract, coin: Coin { denom: token.denom, amount: token.total_supply } },
        Action::BankSend { to: owner, coin: Coin { denom: token.denom, amount: token.total_supply } },
        Action::SetDenomMetadata { sender: contract, token, exponent: 6 },
        Action::ChangeAdmin { sender: contract, denom: token.denom, new_admin: burner },
    ]
}

fn issue(messages: &mut Vec<Action>, contract: &String, owner: &String, burner: &String, token: &ProtocolTokenInfo)
    ensures
        final(messages)@ == old(messages)@ + issue_messages(*contract, *owner, *burner, *token),
{
    messages.push(Action::CreateDenom {
        sender: contract.clone(),
        subdenom: token.symbol.clone(),
        name: token.name.clone(),
        symbol: token.symbol.clone(),
    });
    messages.push(Action::Mint {
        sender: contract.clone(),
        coin: Coin { denom: token.denom.clone(), amount: token.total_supply },
    });
    messages.push(Action::BankSend {
        to: owner.clone(),
        coin: Coin { denom: token.denom.clone(), amount: token.total_supply },
    });
    messages.push(Action::SetDenomMetadata { sender: contract.clone(), token: token.copy(), exponent: 6 });
    messages.push(Action::ChangeAdmin { sender: contract.clone(), denom: token.denom.clone(), new_admin: burner.clone() });
    proof {
        assert(messages@ =~= old(messages)@ + issue_messages(*contract, *owner, *burner, *token));
    }
}

/// Starts the factory: its two reward tokens (the cook token and the cookie
/// token) are issued under the factory's own denominations, and the creation
/// counter starts at zero. The configuration must be valid.
pub fn instantiate(msg: InstantiateMsg, contract: &String) -> (r: Result<(Config, Vec<Action>), ContractError>)
    ensures
        match r {
            Err(e) => e == ContractError::InvalidConfig && !(msg.swap_fee.atomics < e18() && forall|i: int| 0 <= i < msg.flambe_settings@.len() ==> setting_valid(#[trigger] msg.flambe_settings@[i])),
            Ok((c, m)) => {
                &&& config_valid(c)
                &&& c.cook_token.denom@ == factory_denom(contract@, msg.cook_token.symbol@)
                &&& c.cookie_token.denom@ == factory_denom(contract@, msg.cookie_token.symbol@)
                &&& c == (Config {
                    burner: msg.burner,
                    cook_token: ProtocolTokenInfo {
                        denom: c.cook_token.denom,
                        description: msg.cook_token.description,
                        name: msg.cook_token.name,
                        total_supply: msg.cook_token.total_supply,
                        symbol: msg.cook_token.symbol,
                        uri: msg.cook_token.uri,
                        uri_hash: msg.cook_token.uri_hash,
                    },
                    cookie_token: ProtocolTokenInfo {
                        denom: c.cookie_token.denom,
                        description: msg.cookie_token.description,
                        name: msg.cookie_token.name,
                        total_supply: msg.cookie_token.total_supply,
                        symbol: msg.cookie_token.symbol,
                        uri: msg.cookie_token.uri,
                        uri_hash: msg.cookie_token.uri_hash,
                    },
                    cookie_ratio: msg.cookie_ratio,
                    cookie_owner_reward: msg.cookie_owner_reward,
                    fee_collector: msg.fee_collector,
                    flambe_fee_creation: msg.flambe_fee_creation,
                    flambe_code_id: msg.flambe_code_id,
                    flambe_settings: msg.flambe_settings,
                    owner: msg.owner,
                    swap_fee: msg.swap_fee,
                    counter_flambe: 0,
                    dojoswap_factory: msg.dojoswap_factory,
                })
                &&& m@ == issue_messages(*contract, msg.owner, msg.burner, c.cook_token) + issue_messages(*contract, msg.owner, msg.burner, c.cookie_token)
            },
        },
{
    let cook_denom = derive_denom_from_subdenom(contract, &msg.cook_token.symbol);
    let cookie_denom = derive_denom_from_subdenom(contract, &msg.cookie_token.symbol);
    let cook_token = msg.cook_token.finalize(cook_denom);
    let cookie_token = msg.cookie_token.finalize(cookie_denom);
    let mut messages: Vec<Action> = Vec::new();
    issue(&mut messages, contract, &msg.owner, &msg.burner, &cook_token);
    issue(&mut messages, contract, &msg.owner, &msg.burner, &cookie_token);
    let config = Config {
        burner: msg.burner,
        cook_token,
        cookie_token,
        cookie_ratio: msg.cookie_ratio,
        cookie_owner_reward: msg.cookie_owner_reward,
        fee_collector: msg.fee_collector,
        flambe_fee_creation: msg.flambe_fee_creation,
        flambe_code_id: msg.flambe_code_id,
        flambe_settings: msg.flambe_settings,
        owner: msg.owner,
        swap_fee: msg.swap_fee,
        counter_flambe: 0,
        dojoswap_factory: msg.dojoswap_factory,
    };
    config.validate()?;
    proof {
        assert(messages@ =~= issue_messages(*contract, msg.owner, msg.burner, config.cook_token) + issue_messages(*contract, msg.owner, msg.burner, config.cookie_token));
    }
    Ok((config, messages))
}

/// The reward in cookie tokens for a buy of `amount`: the swap fee on it
/// times the cookie ratio, each product rounded down. `None` when it does not
/// fit.
pub open spec fn cookie_reward(amount: int, fee: Decimal18, ratio: Decimal18) -> Option<int> {
    let f = mul_ratio(amount, fee.atomics as int, e18());
    if f > u128::MAX || mul_ratio(f, ratio.atomics as int, e18()) > u128::MAX {
        None
    } else {
        Some(mul_ratio(f, ratio.atomics as int, e18()))
    }
}

/// A trade forwarded to a curve on the trader's behalf.
pub open spec fn forward_spec(curve: String, min_amount_out: u128, user: String, received: Coin) -> Action {
    Action::CurveSwap { contract: curve, min_amount_out, user, funds: received }
}

/// What a buy dispatches: the trade, and the cookie reward (the computed
/// reward, clamped to what the factory holds) when it is not zero.
pub open spec fn pump_messages(config: Config, curve: String, sender: String, received: Coin, min_amount_out: u128, reward: int) -> Seq<Action> {
    seq![forward_spec(curve, min_amount_out, sender, received)] + if reward > 0 {
        seq![Action::BankSend { to: sender, coin: Coin { denom: config.cookie_token.denom, amount: reward as u128 } }]
    } else {
        Seq::<Action>::empty()
    }
}

/// A routed trade: the messages to dispatch, and the cookie reward the
/// trade earned beside the one paid, which is less when the factory holds too
/// few cookie tokens.
#[derive(Debug, PartialEq, Eq)]
pub struct RouteOutcome {
    pub messages: Vec<Action>,
    pub reward_due: u128,
    pub reward_paid: u128,
}

/// Forwards a buy to the curve and rewards the buyer with cookie tokens,
/// as many as the factory still holds at most. The outcome reports both the
/// reward earned and the reward paid, so a clamped reward is visible.
pub fn request_pump(config: &Config, curve: &String, sender: &String, received: Coin, min_amount_out: u128, cookies_left: u128) -> (r: Result<RouteOutcome, ContractError>)
    ensures
        match cookie_reward(received.amount as int, config.swap_fee, config.cookie_ratio) {
            None => r == Err::<RouteOutcome, ContractError>(ContractError::Arithmetic),
            Some(c) => r matches Ok(o) && {
                let paid = if c < cookies_left { c } else { cookies_left as int };
                &&& o.reward_due == c
                &&& o.reward_paid == paid
                &&& o.messages@ == pump_messages(*config, *curve, *sender, received, min_amount_out, paid)
            },
        },
{
    let fee = match checked_mul_floor(received.amount, config.swap_fee) {
        Some(v) => v,
        None => return Err(ContractError::Arithmetic),
    };
    let cookies = match checked_mul_floor(fee, config.cookie_ratio) {
        Some(v) => v,
        None => return Err(ContractError::Arithmetic),
    };
    let reward = if cookies < cookies_left { cookies } else { cookies_left };
    let ghost r0 = received;
    let mut messages: Vec<Action> = Vec::new();
    messages.push(Action::CurveSwap { contract: curve.clone(), min_amount_out, user: sender.clone(), funds: received });
    if reward > 0 {
        messages.push(Action::BankSend {
            to: sender.clone(),
            coin: Coin { denom: config.cookie_token.denom.clone(), amount: reward },
        });
    }
    proof {
        assert(messages@ =~= pump_messages(*config, *curve, *sender, r0, min_amount_out, reward as int));
    }
    Ok(RouteOutcome { messages, reward_due: cookies, reward_paid: reward })
}

/// Forwards a sell to the curve.
pub fn request_dump(curve: &String, sender: &String, received: Coin, min_amount_out: u128) -> (r: Vec<Action>)
    ensures
        r@ == seq![forward_spec(*curve, min_amount_out, *sender, received)],
{
    let ghost r0 = received;
    let mut messages: Vec<Action> = Vec::new();
    messages.push(Action::CurveSwap { contract: curve.clone(), min_amount_out, user: sender.clone(), funds: received });
    proof {
        assert(messages@ =~= seq![forward_spec(*curve, min_amount_out, *sender, r0)]);
    }
    messages
}

/// Routes a trade to the curve at `curve`: a coin of the curve's token is a
/// sell, a coin of its paired asset a buy, anything else is refused.
/// `cookies_left` is the factory's balance of cookie tokens.
pub fn route_swap(
    config: &Config,
    registry: &Registry,
    sender: &String,
    funds: Vec<Coin>,
    curve: &String,
    min_amount_out: u128,
    cookies_left: u128,
) -> (r: Result<RouteOutcome, ContractError>)
    requires
        registry.wf(),
    ensures
        funds.len() != 1 ==> r == Err::<RouteOutcome, ContractError>(ContractError::InvalidFunds),
        funds.len() == 1 && !has_address(registry@, curve@) ==> r == Err::<RouteOutcome, ContractError>(ContractError::FlambeNotFound),
        funds.len() == 1 && has_address(registry@, curve@) ==> forall|i: int| 0 <= i < registry@.len() && #[trigger] registry@[i].flambe_address@ == curve@ ==> {
            let rec = registry@[i];
            let coin = funds[0];
            if coin.denom@ == rec.main_token.denom@ {
                r matches Ok(o) && o.reward_due == 0 && o.reward_paid == 0 && o.messages@ == seq![forward_spec(rec.flambe_address, min_amount_out, *sender, coin)]
            } else if coin.denom@ == rec.flambe_setting.pair_denom@ {
                match cookie_reward(coin.amount as int, config.swap_fee, config.cookie_ratio) {
                    None => r == Err::<RouteOutcome, ContractError>(ContractError::Arithmetic),
                    Some(c) => r matches Ok(o) && {
                        let paid = if c < cookies_left { c } else { cookies_left as int };
                        &&& o.reward_due == c
                        &&& o.reward_paid == paid
                        &&& o.messages@ == pump_messages(*config, rec.flambe_address, *sender, coin, min_amount_out, paid)
                    },
                }
            } else {
                r == Err::<RouteOutcome, ContractError>(ContractError::InvalidFlambeDenom)
            }
        },
{
    let received = only_one_coin(funds, None)?;
    let rec = registry.load(&FlambeFilter::ByFlambeAddr(curve.clone()))?;
    proof {
        assert forall|i: int| 0 <= i < registry@.len() && #[trigger] registry@[i].flambe_address@ == curve@ implies registry@[i] == rec by {
            let j = choose|j: int| 0 <= j < registry@.len() && registry@[j] == rec;
            if i != j {
                assert(registry@[i].main_token.denom@ != registry@[j].main_token.denom@);
            }
        }
    }
    if received.denom == rec.main_token.denom {
        Ok(RouteOutcome { messages: request_dump(&rec.flambe_address, sender, received, min_amount_out), reward_due: 0, reward_paid: 0 })
    } else if received.denom == rec.flambe_setting.pair_denom {
        request_pump(config, &rec.flambe_address, sender, received, min_amount_out, cookies_left)
    } else {
        Err(ContractError::InvalidFlambeDenom)
    }
}

/// A curve reports its new status. Only a registered curve may, and only for
/// its own record.
pub fn update_flambe_status(registry: &mut Registry, sender: &String, status: FlambeStatus) -> (r: Result<(), ContractError>)
    requires
        old(registry).wf(),
    ensures
        final(registry).wf(),
        !has_address(old(registry)@, sender@) ==> r == Err::<(), ContractError>(ContractError::FlambeNotFound) && final(registry)@ == old(registry)@,
        has_address(old(registry)@, sender@) ==> r is Ok,
        final(registry)@.len() == old(registry)@.len(),
        forall|i: int| 0 <= i < old(registry)@.len() ==> #[trigger] final(registry)@[i] == if old(registry)@[i].flambe_address@ == sender@ {
            with_status(old(registry)@[i], status)
        } else {
            old(registry)@[i]
        },
{
    registry.set_status(sender, status)
}

/// A curve reports its reserves after a trade: its record takes the curve's
/// current price and paired balance from `info`, the curve's own snapshot.
pub fn update_flambe_liquidity(registry: &mut Registry, sender: &String, info: &FlambeInfo) -> (r: Result<(), ContractError>)
    requires
        old(registry).wf(),
    ensures
        final(registry).wf(),
        !has_address(old(registry)@, sender@) ==> r == Err::<(), ContractError>(ContractError::FlambeNotFound) && final(registry)@ == old(registry)@,
        has_address(old(registry)@, sender@) ==> r is Ok,
        final(registry)@.len() == old(registry)@.len(),
        forall|i: int| 0 <= i < old(registry)@.len() ==> #[trigger] final(registry)@[i] == if old(registry)@[i].flambe_address@ == sender@ {
            with_liquidity(old(registry)@[i], info.price, info.pair_amount)
        } else {
            old(registry)@[i]
        },
{
    registry.set_liquidity(sender, info.price, info.pair_amount)
}

/// Which curve the owner ends.
#[derive(Debug, PartialEq, Eq)]
pub struct EndFlambeMsg {
    pub flambe_address: String,
}

/// The owner ends a pending curve: the curve is told to migrate, and its
/// creator receives the owner's reward in cookie tokens, as many as the
/// factory still holds at most. `cookie_balance` is that holding.
pub fn end_flambe(config: &Config, registry: &Registry, sender: &String, msg: &EndFlambeMsg, cookie_balance: u128) -> (r: Result<Vec<Action>, ContractError>)
    requires
        registry.wf(),
    ensures
        sender@ != config.owner@ ==> r == Err::<Vec<Action>, ContractError>(ContractError::Unauthorized),
        sender@ == config.owner@ && !has_address(registry@, msg.flambe_address@) ==> r == Err::<Vec<Action>, ContractError>(ContractError::FlambeNotFound),
        sender@ == config.owner@ ==> forall|i: int| 0 <= i < registry@.len() && #[trigger] registry@[i].flambe_address@ == msg.flambe_address@ ==> {
            let rec = registry@[i];
            let reward = if cookie_balance < config.cookie_owner_reward { cookie_balance } else { config.cookie_owner_reward };
            if rec.status != FlambeStatus::PENDING {
                r == Err::<Vec<Action>, ContractError>(ContractError::InvalidFlambeStatus)
            } else {
                r matches Ok(m) && m@ == seq![Action::ExecuteCurve { contract: rec.flambe_address, msg: CurveCall::Deploy, funds: None }] + if reward > 0 {
                    seq![Action::BankSend { to: rec.creator, coin: Coin { denom: config.cookie_token.denom, amount: reward } }]
                } else {
                    Seq::<Action>::empty()
                }
            }
        },
{
    if *sender != config.owner {
        return Err(ContractError::Unauthorized);
    }
    let rec = registry.load(&FlambeFilter::ByFlambeAddr(msg.flambe_address.clone()))?;
    proof {
        assert forall|i: int| 0 <= i < registry@.len() && #[trigger] registry@[i].flambe_address@ == msg.flambe_address@ implies registry@[i] == rec by {
            let j = choose|j: int| 0 <= j < registry@.len() && registry@[j] == rec;
            if i != j {
                assert(registry@[i].main_token.denom@ != registry@[j].main_token.denom@);
            }
        }
    }
    if rec.status != FlambeStatus::PENDING {
        return Err(ContractError::InvalidFlambeStatus);
    }
    let reward = if cookie_balance < config.cookie_owner_reward { cookie_balance } else { config.cookie_owner_reward };
    let mut messages: Vec<Action> = Vec::new();
    messages.push(Action::ExecuteCurve { contract: rec.flambe_address.clone(), msg: CurveCall::Deploy, funds: None });
    if reward > 0 {
        messages.push(Action::BankSend {
            to: rec.creator.clone(),
            coin: Coin { denom: config.cookie_token.denom.clone(), amount: reward },
        });
    }
    proof {
        assert(messages@ =~= seq![Action::ExecuteCurve { contract: rec.flambe_address, msg: CurveCall::Deploy, funds: None }] + if reward > 0 {
            seq![Action::BankSend { to: rec.creator, coin: Coin { denom: config.cookie_token.denom, amount: reward } }]
        } else {
            Seq::<Action>::empty()
        });
    }
    Ok(messages)
}

/// A curve about to migrate registers its token's decimals with the pool
/// factory, paying exactly one unit of the token.
pub fn register_denom_on_dojo(config: &Config, registry: &Registry, sender: &String, funds: Vec<Coin>) -> (r: Result<Vec<Action>, ContractError>)
    requires
        registry.wf(),
    ensures
        !has_address(registry@, sender@) ==> r == Err::<Vec<Action>, ContractError>(ContractError::FlambeNotFound),
        forall|i: int| 0 <= i < registry@.len() && #[trigger] registry@[i].flambe_address@ == sender@ ==> {
            let rec = registry@[i];
            if funds.len() != 1 || funds[0].denom@ != rec.main_token.denom@ {
                r == Err::<Vec<Action>, ContractError>(ContractError::InvalidFunds)
            } else if funds[0].amount != 1 {
                r == Err::<Vec<Action>, ContractError>(ContractError::InvalidDenomRegistrationAmount { requested: 1 })
            } else {
                r matches Ok(m) && m@ == seq![Action::AddNativeTokenDecimals {
                    pool_factory: config.dojoswap_factory,
                    denom: rec.main_token.denom,
                    decimals: TOKEN_DECIMALS,
                    funds: Coin { denom: rec.main_token.denom, amount: 1 },
                }]
            }
        },
{
    let rec = registry.load(&FlambeFilter::ByFlambeAddr(sender.clone()))?;
    proof {
        assert forall|i: int| 0 <= i < registry@.len() && #[trigger] registry@[i].flambe_address@ == sender@ implies registry@[i] == rec by {
            let j = choose|j: int| 0 <= j < registry@.len() && registry@[j] == rec;
            if i != j {
                assert(registry@[i].main_token.denom@ != registry@[j].main_token.denom@);
            }
        }
    }
    let received = only_one_coin(funds, Some(&rec.main_token.denom))?;
    if received.amount != 1 {
        return Err(ContractError::InvalidDenomRegistrationAmount { requested: 1 });
    }
    let mut messages: Vec<Action> = Vec::new();
    messages.push(Action::AddNativeTokenDecimals {
        pool_factory: config.dojoswap_factory.clone(),
        denom: rec.main_token.denom.clone(),
        decimals: TOKEN_DECIMALS,
        funds: Coin { denom: rec.main_token.denom.clone(), amount: 1 },
    });
    proof {
        assert(messages@ =~= seq![Action::AddNativeTokenDecimals {
            pool_factory: config.dojoswap_factory,
            denom: rec.main_token.denom,
            decimals: TOKEN_DECIMALS,
            funds: Coin { denom: rec.main_token.denom, amount: 1 },
        }]);
    }
    Ok(messages)
}

/// The record of one curve.
pub fn qy_flambe(registry: &Registry, filter: &FlambeFilter) -> (r: Result<FlambeBaseInfo, ContractError>)
    ensures
        r matches Ok(rec) ==> registry@.contains(rec) && match filter {
            FlambeFilter::ByTokenDenom(d) => rec.main_token.denom@ == d@,
            FlambeFilter::ByFlambeAddr(a) => rec.flambe_address@ == a@,
        },
        r is Err ==> r == Err::<FlambeBaseInfo, ContractError>(ContractError::FlambeNotFound) && match filter {
            FlambeFilter::ByTokenDenom(d) => !crate::registry::has_denom(registry@, d@),
            FlambeFilter::ByFlambeAddr(a) => !has_address(registry@, a@),
        },
{
    registry.load(filter)
}

/// A page of curve records.
pub fn qy_flambes(registry: &Registry, limit: Option<u32>, filter: &FlambesFilter) -> (r: Vec<FlambeBaseInfo>)
    requires
        registry.wf(),
    ensures
        is_page(registry@, *filter, limit, r@),
{
    registry.page(filter, limit)
}

} // verus!
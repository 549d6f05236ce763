//! Values shared by the curve and the factory: tokens, settings, statuses,
//! errors, and the messages an operation asks the host to dispatch.
use crate::math::Decimal18;
use vstd::prelude::*;

verus! {

/// The number of decimals of every token a curve issues.
pub const TOKEN_DECIMALS: u8 = 6;

/// An amount of one denomination.
#[derive(Debug, PartialEq, Eq)]
pub struct Coin {
    pub denom: String,
    pub amount: u128,
}

impl Coin {
    pub fn new(amount: u128, denom: &String) -> (r: Coin)
        ensures
            r.amount == amount,
            r.denom == *denom,
    {
        Coin { denom: denom.clone(), amount }
    }
}

/// The lifecycle of a curve. It only moves forward: `OPEN`, then `PENDING`
/// once the paired balance reaches the threshold, then `CLOSED` once the
/// reserves have been migrated.
#[allow(non_camel_case_types)]
#[derive(Clone, Copy, Debug, PartialEq, Eq, Structural)]
pub enum FlambeStatus {
    OPEN,
    PENDING,
    CLOSED,
}

/// The name of a status, as it is stored and shown.
pub open spec fn status_name(s: FlambeStatus) -> Seq<char> {
    match s {
        FlambeStatus::OPEN => "OPEN"@,
        FlambeStatus::PENDING => "PENDING"@,
        FlambeStatus::CLOSED => "CLOSED"@,
    }
}

/// The position of a status in the lifecycle.
pub open spec fn status_rank(s: FlambeStatus) -> int {
    match s {
        FlambeStatus::OPEN => 0,
        FlambeStatus::PENDING => 1,
        FlambeStatus::CLOSED => 2,
    }
}

impl FlambeStatus {
    pub fn to_string(&self) -> (r: String)
        ensures
            r@ == status_name(*self),
    {
        match self {
            FlambeStatus::OPEN => String::from_str("OPEN"),
            FlambeStatus::PENDING => String::from_str("PENDING"),
            FlambeStatus::CLOSED => String::from_str("CLOSED"),
        }
    }
}

/// The tick range of the concentrated-liquidity position a migrated curve
/// opens.
#[derive(Clone, Copy, Debug, PartialEq, Eq, Structural)]
pub struct PoolCreationInfo {
    pub lower_tick: i64,
    pub upper_tick: i64,
}

/// A preset that a curve is created from.
#[derive(Debug, PartialEq, Eq)]
pub struct FlambeSetting {
    pub pair_denom: String,
    pub pair_decimals: u8,
    pub threshold: u128,
    pub initial_price: Decimal18,
    pub initial_supply: u128,
    pub pool_creation_info: PoolCreationInfo,
}

impl FlambeSetting {
    pub fn copy(&self) -> (r: FlambeSetting)
        ensures
            r == *self,
    {
        FlambeSetting {
            pair_denom: self.pair_denom.clone(),
            pair_decimals: self.pair_decimals,
            threshold: self.threshold,
            initial_price: self.initial_price,
            initial_supply: self.initial_supply,
            pool_creation_info: self.pool_creation_info,
        }
    }
}

/// The metadata of a token issued by the factory.
#[derive(Debug, PartialEq, Eq)]
pub struct ProtocolTokenInfo {
    pub denom: String,
    pub description: String,
    pub name: String,
    pub total_supply: u128,
    pub symbol: String,
    pub uri: String,
    pub uri_hash: String,
}

impl ProtocolTokenInfo {
    pub fn copy(&self) -> (r: ProtocolTokenInfo)
        ensures
            r == *self,
    {
        ProtocolTokenInfo {
            denom: self.denom.clone(),
            description: self.description.clone(),
            name: self.name.clone(),
            total_supply: self.total_supply,
            symbol: self.symbol.clone(),
            uri: self.uri.clone(),
            uri_hash: self.uri_hash.clone(),
        }
    }
}

/// The metadata a creator gives for a new curve's token.
#[derive(Debug, PartialEq, Eq)]
pub struct CreateFactoryInput {
    pub description: String,
    pub name: String,
    pub symbol: String,
    pub uri: String,
    pub uri_hash: String,
}

impl CreateFactoryInput {
    /// The token's full metadata once its denomination and supply are known.
    pub fn to_protocol_token(self, denom: String, total_supply: u128) -> (r: ProtocolTokenInfo)
        ensures
            r == (ProtocolTokenInfo {
                denom,
                description: self.description,
                name: self.name,
                total_supply,
                symbol: self.symbol,
                uri: self.uri,
                uri_hash: self.uri_hash,
            }),
    {
        ProtocolTokenInfo {
            description: self.description,
            name: self.name,
            total_supply,
            symbol: self.symbol,
            uri: self.uri,
            uri_hash: self.uri_hash,
            denom,
        }
    }
}

/// The metadata of one of the factory's own reward tokens, before its
/// denomination is known.
#[derive(Debug, PartialEq, Eq)]
pub struct ProtocolTokensInfoCreation {
    pub description: String,
    pub name: String,
    pub total_supply: u128,
    pub symbol: String,
    pub uri: String,
    pub uri_hash: String,
}

impl ProtocolTokensInfoCreation {
    pub fn finalize(self, denom: String) -> (r: ProtocolTokenInfo)
        ensures
            r == (ProtocolTokenInfo {
                denom,
                description: self.description,
                name: self.name,
                total_supply: self.total_supply,
                symbol: self.symbol,
                uri: self.uri,
                uri_hash: self.uri_hash,
            }),
    {
        ProtocolTokenInfo {
            description: self.description,
            name: self.name,
            total_supply: self.total_supply,
            symbol: self.symbol,
            uri: self.uri,
            uri_hash: self.uri_hash,
            denom,
        }
    }
}

/// The parameters of a CW20 token.
#[derive(Debug, PartialEq, Eq)]
pub struct Cw20Msg {
    pub name: String,
    pub symbol: String,
    pub decimals: u8,
}

/// The message a contract is migrated with; it carries nothing.
#[derive(Clone, Copy, Debug, PartialEq, Eq, Structural)]
pub struct MigrateMsg {}

/// What went wrong.
#[derive(Debug, PartialEq, Eq)]
pub enum ContractError {
    /// The caller may not perform this operation.
    Unauthorized,
    /// The trade returns less than the caller's minimum.
    SlippageError,
    /// The curve no longer trades.
    PumpClosed,
    /// The curve is not waiting for its migration.
    NotPending,
    /// A swap fee of one or more.
    InvalidFee,
    /// A coin of neither side of the curve.
    InvalidDenom,
    /// The funds sent are not exactly one coin of the expected denomination.
    InvalidFunds,
    /// An overflow, an underflow or a division by zero in the curve's arithmetic.
    Arithmetic,
    /// A factory setting that breaks the configuration's rules.
    InvalidConfig,
    /// A coin of neither the curve's token nor its paired asset.
    InvalidFlambeDenom,
    /// The curve is not in the status the operation requires.
    InvalidFlambeStatus,
    /// No preset at this index.
    InvalidFlambeSettingIndex { index: u8 },
    /// A configuration update that changes nothing.
    InvalidEmptyUpdate,
    /// The amount sent to register a denomination is not one unit.
    InvalidDenomRegistrationAmount { requested: u128 },
    /// A reply for a step this contract never asked for.
    InvalidReplyId(u64),
    /// No curve is registered under this denomination or address.
    FlambeNotFound,
    /// A curve is already registered under this denomination or address.
    FlambeAlreadyExists,
    /// The external call failed or its reply carries no readable data.
    ReplyError,
}

/// The calls a curve makes on itself.
#[derive(Clone, Copy, Debug, PartialEq, Eq, Structural)]
pub enum CurveCall {
    CheckToPending,
    PrivateBurnLps,
    Deploy,
}

/// The calls a curve makes on its factory.
#[derive(Clone, Copy, Debug, PartialEq, Eq, Structural)]
pub enum FactoryCall {
    UpdateFlambeStatus { status: FlambeStatus },
    UpdateFlambeLiquidity,
    RegisterDenomOnDojo,
}

/// A message for the host to dispatch once the operation commits.
#[allow(inconsistent_fields)]
#[derive(Debug, PartialEq, Eq)]
pub enum Action {
    /// Send a coin from this contract.
    BankSend { to: String, coin: Coin },
    /// Call a curve contract.
    ExecuteCurve { contract: String, msg: CurveCall, funds: Option<Coin> },
    /// Forward a trade to a curve contract on behalf of `user`.
    CurveSwap { contract: String, min_amount_out: u128, user: String, funds: Coin },
    /// Call the factory contract.
    ExecuteFactory { contract: String, msg: FactoryCall, funds: Option<Coin> },
    /// Ask the pool factory to create a pool seeded with both coins; its reply
    /// carries `reply_id`.
    CreatePair { pool_factory: String, main: Coin, pair: Coin, reply_id: u64 },
    /// Register a denomination's decimals with the pool factory.
    AddNativeTokenDecimals { pool_factory: String, denom: String, decimals: u8, funds: Coin },
    /// Open a concentrated-liquidity position; its reply carries `reply_id`.
    CreatePosition {
        pool_id: u64,
        sender: String,
        lower_tick: i64,
        upper_tick: i64,
        main: Coin,
        pair: Coin,
        reply_id: u64,
    },
    /// Create a token-factory denomination.
    CreateDenom { sender: String, subdenom: String, name: String, symbol: String },
    /// Mint a coin to the sender.
    Mint { sender: String, coin: Coin },
    /// Set a denomination's bank metadata.
    SetDenomMetadata { sender: String, token: ProtocolTokenInfo, exponent: u8 },
    /// Hand a denomination's admin rights to `new_admin`.
    ChangeAdmin { sender: String, denom: String, new_admin: String },
    /// Instantiate a curve contract at the address derived from `salt`.
    InstantiateCurve { admin: String, code_id: u64, salt: u64, init: CurveInit, funds: Coin },
}

/// What a new curve contract is instantiated with.
#[derive(Debug, PartialEq, Eq)]
pub struct CurveInit {
    pub burner_addr: String,
    pub creator: String,
    pub factory: String,
    pub fee_collector: String,
    pub flambe_setting: FlambeSetting,
    pub owner: String,
    pub swap_fee: Decimal18,
}

/// The denomination a token factory gives `subdenom` created by `creator`.
pub open spec fn factory_denom(creator: Seq<char>, subdenom: Seq<char>) -> Seq<char> {
    "factory/"@ + creator + "/"@ + subdenom
}

pub fn derive_denom_from_subdenom(creator: &String, subdenom: &String) -> (r: String)
    ensures
        r@ == factory_denom(creator@, subdenom@),
{
    let mut denom = String::from_str("factory/");
    denom.append(creator.as_str());
    denom.append("/");
    denom.append(subdenom.as_str());
    denom
}

/// Exactly one coin, of `denom` when one is given.
pub fn only_one_coin(funds: Vec<Coin>, denom: Option<&String>) -> (r: Result<Coin, ContractError>)
    ensures
        funds.len() != 1 ==> r == Err::<Coin, ContractError>(ContractError::InvalidFunds),
        funds.len() == 1 ==> match denom {
            Some(d) => if funds[0].denom@ == d@ {
                r == Ok::<Coin, ContractError>(funds[0])
            } else {
                r == Err::<Coin, ContractError>(ContractError::InvalidFunds)
            },
            None => r == Ok::<Coin, ContractError>(funds[0]),
        },
{
    let mut funds = funds;
    if funds.len() != 1 {
        return Err(ContractError::InvalidFunds);
    }
    let coin = funds.pop().unwrap();
    match denom {
        Some(d) => {
            if coin.denom == *d {
                Ok(coin)
            } else {
                Err(ContractError::InvalidFunds)
            }
        },
        None => Ok(coin),
    }
}

} // verus!

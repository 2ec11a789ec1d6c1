//! The messages the engine is driven by, and the answers to its queries.

use crate::config::ParamInfo;
use crate::error::StdError;
use crate::order::Token;
use crate::state::{Config, Currency, Decimal, MatchmakingItemExport, TokenStatus, WagerExport};
use vstd::prelude::*;

verus! {

/// What the engine is set up with.
#[derive(Debug, PartialEq, Eq)]
pub struct InstantiateMsg {
    pub max_currencies: u8,
    pub amounts: Vec<u128>,
    pub expiries: Vec<u64>,
    pub fee_bps: u64,
    pub fairburn_bps: u64,
    pub fee_address: String,
    pub collection_address: String,
    pub matchmaking_expiry: u64,
}

/// The calls that change the state.
#[derive(Debug, PartialEq, Eq)]
pub enum ExecuteMsg {
    /// For the administrator: change the configuration.
    UpdateConfig { params: ParamInfo },
    /// For the administrator: settle a wager that has run out, given the
    /// price of each side's currency when the wager began and now. The
    /// prices are in the order of the key's tokens.
    SetWinner {
        wager_key: (Token, Token),
        prev_prices: (Decimal, Decimal),
        current_prices: (Decimal, Decimal),
    },
    /// For the owner of `token`: offer a wager. The stake is the payment sent along.
    Wager { token: Token, currency: Currency, against_currencies: Vec<Currency>, expiry: u64 },
    /// For the owner of `token`: withdraw its pending offer.
    Cancel { token: Token },
}

/// The queries.
#[derive(Debug, PartialEq, Eq)]
pub enum QueryMsg {
    Wagers {},
    Wager { token: Token },
    Matchmaking {},
    TokenStatus { token: Token },
    Config {},
}

/// All active wagers.
#[derive(Debug, PartialEq, Eq)]
pub struct WagersResponse {
    pub wagers: Vec<WagerExport>,
}

/// The wager that a token is in.
#[derive(Debug, PartialEq, Eq)]
pub struct WagerResponse {
    pub wager: WagerExport,
}

/// All pending offers.
#[derive(Debug, PartialEq, Eq)]
pub struct MatchmakingResponse {
    pub matchmaking: Vec<MatchmakingItemExport>,
}

/// What a token is doing.
#[derive(Debug, PartialEq, Eq)]
pub struct TokenStatusResponse {
    pub token_status: TokenStatus,
}

/// The configuration.
#[derive(Debug, PartialEq, Eq)]
pub struct ConfigResponse {
    pub config: Config,
}

/// The answer to a query, whichever it was.
#[derive(Debug, PartialEq, Eq)]
pub enum QueryResponse {
    Wagers(WagersResponse),
    Wager(WagerResponse),
    Matchmaking(MatchmakingResponse),
    TokenStatus(TokenStatusResponse),
    Config(ConfigResponse),
}

/// What the host's collaborators answered about the message at hand. The host
/// asks them before it calls the engine, and the engine looks at an answer
/// only once it has come to need it.
#[derive(Debug, PartialEq, Eq)]
pub struct Answers {
    /// The owner of the message's token or, for a wager key, of its first token.
    pub owner: Result<String, StdError>,
    /// The owner of the second token of a wager key.
    pub second_owner: Result<String, StdError>,
    /// The fee address that the message supplies, once validated.
    pub fee_address: Result<String, StdError>,
    /// The collection address that the message supplies, once validated.
    pub collection_address: Result<String, StdError>,
}

} // verus!

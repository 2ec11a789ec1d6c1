//! The engine's data: currencies, tokens, pending offers, wagers, the
//! configuration, and what each of them is in contracts.

use crate::host::{decimal_percent, timestamp_plus_seconds};
use crate::order::{TokenView, WagerKey};
use vstd::prelude::*;

verus! {

/// The currencies a token can be wagered on.
#[derive(Clone, Copy, Debug, PartialEq, Eq, Structural)]
pub enum Currency {
    Dot,
    Avax,
    Uni,
    Atom,
    Link,
    Near,
    Icp,
    Sand,
    Btc,
    Eth,
    Bnb,
    Xrp,
    Ada,
    Doge,
    Sol,
    Mana,
    Cake,
    Ar,
    Osmo,
    Rune,
    Luna,
    Ustc,
    Stars,
    Mir,
}

/// Nanoseconds in one second.
pub const NANOS_PER_SECOND: u64 = 1_000_000_000;

/// The atomic units that make up the decimal 1.0.
pub const DECIMAL_FRACTIONAL: u128 = 1_000_000_000_000_000_000;

/// The denomination in which stakes are paid.
pub const NATIVE_DENOM: &'static str = "ustars";

/// A point in time, in nanoseconds since the epoch.
#[derive(Clone, Copy, Debug, PartialEq, Eq, Structural)]
pub struct Timestamp {
    pub nanos: u64,
}

/// A fixed-point number with 18 decimal places, held as its atomic units.
#[derive(Clone, Copy, Debug, PartialEq, Eq, Structural)]
pub struct Decimal {
    pub atomics: u128,
}

/// An amount of one denomination.
#[derive(Debug, PartialEq, Eq)]
pub struct Coin {
    pub denom: String,
    pub amount: u128,
}

/// What a `Coin` is in contracts.
pub struct CoinView {
    pub denom: Seq<char>,
    pub amount: u128,
}

impl View for Coin {
    type V = CoinView;

    open spec fn view(&self) -> CoinView {
        CoinView { denom: self.denom@, amount: self.amount }
    }
}

/// What a list of coins is in contracts.
pub open spec fn coins_view(coins: Seq<Coin>) -> Seq<CoinView> {
    Seq::new(coins.len(), |i: int| coins[i]@)
}

/// Who sent a message, and the funds sent with it.
#[derive(Debug, PartialEq, Eq)]
pub struct MessageInfo {
    pub sender: String,
    pub funds: Vec<Coin>,
}

/// The block a message is executed in.
#[derive(Clone, Copy, Debug, PartialEq, Eq, Structural)]
pub struct BlockInfo {
    pub time: Timestamp,
}

/// The circumstances of one call: the host supplies the time, the engine reads no clock.
#[derive(Clone, Copy, Debug, PartialEq, Eq, Structural)]
pub struct Env {
    pub block: BlockInfo,
}

/// An active wager between two tokens. Each side has paid `amount`.
#[derive(Debug, PartialEq, Eq)]
pub struct Wager {
    pub id: WagerKey,
    pub currencies: (Currency, Currency),
    pub amount: u128,
    pub expires_at: Timestamp,
}

/// What a wager is in contracts, stored or shown.
pub struct WagerView {
    pub id: (TokenView, TokenView),
    pub currencies: (Currency, Currency),
    pub amount: u128,
    pub expires_at: Timestamp,
}

impl View for Wager {
    type V = WagerView;

    open spec fn view(&self) -> WagerView {
        WagerView {
            id: (self.id.0@, self.id.1@),
            currencies: self.currencies,
            amount: self.amount,
            expires_at: self.expires_at,
        }
    }
}

/// A token as it is shown to callers.
#[derive(Debug, PartialEq, Eq)]
pub struct NFT {
    pub collection: String,
    pub token_id: u64,
}

impl View for NFT {
    type V = TokenView;

    open spec fn view(&self) -> TokenView {
        (self.collection@, self.token_id)
    }
}

/// One side of a wager as it is shown to callers.
#[derive(Debug, PartialEq, Eq)]
pub struct WagerInfo {
    pub token: NFT,
    pub currency: Currency,
}

/// A wager as it is shown to callers.
#[derive(Debug, PartialEq, Eq)]
pub struct WagerExport {
    pub amount: u128,
    pub expires_at: Timestamp,
    pub wagers: (WagerInfo, WagerInfo),
}

impl View for WagerExport {
    type V = WagerView;

    open spec fn view(&self) -> WagerView {
        WagerView {
            id: (self.wagers.0.token@, self.wagers.1.token@),
            currencies: (self.wagers.0.currency, self.wagers.1.currency),
            amount: self.amount,
            expires_at: self.expires_at,
        }
    }
}

/// A pending offer: the currency its token backs, the currencies it accepts
/// on the other side, and the stake and the length of the wager it asks for.
#[derive(Debug, PartialEq, Eq)]
pub struct MatchmakingItem {
    pub currency: Currency,
    pub against_currencies: Vec<Currency>,
    /// When the offer itself lapses.
    pub expires_at: Timestamp,
    /// The length of the wager, in seconds.
    pub expiry: u64,
    pub amount: u128,
}

/// What a pending offer is in contracts.
pub struct MatchmakingItemView {
    pub currency: Currency,
    pub against_currencies: Seq<Currency>,
    pub expires_at: Timestamp,
    pub expiry: u64,
    pub amount: u128,
}

impl View for MatchmakingItem {
    type V = MatchmakingItemView;

    open spec fn view(&self) -> MatchmakingItemView {
        MatchmakingItemView {
            currency: self.currency,
            against_currencies: self.against_currencies@,
            expires_at: self.expires_at,
            expiry: self.expiry,
            amount: self.amount,
        }
    }
}

/// A pending offer with its token: an entry of the matchmaking registry.
pub type EntryView = (TokenView, MatchmakingItemView);

/// A pending offer as it is shown to callers.
#[derive(Debug, PartialEq, Eq)]
pub struct MatchmakingItemExport {
    pub token: NFT,
    pub currency: Currency,
    pub against_currencies: Vec<Currency>,
    pub expires_at: Timestamp,
    pub expiry: u64,
    pub amount: u128,
}

impl View for MatchmakingItemExport {
    type V = EntryView;

    open spec fn view(&self) -> EntryView {
        (
            self.token@,
            MatchmakingItemView {
                currency: self.currency,
                against_currencies: self.against_currencies@,
                expires_at: self.expires_at,
                expiry: self.expiry,
                amount: self.amount,
            },
        )
    }
}

/// What a token is doing: waiting for a match, inside a wager, or nothing.
#[derive(Debug, PartialEq, Eq)]
pub enum TokenStatus {
    Matchmaking(MatchmakingItemExport),
    Wager(WagerExport),
    Idle,
}

/// What a `TokenStatus` is in contracts.
pub enum TokenStatusView {
    Matchmaking(EntryView),
    Wager(WagerView),
    Idle,
}

impl View for TokenStatus {
    type V = TokenStatusView;

    open spec fn view(&self) -> TokenStatusView {
        match self {
            TokenStatus::Matchmaking(item) => TokenStatusView::Matchmaking(item@),
            TokenStatus::Wager(wager) => TokenStatusView::Wager(wager@),
            TokenStatus::Idle => TokenStatusView::Idle,
        }
    }
}

/// The tunable parameters.
#[derive(Debug, PartialEq, Eq)]
pub struct Config {
    /// How many currencies an offer may accept on the other side.
    pub max_currencies: u8,
    /// The stakes that may be wagered.
    pub amounts: Vec<u128>,
    /// The wager lengths, in seconds, that may be asked for.
    pub expiries: Vec<u64>,
    /// The percentage of the pool that goes to the fee collector.
    pub fee_percent: Decimal,
    /// The percentage of the pool that is burned.
    pub fairburn_percent: Decimal,
    /// The address that receives the fee, and that administers the engine.
    pub fee_address: String,
    /// The address of the collection whose tokens may be wagered.
    pub collection_address: String,
    /// Seconds before a pending offer lapses.
    pub matchmaking_expiry: u64,
}

/// What a `Config` is in contracts.
pub struct ConfigView {
    pub max_currencies: u8,
    pub amounts: Seq<u128>,
    pub expiries: Seq<u64>,
    pub fee_percent: Decimal,
    pub fairburn_percent: Decimal,
    pub fee_address: Seq<char>,
    pub collection_address: Seq<char>,
    pub matchmaking_expiry: u64,
}

impl View for Config {
    type V = ConfigView;

    open spec fn view(&self) -> ConfigView {
        ConfigView {
            max_currencies: self.max_currencies,
            amounts: self.amounts@,
            expiries: self.expiries@,
            fee_percent: self.fee_percent,
            fairburn_percent: self.fairburn_percent,
            fee_address: self.fee_address@,
            collection_address: self.collection_address@,
            matchmaking_expiry: self.matchmaking_expiry,
        }
    }
}

impl ConfigView {
    /// What holds of every configuration the engine is run with: at least
    /// one accepted currency is allowed, there is a stake and a length to
    /// choose, and an offer waits for at least a minute.
    pub open spec fn valid(self) -> bool {
        &&& self.max_currencies >= 1
        &&& self.amounts.len() > 0
        &&& self.expiries.len() > 0
        &&& self.matchmaking_expiry >= 60
    }
}

impl Config {
    /// Whether the engine can be run with this configuration.
    pub fn is_valid(&self) -> (valid: bool)
        ensures
            valid == self@.valid(),
    {
        self.max_currencies >= 1 && self.amounts.len() > 0 && self.expiries.len() > 0
            && self.matchmaking_expiry >= 60
    }
}

impl Decimal {
    /// The decimal `x / 100`.
    pub fn percent(x: u64) -> (d: Decimal)
        ensures
            d.atomics == x * 10_000_000_000_000_000,
    {
        decimal_percent(x)
    }

    /// The decimal 1.0.
    pub fn one() -> (d: Decimal)
        ensures
            d.atomics == DECIMAL_FRACTIONAL,
    {
        Decimal { atomics: DECIMAL_FRACTIONAL }
    }

    /// The atomic units of the decimal: its value times ten to the eighteenth.
    pub fn atomics(&self) -> (atomics: u128)
        ensures
            atomics == self.atomics,
    {
        self.atomics
    }
}

impl Timestamp {
    /// The time `addition` seconds after this one.
    pub open spec fn plus_seconds_spec(self, addition: u64) -> Timestamp {
        Timestamp { nanos: (self.nanos + addition * NANOS_PER_SECOND) as u64 }
    }

    /// Whether the time `addition` seconds after this one can be represented.
    pub open spec fn can_add_seconds(self, addition: u64) -> bool {
        self.nanos + addition * NANOS_PER_SECOND <= u64::MAX
    }

    /// The time `nanos_since_epoch` nanoseconds after the epoch.
    pub fn from_nanos(nanos_since_epoch: u64) -> (t: Timestamp)
        ensures
            t.nanos == nanos_since_epoch,
    {
        Timestamp { nanos: nanos_since_epoch }
    }

    /// The time `seconds_since_epoch` seconds after the epoch.
    pub fn from_seconds(seconds_since_epoch: u64) -> (t: Timestamp)
        requires
            seconds_since_epoch * NANOS_PER_SECOND <= u64::MAX,
        ensures
            t.nanos == seconds_since_epoch * NANOS_PER_SECOND,
    {
        Timestamp { nanos: seconds_since_epoch * NANOS_PER_SECOND }
    }

    /// Whether the time `addition` seconds after this one can be represented.
    pub fn fits_seconds(&self, addition: u64) -> (fits: bool)
        ensures
            fits == self.can_add_seconds(addition),
    {
        match addition.checked_mul(NANOS_PER_SECOND) {
            Some(nanos) => self.nanos.checked_add(nanos).is_some(),
            None => false,
        }
    }

    /// The time `addition` seconds after this one.
    pub fn plus_seconds(&self, addition: u64) -> (t: Timestamp)
        requires
            self.can_add_seconds(addition),
        ensures
            t == self.plus_seconds_spec(addition),
    {
        timestamp_plus_seconds(*self, addition)
    }

    /// Nanoseconds since the epoch.
    pub fn nanos(&self) -> (n: u64)
        ensures
            n == self.nanos,
    {
        self.nanos
    }

    /// Whole seconds since the epoch.
    pub fn seconds(&self) -> (s: u64)
        ensures
            s == self.nanos / NANOS_PER_SECOND,
    {
        self.nanos / NANOS_PER_SECOND
    }
}

/// Whether `x` occurs in `v`.
pub fn contains_currency(v: &Vec<Currency>, x: Currency) -> (r: bool)
    ensures
        r == v@.contains(x),
{
    let mut i: usize = 0;
    while i < v.len()
        invariant
            i <= v.len(),
            forall|j: int| 0 <= j < i ==> v@[j] != x,
        decreases v.len() - i,
    {
        if v[i] == x {
            return true;
        }
        i += 1;
    }
    false
}

/// Whether `x` occurs in `v`.
pub fn contains_amount(v: &Vec<u128>, x: u128) -> (r: bool)
    ensures
        r == v@.contains(x),
{
    let mut i: usize = 0;
    while i < v.len()
        invariant
            i <= v.len(),
            forall|j: int| 0 <= j < i ==> v@[j] != x,
        decreases v.len() - i,
    {
        if v[i] == x {
            return true;
        }
        i += 1;
    }
    false
}

/// Whether `x` occurs in `v`.
pub fn contains_expiry(v: &Vec<u64>, x: u64) -> (r: bool)
    ensures
        r == v@.contains(x),
{
    let mut i: usize = 0;
    while i < v.len()
        invariant
            i <= v.len(),
            forall|j: int| 0 <= j < i ==> v@[j] != x,
        decreases v.len() - i,
    {
        if v[i] == x {
            return true;
        }
        i += 1;
    }
    false
}

/// A copy of a list.
pub fn clone_list<T: Copy>(v: &Vec<T>) -> (r: Vec<T>)
    ensures
        r@ == v@,
{
    let mut r: Vec<T> = Vec::new();
    let mut i: usize = 0;
    while i < v.len()
        invariant
            i <= v.len(),
            r@ == v@.take(i as int),
        decreases v.len() - i,
    {
        r.push(v[i]);
        i += 1;
    }
    r
}

} // verus!

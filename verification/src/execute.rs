//! The three operations on wagers: offering one, withdrawing an offer, and
//! settling a wager that has run out.

use crate::contract::query_token_status;
use crate::error::{invalid_parameter, not_found, ContractError, ErrorView, StdError, StdErrorView};
use crate::helpers::{coin, same_text, send_spec, send_tokens, SubMsg};
use crate::host::{checked_mul_decimal, decimal_checked_div, mul_decimal, must_pay, must_pay_spec};
use crate::model::{
    burn_of, change_ratio_defined, fee_of, lemma_after_match, payout_of, split_defined, verdict,
    Offer, StoreView, Verdict,
};
use crate::order::{clone_token, rank_tokens, Rank, Token, TokenView};
use crate::response::{FairBurn, FairBurnView, Response, ResponseView};
use crate::state::{
    coins_view, contains_amount, contains_currency, contains_expiry, CoinView, Config, Currency,
    Decimal, Env, MatchmakingItem, MessageInfo, Timestamp, TokenStatus, Wager, NATIVE_DENOM,
};
use crate::store::Store;
use vstd::prelude::*;

verus! {

/// What a collaborator's answer is in contracts.
pub open spec fn answer_view(answer: Result<String, StdError>) -> Result<Seq<char>, StdErrorView> {
    match answer {
        Ok(address) => Ok(address@),
        Err(e) => Err(e@),
    }
}

/// What the result of a call is in contracts.
pub open spec fn result_view(r: Result<Response, ContractError>) -> Result<
    ResponseView,
    ErrorView,
> {
    match r {
        Ok(response) => Ok(response@),
        Err(e) => Err(e@),
    }
}

/// The offer that a message makes: its stake is the payment sent along.
pub open spec fn wager_offer(
    funds: Seq<CoinView>,
    currency: Currency,
    against_currencies: Seq<Currency>,
    expiry: u64,
) -> Offer {
    Offer {
        currency,
        against_currencies,
        expiry,
        amount: must_pay_spec(funds, NATIVE_DENOM@)->Ok_0,
    }
}

/// Why an offer is refused, if it is. The conditions are tried in this order: the
/// payment, the token's collection, the number of accepted currencies, that
/// they leave out the offer's own currency, the length, the stake, the
/// owner's answer, that the sender is the owner, and that the token is idle.
pub open spec fn wager_rejection(
    s: StoreView,
    sender: Seq<char>,
    funds: Seq<CoinView>,
    token: TokenView,
    currency: Currency,
    against_currencies: Seq<Currency>,
    expiry: u64,
    owner: Result<Seq<char>, StdErrorView>,
) -> Option<ErrorView> {
    let paid = must_pay_spec(funds, NATIVE_DENOM@);
    if paid is Err {
        Some(ErrorView::Payment(paid->Err_0))
    } else if token.0 != s.config.collection_address {
        Some(ErrorView::Unauthorized)
    } else if against_currencies.len() > s.config.max_currencies {
        Some(ErrorView::InvalidParameter { param: "against_currencies"@ })
    } else if against_currencies.contains(currency) {
        Some(ErrorView::InvalidParameter { param: "against_currencies"@ })
    } else if !s.config.expiries.contains(expiry) {
        Some(ErrorView::InvalidParameter { param: "expiry"@ })
    } else if !s.config.amounts.contains(paid->Ok_0) {
        Some(ErrorView::InvalidParameter { param: "amount"@ })
    } else if owner is Err {
        Some(ErrorView::Std(owner->Err_0))
    } else if sender != owner->Ok_0 {
        Some(ErrorView::Unauthorized)
    } else if !(s.status(token) is Idle) {
        Some(ErrorView::AlreadyWagered)
    } else {
        None
    }
}

/// The seconds that are added to the time of an accepted offer: the length of
/// the wager where the offer is paired, the time an offer waits where it is not.
pub open spec fn wager_timer(s: StoreView, offer: Offer, now: Timestamp) -> u64 {
    if s.match_index(offer, now) < s.matchmaking.len() {
        offer.expiry
    } else {
        s.config.matchmaking_expiry
    }
}

/// What an accepted offer hands back.
pub open spec fn wager_response(
    s: StoreView,
    token: TokenView,
    offer: Offer,
    now: Timestamp,
) -> ResponseView {
    if s.match_index(offer, now) < s.matchmaking.len() {
        ResponseView::Wager { token, expires_at: now.plus_seconds_spec(offer.expiry) }
    } else {
        ResponseView::Matchmake {
            token,
            expires_at: now.plus_seconds_spec(s.config.matchmaking_expiry),
        }
    }
}

/// What an offer does: refused, it leaves the state as it is; accepted, it is
/// placed.
pub open spec fn wager_outcome(
    s: StoreView,
    now: Timestamp,
    sender: Seq<char>,
    funds: Seq<CoinView>,
    token: TokenView,
    currency: Currency,
    against_currencies: Seq<Currency>,
    expiry: u64,
    owner: Result<Seq<char>, StdErrorView>,
) -> (StoreView, Result<ResponseView, ErrorView>) {
    let offer = wager_offer(funds, currency, against_currencies, expiry);
    match wager_rejection(s, sender, funds, token, currency, against_currencies, expiry, owner) {
        Some(e) => (s, Err(e)),
        None => (s.place(token, offer, now), Ok(wager_response(s, token, offer, now))),
    }
}

/// Whether the expiry that an offer sets, where it is accepted, can be
/// represented.
pub open spec fn wager_defined(
    s: StoreView,
    now: Timestamp,
    sender: Seq<char>,
    funds: Seq<CoinView>,
    token: TokenView,
    currency: Currency,
    against_currencies: Seq<Currency>,
    expiry: u64,
    owner: Result<Seq<char>, StdErrorView>,
) -> bool {
    wager_rejection(s, sender, funds, token, currency, against_currencies, expiry, owner) is None
        ==> now.can_add_seconds(
        wager_timer(s, wager_offer(funds, currency, against_currencies, expiry), now),
    )
}

/// Decides whether an offer is accepted, and with what stake.
fn check_wager(
    store: &Store,
    info: &MessageInfo,
    token: &Token,
    currency: Currency,
    against_currencies: &Vec<Currency>,
    expiry: u64,
    owner: Result<String, StdError>,
) -> (r: Result<u128, ContractError>)
    ensures
        match r {
            Ok(amount) => {
                &&& wager_rejection(
                    store@,
                    info.sender@,
                    coins_view(info.funds@),
                    token@,
                    currency,
                    against_currencies@,
                    expiry,
                    answer_view(owner),
                ) is None
                &&& amount == wager_offer(
                    coins_view(info.funds@),
                    currency,
                    against_currencies@,
                    expiry,
                ).amount
            },
            Err(e) => wager_rejection(
                store@,
                info.sender@,
                coins_view(info.funds@),
                token@,
                currency,
                against_currencies@,
                expiry,
                answer_view(owner),
            ) == Some(e@),
        },
{
    let amount = match must_pay(info, NATIVE_DENOM) {
        Ok(amount) => amount,
        Err(e) => {
            return Err(ContractError::Payment(e));
        },
    };

    // The token must be of the collection that the engine is configured for.
    let config = store.config();
    if !same_text(&token.0, &config.collection_address) {
        return Err(ContractError::Unauthorized {  });
    }
    // The accepted currencies may not be more than the configuration allows.

    if against_currencies.len() > config.max_currencies as usize {
        return Err(invalid_parameter("against_currencies"));
    }
    // The accepted currencies may not hold the currency of the offer itself.

    if contains_currency(against_currencies, currency) {
        return Err(invalid_parameter("against_currencies"));
    }
    // The length and the stake must be among those the configuration allows.

    if !contains_expiry(&config.expiries, expiry) {
        return Err(invalid_parameter("expiry"));
    }
    if !contains_amount(&config.amounts, amount) {
        return Err(invalid_parameter("amount"));
    }
    // The sender must be the owner of the token.

    let token_owner = match owner {
        Ok(token_owner) => token_owner,
        Err(e) => {
            return Err(ContractError::Std(e));
        },
    };
    if !same_text(&info.sender, &token_owner) {
        return Err(ContractError::Unauthorized {  });
    }
    // The token may neither be waiting for a match nor be in a wager.

    let token_status = match query_token_status(store, clone_token(token)) {
        Ok(response) => response.token_status,
        Err(e) => {
            return Err(ContractError::Std(e));
        },
    };
    match token_status {
        TokenStatus::Idle => Ok(amount),
        _ => Err(ContractError::AlreadyWagered {  }),
    }
}

/// The seconds that are added to the time of an accepted offer.
fn timer_of(
    store: &Store,
    currency: Currency,
    against_currencies: &Vec<Currency>,
    expiry: u64,
    amount: u128,
    now: Timestamp,
) -> (seconds: u64)
    ensures
        seconds == wager_timer(
            store@,
            Offer { currency, against_currencies: against_currencies@, expiry, amount },
            now,
        ),
{
    if store.find_match(currency, against_currencies, expiry, amount, now)
        < store.matchmaking_len() {
        expiry
    } else {
        store.config().matchmaking_expiry
    }
}

/// Places an accepted offer: paired with the first compatible pending offer,
/// or queued.
fn place_wager(
    store: &mut Store,
    now: Timestamp,
    token: Token,
    currency: Currency,
    against_currencies: Vec<Currency>,
    expiry: u64,
    amount: u128,
) -> (response: Response)
    requires
        old(store)@.status(token@) is Idle,
        now.can_add_seconds(
            wager_timer(
                old(store)@,
                Offer { currency, against_currencies: against_currencies@, expiry, amount },
                now,
            ),
        ),
    ensures
        final(store)@.wf(),
        final(store)@ == old(store)@.place(
            token@,
            Offer { currency, against_currencies: against_currencies@, expiry, amount },
            now,
        ),
        response@ == wager_response(
            old(store)@,
            token@,
            Offer { currency, against_currencies: against_currencies@, expiry, amount },
            now,
        ),
{
    store.establish_wf();
    let ghost before = store@;
    let found = store.find_match(currency, &against_currencies, expiry, amount, now);
    if found < store.matchmaking_len() {
        proof {
            lemma_after_match(before, token@, found as int);
        }
        let (against_token, item) = store.remove_entry(found);
        let expires_at = now.plus_seconds(expiry);
        let wager = match rank_tokens(&token, &against_token) {
            Rank::Before => Wager {
                id: (clone_token(&token), against_token),
                currencies: (currency, item.currency),
                amount,
                expires_at,
            },
            _ => Wager {
                id: (against_token, clone_token(&token)),
                currencies: (item.currency, currency),
                amount,
                expires_at,
            },
        };
        store.insert_wager(wager);
        store.establish_wf();
        Response::Wager { token, expires_at }
    } else {
        let expires_at = now.plus_seconds(store.config().matchmaking_expiry);
        let matchmaking_item = MatchmakingItem {
            expires_at,
            currency,
            against_currencies,
            expiry,
            amount,
        };
        store.insert_entry(clone_token(&token), matchmaking_item);
        store.establish_wf();
        Response::Matchmake { token, expires_at }
    }
}

/// Offers a wager for `token`, staked with the payment sent along.
///
/// The offer is paired with the first pending offer in scan order that it is
/// compatible with, and the two become a wager that runs for the length asked
/// for, starting now. Where there is none, the offer is queued. `owner` is
/// what the ownership oracle answered for `token`.
///
/// A call is left out only where the offer is accepted and the expiry that it
/// sets cannot be represented; `try_execute_wager` tests for that.
pub fn execute_wager(
    store: &mut Store,
    env: Env,
    info: MessageInfo,
    token: Token,
    currency: Currency,
    against_currencies: Vec<Currency>,
    expiry: u64,
    owner: Result<String, StdError>,
) -> (r: Result<Response, ContractError>)
    requires
        wager_defined(
            old(store)@,
            env.block.time,
            info.sender@,
            coins_view(info.funds@),
            token@,
            currency,
            against_currencies@,
            expiry,
            answer_view(owner),
        ),
    ensures
        final(store)@.wf(),
        (final(store)@, result_view(r)) == wager_outcome(
            old(store)@,
            env.block.time,
            info.sender@,
            coins_view(info.funds@),
            token@,
            currency,
            against_currencies@,
            expiry,
            answer_view(owner),
        ),
{
    store.establish_wf();
    let amount = check_wager(store, &info, &token, currency, &against_currencies, expiry, owner)?;
    Ok(place_wager(store, env.block.time, token, currency, against_currencies, expiry, amount))
}

/// Offers a wager as `execute_wager` does, for every input: where the offer
/// is accepted and the expiry that it sets cannot be represented, nothing is
/// done and nothing is handed back.
pub fn try_execute_wager(
    store: &mut Store,
    env: Env,
    info: MessageInfo,
    token: Token,
    currency: Currency,
    against_currencies: Vec<Currency>,
    expiry: u64,
    owner: Result<String, StdError>,
) -> (r: Option<Result<Response, ContractError>>)
    ensures
        final(store)@.wf(),
        r is Some <==> wager_defined(
            old(store)@,
            env.block.time,
            info.sender@,
            coins_view(info.funds@),
            token@,
            currency,
            against_currencies@,
            expiry,
            answer_view(owner),
        ),
        r is Some ==> (final(store)@, result_view(r->Some_0)) == wager_outcome(
            old(store)@,
            env.block.time,
            info.sender@,
            coins_view(info.funds@),
            token@,
            currency,
            against_currencies@,
            expiry,
            answer_view(owner),
        ),
        r is None ==> final(store)@ == old(store)@,
{
    store.establish_wf();
    let now = env.block.time;
    let amount = match check_wager(
        store,
        &info,
        &token,
        currency,
        &against_currencies,
        expiry,
        owner,
    ) {
        Ok(amount) => amount,
        Err(e) => {
            return Some(Err(e));
        },
    };
    if !now.fits_seconds(timer_of(store, currency, &against_currencies, expiry, amount, now)) {
        return None;
    }
    Some(Ok(place_wager(store, now, token, currency, against_currencies, expiry, amount)))
}

/// Why a withdrawal is refused, if it is. The conditions are tried in this order:
/// the token's collection, the owner's answer, that the sender is the owner,
/// and that the token has a pending offer and is in no wager.
pub open spec fn cancel_rejection(
    s: StoreView,
    sender: Seq<char>,
    token: TokenView,
    owner: Result<Seq<char>, StdErrorView>,
) -> Option<ErrorView> {
    if token.0 != s.config.collection_address {
        Some(ErrorView::Unauthorized)
    } else if owner is Err {
        Some(ErrorView::Std(owner->Err_0))
    } else if sender != owner->Ok_0 {
        Some(ErrorView::Unauthorized)
    } else if !(s.status(token) is Matchmaking) {
        Some(ErrorView::NotMatchmaking)
    } else {
        None
    }
}

/// What a withdrawal does: refused, it leaves the state as it is; accepted,
/// the offer leaves the registry and its stake goes back to the sender.
pub open spec fn cancel_outcome(
    s: StoreView,
    sender: Seq<char>,
    token: TokenView,
    owner: Result<Seq<char>, StdErrorView>,
) -> (StoreView, Result<ResponseView, ErrorView>) {
    match cancel_rejection(s, sender, token, owner) {
        Some(e) => (s, Err(e)),
        None => (
            s.cancel(token),
            Ok(
                ResponseView::Cancel {
                    token,
                    refund: send_spec(
                        sender,
                        s.matchmaking[s.entry_index(token)].1.amount,
                        NATIVE_DENOM@,
                    ),
                },
            ),
        ),
    }
}

/// Withdraws the pending offer of `token` and sends its stake back to the
/// sender, whether or not the offer has lapsed. `owner` is what the
/// ownership oracle answered for `token`.
pub fn execute_cancel(
    store: &mut Store,
    info: MessageInfo,
    token: Token,
    owner: Result<String, StdError>,
) -> (r: Result<Response, ContractError>)
    ensures
        final(store)@.wf(),
        (final(store)@, result_view(r)) == cancel_outcome(
            old(store)@,
            info.sender@,
            token@,
            answer_view(owner),
        ),
{
    store.establish_wf();
    // The token must be of the collection that the engine is configured for.
    if !same_text(&token.0, &store.config().collection_address) {
        return Err(ContractError::Unauthorized {  });
    }
    // The sender must be the owner of the token.

    let token_owner = match owner {
        Ok(token_owner) => token_owner,
        Err(e) => {
            return Err(ContractError::Std(e));
        },
    };
    if !same_text(&info.sender, &token_owner) {
        return Err(ContractError::Unauthorized {  });
    }
    let token_status = match query_token_status(store, clone_token(&token)) {
        Ok(response) => response.token_status,
        Err(e) => {
            return Err(ContractError::Std(e));
        },
    };

    match token_status {
        TokenStatus::Matchmaking(status) => {
            let refund = send_native(info.sender, status.amount)?;
            let found = store.find_entry(&token);
            store.remove_entry(found);
            store.establish_wf();
            Ok(Response::Cancel { token, refund })
        },
        _ => Err(ContractError::NotMatchmaking {  }),
    }
}

/// Whether the pool of a wager of stake `amount` can be split.
pub fn can_split(amount: u128, config: &Config) -> (can: bool)
    ensures
        can == split_defined(amount, config@),
{
    let wager_total = match amount.checked_mul(2) {
        Some(wager_total) => wager_total,
        None => {
            return false;
        },
    };
    let app_fee = match checked_mul_decimal(wager_total, config.fee_percent) {
        Some(product) => product / 100,
        None => {
            return false;
        },
    };
    let fairburn_fee = match checked_mul_decimal(wager_total, config.fairburn_percent) {
        Some(product) => product / 100,
        None => {
            return false;
        },
    };
    match app_fee.checked_add(fairburn_fee) {
        Some(charged) => charged <= wager_total,
        None => false,
    }
}

/// The pool of a wager of stake `amount`, split into what goes to the fee
/// collector, what is burned, and what the winner gets, in this order. The
/// three parts add up to the pool.
pub fn split_pool(amount: u128, config: &Config) -> (parts: (u128, u128, u128))
    requires
        split_defined(amount, config@),
    ensures
        parts.0 == fee_of(amount, config@),
        parts.1 == burn_of(amount, config@),
        parts.2 == payout_of(amount, config@),
        parts.0 + parts.1 + parts.2 == 2 * amount,
{
    let wager_total = amount * 2;
    let app_fee = mul_decimal(wager_total, config.fee_percent) / 100;
    let fairburn_fee = mul_decimal(wager_total, config.fairburn_percent) / 100;
    let winner_amount = wager_total - app_fee - fairburn_fee;
    (app_fee, fairburn_fee, winner_amount)
}

/// Why a settlement is refused, if it is. The conditions are tried in this order:
/// the collections of the key's tokens, that there is a wager between them,
/// that it has run out, that each side's change ratio is a decimal, and the
/// owner's answer for each side that is to be paid.
pub open spec fn set_winner_rejection(
    s: StoreView,
    now: Timestamp,
    key: (TokenView, TokenView),
    prev_prices: (Decimal, Decimal),
    current_prices: (Decimal, Decimal),
    owners: (Result<Seq<char>, StdErrorView>, Result<Seq<char>, StdErrorView>),
) -> Option<ErrorView> {
    if key.0.0 != s.config.collection_address || key.1.0 != s.config.collection_address {
        Some(ErrorView::Unauthorized)
    } else if s.pair_index(key) >= s.wagers.len() {
        Some(ErrorView::Std(StdErrorView::NotFound { kind: "wager"@ }))
    } else if now.nanos < s.wagers[s.pair_index(key)].expires_at.nanos {
        Some(ErrorView::WagerActive)
    } else if !change_ratio_defined(current_prices.0, prev_prices.0) || !change_ratio_defined(
        current_prices.1,
        prev_prices.1,
    ) {
        Some(ErrorView::InvalidParameter { param: "prices"@ })
    } else {
        match verdict(prev_prices, current_prices) {
            Verdict::First => if owners.0 is Err {
                Some(ErrorView::Std(owners.0->Err_0))
            } else {
                None
            },
            Verdict::Second => if owners.1 is Err {
                Some(ErrorView::Std(owners.1->Err_0))
            } else {
                None
            },
            Verdict::Tie => if owners.0 is Err {
                Some(ErrorView::Std(owners.0->Err_0))
            } else if owners.1 is Err {
                Some(ErrorView::Std(owners.1->Err_0))
            } else {
                None
            },
        }
    }
}

/// What a settlement hands back: on a tie each side's stake, to the owner of
/// each token; otherwise the burn, the fee, and the payout to the owner of
/// the winning token.
pub open spec fn set_winner_response(
    s: StoreView,
    key: (TokenView, TokenView),
    prev_prices: (Decimal, Decimal),
    current_prices: (Decimal, Decimal),
    owners: (Result<Seq<char>, StdErrorView>, Result<Seq<char>, StdErrorView>),
) -> ResponseView {
    let amount = s.wagers[s.pair_index(key)].amount;
    let outcome = verdict(prev_prices, current_prices);
    if outcome is Tie {
        ResponseView::Tie {
            first: send_spec(owners.0->Ok_0, amount, NATIVE_DENOM@),
            second: send_spec(owners.1->Ok_0, amount, NATIVE_DENOM@),
        }
    } else {
        let winner = if outcome is First {
            owners.0->Ok_0
        } else {
            owners.1->Ok_0
        };
        ResponseView::SetWinner {
            burn: FairBurnView {
                amount: burn_of(amount, s.config) as u128,
                developer: s.config.fee_address,
            },
            fee: send_spec(s.config.fee_address, fee_of(amount, s.config) as u128, NATIVE_DENOM@),
            payout: send_spec(winner, payout_of(amount, s.config) as u128, NATIVE_DENOM@),
        }
    }
}

/// What a settlement does: refused, it leaves the state as it is; accepted,
/// the wager leaves the ledger and the pool is paid out.
pub open spec fn set_winner_outcome(
    s: StoreView,
    now: Timestamp,
    key: (TokenView, TokenView),
    prev_prices: (Decimal, Decimal),
    current_prices: (Decimal, Decimal),
    owners: (Result<Seq<char>, StdErrorView>, Result<Seq<char>, StdErrorView>),
) -> (StoreView, Result<ResponseView, ErrorView>) {
    match set_winner_rejection(s, now, key, prev_prices, current_prices, owners) {
        Some(e) => (s, Err(e)),
        None => (
            s.settle(key),
            Ok(set_winner_response(s, key, prev_prices, current_prices, owners)),
        ),
    }
}

/// Whether the pool of the wager that a settlement decides, where it is
/// accepted and no tie, can be split.
pub open spec fn set_winner_defined(
    s: StoreView,
    now: Timestamp,
    key: (TokenView, TokenView),
    prev_prices: (Decimal, Decimal),
    current_prices: (Decimal, Decimal),
    owners: (Result<Seq<char>, StdErrorView>, Result<Seq<char>, StdErrorView>),
) -> bool {
    set_winner_rejection(s, now, key, prev_prices, current_prices, owners) is None && !(verdict(
        prev_prices,
        current_prices,
    ) is Tie) ==> split_defined(s.wagers[s.pair_index(key)].amount, s.config)
}

/// An accepted settlement: the wager's index in the ledger, and whom to pay.
enum Settlement {
    Tie { found: usize, first_owner: String, second_owner: String },
    Win { found: usize, owner: String },
}

/// Decides whether a settlement is accepted, and what it is to do.
fn check_set_winner(
    store: &Store,
    env: Env,
    wager_key: &(Token, Token),
    prev_prices: (Decimal, Decimal),
    current_prices: (Decimal, Decimal),
    owners: (Result<String, StdError>, Result<String, StdError>),
) -> (r: Result<Settlement, ContractError>)
    ensures
        match r {
            Ok(settlement) => {
                &&& set_winner_rejection(
                    store@,
                    env.block.time,
                    wager_key@,
                    prev_prices,
                    current_prices,
                    (answer_view(owners.0), answer_view(owners.1)),
                ) is None
                &&& match settlement {
                    Settlement::Tie { found, first_owner, second_owner } => {
                        &&& verdict(prev_prices, current_prices) is Tie
                        &&& found == store@.pair_index(wager_key@)
                        &&& first_owner@ == owners.0->Ok_0@
                        &&& second_owner@ == owners.1->Ok_0@
                    },
                    Settlement::Win { found, owner } => {
                        &&& found == store@.pair_index(wager_key@)
                        &&& match verdict(prev_prices, current_prices) {
                            Verdict::First => owner@ == owners.0->Ok_0@,
                            Verdict::Second => owner@ == owners.1->Ok_0@,
                            Verdict::Tie => false,
                        }
                    },
                }
            },
            Err(e) => set_winner_rejection(
                store@,
                env.block.time,
                wager_key@,
                prev_prices,
                current_prices,
                (answer_view(owners.0), answer_view(owners.1)),
            ) == Some(e@),
        },
{
    // Both tokens must be of the collection that the engine is configured for.
    let collection = &store.config().collection_address;
    if !same_text(&wager_key.0.0, collection) || !same_text(&wager_key.1.0, collection) {
        return Err(ContractError::Unauthorized {  });
    }
    // There must be a wager between the two, and it must have run out.

    let found = store.find_pair(wager_key);
    if found >= store.wagers_len() {
        return Err(ContractError::Std(not_found("wager")));
    }
    if env.block.time.nanos < store.wager(found).expires_at.nanos {
        return Err(ContractError::WagerActive {  });
    }
    // The side whose price changed by the greater ratio wins.

    let (first, second) = match (
        decimal_checked_div(current_prices.0, prev_prices.0),
        decimal_checked_div(current_prices.1, prev_prices.1),
    ) {
        (Some(first), Some(second)) => (first, second),
        _ => {
            return Err(invalid_parameter("prices"));
        },
    };
    let (first_owner, second_owner) = owners;

    if first.atomics == second.atomics {
        let first_owner = match first_owner {
            Ok(owner) => owner,
            Err(e) => {
                return Err(ContractError::Std(e));
            },
        };
        let second_owner = match second_owner {
            Ok(owner) => owner,
            Err(e) => {
                return Err(ContractError::Std(e));
            },
        };
        return Ok(Settlement::Tie { found, first_owner, second_owner });
    }
    let token_owner = if first.atomics > second.atomics {
        first_owner
    } else {
        second_owner
    };
    match token_owner {
        Ok(owner) => Ok(Settlement::Win { found, owner }),
        Err(e) => Err(ContractError::Std(e)),
    }
}

/// Carries out an accepted settlement: the wager leaves the ledger, and the
/// pool is paid out.
fn settle(store: &mut Store, settlement: Settlement) -> (r: Result<Response, ContractError>)
    requires
        match settlement {
            Settlement::Tie { found, first_owner, second_owner } => found < old(
                store,
            )@.wagers.len(),
            Settlement::Win { found, owner } => found < old(store)@.wagers.len() && split_defined(
                old(store)@.wagers[found as int].amount,
                old(store)@.config,
            ),
        },
    ensures
        final(store)@.wf(),
        r is Ok,
        match settlement {
            Settlement::Tie { found, first_owner, second_owner } => {
                let amount = old(store)@.wagers[found as int].amount;
                &&& final(store)@ == (StoreView {
                    wagers: old(store)@.wagers.remove(found as int),
                    ..old(store)@
                })
                &&& r->Ok_0@ == (ResponseView::Tie {
                    first: send_spec(first_owner@, amount, NATIVE_DENOM@),
                    second: send_spec(second_owner@, amount, NATIVE_DENOM@),
                })
            },
            Settlement::Win { found, owner } => {
                let amount = old(store)@.wagers[found as int].amount;
                let config = old(store)@.config;
                &&& final(store)@ == (StoreView {
                    wagers: old(store)@.wagers.remove(found as int),
                    ..old(store)@
                })
                &&& r->Ok_0@ == (ResponseView::SetWinner {
                    burn: FairBurnView {
                        amount: burn_of(amount, config) as u128,
                        developer: config.fee_address,
                    },
                    fee: send_spec(
                        config.fee_address,
                        fee_of(amount, config) as u128,
                        NATIVE_DENOM@,
                    ),
                    payout: send_spec(owner@, payout_of(amount, config) as u128, NATIVE_DENOM@),
                })
            },
        },
{
    match settlement {
        Settlement::Tie { found, first_owner, second_owner } => {
            let amount = store.wager(found).amount;
            let first = send_native(first_owner, amount)?;
            let second = send_native(second_owner, amount)?;
            store.remove_wager(found);
            store.establish_wf();
            Ok(Response::Tie { first, second })
        },
        Settlement::Win { found, owner } => {
            let config = store.config();
            let (app_fee, fairburn_fee, winner_amount) = split_pool(
                store.wager(found).amount,
                config,
            );
            let fee = send_native(config.fee_address.clone(), app_fee)?;
            let payout = send_native(owner, winner_amount)?;
            let burn = FairBurn { amount: fairburn_fee, developer: config.fee_address.clone() };
            store.remove_wager(found);
            store.establish_wf();
            Ok(Response::SetWinner { burn, fee, payout })
        },
    }
}

/// Settles the wager between the two tokens of `wager_key`, given in either
/// order, once it has run out.
///
/// The prices are those of each side's currency when the wager began and
/// now, in the order of the key. The winner is computed from them and never
/// named by the caller: the side whose price changed by the greater ratio
/// wins the pool, less fee and burn; on equal ratios each side gets its stake
/// back and nothing is charged. `owners` is what the ownership oracle
/// answered for the key's first and second token.
///
/// A call is left out only where a wager is decided whose pool cannot be
/// split; `try_execute_set_winner` tests for that.
pub fn execute_set_winner(
    store: &mut Store,
    env: Env,
    wager_key: (Token, Token),
    prev_prices: (Decimal, Decimal),
    current_prices: (Decimal, Decimal),
    owners: (Result<String, StdError>, Result<String, StdError>),
) -> (r: Result<Response, ContractError>)
    requires
        set_winner_defined(
            old(store)@,
            env.block.time,
            wager_key@,
            prev_prices,
            current_prices,
            (answer_view(owners.0), answer_view(owners.1)),
        ),
    ensures
        final(store)@.wf(),
        (final(store)@, result_view(r)) == set_winner_outcome(
            old(store)@,
            env.block.time,
            wager_key@,
            prev_prices,
            current_prices,
            (answer_view(owners.0), answer_view(owners.1)),
        ),
{
    store.establish_wf();
    let settlement = check_set_winner(store, env, &wager_key, prev_prices, current_prices, owners)?;
    settle(store, settlement)
}

/// Settles a wager as `execute_set_winner` does, for every input: where a
/// wager is decided whose pool cannot be split, nothing is done and nothing
/// is handed back.
pub fn try_execute_set_winner(
    store: &mut Store,
    env: Env,
    wager_key: (Token, Token),
    prev_prices: (Decimal, Decimal),
    current_prices: (Decimal, Decimal),
    owners: (Result<String, StdError>, Result<String, StdError>),
) -> (r: Option<Result<Response, ContractError>>)
    ensures
        final(store)@.wf(),
        r is Some <==> set_winner_defined(
            old(store)@,
            env.block.time,
            wager_key@,
            prev_prices,
            current_prices,
            (answer_view(owners.0), answer_view(owners.1)),
        ),
        r is Some ==> (final(store)@, result_view(r->Some_0)) == set_winner_outcome(
            old(store)@,
            env.block.time,
            wager_key@,
            prev_prices,
            current_prices,
            (answer_view(owners.0), answer_view(owners.1)),
        ),
        r is None ==> final(store)@ == old(store)@,
{
    store.establish_wf();
    let settlement = match check_set_winner(
        store,
        env,
        &wager_key,
        prev_prices,
        current_prices,
        owners,
    ) {
        Ok(settlement) => settlement,
        Err(e) => {
            return Some(Err(e));
        },
    };
    match &settlement {
        Settlement::Win { found, owner } => {
            if !can_split(store.wager(*found).amount, store.config()) {
                return None;
            }
        },
        Settlement::Tie { found, first_owner, second_owner } => {},
    }
    Some(settle(store, settlement))
}

/// The instruction that sends `amount` of the stake's denomination to `to`.
fn send_native(to: String, amount: u128) -> (r: Result<SubMsg, ContractError>)
    ensures
        r is Ok,
        r->Ok_0@ == send_spec(to@, amount, NATIVE_DENOM@),
{
    match send_tokens(to, coin(amount, NATIVE_DENOM)) {
        Ok(msg) => Ok(msg),
        Err(e) => Err(ContractError::Std(e)),
    }
}

} // verus!

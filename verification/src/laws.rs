//! What holds of the engine as a whole, proved of the operations as
//! `model` defines them. The executable operations are specified to do
//! exactly what those functions say, so each law holds of them too.

use crate::config::{percent_spec, update_outcome, ParamInfo};
use crate::contract::{execute_defined, execute_outcome, initial_state, instantiate_rejection};
use crate::error::{ErrorView, StdErrorView};
use crate::execute::{
    answer_view, cancel_outcome, cancel_rejection, set_winner_outcome, set_winner_rejection,
    wager_offer, wager_outcome, wager_rejection,
};
use crate::helpers::send_spec;
use crate::model::{
    burn_of, change_ratio, compatible, fee_of, has_token, holds, holds_token, is_compatible,
    is_pair, lemma_after_match, lemma_first_index, lemma_first_index_is, lemma_insert_entry_wf,
    lemma_insert_wager_wf, lemma_pending, lemma_pending_at, lemma_slot, lemma_total_insert,
    lemma_total_remove, lemma_wagered, lemma_wagered_at, matched_wager, payout_of, percent_of,
    pool_in, pool_of, precedes_not, precedes_not_key, queued_item, same_pair, split_defined,
    stake_of, total, Offer, StoreView,
};
use crate::msg::{Answers, ExecuteMsg, InstantiateMsg};
use crate::order::{lemma_token_lt_asymmetric, lemma_token_lt_connected, token_lt, TokenView};
use crate::response::ResponseView;
use crate::state::{
    coins_view, CoinView, ConfigView, Currency, Decimal, Env, MatchmakingItemView, MessageInfo,
    Timestamp, TokenStatusView, DECIMAL_FRACTIONAL, NATIVE_DENOM,
};
use vstd::prelude::*;

verus! {

/// Mutual exclusion. In a well-formed state no token has a pending offer
/// while it is in a wager, no token has two pending offers, and no token is
/// in two wagers; so the status of a token is never ambiguous, and it says
/// which of the three the token is: idle, pending, or in a wager.
pub proof fn lemma_status_exclusive(s: StoreView, token: TokenView)
    requires
        s.wf(),
    ensures
        !(s.pending(token) && s.wagered(token)),
        s.status(token) is Idle <==> !s.pending(token) && !s.wagered(token),
        s.status(token) is Matchmaking <==> s.pending(token),
        s.status(token) is Wager <==> s.wagered(token),
        s.status(token) matches TokenStatusView::Matchmaking(e) ==> e.0 == token
            && s.matchmaking.contains(e),
        s.status(token) matches TokenStatusView::Wager(w) ==> holds(w.id, token)
            && s.wagers.contains(w),
        forall|i: int, j: int|
            #![trigger s.matchmaking[i], s.matchmaking[j]]
            0 <= i < s.matchmaking.len() && 0 <= j < s.matchmaking.len() && s.matchmaking[i].0
                == token && s.matchmaking[j].0 == token ==> i == j,
        forall|i: int, j: int|
            #![trigger s.wagers[i], s.wagers[j]]
            0 <= i < s.wagers.len() && 0 <= j < s.wagers.len() && holds(s.wagers[i].id, token)
                && holds(s.wagers[j].id, token) ==> i == j,
{
    lemma_pending(s, token);
    lemma_wagered(s, token);
    assert forall|i: int, j: int|
        #![trigger s.matchmaking[i], s.matchmaking[j]]
        0 <= i < s.matchmaking.len() && 0 <= j < s.matchmaking.len() && s.matchmaking[i].0 == token
            && s.matchmaking[j].0 == token implies i == j by {
        if i < j {
            lemma_token_lt_asymmetric(s.matchmaking[i].0, s.matchmaking[j].0);
        } else if j < i {
            lemma_token_lt_asymmetric(s.matchmaking[j].0, s.matchmaking[i].0);
        }
    }
}

/// The engine starts in a well-formed state.
pub proof fn lemma_initial_state_wf(
    msg: InstantiateMsg,
    fee_address: Result<Seq<char>, StdErrorView>,
    collection_address: Result<Seq<char>, StdErrorView>,
)
    requires
        instantiate_rejection(msg, fee_address, collection_address) is None,
    ensures
        initial_state(msg, fee_address->Ok_0, collection_address->Ok_0).wf(),
{
}

/// Whatever message is carried out in a well-formed state, accepted or
/// refused, the state that it leaves is well formed. With the law before,
/// every state that the engine reaches is well formed.
pub proof fn lemma_execute_wf(
    s: StoreView,
    env: Env,
    info: MessageInfo,
    msg: ExecuteMsg,
    answers: Answers,
)
    requires
        s.wf(),
    ensures
        execute_outcome(s, env, info, msg, answers).0.wf(),
{
    match msg {
        ExecuteMsg::UpdateConfig { params } => lemma_update_outcome_wf(
            s,
            params,
            answer_view(answers.fee_address),
            answer_view(answers.collection_address),
        ),
        ExecuteMsg::SetWinner { wager_key, prev_prices, current_prices } => {
            lemma_set_winner_outcome_wf(
                s,
                env.block.time,
                wager_key@,
                prev_prices,
                current_prices,
                (answer_view(answers.owner), answer_view(answers.second_owner)),
            )
        },
        ExecuteMsg::Wager { token, currency, against_currencies, expiry } => {
            lemma_wager_outcome_wf(
                s,
                env.block.time,
                info.sender@,
                coins_view(info.funds@),
                token@,
                currency,
                against_currencies@,
                expiry,
                answer_view(answers.owner),
            )
        },
        ExecuteMsg::Cancel { token } => lemma_cancel_outcome_wf(
            s,
            info.sender@,
            token@,
            answer_view(answers.owner),
        ),
    }
}

/// A change of configuration, accepted or refused, leaves a well-formed
/// state well formed: what it accepts is a valid configuration.
pub proof fn lemma_update_outcome_wf(
    s: StoreView,
    p: ParamInfo,
    fee_address: Result<Seq<char>, StdErrorView>,
    collection_address: Result<Seq<char>, StdErrorView>,
)
    requires
        s.wf(),
    ensures
        update_outcome(s, p, fee_address, collection_address).0.wf(),
{
}

/// An offer, accepted or refused, leaves a well-formed state well formed.
pub proof fn lemma_wager_outcome_wf(
    s: StoreView,
    now: Timestamp,
    sender: Seq<char>,
    funds: Seq<CoinView>,
    token: TokenView,
    currency: Currency,
    against_currencies: Seq<Currency>,
    expiry: u64,
    owner: Result<Seq<char>, StdErrorView>,
)
    requires
        s.wf(),
    ensures
        wager_outcome(
            s,
            now,
            sender,
            funds,
            token,
            currency,
            against_currencies,
            expiry,
            owner,
        ).0.wf(),
{
    if wager_rejection(s, sender, funds, token, currency, against_currencies, expiry, owner)
        is None {
        lemma_place_wf(s, token, wager_offer(funds, currency, against_currencies, expiry), now);
    }
}

/// A withdrawal, accepted or refused, leaves a well-formed state well formed.
pub proof fn lemma_cancel_outcome_wf(
    s: StoreView,
    sender: Seq<char>,
    token: TokenView,
    owner: Result<Seq<char>, StdErrorView>,
)
    requires
        s.wf(),
    ensures
        cancel_outcome(s, sender, token, owner).0.wf(),
{
    if cancel_rejection(s, sender, token, owner) is None {
        lemma_status_exclusive(s, token);
        lemma_cancel_wf(s, token);
    }
}

/// A settlement, accepted or refused, leaves a well-formed state well formed.
pub proof fn lemma_set_winner_outcome_wf(
    s: StoreView,
    now: Timestamp,
    key: (TokenView, TokenView),
    prev_prices: (Decimal, Decimal),
    current_prices: (Decimal, Decimal),
    owners: (Result<Seq<char>, StdErrorView>, Result<Seq<char>, StdErrorView>),
)
    requires
        s.wf(),
    ensures
        set_winner_outcome(s, now, key, prev_prices, current_prices, owners).0.wf(),
{
    if set_winner_rejection(s, now, key, prev_prices, current_prices, owners) is None {
        lemma_settle_wf(s, key);
    }
}

/// What a settlement leaves alone. Where there is a wager between the two
/// tokens of `key`, settling it takes exactly that wager out of the ledger:
/// the registry stays as it is, both tokens of the wager are idle
/// afterwards, and every other token is doing what it was doing.
pub proof fn lemma_settle_frees_both(s: StoreView, key: (TokenView, TokenView), other: TokenView)
    requires
        s.wf(),
        s.pair_index(key) < s.wagers.len(),
    ensures
        ({
            let wager = s.wagers[s.pair_index(key)];
            let after = s.settle(key);
            &&& same_pair(wager.id, key)
            &&& after.wf()
            &&& after.matchmaking == s.matchmaking
            &&& after.wagers == s.wagers.remove(s.pair_index(key))
            &&& after.status(wager.id.0) is Idle
            &&& after.status(wager.id.1) is Idle
            &&& !holds(wager.id, other) ==> after.status(other) == s.status(other)
        }),
{
    let i = s.pair_index(key);
    let wager = s.wagers[i];
    let after = s.settle(key);
    lemma_first_index(s.wagers, is_pair(key));
    lemma_settle_wf(s, key);
    lemma_freed(s, i, wager.id.0);
    lemma_freed(s, i, wager.id.1);
    lemma_status_exclusive(after, wager.id.0);
    lemma_status_exclusive(after, wager.id.1);
    if !holds(wager.id, other) {
        lemma_wagered(s, other);
        lemma_wagered(after, other);
        if s.wagered(other) {
            let j = s.wager_index(other);
            let j1 = if j < i { j } else { j - 1 };
            assert forall|k: int| 0 <= k < j1 implies !#[trigger] holds_token(other)(
                after.wagers[k],
            ) by {
                lemma_status_exclusive(s, other);
            }
            lemma_first_index_is(after.wagers, holds_token(other), j1);
        }
    }
}

/// A token of the wager at index `i` is idle once that wager is taken out.
proof fn lemma_freed(s: StoreView, i: int, token: TokenView)
    requires
        s.wf(),
        0 <= i < s.wagers.len(),
        holds(s.wagers[i].id, token),
    ensures
        !(StoreView { wagers: s.wagers.remove(i), ..s }).wagered(token),
        !s.pending(token),
{
    let after = StoreView { wagers: s.wagers.remove(i), ..s };
    lemma_wagered(after, token);
    lemma_wagered_at(s, token, i);
    lemma_status_exclusive(s, token);
}

/// Placing an offer for an idle token keeps the state well formed.
pub proof fn lemma_place_wf(s: StoreView, token: TokenView, offer: Offer, now: Timestamp)
    requires
        s.wf(),
        s.status(token) is Idle,
    ensures
        s.place(token, offer, now).wf(),
{
    let i = s.match_index(offer, now);
    lemma_first_index(s.matchmaking, is_compatible(offer, now));
    if i < s.matchmaking.len() {
        let other = s.matchmaking[i];
        let taken = StoreView { matchmaking: s.matchmaking.remove(i), ..s };
        lemma_after_match(s, token, i);
        if !token_lt(token, other.0) && !token_lt(other.0, token) {
            lemma_token_lt_connected(token, other.0);
        }
        lemma_insert_wager_wf(taken, matched_wager(token, offer, other, now));
    } else {
        lemma_insert_entry_wf(s, token, queued_item(s.config, offer, now));
    }
}

/// Withdrawing a pending offer keeps the state well formed.
pub proof fn lemma_cancel_wf(s: StoreView, token: TokenView)
    requires
        s.wf(),
        s.pending(token),
    ensures
        s.cancel(token).wf(),
{
    lemma_pending(s, token);
}

/// Settling a wager keeps the state well formed.
pub proof fn lemma_settle_wf(s: StoreView, key: (TokenView, TokenView))
    requires
        s.wf(),
        s.pair_index(key) < s.wagers.len(),
    ensures
        s.settle(key).wf(),
{
    lemma_first_index(s.wagers, is_pair(key));
}

/// What a match does. Where an offer for an idle token finds a compatible
/// pending offer, the first such offer in scan order leaves the registry and
/// nothing else does, the ledger gains exactly one wager, between the two
/// tokens, and nothing else in it changes; the wager has the stake of the
/// offer and runs for the full length asked for, from now; and both tokens
/// are in that wager and neither has a pending offer.
pub proof fn lemma_match_pairs_both(s: StoreView, token: TokenView, offer: Offer, now: Timestamp)
    requires
        s.wf(),
        s.status(token) is Idle,
        s.match_index(offer, now) < s.matchmaking.len(),
    ensures
        ({
            let i = s.match_index(offer, now);
            let wager = matched_wager(token, offer, s.matchmaking[i], now);
            let after = s.place(token, offer, now);
            &&& compatible(s.matchmaking[i].1, offer, now)
            &&& forall|j: int|
                0 <= j < i ==> !compatible((#[trigger] s.matchmaking[j]).1, offer, now)
            &&& after.wf()
            &&& after.matchmaking == s.matchmaking.remove(i)
            &&& after.wagers == s.wagers.insert(s.wager_slot(wager.id), wager)
            &&& after.wagers.remove(s.wager_slot(wager.id)) == s.wagers
            &&& holds(wager.id, token)
            &&& holds(wager.id, s.matchmaking[i].0)
            &&& wager.id.0 != wager.id.1
            &&& wager.amount == offer.amount
            &&& wager.amount == s.matchmaking[i].1.amount
            &&& wager.expires_at == now.plus_seconds_spec(offer.expiry)
            &&& after.status(token) == TokenStatusView::Wager(wager)
            &&& after.status(s.matchmaking[i].0) == TokenStatusView::Wager(wager)
            &&& !after.pending(token)
            &&& !after.pending(s.matchmaking[i].0)
        }),
{
    let i = s.match_index(offer, now);
    let other = s.matchmaking[i].0;
    let wager = matched_wager(token, offer, s.matchmaking[i], now);
    let after = s.place(token, offer, now);
    let k = s.wager_slot(wager.id);
    lemma_first_index(s.matchmaking, is_compatible(offer, now));
    assert forall|j: int| 0 <= j < i implies !compatible(
        (#[trigger] s.matchmaking[j]).1,
        offer,
        now,
    ) by {
        assert(!is_compatible(offer, now)(s.matchmaking[j]));
    }
    lemma_status_exclusive(s, token);
    lemma_after_match(s, token, i);
    lemma_place_wf(s, token, offer, now);
    lemma_first_index(s.wagers, precedes_not_key(wager.id));
    assert(after.wagers.remove(k) =~= s.wagers);
    lemma_wagered_at(after, token, k);
    lemma_wagered_at(after, other, k);
    lemma_status_exclusive(after, token);
    lemma_status_exclusive(after, other);
    lemma_wagered(after, token);
    lemma_wagered(after, other);
}

/// Match symmetry. Take two different idle tokens whose offers accept each
/// other's currency and ask for the same stake and length. Let the first be
/// placed at a time when no pending offer is compatible with it, and the
/// second before the first has lapsed, when no pending offer of the old
/// state is compatible with it either. Then the two are paired: the registry
/// is as it was before the first offer, so neither token has a pending offer
/// left, and the ledger has gained exactly one wager, which holds both.
///
/// The law speaks of either order of the two offers: its premises treat the
/// two alike, but for which of them comes first.
pub proof fn lemma_match_symmetry(
    s: StoreView,
    first: TokenView,
    first_offer: Offer,
    first_time: Timestamp,
    second: TokenView,
    second_offer: Offer,
    second_time: Timestamp,
)
    requires
        s.wf(),
        first != second,
        s.status(first) is Idle,
        s.status(second) is Idle,
        first_offer.against_currencies.contains(second_offer.currency),
        second_offer.against_currencies.contains(first_offer.currency),
        first_offer.amount == second_offer.amount,
        first_offer.expiry == second_offer.expiry,
        first_time.plus_seconds_spec(s.config.matchmaking_expiry).nanos > second_time.nanos,
        s.match_index(first_offer, first_time) == s.matchmaking.len(),
        s.match_index(second_offer, second_time) == s.matchmaking.len(),
    ensures
        ({
            let after = s.place(first, first_offer, first_time).place(
                second,
                second_offer,
                second_time,
            );
            let wager = matched_wager(
                second,
                second_offer,
                (first, queued_item(s.config, first_offer, first_time)),
                second_time,
            );
            &&& after == s.with_wager(wager)
            &&& after.wf()
            &&& after.matchmaking == s.matchmaking
            &&& after.wagers.len() == s.wagers.len() + 1
            &&& after.wagers.remove(s.wager_slot(wager.id)) == s.wagers
            &&& holds(wager.id, first)
            &&& holds(wager.id, second)
            &&& wager.amount == first_offer.amount
            &&& wager.expires_at == second_time.plus_seconds_spec(second_offer.expiry)
            &&& after.status(first) is Wager
            &&& after.status(second) is Wager
        }),
{
    let queued = s.place(first, first_offer, first_time);
    let slot = s.slot(first);
    let p = is_compatible(second_offer, second_time);
    lemma_place_wf(s, first, first_offer, first_time);
    lemma_slot(s, first);
    lemma_first_index(s.matchmaking, p);
    lemma_first_index_is(queued.matchmaking, p, slot);
    let after = queued.place(second, second_offer, second_time);

    // The second token is idle after the first offer is queued.
    lemma_pending(queued, second);
    if queued.pending(second) {
        let k = queued.entry_index(second);
        if k < slot {
            lemma_pending_at(s, second, k);
        } else {
            lemma_pending_at(s, second, k - 1);
        }
    }
    lemma_place_wf(queued, second, second_offer, second_time);
    let wager = matched_wager(
        second,
        second_offer,
        (first, queued_item(s.config, first_offer, first_time)),
        second_time,
    );
    let k = s.wager_slot(wager.id);
    lemma_first_index(s.wagers, precedes_not_key(wager.id));
    assert(after.matchmaking =~= s.matchmaking);
    lemma_wagered_at(after, first, k);
    lemma_wagered_at(after, second, k);
    lemma_status_exclusive(after, first);
    lemma_status_exclusive(after, second);
}

/// Match symmetry, in one statement. Under the premises of the law before
/// for either order of the two offers, the order does not matter at all:
/// whichever offer comes first at the earlier time, the state after the
/// second is the same.
pub proof fn lemma_match_either_order(
    s: StoreView,
    one: TokenView,
    one_offer: Offer,
    other: TokenView,
    other_offer: Offer,
    earlier: Timestamp,
    later: Timestamp,
)
    requires
        s.wf(),
        one != other,
        s.status(one) is Idle,
        s.status(other) is Idle,
        one_offer.against_currencies.contains(other_offer.currency),
        other_offer.against_currencies.contains(one_offer.currency),
        one_offer.amount == other_offer.amount,
        one_offer.expiry == other_offer.expiry,
        earlier.plus_seconds_spec(s.config.matchmaking_expiry).nanos > later.nanos,
        s.match_index(one_offer, earlier) == s.matchmaking.len(),
        s.match_index(one_offer, later) == s.matchmaking.len(),
        s.match_index(other_offer, earlier) == s.matchmaking.len(),
        s.match_index(other_offer, later) == s.matchmaking.len(),
    ensures
        s.place(one, one_offer, earlier).place(other, other_offer, later) == s.place(
            other,
            other_offer,
            earlier,
        ).place(one, one_offer, later),
{
    lemma_match_symmetry(s, one, one_offer, earlier, other, other_offer, later);
    lemma_match_symmetry(s, other, other_offer, earlier, one, one_offer, later);
    if !token_lt(one, other) && !token_lt(other, one) {
        lemma_token_lt_connected(one, other);
    }
    if token_lt(one, other) {
        lemma_token_lt_asymmetric(one, other);
    }
}

/// Fee and burn are rounded down once. A percentage that is set as `bps`
/// hundredths of a per cent takes `bps` ten-thousandths of an amount, rounded
/// down: dividing twice, as `percent_of` does, loses nothing more.
pub proof fn lemma_percent_rounds_once(total: int, bps: u64)
    requires
        0 <= total,
    ensures
        percent_of(total, percent_spec(bps)) == total * bps / 10_000,
{
    let unit: int = 10_000_000_000_000_000;
    let product = total * bps;
    assert(total * (bps * unit) == unit * product) by (nonlinear_arith)
        requires
            product == total * bps,
    ;
}

/// Where fee and burn together are no more than the whole, the pool of every
/// stake can be split, short of the stakes whose pool times a hundred would
/// not fit the machine's integers.
pub proof fn lemma_split_defined(amount: u128, config: ConfigView)
    requires
        config.fee_percent.atomics + config.fairburn_percent.atomics <= 100
            * DECIMAL_FRACTIONAL,
        200 * amount <= u128::MAX,
    ensures
        split_defined(amount, config),
{
    let pool = pool_of(amount);
    let fee = config.fee_percent.atomics as int;
    let burn = config.fairburn_percent.atomics as int;
    let whole = 100 * DECIMAL_FRACTIONAL;
    assert(0 <= pool * fee <= pool * whole && 0 <= pool * burn <= pool * whole && pool * fee
        + pool * burn <= pool * whole) by (nonlinear_arith)
        requires
            0 <= pool,
            0 <= fee,
            0 <= burn,
            fee + burn <= whole,
    ;
    assert(pool * whole == (100 * pool) * DECIMAL_FRACTIONAL) by (nonlinear_arith)
        requires
            whole == 100 * DECIMAL_FRACTIONAL,
    ;
}

/// Conservation of value. Where the pool of a wager can be split, the fee,
/// the burn and the payout are amounts, and they add up to the pool: twice
/// the stake, exactly.
pub proof fn lemma_conservation(amount: u128, config: ConfigView)
    requires
        split_defined(amount, config),
    ensures
        0 <= fee_of(amount, config),
        0 <= burn_of(amount, config),
        0 <= payout_of(amount, config),
        fee_of(amount, config) + burn_of(amount, config) + payout_of(amount, config) == 2
            * amount,
{
}

/// Conservation of value at settlement. Where a settlement is accepted, the
/// two change ratios differ and the pool can be split, the wager leaves the
/// ledger, the fee goes to the fee address and the payout to the owner of the
/// side with the greater ratio, and burn, fee and payout add up to twice the
/// stake, exactly.
pub proof fn lemma_decisive_settlement(
    s: StoreView,
    now: Timestamp,
    key: (TokenView, TokenView),
    prev_prices: (Decimal, Decimal),
    current_prices: (Decimal, Decimal),
    owners: (Result<Seq<char>, StdErrorView>, Result<Seq<char>, StdErrorView>),
)
    requires
        set_winner_rejection(s, now, key, prev_prices, current_prices, owners) is None,
        change_ratio(current_prices.0, prev_prices.0) != change_ratio(
            current_prices.1,
            prev_prices.1,
        ),
        split_defined(s.wagers[s.pair_index(key)].amount, s.config),
    ensures
        set_winner_outcome(s, now, key, prev_prices, current_prices, owners).0 == s.settle(key),
        ({
            let stake = s.wagers[s.pair_index(key)].amount;
            let first_wins = change_ratio(current_prices.0, prev_prices.0) > change_ratio(
                current_prices.1,
                prev_prices.1,
            );
            &&& set_winner_outcome(
                s,
                now,
                key,
                prev_prices,
                current_prices,
                owners,
            ).1 matches Ok(ResponseView::SetWinner { burn, fee, payout })
            &&& fee.to_address == s.config.fee_address
            &&& payout.to_address == if first_wins {
                owners.0->Ok_0
            } else {
                owners.1->Ok_0
            }
            &&& fee.amount.len() == 1
            &&& payout.amount.len() == 1
            &&& fee.amount[0].denom == NATIVE_DENOM@
            &&& payout.amount[0].denom == NATIVE_DENOM@
            &&& burn.amount + fee.amount[0].amount + payout.amount[0].amount == 2 * stake
        }),
{
}

/// Tie refund. Where a settlement is accepted and the two change ratios are
/// equal, each side is sent exactly its stake, and there is neither fee nor
/// burn.
pub proof fn lemma_tie_refund(
    s: StoreView,
    now: Timestamp,
    key: (TokenView, TokenView),
    prev_prices: (Decimal, Decimal),
    current_prices: (Decimal, Decimal),
    owners: (Result<Seq<char>, StdErrorView>, Result<Seq<char>, StdErrorView>),
)
    requires
        set_winner_rejection(s, now, key, prev_prices, current_prices, owners) is None,
        change_ratio(current_prices.0, prev_prices.0) == change_ratio(
            current_prices.1,
            prev_prices.1,
        ),
    ensures
        set_winner_outcome(s, now, key, prev_prices, current_prices, owners) == (
            s.settle(key),
            Ok::<ResponseView, ErrorView>(
                ResponseView::Tie {
                    first: send_spec(
                        owners.0->Ok_0,
                        s.wagers[s.pair_index(key)].amount,
                        NATIVE_DENOM@,
                    ),
                    second: send_spec(
                        owners.1->Ok_0,
                        s.wagers[s.pair_index(key)].amount,
                        NATIVE_DENOM@,
                    ),
                },
            ),
        ),
{
}

/// Queue, then cancel. Where an offer for an idle token finds no match and
/// is then withdrawn, the state is as it was before the offer, and the stake
/// that is sent back is the stake that came with the offer.
pub proof fn lemma_queue_then_cancel(s: StoreView, token: TokenView, offer: Offer, now: Timestamp)
    requires
        s.wf(),
        s.status(token) is Idle,
        s.match_index(offer, now) == s.matchmaking.len(),
    ensures
        ({
            let queued = s.place(token, offer, now);
            &&& queued.status(token) is Matchmaking
            &&& queued.matchmaking[queued.entry_index(token)].1.amount == offer.amount
            &&& queued.cancel(token) == s
        }),
{
    let queued = s.place(token, offer, now);
    let slot = s.slot(token);
    lemma_slot(s, token);
    lemma_place_wf(s, token, offer, now);
    assert forall|j: int| 0 <= j < slot implies !#[trigger] has_token(token)(
        queued.matchmaking[j],
    ) by {
        lemma_token_lt_asymmetric(s.matchmaking[j].0, token);
    }
    lemma_first_index_is(queued.matchmaking, has_token(token), slot);
    assert(queued.cancel(token).matchmaking =~= s.matchmaking);
}

/// Cancel, then resubmit. Where a pending offer is withdrawn and the same
/// offer is placed again for the same token, at a time when no other
/// pending offer is compatible with it, the token has a pending offer again
/// with the same terms and at the same place in the registry, but with a
/// fresh expiry: the time of the second offer plus the configured wait,
/// whatever the expiry of the first was.
pub proof fn lemma_cancel_then_resubmit(s: StoreView, token: TokenView, now: Timestamp)
    requires
        s.wf(),
        s.status(token) is Matchmaking,
        ({
            let item = s.matchmaking[s.entry_index(token)].1;
            let offer = Offer {
                currency: item.currency,
                against_currencies: item.against_currencies,
                expiry: item.expiry,
                amount: item.amount,
            };
            s.cancel(token).match_index(offer, now) == s.cancel(token).matchmaking.len()
        }),
    ensures
        ({
            let i = s.entry_index(token);
            let item = s.matchmaking[i].1;
            let offer = Offer {
                currency: item.currency,
                against_currencies: item.against_currencies,
                expiry: item.expiry,
                amount: item.amount,
            };
            let after = s.cancel(token).place(token, offer, now);
            &&& s.cancel(token).status(token) is Idle
            &&& after.wf()
            &&& after.wagers == s.wagers
            &&& after.matchmaking == s.matchmaking.update(
                i,
                (
                    token,
                    MatchmakingItemView {
                        expires_at: now.plus_seconds_spec(s.config.matchmaking_expiry),
                        ..item
                    },
                ),
            )
        }),
{
    let i = s.entry_index(token);
    let item = s.matchmaking[i].1;
    let offer = Offer {
        currency: item.currency,
        against_currencies: item.against_currencies,
        expiry: item.expiry,
        amount: item.amount,
    };
    let cancelled = s.cancel(token);
    lemma_status_exclusive(s, token);
    lemma_pending(s, token);

    // The token is idle once its offer is withdrawn.
    lemma_status_exclusive(cancelled, token);

    // Its slot is where its offer was.
    if i < cancelled.matchmaking.len() {
        lemma_token_lt_asymmetric(s.matchmaking[i].0, s.matchmaking[i + 1].0);
    }
    lemma_first_index_is(cancelled.matchmaking, precedes_not(token), i);
}

/// The amount that a list of coins comes to.
pub open spec fn coins_total(coins: Seq<CoinView>) -> int {
    total(coins, |c: CoinView| c.amount as int)
}

/// What a call pays out of the escrow: what it sends and what it burns.
pub open spec fn paid_out(response: ResponseView) -> int {
    match response {
        ResponseView::Cancel { token, refund } => coins_total(refund.amount),
        ResponseView::SetWinner { burn, fee, payout } => burn.amount + coins_total(fee.amount)
            + coins_total(payout.amount),
        ResponseView::Tie { first, second } => coins_total(first.amount) + coins_total(
            second.amount,
        ),
        _ => 0,
    }
}

/// What a call pays into the escrow: the stake that comes with an offer.
pub open spec fn paid_in(info: MessageInfo, msg: ExecuteMsg) -> int {
    match msg {
        ExecuteMsg::Wager { token, currency, against_currencies, expiry } => wager_offer(
            coins_view(info.funds@),
            currency,
            against_currencies@,
            expiry,
        ).amount as int,
        _ => 0,
    }
}

/// The one coin of an instruction to send is what it comes to, whoever it
/// is sent to.
proof fn lemma_send_total(amount: u128, denom: Seq<char>)
    ensures
        forall|to: Seq<char>|
            coins_total((#[trigger] send_spec(to, amount, denom)).amount) == amount,
{
    let coins = seq![CoinView { denom, amount }];
    assert(total(coins.drop_last(), |c: CoinView| c.amount as int) == 0);
}

/// What an accepted offer adds to the escrow: its stake, whether it is
/// paired or queued.
pub proof fn lemma_place_escrow(s: StoreView, token: TokenView, offer: Offer, now: Timestamp)
    requires
        s.wf(),
        s.status(token) is Idle,
    ensures
        s.place(token, offer, now).escrow() == s.escrow() + offer.amount,
{
    let i = s.match_index(offer, now);
    lemma_first_index(s.matchmaking, is_compatible(offer, now));
    if i < s.matchmaking.len() {
        let wager = matched_wager(token, offer, s.matchmaking[i], now);
        lemma_total_remove(s.matchmaking, stake_of(), i);
        lemma_first_index(s.wagers, precedes_not_key(wager.id));
        lemma_total_insert(s.wagers, pool_in(), s.wager_slot(wager.id), wager);
    } else {
        lemma_slot(s, token);
        lemma_total_insert(
            s.matchmaking,
            stake_of(),
            s.slot(token),
            (token, queued_item(s.config, offer, now)),
        );
    }
}

/// What a withdrawal takes out of the escrow: the stake of the offer.
pub proof fn lemma_cancel_escrow(s: StoreView, token: TokenView)
    requires
        s.pending(token),
    ensures
        s.cancel(token).escrow() == s.escrow() - s.matchmaking[s.entry_index(token)].1.amount,
{
    lemma_pending(s, token);
    lemma_total_remove(s.matchmaking, stake_of(), s.entry_index(token));
}

/// What a settlement takes out of the escrow: the pool of the wager.
pub proof fn lemma_settle_escrow(s: StoreView, key: (TokenView, TokenView))
    requires
        s.pair_index(key) < s.wagers.len(),
    ensures
        s.settle(key).escrow() == s.escrow() - 2 * s.wagers[s.pair_index(key)].amount,
{
    lemma_first_index(s.wagers, is_pair(key));
    lemma_total_remove(s.wagers, pool_in(), s.pair_index(key));
}

/// No value is lost or made. A message that is refused changes nothing.
/// A message that is accepted leaves in escrow exactly what was there, plus
/// what it paid in, less what it pays out: an offer adds its stake, a
/// withdrawal sends the stake of the offer back, and a settlement pays out
/// the whole pool of the wager, as fee, burn and payout or as two refunds.
pub proof fn lemma_escrow_balanced(
    s: StoreView,
    env: Env,
    info: MessageInfo,
    msg: ExecuteMsg,
    answers: Answers,
)
    requires
        s.wf(),
        execute_defined(s, env, info, msg, answers),
    ensures
        ({
            let (after, result) = execute_outcome(s, env, info, msg, answers);
            &&& result is Err ==> after == s
            &&& result is Ok ==> after.escrow() + paid_out(result->Ok_0) == s.escrow() + paid_in(
                info,
                msg,
            )
        }),
{
    let (after, result) = execute_outcome(s, env, info, msg, answers);
    if result is Ok && !(msg is UpdateConfig) {
        match msg {
            ExecuteMsg::SetWinner { wager_key, prev_prices, current_prices } => {
                let stake = s.wagers[s.pair_index(wager_key@)].amount;
                lemma_settle_escrow(s, wager_key@);
                lemma_send_total(stake, NATIVE_DENOM@);
                lemma_send_total(fee_of(stake, s.config) as u128, NATIVE_DENOM@);
                lemma_send_total(payout_of(stake, s.config) as u128, NATIVE_DENOM@);
            },
            ExecuteMsg::Wager { token, currency, against_currencies, expiry } => {
                lemma_place_escrow(
                    s,
                    token@,
                    wager_offer(coins_view(info.funds@), currency, against_currencies@, expiry),
                    env.block.time,
                );
            },
            _ => {
                let token = msg->Cancel_token;
                lemma_cancel_escrow(s, token@);
                lemma_send_total(s.matchmaking[s.entry_index(token@)].1.amount, NATIVE_DENOM@);
            },
        }
    }
}

} // verus!

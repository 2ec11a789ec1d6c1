//! The engine as mathematics: the state as sequences, and each operation as a
//! function from state to state. The executable operations are specified
//! against these functions.

use crate::host::{decimal_quotient, decimal_quotient_defined};
use crate::order::{
    key_lt, lemma_token_lt_asymmetric, lemma_token_lt_connected, lemma_token_lt_transitive,
    token_lt, TokenView,
};
use crate::state::{
    ConfigView, Currency, Decimal, EntryView, MatchmakingItemView, Timestamp, TokenStatusView,
    WagerView, DECIMAL_FRACTIONAL,
};
use vstd::prelude::*;

verus! {

/// `i` is the first index of `s` whose element satisfies `p`, or the length of
/// `s` if no element does.
pub open spec fn is_first_index<A>(s: Seq<A>, p: spec_fn(A) -> bool, i: int) -> bool {
    &&& 0 <= i <= s.len()
    &&& forall|j: int| 0 <= j < i ==> !#[trigger] p(s[j])
    &&& i < s.len() ==> p(s[i])
}

/// The first index of `s` whose element satisfies `p`, or the length of `s`.
pub open spec fn first_index<A>(s: Seq<A>, p: spec_fn(A) -> bool) -> int {
    choose|i: int| is_first_index(s, p, i)
}

/// There is one first index, and `first_index` is it.
pub proof fn lemma_first_index_is<A>(s: Seq<A>, p: spec_fn(A) -> bool, i: int)
    requires
        is_first_index(s, p, i),
    ensures
        first_index(s, p) == i,
{
}

/// From `from` on, where no element before it satisfies `p`, a first index is found.
proof fn lemma_first_index_from<A>(s: Seq<A>, p: spec_fn(A) -> bool, from: int) -> (i: int)
    requires
        0 <= from <= s.len(),
        forall|j: int| 0 <= j < from ==> !#[trigger] p(s[j]),
    ensures
        is_first_index(s, p, i),
    decreases s.len() - from,
{
    if from < s.len() && !p(s[from]) {
        lemma_first_index_from(s, p, from + 1)
    } else {
        from
    }
}

/// Every sequence has a first index for every predicate.
pub proof fn lemma_first_index<A>(s: Seq<A>, p: spec_fn(A) -> bool)
    ensures
        is_first_index(s, p, first_index(s, p)),
{
    let i = lemma_first_index_from(s, p, 0);
}

/// The state of the engine.
pub struct StoreView {
    pub config: ConfigView,
    /// The pending offers, in the scan order of their tokens.
    pub matchmaking: Seq<EntryView>,
    /// The active wagers, in ascending order of their pairs of tokens.
    pub wagers: Seq<WagerView>,
}

/// Whether `token` is one of the two tokens of `id`.
pub open spec fn holds(id: (TokenView, TokenView), token: TokenView) -> bool {
    id.0 == token || id.1 == token
}

/// Whether `a` and `b` are the same two tokens, in either order.
pub open spec fn same_pair(a: (TokenView, TokenView), b: (TokenView, TokenView)) -> bool {
    (a.0 == b.0 && a.1 == b.1) || (a.0 == b.1 && a.1 == b.0)
}

/// The entries of the registry are in strictly ascending scan order, so that
/// no token has two of them.
pub open spec fn registry_sorted(matchmaking: Seq<EntryView>) -> bool {
    forall|i: int, j: int|
        #![trigger matchmaking[i], matchmaking[j]]
        0 <= i < j < matchmaking.len() ==> token_lt(matchmaking[i].0, matchmaking[j].0)
}

/// No token is in `wagers` and has an entry in `matchmaking` too.
pub open spec fn exclusive(matchmaking: Seq<EntryView>, wagers: Seq<WagerView>) -> bool {
    forall|i: int, j: int|
        #![trigger matchmaking[i], wagers[j]]
        0 <= i < matchmaking.len() && 0 <= j < wagers.len() ==> !holds(
            wagers[j].id,
            matchmaking[i].0,
        )
}

/// Each wager is between two different tokens, the earlier in scan order first,
/// and no token is in two wagers.
pub open spec fn ledger_disjoint(wagers: Seq<WagerView>) -> bool {
    &&& forall|i: int|
        0 <= i < wagers.len() ==> token_lt((#[trigger] wagers[i]).id.0, wagers[i].id.1)
    &&& forall|i: int, j: int|
        #![trigger wagers[i], wagers[j]]
        0 <= i < j < wagers.len() ==> !holds(wagers[i].id, wagers[j].id.0) && !holds(
            wagers[i].id,
            wagers[j].id.1,
        )
}

/// The wagers of the ledger are in strictly ascending order of their pairs.
pub open spec fn ledger_sorted(wagers: Seq<WagerView>) -> bool {
    forall|i: int, j: int|
        #![trigger wagers[i], wagers[j]]
        0 <= i < j < wagers.len() ==> key_lt(wagers[i].id, wagers[j].id)
}

/// One offer as it is submitted.
pub struct Offer {
    pub currency: Currency,
    pub against_currencies: Seq<Currency>,
    /// The length of the wager asked for, in seconds.
    pub expiry: u64,
    pub amount: u128,
}

/// Whether the pending `item` and the new `offer` can be paired at time `now`:
/// each accepts the other's currency, they ask for the same stake and the same
/// length, and the pending offer has not lapsed.
pub open spec fn compatible(item: MatchmakingItemView, offer: Offer, now: Timestamp) -> bool {
    &&& item.against_currencies.contains(offer.currency)
    &&& offer.against_currencies.contains(item.currency)
    &&& item.expiry == offer.expiry
    &&& item.amount == offer.amount
    &&& item.expires_at.nanos > now.nanos
}

/// The entries whose offer can be paired with `offer` at `now`.
pub open spec fn is_compatible(offer: Offer, now: Timestamp) -> spec_fn(EntryView) -> bool {
    |e: EntryView| compatible(e.1, offer, now)
}

/// The entries of `token`.
pub open spec fn has_token(token: TokenView) -> spec_fn(EntryView) -> bool {
    |e: EntryView| e.0 == token
}

/// The entries whose token does not precede `token` in scan order.
pub open spec fn precedes_not(token: TokenView) -> spec_fn(EntryView) -> bool {
    |e: EntryView| !token_lt(e.0, token)
}

/// The wagers that `token` is in.
pub open spec fn holds_token(token: TokenView) -> spec_fn(WagerView) -> bool {
    |w: WagerView| holds(w.id, token)
}

/// The wagers whose pair does not precede `key`.
pub open spec fn precedes_not_key(key: (TokenView, TokenView)) -> spec_fn(WagerView) -> bool {
    |w: WagerView| !key_lt(w.id, key)
}

/// The wagers between the two tokens of `key`, in either order.
pub open spec fn is_pair(key: (TokenView, TokenView)) -> spec_fn(WagerView) -> bool {
    |w: WagerView| same_pair(w.id, key)
}

/// The wager that pairs a new offer for `token` with the pending entry `other`
/// at time `now`. It runs for the full length asked for, from `now`.
pub open spec fn matched_wager(
    token: TokenView,
    offer: Offer,
    other: EntryView,
    now: Timestamp,
) -> WagerView {
    if token_lt(token, other.0) {
        WagerView {
            id: (token, other.0),
            currencies: (offer.currency, other.1.currency),
            amount: offer.amount,
            expires_at: now.plus_seconds_spec(offer.expiry),
        }
    } else {
        WagerView {
            id: (other.0, token),
            currencies: (other.1.currency, offer.currency),
            amount: offer.amount,
            expires_at: now.plus_seconds_spec(offer.expiry),
        }
    }
}

/// The wager with the earlier of its two tokens first, and each currency
/// with its token.
pub open spec fn earlier_first(w: WagerView) -> WagerView {
    if token_lt(w.id.0, w.id.1) {
        w
    } else {
        WagerView {
            id: (w.id.1, w.id.0),
            currencies: (w.currencies.1, w.currencies.0),
            amount: w.amount,
            expires_at: w.expires_at,
        }
    }
}

/// The pending offer that a new offer becomes when nothing matches it. It
/// lapses after the configured time, whatever the length of the wager asked for.
pub open spec fn queued_item(
    config: ConfigView,
    offer: Offer,
    now: Timestamp,
) -> MatchmakingItemView {
    MatchmakingItemView {
        currency: offer.currency,
        against_currencies: offer.against_currencies,
        expires_at: now.plus_seconds_spec(config.matchmaking_expiry),
        expiry: offer.expiry,
        amount: offer.amount,
    }
}

/// How the two sides of a wager stand after the price movement.
#[derive(Clone, Copy, Debug, PartialEq, Eq, Structural)]
pub enum Verdict {
    /// The first token of the key moved more.
    First,
    /// The second token of the key moved more.
    Second,
    Tie,
}

/// The change ratio of one side: the current price over the previous one, as
/// decimals are divided.
pub open spec fn change_ratio(current: Decimal, previous: Decimal) -> int {
    decimal_quotient(current, previous)
}

/// Whether the change ratio of one side is a decimal.
pub open spec fn change_ratio_defined(current: Decimal, previous: Decimal) -> bool {
    decimal_quotient_defined(current, previous)
}

/// The side whose change ratio strictly exceeds the other's, or a tie.
pub open spec fn verdict(previous: (Decimal, Decimal), current: (Decimal, Decimal)) -> Verdict {
    let first = change_ratio(current.0, previous.0);
    let second = change_ratio(current.1, previous.1);
    if first > second {
        Verdict::First
    } else if second > first {
        Verdict::Second
    } else {
        Verdict::Tie
    }
}

/// `percent` per cent of `total`, rounded down at each of the two divisions.
pub open spec fn percent_of(total: int, percent: Decimal) -> int {
    total * percent.atomics / (DECIMAL_FRACTIONAL as int) / 100
}

/// The pool of a wager: both stakes.
pub open spec fn pool_of(amount: u128) -> int {
    2 * amount
}

/// The part of the pool that goes to the fee collector.
pub open spec fn fee_of(amount: u128, config: ConfigView) -> int {
    percent_of(pool_of(amount), config.fee_percent)
}

/// The part of the pool that is burned.
pub open spec fn burn_of(amount: u128, config: ConfigView) -> int {
    percent_of(pool_of(amount), config.fairburn_percent)
}

/// What is left of the pool for the winner.
pub open spec fn payout_of(amount: u128, config: ConfigView) -> int {
    pool_of(amount) - fee_of(amount, config) - burn_of(amount, config)
}

/// Whether the pool of a wager can be split: every intermediate amount fits the
/// machine's integers, and fee and burn together do not exceed the pool.
pub open spec fn split_defined(amount: u128, config: ConfigView) -> bool {
    &&& pool_of(amount) <= u128::MAX
    &&& pool_of(amount) * config.fee_percent.atomics / (DECIMAL_FRACTIONAL as int) <= u128::MAX
    &&& pool_of(amount) * config.fairburn_percent.atomics / (DECIMAL_FRACTIONAL as int)
        <= u128::MAX
    &&& fee_of(amount, config) + burn_of(amount, config) <= pool_of(amount)
}

impl StoreView {
    /// What holds of every state the engine reaches.
    pub open spec fn wf(self) -> bool {
        &&& self.config.valid()
        &&& registry_sorted(self.matchmaking)
        &&& ledger_disjoint(self.wagers)
        &&& ledger_sorted(self.wagers)
        &&& exclusive(self.matchmaking, self.wagers)
    }

    /// The index of the pending offer of `token`, or the length of the registry.
    pub open spec fn entry_index(self, token: TokenView) -> int {
        first_index(self.matchmaking, has_token(token))
    }

    /// The index of the wager that `token` is in, or the length of the ledger.
    pub open spec fn wager_index(self, token: TokenView) -> int {
        first_index(self.wagers, holds_token(token))
    }

    /// The index of the wager between the two tokens of `key`, in either order,
    /// or the length of the ledger.
    pub open spec fn pair_index(self, key: (TokenView, TokenView)) -> int {
        first_index(self.wagers, is_pair(key))
    }

    /// Whether `token` has a pending offer.
    pub open spec fn pending(self, token: TokenView) -> bool {
        self.entry_index(token) < self.matchmaking.len()
    }

    /// Whether `token` is in a wager.
    pub open spec fn wagered(self, token: TokenView) -> bool {
        self.wager_index(token) < self.wagers.len()
    }

    /// What `token` is doing. The ledger is looked at first.
    pub open spec fn status(self, token: TokenView) -> TokenStatusView {
        if self.wagered(token) {
            TokenStatusView::Wager(self.wagers[self.wager_index(token)])
        } else if self.pending(token) {
            TokenStatusView::Matchmaking(self.matchmaking[self.entry_index(token)])
        } else {
            TokenStatusView::Idle
        }
    }

    /// The index of the first pending offer, in scan order, that `offer` can be
    /// paired with at `now`, or the length of the registry.
    pub open spec fn match_index(self, offer: Offer, now: Timestamp) -> int {
        first_index(self.matchmaking, is_compatible(offer, now))
    }

    /// The index at which an entry for `token` keeps the registry in scan order.
    pub open spec fn slot(self, token: TokenView) -> int {
        first_index(self.matchmaking, precedes_not(token))
    }

    /// The index at which a wager between the tokens of `key` keeps the
    /// ledger in ascending order.
    pub open spec fn wager_slot(self, key: (TokenView, TokenView)) -> int {
        first_index(self.wagers, precedes_not_key(key))
    }

    /// The state with `wager` put into the ledger at its place.
    pub open spec fn with_wager(self, wager: WagerView) -> StoreView {
        StoreView { wagers: self.wagers.insert(self.wager_slot(wager.id), wager), ..self }
    }

    /// The state after an accepted offer for `token`: paired with the first
    /// compatible pending offer, which leaves the registry, or else queued.
    pub open spec fn place(self, token: TokenView, offer: Offer, now: Timestamp) -> StoreView {
        let i = self.match_index(offer, now);
        if i < self.matchmaking.len() {
            (StoreView {
                config: self.config,
                matchmaking: self.matchmaking.remove(i),
                wagers: self.wagers,
            }).with_wager(matched_wager(token, offer, self.matchmaking[i], now))
        } else {
            StoreView {
                config: self.config,
                matchmaking: self.matchmaking.insert(
                    self.slot(token),
                    (token, queued_item(self.config, offer, now)),
                ),
                wagers: self.wagers,
            }
        }
    }

    /// The state after the pending offer of `token` is withdrawn.
    pub open spec fn cancel(self, token: TokenView) -> StoreView {
        StoreView {
            config: self.config,
            matchmaking: self.matchmaking.remove(self.entry_index(token)),
            wagers: self.wagers,
        }
    }

    /// The state after the wager between the tokens of `key` is settled.
    pub open spec fn settle(self, key: (TokenView, TokenView)) -> StoreView {
        StoreView {
            config: self.config,
            matchmaking: self.matchmaking,
            wagers: self.wagers.remove(self.pair_index(key)),
        }
    }
}


/// A token has a pending offer exactly if some entry of the registry is its
/// own, and then `entry_index` is the index of such an entry.
pub proof fn lemma_pending(s: StoreView, token: TokenView)
    ensures
        0 <= s.entry_index(token) <= s.matchmaking.len(),
        s.pending(token) ==> s.matchmaking[s.entry_index(token)].0 == token,
        !s.pending(token) ==> forall|i: int|
            0 <= i < s.matchmaking.len() ==> (#[trigger] s.matchmaking[i]).0 != token,
{
    let p = has_token(token);
    lemma_first_index(s.matchmaking, p);
    if !s.pending(token) {
        assert forall|i: int| 0 <= i < s.matchmaking.len() implies (#[trigger] s.matchmaking[i]).0
            != token by {
            assert(!p(s.matchmaking[i]));
        }
    }
}

/// A token is in a wager exactly if some wager of the ledger holds it, and
/// then `wager_index` is the index of such a wager.
pub proof fn lemma_wagered(s: StoreView, token: TokenView)
    ensures
        0 <= s.wager_index(token) <= s.wagers.len(),
        s.wagered(token) ==> holds(s.wagers[s.wager_index(token)].id, token),
        !s.wagered(token) ==> forall|i: int|
            0 <= i < s.wagers.len() ==> !holds((#[trigger] s.wagers[i]).id, token),
{
    let p = holds_token(token);
    lemma_first_index(s.wagers, p);
    if !s.wagered(token) {
        assert forall|i: int| 0 <= i < s.wagers.len() implies !holds(
            (#[trigger] s.wagers[i]).id,
            token,
        ) by {
            assert(!p(s.wagers[i]));
        }
    }
}

/// A token whose offer is at index `i` of the registry is pending.
pub proof fn lemma_pending_at(s: StoreView, token: TokenView, i: int)
    requires
        0 <= i < s.matchmaking.len(),
        s.matchmaking[i].0 == token,
    ensures
        s.pending(token),
{
    let p = has_token(token);
    lemma_first_index(s.matchmaking, p);
    assert(p(s.matchmaking[i]));
}

/// A token that the wager at index `i` of the ledger holds is in a wager.
pub proof fn lemma_wagered_at(s: StoreView, token: TokenView, i: int)
    requires
        0 <= i < s.wagers.len(),
        holds(s.wagers[i].id, token),
    ensures
        s.wagered(token),
{
    let p = holds_token(token);
    lemma_first_index(s.wagers, p);
    assert(p(s.wagers[i]));
}

/// Taking the entry at index `i` out of the registry leaves both its token
/// and any token that was idle without an offer and outside every wager.
pub proof fn lemma_after_match(s: StoreView, token: TokenView, i: int)
    requires
        s.wf(),
        0 <= i < s.matchmaking.len(),
        !s.pending(token),
        !s.wagered(token),
    ensures
        s.matchmaking[i].0 != token,
        ({
            let after = StoreView { matchmaking: s.matchmaking.remove(i), ..s };
            &&& !after.pending(token)
            &&& !after.wagered(token)
            &&& !after.pending(s.matchmaking[i].0)
            &&& !after.wagered(s.matchmaking[i].0)
        }),
{
    let after = StoreView { matchmaking: s.matchmaking.remove(i), ..s };
    let other = s.matchmaking[i].0;
    lemma_pending(s, token);
    lemma_pending(after, token);
    lemma_pending(after, other);
    lemma_wagered(after, other);
    if after.pending(other) {
        let k = after.entry_index(other);
        let k0 = if k < i { k } else { k + 1 };
        if k0 < i {
            lemma_token_lt_asymmetric(s.matchmaking[k0].0, s.matchmaking[i].0);
        } else {
            lemma_token_lt_asymmetric(s.matchmaking[i].0, s.matchmaking[k0].0);
        }
    }
}

/// In a well-formed state the slot of a token without an offer parts the
/// registry: the tokens before it precede the token, those from it on follow it.
pub proof fn lemma_slot(s: StoreView, token: TokenView)
    requires
        s.wf(),
        !s.pending(token),
    ensures
        0 <= s.slot(token) <= s.matchmaking.len(),
        forall|j: int|
            0 <= j < s.slot(token) ==> token_lt((#[trigger] s.matchmaking[j]).0, token),
        forall|j: int|
            s.slot(token) <= j < s.matchmaking.len() ==> token_lt(
                token,
                (#[trigger] s.matchmaking[j]).0,
            ),
{
    let slot = s.slot(token);
    lemma_first_index(s.matchmaking, precedes_not(token));
    lemma_pending(s, token);
    assert forall|j: int| 0 <= j < slot implies token_lt(
        (#[trigger] s.matchmaking[j]).0,
        token,
    ) by {
        assert(!precedes_not(token)(s.matchmaking[j]));
    }
    assert forall|j: int| slot <= j < s.matchmaking.len() implies token_lt(
        token,
        (#[trigger] s.matchmaking[j]).0,
    ) by {
        if j > slot && token_lt(s.matchmaking[j].0, token) {
            lemma_token_lt_transitive(s.matchmaking[slot].0, s.matchmaking[j].0, token);
        }
        if !token_lt(token, s.matchmaking[j].0) {
            lemma_token_lt_connected(token, s.matchmaking[j].0);
        }
    }
}

/// Queueing an offer for an idle token keeps the state well formed.
pub proof fn lemma_insert_entry_wf(s: StoreView, token: TokenView, item: MatchmakingItemView)
    requires
        s.wf(),
        !s.pending(token),
        !s.wagered(token),
    ensures
        0 <= s.slot(token) <= s.matchmaking.len(),
        (StoreView { matchmaking: s.matchmaking.insert(s.slot(token), (token, item)), ..s }).wf(),
{
    lemma_slot(s, token);
    lemma_wagered(s, token);
}

/// In a well-formed state the slot of a pair whose first token is in no
/// wager parts the ledger: the pairs before it precede the pair, those from
/// it on follow it.
pub proof fn lemma_wager_slot(s: StoreView, key: (TokenView, TokenView))
    requires
        s.wf(),
        !s.wagered(key.0),
    ensures
        0 <= s.wager_slot(key) <= s.wagers.len(),
        forall|j: int| 0 <= j < s.wager_slot(key) ==> key_lt((#[trigger] s.wagers[j]).id, key),
        forall|j: int|
            s.wager_slot(key) <= j < s.wagers.len() ==> key_lt(key, (#[trigger] s.wagers[j]).id),
{
    let slot = s.wager_slot(key);
    lemma_first_index(s.wagers, precedes_not_key(key));
    lemma_wagered(s, key.0);
    assert forall|j: int| 0 <= j < slot implies key_lt((#[trigger] s.wagers[j]).id, key) by {
        assert(!precedes_not_key(key)(s.wagers[j]));
    }
    assert forall|j: int| slot <= j < s.wagers.len() implies key_lt(
        key,
        (#[trigger] s.wagers[j]).id,
    ) by {
        if j > slot && token_lt(s.wagers[j].id.0, key.0) {
            lemma_token_lt_transitive(s.wagers[slot].id.0, s.wagers[j].id.0, key.0);
        }
        if !token_lt(key.0, s.wagers[j].id.0) {
            lemma_token_lt_connected(key.0, s.wagers[j].id.0);
        }
    }
}

/// Putting a wager between two different idle tokens, the earlier in scan
/// order first, into the ledger at its place keeps the state well formed.
pub proof fn lemma_insert_wager_wf(s: StoreView, w: WagerView)
    requires
        s.wf(),
        token_lt(w.id.0, w.id.1),
        !s.pending(w.id.0),
        !s.pending(w.id.1),
        !s.wagered(w.id.0),
        !s.wagered(w.id.1),
    ensures
        0 <= s.wager_slot(w.id) <= s.wagers.len(),
        s.with_wager(w).wf(),
{
    lemma_wager_slot(s, w.id);
    lemma_pending(s, w.id.0);
    lemma_pending(s, w.id.1);
    lemma_wagered(s, w.id.0);
    lemma_wagered(s, w.id.1);
}

/// The sum of `f` over the elements of `s`.
pub open spec fn total<A>(s: Seq<A>, f: spec_fn(A) -> int) -> int
    decreases s.len(),
{
    if s.len() == 0 {
        0
    } else {
        total(s.drop_last(), f) + f(s.last())
    }
}

/// An element that is put into a sequence adds its part to the sum.
pub proof fn lemma_total_insert<A>(s: Seq<A>, f: spec_fn(A) -> int, i: int, a: A)
    requires
        0 <= i <= s.len(),
    ensures
        total(s.insert(i, a), f) == total(s, f) + f(a),
    decreases s.len(),
{
    if i == s.len() {
        assert(s.insert(i, a).drop_last() =~= s);
    } else {
        assert(s.insert(i, a).drop_last() =~= s.drop_last().insert(i, a));
        lemma_total_insert(s.drop_last(), f, i, a);
    }
}

/// An element that is taken out of a sequence takes its part out of the sum.
pub proof fn lemma_total_remove<A>(s: Seq<A>, f: spec_fn(A) -> int, i: int)
    requires
        0 <= i < s.len(),
    ensures
        total(s.remove(i), f) == total(s, f) - f(s[i]),
    decreases s.len(),
{
    if i < s.len() - 1 {
        assert(s.remove(i).drop_last() =~= s.drop_last().remove(i));
        lemma_total_remove(s.drop_last(), f, i);
    }
}

/// The stake of a pending offer.
pub open spec fn stake_of() -> spec_fn(EntryView) -> int {
    |e: EntryView| e.1.amount as int
}

/// The pool of a wager: both stakes.
pub open spec fn pool_in() -> spec_fn(WagerView) -> int {
    |w: WagerView| 2 * w.amount
}

impl StoreView {
    /// What the engine holds in escrow: the stake of every pending offer and
    /// the pool of every wager.
    pub open spec fn escrow(self) -> int {
        total(self.matchmaking, stake_of()) + total(self.wagers, pool_in())
    }
}

} // verus!

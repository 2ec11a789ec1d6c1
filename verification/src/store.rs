//! The engine's state as it is held in memory: the configuration, the
//! matchmaking registry and the wager ledger, with the operations that read
//! and change them one entry at a time.

use crate::model::{
    earlier_first, has_token, holds, holds_token, is_compatible, is_first_index, is_pair,
    lemma_first_index_is, lemma_insert_entry_wf, lemma_insert_wager_wf, precedes_not,
    precedes_not_key, same_pair, Offer, StoreView,
};
use crate::order::{precedes_key, rank_tokens, token_lt, Rank, Token, WagerKey};
use crate::state::{
    contains_currency, Config, Currency, EntryView, MatchmakingItem, Timestamp, Wager, WagerView,
};
use vstd::prelude::*;

verus! {

/// The state of the engine. Every value of this type is well formed: the
/// configuration is valid, the registry is in scan order, the ledger is in
/// ascending order of its pairs, no token is in two wagers, and no token has
/// a pending offer while it is in a wager.
#[derive(Debug)]
pub struct Store {
    config: Config,
    matchmaking: Vec<(Token, MatchmakingItem)>,
    wagers: Vec<Wager>,
}

/// What the registry's entries are in contracts.
pub open spec fn entries_view(entries: Seq<(Token, MatchmakingItem)>) -> Seq<EntryView> {
    Seq::new(entries.len(), |i: int| (entries[i].0@, entries[i].1@))
}

/// What the ledger's wagers are in contracts.
pub open spec fn wagers_view(wagers: Seq<Wager>) -> Seq<WagerView> {
    Seq::new(wagers.len(), |i: int| wagers[i]@)
}

impl View for Store {
    type V = StoreView;

    closed spec fn view(&self) -> StoreView {
        StoreView {
            config: self.config@,
            matchmaking: entries_view(self.matchmaking@),
            wagers: wagers_view(self.wagers@),
        }
    }
}

impl Store {
    /// What holds of every value of this type.
    #[verifier::type_invariant]
    spec fn well_formed(self) -> bool {
        self@.wf()
    }

    /// Every state that the engine holds is well formed. Calling this makes
    /// the fact known to the caller; it does nothing when run.
    pub(crate) fn establish_wf(&self)
        ensures
            self@.wf(),
    {
        proof {
            use_type_invariant(self);
        }
    }

    /// The state with the given configuration, no pending offer and no
    /// wager; or nothing, where the configuration is not valid.
    pub fn new(config: Config) -> (store: Option<Store>)
        ensures
            store is Some <==> config@.valid(),
            store is Some ==> store->Some_0@ == (StoreView {
                config: config@,
                matchmaking: Seq::empty(),
                wagers: Seq::empty(),
            }) && store->Some_0@.wf(),
    {
        if !config.is_valid() {
            return None;
        }
        let store = Store { config, matchmaking: Vec::new(), wagers: Vec::new() };
        assert(store@.matchmaking =~= Seq::empty());
        assert(store@.wagers =~= Seq::empty());
        Some(store)
    }

    /// The configuration.
    pub fn config(&self) -> (config: &Config)
        ensures
            config@ == self@.config,
    {
        &self.config
    }

    /// Replaces the configuration.
    pub(crate) fn set_config(&mut self, config: Config)
        requires
            config@.valid(),
        ensures
            final(self)@ == (StoreView { config: config@, ..old(self)@ }),
    {
        proof {
            use_type_invariant(&*self);
        }
        self.config = config;
    }

    /// The number of pending offers.
    pub fn matchmaking_len(&self) -> (n: usize)
        ensures
            n == self@.matchmaking.len(),
    {
        self.matchmaking.len()
    }

    /// The number of active wagers.
    pub fn wagers_len(&self) -> (n: usize)
        ensures
            n == self@.wagers.len(),
    {
        self.wagers.len()
    }

    /// The pending offer at index `i` of the registry, with its token.
    pub fn entry(&self, i: usize) -> (entry: &(Token, MatchmakingItem))
        requires
            i < self@.matchmaking.len(),
        ensures
            (entry.0@, entry.1@) == self@.matchmaking[i as int],
    {
        &self.matchmaking[i]
    }

    /// The wager at index `i` of the ledger.
    pub fn wager(&self, i: usize) -> (wager: &Wager)
        requires
            i < self@.wagers.len(),
        ensures
            wager@ == self@.wagers[i as int],
    {
        &self.wagers[i]
    }

    /// The index of the pending offer of `token`, or the length of the registry.
    pub fn find_entry(&self, token: &Token) -> (i: usize)
        ensures
            i == self@.entry_index(token@),
            i <= self@.matchmaking.len(),
            i < self@.matchmaking.len() ==> self@.matchmaking[i as int].0 == token@,
    {
        let ghost p = has_token(token@);
        let mut i: usize = 0;
        while i < self.matchmaking.len()
            invariant
                i <= self.matchmaking.len(),
                p == has_token(token@),
                forall|j: int| 0 <= j < i ==> !#[trigger] p(self@.matchmaking[j]),
            decreases self.matchmaking.len() - i,
        {
            if let Rank::Same = rank_tokens(&self.matchmaking[i].0, token) {
                proof {
                    lemma_first_index_is(self@.matchmaking, p, i as int);
                }
                return i;
            }
            i += 1;
        }
        proof {
            lemma_first_index_is(self@.matchmaking, p, i as int);
        }
        i
    }

    /// The index of the wager that `token` is in, or the length of the ledger.
    pub fn find_wager(&self, token: &Token) -> (i: usize)
        ensures
            i == self@.wager_index(token@),
            i <= self@.wagers.len(),
            i < self@.wagers.len() ==> holds(self@.wagers[i as int].id, token@),
    {
        let ghost p = holds_token(token@);
        let mut i: usize = 0;
        while i < self.wagers.len()
            invariant
                i <= self.wagers.len(),
                p == holds_token(token@),
                forall|j: int| 0 <= j < i ==> !#[trigger] p(self@.wagers[j]),
            decreases self.wagers.len() - i,
        {
            let first = rank_tokens(&self.wagers[i].id.0, token) == Rank::Same;
            let second = rank_tokens(&self.wagers[i].id.1, token) == Rank::Same;
            if first || second {
                proof {
                    lemma_first_index_is(self@.wagers, p, i as int);
                }
                return i;
            }
            i += 1;
        }
        proof {
            lemma_first_index_is(self@.wagers, p, i as int);
        }
        i
    }

    /// The index of the wager between the two tokens of `key`, in either
    /// order, or the length of the ledger.
    pub fn find_pair(&self, key: &WagerKey) -> (i: usize)
        ensures
            i == self@.pair_index(key@),
            i <= self@.wagers.len(),
            i < self@.wagers.len() ==> same_pair(self@.wagers[i as int].id, key@),
    {
        let ghost p = is_pair(key@);
        let mut i: usize = 0;
        while i < self.wagers.len()
            invariant
                i <= self.wagers.len(),
                p == is_pair(key@),
                forall|j: int| 0 <= j < i ==> !#[trigger] p(self@.wagers[j]),
            decreases self.wagers.len() - i,
        {
            let id = &self.wagers[i].id;
            let straight = rank_tokens(&id.0, &key.0) == Rank::Same && rank_tokens(&id.1, &key.1)
                == Rank::Same;
            let crossed = rank_tokens(&id.0, &key.1) == Rank::Same && rank_tokens(&id.1, &key.0)
                == Rank::Same;
            if straight || crossed {
                proof {
                    lemma_first_index_is(self@.wagers, p, i as int);
                }
                return i;
            }
            i += 1;
        }
        proof {
            lemma_first_index_is(self@.wagers, p, i as int);
        }
        i
    }

    /// The index of the first pending offer, in scan order, that the given
    /// offer can be paired with at `now`, or the length of the registry.
    pub fn find_match(
        &self,
        currency: Currency,
        against_currencies: &Vec<Currency>,
        expiry: u64,
        amount: u128,
        now: Timestamp,
    ) -> (i: usize)
        ensures
            i == self@.match_index(
                Offer { currency, against_currencies: against_currencies@, expiry, amount },
                now,
            ),
            i <= self@.matchmaking.len(),
    {
        let ghost offer = Offer {
            currency,
            against_currencies: against_currencies@,
            expiry,
            amount,
        };
        let ghost p = is_compatible(offer, now);
        let mut i: usize = 0;
        while i < self.matchmaking.len()
            invariant
                i <= self.matchmaking.len(),
                p == is_compatible(offer, now),
                offer == (Offer {
                    currency,
                    against_currencies: against_currencies@,
                    expiry,
                    amount,
                }),
                forall|j: int| 0 <= j < i ==> !#[trigger] p(self@.matchmaking[j]),
            decreases self.matchmaking.len() - i,
        {
            let item = &self.matchmaking[i].1;
            if contains_currency(&item.against_currencies, currency) && contains_currency(
                against_currencies,
                item.currency,
            ) && item.expiry == expiry && item.amount == amount && item.expires_at.nanos
                > now.nanos {
                proof {
                    lemma_first_index_is(self@.matchmaking, p, i as int);
                }
                return i;
            }
            i += 1;
        }
        proof {
            lemma_first_index_is(self@.matchmaking, p, i as int);
        }
        i
    }

    /// The index at which an entry for `token` keeps the registry in scan order.
    fn find_slot(&self, token: &Token) -> (i: usize)
        ensures
            i == self@.slot(token@),
            is_first_index(self@.matchmaking, precedes_not(token@), i as int),
    {
        let ghost p = precedes_not(token@);
        let mut i: usize = 0;
        while i < self.matchmaking.len()
            invariant
                i <= self.matchmaking.len(),
                p == precedes_not(token@),
                forall|j: int| 0 <= j < i ==> !#[trigger] p(self@.matchmaking[j]),
            decreases self.matchmaking.len() - i,
        {
            if rank_tokens(&self.matchmaking[i].0, token) != Rank::Before {
                proof {
                    lemma_first_index_is(self@.matchmaking, p, i as int);
                }
                return i;
            }
            i += 1;
        }
        proof {
            lemma_first_index_is(self@.matchmaking, p, i as int);
        }
        i
    }

    /// Adds a pending offer for a token that has none and is in no wager.
    pub(crate) fn insert_entry(&mut self, token: Token, item: MatchmakingItem)
        requires
            !old(self)@.pending(token@),
            !old(self)@.wagered(token@),
        ensures
            final(self)@ == (StoreView {
                matchmaking: old(self)@.matchmaking.insert(
                    old(self)@.slot(token@),
                    (token@, item@),
                ),
                ..old(self)@
            }),
    {
        let slot = self.find_slot(&token);
        proof {
            use_type_invariant(&*self);
            lemma_insert_entry_wf(self@, token@, item@);
            assert(entries_view(self.matchmaking@.insert(slot as int, (token, item)))
                =~= self@.matchmaking.insert(slot as int, (token@, item@)));
        }
        let mut entries: Vec<(Token, MatchmakingItem)> = Vec::new();
        core::mem::swap(&mut self.matchmaking, &mut entries);
        entries.insert(slot, (token, item));
        self.matchmaking = entries;
    }

    /// Takes the pending offer at index `i` out of the registry.
    pub(crate) fn remove_entry(&mut self, i: usize) -> (entry: (Token, MatchmakingItem))
        requires
            i < old(self)@.matchmaking.len(),
        ensures
            (entry.0@, entry.1@) == old(self)@.matchmaking[i as int],
            final(self)@ == (StoreView {
                matchmaking: old(self)@.matchmaking.remove(i as int),
                ..old(self)@
            }),
    {
        proof {
            use_type_invariant(&*self);
            assert(entries_view(self.matchmaking@.remove(i as int)) =~= self@.matchmaking.remove(
                i as int,
            ));
        }
        let mut entries: Vec<(Token, MatchmakingItem)> = Vec::new();
        core::mem::swap(&mut self.matchmaking, &mut entries);
        let entry = entries.remove(i);
        self.matchmaking = entries;
        entry
    }

    /// The index at which a wager between the tokens of `key` keeps the
    /// ledger in ascending order.
    fn find_wager_slot(&self, key: &WagerKey) -> (i: usize)
        ensures
            i == self@.wager_slot(key@),
            i <= self@.wagers.len(),
    {
        let ghost p = precedes_not_key(key@);
        let mut i: usize = 0;
        while i < self.wagers.len()
            invariant
                i <= self.wagers.len(),
                p == precedes_not_key(key@),
                forall|j: int| 0 <= j < i ==> !#[trigger] p(self@.wagers[j]),
            decreases self.wagers.len() - i,
        {
            if !precedes_key(&self.wagers[i].id, key) {
                proof {
                    lemma_first_index_is(self@.wagers, p, i as int);
                }
                return i;
            }
            i += 1;
        }
        proof {
            lemma_first_index_is(self@.wagers, p, i as int);
        }
        i
    }

    /// Puts a wager between two tokens that have no pending offer and are in
    /// no wager, the earlier in scan order first, into the ledger at its place.
    pub(crate) fn insert_wager(&mut self, wager: Wager)
        requires
            token_lt(wager@.id.0, wager@.id.1),
            !old(self)@.pending(wager@.id.0),
            !old(self)@.pending(wager@.id.1),
            !old(self)@.wagered(wager@.id.0),
            !old(self)@.wagered(wager@.id.1),
        ensures
            final(self)@ == old(self)@.with_wager(wager@),
    {
        let slot = self.find_wager_slot(&wager.id);
        proof {
            use_type_invariant(&*self);
            lemma_insert_wager_wf(self@, wager@);
            assert(wagers_view(self.wagers@.insert(slot as int, wager)) =~= self@.wagers.insert(
                slot as int,
                wager@,
            ));
        }
        let mut wagers: Vec<Wager> = Vec::new();
        core::mem::swap(&mut self.wagers, &mut wagers);
        wagers.insert(slot, wager);
        self.wagers = wagers;
    }

    /// Takes the wager at index `i` out of the ledger.
    pub(crate) fn remove_wager(&mut self, i: usize) -> (wager: Wager)
        requires
            i < old(self)@.wagers.len(),
        ensures
            wager@ == old(self)@.wagers[i as int],
            final(self)@ == (StoreView {
                wagers: old(self)@.wagers.remove(i as int),
                ..old(self)@
            }),
    {
        proof {
            use_type_invariant(&*self);
            assert(wagers_view(self.wagers@.remove(i as int)) =~= self@.wagers.remove(i as int));
        }
        let mut wagers: Vec<Wager> = Vec::new();
        core::mem::swap(&mut self.wagers, &mut wagers);
        let wager = wagers.remove(i);
        self.wagers = wagers;
        wager
    }

    /// Whether `token` has neither a pending offer nor a wager.
    pub fn is_idle(&self, token: &Token) -> (idle: bool)
        ensures
            idle == (self@.status(token@) is Idle),
    {
        self.find_wager(token) >= self.wagers_len() && self.find_entry(token)
            >= self.matchmaking_len()
    }

    /// Puts a pending offer into the registry, at its place in scan order. It
    /// is refused, and the state stays as it is, unless the token is idle.
    pub fn restore_offer(&mut self, token: Token, item: MatchmakingItem) -> (restored: bool)
        ensures
            restored == (old(self)@.status(token@) is Idle),
            restored ==> final(self)@ == (StoreView {
                matchmaking: old(self)@.matchmaking.insert(
                    old(self)@.slot(token@),
                    (token@, item@),
                ),
                ..old(self)@
            }),
            !restored ==> final(self)@ == old(self)@,
            final(self)@.wf(),
    {
        self.establish_wf();
        if !self.is_idle(&token) {
            return false;
        }
        self.insert_entry(token, item);
        self.establish_wf();
        true
    }

    /// Puts a wager into the ledger at its place, the earlier of its tokens
    /// first and each currency with its token. It is refused, and the state
    /// stays as it is, unless the two tokens are different and both are idle.
    pub fn restore_wager(&mut self, wager: Wager) -> (restored: bool)
        ensures
            restored == (wager@.id.0 != wager@.id.1 && old(self)@.status(wager@.id.0) is Idle
                && old(self)@.status(wager@.id.1) is Idle),
            restored ==> final(self)@ == old(self)@.with_wager(earlier_first(wager@)),
            !restored ==> final(self)@ == old(self)@,
            final(self)@.wf(),
    {
        self.establish_wf();
        let rank = rank_tokens(&wager.id.0, &wager.id.1);
        if rank == Rank::Same || !self.is_idle(&wager.id.0) || !self.is_idle(&wager.id.1) {
            return false;
        }
        let ordered = if rank == Rank::Before {
            wager
        } else {
            Wager {
                id: (wager.id.1, wager.id.0),
                currencies: (wager.currencies.1, wager.currencies.0),
                amount: wager.amount,
                expires_at: wager.expires_at,
            }
        };
        self.insert_wager(ordered);
        self.establish_wf();
        true
    }
}

} // verus!

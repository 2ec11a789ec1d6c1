use cw_wager::ContractError;
use cw_wager::contract::{
    instantiate, query_matchmaking, query_token_status, query_wager, query_wagers,
};
use cw_wager::error::StdError;
use cw_wager::execute::{execute_cancel, execute_set_winner, execute_wager};
use cw_wager::helpers::SubMsg;
use cw_wager::msg::InstantiateMsg;
use cw_wager::response::{FairBurn, Response};
use cw_wager::state::{
    BlockInfo, Coin, Currency, Decimal, Env, MatchmakingItemExport, MessageInfo, Timestamp,
    TokenStatus, WagerExport, WagerInfo, NFT,
};
use cw_wager::store::Store;

const ADMIN: &str = "admin";
const COLLECTION: &str = "collection";
const ALICE: &str = "alice";
const BOB: &str = "bob";
const CAROL: &str = "carol";

fn engine() -> Store {
    let msg = InstantiateMsg {
        max_currencies: 3,
        amounts: vec![100],
        expiries: vec![60],
        fee_bps: 400,
        fairburn_bps: 100,
        fee_address: ADMIN.to_string(),
        collection_address: COLLECTION.to_string(),
        matchmaking_expiry: 60,
    };
    let info = MessageInfo { sender: ADMIN.to_string(), funds: vec![] };
    instantiate(info, msg, Ok(ADMIN.to_string()), Ok(COLLECTION.to_string())).unwrap().0
}

fn at(seconds: u64) -> Env {
    Env { block: BlockInfo { time: Timestamp::from_seconds(seconds) } }
}

fn token(id: u64) -> (String, u64) {
    (COLLECTION.to_string(), id)
}

fn nft(id: u64) -> NFT {
    NFT { collection: COLLECTION.to_string(), token_id: id }
}

fn send(to: &str, amount: u128) -> SubMsg {
    SubMsg {
        to_address: to.to_string(),
        amount: vec![Coin { denom: "ustars".to_string(), amount }],
    }
}

fn offer(
    store: &mut Store,
    seconds: u64,
    sender: &str,
    id: u64,
    currency: Currency,
    against: Vec<Currency>,
) -> Result<Response, ContractError> {
    let info = MessageInfo {
        sender: sender.to_string(),
        funds: vec![Coin { denom: "ustars".to_string(), amount: 100 }],
    };
    let owner = Ok(sender.to_string());
    execute_wager(store, at(seconds), info, token(id), currency, against, 60, owner)
}

fn cancel(store: &mut Store, sender: &str, id: u64) -> Result<Response, ContractError> {
    let info = MessageInfo { sender: sender.to_string(), funds: vec![] };
    execute_cancel(store, info, token(id), Ok(sender.to_string()))
}

fn settle(
    store: &mut Store,
    seconds: u64,
    key: (u64, u64),
    prev: (u64, u64),
    current: (u64, u64),
    owners: (&str, &str),
) -> Result<Response, ContractError> {
    execute_set_winner(
        store,
        at(seconds),
        (token(key.0), token(key.1)),
        (Decimal::percent(prev.0), Decimal::percent(prev.1)),
        (Decimal::percent(current.0), Decimal::percent(current.1)),
        (Ok(owners.0.to_string()), Ok(owners.1.to_string())),
    )
}

fn status(store: &Store, id: u64) -> TokenStatus {
    query_token_status(store, token(id)).unwrap().token_status
}

fn the_wager(expires_at: u64) -> WagerExport {
    WagerExport {
        amount: 100,
        expires_at: Timestamp::from_seconds(expires_at),
        wagers: (
            WagerInfo { token: nft(1), currency: Currency::Btc },
            WagerInfo { token: nft(2), currency: Currency::Eth },
        ),
    }
}

fn matched_pair() -> Store {
    let mut store = engine();
    offer(&mut store, 0, ALICE, 1, Currency::Btc, vec![Currency::Eth]).unwrap();
    offer(&mut store, 10, BOB, 2, Currency::Eth, vec![Currency::Btc]).unwrap();
    store
}

#[test]
fn offer_is_queued_then_matched_then_won() {
    let mut store = engine();

    let queued = offer(&mut store, 0, ALICE, 1, Currency::Btc, vec![Currency::Eth]).unwrap();
    assert_eq!(
        queued,
        Response::Matchmake { token: token(1), expires_at: Timestamp::from_seconds(60) }
    );
    assert_eq!(
        status(&store, 1),
        TokenStatus::Matchmaking(MatchmakingItemExport {
            token: nft(1),
            currency: Currency::Btc,
            against_currencies: vec![Currency::Eth],
            expires_at: Timestamp::from_seconds(60),
            expiry: 60,
            amount: 100,
        })
    );

    let matched = offer(&mut store, 10, BOB, 2, Currency::Eth, vec![Currency::Btc]).unwrap();
    assert_eq!(
        matched,
        Response::Wager { token: token(2), expires_at: Timestamp::from_seconds(70) }
    );
    assert_eq!(query_wagers(&store).unwrap().wagers, vec![the_wager(70)]);
    assert!(query_matchmaking(&store).unwrap().matchmaking.is_empty());
    assert_eq!(status(&store, 1), TokenStatus::Wager(the_wager(70)));
    assert_eq!(status(&store, 2), TokenStatus::Wager(the_wager(70)));

    let won = settle(&mut store, 70, (1, 2), (100, 100), (110, 105), (ALICE, BOB)).unwrap();
    assert_eq!(
        won,
        Response::SetWinner {
            burn: FairBurn { amount: 2, developer: ADMIN.to_string() },
            fee: send(ADMIN, 8),
            payout: send(ALICE, 190),
        }
    );
    assert!(query_wagers(&store).unwrap().wagers.is_empty());
    assert_eq!(status(&store, 1), TokenStatus::Idle);
    assert_eq!(status(&store, 2), TokenStatus::Idle);
}

#[test]
fn equal_ratios_refund_both_sides() {
    let mut store = matched_pair();
    let tie = settle(&mut store, 70, (1, 2), (100, 100), (110, 110), (ALICE, BOB)).unwrap();
    assert_eq!(tie, Response::Tie { first: send(ALICE, 100), second: send(BOB, 100) });
    assert!(query_wagers(&store).unwrap().wagers.is_empty());
}

#[test]
fn equal_ratios_of_different_prices_are_a_tie() {
    let mut store = matched_pair();
    // 300 / 200 and 150 / 100 are the same ratio.
    let tie = settle(&mut store, 70, (1, 2), (200, 100), (300, 150), (ALICE, BOB)).unwrap();
    assert_eq!(tie, Response::Tie { first: send(ALICE, 100), second: send(BOB, 100) });
}

#[test]
fn cancel_of_a_wagered_token_is_refused() {
    let mut store = matched_pair();
    let err = cancel(&mut store, ALICE, 1).unwrap_err();
    assert_eq!(err, ContractError::NotMatchmaking {});
    assert_eq!(query_wagers(&store).unwrap().wagers, vec![the_wager(70)]);
    assert!(query_matchmaking(&store).unwrap().matchmaking.is_empty());
    assert_eq!(status(&store, 1), TokenStatus::Wager(the_wager(70)));
    assert_eq!(status(&store, 2), TokenStatus::Wager(the_wager(70)));
}

#[test]
fn either_order_of_offers_gives_one_wager_with_both() {
    let mut store = engine();
    offer(&mut store, 0, BOB, 2, Currency::Eth, vec![Currency::Btc]).unwrap();
    let matched = offer(&mut store, 10, ALICE, 1, Currency::Btc, vec![Currency::Eth]).unwrap();
    assert_eq!(
        matched,
        Response::Wager { token: token(1), expires_at: Timestamp::from_seconds(70) }
    );
    assert_eq!(query_wagers(&store).unwrap().wagers, vec![the_wager(70)]);
    assert!(query_matchmaking(&store).unwrap().matchmaking.is_empty());
    assert_eq!(query_wager(&store, token(1)).unwrap().wager, the_wager(70));
    assert_eq!(query_wager(&store, token(2)).unwrap().wager, the_wager(70));
}

#[test]
fn the_key_is_found_in_either_order() {
    let mut store = matched_pair();
    // The prices follow the order of the key: token 2 first, token 1 second.
    let won = settle(&mut store, 70, (2, 1), (100, 100), (105, 110), (BOB, ALICE)).unwrap();
    assert_eq!(
        won,
        Response::SetWinner {
            burn: FairBurn { amount: 2, developer: ADMIN.to_string() },
            fee: send(ADMIN, 8),
            payout: send(ALICE, 190),
        }
    );
}

#[test]
fn the_second_side_can_win() {
    let mut store = matched_pair();
    let won = settle(&mut store, 71, (1, 2), (100, 100), (105, 110), (ALICE, BOB)).unwrap();
    assert_eq!(
        won,
        Response::SetWinner {
            burn: FairBurn { amount: 2, developer: ADMIN.to_string() },
            fee: send(ADMIN, 8),
            payout: send(BOB, 190),
        }
    );
}

#[test]
fn the_payout_goes_to_the_owner_at_settlement() {
    let mut store = matched_pair();
    // Token 1 has changed hands since the wager was made.
    let won = settle(&mut store, 70, (1, 2), (100, 100), (110, 105), (CAROL, BOB)).unwrap();
    assert_eq!(
        won,
        Response::SetWinner {
            burn: FairBurn { amount: 2, developer: ADMIN.to_string() },
            fee: send(ADMIN, 8),
            payout: send(CAROL, 190),
        }
    );
}

#[test]
fn the_loser_need_not_be_found() {
    let mut store = matched_pair();
    let lost = Err(StdError::GenericErr { msg: "no such token".to_string() });
    let won = execute_set_winner(
        &mut store,
        at(70),
        (token(1), token(2)),
        (Decimal::one(), Decimal::one()),
        (Decimal::percent(110), Decimal::percent(105)),
        (Ok(ALICE.to_string()), lost),
    )
    .unwrap();
    assert_eq!(
        won,
        Response::SetWinner {
            burn: FairBurn { amount: 2, developer: ADMIN.to_string() },
            fee: send(ADMIN, 8),
            payout: send(ALICE, 190),
        }
    );
}

#[test]
fn cancel_then_resubmit_gives_a_fresh_expiry() {
    let mut store = engine();
    offer(&mut store, 0, ALICE, 1, Currency::Btc, vec![Currency::Eth]).unwrap();
    let cancelled = cancel(&mut store, ALICE, 1).unwrap();
    assert_eq!(cancelled, Response::Cancel { token: token(1), refund: send(ALICE, 100) });
    assert_eq!(status(&store, 1), TokenStatus::Idle);

    let again = offer(&mut store, 25, ALICE, 1, Currency::Btc, vec![Currency::Eth]).unwrap();
    assert_eq!(
        again,
        Response::Matchmake { token: token(1), expires_at: Timestamp::from_seconds(85) }
    );
    assert_eq!(
        query_matchmaking(&store).unwrap().matchmaking,
        vec![MatchmakingItemExport {
            token: nft(1),
            currency: Currency::Btc,
            against_currencies: vec![Currency::Eth],
            expires_at: Timestamp::from_seconds(85),
            expiry: 60,
            amount: 100,
        }]
    );
}

#[test]
fn a_lapsed_offer_can_still_be_cancelled() {
    let mut store = engine();
    offer(&mut store, 0, ALICE, 1, Currency::Btc, vec![Currency::Eth]).unwrap();
    // No time is asked for: the offer lapsed at 60 and is withdrawn all the same.
    let cancelled = cancel(&mut store, ALICE, 1).unwrap();
    assert_eq!(cancelled, Response::Cancel { token: token(1), refund: send(ALICE, 100) });
}

#[test]
fn the_first_offer_in_scan_order_is_matched() {
    let mut store = engine();
    // Token 9 offers first, token 5 second; both suit the newcomer.
    offer(&mut store, 0, ALICE, 9, Currency::Btc, vec![Currency::Eth]).unwrap();
    offer(&mut store, 1, BOB, 5, Currency::Btc, vec![Currency::Eth, Currency::Sol]).unwrap();
    offer(&mut store, 2, CAROL, 7, Currency::Eth, vec![Currency::Btc]).unwrap();

    let wagers = query_wagers(&store).unwrap().wagers;
    assert_eq!(wagers.len(), 1);
    assert_eq!(wagers[0].wagers.0, WagerInfo { token: nft(5), currency: Currency::Btc });
    assert_eq!(wagers[0].wagers.1, WagerInfo { token: nft(7), currency: Currency::Eth });
    assert_eq!(wagers[0].expires_at, Timestamp::from_seconds(62));

    let pending = query_matchmaking(&store).unwrap().matchmaking;
    assert_eq!(pending.len(), 1);
    assert_eq!(pending[0].token, nft(9));
}

#[test]
fn pending_offers_are_listed_in_scan_order() {
    let mut store = engine();
    offer(&mut store, 0, ALICE, 9, Currency::Btc, vec![Currency::Eth]).unwrap();
    offer(&mut store, 0, BOB, 5, Currency::Btc, vec![Currency::Eth]).unwrap();
    offer(&mut store, 0, CAROL, 7, Currency::Btc, vec![Currency::Eth]).unwrap();
    let pending = query_matchmaking(&store).unwrap().matchmaking;
    let ids: Vec<u64> = pending.iter().map(|e| e.token.token_id).collect();
    assert_eq!(ids, vec![5, 7, 9]);
}

#[test]
fn a_lapsed_offer_is_not_matched() {
    let mut store = engine();
    offer(&mut store, 0, ALICE, 1, Currency::Btc, vec![Currency::Eth]).unwrap();
    // Alice's offer lapses at 60: at that time it is no longer matched.
    let queued = offer(&mut store, 60, BOB, 2, Currency::Eth, vec![Currency::Btc]).unwrap();
    assert_eq!(
        queued,
        Response::Matchmake { token: token(2), expires_at: Timestamp::from_seconds(120) }
    );
    assert!(query_wagers(&store).unwrap().wagers.is_empty());
    assert_eq!(query_matchmaking(&store).unwrap().matchmaking.len(), 2);
}

#[test]
fn an_offer_is_matched_until_it_lapses() {
    let mut store = engine();
    offer(&mut store, 0, ALICE, 1, Currency::Btc, vec![Currency::Eth]).unwrap();
    // One second before it lapses the offer is matched, and the wager runs its full length.
    let matched = offer(&mut store, 59, BOB, 2, Currency::Eth, vec![Currency::Btc]).unwrap();
    assert_eq!(
        matched,
        Response::Wager { token: token(2), expires_at: Timestamp::from_seconds(119) }
    );
}

#[test]
fn one_sided_acceptance_does_not_match() {
    let mut store = engine();
    offer(&mut store, 0, ALICE, 1, Currency::Btc, vec![Currency::Eth]).unwrap();
    // Bob accepts Btc, but Alice does not accept Sol.
    offer(&mut store, 1, BOB, 2, Currency::Sol, vec![Currency::Btc]).unwrap();
    assert!(query_wagers(&store).unwrap().wagers.is_empty());
    assert_eq!(query_matchmaking(&store).unwrap().matchmaking.len(), 2);
}

#[test]
fn a_wager_cannot_be_settled_twice() {
    let mut store = matched_pair();
    settle(&mut store, 70, (1, 2), (100, 100), (110, 105), (ALICE, BOB)).unwrap();
    let err = settle(&mut store, 70, (1, 2), (100, 100), (110, 105), (ALICE, BOB)).unwrap_err();
    assert_eq!(err, ContractError::Std(StdError::NotFound { kind: "wager".to_string() }));
}

fn held(store: &Store) -> u128 {
    let pending: u128 =
        query_matchmaking(store).unwrap().matchmaking.iter().map(|item| item.amount).sum();
    let pooled: u128 = query_wagers(store).unwrap().wagers.iter().map(|w| 2 * w.amount).sum();
    pending + pooled
}

fn sent(msg: &SubMsg) -> u128 {
    msg.amount.iter().map(|c| c.amount).sum()
}

fn paid_out(response: &Response) -> u128 {
    match response {
        Response::Cancel { refund, .. } => sent(refund),
        Response::SetWinner { burn, fee, payout } => burn.amount + sent(fee) + sent(payout),
        Response::Tie { first, second } => sent(first) + sent(second),
        _ => 0,
    }
}

#[test]
fn what_is_held_is_what_was_paid_in_less_what_was_paid_out() {
    let mut store = engine();
    assert_eq!(held(&store), 0);

    let r = offer(&mut store, 0, ALICE, 1, Currency::Btc, vec![Currency::Eth]).unwrap();
    assert_eq!((held(&store), paid_out(&r)), (100, 0));
    let r = offer(&mut store, 1, CAROL, 3, Currency::Sol, vec![Currency::Ada]).unwrap();
    assert_eq!((held(&store), paid_out(&r)), (200, 0));
    let r = offer(&mut store, 2, BOB, 2, Currency::Eth, vec![Currency::Btc]).unwrap();
    assert_eq!((held(&store), paid_out(&r)), (300, 0));

    // A refused call pays nothing in and nothing out.
    assert!(offer(&mut store, 3, BOB, 2, Currency::Eth, vec![Currency::Btc]).is_err());
    assert_eq!(held(&store), 300);

    let r = cancel(&mut store, CAROL, 3).unwrap();
    assert_eq!((held(&store), paid_out(&r)), (200, 100));
    let r = settle(&mut store, 62, (1, 2), (100, 100), (130, 120), (ALICE, BOB)).unwrap();
    assert_eq!((held(&store), paid_out(&r)), (0, 200));

    offer(&mut store, 70, ALICE, 1, Currency::Btc, vec![Currency::Eth]).unwrap();
    offer(&mut store, 70, BOB, 2, Currency::Eth, vec![Currency::Btc]).unwrap();
    let r = settle(&mut store, 130, (1, 2), (100, 100), (120, 120), (ALICE, BOB)).unwrap();
    assert_eq!((held(&store), paid_out(&r)), (0, 200));
}

#[test]
fn queue_then_cancel_leaves_the_state_as_it_was() {
    let mut store = matched_pair();
    offer(&mut store, 20, CAROL, 9, Currency::Ada, vec![Currency::Xrp]).unwrap();
    offer(&mut store, 21, CAROL, 4, Currency::Sol, vec![Currency::Xrp]).unwrap();
    let pending = query_matchmaking(&store).unwrap().matchmaking;
    let wagers = query_wagers(&store).unwrap().wagers;

    let queued = offer(&mut store, 30, ALICE, 6, Currency::Dot, vec![Currency::Uni]).unwrap();
    assert_eq!(
        queued,
        Response::Matchmake { token: token(6), expires_at: Timestamp::from_seconds(90) }
    );
    assert_eq!(query_matchmaking(&store).unwrap().matchmaking.len(), 3);
    let cancelled = cancel(&mut store, ALICE, 6).unwrap();
    assert_eq!(cancelled, Response::Cancel { token: token(6), refund: send(ALICE, 100) });

    assert_eq!(query_matchmaking(&store).unwrap().matchmaking, pending);
    assert_eq!(query_wagers(&store).unwrap().wagers, wagers);
    assert_eq!(status(&store, 6), TokenStatus::Idle);
}

#[test]
fn wagers_are_listed_in_ascending_order_whenever_they_were_made() {
    let mut store = engine();
    offer(&mut store, 0, ALICE, 3, Currency::Btc, vec![Currency::Eth]).unwrap();
    offer(&mut store, 1, BOB, 4, Currency::Eth, vec![Currency::Btc]).unwrap();
    offer(&mut store, 2, ALICE, 2, Currency::Btc, vec![Currency::Eth]).unwrap();
    offer(&mut store, 3, BOB, 1, Currency::Eth, vec![Currency::Btc]).unwrap();

    let wagers = query_wagers(&store).unwrap().wagers;
    assert_eq!(wagers.len(), 2);
    // The wager of tokens 1 and 2 was made last and is listed first.
    assert_eq!(wagers[0].wagers.0, WagerInfo { token: nft(1), currency: Currency::Eth });
    assert_eq!(wagers[0].wagers.1, WagerInfo { token: nft(2), currency: Currency::Btc });
    assert_eq!(wagers[0].expires_at, Timestamp::from_seconds(63));
    assert_eq!(wagers[1].wagers.0, WagerInfo { token: nft(3), currency: Currency::Btc });
    assert_eq!(wagers[1].wagers.1, WagerInfo { token: nft(4), currency: Currency::Eth });
    assert_eq!(wagers[1].expires_at, Timestamp::from_seconds(61));
}

#[test]
fn either_order_of_offers_leaves_the_same_state() {
    let mut one = matched_pair();
    let mut other = engine();
    offer(&mut other, 0, BOB, 2, Currency::Eth, vec![Currency::Btc]).unwrap();
    offer(&mut other, 10, ALICE, 1, Currency::Btc, vec![Currency::Eth]).unwrap();
    assert_eq!(query_wagers(&one).unwrap(), query_wagers(&other).unwrap());
    assert_eq!(query_matchmaking(&one).unwrap(), query_matchmaking(&other).unwrap());
    let won = settle(&mut one, 70, (1, 2), (100, 100), (110, 105), (ALICE, BOB)).unwrap();
    assert_eq!(
        won,
        settle(&mut other, 70, (1, 2), (100, 100), (110, 105), (ALICE, BOB)).unwrap()
    );
}

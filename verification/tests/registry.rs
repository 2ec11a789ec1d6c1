use cw_wager::ContractError;
use cw_wager::contract::{
    clone_config, export_matchmaking, export_wager, instantiate, query, query_matchmaking,
    query_token_status, query_wagers,
};
use cw_wager::error::{generic_err, invalid_parameter, not_found, StdError};
use cw_wager::helpers::{coin, same_text, send_tokens, CwWagerContract, SubMsg};
use cw_wager::msg::{
    InstantiateMsg, MatchmakingResponse, QueryMsg, QueryResponse, TokenStatusResponse,
    WagerResponse, WagersResponse,
};
use cw_wager::order::{clone_token, precedes_key};
use cw_wager::state::{
    clone_list, contains_amount, contains_currency, contains_expiry, Coin, Config, Currency,
    Decimal, MatchmakingItem, MatchmakingItemExport, MessageInfo, Timestamp, TokenStatus, Wager,
    WagerExport, WagerInfo, NFT,
};
use cw_wager::store::Store;

const ADMIN: &str = "admin";
const COLLECTION: &str = "collection";

fn engine() -> Store {
    let msg = InstantiateMsg {
        max_currencies: 3,
        amounts: vec![100],
        expiries: vec![60],
        fee_bps: 400,
        fairburn_bps: 100,
        fee_address: ADMIN.to_string(),
        collection_address: COLLECTION.to_string(),
        matchmaking_expiry: 60,
    };
    let info = MessageInfo { sender: ADMIN.to_string(), funds: vec![] };
    instantiate(info, msg, Ok(ADMIN.to_string()), Ok(COLLECTION.to_string())).unwrap().0
}

fn token(id: u64) -> (String, u64) {
    (COLLECTION.to_string(), id)
}

fn nft(id: u64) -> NFT {
    NFT { collection: COLLECTION.to_string(), token_id: id }
}

fn item(currency: Currency) -> MatchmakingItem {
    MatchmakingItem {
        currency,
        against_currencies: vec![Currency::Eth, Currency::Sol],
        expires_at: Timestamp::from_seconds(60),
        expiry: 60,
        amount: 100,
    }
}

fn exported(id: u64, currency: Currency) -> MatchmakingItemExport {
    MatchmakingItemExport {
        token: nft(id),
        currency,
        against_currencies: vec![Currency::Eth, Currency::Sol],
        expires_at: Timestamp::from_seconds(60),
        expiry: 60,
        amount: 100,
    }
}

fn wager(first: u64, second: u64) -> Wager {
    Wager {
        id: (token(first), token(second)),
        currencies: (Currency::Btc, Currency::Eth),
        amount: 100,
        expires_at: Timestamp::from_seconds(70),
    }
}

fn wager_export(first: u64, second: u64) -> WagerExport {
    WagerExport {
        amount: 100,
        expires_at: Timestamp::from_seconds(70),
        wagers: (
            WagerInfo { token: nft(first), currency: Currency::Btc },
            WagerInfo { token: nft(second), currency: Currency::Eth },
        ),
    }
}

#[test]
fn a_new_engine_is_empty() {
    let store = engine();
    assert_eq!(store.matchmaking_len(), 0);
    assert_eq!(store.wagers_len(), 0);
    assert!(store.is_idle(&token(1)));
    assert_eq!(query_token_status(&store, token(1)).unwrap().token_status, TokenStatus::Idle);
}

#[test]
fn offers_are_restored_in_scan_order() {
    let mut store = engine();
    assert!(store.restore_offer(token(8), item(Currency::Btc)));
    assert!(store.restore_offer(token(3), item(Currency::Ada)));
    assert!(store.restore_offer(token(5), item(Currency::Xrp)));
    assert_eq!(store.matchmaking_len(), 3);
    assert_eq!(store.entry(0).0, token(3));
    assert_eq!(store.entry(1).0, token(5));
    assert_eq!(store.entry(2).0, token(8));
    assert_eq!(store.entry(1).1, item(Currency::Xrp));
    assert_eq!(store.find_entry(&token(5)), 1);
    assert_eq!(store.find_entry(&token(4)), 3);
    assert_eq!(
        query_matchmaking(&store).unwrap().matchmaking,
        vec![exported(3, Currency::Ada), exported(5, Currency::Xrp), exported(8, Currency::Btc)]
    );
}

#[test]
fn a_second_offer_for_a_token_is_not_restored() {
    let mut store = engine();
    assert!(store.restore_offer(token(3), item(Currency::Ada)));
    assert!(!store.restore_offer(token(3), item(Currency::Btc)));
    assert_eq!(query_matchmaking(&store).unwrap().matchmaking, vec![exported(3, Currency::Ada)]);
}

#[test]
fn an_offer_for_a_wagered_token_is_not_restored() {
    let mut store = engine();
    assert!(store.restore_wager(wager(1, 2)));
    assert!(!store.restore_offer(token(1), item(Currency::Ada)));
    assert!(!store.restore_offer(token(2), item(Currency::Ada)));
    assert_eq!(store.matchmaking_len(), 0);
}

#[test]
fn wagers_are_kept_in_ascending_order_of_their_pairs() {
    let mut store = engine();
    assert!(store.restore_wager(wager(5, 6)));
    assert!(store.restore_wager(wager(1, 2)));
    assert!(store.restore_wager(wager(3, 9)));
    assert_eq!(store.wagers_len(), 3);
    assert_eq!(*store.wager(0), wager(1, 2));
    assert_eq!(*store.wager(1), wager(3, 9));
    assert_eq!(*store.wager(2), wager(5, 6));
    assert_eq!(store.find_wager(&token(2)), 0);
    assert_eq!(store.find_wager(&token(9)), 1);
    assert_eq!(store.find_wager(&token(4)), 3);
    assert_eq!(store.find_pair(&(token(6), token(5))), 2);
    assert_eq!(store.find_pair(&(token(1), token(2))), 0);
    assert_eq!(store.find_pair(&(token(1), token(5))), 3);
    assert_eq!(
        query_wagers(&store).unwrap().wagers,
        vec![wager_export(1, 2), wager_export(3, 9), wager_export(5, 6)]
    );
}

#[test]
fn wagers_of_several_collections_are_ordered_as_their_tokens_are() {
    let other = |id: u64| ("zz".to_string(), id);
    let between = |first: (String, u64), second: (String, u64)| Wager {
        id: (first, second),
        currencies: (Currency::Btc, Currency::Eth),
        amount: 100,
        expires_at: Timestamp::from_seconds(70),
    };
    let mut store = engine();
    assert!(store.restore_wager(wager(1, 2)));
    assert!(store.restore_wager(between(other(8), other(9))));
    assert!(store.restore_wager(between(token(3), other(1))));
    // "zz" is shorter than "collection": its tokens come first.
    assert_eq!(store.wager(0).id, (other(1), token(3)));
    assert_eq!(store.wager(1).id, (other(8), other(9)));
    assert_eq!(store.wager(2).id, (token(1), token(2)));
    assert_eq!(store.wager(0).currencies, (Currency::Eth, Currency::Btc));

    assert!(precedes_key(&(other(8), other(9)), &(token(1), token(2))));
    assert!(precedes_key(&(token(1), token(2)), &(token(1), token(3))));
    assert!(!precedes_key(&(token(1), token(2)), &(token(1), token(2))));
    assert!(!precedes_key(&(token(1), token(3)), &(token(1), token(2))));
    assert!(!precedes_key(&(token(2), token(0)), &(token(1), token(9))));
}

#[test]
fn a_wager_is_restored_with_its_earlier_token_first() {
    let mut store = engine();
    // Token 2 backs Btc and token 1 backs Eth, in whatever order they are given.
    assert!(store.restore_wager(wager(2, 1)));
    assert_eq!(
        *store.wager(0),
        Wager {
            id: (token(1), token(2)),
            currencies: (Currency::Eth, Currency::Btc),
            amount: 100,
            expires_at: Timestamp::from_seconds(70),
        }
    );
    assert_eq!(store.find_pair(&(token(2), token(1))), 0);
}

#[test]
fn a_wager_of_a_token_with_itself_is_not_restored() {
    let mut store = engine();
    assert!(!store.restore_wager(wager(1, 1)));
    assert_eq!(store.wagers_len(), 0);
}

#[test]
fn a_wager_of_a_busy_token_is_not_restored() {
    let mut store = engine();
    assert!(store.restore_wager(wager(1, 2)));
    assert!(store.restore_offer(token(7), item(Currency::Ada)));
    assert!(!store.restore_wager(wager(2, 3)));
    assert!(!store.restore_wager(wager(0, 1)));
    assert!(!store.restore_wager(wager(6, 7)));
    assert!(!store.restore_wager(wager(7, 8)));
    assert_eq!(store.wagers_len(), 1);
    assert!(store.restore_wager(wager(3, 4)));
}

#[test]
fn the_ledger_is_looked_at_before_the_registry() {
    let mut store = engine();
    assert!(store.restore_offer(token(7), item(Currency::Ada)));
    assert!(store.restore_wager(wager(1, 2)));
    assert_eq!(
        query_token_status(&store, token(2)).unwrap().token_status,
        TokenStatus::Wager(wager_export(1, 2))
    );
    assert_eq!(
        query_token_status(&store, token(7)).unwrap().token_status,
        TokenStatus::Matchmaking(exported(7, Currency::Ada))
    );
    assert_eq!(query_token_status(&store, token(9)).unwrap().token_status, TokenStatus::Idle);
    assert!(!store.is_idle(&token(2)));
    assert!(!store.is_idle(&token(7)));
    assert!(store.is_idle(&token(9)));
}

#[test]
fn a_token_of_another_collection_is_another_token() {
    let mut store = engine();
    assert!(store.restore_offer(token(7), item(Currency::Ada)));
    assert!(store.is_idle(&("elsewhere".to_string(), 7)));
    assert!(store.restore_offer(("elsewhere".to_string(), 7), item(Currency::Btc)));
    assert!(store.restore_offer(("a-collection".to_string(), 1), item(Currency::Btc)));
    // The shorter address comes first, then the bytes, then the number.
    assert_eq!(store.entry(0).0, ("elsewhere".to_string(), 7));
    assert_eq!(store.entry(1).0, token(7));
    assert_eq!(store.entry(2).0, ("a-collection".to_string(), 1));
}

#[test]
fn the_first_compatible_offer_is_found() {
    let mut store = engine();
    assert!(store.restore_offer(token(3), item(Currency::Ada)));
    assert!(store.restore_offer(token(5), item(Currency::Btc)));
    assert!(store.restore_offer(token(8), item(Currency::Btc)));
    let now = Timestamp::from_seconds(10);
    assert_eq!(store.find_match(Currency::Eth, &vec![Currency::Btc], 60, 100, now), 1);
    let either = vec![Currency::Ada, Currency::Btc];
    assert_eq!(store.find_match(Currency::Sol, &either, 60, 100, now), 0);
    // No offer accepts Xrp, asks for 30 seconds, stakes 250, or is still open at 60.
    assert_eq!(store.find_match(Currency::Xrp, &vec![Currency::Btc], 60, 100, now), 3);
    assert_eq!(store.find_match(Currency::Eth, &vec![Currency::Btc], 30, 100, now), 3);
    assert_eq!(store.find_match(Currency::Eth, &vec![Currency::Btc], 60, 250, now), 3);
    assert_eq!(
        store.find_match(Currency::Eth, &vec![Currency::Btc], 60, 100, Timestamp::from_seconds(60)),
        3
    );
    assert_eq!(
        store.find_match(
            Currency::Eth,
            &vec![Currency::Btc],
            60,
            100,
            Timestamp::from_nanos(59_999_999_999)
        ),
        1
    );
}

#[test]
fn exports_show_what_is_held() {
    assert_eq!(export_wager(&wager(1, 2)), wager_export(1, 2));
    assert_eq!(export_matchmaking(&token(4), &item(Currency::Uni)), exported(4, Currency::Uni));
}

#[test]
fn queries_are_dispatched() {
    let mut store = engine();
    assert!(store.restore_offer(token(7), item(Currency::Ada)));
    assert!(store.restore_wager(wager(1, 2)));
    assert_eq!(
        query(&store, QueryMsg::Wagers {}),
        Ok(QueryResponse::Wagers(WagersResponse { wagers: vec![wager_export(1, 2)] }))
    );
    assert_eq!(
        query(&store, QueryMsg::Wager { token: token(2) }),
        Ok(QueryResponse::Wager(WagerResponse { wager: wager_export(1, 2) }))
    );
    assert_eq!(
        query(&store, QueryMsg::Wager { token: token(7) }),
        Err(StdError::NotFound { kind: "wager".to_string() })
    );
    assert_eq!(
        query(&store, QueryMsg::Matchmaking {}),
        Ok(QueryResponse::Matchmaking(MatchmakingResponse {
            matchmaking: vec![exported(7, Currency::Ada)]
        }))
    );
    assert_eq!(
        query(&store, QueryMsg::TokenStatus { token: token(7) }),
        Ok(QueryResponse::TokenStatus(TokenStatusResponse {
            token_status: TokenStatus::Matchmaking(exported(7, Currency::Ada))
        }))
    );
    match query(&store, QueryMsg::Config {}) {
        Ok(QueryResponse::Config(response)) => assert_eq!(response.config, *store.config()),
        other => panic!("{:?}", other),
    }
}

#[test]
fn helpers() {
    assert_eq!(coin(5, "ustars"), Coin { denom: "ustars".to_string(), amount: 5 });
    assert_eq!(
        send_tokens("alice".to_string(), coin(5, "ustars")),
        Ok(SubMsg {
            to_address: "alice".to_string(),
            amount: vec![Coin { denom: "ustars".to_string(), amount: 5 }],
        })
    );
    assert_eq!(CwWagerContract("contract1".to_string()).addr(), "contract1");
}

fn config() -> Config {
    Config {
        max_currencies: 1,
        amounts: vec![100],
        expiries: vec![60],
        fee_percent: Decimal::percent(400),
        fairburn_percent: Decimal::percent(100),
        fee_address: ADMIN.to_string(),
        collection_address: COLLECTION.to_string(),
        matchmaking_expiry: 60,
    }
}

#[test]
fn the_engine_is_run_with_a_valid_configuration_only() {
    assert!(config().is_valid());
    assert!(!Config { max_currencies: 0, ..config() }.is_valid());
    assert!(!Config { amounts: vec![], ..config() }.is_valid());
    assert!(!Config { expiries: vec![], ..config() }.is_valid());
    assert!(!Config { matchmaking_expiry: 59, ..config() }.is_valid());
    assert!(Config { fee_percent: Decimal::percent(20_000), ..config() }.is_valid());

    let store = Store::new(config()).unwrap();
    assert_eq!(*store.config(), config());
    assert_eq!(store.matchmaking_len(), 0);
    assert_eq!(store.wagers_len(), 0);
    assert!(Store::new(Config { max_currencies: 0, ..config() }).is_none());
    assert!(Store::new(Config { amounts: vec![], ..config() }).is_none());
    assert!(Store::new(Config { expiries: vec![], ..config() }).is_none());
    assert!(Store::new(Config { matchmaking_expiry: 0, ..config() }).is_none());
}

#[test]
fn copies() {
    let store = engine();
    assert_eq!(clone_config(store.config()), *store.config());
    assert_eq!(clone_token(&token(4)), token(4));
    let currencies = vec![Currency::Mir, Currency::Dot, Currency::Mir];
    assert_eq!(clone_list(&currencies), currencies);
    assert_eq!(clone_list(&Vec::<u64>::new()), Vec::<u64>::new());
    assert_eq!(clone_list(&vec![7u128, 7, 1]), vec![7u128, 7, 1]);
}

#[test]
fn texts() {
    assert!(same_text(&"stars1abc".to_string(), &"stars1abc".to_string()));
    assert!(!same_text(&"stars1abc".to_string(), &"stars1abd".to_string()));
    assert!(!same_text(&"stars1abc".to_string(), &"stars1ab".to_string()));
    assert!(!same_text(&"stars1abc".to_string(), &"STARS1ABC".to_string()));
    assert_eq!(
        invalid_parameter("expiry"),
        ContractError::InvalidParameter { param: "expiry".to_string() }
    );
    assert_eq!(not_found("wager"), StdError::NotFound { kind: "wager".to_string() });
    assert_eq!(generic_err("no"), StdError::GenericErr { msg: "no".to_string() });
}

#[test]
fn membership() {
    assert!(contains_currency(&vec![Currency::Eth, Currency::Sol], Currency::Sol));
    assert!(!contains_currency(&vec![Currency::Eth, Currency::Sol], Currency::Btc));
    assert!(!contains_currency(&vec![], Currency::Btc));
    assert!(contains_amount(&vec![100, 250], 250));
    assert!(!contains_amount(&vec![100, 250], 251));
    assert!(contains_expiry(&vec![15, 30, 60], 15));
    assert!(!contains_expiry(&vec![15, 30, 60], 0));
}

use cw_wager::contract::{instantiate, query_config};
use cw_wager::execute::{execute_set_winner, execute_wager, split_pool};
use cw_wager::helpers::SubMsg;
use cw_wager::msg::InstantiateMsg;
use cw_wager::order::{rank_tokens, Rank};
use cw_wager::response::{FairBurn, Response};
use cw_wager::state::{
    BlockInfo, Coin, Config, Currency, Decimal, Env, MessageInfo, Timestamp, DECIMAL_FRACTIONAL,
    NANOS_PER_SECOND, NATIVE_DENOM,
};
use cw_wager::store::Store;

const ADMIN: &str = "admin";
const COLLECTION: &str = "collection";

fn config(fee_bps: u64, fairburn_bps: u64) -> Config {
    Config {
        max_currencies: 3,
        amounts: vec![100],
        expiries: vec![60],
        fee_percent: Decimal::percent(fee_bps),
        fairburn_percent: Decimal::percent(fairburn_bps),
        fee_address: ADMIN.to_string(),
        collection_address: COLLECTION.to_string(),
        matchmaking_expiry: 60,
    }
}

fn engine(amount: u128, fee_bps: u64, fairburn_bps: u64) -> Store {
    let msg = InstantiateMsg {
        max_currencies: 3,
        amounts: vec![amount],
        expiries: vec![60],
        fee_bps,
        fairburn_bps,
        fee_address: ADMIN.to_string(),
        collection_address: COLLECTION.to_string(),
        matchmaking_expiry: 60,
    };
    let info = MessageInfo { sender: ADMIN.to_string(), funds: vec![] };
    instantiate(info, msg, Ok(ADMIN.to_string()), Ok(COLLECTION.to_string())).unwrap().0
}

fn at(nanos: u64) -> Env {
    Env { block: BlockInfo { time: Timestamp::from_nanos(nanos) } }
}

fn pair(store: &mut Store, amount: u128, nanos: u64) {
    let funds = || vec![Coin { denom: "ustars".to_string(), amount }];
    let first = MessageInfo { sender: "alice".to_string(), funds: funds() };
    let second = MessageInfo { sender: "bob".to_string(), funds: funds() };
    let one = (COLLECTION.to_string(), 1);
    let two = (COLLECTION.to_string(), 2);
    execute_wager(
        store,
        at(nanos),
        first,
        one,
        Currency::Btc,
        vec![Currency::Eth],
        60,
        Ok("alice".to_string()),
    )
    .unwrap();
    execute_wager(
        store,
        at(nanos),
        second,
        two,
        Currency::Eth,
        vec![Currency::Btc],
        60,
        Ok("bob".to_string()),
    )
    .unwrap();
}

fn send(to: &str, amount: u128) -> SubMsg {
    SubMsg {
        to_address: to.to_string(),
        amount: vec![Coin { denom: "ustars".to_string(), amount }],
    }
}

#[test]
fn constants() {
    assert_eq!(NANOS_PER_SECOND, 1_000_000_000);
    assert_eq!(DECIMAL_FRACTIONAL, 1_000_000_000_000_000_000);
    assert_eq!(NATIVE_DENOM, "ustars");
}

#[test]
fn percent_is_hundredths() {
    assert_eq!(Decimal::percent(0).atomics(), 0);
    assert_eq!(Decimal::percent(1).atomics(), 10_000_000_000_000_000);
    assert_eq!(Decimal::percent(100), Decimal::one());
    assert_eq!(Decimal::percent(400).atomics(), 4_000_000_000_000_000_000);
    assert_eq!(
        Decimal::percent(u64::MAX).atomics(),
        184_467_440_737_095_516_150_000_000_000_000_000
    );
}

#[test]
fn instantiate_holds_the_fees_as_percentages() {
    let store = engine(100, 400, 100);
    let config = query_config(&store).unwrap().config;
    assert_eq!(config.fee_percent, Decimal { atomics: 4_000_000_000_000_000_000 });
    assert_eq!(config.fairburn_percent, Decimal { atomics: 1_000_000_000_000_000_000 });
}

#[test]
fn timestamps() {
    assert_eq!(Timestamp::from_seconds(5).nanos(), 5_000_000_000);
    assert_eq!(Timestamp::from_nanos(5_999_999_999).seconds(), 5);
    assert_eq!(Timestamp::from_nanos(1).plus_seconds(3).nanos(), 3_000_000_001);
    assert_eq!(Timestamp::from_seconds(7).plus_seconds(0), Timestamp::from_seconds(7));
    assert_eq!(
        Timestamp::from_nanos(u64::MAX - 1_000_000_000).plus_seconds(1).nanos(),
        u64::MAX
    );
}

#[test]
fn the_pool_is_split_into_fee_burn_and_payout() {
    assert_eq!(split_pool(100, &config(400, 100)), (8, 2, 190));
    assert_eq!(split_pool(100_000_000, &config(400, 100)), (8_000_000, 2_000_000, 190_000_000));
    assert_eq!(split_pool(100, &config(0, 0)), (0, 0, 200));
    assert_eq!(split_pool(0, &config(400, 100)), (0, 0, 0));
    assert_eq!(split_pool(100, &config(5000, 5000)), (100, 100, 0));
    assert_eq!(split_pool(100, &config(10000, 0)), (200, 0, 0));
}

#[test]
fn fee_and_burn_are_rounded_down() {
    // 4% of 14 is 0.56, 1% of 14 is 0.14.
    assert_eq!(split_pool(7, &config(400, 100)), (0, 0, 14));
    // 4% of 50 is 2, 1% of 50 is 0.5.
    assert_eq!(split_pool(25, &config(400, 100)), (2, 0, 50 - 2));
    // 4% of 198 is 7.92, 1% of 198 is 1.98.
    assert_eq!(split_pool(99, &config(400, 100)), (7, 1, 190));
    // 99% of 3 is 2.97: the product is rounded down to 2 before it is taken per cent... of 300.
    assert_eq!(split_pool(150, &config(9900, 100)), (297, 3, 0));
    assert_eq!(split_pool(1, &config(9900, 100)), (1, 0, 1));
}

#[test]
fn the_parts_add_up_to_the_pool() {
    let amounts = [0u128, 1, 2, 3, 7, 33, 99, 100, 101, 12_345, 100_000_000, u128::MAX / 400];
    let fees = [(0u64, 0u64), (400, 100), (1, 1), (250, 50), (3333, 3333), (9999, 1), (5000, 5000)];
    for amount in amounts {
        for (fee_bps, fairburn_bps) in fees {
            let (fee, burn, payout) = split_pool(amount, &config(fee_bps, fairburn_bps));
            assert_eq!(fee + burn + payout, 2 * amount);
        }
    }
}

#[test]
fn the_largest_pool_is_split() {
    let amount = u128::MAX / 2;
    let pool = 2 * amount;
    assert_eq!(split_pool(amount, &config(100, 0)), (pool / 100, 0, pool - pool / 100));
}

#[test]
fn the_greater_ratio_wins_not_the_greater_price() {
    let mut store = engine(100, 400, 100);
    pair(&mut store, 100, 0);
    // Token 1 went from 2.00 to 3.00, token 2 from 1.00 to 2.00.
    let won = execute_set_winner(
        &mut store,
        at(60 * NANOS_PER_SECOND),
        ((COLLECTION.to_string(), 1), (COLLECTION.to_string(), 2)),
        (Decimal::percent(200), Decimal::percent(100)),
        (Decimal::percent(300), Decimal::percent(200)),
        (Ok("alice".to_string()), Ok("bob".to_string())),
    )
    .unwrap();
    assert_eq!(
        won,
        Response::SetWinner {
            burn: FairBurn { amount: 2, developer: ADMIN.to_string() },
            fee: send(ADMIN, 8),
            payout: send("bob", 190),
        }
    );
}

#[test]
fn ratios_are_compared_to_eighteen_places() {
    let mut store = engine(100, 400, 100);
    pair(&mut store, 100, 0);
    // 2 / 3 and 0.666666666666666666 are the same decimal, rounded down.
    let tie = execute_set_winner(
        &mut store,
        at(60 * NANOS_PER_SECOND),
        ((COLLECTION.to_string(), 1), (COLLECTION.to_string(), 2)),
        (Decimal::percent(300), Decimal::one()),
        (Decimal::percent(200), Decimal { atomics: 666_666_666_666_666_666 }),
        (Ok("alice".to_string()), Ok("bob".to_string())),
    )
    .unwrap();
    assert_eq!(tie, Response::Tie { first: send("alice", 100), second: send("bob", 100) });
}

#[test]
fn the_smallest_difference_decides() {
    let mut store = engine(100, 400, 100);
    pair(&mut store, 100, 0);
    let won = execute_set_winner(
        &mut store,
        at(60 * NANOS_PER_SECOND),
        ((COLLECTION.to_string(), 1), (COLLECTION.to_string(), 2)),
        (Decimal::percent(300), Decimal::one()),
        (Decimal::percent(200), Decimal { atomics: 666_666_666_666_666_667 }),
        (Ok("alice".to_string()), Ok("bob".to_string())),
    )
    .unwrap();
    assert_eq!(
        won,
        Response::SetWinner {
            burn: FairBurn { amount: 2, developer: ADMIN.to_string() },
            fee: send(ADMIN, 8),
            payout: send("bob", 190),
        }
    );
}

#[test]
fn a_wager_runs_from_the_match_for_its_full_length() {
    let mut store = engine(100, 400, 100);
    let first = MessageInfo {
        sender: "alice".to_string(),
        funds: vec![Coin { denom: "ustars".to_string(), amount: 100 }],
    };
    let queued = execute_wager(
        &mut store,
        at(1),
        first,
        (COLLECTION.to_string(), 1),
        Currency::Btc,
        vec![Currency::Eth],
        60,
        Ok("alice".to_string()),
    )
    .unwrap();
    assert_eq!(
        queued,
        Response::Matchmake {
            token: (COLLECTION.to_string(), 1),
            expires_at: Timestamp::from_nanos(60_000_000_001),
        }
    );
    let second = MessageInfo {
        sender: "bob".to_string(),
        funds: vec![Coin { denom: "ustars".to_string(), amount: 100 }],
    };
    let matched = execute_wager(
        &mut store,
        at(59_999_999_999),
        second,
        (COLLECTION.to_string(), 2),
        Currency::Eth,
        vec![Currency::Btc],
        60,
        Ok("bob".to_string()),
    )
    .unwrap();
    assert_eq!(
        matched,
        Response::Wager {
            token: (COLLECTION.to_string(), 2),
            expires_at: Timestamp::from_nanos(119_999_999_999),
        }
    );
}

fn rank(a: (&str, u64), b: (&str, u64)) -> Rank {
    rank_tokens(&(a.0.to_string(), a.1), &(b.0.to_string(), b.1))
}

#[test]
fn tokens_are_ordered_by_length_of_address_then_bytes_then_number() {
    // A shorter address comes first, whatever its bytes.
    assert_eq!(rank(("b", 9), ("aa", 0)), Rank::Before);
    assert_eq!(rank(("aa", 0), ("b", 9)), Rank::After);
    assert_eq!(rank(("stars1abd", 2), ("stars1abcd", 1)), Rank::Before);
    assert_eq!(rank(("zz", u64::MAX), ("aaa", 0)), Rank::Before);
    // Of two addresses of one length the bytes decide.
    assert_eq!(rank(("ab", 9), ("ba", 0)), Rank::Before);
    assert_eq!(rank(("ba", 0), ("ab", 9)), Rank::After);
    assert_eq!(rank(("a", 1), ("a", 1)), Rank::Same);
    assert_eq!(rank(("a", 1), ("a", 2)), Rank::Before);
    assert_eq!(rank(("a", 2), ("a", 1)), Rank::After);
    assert_eq!(rank(("a", 9), ("b", 1)), Rank::Before);
    assert_eq!(rank(("b", 1), ("a", 9)), Rank::After);
    assert_eq!(rank(("a", 9), ("ab", 1)), Rank::Before);
    assert_eq!(rank(("ab", 0), ("a", u64::MAX)), Rank::After);
    assert_eq!(rank(("", 5), ("a", 0)), Rank::Before);
    assert_eq!(rank(("", 5), ("", 5)), Rank::Same);
    assert_eq!(rank(("B", 0), ("a", 0)), Rank::Before);
    assert_eq!(rank(("stars1abc", 10), ("stars1abd", 2)), Rank::Before);
}

#[test]
fn a_fee_in_basis_points_is_rounded_down_once() {
    let amounts = [0u128, 1, 7, 33, 49, 50, 99, 100, 4_999, 5_000, 123_456_789];
    let rates = [0u64, 1, 99, 100, 101, 250, 400, 3_333, 9_999, 10_000];
    for amount in amounts {
        for bps in rates {
            let (fee, burn, payout) = split_pool(amount, &config(bps, 0));
            assert_eq!(fee, 2 * amount * (bps as u128) / 10_000);
            assert_eq!(burn, 0);
            assert_eq!(payout, 2 * amount - fee);
        }
    }
}

#[test]
fn an_expiry_fits_until_the_last_nanosecond() {
    let time = Timestamp::from_nanos(u64::MAX - 1_000_000_000);
    assert!(time.fits_seconds(0));
    assert!(time.fits_seconds(1));
    assert!(!time.fits_seconds(2));
    assert!(!time.fits_seconds(u64::MAX));
    assert!(Timestamp::from_nanos(0).fits_seconds(18_446_744_073));
    assert!(!Timestamp::from_nanos(0).fits_seconds(18_446_744_074));
    assert!(!Timestamp::from_nanos(709_551_616).fits_seconds(18_446_744_073));
    assert!(Timestamp::from_nanos(709_551_615).fits_seconds(18_446_744_073));
}

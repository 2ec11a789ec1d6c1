//! The entry points: setting the engine up, dispatching a message, and the queries.

use crate::config::{execute_update_params, percent_spec, update_outcome};
use crate::error::{
    generic_err, invalid_parameter, not_found, ContractError, ErrorView, StdError, StdErrorView,
};
use crate::execute::{
    answer_view, cancel_outcome, execute_cancel, execute_set_winner, execute_wager, result_view,
    set_winner_defined, set_winner_outcome, try_execute_set_winner, try_execute_wager,
    wager_defined, wager_outcome,
};
use crate::helpers::same_text;
use crate::host::{decimal_percent, semver_ge, version_ge};
use crate::model::{ledger_sorted, registry_sorted, StoreView};
use crate::msg::{
    Answers, ConfigResponse, ExecuteMsg, InstantiateMsg, MatchmakingResponse, QueryMsg,
    QueryResponse, TokenStatusResponse, WagerResponse, WagersResponse,
};
use crate::order::Token;
use crate::response::{Response, ResponseView};
use crate::state::{
    clone_list, coins_view, Config, ConfigView, EntryView, Env, MatchmakingItem,
    MatchmakingItemExport, MessageInfo, TokenStatus, Wager, WagerExport, WagerInfo, WagerView, NFT,
};
use crate::store::Store;
use vstd::prelude::*;

verus! {

/// What a list of exported wagers is in contracts.
pub open spec fn wager_exports_view(exports: Seq<WagerExport>) -> Seq<WagerView> {
    Seq::new(exports.len(), |i: int| exports[i]@)
}

/// What a list of exported offers is in contracts.
pub open spec fn entry_exports_view(exports: Seq<MatchmakingItemExport>) -> Seq<EntryView> {
    Seq::new(exports.len(), |i: int| exports[i]@)
}

/// A copy of a configuration.
pub fn clone_config(config: &Config) -> (r: Config)
    ensures
        r@ == config@,
{
    Config {
        max_currencies: config.max_currencies,
        amounts: clone_list(&config.amounts),
        expiries: clone_list(&config.expiries),
        fee_percent: config.fee_percent,
        fairburn_percent: config.fairburn_percent,
        fee_address: config.fee_address.clone(),
        collection_address: config.collection_address.clone(),
        matchmaking_expiry: config.matchmaking_expiry,
    }
}

/// The wager as it is shown to callers.
pub fn export_wager(v: &Wager) -> (export: WagerExport)
    ensures
        export@ == v@,
{
    WagerExport {
        amount: v.amount,
        expires_at: v.expires_at,
        wagers: (
            WagerInfo {
                token: NFT { collection: v.id.0.0.clone(), token_id: v.id.0.1 },
                currency: v.currencies.0,
            },
            WagerInfo {
                token: NFT { collection: v.id.1.0.clone(), token_id: v.id.1.1 },
                currency: v.currencies.1,
            },
        ),
    }
}

/// The pending offer of `token` as it is shown to callers.
pub fn export_matchmaking(token: &Token, v: &MatchmakingItem) -> (export: MatchmakingItemExport)
    ensures
        export@ == (token@, v@),
{
    MatchmakingItemExport {
        token: NFT { collection: token.0.clone(), token_id: token.1 },
        currency: v.currency,
        against_currencies: clone_list(&v.against_currencies),
        expires_at: v.expires_at,
        expiry: v.expiry,
        amount: v.amount,
    }
}

/// All active wagers, in ascending order of their pairs of tokens.
pub fn query_wagers(store: &Store) -> (r: Result<WagersResponse, StdError>)
    ensures
        r is Ok,
        wager_exports_view(r->Ok_0.wagers@) == store@.wagers,
        ledger_sorted(wager_exports_view(r->Ok_0.wagers@)),
{
    store.establish_wf();
    let mut wagers: Vec<WagerExport> = Vec::new();
    let mut i: usize = 0;
    while i < store.wagers_len()
        invariant
            i <= store@.wagers.len(),
            wagers@.len() == i,
            forall|j: int| 0 <= j < i ==> (#[trigger] wagers@[j])@ == store@.wagers[j],
        decreases store@.wagers.len() - i,
    {
        wagers.push(export_wager(store.wager(i)));
        i += 1;
    }
    Ok(WagersResponse { wagers })
}

/// The wager that `token` is in. Fails with `NotFound` of kind `wager`
/// exactly if the token is in none.
pub fn query_wager(store: &Store, token: Token) -> (r: Result<WagerResponse, StdError>)
    ensures
        store@.wagered(token@) ==> r is Ok && r->Ok_0.wager@ == store@.wagers[store@.wager_index(
            token@,
        )],
        !store@.wagered(token@) ==> r is Err && r->Err_0@ == (StdErrorView::NotFound {
            kind: "wager"@,
        }),
{
    let i = store.find_wager(&token);
    if i < store.wagers_len() {
        Ok(WagerResponse { wager: export_wager(store.wager(i)) })
    } else {
        Err(not_found("wager"))
    }
}

/// All pending offers, in scan order.
pub fn query_matchmaking(store: &Store) -> (r: Result<MatchmakingResponse, StdError>)
    ensures
        r is Ok,
        entry_exports_view(r->Ok_0.matchmaking@) == store@.matchmaking,
        registry_sorted(entry_exports_view(r->Ok_0.matchmaking@)),
{
    store.establish_wf();
    let mut matchmaking: Vec<MatchmakingItemExport> = Vec::new();
    let mut i: usize = 0;
    while i < store.matchmaking_len()
        invariant
            i <= store@.matchmaking.len(),
            matchmaking@.len() == i,
            forall|j: int| 0 <= j < i ==> (#[trigger] matchmaking@[j])@ == store@.matchmaking[j],
        decreases store@.matchmaking.len() - i,
    {
        let entry = store.entry(i);
        matchmaking.push(export_matchmaking(&entry.0, &entry.1));
        i += 1;
    }
    Ok(MatchmakingResponse { matchmaking })
}

/// What `token` is doing: in a wager, waiting for a match, or nothing. The
/// ledger is looked at first.
pub fn query_token_status(store: &Store, token: Token) -> (r: Result<TokenStatusResponse, StdError>)
    ensures
        r is Ok,
        r->Ok_0.token_status@ == store@.status(token@),
{
    let w = store.find_wager(&token);
    if w < store.wagers_len() {
        return Ok(
            TokenStatusResponse { token_status: TokenStatus::Wager(export_wager(store.wager(w))) },
        );
    }
    let e = store.find_entry(&token);
    if e < store.matchmaking_len() {
        let entry = store.entry(e);
        Ok(
            TokenStatusResponse {
                token_status: TokenStatus::Matchmaking(export_matchmaking(&entry.0, &entry.1)),
            },
        )
    } else {
        Ok(TokenStatusResponse { token_status: TokenStatus::Idle })
    }
}

/// The configuration.
pub fn query_config(store: &Store) -> (r: Result<ConfigResponse, StdError>)
    ensures
        r is Ok,
        r->Ok_0.config@ == store@.config,
{
    Ok(ConfigResponse { config: clone_config(store.config()) })
}

/// Nothing: what is handed back where passing is all there is to say.
#[derive(Clone, Copy, Debug, PartialEq, Eq, Structural)]
pub struct Empty {}

/// Why setting the engine up is refused, if it is. The conditions are tried
/// in this order: at least one accepted currency is allowed, the stakes are not
/// empty, the lengths are not empty, an offer waits for at least a minute,
/// the fee address is valid, and the collection address is valid.
pub open spec fn instantiate_rejection(
    msg: InstantiateMsg,
    fee_address: Result<Seq<char>, StdErrorView>,
    collection_address: Result<Seq<char>, StdErrorView>,
) -> Option<ErrorView> {
    if msg.max_currencies < 1 {
        Some(ErrorView::InvalidParameter { param: "max_currencies"@ })
    } else if msg.amounts@.len() == 0 {
        Some(ErrorView::InvalidParameter { param: "amounts"@ })
    } else if msg.expiries@.len() == 0 {
        Some(ErrorView::InvalidParameter { param: "expiries"@ })
    } else if msg.matchmaking_expiry < 60 {
        Some(ErrorView::InvalidParameter { param: "matchmaking_expiry"@ })
    } else if fee_address is Err {
        Some(ErrorView::Std(fee_address->Err_0))
    } else if collection_address is Err {
        Some(ErrorView::Std(collection_address->Err_0))
    } else {
        None
    }
}

/// The state that the engine starts in: configured as the message says, with
/// no pending offer and no wager.
pub open spec fn initial_state(
    msg: InstantiateMsg,
    fee_address: Seq<char>,
    collection_address: Seq<char>,
) -> StoreView {
    StoreView {
        config: ConfigView {
            max_currencies: msg.max_currencies,
            amounts: msg.amounts@,
            expiries: msg.expiries@,
            fee_percent: percent_spec(msg.fee_bps),
            fairburn_percent: percent_spec(msg.fairburn_bps),
            fee_address,
            collection_address,
            matchmaking_expiry: msg.matchmaking_expiry,
        },
        matchmaking: Seq::empty(),
        wagers: Seq::empty(),
    }
}

/// Sets the engine up. `fee_address` and `collection_address` are what the
/// validator answered for the two addresses of the message.
pub fn instantiate(
    info: MessageInfo,
    msg: InstantiateMsg,
    fee_address: Result<String, StdError>,
    collection_address: Result<String, StdError>,
) -> (r: Result<(Store, Response), ContractError>)
    ensures
        match r {
            Ok((store, response)) => {
                &&& instantiate_rejection(
                    msg,
                    answer_view(fee_address),
                    answer_view(collection_address),
                ) is None
                &&& store@ == initial_state(msg, fee_address->Ok_0@, collection_address->Ok_0@)
                &&& store@.wf()
                &&& response@ == (ResponseView::Instantiate { sender: info.sender@ })
            },
            Err(e) => instantiate_rejection(
                msg,
                answer_view(fee_address),
                answer_view(collection_address),
            ) == Some(e@),
        },
{
    let InstantiateMsg {
        max_currencies,
        amounts,
        expiries,
        fee_bps,
        fee_address: _,
        collection_address: _,
        matchmaking_expiry,
        fairburn_bps,
    } = msg;

    if max_currencies < 1 {
        return Err(invalid_parameter("max_currencies"));
    }
    if amounts.len() == 0 {
        return Err(invalid_parameter("amounts"));
    }
    if expiries.len() == 0 {
        return Err(invalid_parameter("expiries"));
    }
    if matchmaking_expiry < 60 {
        return Err(invalid_parameter("matchmaking_expiry"));
    }
    let fee_address = match fee_address {
        Ok(fee_address) => fee_address,
        Err(e) => {
            return Err(ContractError::Std(e));
        },
    };
    let collection_address = match collection_address {
        Ok(collection_address) => collection_address,
        Err(e) => {
            return Err(ContractError::Std(e));
        },
    };

    let store = Store::new(
        Config {
            max_currencies,
            amounts,
            expiries,
            fee_percent: decimal_percent(fee_bps),
            fairburn_percent: decimal_percent(fairburn_bps),
            fee_address,
            collection_address,
            matchmaking_expiry,
        },
    ).unwrap();
    store.establish_wf();
    Ok((store, Response::Instantiate { sender: info.sender }))
}

/// Passes exactly if the sender is the administrator: the fee address of the
/// configuration as it is now.
pub fn admin_only(store: &Store, info: &MessageInfo) -> (r: Result<Empty, ContractError>)
    ensures
        r is Ok <==> info.sender@ == store@.config.fee_address,
        r is Err ==> r->Err_0@ == ErrorView::Unauthorized,
{
    if !same_text(&info.sender, &store.config().fee_address) {
        Err(ContractError::Unauthorized {  })
    } else {
        Ok(Empty {  })
    }
}

/// What a message does. A change of configuration and a settlement are for
/// the administrator alone.
pub open spec fn execute_outcome(
    s: StoreView,
    env: Env,
    info: MessageInfo,
    msg: ExecuteMsg,
    answers: Answers,
) -> (StoreView, Result<ResponseView, ErrorView>) {
    match msg {
        ExecuteMsg::UpdateConfig { params } => if info.sender@ != s.config.fee_address {
            (s, Err(ErrorView::Unauthorized))
        } else {
            update_outcome(
                s,
                params,
                answer_view(answers.fee_address),
                answer_view(answers.collection_address),
            )
        },
        ExecuteMsg::SetWinner { wager_key, prev_prices, current_prices } => if info.sender@
            != s.config.fee_address {
            (s, Err(ErrorView::Unauthorized))
        } else {
            set_winner_outcome(
                s,
                env.block.time,
                wager_key@,
                prev_prices,
                current_prices,
                (answer_view(answers.owner), answer_view(answers.second_owner)),
            )
        },
        ExecuteMsg::Wager { token, currency, against_currencies, expiry } => wager_outcome(
            s,
            env.block.time,
            info.sender@,
            coins_view(info.funds@),
            token@,
            currency,
            against_currencies@,
            expiry,
            answer_view(answers.owner),
        ),
        ExecuteMsg::Cancel { token } => cancel_outcome(
            s,
            info.sender@,
            token@,
            answer_view(answers.owner),
        ),
    }
}

/// Whether the times and amounts that a message leads to can be
/// represented: the expiry that an accepted offer sets, and the split of
/// the pool of a wager that the administrator has decided.
pub open spec fn execute_defined(
    s: StoreView,
    env: Env,
    info: MessageInfo,
    msg: ExecuteMsg,
    answers: Answers,
) -> bool {
    match msg {
        ExecuteMsg::UpdateConfig { params } => true,
        ExecuteMsg::SetWinner { wager_key, prev_prices, current_prices } => info.sender@
            == s.config.fee_address ==> set_winner_defined(
            s,
            env.block.time,
            wager_key@,
            prev_prices,
            current_prices,
            (answer_view(answers.owner), answer_view(answers.second_owner)),
        ),
        ExecuteMsg::Wager { token, currency, against_currencies, expiry } => wager_defined(
            s,
            env.block.time,
            info.sender@,
            coins_view(info.funds@),
            token@,
            currency,
            against_currencies@,
            expiry,
            answer_view(answers.owner),
        ),
        ExecuteMsg::Cancel { token } => true,
    }
}

/// Carries out one message. `answers` holds what the host's collaborators
/// answered about it.
pub fn execute(
    store: &mut Store,
    env: Env,
    info: MessageInfo,
    msg: ExecuteMsg,
    answers: Answers,
) -> (r: Result<Response, ContractError>)
    requires
        execute_defined(old(store)@, env, info, msg, answers),
    ensures
        final(store)@.wf(),
        (final(store)@, result_view(r)) == execute_outcome(old(store)@, env, info, msg, answers),
{
    store.establish_wf();
    match msg {
        ExecuteMsg::UpdateConfig { params } => {
            match admin_only(store, &info) {
                Ok(_) => {},
                Err(e) => {
                    return Err(e);
                },
            }
            execute_update_params(store, params, answers.fee_address, answers.collection_address)
        },
        ExecuteMsg::SetWinner { wager_key, prev_prices, current_prices } => {
            match admin_only(store, &info) {
                Ok(_) => {},
                Err(e) => {
                    return Err(e);
                },
            }
            execute_set_winner(
                store,
                env,
                wager_key,
                prev_prices,
                current_prices,
                (answers.owner, answers.second_owner),
            )
        },
        ExecuteMsg::Wager { token, currency, against_currencies, expiry } => execute_wager(
            store,
            env,
            info,
            token,
            currency,
            against_currencies,
            expiry,
            answers.owner,
        ),
        ExecuteMsg::Cancel { token } => execute_cancel(store, info, token, answers.owner),
    }
}

/// Carries out one message as `execute` does, for every input: where the
/// message leads to a time or an amount that cannot be represented, nothing
/// is done and nothing is handed back.
pub fn try_execute(
    store: &mut Store,
    env: Env,
    info: MessageInfo,
    msg: ExecuteMsg,
    answers: Answers,
) -> (r: Option<Result<Response, ContractError>>)
    ensures
        final(store)@.wf(),
        r is Some <==> execute_defined(old(store)@, env, info, msg, answers),
        r is Some ==> (final(store)@, result_view(r->Some_0)) == execute_outcome(
            old(store)@,
            env,
            info,
            msg,
            answers,
        ),
        r is None ==> final(store)@ == old(store)@,
{
    store.establish_wf();
    match msg {
        ExecuteMsg::UpdateConfig { params } => {
            match admin_only(store, &info) {
                Ok(_) => {},
                Err(e) => {
                    return Some(Err(e));
                },
            }
            Some(
                execute_update_params(
                    store,
                    params,
                    answers.fee_address,
                    answers.collection_address,
                ),
            )
        },
        ExecuteMsg::SetWinner { wager_key, prev_prices, current_prices } => {
            match admin_only(store, &info) {
                Ok(_) => {},
                Err(e) => {
                    return Some(Err(e));
                },
            }
            try_execute_set_winner(
                store,
                env,
                wager_key,
                prev_prices,
                current_prices,
                (answers.owner, answers.second_owner),
            )
        },
        ExecuteMsg::Wager { token, currency, against_currencies, expiry } => try_execute_wager(
            store,
            env,
            info,
            token,
            currency,
            against_currencies,
            expiry,
            answers.owner,
        ),
        ExecuteMsg::Cancel { token } => Some(execute_cancel(store, info, token, answers.owner)),
    }
}

/// The name under which the engine is stored.
pub const CONTRACT_NAME: &'static str = "crates.io:cw-wager";

/// The version of the engine.
pub const CONTRACT_VERSION: &'static str = "0.1.0";

/// Why an upgrade is refused, if it is: what is stored is another contract,
/// or it is stored with this version or a later one.
pub open spec fn migrate_rejection(contract: Seq<char>, version: Seq<char>) -> Option<ErrorView> {
    if contract != CONTRACT_NAME@ {
        Some(ErrorView::Std(StdErrorView::GenericErr { msg: "Can only upgrade from same type"@ }))
    } else if semver_ge(version, CONTRACT_VERSION@) == Some(true) {
        Some(
            ErrorView::Std(
                StdErrorView::GenericErr { msg: "Cannot upgrade from a newer version"@ },
            ),
        )
    } else {
        None
    }
}

/// Whether the versions that an upgrade compares are semantic versions.
pub open spec fn migrate_defined(contract: Seq<char>, version: Seq<char>) -> bool {
    contract == CONTRACT_NAME@ ==> semver_ge(version, CONTRACT_VERSION@) is Some
}

/// What an upgrade answers.
pub open spec fn migrate_outcome(contract: Seq<char>, version: Seq<char>) -> Result<
    ResponseView,
    ErrorView,
> {
    match migrate_rejection(contract, version) {
        Some(e) => Err(e),
        None => Ok(ResponseView::Migrate),
    }
}

/// Decides whether the engine may be upgraded from what is stored: the name
/// `contract` with the version `version`. It may where the name is the
/// engine's own and the version is earlier than the engine's.
///
/// A call is left out only where the name is the engine's own and a version
/// is no semantic version; `try_migrate` tests for that.
pub fn migrate(contract: &str, version: &str) -> (r: Result<Response, ContractError>)
    requires
        migrate_defined(contract@, version@),
    ensures
        result_view(r) == migrate_outcome(contract@, version@),
{
    // ensure we are migrating from an allowed contract
    if !same_str(contract, CONTRACT_NAME) {
        return Err(ContractError::Std(generic_err("Can only upgrade from same type")));
    }
    if version_ge(version, CONTRACT_VERSION).unwrap() {
        return Err(ContractError::Std(generic_err("Cannot upgrade from a newer version")));
    }
    Ok(Response::Migrate {  })
}

/// Decides on an upgrade as `migrate` does, for every input: where the name
/// is the engine's own and a version is no semantic version, nothing is
/// handed back.
pub fn try_migrate(contract: &str, version: &str) -> (r: Option<Result<Response, ContractError>>)
    ensures
        r is Some <==> migrate_defined(contract@, version@),
        r is Some ==> result_view(r->Some_0) == migrate_outcome(contract@, version@),
{
    if same_str(contract, CONTRACT_NAME) && version_ge(version, CONTRACT_VERSION).is_none() {
        return None;
    }
    Some(migrate(contract, version))
}

/// Whether two texts are the same.
fn same_str(a: &str, b: &str) -> (r: bool)
    ensures
        r == (a@ == b@),
{
    same_text(&a.to_owned(), &b.to_owned())
}

/// Answers one query.
pub fn query(store: &Store, msg: QueryMsg) -> (r: Result<QueryResponse, StdError>)
    ensures
        match msg {
            QueryMsg::Wagers {  } => r matches Ok(QueryResponse::Wagers(response))
                && wager_exports_view(response.wagers@) == store@.wagers && ledger_sorted(
                store@.wagers,
            ),
            QueryMsg::Wager { token } => if store@.wagered(token@) {
                r matches Ok(QueryResponse::Wager(response)) && response.wager@
                    == store@.wagers[store@.wager_index(token@)]
            } else {
                r is Err && r->Err_0@ == (StdErrorView::NotFound { kind: "wager"@ })
            },
            QueryMsg::Matchmaking {  } => r matches Ok(QueryResponse::Matchmaking(response))
                && entry_exports_view(response.matchmaking@) == store@.matchmaking
                && registry_sorted(store@.matchmaking),
            QueryMsg::TokenStatus { token } => r matches Ok(QueryResponse::TokenStatus(response))
                && response.token_status@ == store@.status(token@),
            QueryMsg::Config {  } => r matches Ok(QueryResponse::Config(response))
                && response.config@ == store@.config,
        },
{
    match msg {
        QueryMsg::Wagers {  } => match query_wagers(store) {
            Ok(response) => Ok(QueryResponse::Wagers(response)),
            Err(e) => Err(e),
        },
        QueryMsg::Wager { token } => match query_wager(store, token) {
            Ok(response) => Ok(QueryResponse::Wager(response)),
            Err(e) => Err(e),
        },
        QueryMsg::Matchmaking {  } => match query_matchmaking(store) {
            Ok(response) => Ok(QueryResponse::Matchmaking(response)),
            Err(e) => Err(e),
        },
        QueryMsg::TokenStatus { token } => match query_token_status(store, token) {
            Ok(response) => Ok(QueryResponse::TokenStatus(response)),
            Err(e) => Err(e),
        },
        QueryMsg::Config {  } => match query_config(store) {
            Ok(response) => Ok(QueryResponse::Config(response)),
            Err(e) => Err(e),
        },
    }
}

} // verus!

//! Changing the configuration.

use crate::contract::clone_config;
use crate::error::{invalid_parameter, ContractError, ErrorView, StdError, StdErrorView};
use crate::execute::{answer_view, result_view};
use crate::host::decimal_percent;
use crate::model::StoreView;
use crate::response::{Response, ResponseView};
use crate::state::{ConfigView, Decimal};
use crate::store::Store;
use vstd::prelude::*;

verus! {

/// The parameters to change: each one that is given replaces the current one.
#[derive(Debug, PartialEq, Eq)]
pub struct ParamInfo {
    pub max_currencies: Option<u8>,
    pub amounts: Option<Vec<u128>>,
    pub expiries: Option<Vec<u64>>,
    pub fee_bps: Option<u64>,
    pub fairburn_bps: Option<u64>,
    pub fee_address: Option<String>,
    pub collection_address: Option<String>,
    pub matchmaking_expiry: Option<u64>,
}

/// The decimal `x / 100`.
pub open spec fn percent_spec(x: u64) -> Decimal {
    Decimal { atomics: (x * 10_000_000_000_000_000) as u128 }
}

/// Why a change of configuration is refused, if it is. Each parameter that
/// is given is tried, in this order: at least one accepted currency is
/// allowed, the stakes are not empty, the lengths are not empty, the fee
/// address is valid, the collection address is valid, and an offer waits for
/// at least a minute.
pub open spec fn update_rejection(
    p: ParamInfo,
    fee_address: Result<Seq<char>, StdErrorView>,
    collection_address: Result<Seq<char>, StdErrorView>,
) -> Option<ErrorView> {
    if p.max_currencies is Some && p.max_currencies->Some_0 < 1 {
        Some(ErrorView::InvalidParameter { param: "max_currencies"@ })
    } else if p.amounts is Some && p.amounts->Some_0@.len() == 0 {
        Some(ErrorView::InvalidParameter { param: "amounts"@ })
    } else if p.expiries is Some && p.expiries->Some_0@.len() == 0 {
        Some(ErrorView::InvalidParameter { param: "expiries"@ })
    } else if p.fee_address is Some && fee_address is Err {
        Some(ErrorView::Std(fee_address->Err_0))
    } else if p.collection_address is Some && collection_address is Err {
        Some(ErrorView::Std(collection_address->Err_0))
    } else if p.matchmaking_expiry is Some && p.matchmaking_expiry->Some_0 < 60 {
        Some(ErrorView::InvalidParameter { param: "matchmaking_expiry"@ })
    } else {
        None
    }
}

/// The configuration after an accepted change: each parameter that is given
/// replaces the current one, and the others stay.
pub open spec fn updated_config(
    c: ConfigView,
    p: ParamInfo,
    fee_address: Result<Seq<char>, StdErrorView>,
    collection_address: Result<Seq<char>, StdErrorView>,
) -> ConfigView {
    ConfigView {
        max_currencies: if p.max_currencies is Some {
            p.max_currencies->Some_0
        } else {
            c.max_currencies
        },
        amounts: if p.amounts is Some {
            p.amounts->Some_0@
        } else {
            c.amounts
        },
        expiries: if p.expiries is Some {
            p.expiries->Some_0@
        } else {
            c.expiries
        },
        fee_percent: if p.fee_bps is Some {
            percent_spec(p.fee_bps->Some_0)
        } else {
            c.fee_percent
        },
        fairburn_percent: if p.fairburn_bps is Some {
            percent_spec(p.fairburn_bps->Some_0)
        } else {
            c.fairburn_percent
        },
        fee_address: if p.fee_address is Some {
            fee_address->Ok_0
        } else {
            c.fee_address
        },
        collection_address: if p.collection_address is Some {
            collection_address->Ok_0
        } else {
            c.collection_address
        },
        matchmaking_expiry: if p.matchmaking_expiry is Some {
            p.matchmaking_expiry->Some_0
        } else {
            c.matchmaking_expiry
        },
    }
}

/// What a change of configuration does: refused, it leaves the state as it
/// is; accepted, it changes the configuration and nothing else.
pub open spec fn update_outcome(
    s: StoreView,
    p: ParamInfo,
    fee_address: Result<Seq<char>, StdErrorView>,
    collection_address: Result<Seq<char>, StdErrorView>,
) -> (StoreView, Result<ResponseView, ErrorView>) {
    match update_rejection(p, fee_address, collection_address) {
        Some(e) => (s, Err(e)),
        None => (
            StoreView {
                config: updated_config(s.config, p, fee_address, collection_address),
                ..s
            },
            Ok(ResponseView::UpdateParams),
        ),
    }
}

/// Changes the parameters that `param_info` gives. `fee_address` and
/// `collection_address` are what the validator answered for the addresses
/// given; they are looked at only where `param_info` gives an address.
pub fn execute_update_params(
    store: &mut Store,
    param_info: ParamInfo,
    fee_address: Result<String, StdError>,
    collection_address: Result<String, StdError>,
) -> (r: Result<Response, ContractError>)
    ensures
        final(store)@.wf(),
        (final(store)@, result_view(r)) == update_outcome(
            old(store)@,
            param_info,
            answer_view(fee_address),
            answer_view(collection_address),
        ),
{
    store.establish_wf();
    let mut params = clone_config(store.config());

    match param_info.max_currencies {
        Some(max_currencies) => {
            if max_currencies < 1 {
                return Err(invalid_parameter("max_currencies"));
            }
            params.max_currencies = max_currencies;
        },
        None => {},
    }

    match param_info.amounts {
        Some(amounts) => {
            if amounts.len() == 0 {
                return Err(invalid_parameter("amounts"));
            }
            params.amounts = amounts;
        },
        None => {},
    }

    match param_info.expiries {
        Some(expiries) => {
            if expiries.len() == 0 {
                return Err(invalid_parameter("expiries"));
            }
            params.expiries = expiries;
        },
        None => {},
    }

    match param_info.fee_bps {
        Some(fee_bps) => {
            params.fee_percent = decimal_percent(fee_bps);
        },
        None => {},
    }

    match param_info.fairburn_bps {
        Some(fairburn_bps) => {
            params.fairburn_percent = decimal_percent(fairburn_bps);
        },
        None => {},
    }

    match param_info.fee_address {
        Some(_) => match fee_address {
            Ok(fee_address) => {
                params.fee_address = fee_address;
            },
            Err(e) => {
                return Err(ContractError::Std(e));
            },
        },
        None => {},
    }

    match param_info.collection_address {
        Some(_) => match collection_address {
            Ok(collection_address) => {
                params.collection_address = collection_address;
            },
            Err(e) => {
                return Err(ContractError::Std(e));
            },
        },
        None => {},
    }

    match param_info.matchmaking_expiry {
        Some(matchmaking_expiry) => {
            if matchmaking_expiry < 60 {
                return Err(invalid_parameter("matchmaking_expiry"));
            }
            params.matchmaking_expiry = matchmaking_expiry;
        },
        None => {},
    }

    store.set_config(params);
    store.establish_wf();
    Ok(Response::UpdateParams {  })
}

} // verus!

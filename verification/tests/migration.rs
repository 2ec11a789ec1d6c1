use cw_wager::ContractError;
use cw_wager::contract::{migrate, try_migrate, CONTRACT_NAME, CONTRACT_VERSION};
use cw_wager::error::StdError;
use cw_wager::response::Response;

fn refused(msg: &str) -> ContractError {
    ContractError::Std(StdError::GenericErr { msg: msg.to_string() })
}

#[test]
fn the_engine_is_named_and_versioned() {
    assert_eq!(CONTRACT_NAME, "crates.io:cw-wager");
    assert_eq!(CONTRACT_VERSION, "0.1.0");
}

#[test]
fn an_earlier_version_may_be_upgraded() {
    assert_eq!(migrate(CONTRACT_NAME, "0.0.9"), Ok(Response::Migrate {}));
    assert_eq!(migrate(CONTRACT_NAME, "0.0.10"), Ok(Response::Migrate {}));
    assert_eq!(migrate(CONTRACT_NAME, "0.1.0-rc.1"), Ok(Response::Migrate {}));
    assert_eq!(try_migrate(CONTRACT_NAME, "0.0.1"), Some(Ok(Response::Migrate {})));
}

#[test]
fn the_same_or_a_later_version_may_not() {
    let newer = || refused("Cannot upgrade from a newer version");
    assert_eq!(migrate(CONTRACT_NAME, "0.1.0"), Err(newer()));
    assert_eq!(migrate(CONTRACT_NAME, "0.1.1"), Err(newer()));
    assert_eq!(migrate(CONTRACT_NAME, "0.10.0"), Err(newer()));
    assert_eq!(migrate(CONTRACT_NAME, "1.0.0-alpha"), Err(newer()));
    assert_eq!(try_migrate(CONTRACT_NAME, "2.0.0"), Some(Err(newer())));
}

#[test]
fn another_contract_may_not_be_upgraded() {
    let other = || refused("Can only upgrade from same type");
    assert_eq!(migrate("crates.io:cw-other", "0.0.1"), Err(other()));
    // The name is looked at first: the version is not even read.
    assert_eq!(migrate("crates.io:cw-other", "no version"), Err(other()));
    assert_eq!(try_migrate("", "9.9.9"), Some(Err(other())));
}

#[test]
fn a_text_that_is_no_version_is_not_compared() {
    assert_eq!(try_migrate(CONTRACT_NAME, "no version"), None);
    assert_eq!(try_migrate(CONTRACT_NAME, "1.0"), None);
    assert_eq!(try_migrate(CONTRACT_NAME, ""), None);
    assert_eq!(try_migrate(CONTRACT_NAME, "01.0.0"), None);
}

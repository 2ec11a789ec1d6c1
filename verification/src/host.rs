//! The calls into the crates the engine is hosted with. Their contracts are
//! taken on trust from those crates: nothing here is proved.

use crate::error::{PaymentError, PaymentErrorView};
use crate::state::{coins_view, CoinView, Decimal, MessageInfo, Timestamp, DECIMAL_FRACTIONAL};
use vstd::prelude::*;

verus! {

/// What a payment of exactly one coin of `denom` amounts to: the amount of
/// the one coin sent, if it is not zero and of that denomination.
pub open spec fn must_pay_spec(funds: Seq<CoinView>, denom: Seq<char>) -> Result<
    u128,
    PaymentErrorView,
> {
    if funds.len() == 0 {
        Err(PaymentErrorView::NoFunds)
    } else if funds.len() > 1 {
        Err(PaymentErrorView::MultipleDenoms)
    } else if funds[0].amount == 0 {
        Err(PaymentErrorView::NoFunds)
    } else if funds[0].denom != denom {
        Err(PaymentErrorView::MissingDenom(denom))
    } else {
        Ok(funds[0].amount)
    }
}

/// What the result of `must_pay` is in contracts.
pub open spec fn payment_view(r: Result<u128, PaymentError>) -> Result<u128, PaymentErrorView> {
    match r {
        Ok(amount) => Ok(amount),
        Err(e) => Err(e@),
    }
}

/// Calls `cw_utils::must_pay`. It returns the amount of the single coin in the
/// funds when that amount is not zero and the coin is of `denom`. With no coin,
/// or one of amount zero, it fails with `NoFunds`; with more than one coin,
/// with `MultipleDenoms`; with one coin of another denomination, with
/// `MissingDenom` of `denom`.
#[verifier::external_body]
pub(crate) fn must_pay(info: &MessageInfo, denom: &str) -> (r: Result<u128, PaymentError>)
    ensures
        payment_view(r) == must_pay_spec(coins_view(info.funds@), denom@),
{
    let funds = info.funds.iter().map(|c| cosmwasm_std::coin(c.amount, c.denom.clone())).collect();
    let sender = cosmwasm_std::Addr::unchecked(info.sender.clone());
    match cw_utils::must_pay(&cosmwasm_std::MessageInfo { sender, funds }, denom) {
        Ok(amount) => Ok(amount.u128()),
        Err(cw_utils::PaymentError::MissingDenom(d)) => Err(PaymentError::MissingDenom(d)),
        Err(cw_utils::PaymentError::ExtraDenom(d)) => Err(PaymentError::ExtraDenom(d)),
        Err(cw_utils::PaymentError::MultipleDenoms {  }) => Err(PaymentError::MultipleDenoms {  }),
        Err(cw_utils::PaymentError::NoFunds {  }) => Err(PaymentError::NoFunds {  }),
        Err(cw_utils::PaymentError::NonPayable {  }) => Err(PaymentError::NonPayable {  }),
    }
}

/// Calls `cosmwasm_std::Decimal::percent`: the decimal `x / 100`, which is
/// `x` times ten to the sixteenth in atomic units.
#[verifier::external_body]
pub(crate) fn decimal_percent(x: u64) -> (r: Decimal)
    ensures
        r.atomics == x * 10_000_000_000_000_000,
{
    Decimal { atomics: cosmwasm_std::Decimal::percent(x).atomics().u128() }
}

/// Calls the multiplication of a `cosmwasm_std::Uint128` by a
/// `cosmwasm_std::Decimal`: the product, rounded down to a whole number. The
/// outside function panics where the result does not fit.
#[verifier::external_body]
pub(crate) fn mul_decimal(amount: u128, factor: Decimal) -> (r: u128)
    requires
        amount * factor.atomics / (DECIMAL_FRACTIONAL as int) <= u128::MAX,
    ensures
        r == amount * factor.atomics / (DECIMAL_FRACTIONAL as int),
{
    let factor = cosmwasm_std::Decimal::new(cosmwasm_std::Uint128::new(factor.atomics));
    (cosmwasm_std::Uint128::new(amount) * factor).u128()
}

/// Calls `cosmwasm_std::Uint128::checked_mul_floor` with a decimal: the
/// product of `amount` and `factor`, rounded down to a whole number, or
/// nothing where it does not fit.
#[verifier::external_body]
pub(crate) fn checked_mul_decimal(amount: u128, factor: Decimal) -> (r: Option<u128>)
    ensures
        r is Some <==> amount * factor.atomics / (DECIMAL_FRACTIONAL as int) <= u128::MAX,
        r is Some ==> r->Some_0 == amount * factor.atomics / (DECIMAL_FRACTIONAL as int),
{
    let factor = cosmwasm_std::Decimal::new(cosmwasm_std::Uint128::new(factor.atomics));
    match cosmwasm_std::Uint128::new(amount).checked_mul_floor(factor) {
        Ok(product) => Some(product.u128()),
        Err(_) => None,
    }
}

/// The quotient of two decimals in atomic units, rounded down to eighteen
/// places.
pub open spec fn decimal_quotient(numerator: Decimal, denominator: Decimal) -> int {
    numerator.atomics * DECIMAL_FRACTIONAL / (denominator.atomics as int)
}

/// Whether the quotient of two decimals is a decimal: the divisor is not
/// zero, and the quotient fits.
pub open spec fn decimal_quotient_defined(numerator: Decimal, denominator: Decimal) -> bool {
    denominator.atomics != 0 && decimal_quotient(numerator, denominator) <= u128::MAX
}

/// Calls `cosmwasm_std::Decimal::checked_div`: the quotient of two decimals,
/// rounded down to eighteen places, or nothing where the divisor is zero or the
/// quotient does not fit.
#[verifier::external_body]
pub(crate) fn decimal_checked_div(numerator: Decimal, denominator: Decimal) -> (r: Option<Decimal>)
    ensures
        r is Some <==> decimal_quotient_defined(numerator, denominator),
        r is Some ==> r->Some_0.atomics == decimal_quotient(numerator, denominator),
{
    let numerator = cosmwasm_std::Decimal::new(cosmwasm_std::Uint128::new(numerator.atomics));
    let denominator = cosmwasm_std::Decimal::new(cosmwasm_std::Uint128::new(denominator.atomics));
    match numerator.checked_div(denominator) {
        Ok(q) => Some(Decimal { atomics: q.atomics().u128() }),
        Err(_) => None,
    }
}

/// Calls `cosmwasm_std::Timestamp::plus_seconds`: the time `addition` seconds
/// later. The outside function panics where that time cannot be represented.
#[verifier::external_body]
pub(crate) fn timestamp_plus_seconds(time: Timestamp, addition: u64) -> (r: Timestamp)
    requires
        time.can_add_seconds(addition),
    ensures
        r == time.plus_seconds_spec(addition),
{
    let later = cosmwasm_std::Timestamp::from_nanos(time.nanos).plus_seconds(addition);
    Timestamp { nanos: later.nanos() }
}

/// Whether the version `version` is at least the version `other` in the
/// order that the `semver` crate gives to versions: by major, minor and patch
/// number, then by pre-release, then by build metadata. Nothing where either
/// text is no semantic version.
pub uninterp spec fn semver_ge(version: Seq<char>, other: Seq<char>) -> Option<bool>;

/// Calls `semver::Version::parse` on both texts and compares the versions
/// with `>=`. It hands back nothing where either text does not parse.
#[verifier::external_body]
pub(crate) fn version_ge(version: &str, other: &str) -> (r: Option<bool>)
    ensures
        r == semver_ge(version@, other@),
{
    match (semver::Version::parse(version), semver::Version::parse(other)) {
        (Ok(version), Ok(other)) => Some(version >= other),
        _ => None,
    }
}

} // verus!

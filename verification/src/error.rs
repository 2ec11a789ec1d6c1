//! The ways a call can fail.

use vstd::prelude::*;

verus! {

/// A failure of the host or of a lookup.
#[derive(Debug, PartialEq, Eq)]
pub enum StdError {
    /// Something of the given kind was looked up and is not there.
    NotFound { kind: String },
    /// Any other failure, with its message.
    GenericErr { msg: String },
}

/// What a `StdError` is in contracts.
pub enum StdErrorView {
    NotFound { kind: Seq<char> },
    GenericErr { msg: Seq<char> },
}

impl View for StdError {
    type V = StdErrorView;

    open spec fn view(&self) -> StdErrorView {
        match self {
            StdError::NotFound { kind } => StdErrorView::NotFound { kind: kind@ },
            StdError::GenericErr { msg } => StdErrorView::GenericErr { msg: msg@ },
        }
    }
}

/// What was wrong with the funds sent along with a message.
#[derive(Debug, PartialEq, Eq)]
pub enum PaymentError {
    MissingDenom(String),
    ExtraDenom(String),
    MultipleDenoms {},
    NoFunds {},
    NonPayable {},
}

/// What a `PaymentError` is in contracts.
pub enum PaymentErrorView {
    MissingDenom(Seq<char>),
    ExtraDenom(Seq<char>),
    MultipleDenoms,
    NoFunds,
    NonPayable,
}

impl View for PaymentError {
    type V = PaymentErrorView;

    open spec fn view(&self) -> PaymentErrorView {
        match self {
            PaymentError::MissingDenom(denom) => PaymentErrorView::MissingDenom(denom@),
            PaymentError::ExtraDenom(denom) => PaymentErrorView::ExtraDenom(denom@),
            PaymentError::MultipleDenoms {  } => PaymentErrorView::MultipleDenoms,
            PaymentError::NoFunds {  } => PaymentErrorView::NoFunds,
            PaymentError::NonPayable {  } => PaymentErrorView::NonPayable,
        }
    }
}

/// Why a call was refused. A refused call changes nothing.
#[derive(Debug, PartialEq, Eq)]
pub enum ContractError {
    Std(StdError),
    Payment(PaymentError),
    /// The sender is neither the administrator, where one is asked for, nor
    /// the owner of the token, where that is.
    Unauthorized {},
    NotImplemented {},
    /// The token already has a pending offer or is in a wager.
    AlreadyWagered {},
    /// The wager has not run out yet.
    WagerActive {},
    /// The token has no pending offer.
    NotMatchmaking {},
    /// The named parameter is outside what is allowed.
    InvalidParameter { param: String },
    CustomErrorParam { val: String },
}

/// What a `ContractError` is in contracts.
pub enum ErrorView {
    Std(StdErrorView),
    Payment(PaymentErrorView),
    Unauthorized,
    NotImplemented,
    AlreadyWagered,
    WagerActive,
    NotMatchmaking,
    InvalidParameter { param: Seq<char> },
    CustomErrorParam { val: Seq<char> },
}

impl View for ContractError {
    type V = ErrorView;

    open spec fn view(&self) -> ErrorView {
        match self {
            ContractError::Std(e) => ErrorView::Std(e@),
            ContractError::Payment(e) => ErrorView::Payment(e@),
            ContractError::Unauthorized {  } => ErrorView::Unauthorized,
            ContractError::NotImplemented {  } => ErrorView::NotImplemented,
            ContractError::AlreadyWagered {  } => ErrorView::AlreadyWagered,
            ContractError::WagerActive {  } => ErrorView::WagerActive,
            ContractError::NotMatchmaking {  } => ErrorView::NotMatchmaking,
            ContractError::InvalidParameter { param } => ErrorView::InvalidParameter {
                param: param@,
            },
            ContractError::CustomErrorParam { val } => ErrorView::CustomErrorParam { val: val@ },
        }
    }
}

/// The error that names `param` as outside what is allowed.
pub fn invalid_parameter(param: &str) -> (e: ContractError)
    ensures
        e@ == (ErrorView::InvalidParameter { param: param@ }),
{
    ContractError::InvalidParameter { param: param.to_owned() }
}

/// The error that carries the message `msg`.
pub fn generic_err(msg: &str) -> (e: StdError)
    ensures
        e@ == (StdErrorView::GenericErr { msg: msg@ }),
{
    StdError::GenericErr { msg: msg.to_owned() }
}

/// The error that says nothing of kind `kind` was found.
pub fn not_found(kind: &str) -> (e: StdError)
    ensures
        e@ == (StdErrorView::NotFound { kind: kind@ }),
{
    StdError::NotFound { kind: kind.to_owned() }
}

} // verus!

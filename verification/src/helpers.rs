//! Small helpers: the engine's own address, and the instruction to send coins.

use crate::error::StdError;
use crate::state::{coins_view, Coin, CoinView};
use vstd::prelude::*;

verus! {

/// The address at which the engine is deployed.
#[derive(Debug, PartialEq, Eq)]
pub struct CwWagerContract(pub String);

impl CwWagerContract {
    /// The address itself.
    pub fn addr(&self) -> (addr: String)
        ensures
            addr@ == self.0@,
    {
        self.0.clone()
    }
}

/// An instruction to the host to send coins to an address.
#[derive(Debug, PartialEq, Eq)]
pub struct SubMsg {
    pub to_address: String,
    pub amount: Vec<Coin>,
}

/// What a `SubMsg` is in contracts.
pub struct SubMsgView {
    pub to_address: Seq<char>,
    pub amount: Seq<CoinView>,
}

impl View for SubMsg {
    type V = SubMsgView;

    open spec fn view(&self) -> SubMsgView {
        SubMsgView { to_address: self.to_address@, amount: coins_view(self.amount@) }
    }
}

/// The instruction that sends `amount` of `denom` to `to`.
pub open spec fn send_spec(to: Seq<char>, amount: u128, denom: Seq<char>) -> SubMsgView {
    SubMsgView { to_address: to, amount: seq![CoinView { denom, amount }] }
}

/// Whether two texts are the same.
pub fn same_text(a: &String, b: &String) -> (r: bool)
    ensures
        r == (a@ == b@),
{
    *a == *b
}

/// An amount of a denomination.
pub fn coin(amount: u128, denom: &str) -> (c: Coin)
    ensures
        c@ == (CoinView { denom: denom@, amount }),
{
    Coin { denom: denom.to_owned(), amount }
}

/// The instruction that sends `balance` to `to`. It never fails.
pub fn send_tokens(to: String, balance: Coin) -> (r: Result<SubMsg, StdError>)
    ensures
        r is Ok,
        r->Ok_0@ == send_spec(to@, balance.amount, balance.denom@),
{
    let mut amount: Vec<Coin> = Vec::new();
    amount.push(balance);
    let msg = SubMsg { to_address: to, amount };
    assert(msg@.amount =~= seq![balance@]);
    Ok(msg)
}

} // verus!

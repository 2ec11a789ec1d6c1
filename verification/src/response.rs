//! What a successful call hands back to the host: which operation ran, and
//! the movements of value that the host is to carry out.

use crate::helpers::{SubMsg, SubMsgView};
use crate::order::{Token, TokenView};
use crate::state::Timestamp;
use vstd::prelude::*;

verus! {

/// An instruction to the host to burn `amount` of the stake's denomination, on
/// behalf of `developer`.
#[derive(Debug, PartialEq, Eq)]
pub struct FairBurn {
    pub amount: u128,
    pub developer: String,
}

/// What a `FairBurn` is in contracts.
pub struct FairBurnView {
    pub amount: u128,
    pub developer: Seq<char>,
}

impl View for FairBurn {
    type V = FairBurnView;

    open spec fn view(&self) -> FairBurnView {
        FairBurnView { amount: self.amount, developer: self.developer@ }
    }
}

/// The outcome of a call that succeeded.
#[derive(Debug, PartialEq, Eq)]
pub enum Response {
    /// The engine was set up by `sender`.
    Instantiate { sender: String },
    /// The configuration was changed.
    UpdateParams {},
    /// The offer for `token` was paired, and the wager runs until `expires_at`.
    Wager { token: Token, expires_at: Timestamp },
    /// The offer for `token` found no match and waits until `expires_at`.
    Matchmake { token: Token, expires_at: Timestamp },
    /// The pending offer of `token` was withdrawn, and its stake goes back.
    Cancel { token: Token, refund: SubMsg },
    /// The wager was decided: part of the pool is burned, part goes to the fee
    /// collector, the rest to the owner of the winning token.
    SetWinner { burn: FairBurn, fee: SubMsg, payout: SubMsg },
    /// The wager ended in a tie: each side gets its stake back, the side of
    /// the key's first token first.
    Tie { first: SubMsg, second: SubMsg },
    /// The engine may be upgraded from the version it was stored with.
    Migrate {},
}

/// What a `Response` is in contracts.
pub enum ResponseView {
    Instantiate { sender: Seq<char> },
    UpdateParams,
    Wager { token: TokenView, expires_at: Timestamp },
    Matchmake { token: TokenView, expires_at: Timestamp },
    Cancel { token: TokenView, refund: SubMsgView },
    SetWinner { burn: FairBurnView, fee: SubMsgView, payout: SubMsgView },
    Tie { first: SubMsgView, second: SubMsgView },
    Migrate,
}

impl View for Response {
    type V = ResponseView;

    open spec fn view(&self) -> ResponseView {
        match self {
            Response::Instantiate { sender } => ResponseView::Instantiate { sender: sender@ },
            Response::UpdateParams {  } => ResponseView::UpdateParams,
            Response::Wager { token, expires_at } => ResponseView::Wager {
                token: token@,
                expires_at: *expires_at,
            },
            Response::Matchmake { token, expires_at } => ResponseView::Matchmake {
                token: token@,
                expires_at: *expires_at,
            },
            Response::Cancel { token, refund } => ResponseView::Cancel {
                token: token@,
                refund: refund@,
            },
            Response::SetWinner { burn, fee, payout } => ResponseView::SetWinner {
                burn: burn@,
                fee: fee@,
                payout: payout@,
            },
            Response::Tie { first, second } => ResponseView::Tie {
                first: first@,
                second: second@,
            },
            Response::Migrate {  } => ResponseView::Migrate,
        }
    }
}

} // verus!

//! The calls an agreement accepts and the answers its queries give.
use vstd::prelude::*;

use crate::asset::Coin;

verus! {

/// The questions an agreement answers.
#[derive(Clone, Copy, Debug, PartialEq, Eq, Structural)]
pub enum QueryMsg {
    IsOpen {},
    Status {},
}

/// The mutating calls of an agreement.
pub enum ExecMsg {
    /// Create the agreement. The offer is either the single coin attached
    /// to the call, or `amount` of the token managed by `cw20contract`.
    /// The price is `priceamount` of `pricedenom`, a managed token's
    /// contract where `iscw20` is `"1"` and a native denomination otherwise.
    Open {
        amount: Option<String>,
        cw20contract: Option<String>,
        priceamount: String,
        pricedenom: String,
        iscw20: String,
    },
    /// Pay the price and take the offer.
    Buy {},
    /// Cancel the agreement and take the offer back.
    Close {},
}

/// Instantiation carries no parameters.
#[derive(Clone, Copy, Debug, PartialEq, Eq, Structural)]
pub struct InstantiateMsg {}

/// Whether the agreement still accepts a purchase.
#[derive(Clone, Copy, Debug, PartialEq, Eq, Structural)]
pub struct OpenResp {
    pub isopen: bool,
}

/// The whole persisted record of an agreement.
#[derive(Clone, Debug, PartialEq)]
pub struct ContractResp {
    pub isopen: bool,
    pub offeramount: u128,
    pub offerdenom: String,
    pub priceamount: u128,
    pub pricedenom: String,
    pub receiver: String,
    pub completed: bool,
    pub time: u64,
}

/// The answer to a [`QueryMsg`].
#[derive(Clone, Debug, PartialEq)]
pub enum QueryResp {
    IsOpen(OpenResp),
    Status(ContractResp),
}

/// Who makes a call, and the funds attached to it.
pub struct MessageInfo {
    pub sender: String,
    pub funds: Vec<Coin>,
}

/// What the host tells a call about its surroundings.
pub struct Env {
    /// The address of this contract.
    pub contract_address: String,
    /// The block time, in seconds.
    pub time_seconds: u64,
}

} // verus!

//! The ways a call into an agreement or an auction can fail.
use vstd::prelude::*;

verus! {

#[verifier::external_type_specification]
#[verifier::external_body]
pub struct ExStdError(cosmwasm_std::StdError);

/// Every failure is reported before any state change or movement is produced.
#[derive(Debug, PartialEq)]
pub enum ContractError {
    /// An opaque failure of the host library, such as an amount that does
    /// not read as a number or a message that could not be encoded.
    Std(cosmwasm_std::StdError),
    /// The required deposit is missing or zero.
    NoFunds,
    /// More than one asset was offered.
    NotOneAsset,
    /// A managed token amount came without its contract, or the reverse.
    NoContract,
    /// The agreement or auction is already terminal.
    ContractClosed,
    /// Only `owner` may perform this action.
    NotOwner { owner: String },
    /// The payment attached to a purchase is below the asking price.
    OfferFail,
    /// Bids can be retracted only once the auction is closed.
    ContractNotClosed,
    /// A bid carried no funds in the auction's denomination.
    BiddingEmpty,
    /// A bid's running total is below the current highest bid.
    Biddingfail,
    /// There is no bid, or no ledger entry, to act on.
    NoBids,
    /// A running total would not fit in an amount.
    Overflow,
    /// The agreement has not been created yet.
    NotCreated,
    /// The agreement has been created already; it is created only once.
    AlreadyCreated,
}

} // verus!

//! The persisted record of an agreement.
use vstd::prelude::*;

use crate::asset::{Asset, AssetView};
use crate::commission::{CommissionPolicy, PolicyView};

verus! {

/// One escrow trade: the offer held in custody, the asking price, and who
/// created it. Commission is taken from the price when the trade settles.
#[derive(Clone, Debug)]
pub struct AgreementState {
    pub offer: Asset,
    pub price: Asset,
    /// The depositor, who is paid and who may cancel.
    pub receiver: String,
    /// Whether a purchase is still accepted.
    pub open: bool,
    /// Whether the agreement ended by a purchase rather than a cancellation.
    pub completed: bool,
    /// The block time, in seconds, at creation.
    pub created_at: u64,
    pub commission: CommissionPolicy,
}

/// The mathematical form of an [`AgreementState`].
pub struct AgreementView {
    pub offer: AssetView,
    pub price: AssetView,
    pub receiver: Seq<char>,
    pub open: bool,
    pub completed: bool,
    pub created_at: u64,
    pub commission: PolicyView,
}

impl View for AgreementState {
    type V = AgreementView;

    open spec fn view(&self) -> AgreementView {
        AgreementView {
            offer: self.offer@,
            price: self.price@,
            receiver: self.receiver@,
            open: self.open,
            completed: self.completed,
            created_at: self.created_at,
            commission: self.commission@,
        }
    }
}

impl AgreementView {
    /// Offer and price are positive, the commission is well formed, and a
    /// completed agreement is no longer open.
    pub open spec fn wf(self) -> bool {
        &&& self.offer.amount > 0
        &&& self.price.amount > 0
        &&& self.commission.wf()
        &&& self.completed ==> !self.open
    }
}

} // verus!

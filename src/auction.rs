//! A sealed-ledger ascending auction in one native denomination.
//!
//! Each bid pays a commission to the owner at once; the rest accumulates in
//! the bidder's ledger entry. A bid is accepted when the bidder's running
//! total reaches the highest bid, ties going to the latest bidder. The owner
//! closes the auction and takes the winning total; every other bidder then
//! retracts their entry once.
use vstd::prelude::*;

use crate::asset::{attached, attached_amount, movements_view, Coin, Movement, MovementView};
use crate::commission::{share, share_of, valid_rate};
use crate::error::ContractError;
use crate::host::{all_direct, carries_all, to_messages, Message};
use crate::ledger::{
    find_bidder, lemma_ledger_at, lemma_ledger_push, lemma_ledger_remove,
    lemma_ledger_update, ledger_of, unique_bidders, BidEntry,
};
use crate::msg::MessageInfo;

verus! {

/// The persisted record of an auction.
#[derive(Clone, Debug)]
pub struct AuctionState {
    /// Who may close the auction, and who receives commission and the
    /// winning bid.
    pub owner: String,
    /// The only denomination in which bids count.
    pub denom: String,
    /// Each bid pays `rate / scale` of itself to the owner.
    pub rate: u128,
    pub scale: u128,
    /// Each bidder's refundable running total, net of commission.
    pub entries: Vec<BidEntry>,
    pub highest_bid: u128,
    pub highest_bidder: Option<String>,
    pub closed: bool,
    pub winner: Option<String>,
}

/// The mathematical form of an [`AuctionState`].
pub struct AuctionView {
    pub owner: Seq<char>,
    pub denom: Seq<char>,
    pub rate: u128,
    pub scale: u128,
    pub ledger: Map<Seq<char>, u128>,
    pub highest_bid: u128,
    pub highest_bidder: Option<Seq<char>>,
    pub closed: bool,
    pub winner: Option<Seq<char>>,
}

/// The view of an optional address.
pub open spec fn opt_view(a: Option<String>) -> Option<Seq<char>> {
    match a {
        Some(s) => Some(s@),
        None => None,
    }
}

impl View for AuctionState {
    type V = AuctionView;

    open spec fn view(&self) -> AuctionView {
        AuctionView {
            owner: self.owner@,
            denom: self.denom@,
            rate: self.rate,
            scale: self.scale,
            ledger: ledger_of(self.entries@),
            highest_bid: self.highest_bid,
            highest_bidder: opt_view(self.highest_bidder),
            closed: self.closed,
            winner: opt_view(self.winner),
        }
    }
}

impl AuctionView {
    /// The rate is well formed; while the auction is open the highest
    /// bidder's entry holds the highest bid, and there is no winner yet.
    pub open spec fn wf(self) -> bool {
        &&& valid_rate(self.rate, self.scale)
        &&& !self.closed ==> self.winner is None
        &&& !self.closed ==> match self.highest_bidder {
            Some(b) => self.ledger.contains_key(b) && self.ledger[b] == self.highest_bid,
            None => self.highest_bid == 0,
        }
    }

    /// What bidder `b` has in the ledger; zero where there is no entry.
    pub open spec fn entry(self, b: Seq<char>) -> u128 {
        if self.ledger.contains_key(b) {
            self.ledger[b]
        } else {
            0
        }
    }

    /// The commission on a bid of `attached`.
    pub open spec fn commission(self, attached: u128) -> int {
        share_of(attached, self.rate, self.scale)
    }

    /// What `b`'s running total becomes with a bid of `attached`.
    pub open spec fn total_after(self, b: Seq<char>, attached: u128) -> int {
        self.entry(b) + attached - self.commission(attached)
    }
}

impl AuctionState {
    /// The state is well formed and its entries name each bidder once.
    pub open spec fn wf(&self) -> bool {
        &&& self@.wf()
        &&& unique_bidders(self.entries@)
    }
}

/// Why a bid by `bidder` with `funds` attached fails, checked in this
/// order; `None` where it is accepted.
pub open spec fn bid_refusal(s: AuctionView, bidder: Seq<char>, funds: Seq<Coin>) -> Option<
    ContractError,
> {
    let attached = attached_amount(funds, s.denom);
    if s.closed {
        Some(ContractError::ContractClosed)
    } else if attached == 0 {
        Some(ContractError::BiddingEmpty)
    } else if s.total_after(bidder, attached) > u128::MAX {
        Some(ContractError::Overflow)
    } else if s.total_after(bidder, attached) < s.highest_bid {
        Some(ContractError::Biddingfail)
    } else {
        None
    }
}

/// The auction after an accepted bid of `attached` by `bidder`.
pub open spec fn after_bid(s: AuctionView, bidder: Seq<char>, attached: u128) -> AuctionView {
    let total = s.total_after(bidder, attached) as u128;
    AuctionView {
        ledger: s.ledger.insert(bidder, total),
        highest_bid: total,
        highest_bidder: Some(bidder),
        ..s
    }
}

/// A direct transfer of `amount` of the auction's denomination to `to`,
/// as a list that leaves out a transfer of nothing.
pub open spec fn payout(s: AuctionView, to: Seq<char>, amount: u128) -> Seq<MovementView> {
    if amount > 0 {
        seq![MovementView::Send { to, denom: s.denom, amount }]
    } else {
        Seq::empty()
    }
}

/// What a bid by `bidder` with `funds` attached does: from `pre` to `post`,
/// with result `r`. A refused bid changes nothing; an accepted one pays the
/// commission to the owner and raises the bidder's entry and the high mark
/// to the bidder's new running total.
pub open spec fn bid_post(
    pre: AuctionView,
    post: AuctionView,
    bidder: Seq<char>,
    funds: Seq<Coin>,
    r: Result<Vec<Message>, ContractError>,
) -> bool {
    let attached = attached_amount(funds, pre.denom);
    match bid_refusal(pre, bidder, funds) {
        Some(e) => r == Err::<Vec<Message>, ContractError>(e) && post == pre,
        None => r matches Ok(msgs) && post == after_bid(pre, bidder, attached) && carries_all(
            payout(pre, pre.owner, pre.commission(attached) as u128),
            msgs@,
        ),
    }
}

/// The auction once closed by its owner: the highest bidder wins and their
/// entry is consumed by the sale.
pub open spec fn after_close(s: AuctionView) -> AuctionView {
    AuctionView {
        closed: true,
        winner: s.highest_bidder,
        ledger: s.ledger.remove(s.highest_bidder->0),
        ..s
    }
}

/// What a close by `sender` does: from `pre` to `post`, with result `r`.
/// A closed auction refuses with `ContractClosed`, one without bids with
/// `NoBids`, anyone but the owner with `NotOwner`, all changing nothing;
/// otherwise the highest bid goes to the owner.
pub open spec fn auction_close_post(
    pre: AuctionView,
    post: AuctionView,
    sender: Seq<char>,
    r: Result<Vec<Message>, ContractError>,
) -> bool {
    if pre.closed {
        r == Err::<Vec<Message>, ContractError>(ContractError::ContractClosed) && post == pre
    } else if pre.highest_bidder is None {
        r == Err::<Vec<Message>, ContractError>(ContractError::NoBids) && post == pre
    } else if sender != pre.owner {
        r matches Err(ContractError::NotOwner { owner }) && owner@ == pre.owner && post == pre
    } else {
        r matches Ok(msgs) && post == after_close(pre) && carries_all(
            payout(pre, pre.owner, pre.highest_bid),
            msgs@,
        )
    }
}

/// What a retraction by `bidder`, paid to `recipient`, does: from `pre` to
/// `post`, with result `r`. An open auction refuses with
/// `ContractNotClosed`, a bidder without a positive entry with `NoBids`,
/// both changing nothing; otherwise the whole entry is paid out and
/// removed.
pub open spec fn retract_post(
    pre: AuctionView,
    post: AuctionView,
    bidder: Seq<char>,
    recipient: Seq<char>,
    r: Result<Vec<Message>, ContractError>,
) -> bool {
    if !pre.closed {
        r == Err::<Vec<Message>, ContractError>(ContractError::ContractNotClosed) && post == pre
    } else if pre.entry(bidder) == 0 {
        r == Err::<Vec<Message>, ContractError>(ContractError::NoBids) && post == pre
    } else {
        r matches Ok(msgs) && post == (AuctionView { ledger: pre.ledger.remove(bidder), ..pre })
            && carries_all(payout(pre, recipient, pre.entry(bidder)), msgs@)
    }
}

/// The host messages for a transfer of `amount` of `denom` to `to`;
/// nothing where the amount is zero.
fn pay(to: &String, denom: &String, amount: u128) -> (r: Vec<Message>)
    ensures
        forall|s: AuctionView|
            s.denom == denom@ ==> carries_all(#[trigger] payout(s, to@, amount), r@),
{
    let mut movements: Vec<Movement> = Vec::new();
    if amount > 0 {
        movements.push(Movement::Send { to: to.clone(), denom: denom.clone(), amount });
    }
    let ghost ms = movements_view(movements@);
    assert(all_direct(ms));
    match to_messages(&movements) {
        Ok(msgs) => {
            assert forall|s: AuctionView| s.denom == denom@ implies carries_all(
                #[trigger] payout(s, to@, amount),
                msgs@,
            ) by {
                assert(payout(s, to@, amount) =~= ms);
            }
            msgs
        },
        Err(_) => Vec::new(),
    }
}

impl AuctionState {
    /// A new, open auction without bids, or `None` where the commission
    /// rate is not well formed.
    pub fn new(owner: String, denom: String, rate: u128, scale: u128) -> (r: Option<AuctionState>)
        ensures
            r is Some <==> valid_rate(rate, scale),
            r matches Some(s) ==> s.wf() && s@ == (AuctionView {
                owner: owner@,
                denom: denom@,
                rate,
                scale,
                ledger: Map::empty(),
                highest_bid: 0,
                highest_bidder: None,
                closed: false,
                winner: None,
            }),
    {
        if scale == 0 || scale > crate::commission::MAX_DENOMINATOR || rate > scale {
            return None;
        }
        let s = AuctionState {
            owner,
            denom,
            rate,
            scale,
            entries: Vec::new(),
            highest_bid: 0,
            highest_bidder: None,
            closed: false,
            winner: None,
        };
        assert(ledger_of(s.entries@) =~= Map::empty());
        Some(s)
    }

    /// Places a bid with the funds attached to the call.
    pub fn bid(&mut self, info: &MessageInfo) -> (r: Result<Vec<Message>, ContractError>)
        requires
            old(self).wf(),
        ensures
            final(self).wf(),
            bid_post(old(self)@, final(self)@, info.sender@, info.funds@, r),
    {
        if self.closed {
            return Err(ContractError::ContractClosed);
        }
        let attached_now = attached(&info.funds, &self.denom);
        if attached_now == 0 {
            return Err(ContractError::BiddingEmpty);
        }
        let commission = share(attached_now, self.rate, self.scale);
        let contribution = attached_now - commission;
        let found = find_bidder(&self.entries, &info.sender);
        let prior = match found {
            Some(i) => self.entries[i].amount,
            None => 0,
        };
        proof {
            if let Some(i) = found {
                lemma_ledger_at(self.entries@, i as int);
            }
        }
        assert(prior == self@.entry(info.sender@));
        if prior > u128::MAX - contribution {
            return Err(ContractError::Overflow);
        }
        let total = prior + contribution;
        if total < self.highest_bid {
            return Err(ContractError::Biddingfail);
        }
        let ghost pre = self@;
        let entry = BidEntry { bidder: info.sender.clone(), amount: total };
        match found {
            Some(i) => {
                proof {
                    lemma_ledger_update(self.entries@, i as int, entry);
                }
                self.entries.set(i, entry);
            },
            None => {
                proof {
                    lemma_ledger_push(self.entries@, entry);
                }
                self.entries.push(entry);
            },
        }
        self.highest_bid = total;
        self.highest_bidder = Some(info.sender.clone());
        assert(self@ == after_bid(pre, info.sender@, attached_now));
        Ok(pay(&self.owner, &self.denom, commission))
    }

    /// Ends the auction: only the owner may, once there is a bid; the
    /// highest bid goes to the owner and the highest bidder wins.
    pub fn close(&mut self, info: &MessageInfo) -> (r: Result<Vec<Message>, ContractError>)
        requires
            old(self).wf(),
        ensures
            final(self).wf(),
            auction_close_post(old(self)@, final(self)@, info.sender@, r),
    {
        if self.closed {
            return Err(ContractError::ContractClosed);
        }
        let winner = match &self.highest_bidder {
            Some(b) => b.clone(),
            None => {
                return Err(ContractError::NoBids);
            },
        };
        if info.sender != self.owner {
            return Err(ContractError::NotOwner { owner: self.owner.clone() });
        }
        let ghost pre = self@;
        match find_bidder(&self.entries, &winner) {
            Some(i) => {
                proof {
                    lemma_ledger_remove(self.entries@, i as int);
                }
                self.entries.remove(i);
            },
            None => {
                assert(!pre.ledger.contains_key(winner@));
            },
        }
        self.closed = true;
        self.winner = Some(winner);
        assert(self@.ledger =~= pre.ledger.remove(winner@));
        assert(self@ == after_close(pre));
        Ok(pay(&self.owner, &self.denom, self.highest_bid))
    }

    /// Pays the caller's whole entry to `recipient` once the auction is
    /// closed, and removes the entry.
    pub fn retract_to(&mut self, info: &MessageInfo, recipient: &String) -> (r: Result<
        Vec<Message>,
        ContractError,
    >)
        requires
            old(self).wf(),
        ensures
            final(self).wf(),
            retract_post(old(self)@, final(self)@, info.sender@, recipient@, r),
    {
        if !self.closed {
            return Err(ContractError::ContractNotClosed);
        }
        let i = match find_bidder(&self.entries, &info.sender) {
            Some(i) => i,
            None => {
                return Err(ContractError::NoBids);
            },
        };
        proof {
            lemma_ledger_at(self.entries@, i as int);
        }
        let amount = self.entries[i].amount;
        if amount == 0 {
            return Err(ContractError::NoBids);
        }
        let ghost pre = self@;
        proof {
            lemma_ledger_remove(self.entries@, i as int);
        }
        self.entries.remove(i);
        assert(self@ == (AuctionView { ledger: pre.ledger.remove(info.sender@), ..pre }));
        Ok(pay(recipient, &self.denom, amount))
    }

    /// Pays the caller's whole entry back to the caller once the auction
    /// is closed, and removes the entry.
    pub fn retract(&mut self, info: &MessageInfo) -> (r: Result<Vec<Message>, ContractError>)
        requires
            old(self).wf(),
        ensures
            final(self).wf(),
            retract_post(old(self)@, final(self)@, info.sender@, info.sender@, r),
    {
        let recipient = info.sender.clone();
        self.retract_to(info, &recipient)
    }

    /// The highest bid so far and who made it.
    pub fn highest(&self) -> (r: (u128, Option<String>))
        ensures
            r.0 == self.highest_bid,
            opt_view(r.1) == opt_view(self.highest_bidder),
    {
        (self.highest_bid, self.highest_bidder.clone())
    }

    /// Who owns the auction.
    pub fn owner_of(&self) -> (r: String)
        ensures
            r@ == self.owner@,
    {
        self.owner.clone()
    }

    /// Whether the auction is closed.
    pub fn is_closed(&self) -> (r: bool)
        ensures
            r == self.closed,
    {
        self.closed
    }

    /// The winner; `None` until the auction is closed.
    pub fn winner_of(&self) -> (r: Option<String>)
        requires
            self.wf(),
        ensures
            opt_view(r) == self@.winner,
            !self.closed ==> r is None,
    {
        self.winner.clone()
    }

    /// What `address` has in the ledger, if anything.
    pub fn current_bid(&self, address: &String) -> (r: Option<u128>)
        requires
            self.wf(),
        ensures
            r is Some <==> self@.ledger.contains_key(address@),
            r matches Some(v) ==> v == self@.ledger[address@],
    {
        match find_bidder(&self.entries, address) {
            Some(i) => {
                proof {
                    lemma_ledger_at(self.entries@, i as int);
                }
                Some(self.entries[i].amount)
            },
            None => None,
        }
    }
}

/// Retracting twice: once a bidder's retraction succeeds their entry is
/// gone, so a second retraction by the same bidder fails with `NoBids` and
/// changes nothing.
pub proof fn retract_twice_fails(
    s0: AuctionView,
    s1: AuctionView,
    s2: AuctionView,
    bidder: Seq<char>,
    first_to: Seq<char>,
    second_to: Seq<char>,
    r1: Result<Vec<Message>, ContractError>,
    r2: Result<Vec<Message>, ContractError>,
)
    requires
        retract_post(s0, s1, bidder, first_to, r1),
        r1 is Ok,
        retract_post(s1, s2, bidder, second_to, r2),
    ensures
        r2 == Err::<Vec<Message>, ContractError>(ContractError::NoBids),
        s2 == s1,
{
}

/// Closing an auction twice: once a close succeeds, a second close, by
/// anyone, fails with `ContractClosed` and changes nothing.
pub proof fn auction_close_twice_fails(
    s0: AuctionView,
    s1: AuctionView,
    s2: AuctionView,
    first: Seq<char>,
    second: Seq<char>,
    r1: Result<Vec<Message>, ContractError>,
    r2: Result<Vec<Message>, ContractError>,
)
    requires
        auction_close_post(s0, s1, first, r1),
        r1 is Ok,
        auction_close_post(s1, s2, second, r2),
    ensures
        r2 == Err::<Vec<Message>, ContractError>(ContractError::ContractClosed),
        s2 == s1,
{
}

/// Only the owner may close: a close of an open auction that has a bid,
/// by anyone else, fails with `NotOwner`, naming the owner, and changes
/// nothing.
pub proof fn auction_close_needs_owner(
    s0: AuctionView,
    s1: AuctionView,
    sender: Seq<char>,
    r: Result<Vec<Message>, ContractError>,
)
    requires
        auction_close_post(s0, s1, sender, r),
        !s0.closed,
        s0.highest_bidder is Some,
        sender != s0.owner,
    ensures
        r matches Err(ContractError::NotOwner { owner }) && owner@ == s0.owner,
        s1 == s0,
{
}

/// A bid never lowers the high mark; a bid whose running total would stay
/// below it is refused, as `Biddingfail` when the auction is open and the
/// bid carries funds, and changes nothing.
pub proof fn bid_keeps_high_mark(
    pre: AuctionView,
    post: AuctionView,
    bidder: Seq<char>,
    funds: Seq<Coin>,
    r: Result<Vec<Message>, ContractError>,
)
    requires
        bid_post(pre, post, bidder, funds, r),
    ensures
        post.highest_bid >= pre.highest_bid,
        pre.total_after(bidder, attached_amount(funds, pre.denom)) < pre.highest_bid ==> {
            &&& r is Err
            &&& post == pre
            &&& !pre.closed && attached_amount(funds, pre.denom) > 0 ==> r == Err::<
                Vec<Message>,
                ContractError,
            >(ContractError::Biddingfail)
        },
{
}

/// Over any run of bids, accepted or refused, the high mark never falls.
pub proof fn high_mark_never_falls(
    states: Seq<AuctionView>,
    bidders: Seq<Seq<char>>,
    funds: Seq<Seq<Coin>>,
    results: Seq<Result<Vec<Message>, ContractError>>,
)
    requires
        states.len() == bidders.len() + 1,
        funds.len() == bidders.len(),
        results.len() == bidders.len(),
        forall|k: int|
            0 <= k < bidders.len() ==> bid_post(
                #[trigger] states[k],
                states[k + 1],
                bidders[k],
                funds[k],
                results[k],
            ),
    ensures
        forall|i: int, j: int|
            0 <= i <= j < states.len() ==> #[trigger] states[i].highest_bid
                <= #[trigger] states[j].highest_bid,
    decreases bidders.len(),
{
    if bidders.len() > 0 {
        let n = bidders.len() - 1;
        high_mark_never_falls(
            states.drop_last(),
            bidders.drop_last(),
            funds.drop_last(),
            results.drop_last(),
        );
        bid_keeps_high_mark(states[n], states[n + 1], bidders[n], funds[n], results[n]);
        assert forall|i: int, j: int| 0 <= i <= j < states.len() implies #[trigger] states[i].highest_bid
            <= #[trigger] states[j].highest_bid by {
            if j == states.len() - 1 && i < j {
                assert(states.drop_last()[i] == states[i]);
                assert(states.drop_last()[n] == states[n]);
            } else if j < states.len() - 1 {
                assert(states.drop_last()[i] == states[i]);
                assert(states.drop_last()[j] == states[j]);
            }
        }
    }
}

/// Ties go to the latest bidder: a bid whose running total exactly equals
/// the high mark is accepted, and its bidder becomes the highest bidder.
pub proof fn equal_bid_takes_lead(
    pre: AuctionView,
    post: AuctionView,
    bidder: Seq<char>,
    funds: Seq<Coin>,
    r: Result<Vec<Message>, ContractError>,
)
    requires
        bid_post(pre, post, bidder, funds, r),
        !pre.closed,
        attached_amount(funds, pre.denom) > 0,
        pre.total_after(bidder, attached_amount(funds, pre.denom)) == pre.highest_bid,
    ensures
        r is Ok,
        post.highest_bidder == Some(bidder),
        post.highest_bid == pre.highest_bid,
        post.ledger[bidder] == pre.highest_bid,
{
}

} // verus!

//! The escrow agreement: its creation, settlement, cancellation and queries.
//!
//! Each transition first decides, on the current state alone, which
//! movements it performs; only then are the movements encoded for the host
//! and the state changed, so a failing call changes nothing.
use vstd::prelude::*;

use crate::asset::{
    attached, attached_amount, collected, lemma_push_positive_total,
    movements_view, push_if_positive, push_positive, released, total_moved, Asset, AssetKind,
    AssetView, Coin, Movement, MovementView,
};
use crate::commission::{lemma_split_fits, CommissionPolicy};
use crate::error::ContractError;
use crate::host::{all_direct, amount_of_text, carries_all, parse_amount, to_messages, Message};
use crate::msg::{ContractResp, Env, MessageInfo, OpenResp};
use crate::state::{AgreementState, AgreementView};

verus! {

/// Why an agreement cannot be opened.
pub enum Refusal {
    /// The call fails with this error.
    Error(ContractError),
    /// An amount does not read as a number.
    Unreadable,
}

/// The error `e` is the one that `f` describes.
pub open spec fn refused_as(e: ContractError, f: Refusal) -> bool {
    match f {
        Refusal::Error(x) => e == x,
        Refusal::Unreadable => e is Std,
    }
}

/// Why opening with these inputs fails, checked in this order; `None`
/// where it succeeds.
pub open spec fn open_refusal(
    funds: Seq<Coin>,
    amount: Option<String>,
    cw20contract: Option<String>,
    priceamount: Seq<char>,
) -> Option<Refusal> {
    if funds.len() == 0 && amount is None {
        Some(Refusal::Error(ContractError::NoFunds))
    } else if amount is None && funds[0].amount == 0 {
        Some(Refusal::Error(ContractError::NoFunds))
    } else if funds.len() > 0 && amount is Some {
        Some(Refusal::Error(ContractError::NotOneAsset))
    } else if funds.len() > 1 {
        Some(Refusal::Error(ContractError::NotOneAsset))
    } else if (amount is Some) != (cw20contract is Some) {
        Some(Refusal::Error(ContractError::NoContract))
    } else if amount matches Some(a) && amount_of_text(a@) is None {
        Some(Refusal::Unreadable)
    } else if amount matches Some(a) && amount_of_text(a@) == Some(0u128) {
        Some(Refusal::Error(ContractError::NoFunds))
    } else if amount_of_text(priceamount) is None {
        Some(Refusal::Unreadable)
    } else if amount_of_text(priceamount) == Some(0u128) {
        Some(Refusal::Error(ContractError::NoFunds))
    } else {
        None
    }
}

/// The kind of the price: a managed token where the flag is `"1"`.
pub open spec fn price_kind(iscw20: Seq<char>) -> AssetKind {
    if iscw20 == seq!['1'] {
        AssetKind::Managed
    } else {
        AssetKind::Native
    }
}

/// The offer that opening escrows: the attached coin, or the managed
/// token amount.
pub open spec fn opened_offer(
    funds: Seq<Coin>,
    amount: Option<String>,
    cw20contract: Option<String>,
) -> AssetView {
    match amount {
        None => AssetView {
            kind: AssetKind::Native,
            identifier: funds[0].denom@,
            amount: funds[0].amount,
        },
        Some(a) => AssetView {
            kind: AssetKind::Managed,
            identifier: cw20contract->0@,
            amount: amount_of_text(a@)->0,
        },
    }
}

/// The agreement that a successful opening creates.
pub open spec fn opened(
    info: &MessageInfo,
    env: &Env,
    amount: Option<String>,
    cw20contract: Option<String>,
    priceamount: Seq<char>,
    pricedenom: Seq<char>,
    iscw20: Seq<char>,
    commission: &CommissionPolicy,
) -> AgreementView {
    AgreementView {
        offer: opened_offer(info.funds@, amount, cw20contract),
        price: AssetView {
            kind: price_kind(iscw20),
            identifier: pricedenom,
            amount: amount_of_text(priceamount)->0,
        },
        receiver: info.sender@,
        open: true,
        completed: false,
        created_at: env.time_seconds,
        commission: commission@,
    }
}

/// What opening moves: a managed offer is drawn from the depositor into
/// this contract's custody; a native one arrives attached to the call.
pub open spec fn opening_movements(
    offer: AssetView,
    depositor: Seq<char>,
    contract_address: Seq<char>,
) -> Seq<MovementView> {
    if offer.kind == AssetKind::Managed {
        seq![collected(offer.kind, offer.identifier, depositor, contract_address, offer.amount)]
    } else {
        Seq::empty()
    }
}

/// `msgs` carry what opening the agreement `s` moves.
pub open spec fn carries_opening(
    s: AgreementView,
    depositor: Seq<char>,
    contract_address: Seq<char>,
    msgs: Seq<Message>,
) -> bool {
    carries_all(opening_movements(s.offer, depositor, contract_address), msgs)
}

/// Whether the price flag names a managed token.
fn is_managed_flag(iscw20: &String) -> (r: bool)
    ensures
        r == (iscw20@ == seq!['1']),
{
    let text = iscw20.as_str();
    if text.unicode_len() == 1 && text.get_char(0) == '1' {
        assert(iscw20@ =~= seq!['1']);
        true
    } else {
        false
    }
}

/// Decides the agreement that opening creates and the movements it makes.
pub fn plan_open(
    info: &MessageInfo,
    amount: Option<String>,
    cw20contract: Option<String>,
    priceamount: &String,
    pricedenom: String,
    iscw20: &String,
    env: &Env,
    commission: CommissionPolicy,
) -> (r: Result<(AgreementState, Vec<Movement>), ContractError>)
    requires
        commission@.wf(),
    ensures
        match open_refusal(info.funds@, amount, cw20contract, priceamount@) {
            Some(f) => r matches Err(e) && refused_as(e, f),
            None => r matches Ok((s, ms)) && s@ == opened(
                info,
                env,
                amount,
                cw20contract,
                priceamount@,
                pricedenom@,
                iscw20@,
                &commission,
            ) && s@.wf() && movements_view(ms@) == opening_movements(
                s@.offer,
                info.sender@,
                env.contract_address@,
            ),
        },
{
    if info.funds.len() == 0 && amount.is_none() {
        return Err(ContractError::NoFunds);
    }
    if amount.is_none() && info.funds[0].amount == 0 {
        return Err(ContractError::NoFunds);
    }
    if info.funds.len() > 0 && amount.is_some() {
        return Err(ContractError::NotOneAsset);
    }
    if info.funds.len() > 1 {
        return Err(ContractError::NotOneAsset);
    }
    let offer = match (amount, cw20contract) {
        (None, None) => Asset {
            kind: AssetKind::Native,
            identifier: info.funds[0].denom.clone(),
            amount: info.funds[0].amount,
        },
        (Some(text), Some(contract)) => {
            let value = match parse_amount(&text) {
                Ok(v) => v,
                Err(e) => {
                    return Err(e);
                },
            };
            if value == 0 {
                return Err(ContractError::NoFunds);
            }
            Asset { kind: AssetKind::Managed, identifier: contract, amount: value }
        },
        _ => {
            return Err(ContractError::NoContract);
        },
    };
    let price_amount = match parse_amount(priceamount) {
        Ok(v) => v,
        Err(e) => {
            return Err(e);
        },
    };
    if price_amount == 0 {
        return Err(ContractError::NoFunds);
    }
    let price_kind = if is_managed_flag(iscw20) {
        AssetKind::Managed
    } else {
        AssetKind::Native
    };
    let price = Asset { kind: price_kind, identifier: pricedenom, amount: price_amount };
    let mut movements: Vec<Movement> = Vec::new();
    if offer.kind == AssetKind::Managed {
        let deposit = offer.collect(&info.sender, &env.contract_address, offer.amount);
        movements.push(deposit);
        assert(movements_view(movements@) =~= seq![deposit@]);
    } else {
        assert(movements_view(movements@) =~= Seq::<MovementView>::empty());
    }
    let state = AgreementState {
        offer,
        price,
        receiver: info.sender.clone(),
        open: true,
        completed: false,
        created_at: env.time_seconds,
        commission,
    };
    Ok((state, movements))
}

/// Creates an agreement: escrows the offer, records the price, and makes
/// the caller its receiver. It fails as [`open_refusal`] says; past those
/// checks it fails only where a token instruction could not be encoded.
pub fn open(
    info: &MessageInfo,
    amount: Option<String>,
    cw20contract: Option<String>,
    priceamount: String,
    pricedenom: String,
    iscw20: String,
    env: &Env,
    commission: CommissionPolicy,
) -> (r: Result<(AgreementState, Vec<Message>), ContractError>)
    requires
        commission@.wf(),
    ensures
        open_refusal(info.funds@, amount, cw20contract, priceamount@) matches Some(f) ==> (r matches Err(
            e,
        ) && refused_as(e, f)),
        open_refusal(info.funds@, amount, cw20contract, priceamount@) is None ==> match r {
            Ok((s, msgs)) => s@ == opened(
                info,
                env,
                amount,
                cw20contract,
                priceamount@,
                pricedenom@,
                iscw20@,
                &commission,
            ) && s@.wf() && carries_opening(s@, info.sender@, env.contract_address@, msgs@),
            Err(e) => e is Std && amount is Some,
        },
{
    let ghost amount_in = amount;
    let planned = plan_open(
        info,
        amount,
        cw20contract,
        &priceamount,
        pricedenom,
        &iscw20,
        env,
        commission,
    );
    match planned {
        Ok((state, movements)) => {
            proof {
                if amount_in is None {
                    assert(all_direct(movements_view(movements@)));
                }
            }
            match to_messages(&movements) {
                Ok(msgs) => Ok((state, msgs)),
                Err(e) => Err(e),
            }
        },
        Err(e) => Err(e),
    }
}

/// Why buying fails, checked in this order; `None` where it succeeds.
pub open spec fn buy_refusal(s: AgreementView, funds: Seq<Coin>) -> Option<ContractError> {
    if !s.open {
        Some(ContractError::ContractClosed)
    } else if s.price.kind == AssetKind::Native && attached_amount(funds, s.price.identifier)
        < s.price.amount {
        Some(ContractError::OfferFail)
    } else {
        None
    }
}

/// What a purchase by `buyer` moves, in order: the price less commission
/// to the receiver, each commission share to its recipient, then the whole
/// offer to the buyer. Transfers of nothing are left out.
pub open spec fn purchase_movements(s: AgreementView, buyer: Seq<char>) -> Seq<MovementView> {
    let p = s.price;
    let c = s.commission;
    let rest = c.remainder(p.amount) as u128;
    let first = c.first_share(p.amount) as u128;
    let second = c.second_share(p.amount) as u128;
    let paid = push_positive(
        Seq::empty(),
        collected(p.kind, p.identifier, buyer, s.receiver, rest),
        rest,
    );
    let with_first = push_positive(
        paid,
        collected(p.kind, p.identifier, buyer, c.first_recipient, first),
        first,
    );
    let with_second = push_positive(
        with_first,
        collected(p.kind, p.identifier, buyer, c.second_recipient, second),
        second,
    );
    with_second.push(released(s.offer.kind, s.offer.identifier, buyer, s.offer.amount))
}

/// The agreement once settled by a purchase.
pub open spec fn sold(s: AgreementView) -> AgreementView {
    AgreementView { open: false, completed: true, ..s }
}

/// The agreement once cancelled by its receiver.
pub open spec fn cancelled(s: AgreementView) -> AgreementView {
    AgreementView { open: false, completed: false, ..s }
}

/// What a cancellation moves: the whole offer back to the receiver.
pub open spec fn return_movements(s: AgreementView) -> Seq<MovementView> {
    seq![released(s.offer.kind, s.offer.identifier, s.receiver, s.offer.amount)]
}

proof fn lemma_native_moves_direct(s: AgreementView, buyer: Seq<char>)
    requires
        s.price.kind == AssetKind::Native,
        s.offer.kind == AssetKind::Native,
    ensures
        all_direct(purchase_movements(s, buyer)),
{
    let ms = purchase_movements(s, buyer);
    assert forall|i: int| 0 <= i < ms.len() implies #[trigger] ms[i] is Send by {}
}

/// What a purchase by `buyer`, with `funds` attached, does: from `pre` to
/// `post`, with result `r`. A refused purchase changes nothing; one that
/// passes the checks settles the agreement, or fails to encode a token
/// instruction and changes nothing.
pub open spec fn buy_post(
    pre: AgreementView,
    post: AgreementView,
    buyer: Seq<char>,
    funds: Seq<Coin>,
    r: Result<Vec<Message>, ContractError>,
) -> bool {
    match buy_refusal(pre, funds) {
        Some(e) => r == Err::<Vec<Message>, ContractError>(e) && post == pre,
        None => match r {
            Ok(msgs) => post == sold(pre) && carries_all(purchase_movements(pre, buyer), msgs@),
            Err(e) => e is Std && post == pre && (pre.price.kind == AssetKind::Managed
                || pre.offer.kind == AssetKind::Managed),
        },
    }
}

/// What a cancellation by `sender` does: from `pre` to `post`, with result
/// `r`. A closed agreement refuses with `ContractClosed`, anyone but the
/// receiver with `NotOwner`, both changing nothing; otherwise the offer
/// goes back to the receiver, or a token instruction fails to encode and
/// nothing changes.
pub open spec fn close_post(
    pre: AgreementView,
    post: AgreementView,
    sender: Seq<char>,
    r: Result<Vec<Message>, ContractError>,
) -> bool {
    if !pre.open {
        r == Err::<Vec<Message>, ContractError>(ContractError::ContractClosed) && post == pre
    } else if sender != pre.receiver {
        r matches Err(ContractError::NotOwner { owner }) && owner@ == pre.receiver && post == pre
    } else {
        match r {
            Ok(msgs) => post == cancelled(pre) && carries_all(return_movements(pre), msgs@),
            Err(e) => e is Std && post == pre && pre.offer.kind == AssetKind::Managed,
        }
    }
}

/// Decides the movements of a purchase by the caller.
pub fn plan_buy(state: &AgreementState, info: &MessageInfo) -> (r: Result<
    Vec<Movement>,
    ContractError,
>)
    requires
        state@.wf(),
    ensures
        match buy_refusal(state@, info.funds@) {
            Some(e) => r == Err::<Vec<Movement>, ContractError>(e),
            None => r matches Ok(ms) && movements_view(ms@) == purchase_movements(
                state@,
                info.sender@,
            ),
        },
{
    if !state.open {
        return Err(ContractError::ContractClosed);
    }
    if state.price.kind == AssetKind::Native {
        let paid = attached(&info.funds, &state.price.identifier);
        if paid < state.price.amount {
            return Err(ContractError::OfferFail);
        }
    }
    let (first, second, rest) = state.commission.split(state.price.amount);
    let mut movements: Vec<Movement> = Vec::new();
    assert(movements_view(movements@) =~= Seq::<MovementView>::empty());
    let to_receiver = state.price.collect(&info.sender, &state.receiver, rest);
    push_if_positive(&mut movements, to_receiver, rest);
    let to_first = state.price.collect(&info.sender, &state.commission.first_recipient, first);
    push_if_positive(&mut movements, to_first, first);
    let to_second = state.price.collect(&info.sender, &state.commission.second_recipient, second);
    push_if_positive(&mut movements, to_second, second);
    let ghost before = movements_view(movements@);
    let offer = state.offer.release(&info.sender, state.offer.amount);
    movements.push(offer);
    assert(movements_view(movements@) =~= before.push(offer@));
    Ok(movements)
}

/// Settles the agreement: the caller pays the price, commission is taken
/// from it, and the caller receives the whole offer. It fails as
/// [`buy_refusal`] says, changing nothing; past those checks it fails only
/// where a token instruction could not be encoded.
pub fn buy(state: &mut AgreementState, info: &MessageInfo) -> (r: Result<
    Vec<Message>,
    ContractError,
>)
    requires
        old(state)@.wf(),
    ensures
        final(state)@.wf(),
        buy_post(old(state)@, final(state)@, info.sender@, info.funds@, r),
{
    let movements = match plan_buy(state, info) {
        Ok(ms) => ms,
        Err(e) => {
            return Err(e);
        },
    };
    proof {
        if state.price.kind == AssetKind::Native && state.offer.kind == AssetKind::Native {
            lemma_native_moves_direct(state@, info.sender@);
        }
    }
    let msgs = match to_messages(&movements) {
        Ok(msgs) => msgs,
        Err(e) => {
            return Err(e);
        },
    };
    state.open = false;
    state.completed = true;
    Ok(msgs)
}

/// Decides the movements of a cancellation by the caller.
pub fn plan_close(state: &AgreementState, info: &MessageInfo) -> (r: Result<
    Vec<Movement>,
    ContractError,
>)
    ensures
        !state.open ==> r == Err::<Vec<Movement>, ContractError>(ContractError::ContractClosed),
        state.open && info.sender@ != state.receiver@ ==> (r matches Err(
            ContractError::NotOwner { owner },
        ) && owner@ == state.receiver@),
        state.open && info.sender@ == state.receiver@ ==> (r matches Ok(ms) && movements_view(
            ms@,
        ) == return_movements(state@)),
{
    if !state.open {
        return Err(ContractError::ContractClosed);
    }
    if info.sender != state.receiver {
        return Err(ContractError::NotOwner { owner: state.receiver.clone() });
    }
    let back = state.offer.release(&state.receiver, state.offer.amount);
    let mut movements: Vec<Movement> = Vec::new();
    movements.push(back);
    assert(movements_view(movements@) =~= seq![back@]);
    Ok(movements)
}

/// Cancels the agreement: only its receiver may, and the whole offer goes
/// back to them. A closed agreement fails with `ContractClosed` and any
/// other caller with `NotOwner`, changing nothing; past those checks it
/// fails only where a token instruction could not be encoded.
pub fn close(state: &mut AgreementState, info: &MessageInfo) -> (r: Result<
    Vec<Message>,
    ContractError,
>)
    requires
        old(state)@.wf(),
    ensures
        final(state)@.wf(),
        close_post(old(state)@, final(state)@, info.sender@, r),
{
    let movements = match plan_close(state, info) {
        Ok(ms) => ms,
        Err(e) => {
            return Err(e);
        },
    };
    proof {
        if state.offer.kind == AssetKind::Native {
            assert(all_direct(movements_view(movements@)));
        }
    }
    let msgs = match to_messages(&movements) {
        Ok(msgs) => msgs,
        Err(e) => {
            return Err(e);
        },
    };
    state.open = false;
    state.completed = false;
    Ok(msgs)
}

/// Whether the agreement still accepts a purchase.
pub fn isopen(state: &AgreementState) -> (r: OpenResp)
    ensures
        r.isopen == state.open,
{
    OpenResp { isopen: state.open }
}

/// `r` reports the whole record `s`.
pub open spec fn reports(r: ContractResp, s: AgreementView) -> bool {
    &&& r.isopen == s.open
    &&& r.offeramount == s.offer.amount
    &&& r.offerdenom@ == s.offer.identifier
    &&& r.priceamount == s.price.amount
    &&& r.pricedenom@ == s.price.identifier
    &&& r.receiver@ == s.receiver
    &&& r.completed == s.completed
    &&& r.time == s.created_at
}

/// The whole record of the agreement.
pub fn status(state: &AgreementState) -> (r: ContractResp)
    ensures
        reports(r, state@),
{
    ContractResp {
        isopen: state.open,
        offeramount: state.offer.amount,
        offerdenom: state.offer.identifier.clone(),
        priceamount: state.price.amount,
        pricedenom: state.price.identifier.clone(),
        receiver: state.receiver.clone(),
        completed: state.completed,
        time: state.created_at,
    }
}

/// Closing twice: once a close succeeds the agreement is no longer open, so
/// a second close, by anyone, fails with `ContractClosed` and changes
/// nothing.
pub proof fn close_twice_fails(
    s0: AgreementView,
    s1: AgreementView,
    s2: AgreementView,
    first: Seq<char>,
    second: Seq<char>,
    r1: Result<Vec<Message>, ContractError>,
    r2: Result<Vec<Message>, ContractError>,
)
    requires
        close_post(s0, s1, first, r1),
        r1 is Ok,
        close_post(s1, s2, second, r2),
    ensures
        r2 == Err::<Vec<Message>, ContractError>(ContractError::ContractClosed),
        s2 == s1,
{
}

/// Only the receiver may cancel: a close of an open agreement by anyone
/// else fails with `NotOwner`, naming the receiver, and changes nothing.
pub proof fn close_needs_receiver(
    s0: AgreementView,
    s1: AgreementView,
    sender: Seq<char>,
    r: Result<Vec<Message>, ContractError>,
)
    requires
        close_post(s0, s1, sender, r),
        s0.open,
        sender != s0.receiver,
    ensures
        r matches Err(ContractError::NotOwner { owner }) && owner@ == s0.receiver,
        s1 == s0,
{
}

/// Conservation at settlement: commission is taken from the price, and the
/// transfers of the price in a purchase (to the receiver and to the two
/// commission recipients) add up to exactly the price; the last movement
/// hands the whole offer to the buyer.
pub proof fn settlement_conserves_price(s: AgreementView, buyer: Seq<char>)
    requires
        s.wf(),
    ensures
        s.commission.remainder(s.price.amount) + s.commission.first_share(s.price.amount)
            + s.commission.second_share(s.price.amount) == s.price.amount,
        total_moved(purchase_movements(s, buyer).drop_last()) == s.price.amount,
        purchase_movements(s, buyer).last() == released(
            s.offer.kind,
            s.offer.identifier,
            buyer,
            s.offer.amount,
        ),
{
    let p = s.price;
    let c = s.commission;
    lemma_split_fits(c, p.amount);
    let rest = c.remainder(p.amount) as u128;
    let first = c.first_share(p.amount) as u128;
    let second = c.second_share(p.amount) as u128;
    let m0 = collected(p.kind, p.identifier, buyer, s.receiver, rest);
    let m1 = collected(p.kind, p.identifier, buyer, c.first_recipient, first);
    let m2 = collected(p.kind, p.identifier, buyer, c.second_recipient, second);
    let paid = push_positive(Seq::empty(), m0, rest);
    let with_first = push_positive(paid, m1, first);
    let with_second = push_positive(with_first, m2, second);
    lemma_push_positive_total(Seq::empty(), m0, rest);
    lemma_push_positive_total(paid, m1, first);
    lemma_push_positive_total(with_first, m2, second);
    let offer = released(s.offer.kind, s.offer.identifier, buyer, s.offer.amount);
    assert(with_second.push(offer).drop_last() =~= with_second);
}

} // verus!

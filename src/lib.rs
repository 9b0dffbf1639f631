//! Escrowed over-the-counter trades and a sealed-ledger ascending auction,
//! written as verified state machines that emit movement directives for a
//! host ledger to execute.
use vstd::prelude::*;

pub mod asset;
pub mod auction;
pub mod commission;
pub mod contract;
pub mod error;
pub mod host;
pub mod ledger;
pub mod msg;
pub mod state;

use crate::commission::CommissionPolicy;
use crate::contract::{
    buy_post, carries_opening, close_post, open_refusal, opened, refused_as, reports,
};
use crate::error::ContractError;
use crate::host::Message;
use crate::msg::{Env, ExecMsg, MessageInfo, QueryMsg, QueryResp};
use crate::state::AgreementState;

verus! {

/// Answers a query about the agreement.
pub fn query(state: &AgreementState, msg: &QueryMsg) -> (r: QueryResp)
    ensures
        match msg {
            QueryMsg::IsOpen {  } => r matches QueryResp::IsOpen(o) && o.isopen == state.open,
            QueryMsg::Status {  } => r matches QueryResp::Status(c) && reports(c, state@),
        },
{
    match msg {
        QueryMsg::IsOpen {  } => QueryResp::IsOpen(contract::isopen(state)),
        QueryMsg::Status {  } => QueryResp::Status(contract::status(state)),
    }
}

/// Performs one call on the agreement, which `state` holds once created.
/// `Open` creates it, and only where it does not exist yet; `Buy` and
/// `Close` need it to exist. `commission` is the policy a new agreement
/// takes.
pub fn execute(
    state: &mut Option<AgreementState>,
    env: &Env,
    info: &MessageInfo,
    msg: ExecMsg,
    commission: CommissionPolicy,
) -> (r: Result<Vec<Message>, ContractError>)
    requires
        commission@.wf(),
        *old(state) matches Some(s) ==> s@.wf(),
    ensures
        *final(state) matches Some(s) ==> s@.wf(),
        match msg {
            ExecMsg::Open { amount, cw20contract, priceamount, pricedenom, iscw20 } => match *old(
                state,
            ) {
                Some(s) => r == Err::<Vec<Message>, ContractError>(ContractError::AlreadyCreated)
                    && (*final(state) matches Some(t) && t@ == s@),
                None => {
                    &&& r is Err ==> *final(state) is None
                    &&& open_refusal(info.funds@, amount, cw20contract, priceamount@) matches Some(
                        f,
                    ) ==> (r matches Err(e) && refused_as(e, f))
                    &&& open_refusal(info.funds@, amount, cw20contract, priceamount@) is None
                        ==> match r {
                        Ok(msgs) => (*final(state) matches Some(t) && t@ == opened(
                            info,
                            env,
                            amount,
                            cw20contract,
                            priceamount@,
                            pricedenom@,
                            iscw20@,
                            &commission,
                        ) && carries_opening(t@, info.sender@, env.contract_address@, msgs@)),
                        Err(e) => e is Std && amount is Some,
                    }
                },
            },
            ExecMsg::Buy {  } => match *old(state) {
                None => r == Err::<Vec<Message>, ContractError>(ContractError::NotCreated)
                    && *final(state) is None,
                Some(s) => (*final(state) matches Some(t) && buy_post(
                    s@,
                    t@,
                    info.sender@,
                    info.funds@,
                    r,
                )),
            },
            ExecMsg::Close {  } => match *old(state) {
                None => r == Err::<Vec<Message>, ContractError>(ContractError::NotCreated)
                    && *final(state) is None,
                Some(s) => (*final(state) matches Some(t) && close_post(s@, t@, info.sender@, r)),
            },
        },
{
    match msg {
        ExecMsg::Open { amount, cw20contract, priceamount, pricedenom, iscw20 } => {
            if state.is_some() {
                return Err(ContractError::AlreadyCreated);
            }
            match contract::open(
                info,
                amount,
                cw20contract,
                priceamount,
                pricedenom,
                iscw20,
                env,
                commission,
            ) {
                Ok((created, msgs)) => {
                    *state = Some(created);
                    Ok(msgs)
                },
                Err(e) => Err(e),
            }
        },
        ExecMsg::Buy {  } => match state {
            Some(s) => contract::buy(s, info),
            None => Err(ContractError::NotCreated),
        },
        ExecMsg::Close {  } => match state {
            Some(s) => contract::close(s, info),
            None => Err(ContractError::NotCreated),
        },
    }
}

} // verus!

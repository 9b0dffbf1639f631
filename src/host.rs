//! The host library's forms: amounts written as decimal text, and the
//! messages that carry movement directives to the host ledger.
use vstd::prelude::*;

use crate::asset::{movements_view, Coin, InstructionView, Movement, MovementView, TokenInstruction};
use crate::error::ContractError;

verus! {

/// The value of a string of decimal digits.
pub open spec fn digits_value(s: Seq<char>) -> int
    decreases s.len(),
{
    if s.len() == 0 {
        0
    } else {
        digits_value(s.drop_last()) * 10 + (s.last() as int - '0' as int)
    }
}

/// A non-empty string of decimal digits.
pub open spec fn all_digits(s: Seq<char>) -> bool {
    s.len() > 0 && forall|i: int| 0 <= i < s.len() ==> '0' <= #[trigger] s[i] <= '9'
}

/// The amount that `s` writes: an optional `+` followed by decimal digits
/// whose value fits in `u128`.
pub open spec fn amount_of_text(s: Seq<char>) -> Option<u128> {
    let digits = if s.len() > 0 && s[0] == '+' {
        s.drop_first()
    } else {
        s
    };
    if all_digits(digits) && digits_value(digits) <= u128::MAX {
        Some(digits_value(digits) as u128)
    } else {
        None
    }
}

/// Relies on `Uint128::from_str` of cosmwasm-std, which reads the text as
/// `u128` does: an optional `+` and decimal digits, within range.
#[verifier::external_body]
fn parse_uint128(s: &String) -> (r: Result<u128, cosmwasm_std::StdError>)
    ensures
        r is Ok <==> amount_of_text(s@) is Some,
        r matches Ok(v) ==> amount_of_text(s@) == Some(v),
{
    <cosmwasm_std::Uint128 as core::str::FromStr>::from_str(s.as_str()).map(|v| v.u128())
}

/// Reads an amount written as decimal text; text that is not an amount is
/// an opaque host error.
pub fn parse_amount(s: &String) -> (r: Result<u128, ContractError>)
    ensures
        r matches Ok(v) ==> amount_of_text(s@) == Some(v),
        r is Err <==> amount_of_text(s@) is None,
        r matches Err(e) ==> e is Std,
{
    match parse_uint128(s) {
        Ok(v) => Ok(v),
        Err(e) => Err(ContractError::Std(e)),
    }
}

/// The JSON bytes of the cw20 execute message that carries `instruction`.
pub uninterp spec fn cw20_message_json(instruction: InstructionView) -> Seq<u8>;

/// Relies on `cosmwasm_std::to_json_binary` applied to the matching
/// `cw20::Cw20ExecuteMsg`: the encoding depends on the message alone.
#[verifier::external_body]
fn encode_instruction(instruction: &TokenInstruction) -> (r: Result<
    Vec<u8>,
    cosmwasm_std::StdError,
>)
    ensures
        r matches Ok(b) ==> b@ == cw20_message_json(instruction@),
{
    let msg = match instruction {
        TokenInstruction::Transfer { recipient, amount } => cw20::Cw20ExecuteMsg::Transfer {
            recipient: recipient.clone(),
            amount: cosmwasm_std::Uint128::new(*amount),
        },
        TokenInstruction::TransferFrom { owner, recipient, amount } =>
            cw20::Cw20ExecuteMsg::TransferFrom {
            owner: owner.clone(),
            recipient: recipient.clone(),
            amount: cosmwasm_std::Uint128::new(*amount),
        },
    };
    cosmwasm_std::to_json_binary(&msg).map(|b| b.0)
}

/// A message to the host ledger.
#[derive(Clone, Debug, PartialEq, Eq)]
pub enum Message {
    /// Send `coin` from this contract to `to_address`.
    Bank { to_address: String, coin: Coin },
    /// Call the contract at `contract_addr` with the JSON message `msg`.
    Wasm { contract_addr: String, msg: Vec<u8> },
}

/// `msg` is the host message that performs the movement `m`.
pub open spec fn carries(m: MovementView, msg: Message) -> bool {
    match m {
        MovementView::Send { to, denom, amount } => msg matches Message::Bank { to_address, coin }
            && to_address@ == to && coin.denom@ == denom && coin.amount == amount,
        MovementView::Execute { contract, instruction } => msg matches Message::Wasm {
            contract_addr,
            msg,
        } && contract_addr@ == contract && msg@ == cw20_message_json(instruction),
    }
}

/// `msgs` carry the movements `ms`, one for one and in order.
pub open spec fn carries_all(ms: Seq<MovementView>, msgs: Seq<Message>) -> bool {
    &&& msgs.len() == ms.len()
    &&& forall|i: int| 0 <= i < ms.len() ==> carries(#[trigger] ms[i], msgs[i])
}

/// Every movement of `ms` is a direct transfer, which needs no encoding.
pub open spec fn all_direct(ms: Seq<MovementView>) -> bool {
    forall|i: int| 0 <= i < ms.len() ==> #[trigger] ms[i] is Send
}

/// The host message for one movement.
pub fn to_message(m: &Movement) -> (r: Result<Message, ContractError>)
    ensures
        r matches Ok(msg) ==> carries(m@, msg),
        r matches Err(e) ==> e is Std && m is Execute,
        m is Send ==> r is Ok,
{
    match m {
        Movement::Send { to, denom, amount } => Ok(
            Message::Bank {
                to_address: to.clone(),
                coin: Coin { denom: denom.clone(), amount: *amount },
            },
        ),
        Movement::Execute { contract, instruction } => match encode_instruction(instruction) {
            Ok(msg) => Ok(Message::Wasm { contract_addr: contract.clone(), msg }),
            Err(e) => Err(ContractError::Std(e)),
        },
    }
}

/// The host messages for a list of movements, in the same order. It fails
/// only where a token instruction could not be encoded.
pub fn to_messages(ms: &Vec<Movement>) -> (r: Result<Vec<Message>, ContractError>)
    ensures
        r matches Ok(msgs) ==> carries_all(movements_view(ms@), msgs@),
        r matches Err(e) ==> e is Std && !all_direct(movements_view(ms@)),
        all_direct(movements_view(ms@)) ==> r is Ok,
{
    let mut msgs: Vec<Message> = Vec::new();
    let mut i: usize = 0;
    while i < ms.len()
        invariant
            i <= ms.len(),
            msgs.len() == i,
            forall|j: int| 0 <= j < i ==> carries(#[trigger] ms@[j]@, msgs@[j]),
        decreases ms.len() - i,
    {
        assert(movements_view(ms@)[i as int] == ms@[i as int]@);
        match to_message(&ms[i]) {
            Ok(msg) => msgs.push(msg),
            Err(e) => {
                return Err(e);
            },
        }
        i = i + 1;
    }
    assert(carries_all(movements_view(ms@), msgs@)) by {
        assert forall|j: int| 0 <= j < ms.len() implies carries(
            #[trigger] movements_view(ms@)[j],
            msgs@[j],
        ) by {
            assert(movements_view(ms@)[j] == ms@[j]@);
        }
    }
    Ok(msgs)
}

} // verus!

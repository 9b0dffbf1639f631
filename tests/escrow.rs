use std::collections::BTreeMap;

use otc_trade::asset::{AssetKind, Coin};
use otc_trade::commission::CommissionPolicy;
use otc_trade::contract::{buy, close, isopen, open, status};
use otc_trade::error::ContractError;
use otc_trade::execute;
use otc_trade::host::Message;
use otc_trade::msg::{ContractResp, Env, ExecMsg, MessageInfo, OpenResp, QueryMsg, QueryResp};
use otc_trade::query;
use otc_trade::state::AgreementState;

const CONTRACT: &str = "contract";
const FIRST_RECIPIENT: &str = "juno1ep2umj6kn34g2ttjalsc5r9w8pt7sv4xnsvmdx";
const SECOND_RECIPIENT: &str = "juno1wev8ptzj27aueu04wgvvl4gvurax6rj5la09yj";
const NOW: u64 = 1_571_797_419;

fn coin(amount: u128, denom: &str) -> Coin {
    Coin { denom: denom.to_string(), amount }
}

fn coins(amount: u128, denom: &str) -> Vec<Coin> {
    vec![coin(amount, denom)]
}

fn policy() -> CommissionPolicy {
    CommissionPolicy::new(FIRST_RECIPIENT.to_string(), 8, SECOND_RECIPIENT.to_string(), 2, 100000)
        .unwrap()
}

fn env() -> Env {
    Env { contract_address: CONTRACT.to_string(), time_seconds: NOW }
}

fn info(sender: &str, funds: &[Coin]) -> MessageInfo {
    MessageInfo { sender: sender.to_string(), funds: funds.to_vec() }
}

/// A ledger of native balances that runs calls as the host would: the
/// attached funds move to the contract, and the returned bank messages are
/// paid out of it; a failing call moves nothing.
struct Chain {
    balances: BTreeMap<(String, String), u128>,
    agreement: Option<AgreementState>,
}

impl Chain {
    fn new(owner: &str, funds: &[Coin]) -> Chain {
        let mut chain = Chain { balances: BTreeMap::new(), agreement: None };
        for c in funds {
            *chain.balances.entry((owner.to_string(), c.denom.clone())).or_insert(0) += c.amount;
        }
        chain
    }

    fn send(&mut self, from: &str, to: &str, funds: &[Coin]) {
        for c in funds {
            let key = (from.to_string(), c.denom.clone());
            let have = self.balances.get(&key).copied().unwrap_or(0);
            assert!(have >= c.amount, "insufficient funds");
            self.balances.insert(key, have - c.amount);
            *self.balances.entry((to.to_string(), c.denom.clone())).or_insert(0) += c.amount;
        }
    }

    fn send_in(&mut self, to: &str, funds: &[Coin]) {
        for c in funds {
            *self.balances.entry((to.to_string(), c.denom.clone())).or_insert(0) += c.amount;
        }
    }

    fn all_balances(&self, addr: &str) -> Vec<Coin> {
        self.balances
            .iter()
            .filter(|((a, _), v)| a == addr && **v > 0)
            .map(|((_, d), v)| coin(*v, d))
            .collect()
    }

    fn balance(&self, addr: &str, denom: &str) -> u128 {
        self.balances.get(&(addr.to_string(), denom.to_string())).copied().unwrap_or(0)
    }

    fn run(&mut self, sender: &str, funds: &[Coin], msg: ExecMsg) -> Result<(), ContractError> {
        let before = self.balances.clone();
        self.send(sender, CONTRACT, funds);
        let mut state = self.agreement.clone();
        match execute(&mut state, &env(), &info(sender, funds), msg, policy()) {
            Ok(msgs) => {
                for m in msgs {
                    match m {
                        Message::Bank { to_address, coin } => {
                            self.send(CONTRACT, &to_address, &[coin])
                        }
                        Message::Wasm { .. } => {}
                    }
                }
                self.agreement = state;
                Ok(())
            }
            Err(e) => {
                self.balances = before;
                Err(e)
            }
        }
    }

    fn open(&mut self, sender: &str, offer: Vec<Coin>, price: Coin) -> Result<(), ContractError> {
        let msg = ExecMsg::Open {
            amount: None,
            cw20contract: None,
            priceamount: price.amount.to_string(),
            pricedenom: price.denom.clone(),
            iscw20: "0".to_string(),
        };
        self.run(sender, &offer, msg)
    }

    fn buy(&mut self, sender: &str, funds: &[Coin]) -> Result<(), ContractError> {
        self.run(sender, funds, ExecMsg::Buy {})
    }

    fn query_status(&self) -> ContractResp {
        match query(self.agreement.as_ref().unwrap(), &QueryMsg::Status {}) {
            QueryResp::Status(s) => s,
            other => panic!("unexpected answer {:?}", other),
        }
    }

    fn query_open(&self) -> OpenResp {
        match query(self.agreement.as_ref().unwrap(), &QueryMsg::IsOpen {}) {
            QueryResp::IsOpen(o) => o,
            other => panic!("unexpected answer {:?}", other),
        }
    }
}

fn seller_and_buyer(buyer_funds: u128) -> Chain {
    let mut funds: Vec<Coin> = Vec::new();
    funds.push(coin(10000000, "ujuno"));
    funds.push(coin(100000, "uatom"));
    let mut chain = Chain::new("seller", &funds);
    chain.send("seller", "buyer", &coins(buyer_funds, "uatom"));
    chain
}

#[test]
fn instantiate_correctly() {
    let mut chain = Chain::new("sender", &coins(10000000, "ujuno"));
    chain.open("sender", coins(10000000, "ujuno"), coin(10000, "uatom")).unwrap();

    let resp = chain.query_status();
    assert_eq!(
        resp,
        ContractResp {
            isopen: true,
            offeramount: 10000000,
            offerdenom: "ujuno".to_string(),
            priceamount: 10000,
            pricedenom: "uatom".to_string(),
            receiver: "sender".to_string(),
            completed: false,
            time: NOW,
        }
    );
}

#[test]
fn instantiate_with_no_funds() {
    let mut chain = Chain::new("sender", &[]);
    let resp = chain.open("sender", Vec::new(), coin(10000, "uatom")).unwrap_err();
    assert_eq!(resp, ContractError::NoFunds,);
}

#[test]
fn buy_succesfully() {
    let mut chain = seller_and_buyer(50000);
    chain.open("seller", coins(10000000, "ujuno"), coin(50000, "uatom")).unwrap();

    chain.buy("buyer", &coins(50000, "uatom")).unwrap();

    assert_eq!(chain.all_balances("buyer"), coins(10000000, "ujuno"));
}

#[test]
fn buy_not_enough_funds() {
    let mut chain = seller_and_buyer(50000);
    chain.open("seller", coins(10000000, "ujuno"), coin(100000, "uatom")).unwrap();

    let resp = chain.buy("buyer", &coins(50000, "uatom")).unwrap_err();

    assert_eq!(resp, ContractError::OfferFail);
}

#[test]
fn buy_succesfully_pay_more() {
    let mut chain = seller_and_buyer(50000);
    chain.open("seller", coins(10000000, "ujuno"), coin(10000, "uatom")).unwrap();

    chain.buy("buyer", &coins(50000, "uatom")).unwrap();

    assert_eq!(chain.all_balances("buyer"), coins(10000000, "ujuno"));
}

#[test]
fn closed_succesfully() {
    let mut chain = seller_and_buyer(50000);
    chain.open("seller", coins(10000000, "ujuno"), coin(50000, "uatom")).unwrap();

    chain.buy("buyer", &coins(50000, "uatom")).unwrap();

    assert_eq!(chain.query_open(), OpenResp { isopen: false });
}

#[test]
fn is_open() {
    let mut chain = Chain::new("sender", &coins(10000000, "ujuno"));
    chain.open("sender", coins(10000000, "ujuno"), coin(10000, "uatom")).unwrap();

    assert_eq!(chain.query_open(), OpenResp { isopen: true });
}

#[test]
fn cant_buy_closed() {
    let mut chain = seller_and_buyer(100000);
    chain.open("seller", coins(10000000, "ujuno"), coin(50000, "uatom")).unwrap();

    chain.buy("buyer", &coins(50000, "uatom")).unwrap();
    let resp = chain.buy("buyer", &coins(50000, "uatom")).unwrap_err();

    assert_eq!(resp, ContractError::ContractClosed,);
}

#[test]
fn settlement_pays_offer_and_price_less_commission() {
    let mut chain = Chain::new("s", &coins(10000000, "ua"));
    chain.send_in("c", &coins(10000, "ub"));
    chain.open("s", coins(10000000, "ua"), coin(10000, "ub")).unwrap();
    chain.buy("c", &coins(10000, "ub")).unwrap();
    assert_eq!(chain.balance("c", "ua"), 10000000);
    // 10000 * 8 / 100000 and 10000 * 2 / 100000 both truncate to zero.
    assert_eq!(chain.balance("s", "ub"), 10000);
    assert_eq!(chain.query_open(), OpenResp { isopen: false });
}

#[test]
fn settlement_splits_commission_from_price() {
    let mut chain = seller_and_buyer(100000);
    chain.open("seller", coins(10000000, "ujuno"), coin(100000, "uatom")).unwrap();
    chain.buy("buyer", &coins(100000, "uatom")).unwrap();
    assert_eq!(chain.balance(FIRST_RECIPIENT, "uatom"), 8);
    assert_eq!(chain.balance(SECOND_RECIPIENT, "uatom"), 2);
    assert_eq!(chain.balance("seller", "uatom"), 99990);
    assert_eq!(chain.balance("buyer", "ujuno"), 10000000);
    assert_eq!(chain.balance(CONTRACT, "ujuno"), 0);
    let s = chain.query_status();
    assert!(!s.isopen);
    assert!(s.completed);
}

#[test]
fn buy_messages_in_order() {
    let (mut state, msgs) = open(
        &info("seller", &coins(10000000, "ujuno")),
        None,
        None,
        "100000".to_string(),
        "uatom".to_string(),
        "0".to_string(),
        &env(),
        policy(),
    )
    .unwrap();
    assert!(msgs.is_empty());
    let msgs = buy(&mut state, &info("buyer", &coins(100000, "uatom"))).unwrap();
    let bank = |to: &str, amount: u128, denom: &str| Message::Bank {
        to_address: to.to_string(),
        coin: coin(amount, denom),
    };
    assert_eq!(
        msgs,
        vec![
            bank("seller", 99990, "uatom"),
            bank(FIRST_RECIPIENT, 8, "uatom"),
            bank(SECOND_RECIPIENT, 2, "uatom"),
            bank("buyer", 10000000, "ujuno"),
        ]
    );
}

#[test]
fn buy_with_wrong_denomination_fails() {
    let mut chain = seller_and_buyer(50000);
    chain.send("seller", "buyer", &coins(10, "ujuno"));
    chain.open("seller", coins(9999990, "ujuno"), coin(5, "uatom")).unwrap();
    let resp = chain.buy("buyer", &coins(10, "ujuno")).unwrap_err();
    assert_eq!(resp, ContractError::OfferFail);
    assert!(chain.query_open().isopen);
    assert_eq!(chain.balance("buyer", "ujuno"), 10);
}

#[test]
fn close_returns_offer_to_receiver() {
    let mut chain = Chain::new("seller", &coins(10000000, "ujuno"));
    chain.open("seller", coins(10000000, "ujuno"), coin(10000, "uatom")).unwrap();
    chain.run("seller", &[], ExecMsg::Close {}).unwrap();
    assert_eq!(chain.balance("seller", "ujuno"), 10000000);
    let s = chain.query_status();
    assert!(!s.isopen);
    assert!(!s.completed);
}

#[test]
fn close_twice_fails_closed() {
    let mut chain = Chain::new("seller", &coins(10000000, "ujuno"));
    chain.open("seller", coins(10000000, "ujuno"), coin(10000, "uatom")).unwrap();
    chain.run("seller", &[], ExecMsg::Close {}).unwrap();
    let resp = chain.run("seller", &[], ExecMsg::Close {}).unwrap_err();
    assert_eq!(resp, ContractError::ContractClosed);
}

#[test]
fn close_by_other_fails_not_owner() {
    let mut chain = Chain::new("seller", &coins(10000000, "ujuno"));
    chain.open("seller", coins(10000000, "ujuno"), coin(10000, "uatom")).unwrap();
    let before = chain.query_status();
    let resp = chain.run("buyer", &[], ExecMsg::Close {}).unwrap_err();
    assert_eq!(resp, ContractError::NotOwner { owner: "seller".to_string() });
    assert_eq!(chain.query_status(), before);
}

#[test]
fn open_rejects_two_assets() {
    let both = ExecMsg::Open {
        amount: Some("5".to_string()),
        cw20contract: Some("token".to_string()),
        priceamount: "1".to_string(),
        pricedenom: "uatom".to_string(),
        iscw20: "0".to_string(),
    };
    let mut chain = Chain::new("seller", &coins(10, "ujuno"));
    assert_eq!(chain.run("seller", &coins(10, "ujuno"), both), Err(ContractError::NotOneAsset));
    let mut funds = coins(10, "ujuno");
    funds.push(coin(3, "uatom"));
    let mut chain = Chain::new("seller", &funds);
    assert_eq!(chain.open("seller", funds, coin(1, "uatom")), Err(ContractError::NotOneAsset));
}

#[test]
fn open_rejects_token_without_contract() {
    let mut chain = Chain::new("seller", &[]);
    let msg = ExecMsg::Open {
        amount: Some("5".to_string()),
        cw20contract: None,
        priceamount: "1".to_string(),
        pricedenom: "uatom".to_string(),
        iscw20: "0".to_string(),
    };
    assert_eq!(chain.run("seller", &[], msg), Err(ContractError::NoContract));
    let mut chain = Chain::new("seller", &coins(10, "ujuno"));
    let contract_only = ExecMsg::Open {
        amount: None,
        cw20contract: Some("token".to_string()),
        priceamount: "1".to_string(),
        pricedenom: "uatom".to_string(),
        iscw20: "0".to_string(),
    };
    assert_eq!(
        chain.run("seller", &coins(10, "ujuno"), contract_only),
        Err(ContractError::NoContract)
    );
}

#[test]
fn open_rejects_zero_amounts() {
    let mut chain = Chain::new("seller", &[]);
    assert_eq!(chain.open("seller", coins(0, "ujuno"), coin(1, "uatom")), Err(ContractError::NoFunds));
    let zero_token = ExecMsg::Open {
        amount: Some("0".to_string()),
        cw20contract: Some("token".to_string()),
        priceamount: "1".to_string(),
        pricedenom: "uatom".to_string(),
        iscw20: "0".to_string(),
    };
    assert_eq!(chain.run("seller", &[], zero_token), Err(ContractError::NoFunds));
    let mut chain = Chain::new("seller", &coins(10, "ujuno"));
    assert_eq!(chain.open("seller", coins(10, "ujuno"), coin(0, "uatom")), Err(ContractError::NoFunds));
}

#[test]
fn open_rejects_unreadable_amounts() {
    let r = open(
        &info("seller", &coins(10, "ujuno")),
        None,
        None,
        "12x".to_string(),
        "uatom".to_string(),
        "0".to_string(),
        &env(),
        policy(),
    );
    assert!(matches!(r, Err(ContractError::Std(_))));
    let r = open(
        &info("seller", &[]),
        Some("-5".to_string()),
        Some("token".to_string()),
        "1".to_string(),
        "uatom".to_string(),
        "0".to_string(),
        &env(),
        policy(),
    );
    assert!(matches!(r, Err(ContractError::Std(_))));
}

#[test]
fn open_managed_offer_draws_tokens_into_custody() {
    let (state, msgs) = open(
        &info("seller", &[]),
        Some("+500".to_string()),
        Some("token".to_string()),
        "7".to_string(),
        "price_token".to_string(),
        "1".to_string(),
        &env(),
        policy(),
    )
    .unwrap();
    assert_eq!(state.offer.kind, AssetKind::Managed);
    assert_eq!(state.offer.amount, 500);
    assert_eq!(state.price.kind, AssetKind::Managed);
    assert_eq!(
        msgs,
        vec![Message::Wasm {
            contract_addr: "token".to_string(),
            msg: br#"{"transfer_from":{"owner":"seller","recipient":"contract","amount":"500"}}"#
                .to_vec(),
        }]
    );
}

#[test]
fn buy_and_close_managed_assets() {
    let (state, _) = open(
        &info("seller", &[]),
        Some("500".to_string()),
        Some("token".to_string()),
        "100000".to_string(),
        "price_token".to_string(),
        "1".to_string(),
        &env(),
        policy(),
    )
    .unwrap();
    let mut bought = state.clone();
    let msgs = buy(&mut bought, &info("buyer", &[])).unwrap();
    let wasm = |contract: &str, json: &str| Message::Wasm {
        contract_addr: contract.to_string(),
        msg: json.as_bytes().to_vec(),
    };
    assert_eq!(
        msgs,
        vec![
            wasm(
                "price_token",
                r#"{"transfer_from":{"owner":"buyer","recipient":"seller","amount":"99990"}}"#
            ),
            wasm(
                "price_token",
                &format!(
                    r#"{{"transfer_from":{{"owner":"buyer","recipient":"{}","amount":"8"}}}}"#,
                    FIRST_RECIPIENT
                )
            ),
            wasm(
                "price_token",
                &format!(
                    r#"{{"transfer_from":{{"owner":"buyer","recipient":"{}","amount":"2"}}}}"#,
                    SECOND_RECIPIENT
                )
            ),
            wasm("token", r#"{"transfer":{"recipient":"buyer","amount":"500"}}"#),
        ]
    );
    let mut cancelled = state;
    let msgs = close(&mut cancelled, &info("seller", &[])).unwrap();
    assert_eq!(msgs, vec![wasm("token", r#"{"transfer":{"recipient":"seller","amount":"500"}}"#)]);
    assert!(!isopen(&cancelled).isopen);
    assert!(!status(&cancelled).completed);
}

#[test]
fn execute_needs_agreement_once() {
    let mut chain = Chain::new("seller", &coins(20, "ujuno"));
    assert_eq!(chain.buy("buyer", &[]), Err(ContractError::NotCreated));
    assert_eq!(chain.run("seller", &[], ExecMsg::Close {}), Err(ContractError::NotCreated));
    chain.open("seller", coins(10, "ujuno"), coin(1, "uatom")).unwrap();
    assert_eq!(
        chain.open("seller", coins(10, "ujuno"), coin(1, "uatom")),
        Err(ContractError::AlreadyCreated)
    );
    assert_eq!(chain.balance("seller", "ujuno"), 10);
}

use otc_trade::commission::{share, CommissionPolicy};
use otc_trade::host::parse_amount;

#[test]
fn share_truncates() {
    assert_eq!(share(1000, 5, 100), 50);
    assert_eq!(share(1999, 5, 100), 99);
    assert_eq!(share(10000, 8, 100000), 0);
    assert_eq!(share(7, 100, 100), 7);
}

#[test]
fn share_of_largest_amount() {
    assert_eq!(share(u128::MAX, 8, 100000), 27222589353675077077069968594541456);
    assert_eq!(share(u128::MAX, 2, 100000), 6805647338418769269267492148635364);
    assert_eq!(share(u128::MAX, 18446744073709551615, 18446744073709551615), u128::MAX);
}

#[test]
fn split_keeps_the_whole() {
    let p = CommissionPolicy::new("a".to_string(), 8, "b".to_string(), 2, 100000).unwrap();
    assert_eq!(p.split(50000), (4, 1, 49995));
    assert_eq!(p.split(10000000), (800, 200, 9999000));
    assert_eq!(p.split(0), (0, 0, 0));
    let (a, b, c) = p.split(u128::MAX);
    assert_eq!(a + b + c, u128::MAX);
}

#[test]
fn policy_rejects_bad_rates() {
    assert!(CommissionPolicy::new("a".to_string(), 60, "b".to_string(), 41, 100).is_none());
    assert!(CommissionPolicy::new("a".to_string(), 0, "b".to_string(), 0, 0).is_none());
    assert!(CommissionPolicy::new("a".to_string(), 60, "b".to_string(), 40, 100).is_some());
}

#[test]
fn amounts_read_as_decimal() {
    assert_eq!(parse_amount(&"10000".to_string()), Ok(10000));
    assert_eq!(parse_amount(&"+7".to_string()), Ok(7));
    assert_eq!(parse_amount(&"340282366920938463463374607431768211455".to_string()), Ok(u128::MAX));
    assert!(parse_amount(&"340282366920938463463374607431768211456".to_string()).is_err());
    assert!(parse_amount(&"".to_string()).is_err());
    assert!(parse_amount(&"+".to_string()).is_err());
    assert!(parse_amount(&" 1".to_string()).is_err());
}

use orchestrator::fee::{Fee, FeePolicy, FEE_AMOUNT};

#[test]
fn fee_amount_is_one() {
    assert_eq!(FEE_AMOUNT, 1);
}

#[test]
fn policy_pays_one_unit_of_the_configured_token() {
    let policy = FeePolicy::new(String::from("ubridge"));
    assert_eq!(policy.current(), Fee { denom: String::from("ubridge"), amount: 1 });
}

#[test]
fn policy_hands_out_the_same_fee_every_time() {
    let policy = FeePolicy::new(String::from("footoken"));
    let first = policy.current();
    for _ in 0..100 {
        assert_eq!(policy.current(), first);
    }
    assert_eq!(first, Fee::new(String::from("footoken"), 1));
}

#[test]
fn policy_keeps_an_empty_denomination_as_given() {
    let policy = FeePolicy::new(String::new());
    assert_eq!(policy.current(), Fee::new(String::new(), 1));
}

#[test]
fn fee_clone_is_equal_to_the_fee() {
    let fee = Fee::new(String::from("ubridge"), 42);
    let copy = fee.clone();
    assert_eq!(copy, fee);
    assert_eq!(copy.denom, "ubridge");
    assert_eq!(copy.amount, 42);
}

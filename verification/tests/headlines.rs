use contract_runner::outcome::{Failure, Outcome};
use contract_runner::report::headline_of;

#[test]
fn headline_of_a_success() {
    let outcome = Outcome::Success { payload: Vec::new(), logs: vec!["hello".to_string()] };
    assert_eq!(headline_of("SetStatus", &outcome), "SetStatus result: Test succeeded");
}

#[test]
fn headline_of_a_rejected_call() {
    let outcome = Outcome::Failure { cause: Failure::Rejected { error: "boom".to_string() } };
    assert_eq!(headline_of("GetStatus", &outcome), "GetStatus result: Test failed with error: boom");
}

#[test]
fn headline_of_a_malformed_payload() {
    let outcome = Outcome::Failure { cause: Failure::Malformed { payload: b"?".to_vec() } };
    assert_eq!(headline_of("F", &outcome), "F result: Test failed: malformed response");
}

#[test]
fn headline_of_a_flag_that_does_not_pass() {
    let outcome = Outcome::Failure { cause: Failure::Flag { value: -3 } };
    assert_eq!(headline_of("", &outcome), " result: Test failed");
}

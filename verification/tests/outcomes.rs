use contract_runner::outcome::{classify, judge, Criterion, Failure, Outcome, Response};

fn returned(payload: &[u8]) -> Response {
    Response::Returned { payload: payload.to_vec(), logs: vec!["log line".to_string()] }
}

#[test]
fn completion_accepts_any_payload() {
    let outcome = classify(Criterion::Completion, returned(b"not json"));
    assert_eq!(
        outcome,
        Outcome::Success { payload: b"not json".to_vec(), logs: vec!["log line".to_string()] }
    );
    assert!(outcome.is_success());
    assert_eq!(outcome.logs(), Some(&vec!["log line".to_string()]));
    assert_eq!(outcome.payload(), Some(&b"not json".to_vec()));
}

#[test]
fn completion_accepts_empty_payload() {
    let outcome =
        classify(Criterion::Completion, Response::Returned { payload: Vec::new(), logs: Vec::new() });
    assert_eq!(outcome, Outcome::Success { payload: Vec::new(), logs: Vec::new() });
}

#[test]
fn failed_response_is_rejected_under_either_criterion() {
    let failed = Response::Failed { error: "out of gas".to_string() };
    let expected = Outcome::Failure { cause: Failure::Rejected { error: "out of gas".to_string() } };
    assert_eq!(classify(Criterion::Completion, failed.clone()), expected);
    assert_eq!(classify(Criterion::Flag, failed), expected);
    assert!(!expected.is_success());
    assert_eq!(expected.logs(), None);
    assert_eq!(expected.payload(), None);
}

#[test]
fn flag_one_passes() {
    assert_eq!(
        classify(Criterion::Flag, returned(b"1")),
        Outcome::Success { payload: b"1".to_vec(), logs: vec!["log line".to_string()] }
    );
}

#[test]
fn other_flags_fail() {
    assert_eq!(
        classify(Criterion::Flag, returned(b"0")),
        Outcome::Failure { cause: Failure::Flag { value: 0 } }
    );
    assert_eq!(
        classify(Criterion::Flag, returned(b"-1")),
        Outcome::Failure { cause: Failure::Flag { value: -1 } }
    );
    assert_eq!(
        classify(Criterion::Flag, returned(b"127")),
        Outcome::Failure { cause: Failure::Flag { value: 127 } }
    );
}

#[test]
fn payload_that_is_no_flag_is_malformed() {
    for payload in [&b""[..], &b"abc"[..], &b"300"[..], &b"\"1\""[..], &b"1 2"[..], &b"true"[..]] {
        assert_eq!(
            classify(Criterion::Flag, returned(payload)),
            Outcome::Failure { cause: Failure::Malformed { payload: payload.to_vec() } }
        );
    }
}

#[test]
fn judge_follows_the_decoded_flag() {
    assert!(judge(Criterion::Flag, returned(b"x"), Some(1)).is_success());
    assert_eq!(
        judge(Criterion::Flag, returned(b"x"), Some(2)),
        Outcome::Failure { cause: Failure::Flag { value: 2 } }
    );
    assert_eq!(
        judge(Criterion::Flag, returned(b"x"), None),
        Outcome::Failure { cause: Failure::Malformed { payload: b"x".to_vec() } }
    );
    assert!(judge(Criterion::Completion, returned(b"x"), None).is_success());
    assert!(judge(Criterion::Completion, returned(b"x"), Some(0)).is_success());
}

#[test]
fn same_response_judged_twice_gives_the_same_outcome() {
    let first = classify(Criterion::Flag, returned(b"1"));
    let second = classify(Criterion::Flag, returned(b"1"));
    assert_eq!(first, second);
}

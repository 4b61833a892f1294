use judge_report::error::SampleError;
use judge_report::ops::judge;

#[test]
fn success() {
    assert_eq!(1, judge(1).unwrap());
}

#[test]
fn fail() {
    let result = judge(10);
    assert!(result.is_err(), "test");
}

#[test]
fn judge_accepts_below_threshold() {
    assert_eq!(9, judge(9).unwrap());
    assert_eq!(0, judge(0).unwrap());
    assert_eq!(-1000, judge(-1000).unwrap());
    assert_eq!(i32::MIN, judge(i32::MIN).unwrap());
}

#[test]
fn judge_rejects_at_and_above_threshold() {
    for i in [10, 11, 100, i32::MAX] {
        match judge(i) {
            Ok(v) => panic!("accepted out-of-range value {}", v),
            Err(SampleError::JudgeError(m)) => assert_eq!(m, "Value is too large."),
            Err(other) => panic!("unexpected error {:?}", other),
        }
    }
}

#[test]
fn judge_error_message_names_the_kind() {
    let e = judge(10).unwrap_err();
    assert_eq!(e.message(), "JudgeError: Value is too large.");
    assert!(e.cause().is_none());
}

#[test]
fn judge_is_repeatable() {
    assert_eq!(judge(5).unwrap(), judge(5).unwrap());
    assert_eq!(
        judge(42).unwrap_err().message(),
        judge(42).unwrap_err().message()
    );
}

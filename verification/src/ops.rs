//! The two operations: `judge` validates an integer against the threshold,
//! and `num` invokes `judge`, recording a diagnostic entry and wrapping the
//! failure before propagating it.

use vstd::prelude::*;
use crate::error::{is_judge_error, is_num_error, judge_message, spec_message, SampleError};
use crate::log::Log;

verus! {

/// Values at or above this threshold are rejected; there is no lower bound.
pub const THRESHOLD: i32 = 10;

/// Everything `judge` promises of its result: an accepted value is returned
/// unchanged, a rejected one yields a validation failure with the fixed
/// message.
pub open spec fn judge_post(i: i32, r: Result<i32, SampleError>) -> bool {
    &&& i < THRESHOLD ==> r == Result::<i32, SampleError>::Ok(i)
    &&& i >= THRESHOLD ==> (r matches Err(e) && is_judge_error(e))
}

/// Validate `i`: below the threshold the value itself comes back; at or
/// above it, a `JudgeError` carrying the fixed message. Deterministic and
/// free of side effects.
pub fn judge(i: i32) -> (r: Result<i32, SampleError>)
    ensures
        i < THRESHOLD ==> r == Result::<i32, SampleError>::Ok(i),
        i >= THRESHOLD ==> (r matches Err(e) && is_judge_error(e)),
        judge_post(i, r),
{
    if i < THRESHOLD {
        Ok(i)
    } else {
        Err(SampleError::JudgeError("Value is too large.".to_owned()))
    }
}

/// Everything `num` promises of its result and of the log: on success the
/// value passes through and the log is untouched; on failure exactly one
/// entry — the cause's display string — is appended, and the failure is a
/// `NumError` wrapping that same cause.
pub open spec fn num_post(
    i: i32,
    prior: Seq<Seq<char>>,
    after: Seq<Seq<char>>,
    r: Result<i32, SampleError>,
) -> bool {
    &&& i < THRESHOLD ==> r == Result::<i32, SampleError>::Ok(i) && after == prior
    &&& i >= THRESHOLD ==> (r matches Err(e) && e matches SampleError::NumError(c)
        && is_judge_error(*c) && after == prior.push(spec_message(*c)))
}

/// Report on `i`: call `judge`, pass a success through unchanged, and on
/// failure record one diagnostic entry holding the cause's display string,
/// then propagate the cause wrapped in a `NumError`. The entry is recorded
/// exactly once, never on success.
pub fn num(i: i32, log: &mut Log) -> (r: Result<i32, SampleError>)
    ensures
        i < THRESHOLD ==> r == Result::<i32, SampleError>::Ok(i) && final(log)@ == old(log)@,
        i >= THRESHOLD ==> (r matches Err(e) && e matches SampleError::NumError(c)
            && is_judge_error(*c) && final(log)@ == old(log)@.push(spec_message(*c))),
        r is Err ==> is_num_error(r->Err_0),
        num_post(i, old(log)@, final(log)@, r),
{
    match judge(i) {
        Ok(v) => Ok(v),
        Err(e) => {
            log.push(e.message());
            Err(SampleError::NumError(Box::new(e)))
        },
    }
}

/// Two results agree as outcomes: both successes with the same value, or
/// both failures with the same display string.
pub open spec fn same_outcome(r1: Result<i32, SampleError>, r2: Result<i32, SampleError>) -> bool {
    match (r1, r2) {
        (Result::Ok(a), Result::Ok(b)) => a == b,
        (Result::Err(e1), Result::Err(e2)) => spec_message(e1) == spec_message(e2),
        _ => false,
    }
}

/// The validator is deterministic: any two results that meet `judge`'s
/// contract for the same input are the same outcome, so repeated calls
/// cannot differ — no hidden state accumulates across calls.
pub proof fn lemma_judge_deterministic(
    i: i32,
    r1: Result<i32, SampleError>,
    r2: Result<i32, SampleError>,
)
    requires
        judge_post(i, r1),
        judge_post(i, r2),
    ensures
        same_outcome(r1, r2),
{
}

/// The reporter is deterministic: for the same input and the same prior log,
/// any two behaviours that meet `num`'s contract yield the same outcome and
/// leave the log with the same entries.
pub proof fn lemma_num_deterministic(
    i: i32,
    prior: Seq<Seq<char>>,
    after1: Seq<Seq<char>>,
    after2: Seq<Seq<char>>,
    r1: Result<i32, SampleError>,
    r2: Result<i32, SampleError>,
)
    requires
        num_post(i, prior, after1, r1),
        num_post(i, prior, after2, r2),
    ensures
        same_outcome(r1, r2),
        after1 == after2,
{
}

} // verus!

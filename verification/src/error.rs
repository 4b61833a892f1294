//! The domain error taxonomy: a validation failure (`JudgeError`) and the
//! wrapping failure (`NumError`) that the reporter surfaces in its place.

use vstd::prelude::*;
use vstd::string::StringExecFns;

verus! {

/// The fixed message carried by every validation failure.
pub open spec fn judge_message() -> Seq<char> {
    "Value is too large."@
}

/// The two failure kinds this library surfaces.
///
/// `JudgeError` is produced only by the validator, with a fixed descriptive
/// message. `NumError` is produced only by the reporter and holds the causing
/// error, so the chain is preserved for display.
#[derive(Debug, PartialEq, Eq)]
pub enum SampleError {
    NumError(Box<SampleError>),
    JudgeError(String),
}

/// A validation failure carrying the fixed out-of-range message.
pub open spec fn is_judge_error(e: SampleError) -> bool {
    e matches SampleError::JudgeError(m) && m@ == judge_message()
}

/// A wrapping failure whose cause is exactly one validation failure:
/// the wrapping is one level deep and keeps the original message.
pub open spec fn is_num_error(e: SampleError) -> bool {
    e matches SampleError::NumError(c) && is_judge_error(*c)
}

/// The display string of an error: its kind, then the nested cause's
/// display string, so formatting a wrapper never drops the original message.
pub open spec fn spec_message(e: SampleError) -> Seq<char>
    decreases e,
{
    match e {
        SampleError::NumError(c) => "NumError: "@ + spec_message(*c),
        SampleError::JudgeError(m) => "JudgeError: "@ + m@,
    }
}

impl SampleError {
    /// Render the error for diagnostics: the kind, a colon, and the payload,
    /// recursing through the cause chain.
    pub fn message(&self) -> (r: String)
        ensures
            r@ == spec_message(*self),
        decreases *self,
    {
        match self {
            SampleError::NumError(c) => "NumError: ".to_owned().concat(c.message().as_str()),
            SampleError::JudgeError(m) => "JudgeError: ".to_owned().concat(m.as_str()),
        }
    }

    /// The causing error of a wrapper, if there is one: a `NumError` exposes
    /// its cause, a `JudgeError` has none.
    pub fn cause(&self) -> (r: Option<&SampleError>)
        ensures
            match *self {
                SampleError::NumError(c) => r matches Some(e) && *e == *c,
                SampleError::JudgeError(_) => r is None,
            },
    {
        match self {
            SampleError::NumError(c) => Some(&**c),
            SampleError::JudgeError(_) => None,
        }
    }
}

} // verus!

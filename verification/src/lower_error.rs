//! The errors of lowering a contract into a backend's render plan.

use vstd::prelude::*;
use vstd::string::*;

verus! {

/// Why a contract could not be lowered.
pub enum LowerError {
    /// The FFI and ABI contracts disagree (a missing wire operation, a
    /// missing call binding, and the like).
    Invalid(String),
    /// The contract uses a shape this backend does not implement yet.
    Unsupported(String),
}

/// The message of an error: `invalid: ` or `unsupported: ` before the
/// detail.
pub open spec fn lower_error_message(e: LowerError) -> Seq<char> {
    match e {
        LowerError::Invalid(detail) => "invalid: "@ + detail@,
        LowerError::Unsupported(detail) => "unsupported: "@ + detail@,
    }
}

impl LowerError {
    /// The message of the error; see [`lower_error_message`].
    pub fn message(&self) -> (res: String)
        ensures
            res@ == lower_error_message(*self),
    {
        match self {
            LowerError::Invalid(detail) => {
                let mut res = String::from_str("invalid: ");
                res.append(detail.as_str());
                res
            },
            LowerError::Unsupported(detail) => {
                let mut res = String::from_str("unsupported: ");
                res.append(detail.as_str());
                res
            },
        }
    }
}

} // verus!

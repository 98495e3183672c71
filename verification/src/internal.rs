//! Translation of backend return codes and last-error text into this
//! crate's error values.
//!
//! The backend convention is that a call returning a non-positive integer
//! failed and its explanation, if any, sits in the backend's last-error
//! facility.  The caller reads that facility and hands the text in here as a
//! plain `Option<String>`, so the decision logic below is pure.

use vstd::prelude::*;
use vstd::string::StringExecFns;

use crate::CallResult;
use crate::Error;

verus! {

/// The error text a failed call reports: the backend's own message when it
/// gave one, a generic message otherwise.
pub open spec fn err_text(last_error: Option<String>) -> Seq<char> {
    match last_error {
        Option::Some(s) => s@,
        Option::None => "Unknown error"@,
    }
}

/// The message for a failed backend call: its last-error text, or a generic
/// fallback when the backend offered none.
pub fn try_get_err(last_error: Option<String>) -> (r: String)
    ensures
        r@ == err_text(last_error),
{
    match last_error {
        Option::Some(s) => s,
        Option::None => String::from_str("Unknown error"),
    }
}

/// Folds a backend return code and its last-error text into a `CallResult`:
/// positive codes succeed, all others surface as `BackendError`.
pub fn wrap_result(return_code: i32, last_error: Option<String>) -> (r: CallResult)
    ensures
        return_code > 0 ==> r is Ok,
        return_code <= 0 ==> (r matches Err(Error::BackendError(m)) && m@ == err_text(
            last_error,
        )),
{
    if return_code > 0 {
        Ok(())
    } else {
        Err(Error::BackendError(try_get_err(last_error)))
    }
}

} // verus!

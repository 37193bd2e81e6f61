//! What a script sees when a host operation ends. A prompt that fails ends
//! the script with the failure's message; an operation that only sends
//! something degrades to `false` or an error text instead.

use crate::controller::{error_text, UiError};
use crate::kit::{is_yes, Kit};
use vstd::prelude::*;

verus! {

/// What a script gets from a prompt: the answer, or, when the wait failed,
/// the failure in words, which ends the script with that message.
pub fn answer_or_failure(outcome: Result<String, UiError>) -> (r: Result<String, String>)
    ensures
        outcome matches Ok(v) ==> (r matches Ok(a) && a@ == v@),
        outcome matches Err(e) ==> (r matches Err(m) && m@ == error_text(e)),
{
    match outcome {
        Ok(v) => Ok(v),
        Err(e) => Err(e.message()),
    }
}

/// What a script gets from a confirmation: whether the answer reads "Yes",
/// or, when the wait failed, the failure in words.
pub fn confirmation(outcome: Result<String, UiError>) -> (r: Result<bool, String>)
    ensures
        outcome matches Ok(v) ==> r == Ok::<bool, String>(is_yes(v@)),
        outcome matches Err(e) ==> (r matches Err(m) && m@ == error_text(e)),
{
    match outcome {
        Ok(v) => Ok(Kit::confirm_answer(v.as_str())),
        Err(e) => Err(e.message()),
    }
}

/// Whether a fire-and-forget request went out.
pub fn sent(outcome: Result<(), UiError>) -> (r: bool)
    ensures
        r == outcome is Ok,
{
    outcome.is_ok()
}

/// A status text, or `Error: <reason>` when the operation failed.
pub open spec fn status_spec(outcome: Result<String, String>) -> Seq<char> {
    match outcome {
        Ok(s) => s@,
        Err(e) => "Error: "@ + e@,
    }
}

/// The status a script sees of an operation that reports one.
pub fn status_or_error(outcome: Result<String, String>) -> (r: String)
    ensures
        r@ == status_spec(outcome),
{
    match outcome {
        Ok(s) => s,
        Err(e) => {
            let mut r = String::from_str("Error: ");
            r.append(e.as_str());
            r
        },
    }
}

} // verus!

//! Correlation tokens and the names of scratch files.

use vstd::prelude::*;

verus! {

/// Relies on uuid::Uuid::new_v4 and uuid's Display: a random version-4 uuid
/// written in its hyphenated lower-case form, which is 36 characters long.
/// (new_v4 panics only when the system cannot supply random bytes.)
#[verifier::external_body]
pub(crate) fn random_token() -> (r: String)
    ensures
        r@.len() == 36,
{
    uuid::Uuid::new_v4().to_string()
}

/// A fresh correlation id for a request.
pub fn new_request_id() -> (r: String)
    ensures
        r@.len() == 36,
{
    random_token()
}

/// The extension a scratch file gets when none is asked for.
pub const DEFAULT_TEMP_EXTENSION: &'static str = "txt";

/// The prefix of every scratch file name.
pub const TEMP_FILE_PREFIX: &'static str = "snaprun_";

/// The extension asked for, or `txt` when none is.
pub open spec fn extension_or_default(extension: Option<&str>) -> Seq<char> {
    match extension {
        Some(e) => e@,
        None => DEFAULT_TEMP_EXTENSION@,
    }
}

/// `snaprun_<token>.<extension>`.
pub open spec fn temp_file_name_spec(token: Seq<char>, extension: Seq<char>) -> Seq<char> {
    TEMP_FILE_PREFIX@ + token + "."@ + extension
}

/// The name of a scratch file made from `token`.
pub fn temp_file_name_with(token: &str, extension: Option<&str>) -> (r: String)
    ensures
        r@ == temp_file_name_spec(token@, extension_or_default(extension)),
{
    let mut name = String::from_str(TEMP_FILE_PREFIX);
    name.append(token);
    name.append(".");
    match extension {
        Some(e) => name.append(e),
        None => name.append(DEFAULT_TEMP_EXTENSION),
    }
    name
}

/// A scratch file name that no other call is expected to produce.
pub fn temp_file_name(extension: Option<&str>) -> (r: String)
    ensures
        exists|token: Seq<char>|
            token.len() == 36 && r@ == temp_file_name_spec(token, extension_or_default(extension)),
{
    let token = random_token();
    temp_file_name_with(token.as_str(), extension)
}

} // verus!

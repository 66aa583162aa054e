use crate::policy::ShouldCache;
use vstd::prelude::*;
use vstd::string::StringExecFns;
use vstd::utf8::{decode_utf8, valid_utf8};

verus! {

/// Why the path of an application could not be found.
#[derive(Debug)]
pub enum GetAppPathError {
    /// The script that asks for the path could not be run.
    ExecutionFailed(String),
    /// The script's output is no text.
    ParsingFailed(String),
}

/// The script that asks the system for the path of a running application.
pub open spec fn script_text(app: Seq<char>) -> Seq<char> {
    "tell application \"System Events\" to POSIX path of (file of process \""@ + app
        + "\" as alias)"@
}

pub fn app_path_script(app: &str) -> (script: String)
    ensures
        script@ == script_text(app@),
{
    let mut script = String::from_str(
        "tell application \"System Events\" to POSIX path of (file of process \"",
    );
    script.append(app);
    script.append("\" as alias)");
    script
}

/// Calls `String::from_utf8` and keeps the message of its error. Trusted:
/// it succeeds exactly on valid UTF-8, with the text that the bytes encode.
#[verifier::external_body]
fn text_of_bytes(bytes: Vec<u8>) -> (r: Result<String, String>)
    ensures
        match r {
            Ok(text) => valid_utf8(bytes@) && text@ == decode_utf8(bytes@),
            Err(_) => !valid_utf8(bytes@),
        },
{
    String::from_utf8(bytes).map_err(|e| e.to_string())
}

/// What a run of the script amounts to: the path that it printed, or the
/// reason why there is none.
pub open spec fn path_found(outcome: Result<Vec<u8>, String>, found: Result<
    String,
    GetAppPathError,
>) -> bool {
    match outcome {
        Ok(bytes) => if valid_utf8(bytes@) {
            found is Ok && found->Ok_0@ == decode_utf8(bytes@)
        } else {
            found is Err && found->Err_0 is ParsingFailed
        },
        Err(reason) => found == Err::<String, GetAppPathError>(
            GetAppPathError::ExecutionFailed(reason),
        ),
    }
}

/// Reads the path of an application out of what a run of the script
/// gave: its output, or the reason why it could not be run. Only a path
/// that was found may be cached; a failure is to be tried again.
pub fn get_app_path(outcome: Result<Vec<u8>, String>) -> (r: (
    ShouldCache,
    Result<String, GetAppPathError>,
))
    ensures
        path_found(outcome, r.1),
        r.0 == ShouldCache::owed_to(r.1),
{
    let found = match outcome {
        Ok(bytes) => match text_of_bytes(bytes) {
            Ok(path) => Ok(path),
            Err(reason) => Err(GetAppPathError::ParsingFailed(reason)),
        },
        Err(reason) => Err(GetAppPathError::ExecutionFailed(reason)),
    };
    ShouldCache::tag(found)
}

} // verus!

use vstd::prelude::*;
use vstd::string::StringExecFns;
use crate::errors::DialogUnavailableError;

verus! {

/// What a modal confirmation dialog displays: a fixed title and a
/// caller-supplied body. The hosting layer renders it; nothing here does.
pub struct DialogRequest {
    pub title: String,
    pub body: String,
}

/// The fixed title under which the overwrite confirmation is shown.
pub open spec fn overwrite_dialog_title() -> Seq<char> {
    "Files Already Exist"@
}

/// Build the request for the overwrite confirmation dialog: the fixed title
/// with the caller's message as the body, both carried over unchanged.
pub fn overwrite_dialog_request(msg: &str) -> (req: DialogRequest)
    ensures
        req.title@ == overwrite_dialog_title(),
        req.body@ == msg@,
{
    DialogRequest { title: String::from_str("Files Already Exist"), body: msg.to_owned() }
}

/// Interpret the outcome of the overwrite dialog. The hosting layer hands in
/// the user's answer, or `None` when the dialog could not be shown; the
/// result is exactly that answer, or `DialogUnavailableError` — never a
/// panic, and never a made-up answer.
pub fn confirm_overwrite(response: Option<bool>) -> (r: Result<bool, DialogUnavailableError>)
    ensures
        response matches Some(b) ==> r == Ok::<bool, DialogUnavailableError>(b),
        response is None ==> r == Err::<bool, DialogUnavailableError>(DialogUnavailableError),
{
    match response {
        Some(b) => Ok(b),
        None => Err(DialogUnavailableError),
    }
}

} // verus!

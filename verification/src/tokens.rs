//! The tokens of chat channels, which are kept in the keyring of the system. The functions take
//! what the keyring answered.

use crate::error::{AppCommandError, AppErrorCode};
use vstd::prelude::*;

verus! {

/// `r` is what comes of saving a token, where the keyring answered `stored`.
pub open spec fn save_outcome(stored: Result<(), String>, r: Result<(), AppCommandError>) -> bool {
    match stored {
        Ok(_) => r is Ok,
        Err(reason) => r matches Err(e) && e@ == crate::error::detailed(
            AppErrorCode::Io,
            "Failed to save token"@,
            reason@,
        ),
    }
}

/// `r` is what comes of deleting a token, where the keyring answered `deleted`.
pub open spec fn delete_outcome(
    deleted: Result<(), String>,
    r: Result<(), AppCommandError>,
) -> bool {
    match deleted {
        Ok(_) => r is Ok,
        Err(reason) => r matches Err(e) && e@ == crate::error::detailed(
            AppErrorCode::Io,
            "Failed to delete token"@,
            reason@,
        ),
    }
}

/// Saving or deleting a token succeeds if and only if the keyring did it; its refusal is told as
/// a failure to do just that, with the keyring's reason.
pub proof fn law_the_keyring_decides(
    answer: Result<(), String>,
    saved: Result<(), AppCommandError>,
    deleted: Result<(), AppCommandError>,
)
    requires
        save_outcome(answer, saved),
        delete_outcome(answer, deleted),
    ensures
        saved is Ok <==> answer is Ok,
        deleted is Ok <==> answer is Ok,
        answer is Err ==> (saved matches Err(e) && e.code == AppErrorCode::Io && e.message@
            == "Failed to save token"@ && (e.detail matches Some(detail) && detail@
            == answer->Err_0@)),
        answer is Err ==> (deleted matches Err(e) && e.code == AppErrorCode::Io && e.message@
            == "Failed to delete token"@ && (e.detail matches Some(detail) && detail@
            == answer->Err_0@)),
{
}

/// The outcome of saving a token, from the answer of the keyring.
pub fn save_chat_channel_token_core(stored: Result<(), String>) -> (r: Result<(), AppCommandError>)
    ensures
        save_outcome(stored, r),
{
    match stored {
        Ok(()) => Ok(()),
        Err(reason) => Err(
            AppCommandError::io_error("Failed to save token".to_owned()).with_detail(reason),
        ),
    }
}

/// Whether a channel for which the keyring holds `token` has one.
pub open spec fn has_token(token: Option<String>) -> bool {
    token is Some
}

/// A channel has a token if the keyring holds one, whatever it is, and only then.
pub proof fn law_any_token_counts(token: String)
    ensures
        has_token(Some(token)),
        !has_token(None),
{
}

/// Whether a channel has a token, from the token that the keyring holds for it.
pub fn get_chat_channel_has_token_core(token: &Option<String>) -> (r: Result<bool, AppCommandError>)
    ensures
        r matches Ok(has) && has == has_token(*token),
{
    Ok(token.is_some())
}

/// The outcome of deleting a token, from the answer of the keyring.
pub fn delete_chat_channel_token_core(deleted: Result<(), String>) -> (r: Result<
    (),
    AppCommandError,
>)
    ensures
        delete_outcome(deleted, r),
{
    match deleted {
        Ok(()) => Ok(()),
        Err(reason) => Err(
            AppCommandError::io_error("Failed to delete token".to_owned()).with_detail(reason),
        ),
    }
}

} // verus!

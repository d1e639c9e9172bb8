use vstd::prelude::*;
use crate::error::AptosError;

verus! {

/// Settles what the ledger answered. `is_json` tells whether the body was JSON
/// at all, `decoded` is the body read as the expected shape (`None` when it did
/// not fit), and `remote_message` is the text of the body's `message` field
/// (empty when there is none). A body that does not fit is the remote service's
/// rejection when it carries a message, and an invalid response otherwise.
pub fn handle_response<T>(is_json: bool, decoded: Option<T>, remote_message: String) -> (r: Result<T, AptosError>)
    ensures
        !is_json ==> r matches Err(AptosError::InvalidJSON),
        is_json && decoded is Some ==> r == Ok::<T, AptosError>(decoded->0),
        is_json && decoded is None && remote_message@.len() > 0 ==> r == Err::<T, AptosError>(
            AptosError::RemoteRejected(remote_message)),
        is_json && decoded is None && remote_message@.len() == 0 ==> r matches Err(AptosError::InvalidResponse),
{
    if !is_json {
        return Err(AptosError::InvalidJSON);
    }
    match decoded {
        Some(v) => Ok(v),
        None => {
            if remote_message.as_str().unicode_len() > 0 {
                Err(AptosError::RemoteRejected(remote_message))
            } else {
                Err(AptosError::InvalidResponse)
            }
        },
    }
}

} // verus!

use vstd::prelude::*;

verus! {

/// Every failure the core reports to its caller.
#[derive(Debug, Clone)]
pub enum AptosError {
    /// The remote service answered with something that is not JSON.
    InvalidJSON,
    /// The request did not reach the remote service.
    InvalidRequest,
    /// The remote payload did not have the expected shape.
    InvalidResponse,
    /// The remote service answered with a structured error message.
    RemoteRejected(String),
    /// The account's sequence number is missing or not an unsigned integer.
    InvalidSequenceNumber,
    /// The wall clock is unusable (before the epoch, or too far ahead).
    TimeWentBackwards,
    /// Key material has the wrong length or structure.
    InvalidKeyEncoding,
    /// More signatures than the signer bitmap has bits.
    TooManySignatures,
    /// A request envelope with no populated request variant.
    MalformedRequest,
}

/// The text that reports an error across the foreign boundary: the variant's
/// name, or the remote service's own message.
pub open spec fn error_message(e: AptosError) -> Seq<char> {
    match e {
        AptosError::InvalidJSON => "InvalidJSON"@,
        AptosError::InvalidRequest => "InvalidRequest"@,
        AptosError::InvalidResponse => "InvalidResponse"@,
        AptosError::RemoteRejected(m) => m@,
        AptosError::InvalidSequenceNumber => "InvalidSequenceNumber"@,
        AptosError::TimeWentBackwards => "TimeWentBackwards"@,
        AptosError::InvalidKeyEncoding => "InvalidKeyEncoding"@,
        AptosError::TooManySignatures => "TooManySignatures"@,
        AptosError::MalformedRequest => "MalformedRequest"@,
    }
}

impl AptosError {
    /// The error's text, as `to_string` would give it.
    pub fn message(&self) -> (r: String)
        ensures
            r@ == error_message(*self),
    {
        match self {
            AptosError::InvalidJSON => String::from_str("InvalidJSON"),
            AptosError::InvalidRequest => String::from_str("InvalidRequest"),
            AptosError::InvalidResponse => String::from_str("InvalidResponse"),
            AptosError::RemoteRejected(m) => m.clone(),
            AptosError::InvalidSequenceNumber => String::from_str("InvalidSequenceNumber"),
            AptosError::TimeWentBackwards => String::from_str("TimeWentBackwards"),
            AptosError::InvalidKeyEncoding => String::from_str("InvalidKeyEncoding"),
            AptosError::TooManySignatures => String::from_str("TooManySignatures"),
            AptosError::MalformedRequest => String::from_str("MalformedRequest"),
        }
    }
}

} // verus!

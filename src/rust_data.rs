use vstd::prelude::*;
use crate::error::{error_message, AptosError};

verus! {

/// What the core hands to the host: either the bytes of an encoded response or
/// the text of an error, never both. The host owns it until it releases it.
pub struct RustData {
    data: Vec<u8>,
    err: Option<String>,
}

impl RustData {
    /// The bytes carried.
    pub closed spec fn bytes(&self) -> Seq<u8> {
        self.data@
    }

    /// The error text carried, if any.
    pub closed spec fn error(&self) -> Option<Seq<char>> {
        match self.err {
            Some(e) => Some(e@),
            None => None,
        }
    }

    /// An error buffer carries no bytes.
    pub open spec fn wf(&self) -> bool {
        self.error() is Some ==> self.bytes().len() == 0
    }

    /// A buffer that carries `bytes`.
    pub fn from_bytes(bytes: Vec<u8>) -> (r: RustData)
        ensures
            r.wf(),
            r.bytes() == bytes@,
            r.error() is None,
    {
        RustData { data: bytes, err: None }
    }

    /// A buffer that carries the text of `e` and no bytes.
    pub fn from_err(e: AptosError) -> (r: RustData)
        ensures
            r.wf(),
            r.bytes().len() == 0,
            r.error() == Some(error_message(e)),
    {
        RustData { data: Vec::new(), err: Some(e.message()) }
    }

    /// A buffer for a handler's outcome: its bytes on success, its error's text
    /// on failure.
    pub fn from_result(result: Result<Vec<u8>, AptosError>) -> (r: RustData)
        ensures
            r.wf(),
            result matches Ok(b) ==> r.bytes() == b@ && r.error() is None,
            result matches Err(e) ==> r.bytes().len() == 0 && r.error() == Some(error_message(e)),
    {
        match result {
            Ok(bytes) => RustData::from_bytes(bytes),
            Err(e) => RustData::from_err(e),
        }
    }

    /// The error text carried, if any.
    pub fn error_text(&self) -> (r: Option<String>)
        ensures
            r matches Some(s) ==> self.error() == Some(s@),
            r is None ==> self.error() is None,
    {
        match &self.err {
            Some(e) => Some(e.clone()),
            None => None,
        }
    }

    /// Gives up the buffer, handing back exactly what it carries: the one
    /// release that each buffer gets.
    pub fn release(self) -> (r: (Vec<u8>, Option<String>))
        ensures
            r.0@ == self.bytes(),
            r.1 matches Some(s) ==> self.error() == Some(s@),
            r.1 is None ==> self.error() is None,
    {
        (self.data, self.err)
    }
}

/// Releasing a buffer made from bytes hands back exactly those bytes and no
/// error: `release(from_bytes(v))` is `(v, None)`, whatever `v` is.
pub proof fn lemma_release_of_bytes(v: Seq<u8>, d: RustData, released: (Vec<u8>, Option<String>))
    requires
        d.bytes() == v,
        d.error() is None,
        released.0@ == d.bytes(),
        released.1 is None <==> d.error() is None,
    ensures
        released.0@ == v,
        released.1 is None,
{
}

/// The buffer made from a failure reports that failure's text, the one that
/// `AptosError::message` gives, and carries no bytes:
/// `from_result(Err(e)).error_text() == Some(e.message())`.
pub proof fn lemma_error_text_of_failure(e: AptosError, d: RustData, text: Option<String>, message: String)
    requires
        d.bytes().len() == 0,
        d.error() == Some(error_message(e)),
        text matches Some(s) ==> d.error() == Some(s@),
        text is None ==> d.error() is None,
        message@ == error_message(e),
    ensures
        text matches Some(s) && s@ == message@,
        d.bytes().len() == 0,
{
}

} // verus!

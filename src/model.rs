use vstd::prelude::*;

verus! {

/// What the ledger reports of an account.
#[derive(Debug, Clone)]
pub struct GetAccountResponse {
    pub sequence_number: String,
    pub authentication_key: String,
}

/// The canonical bytes of a transaction to sign, hex encoded behind a
/// two-character marker.
#[derive(Debug, Clone)]
pub struct CreateTransactionSigningResponse {
    pub message: String,
}

/// A transaction record of the ledger.
#[derive(Debug, Clone)]
pub struct Transaction {
    pub type_transaction: String,
    pub hash: String,
    pub sequence_number: String,
}

/// One member's signature over a transaction, both hex encoded.
#[derive(Debug, Clone)]
pub struct SignedPayload {
    pub public_key: String,
    pub signature: String,
}

} // verus!

use vstd::prelude::*;
use crate::model::SignedPayload;
use crate::transaction::TransactionEnvelope;

verus! {

#[derive(Debug, Clone)]
pub struct GetBacktraceRequest {}

#[derive(Debug, Clone)]
pub struct CreateAccountRequest {}

/// The members of a shared wallet, hex-encoded public keys in member order.
#[derive(Debug, Clone)]
pub struct CreateWalletRequest {
    pub public_keys: Vec<String>,
}

#[derive(Debug, Clone)]
pub struct FundWalletRequest {
    pub address: String,
    pub amount: u64,
}

#[derive(Debug, Clone)]
pub struct GetWalletBalanceRequest {
    pub address: String,
}

#[derive(Debug, Clone)]
pub struct CreateWalletTransactionRequest {
    pub address_from: String,
    pub address_to: String,
    pub amount: u64,
}

/// A transaction to sign with the hex-encoded keypair encoding of one account.
#[derive(Debug, Clone)]
pub struct SignWalletTransactionRequest {
    pub keypair: String,
    pub transaction: String,
}

#[derive(Debug, Clone)]
pub struct SubmitWalletTransactionRequest {
    pub transaction: String,
    pub signed_payloads: Vec<SignedPayload>,
}

#[derive(Debug, Clone)]
pub struct GetWalletTransactionsRequest {
    pub address: String,
}

/// The requests answered on the caller's thread.
#[derive(Debug, Clone)]
pub enum SyncRequests {
    GetSyncBacktrace(GetBacktraceRequest),
    CreateAccount(CreateAccountRequest),
    CreateWallet(CreateWalletRequest),
}

/// The requests answered later, through the caller's callback.
#[derive(Debug, Clone)]
pub enum AsyncRequests {
    GetAsyncBacktrace(GetBacktraceRequest),
    FundWallet(FundWalletRequest),
    GetWalletBalance(GetWalletBalanceRequest),
    CreateWalletTransaction(CreateWalletTransactionRequest),
    SignWalletTransaction(SignWalletTransactionRequest),
    SubmitWalletTransaction(SubmitWalletTransactionRequest),
    GetWalletTransactions(GetWalletTransactionsRequest),
}

/// A request envelope: one of its two unions is expected to be populated.
#[derive(Debug, Clone)]
pub struct Request {
    pub sync_requests: Option<SyncRequests>,
    pub async_requests: Option<AsyncRequests>,
}

#[derive(Debug, Clone)]
pub struct GetBacktraceResponse {
    pub text: String,
}

#[derive(Debug, Clone)]
pub struct CreateAccountResponse {
    pub keypair: String,
    pub public_key: String,
}

#[derive(Debug, Clone)]
pub struct CreateWalletResponse {
    pub address: String,
}

/// The kind and hash of a ledger transaction.
#[derive(Debug, Clone)]
pub struct TransactionInfo {
    pub type_transaction: String,
    pub hash: String,
}

#[derive(Debug, Clone)]
pub struct FundWalletResponse {
    pub transactions: Vec<TransactionInfo>,
}

#[derive(Debug, Clone)]
pub struct GetWalletBalanceResponse {
    pub balance: u64,
}

#[derive(Debug, Clone)]
pub struct CreateWalletTransactionResponse {
    pub transaction: TransactionEnvelope,
}

#[derive(Debug, Clone)]
pub struct SignWalletTransactionResponse {
    pub signature: String,
}

#[derive(Debug, Clone)]
pub struct SubmitWalletTransactionResponse {
    pub transaction: Option<TransactionInfo>,
}

#[derive(Debug, Clone)]
pub struct GetWalletTransactionsResponse {
    pub transactions: Vec<TransactionInfo>,
}

/// The answer to a synchronous request.
#[derive(Debug, Clone)]
pub enum SyncResponse {
    GetBacktrace(GetBacktraceResponse),
    CreateAccount(CreateAccountResponse),
    CreateWallet(CreateWalletResponse),
}

/// The answer to an asynchronous request.
#[derive(Debug, Clone)]
pub enum AsyncResponse {
    GetBacktrace(GetBacktraceResponse),
    FundWallet(FundWalletResponse),
    GetWalletBalance(GetWalletBalanceResponse),
    CreateWalletTransaction(CreateWalletTransactionResponse),
    SignWalletTransaction(SignWalletTransactionResponse),
    SubmitWalletTransaction(SubmitWalletTransactionResponse),
    GetWalletTransactions(GetWalletTransactionsResponse),
}

/// Whether a synchronous response answers a request of the same kind.
pub open spec fn sync_kinds_match(request: SyncRequests, response: SyncResponse) -> bool {
    match request {
        SyncRequests::GetSyncBacktrace(_) => response is GetBacktrace,
        SyncRequests::CreateAccount(_) => response is CreateAccount,
        SyncRequests::CreateWallet(_) => response is CreateWallet,
    }
}

/// Whether an asynchronous response answers a request of the same kind.
pub open spec fn async_kinds_match(request: AsyncRequests, response: AsyncResponse) -> bool {
    match request {
        AsyncRequests::GetAsyncBacktrace(_) => response is GetBacktrace,
        AsyncRequests::FundWallet(_) => response is FundWallet,
        AsyncRequests::GetWalletBalance(_) => response is GetWalletBalance,
        AsyncRequests::CreateWalletTransaction(_) => response is CreateWalletTransaction,
        AsyncRequests::SignWalletTransaction(_) => response is SignWalletTransaction,
        AsyncRequests::SubmitWalletTransaction(_) => response is SubmitWalletTransaction,
        AsyncRequests::GetWalletTransactions(_) => response is GetWalletTransactions,
    }
}

} // verus!

use vstd::prelude::*;
use crate::account::AptosAccount;
use crate::encoding::parsed_u64;
use crate::error::AptosError;
use crate::messages::{async_kinds_match, sync_kinds_match, AsyncRequests, AsyncResponse, Request, SyncRequests, SyncResponse};
use crate::model::{CreateTransactionSigningResponse, GetAccountResponse, Transaction};
use crate::requests::{
    balance_resource_type, coin_balance, handle_create_account, handle_create_wallet,
    handle_create_wallet_transaction, handle_fund_wallet, handle_get_backtrace, handle_get_wallet_balance,
    handle_get_wallet_transactions, handle_sign_wallet_transaction, handle_submit_wallet_transaction,
    is_fresh_account, is_funding_of, is_listing_of, is_requested_transfer, is_submission_of,
    requested_signature, requested_wallet_address, signing_secret, submission_signature,
};
use crate::transaction::{is_multi_signature_of, signing_message_bytes, MultiSignaturePayload, BITMAP_NUM_OF_BYTES, EXPIRATION_WINDOW_SECS};

verus! {

/// Answers a synchronous request on the caller's thread. An envelope with no
/// synchronous request is malformed.
pub fn dispatch_request(request: Request) -> (r: Result<SyncResponse, AptosError>)
    ensures
        request.sync_requests is None ==> r matches Err(AptosError::MalformedRequest),
        request.sync_requests matches Some(q) ==> (r matches Ok(resp) ==> sync_kinds_match(q, resp)),
        request.sync_requests matches Some(q) ==> match q {
            SyncRequests::GetSyncBacktrace(_) => r is Ok,
            SyncRequests::CreateAccount(_) => r matches Ok(SyncResponse::CreateAccount(resp)) && is_fresh_account(resp),
            SyncRequests::CreateWallet(w) => match requested_wallet_address(w) {
                Some(address) => r matches Ok(SyncResponse::CreateWallet(resp)) && resp.address@ == address,
                None => r matches Err(AptosError::InvalidKeyEncoding),
            },
        },
{
    match request.sync_requests {
        Some(req) => match req {
            SyncRequests::GetSyncBacktrace(q) => Ok(SyncResponse::GetBacktrace(handle_get_backtrace(q))),
            SyncRequests::CreateAccount(q) => Ok(SyncResponse::CreateAccount(handle_create_account(q))),
            SyncRequests::CreateWallet(q) => match handle_create_wallet(q) {
                Ok(resp) => Ok(SyncResponse::CreateWallet(resp)),
                Err(e) => Err(e),
            },
        },
        None => Err(AptosError::MalformedRequest),
    }
}

/// The one ledger operation that an asynchronous request needs.
#[derive(Debug, Clone)]
pub enum LedgerCall {
    /// The request is answered without the ledger.
    Nothing,
    /// Ask the faucet to mint `amount` coins into `address`.
    Fund { address: String, amount: u64 },
    /// Read one resource of an account.
    Resource { address: String, resource_type: String },
    /// Read an account's sequence number and authentication key.
    Account { address: String },
    /// Ask for the canonical bytes to sign of a transaction.
    SigningMessage { transaction: String },
    /// Submit a transaction with its threshold signature attached.
    Submit { transaction: String, signature: MultiSignaturePayload },
    /// List an account's transactions.
    Transactions { address: String },
}

/// What the ledger answered to a `LedgerCall`, in the same order of variants.
#[derive(Debug, Clone)]
pub enum LedgerReply {
    Nothing,
    /// The hashes of the faucet's transactions.
    Funded(Vec<String>),
    /// The text of the coin resource's value, if the resource has one.
    CoinValue(Option<String>),
    /// The account, with the wall clock read when it arrived (`None` before the epoch).
    Account { account: GetAccountResponse, now_secs: Option<u64> },
    SigningMessage(CreateTransactionSigningResponse),
    Submitted(Transaction),
    Transactions(Vec<Transaction>),
}

/// The ledger operation that an asynchronous request needs, decided before any
/// ledger work: a request that cannot succeed whatever the ledger answers
/// fails here. An envelope with no asynchronous request is malformed.
pub fn plan_async_request(request: &Request) -> (r: Result<LedgerCall, AptosError>)
    ensures
        request.async_requests is None ==> r matches Err(AptosError::MalformedRequest),
        request.async_requests matches Some(q) ==> match q {
            AsyncRequests::GetAsyncBacktrace(_) => r matches Ok(LedgerCall::Nothing),
            AsyncRequests::FundWallet(f) => r matches Ok(LedgerCall::Fund { address, amount })
                && address == f.address && amount == f.amount,
            AsyncRequests::GetWalletBalance(g) => r matches Ok(LedgerCall::Resource { address, resource_type })
                && address == g.address && resource_type@ == "0x1::TestCoin::Balance"@,
            AsyncRequests::CreateWalletTransaction(c) => r matches Ok(LedgerCall::Account { address })
                && address == c.address_from,
            AsyncRequests::SignWalletTransaction(s) => if signing_secret(s.keypair@) is Some {
                r matches Ok(LedgerCall::SigningMessage { transaction }) && transaction == s.transaction
            } else {
                r matches Err(AptosError::InvalidKeyEncoding)
            },
            AsyncRequests::SubmitWalletTransaction(s) => if s.signed_payloads@.len() <= 8 * BITMAP_NUM_OF_BYTES {
                r matches Ok(LedgerCall::Submit { transaction, signature }) && transaction == s.transaction
                    && is_multi_signature_of(signature, s.signed_payloads@)
            } else {
                r matches Err(AptosError::TooManySignatures)
            },
            AsyncRequests::GetWalletTransactions(g) => r matches Ok(LedgerCall::Transactions { address })
                && address == g.address,
        },
{
    match &request.async_requests {
        None => Err(AptosError::MalformedRequest),
        Some(req) => match req {
            AsyncRequests::GetAsyncBacktrace(_) => Ok(LedgerCall::Nothing),
            AsyncRequests::FundWallet(f) => Ok(LedgerCall::Fund { address: f.address.clone(), amount: f.amount }),
            AsyncRequests::GetWalletBalance(g) => Ok(LedgerCall::Resource {
                address: g.address.clone(),
                resource_type: String::from_str(balance_resource_type()),
            }),
            AsyncRequests::CreateWalletTransaction(c) => Ok(LedgerCall::Account { address: c.address_from.clone() }),
            AsyncRequests::SignWalletTransaction(s) => {
                let account = AptosAccount::new(Some(s.keypair.clone()));
                match account {
                    Ok(_) => {
                        proof {
                            if let Ok(a) = account {
                                let kp = crate::encoding::hex_decoded(s.keypair@)->Some_0;
                                assert(kp.subrange(0, 32) =~= a.secret_key());
                            }
                        }
                        Ok(LedgerCall::SigningMessage { transaction: s.transaction.clone() })
                    },
                    Err(e) => Err(e),
                }
            },
            AsyncRequests::SubmitWalletTransaction(s) => match submission_signature(s) {
                Ok(signature) => Ok(LedgerCall::Submit { transaction: s.transaction.clone(), signature }),
                Err(e) => Err(e),
            },
            AsyncRequests::GetWalletTransactions(g) => Ok(LedgerCall::Transactions { address: g.address.clone() }),
        },
    }
}

/// Whether a ledger reply is of the kind that a request's call asks for.
pub open spec fn reply_kind_matches(request: AsyncRequests, reply: LedgerReply) -> bool {
    match request {
        AsyncRequests::GetAsyncBacktrace(_) => reply is Nothing,
        AsyncRequests::FundWallet(_) => reply is Funded,
        AsyncRequests::GetWalletBalance(_) => reply is CoinValue,
        AsyncRequests::CreateWalletTransaction(_) => reply is Account,
        AsyncRequests::SignWalletTransaction(_) => reply is SigningMessage,
        AsyncRequests::SubmitWalletTransaction(_) => reply is Submitted,
        AsyncRequests::GetWalletTransactions(_) => reply is Transactions,
    }
}

/// Whether the request's handler succeeds on a reply of the matching kind.
pub open spec fn async_succeeds(request: AsyncRequests, reply: LedgerReply) -> bool {
    match (request, reply) {
        (AsyncRequests::GetWalletBalance(_), LedgerReply::CoinValue(v)) => coin_balance(v) is Some,
        (AsyncRequests::CreateWalletTransaction(_), LedgerReply::Account { account, now_secs }) =>
            parsed_u64(account.sequence_number@) is Some && now_secs is Some
                && now_secs->0 + EXPIRATION_WINDOW_SECS <= u64::MAX,
        (AsyncRequests::SignWalletTransaction(s), LedgerReply::SigningMessage(m)) =>
            signing_secret(s.keypair@) is Some && signing_message_bytes(m.message@) is Some,
        _ => reply_kind_matches(request, reply),
    }
}

/// Whether a response holds what a request's handler makes of a reply.
pub open spec fn async_answers(request: AsyncRequests, reply: LedgerReply, response: AsyncResponse) -> bool {
    match (request, reply, response) {
        (AsyncRequests::GetAsyncBacktrace(_), LedgerReply::Nothing, AsyncResponse::GetBacktrace(_)) => true,
        (AsyncRequests::FundWallet(_), LedgerReply::Funded(hashes), AsyncResponse::FundWallet(resp)) =>
            is_funding_of(resp, hashes@),
        (AsyncRequests::GetWalletBalance(_), LedgerReply::CoinValue(v), AsyncResponse::GetWalletBalance(resp)) =>
            coin_balance(v) == Some(resp.balance),
        (
            AsyncRequests::CreateWalletTransaction(c),
            LedgerReply::Account { account, now_secs },
            AsyncResponse::CreateWalletTransaction(resp),
        ) => is_requested_transfer(resp.transaction, c, parsed_u64(account.sequence_number@)->0, now_secs->0),
        (
            AsyncRequests::SignWalletTransaction(s),
            LedgerReply::SigningMessage(m),
            AsyncResponse::SignWalletTransaction(resp),
        ) => resp.signature@ == requested_signature(s, m),
        (
            AsyncRequests::SubmitWalletTransaction(_),
            LedgerReply::Submitted(t),
            AsyncResponse::SubmitWalletTransaction(resp),
        ) => is_submission_of(resp, t),
        (
            AsyncRequests::GetWalletTransactions(_),
            LedgerReply::Transactions(ts),
            AsyncResponse::GetWalletTransactions(resp),
        ) => is_listing_of(resp, ts@),
        _ => false,
    }
}

/// Answers an asynchronous request from what the ledger replied to its call.
/// A ledger failure is passed on as it is, except that a failed account lookup
/// while building a transaction means its sequence number is unavailable; a
/// reply of another kind than the call asked for is an invalid response.
pub fn dispatch_request_async(request: &AsyncRequests, reply: Result<LedgerReply, AptosError>) -> (r: Result<
    AsyncResponse,
    AptosError,
>)
    ensures
        reply is Err && request is CreateWalletTransaction ==> r matches Err(AptosError::InvalidSequenceNumber),
        !(request is CreateWalletTransaction) ==> (reply matches Err(e) ==> r == Err::<AsyncResponse, AptosError>(e)),
        reply matches Ok(rep) ==> (r is Ok <==> async_succeeds(*request, rep)),
        reply matches Ok(rep) ==> (!reply_kind_matches(*request, rep) ==> r matches Err(AptosError::InvalidResponse)),
        r matches Ok(resp) ==> async_kinds_match(*request, resp),
        r matches Ok(resp) ==> (reply matches Ok(rep) && async_answers(*request, rep, resp)),
{
    let rep = match reply {
        Ok(rep) => rep,
        Err(e) => {
            // Without the sender's account there is no sequence number to build with.
            if let AsyncRequests::CreateWalletTransaction(_) = request {
                return Err(AptosError::InvalidSequenceNumber);
            }
            return Err(e);
        },
    };
    match (request, rep) {
        (AsyncRequests::GetAsyncBacktrace(q), LedgerReply::Nothing) =>
            Ok(AsyncResponse::GetBacktrace(handle_get_backtrace(q.clone()))),
        (AsyncRequests::FundWallet(_), LedgerReply::Funded(hashes)) =>
            Ok(AsyncResponse::FundWallet(handle_fund_wallet(&hashes))),
        (AsyncRequests::GetWalletBalance(_), LedgerReply::CoinValue(v)) => match handle_get_wallet_balance(v) {
            Ok(resp) => Ok(AsyncResponse::GetWalletBalance(resp)),
            Err(e) => Err(e),
        },
        (AsyncRequests::CreateWalletTransaction(c), LedgerReply::Account { account, now_secs }) =>
            match handle_create_wallet_transaction(c, &account, now_secs) {
                Ok(resp) => Ok(AsyncResponse::CreateWalletTransaction(resp)),
                Err(e) => Err(e),
            },
        (AsyncRequests::SignWalletTransaction(s), LedgerReply::SigningMessage(m)) =>
            match handle_sign_wallet_transaction(s, &m) {
                Ok(resp) => Ok(AsyncResponse::SignWalletTransaction(resp)),
                Err(e) => Err(e),
            },
        (AsyncRequests::SubmitWalletTransaction(_), LedgerReply::Submitted(t)) =>
            Ok(AsyncResponse::SubmitWalletTransaction(handle_submit_wallet_transaction(&t))),
        (AsyncRequests::GetWalletTransactions(_), LedgerReply::Transactions(ts)) =>
            Ok(AsyncResponse::GetWalletTransactions(handle_get_wallet_transactions(&ts))),
        _ => Err(AptosError::InvalidResponse),
    }
}

/// A response made of a ledger reply answers the request with the response of
/// the request's own kind, from a reply of the kind that the request's call
/// asks for.
pub proof fn lemma_async_answer_kinds(request: AsyncRequests, reply: LedgerReply, response: AsyncResponse)
    requires
        async_answers(request, reply, response),
    ensures
        async_kinds_match(request, response),
        reply_kind_matches(request, reply),
{
}

} // verus!

use vstd::prelude::*;
use crate::account::{keypair_encoding_valid, AptosAccount};
use crate::address::multi_key_address;
use crate::crypto::{ed25519_public_of, ed25519_public_valid, ed25519_signature_of};
use crate::encoding::{decimal_of, hex_decoded, hex_of, parse_u64, parsed_u64};
use crate::error::AptosError;
use crate::messages::{
    CreateAccountRequest, CreateAccountResponse, CreateWalletRequest, CreateWalletResponse,
    CreateWalletTransactionRequest, CreateWalletTransactionResponse, FundWalletResponse,
    GetBacktraceRequest, GetBacktraceResponse, GetWalletBalanceResponse, GetWalletTransactionsResponse,
    SignWalletTransactionRequest, SignWalletTransactionResponse, SubmitWalletTransactionRequest,
    SubmitWalletTransactionResponse, TransactionInfo,
};
use crate::model::{CreateTransactionSigningResponse, GetAccountResponse, Transaction};
use crate::shared_wallet::AptosSharedWallet;
use crate::transaction::{
    build_transaction, is_multi_signature_of, multi_signature_payload, sign_transaction_message, signing_message_bytes,
    transfer_payload, MultiSignaturePayload, TransactionEnvelope, BITMAP_NUM_OF_BYTES,
    EXPIRATION_WINDOW_SECS, GAS_UNIT_PRICE, MAX_GAS_AMOUNT,
};

verus! {

/// Relies on backtrace::Backtrace::new, rendered with its `Debug` format. The
/// text depends on the call stack and the machine, so nothing is stated of it.
#[verifier::external_body]
fn capture_backtrace() -> (r: String) {
    format!("{:?}", backtrace::Backtrace::new())
}

/// A snapshot of the current call stack, as text.
pub fn handle_get_backtrace(_req: GetBacktraceRequest) -> (r: GetBacktraceResponse) {
    GetBacktraceResponse { text: capture_backtrace() }
}

/// Whether a response holds a keypair encoding and the public key of one
/// secret key, both hex encoded.
pub open spec fn is_fresh_account(r: CreateAccountResponse) -> bool {
    exists|secret: Seq<u8>| #![trigger ed25519_public_of(secret)] secret.len() == 32
        && ed25519_public_of(secret).len() == 32
        && r.keypair@ == hex_of(secret + ed25519_public_of(secret))
        && r.public_key@ == hex_of(ed25519_public_of(secret))
}

/// A fresh keypair: its keypair encoding and its public key, both hex encoded.
pub fn handle_create_account(_req: CreateAccountRequest) -> (r: CreateAccountResponse)
    ensures
        is_fresh_account(r),
{
    let account = AptosAccount::generate();
    CreateAccountResponse { keypair: account.keypair(), public_key: account.public_key() }
}

/// The public keys that hex-encoded members stand for, in order: `None` if one
/// is not the hex encoding of a valid public key.
pub open spec fn decoded_public_keys(keys: Seq<String>) -> Option<Seq<Seq<u8>>>
    decreases keys.len(),
{
    if keys.len() == 0 {
        Some(seq![])
    } else {
        match (decoded_public_keys(keys.drop_last()), hex_decoded(keys.last()@)) {
            (Some(front), Some(b)) => if ed25519_public_valid(b) {
                Some(front.push(b))
            } else {
                None
            },
            _ => None,
        }
    }
}

/// The address of the shared wallet whose members a request gives, if each is
/// the hex encoding of a valid public key.
pub open spec fn requested_wallet_address(req: CreateWalletRequest) -> Option<Seq<char>> {
    match decoded_public_keys(req.public_keys@) {
        Some(keys) => Some(multi_key_address(keys, (keys.len() % 256) as u8)),
        None => None,
    }
}

/// The address of the shared wallet whose members are the given keys, in the
/// order given, with the number of members as threshold.
pub fn handle_create_wallet(req: CreateWalletRequest) -> (r: Result<CreateWalletResponse, AptosError>)
    ensures
        requested_wallet_address(req) is Some ==> (r matches Ok(resp) && resp.address@ == requested_wallet_address(req)->0),
        requested_wallet_address(req) is None ==> r matches Err(AptosError::InvalidKeyEncoding),
{
    let mut wallet = AptosSharedWallet::new();
    let mut i: usize = 0;
    while i < req.public_keys.len()
        invariant
            0 <= i <= req.public_keys@.len(),
            wallet.wf(),
            decoded_public_keys(req.public_keys@.subrange(0, i as int)) == Some(wallet.members()),
        decreases req.public_keys@.len() - i,
    {
        let ghost prefix = req.public_keys@.subrange(0, i + 1);
        assert(prefix.drop_last() =~= req.public_keys@.subrange(0, i as int));
        match wallet.add_public_key(req.public_keys[i].clone()) {
            Ok(()) => {},
            Err(e) => {
                proof { lemma_decoded_prefix_none(req.public_keys@, i + 1); }
                return Err(e);
            },
        }
        i += 1;
    }
    assert(req.public_keys@.subrange(0, req.public_keys@.len() as int) =~= req.public_keys@);
    Ok(CreateWalletResponse { address: wallet.address() })
}

/// A list with a prefix that does not decode does not decode.
proof fn lemma_decoded_prefix_none(keys: Seq<String>, n: int)
    requires
        0 <= n <= keys.len(),
        decoded_public_keys(keys.subrange(0, n)) is None,
    ensures
        decoded_public_keys(keys) is None,
    decreases keys.len() - n,
{
    if n < keys.len() {
        assert(keys.subrange(0, n + 1).drop_last() =~= keys.subrange(0, n));
        lemma_decoded_prefix_none(keys, n + 1);
    } else {
        assert(keys.subrange(0, n) =~= keys);
    }
}

/// Whether a funding response lists one pending transaction per hash, in order.
pub open spec fn is_funding_of(r: FundWalletResponse, hashes: Seq<String>) -> bool {
    &&& r.transactions@.len() == hashes.len()
    &&& forall|i: int| 0 <= i < hashes.len() ==> (#[trigger] r.transactions@[i]).hash == hashes[i]
        && r.transactions@[i].type_transaction@ == "pending_transaction"@
}

/// The transactions that a faucet reports for a funding, one pending
/// transaction per hash, in order.
pub fn handle_fund_wallet(hashes: &Vec<String>) -> (r: FundWalletResponse)
    ensures
        is_funding_of(r, hashes@),
{
    let mut transactions: Vec<TransactionInfo> = Vec::new();
    let mut i: usize = 0;
    while i < hashes.len()
        invariant
            0 <= i <= hashes@.len(),
            transactions@.len() == i,
            forall|j: int| 0 <= j < i ==> (#[trigger] transactions@[j]).hash == hashes@[j]
                && transactions@[j].type_transaction@ == "pending_transaction"@,
        decreases hashes@.len() - i,
    {
        transactions.push(TransactionInfo {
            type_transaction: String::from_str("pending_transaction"),
            hash: hashes[i].clone(),
        });
        i += 1;
    }
    FundWalletResponse { transactions }
}

/// The resource that holds an account's coin balance.
pub fn balance_resource_type() -> (r: &'static str)
    ensures
        r@ == "0x1::TestCoin::Balance"@,
{
    "0x1::TestCoin::Balance"
}

/// The balance that the text of a coin resource's value stands for.
pub open spec fn coin_balance(coin_value: Option<String>) -> Option<u64> {
    match coin_value {
        Some(v) => parsed_u64(v@),
        None => None,
    }
}

/// The balance that the ledger reports as the text of the coin resource's
/// value; a missing or non-numeric value is an invalid response.
pub fn handle_get_wallet_balance(coin_value: Option<String>) -> (r: Result<GetWalletBalanceResponse, AptosError>)
    ensures
        coin_balance(coin_value) is Some ==> (r matches Ok(resp) && resp.balance == coin_balance(coin_value)->0),
        coin_balance(coin_value) is None ==> r matches Err(AptosError::InvalidResponse),
{
    match coin_value {
        Some(v) => match parse_u64(v.as_str()) {
            Some(balance) => Ok(GetWalletBalanceResponse { balance }),
            None => Err(AptosError::InvalidResponse),
        },
        None => Err(AptosError::InvalidResponse),
    }
}

/// Whether an envelope is the transfer that a request asks for, sent with the
/// sequence number and clock reading given.
pub open spec fn is_requested_transfer(
    t: TransactionEnvelope,
    req: CreateWalletTransactionRequest,
    sequence_number: u64,
    now_secs: u64,
) -> bool {
    &&& t.sender@ == "0x"@ + req.address_from@
    &&& t.sequence_number == sequence_number
    &&& t.max_gas_amount == MAX_GAS_AMOUNT
    &&& t.gas_unit_price == GAS_UNIT_PRICE
    &&& t.gas_currency_code@ == "XUS"@
    &&& t.expiration_timestamp_secs == now_secs + EXPIRATION_WINDOW_SECS
    &&& t.payload.payload_type@ == "script_function_payload"@
    &&& t.payload.function@ == "0x1::TestCoin::transfer"@
    &&& t.payload.type_arguments@.len() == 0
    &&& t.payload.arguments@.len() == 2
    &&& t.payload.arguments@[0]@ == "0x"@ + req.address_to@
    &&& t.payload.arguments@[1]@ == decimal_of(req.amount as nat)
}

/// The unsigned transfer that a request asks for, from what the ledger reports
/// of the sender's account and the wall clock (`None` before the epoch).
pub fn handle_create_wallet_transaction(
    req: &CreateWalletTransactionRequest,
    account: &GetAccountResponse,
    now_secs: Option<u64>,
) -> (r: Result<CreateWalletTransactionResponse, AptosError>)
    ensures
        r is Ok <==> (parsed_u64(account.sequence_number@) is Some && now_secs is Some
            && now_secs->0 + EXPIRATION_WINDOW_SECS <= u64::MAX),
        parsed_u64(account.sequence_number@) is None ==> r matches Err(AptosError::InvalidSequenceNumber),
        parsed_u64(account.sequence_number@) is Some && !(r is Ok) ==> r matches Err(AptosError::TimeWentBackwards),
        r matches Ok(resp) ==> is_requested_transfer(resp.transaction, *req,
            parsed_u64(account.sequence_number@)->0, now_secs->0),
{
    let payload = transfer_payload(req.address_to.as_str(), req.amount);
    let transaction = build_transaction(req.address_from.as_str(), account, now_secs, payload)?;
    Ok(CreateWalletTransactionResponse { transaction })
}

/// The secret key of the hex-encoded keypair encoding of an account, if the
/// text is one.
pub open spec fn signing_secret(keypair: Seq<char>) -> Option<Seq<u8>> {
    match hex_decoded(keypair) {
        Some(kp) => if keypair_encoding_valid(kp) {
            Some(kp.subrange(0, 32))
        } else {
            None
        },
        None => None,
    }
}

/// The signature that a request asks for: `0x` and the hex-encoded signature of
/// the signing message's bytes under the request's secret key.
pub open spec fn requested_signature(req: SignWalletTransactionRequest, signing: CreateTransactionSigningResponse) -> Seq<char> {
    "0x"@ + hex_of(ed25519_signature_of(signing_secret(req.keypair@)->0, signing_message_bytes(signing.message@)->0))
}

/// Signs the ledger's signing message for a transaction with the account whose
/// hex-encoded keypair encoding the request gives.
pub fn handle_sign_wallet_transaction(
    req: &SignWalletTransactionRequest,
    signing: &CreateTransactionSigningResponse,
) -> (r: Result<SignWalletTransactionResponse, AptosError>)
    ensures
        signing_secret(req.keypair@) is None ==> r matches Err(AptosError::InvalidKeyEncoding),
        signing_secret(req.keypair@) is Some && signing_message_bytes(signing.message@) is None
            ==> r matches Err(AptosError::InvalidResponse),
        signing_secret(req.keypair@) is Some && signing_message_bytes(signing.message@) is Some
            ==> (r matches Ok(resp) && resp.signature@ == requested_signature(*req, *signing)),
{
    let account = AptosAccount::new(Some(req.keypair.clone()))?;
    proof {
        let kp = hex_decoded(req.keypair@)->Some_0;
        assert(kp.subrange(0, 32) =~= account.secret_key());
    }
    let signature = sign_transaction_message(&account, signing.message.as_str())?;
    Ok(SignWalletTransactionResponse { signature })
}

/// The threshold signature to attach to a transaction before submitting it.
pub fn submission_signature(req: &SubmitWalletTransactionRequest) -> (r: Result<MultiSignaturePayload, AptosError>)
    ensures
        r is Ok <==> req.signed_payloads@.len() <= 8 * BITMAP_NUM_OF_BYTES,
        r matches Err(e) ==> e is TooManySignatures,
        r matches Ok(p) ==> is_multi_signature_of(p, req.signed_payloads@),
{
    multi_signature_payload(&req.signed_payloads)
}

/// The kind and hash of a ledger transaction record.
pub fn transaction_info(t: &Transaction) -> (r: TransactionInfo)
    ensures
        r.type_transaction == t.type_transaction,
        r.hash == t.hash,
{
    TransactionInfo { type_transaction: t.type_transaction.clone(), hash: t.hash.clone() }
}

/// Whether a submission response reports the kind and hash of the ledger's record.
pub open spec fn is_submission_of(r: SubmitWalletTransactionResponse, submitted: Transaction) -> bool {
    r.transaction matches Some(info) && info.type_transaction == submitted.type_transaction
        && info.hash == submitted.hash
}

/// The transaction that the ledger recorded for a submission.
pub fn handle_submit_wallet_transaction(submitted: &Transaction) -> (r: SubmitWalletTransactionResponse)
    ensures
        is_submission_of(r, *submitted),
{
    SubmitWalletTransactionResponse { transaction: Some(transaction_info(submitted)) }
}

/// Whether a listing reports the kind and hash of each transaction, in order.
pub open spec fn is_listing_of(r: GetWalletTransactionsResponse, transactions: Seq<Transaction>) -> bool {
    &&& r.transactions@.len() == transactions.len()
    &&& forall|i: int| 0 <= i < transactions.len() ==> (#[trigger] r.transactions@[i]).hash == transactions[i].hash
        && r.transactions@[i].type_transaction == transactions[i].type_transaction
}

/// The kind and hash of each of an account's transactions, in order.
pub fn handle_get_wallet_transactions(transactions: &Vec<Transaction>) -> (r: GetWalletTransactionsResponse)
    ensures
        is_listing_of(r, transactions@),
{
    let mut out: Vec<TransactionInfo> = Vec::new();
    let mut i: usize = 0;
    while i < transactions.len()
        invariant
            0 <= i <= transactions@.len(),
            out@.len() == i,
            forall|j: int| 0 <= j < i ==> (#[trigger] out@[j]).hash == transactions@[j].hash
                && out@[j].type_transaction == transactions@[j].type_transaction,
        decreases transactions@.len() - i,
    {
        out.push(transaction_info(&transactions[i]));
        i += 1;
    }
    GetWalletTransactionsResponse { transactions: out }
}

} // verus!

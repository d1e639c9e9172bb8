use wallet_core::account::AptosAccount;
use wallet_core::dispatch::{dispatch_request, dispatch_request_async, plan_async_request, LedgerCall, LedgerReply};
use wallet_core::messages::{
    AsyncRequests, AsyncResponse, CreateAccountRequest, CreateWalletRequest, CreateWalletTransactionRequest,
    FundWalletRequest, Request, SignWalletTransactionRequest, SubmitWalletTransactionRequest, SyncRequests,
    SyncResponse,
};
use wallet_core::model::{CreateTransactionSigningResponse, GetAccountResponse, SignedPayload, Transaction};

fn run_async(q: AsyncRequests, ledger: impl Fn(&LedgerCall) -> LedgerReply) -> AsyncResponse {
    let request = Request { sync_requests: None, async_requests: Some(q.clone()) };
    let call = plan_async_request(&request).unwrap();
    dispatch_request_async(&q, Ok(ledger(&call))).unwrap()
}

fn create_account() -> (String, String) {
    let request = Request { sync_requests: Some(SyncRequests::CreateAccount(CreateAccountRequest {})), async_requests: None };
    match dispatch_request(request).unwrap() {
        SyncResponse::CreateAccount(resp) => (resp.keypair, resp.public_key),
        other => panic!("unexpected {:?}", other),
    }
}

const SIGNING_MESSAGE: &str = "0x00112233445566778899";

fn sign(keypair: &str) -> String {
    let q = AsyncRequests::SignWalletTransaction(SignWalletTransactionRequest {
        keypair: keypair.to_string(),
        transaction: String::from("{\"sender\":\"0xabc\"}"),
    });
    match run_async(q, |call| {
        assert!(matches!(call, LedgerCall::SigningMessage { transaction } if transaction == "{\"sender\":\"0xabc\"}"));
        LedgerReply::SigningMessage(CreateTransactionSigningResponse { message: SIGNING_MESSAGE.to_string() })
    }) {
        AsyncResponse::SignWalletTransaction(resp) => resp.signature,
        other => panic!("unexpected {:?}", other),
    }
}

fn submit(signed_payloads: Vec<SignedPayload>, expected_bitmap: &str, expected_threshold: u64) -> AsyncResponse {
    let q = AsyncRequests::SubmitWalletTransaction(SubmitWalletTransactionRequest {
        transaction: String::from("{\"sender\":\"0xabc\"}"),
        signed_payloads: signed_payloads.clone(),
    });
    run_async(q, |call| match call {
        LedgerCall::Submit { transaction, signature } => {
            assert_eq!(transaction, "{\"sender\":\"0xabc\"}");
            assert_eq!(signature.bitmap, expected_bitmap);
            assert_eq!(signature.threshold, expected_threshold);
            let keys: Vec<String> = signed_payloads.iter().map(|s| s.public_key.clone()).collect();
            let sigs: Vec<String> = signed_payloads.iter().map(|s| s.signature.clone()).collect();
            assert_eq!(signature.public_keys, keys);
            assert_eq!(signature.signatures, sigs);
            LedgerReply::Submitted(Transaction {
                type_transaction: String::from("pending_transaction"),
                hash: String::from("0x5eed"),
                sequence_number: String::from("0"),
            })
        },
        other => panic!("unexpected call {:?}", other),
    })
}

#[test]
fn create_fund_build_sign_submit_single_key() {
    let (keypair, public_key) = create_account();
    let address = AptosAccount::new(Some(keypair.clone())).unwrap().address();

    let funded = run_async(
        AsyncRequests::FundWallet(FundWalletRequest { address: address.clone(), amount: 1_000 }),
        |call| {
            assert!(matches!(call, LedgerCall::Fund { amount: 1_000, .. }));
            LedgerReply::Funded(vec![String::from("0xf00d")])
        },
    );
    assert!(matches!(funded, AsyncResponse::FundWallet(resp) if resp.transactions[0].hash == "0xf00d"));

    let built = run_async(
        AsyncRequests::CreateWalletTransaction(CreateWalletTransactionRequest {
            address_from: address.clone(),
            address_to: String::from("b0b"),
            amount: 250,
        }),
        |call| {
            assert!(matches!(call, LedgerCall::Account { address: a } if *a == address));
            LedgerReply::Account {
                account: GetAccountResponse { sequence_number: String::from("0"), authentication_key: address.clone() },
                now_secs: Some(1_700_000_000),
            }
        },
    );
    match built {
        AsyncResponse::CreateWalletTransaction(resp) => {
            assert_eq!(resp.transaction.sender, format!("0x{}", address));
            assert_eq!(resp.transaction.sequence_number, 0);
            assert_eq!(resp.transaction.expiration_timestamp_secs, 1_700_000_600);
            assert_eq!(resp.transaction.payload.arguments, vec!["0xb0b", "250"]);
        },
        other => panic!("unexpected {:?}", other),
    }

    let signature = sign(&keypair);
    let expected = AptosAccount::new(Some(keypair.clone())).unwrap().sign(&hex::decode(&SIGNING_MESSAGE[2..]).unwrap());
    assert_eq!(signature, format!("0x{}", expected));

    let submitted = submit(vec![SignedPayload { public_key, signature }], "0x80000000", 1);
    match submitted {
        AsyncResponse::SubmitWalletTransaction(resp) => {
            let t = resp.transaction.unwrap();
            assert!(!t.hash.is_empty());
            assert_eq!(t.type_transaction, "pending_transaction");
        },
        other => panic!("unexpected {:?}", other),
    }
}

#[test]
fn two_of_three_shared_wallet_signs_and_submits() {
    let members: Vec<(String, String)> = (0..3).map(|_| create_account()).collect();
    let request = Request {
        sync_requests: Some(SyncRequests::CreateWallet(CreateWalletRequest {
            public_keys: members.iter().map(|m| m.1.clone()).collect(),
        })),
        async_requests: None,
    };
    let address = match dispatch_request(request).unwrap() {
        SyncResponse::CreateWallet(resp) => resp.address,
        other => panic!("unexpected {:?}", other),
    };
    assert_eq!(address.len(), 64);

    let signers = [&members[2], &members[0]];
    let signed: Vec<SignedPayload> = signers
        .iter()
        .map(|m| SignedPayload { public_key: m.1.clone(), signature: sign(&m.0) })
        .collect();
    let submitted = submit(signed, "0xc0000000", 2);
    assert!(matches!(submitted, AsyncResponse::SubmitWalletTransaction(resp)
        if resp.transaction.as_ref().map(|t| t.hash.as_str()) == Some("0x5eed")));
}

use wallet_core::account::AptosAccount;
use wallet_core::error::AptosError;
use wallet_core::model::{GetAccountResponse, SignedPayload};
use wallet_core::transaction::{
    bitmap_set_bit, build_transaction, multi_signature_payload, sign_transaction_message, signing_bytes,
    threshold_bitmap, transfer_payload,
};

const KEYPAIR1: &str = "9d61b19deffd5a60ba844af492ec2cc44449c5697b326919703bac031cae7f60d75a980182b10ab7d54bfed3c964073a0ee172f3daa62325af021a68f707511a";
const SIGNATURE1_EMPTY: &str = "e5564300c360ac729086e2cc806e828a84877f1eb8e5d974d873e065224901555fb8821590a33bacc61e39701cf9b46bd25bf5f0595bbe24655141438e7a100b";

fn account_response(sequence_number: &str) -> GetAccountResponse {
    GetAccountResponse { sequence_number: sequence_number.to_string(), authentication_key: String::from("0x00") }
}

#[test]
fn bitmap_set_bit_sets_msb_first() {
    let mut bitmap = [0u8; 4];
    bitmap_set_bit(&mut bitmap, 0);
    assert_eq!(bitmap, [0x80, 0, 0, 0]);
    bitmap_set_bit(&mut bitmap, 7);
    assert_eq!(bitmap, [0x81, 0, 0, 0]);
    bitmap_set_bit(&mut bitmap, 8);
    assert_eq!(bitmap, [0x81, 0x80, 0, 0]);
    bitmap_set_bit(&mut bitmap, 31);
    assert_eq!(bitmap, [0x81, 0x80, 0, 0x01]);
    bitmap_set_bit(&mut bitmap, 31);
    assert_eq!(bitmap, [0x81, 0x80, 0, 0x01]);
}

#[test]
fn threshold_bitmap_values() {
    assert_eq!(threshold_bitmap(0), [0, 0, 0, 0]);
    assert_eq!(threshold_bitmap(1), [0x80, 0, 0, 0]);
    assert_eq!(threshold_bitmap(2), [0xc0, 0, 0, 0]);
    assert_eq!(threshold_bitmap(8), [0xff, 0, 0, 0]);
    assert_eq!(threshold_bitmap(9), [0xff, 0x80, 0, 0]);
    assert_eq!(threshold_bitmap(20), [0xff, 0xff, 0xf0, 0]);
    assert_eq!(threshold_bitmap(32), [0xff, 0xff, 0xff, 0xff]);
}

#[test]
fn threshold_bitmap_has_k_leading_bits() {
    for k in 0..=32usize {
        let bitmap = threshold_bitmap(k);
        let bits: u32 = bitmap.iter().map(|b| b.count_ones()).sum();
        assert_eq!(bits as usize, k);
        let word = u32::from_be_bytes(bitmap);
        assert_eq!(word.leading_ones() as usize, k);
        for (i, byte) in bitmap.iter().enumerate() {
            if i >= (k + 7) / 8 {
                assert_eq!(*byte, 0);
            }
        }
    }
}

fn signed(n: usize) -> Vec<SignedPayload> {
    (0..n)
        .map(|i| SignedPayload { public_key: format!("pk{}", i), signature: format!("sig{}", i) })
        .collect()
}

#[test]
fn multi_signature_payload_keeps_order_and_sets_bitmap() {
    let payload = multi_signature_payload(&signed(2)).unwrap();
    assert_eq!(payload.signature_type, "multi_ed25519_signature");
    assert_eq!(payload.public_keys, vec!["pk0", "pk1"]);
    assert_eq!(payload.signatures, vec!["sig0", "sig1"]);
    assert_eq!(payload.threshold, 2);
    assert_eq!(payload.bitmap, "0xc0000000");
}

#[test]
fn multi_signature_payload_limits() {
    assert_eq!(multi_signature_payload(&signed(0)).unwrap().bitmap, "0x00000000");
    assert_eq!(multi_signature_payload(&signed(32)).unwrap().bitmap, "0xffffffff");
    assert!(matches!(multi_signature_payload(&signed(33)), Err(AptosError::TooManySignatures)));
}

#[test]
fn transfer_payload_arguments() {
    let payload = transfer_payload("abc", 1500);
    assert_eq!(payload.payload_type, "script_function_payload");
    assert_eq!(payload.function, "0x1::TestCoin::transfer");
    assert!(payload.type_arguments.is_empty());
    assert_eq!(payload.arguments, vec!["0xabc", "1500"]);
}

#[test]
fn build_transaction_fills_envelope() {
    let payload = transfer_payload("def", 10);
    let t = build_transaction("abc", &account_response("7"), Some(1_000), payload).unwrap();
    assert_eq!(t.sender, "0xabc");
    assert_eq!(t.sequence_number, 7);
    assert_eq!(t.max_gas_amount, 1000);
    assert_eq!(t.gas_unit_price, 1);
    assert_eq!(t.gas_currency_code, "XUS");
    assert_eq!(t.expiration_timestamp_secs, 1_600);
    assert_eq!(t.payload.arguments, vec!["0xdef", "10"]);
}

#[test]
fn build_transaction_errors() {
    let p = || transfer_payload("def", 10);
    assert!(matches!(build_transaction("abc", &account_response("x7"), Some(1), p()), Err(AptosError::InvalidSequenceNumber)));
    assert!(matches!(build_transaction("abc", &account_response(""), None, p()), Err(AptosError::InvalidSequenceNumber)));
    assert!(matches!(build_transaction("abc", &account_response("7"), None, p()), Err(AptosError::TimeWentBackwards)));
    assert!(matches!(build_transaction("abc", &account_response("7"), Some(u64::MAX - 599), p()), Err(AptosError::TimeWentBackwards)));
    assert!(build_transaction("abc", &account_response("7"), Some(u64::MAX - 600), p()).is_ok());
}

#[test]
fn signing_bytes_strips_marker() {
    assert_eq!(signing_bytes("0x0a0b").unwrap(), vec![10, 11]);
    assert_eq!(signing_bytes("0x").unwrap(), Vec::<u8>::new());
    assert!(matches!(signing_bytes("0x0"), Err(AptosError::InvalidResponse)));
    assert!(matches!(signing_bytes("0xzz"), Err(AptosError::InvalidResponse)));
    assert!(matches!(signing_bytes("x"), Err(AptosError::InvalidResponse)));
    assert!(matches!(signing_bytes(""), Err(AptosError::InvalidResponse)));
}

#[test]
fn sign_transaction_message_signs_decoded_bytes() {
    let account = AptosAccount::new(Some(KEYPAIR1.to_string())).unwrap();
    assert_eq!(sign_transaction_message(&account, "0x").unwrap(), format!("0x{}", SIGNATURE1_EMPTY));
    let signed = sign_transaction_message(&account, "0x72").unwrap();
    assert_eq!(signed, format!("0x{}", account.sign(&[0x72])));
    assert_ne!(signed, format!("0x{}", SIGNATURE1_EMPTY));
    assert!(matches!(sign_transaction_message(&account, "0"), Err(AptosError::InvalidResponse)));
}

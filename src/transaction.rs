use vstd::prelude::*;
use crate::account::AptosAccount;
use crate::crypto::ed25519_signature_of;
use crate::encoding::{concat_str, decimal_of, decimal_string, hex_decode, hex_decoded, hex_encode, hex_of, parsed_u64, parse_u64};
use crate::error::AptosError;
use crate::model::{GetAccountResponse, SignedPayload};

verus! {

/// Bytes of the signer bitmap of a threshold signature.
pub const BITMAP_NUM_OF_BYTES: usize = 4;

/// Seconds between building a transaction and its expiration.
pub const EXPIRATION_WINDOW_SECS: u64 = 600;

/// Gas limit of every transaction built here.
pub const MAX_GAS_AMOUNT: u64 = 1000;

/// Gas price of every transaction built here.
pub const GAS_UNIT_PRICE: u64 = 1;

/// Whether bit `i` of a bitmap is set: bit `i` is in byte `i / 8`, counted from
/// the most significant bit.
pub open spec fn bitmap_bit(bitmap: Seq<u8>, i: int) -> bool {
    bitmap[i / 8] & (128u8 >> ((i % 8) as u8)) != 0
}

/// Whether a bitmap has exactly bits `0..k` set.
pub open spec fn is_threshold_bitmap(bitmap: Seq<u8>, k: int) -> bool {
    &&& bitmap.len() == BITMAP_NUM_OF_BYTES
    &&& forall|i: int| 0 <= i < 8 * BITMAP_NUM_OF_BYTES ==> (#[trigger] bitmap_bit(bitmap, i) <==> i < k)
}

proof fn lemma_or_bit(x: u8, p: u8, q: u8)
    requires
        p < 8,
        q < 8,
    ensures
        ((x | (128u8 >> p)) & (128u8 >> q) != 0) <==> ((x & (128u8 >> q) != 0) || p == q),
{
    assert(((x | (128u8 >> p)) & (128u8 >> q) != 0) <==> ((x & (128u8 >> q) != 0) || p == q))
        by (bit_vector)
        requires
            p < 8,
            q < 8,
    ;
}

/// Sets bit `index` of the bitmap, leaving the others as they were.
pub fn bitmap_set_bit(input: &mut [u8; 4], index: usize)
    requires
        index < 8 * BITMAP_NUM_OF_BYTES,
    ensures
        forall|i: int| 0 <= i < 8 * BITMAP_NUM_OF_BYTES ==> (#[trigger] bitmap_bit(final(input)@, i)
            <==> (bitmap_bit(old(input)@, i) || i == index)),
{
    let bucket = index / 8;
    let bucket_pos = index - (bucket * 8);
    let v = input[bucket] | (128u8 >> (bucket_pos as u8));
    input[bucket] = v;
    assert forall|i: int| 0 <= i < 8 * BITMAP_NUM_OF_BYTES implies (#[trigger] bitmap_bit(input@, i)
        <==> (bitmap_bit(old(input)@, i) || i == index)) by {
        if i / 8 == bucket as int {
            lemma_or_bit(old(input)@[bucket as int], bucket_pos as u8, (i % 8) as u8);
        }
    }
}

/// The bitmap with bits `0..k` set, for `k` signatures: bit `i` marks the
/// signature at array position `i`, whatever the signer's place in the wallet.
pub fn threshold_bitmap(k: usize) -> (r: [u8; 4])
    requires
        k <= 8 * BITMAP_NUM_OF_BYTES,
    ensures
        is_threshold_bitmap(r@, k as int),
{
    let mut bitmap = [0u8; 4];
    assert forall|i: int| 0 <= i < 8 * BITMAP_NUM_OF_BYTES implies !#[trigger] bitmap_bit(bitmap@, i) by {
        let q = (i % 8) as u8;
        assert(0u8 & (128u8 >> q) == 0) by (bit_vector);
    }
    let mut i: usize = 0;
    while i < k
        invariant
            i <= k <= 8 * BITMAP_NUM_OF_BYTES,
            bitmap@.len() == BITMAP_NUM_OF_BYTES,
            forall|j: int| 0 <= j < 8 * BITMAP_NUM_OF_BYTES ==> (#[trigger] bitmap_bit(bitmap@, j) <==> j < i),
        decreases k - i,
    {
        bitmap_set_bit(&mut bitmap, i);
        i += 1;
    }
    bitmap
}

/// The bits set in a threshold bitmap for `k` signatures are exactly the
/// positions `0..k`, so there are `k` of them, and every byte from
/// `ceil(k / 8)` on is zero.
pub proof fn lemma_threshold_bitmap_shape(bitmap: Seq<u8>, k: int)
    requires
        0 <= k <= 8 * BITMAP_NUM_OF_BYTES,
        is_threshold_bitmap(bitmap, k),
    ensures
        Set::new(|i: int| 0 <= i < 8 * BITMAP_NUM_OF_BYTES && bitmap_bit(bitmap, i)) == vstd::set_lib::set_int_range(0, k),
        Set::new(|i: int| 0 <= i < 8 * BITMAP_NUM_OF_BYTES && bitmap_bit(bitmap, i)).len() == k,
        forall|b: int| (k + 7) / 8 <= b < BITMAP_NUM_OF_BYTES ==> #[trigger] bitmap[b] == 0,
{
    let s = Set::new(|i: int| 0 <= i < 8 * BITMAP_NUM_OF_BYTES && bitmap_bit(bitmap, i));
    assert(s =~= vstd::set_lib::set_int_range(0, k));
    vstd::set_lib::lemma_int_range(0, k);
    assert forall|b: int| (k + 7) / 8 <= b < BITMAP_NUM_OF_BYTES implies #[trigger] bitmap[b] == 0 by {
        let x = bitmap[b];
        assert(!bitmap_bit(bitmap, 8 * b));
        assert(!bitmap_bit(bitmap, 8 * b + 1));
        assert(!bitmap_bit(bitmap, 8 * b + 2));
        assert(!bitmap_bit(bitmap, 8 * b + 3));
        assert(!bitmap_bit(bitmap, 8 * b + 4));
        assert(!bitmap_bit(bitmap, 8 * b + 5));
        assert(!bitmap_bit(bitmap, 8 * b + 6));
        assert(!bitmap_bit(bitmap, 8 * b + 7));
        assert((x & (128u8 >> 0u8) == 0 && x & (128u8 >> 1u8) == 0 && x & (128u8 >> 2u8) == 0
            && x & (128u8 >> 3u8) == 0 && x & (128u8 >> 4u8) == 0 && x & (128u8 >> 5u8) == 0
            && x & (128u8 >> 6u8) == 0 && x & (128u8 >> 7u8) == 0) ==> x == 0) by (bit_vector);
    }
}

/// Two bitmaps with exactly bits `0..k` set are the same bytes.
proof fn lemma_threshold_bitmap_unique(a: Seq<u8>, b: Seq<u8>, k: int)
    requires
        is_threshold_bitmap(a, k),
        is_threshold_bitmap(b, k),
    ensures
        a == b,
{
    assert forall|j: int| 0 <= j < BITMAP_NUM_OF_BYTES implies #[trigger] a[j] == b[j] by {
        let x = a[j];
        let y = b[j];
        assert(bitmap_bit(a, 8 * j) == bitmap_bit(b, 8 * j));
        assert(bitmap_bit(a, 8 * j + 1) == bitmap_bit(b, 8 * j + 1));
        assert(bitmap_bit(a, 8 * j + 2) == bitmap_bit(b, 8 * j + 2));
        assert(bitmap_bit(a, 8 * j + 3) == bitmap_bit(b, 8 * j + 3));
        assert(bitmap_bit(a, 8 * j + 4) == bitmap_bit(b, 8 * j + 4));
        assert(bitmap_bit(a, 8 * j + 5) == bitmap_bit(b, 8 * j + 5));
        assert(bitmap_bit(a, 8 * j + 6) == bitmap_bit(b, 8 * j + 6));
        assert(bitmap_bit(a, 8 * j + 7) == bitmap_bit(b, 8 * j + 7));
        assert(((x & (128u8 >> 0u8) == 0) == (y & (128u8 >> 0u8) == 0)
            && (x & (128u8 >> 1u8) == 0) == (y & (128u8 >> 1u8) == 0)
            && (x & (128u8 >> 2u8) == 0) == (y & (128u8 >> 2u8) == 0)
            && (x & (128u8 >> 3u8) == 0) == (y & (128u8 >> 3u8) == 0)
            && (x & (128u8 >> 4u8) == 0) == (y & (128u8 >> 4u8) == 0)
            && (x & (128u8 >> 5u8) == 0) == (y & (128u8 >> 5u8) == 0)
            && (x & (128u8 >> 6u8) == 0) == (y & (128u8 >> 6u8) == 0)
            && (x & (128u8 >> 7u8) == 0) == (y & (128u8 >> 7u8) == 0)) ==> x == y) by (bit_vector);
    }
    assert(a =~= b);
}

/// The bytes of the bitmap with exactly bits `0..k` set.
pub open spec fn threshold_bitmap_bytes(k: int) -> Seq<u8> {
    choose|b: Seq<u8>| is_threshold_bitmap(b, k)
}

/// The payload of a call to a ledger script function.
#[derive(Debug, Clone)]
pub struct ScriptFunctionPayload {
    pub payload_type: String,
    pub function: String,
    pub type_arguments: Vec<String>,
    pub arguments: Vec<String>,
}

/// An unsigned transaction.
#[derive(Debug, Clone)]
pub struct TransactionEnvelope {
    pub sender: String,
    pub sequence_number: u64,
    pub max_gas_amount: u64,
    pub gas_unit_price: u64,
    pub gas_currency_code: String,
    pub expiration_timestamp_secs: u64,
    pub payload: ScriptFunctionPayload,
}

/// The signature of a threshold wallet over a transaction.
#[derive(Debug, Clone)]
pub struct MultiSignaturePayload {
    pub signature_type: String,
    pub public_keys: Vec<String>,
    pub signatures: Vec<String>,
    pub threshold: u64,
    pub bitmap: String,
}

/// The payload that transfers `amount` coins to `address_to` (given without
/// its `0x` marker).
pub fn transfer_payload(address_to: &str, amount: u64) -> (r: ScriptFunctionPayload)
    ensures
        r.payload_type@ == "script_function_payload"@,
        r.function@ == "0x1::TestCoin::transfer"@,
        r.type_arguments@.len() == 0,
        r.arguments@.len() == 2,
        r.arguments@[0]@ == "0x"@ + address_to@,
        r.arguments@[1]@ == decimal_of(amount as nat),
{
    let mut arguments: Vec<String> = Vec::new();
    arguments.push(concat_str("0x", address_to));
    arguments.push(decimal_string(amount));
    ScriptFunctionPayload {
        payload_type: String::from_str("script_function_payload"),
        function: String::from_str("0x1::TestCoin::transfer"),
        type_arguments: Vec::new(),
        arguments,
    }
}

/// Builds the unsigned transaction that `sender_address` (given without its
/// `0x` marker) sends with `payload`, from what the ledger reports of the
/// sender's account and the wall clock in seconds since the epoch (`None` when
/// it reads before the epoch). It expires `EXPIRATION_WINDOW_SECS` after `now_secs`.
pub fn build_transaction(
    sender_address: &str,
    account: &GetAccountResponse,
    now_secs: Option<u64>,
    payload: ScriptFunctionPayload,
) -> (r: Result<TransactionEnvelope, AptosError>)
    ensures
        r is Ok <==> (parsed_u64(account.sequence_number@) is Some && now_secs is Some
            && now_secs->0 + EXPIRATION_WINDOW_SECS <= u64::MAX),
        parsed_u64(account.sequence_number@) is None ==> r matches Err(AptosError::InvalidSequenceNumber),
        parsed_u64(account.sequence_number@) is Some && !(r is Ok) ==> r matches Err(AptosError::TimeWentBackwards),
        r matches Ok(t) ==> {
            &&& t.sender@ == "0x"@ + sender_address@
            &&& t.sequence_number == parsed_u64(account.sequence_number@)->0
            &&& t.max_gas_amount == MAX_GAS_AMOUNT
            &&& t.gas_unit_price == GAS_UNIT_PRICE
            &&& t.gas_currency_code@ == "XUS"@
            &&& t.expiration_timestamp_secs == now_secs->0 + EXPIRATION_WINDOW_SECS
            &&& t.payload == payload
        },
{
    let sequence_number = match parse_u64(account.sequence_number.as_str()) {
        Some(n) => n,
        None => return Err(AptosError::InvalidSequenceNumber),
    };
    let now = match now_secs {
        Some(t) => t,
        None => return Err(AptosError::TimeWentBackwards),
    };
    if now > u64::MAX - EXPIRATION_WINDOW_SECS {
        return Err(AptosError::TimeWentBackwards);
    }
    Ok(TransactionEnvelope {
        sender: concat_str("0x", sender_address),
        sequence_number,
        max_gas_amount: MAX_GAS_AMOUNT,
        gas_unit_price: GAS_UNIT_PRICE,
        gas_currency_code: String::from_str("XUS"),
        expiration_timestamp_secs: now + EXPIRATION_WINDOW_SECS,
        payload,
    })
}

/// The bytes to sign that a signing message stands for: the message without its
/// two-character marker, hex decoded.
pub open spec fn signing_message_bytes(message: Seq<char>) -> Option<Seq<u8>> {
    if message.len() < 2 {
        None
    } else {
        hex_decoded(message.subrange(2, message.len() as int))
    }
}

/// The bytes to sign of a signing message; a message that is not a marker
/// followed by hex digits is an invalid response.
pub fn signing_bytes(message: &str) -> (r: Result<Vec<u8>, AptosError>)
    ensures
        signing_message_bytes(message@) matches Some(b) ==> r matches Ok(v) && v@ == b,
        signing_message_bytes(message@) is None ==> r matches Err(AptosError::InvalidResponse),
{
    let n = message.unicode_len();
    if n < 2 {
        return Err(AptosError::InvalidResponse);
    }
    match hex_decode(message.substring_char(2, n)) {
        Some(b) => Ok(b),
        None => Err(AptosError::InvalidResponse),
    }
}

/// Signs a signing message with one account: `0x` and the hex-encoded signature
/// of the bytes it stands for.
pub fn sign_transaction_message(account: &AptosAccount, message: &str) -> (r: Result<String, AptosError>)
    requires
        account.wf(),
    ensures
        signing_message_bytes(message@) matches Some(b) ==> r matches Ok(s)
            && s@ == "0x"@ + hex_of(ed25519_signature_of(account.secret_key(), b)),
        signing_message_bytes(message@) is None ==> r matches Err(AptosError::InvalidResponse),
{
    let to_sign = signing_bytes(message)?;
    let signature = account.sign(to_sign.as_slice());
    Ok(concat_str("0x", signature.as_str()))
}

/// Whether a threshold signature is made of the given members' signatures, in
/// the order given, with bit `i` of its bitmap marking the signature at position `i`.
pub open spec fn is_multi_signature_of(p: MultiSignaturePayload, signed: Seq<SignedPayload>) -> bool {
    &&& p.signature_type@ == "multi_ed25519_signature"@
    &&& p.public_keys@.len() == signed.len()
    &&& p.signatures@.len() == signed.len()
    &&& forall|i: int| 0 <= i < signed.len() ==> p.public_keys@[i] == (#[trigger] signed[i]).public_key
        && p.signatures@[i] == signed[i].signature
    &&& p.threshold == signed.len()
    &&& signed.len() <= 8 * BITMAP_NUM_OF_BYTES
    &&& is_threshold_bitmap(threshold_bitmap_bytes(signed.len() as int), signed.len() as int)
    &&& p.bitmap@ == "0x"@ + hex_of(threshold_bitmap_bytes(signed.len() as int))
}

/// The bitmap of a threshold signature made of `k` signatures is the hex
/// encoding, behind `0x`, of four bytes whose set bits are exactly positions
/// `0..k` (the signatures' array positions, most significant bit first): `k` of
/// them, with every byte from `ceil(k / 8)` on zero. Its threshold is `k`, and
/// its keys and signatures are the supplied ones in the supplied order.
pub proof fn lemma_multi_signature_bitmap(p: MultiSignaturePayload, signed: Seq<SignedPayload>)
    requires
        is_multi_signature_of(p, signed),
    ensures
        ({
            let b = threshold_bitmap_bytes(signed.len() as int);
            let k = signed.len() as int;
            &&& p.bitmap@ == "0x"@ + hex_of(b)
            &&& b.len() == BITMAP_NUM_OF_BYTES
            &&& Set::new(|i: int| 0 <= i < 8 * BITMAP_NUM_OF_BYTES && bitmap_bit(b, i)) == vstd::set_lib::set_int_range(0, k)
            &&& Set::new(|i: int| 0 <= i < 8 * BITMAP_NUM_OF_BYTES && bitmap_bit(b, i)).len() == k
            &&& forall|j: int| (k + 7) / 8 <= j < BITMAP_NUM_OF_BYTES ==> #[trigger] b[j] == 0
        }),
        p.threshold == signed.len(),
        forall|i: int| 0 <= i < signed.len() ==> p.public_keys@[i] == (#[trigger] signed[i]).public_key
            && p.signatures@[i] == signed[i].signature,
{
    let k = signed.len() as int;
    let b = threshold_bitmap_bytes(k);
    lemma_threshold_bitmap_shape(b, k);
}

/// The signature of a threshold wallet made of the members' signatures in the
/// order given: bit `i` of the bitmap marks the signature at position `i`.
pub fn multi_signature_payload(signed_payloads: &Vec<SignedPayload>) -> (r: Result<MultiSignaturePayload, AptosError>)
    ensures
        r is Ok <==> signed_payloads@.len() <= 8 * BITMAP_NUM_OF_BYTES,
        r matches Err(e) ==> e is TooManySignatures,
        r matches Ok(p) ==> is_multi_signature_of(p, signed_payloads@),
{
    let n = signed_payloads.len();
    if n > 8 * BITMAP_NUM_OF_BYTES {
        return Err(AptosError::TooManySignatures);
    }
    let mut public_keys: Vec<String> = Vec::new();
    let mut signatures: Vec<String> = Vec::new();
    let mut i: usize = 0;
    while i < n
        invariant
            0 <= i <= n,
            n == signed_payloads@.len(),
            public_keys@.len() == i,
            signatures@.len() == i,
            forall|j: int| 0 <= j < i ==> public_keys@[j] == (#[trigger] signed_payloads@[j]).public_key
                && signatures@[j] == signed_payloads@[j].signature,
        decreases n - i,
    {
        public_keys.push(signed_payloads[i].public_key.clone());
        signatures.push(signed_payloads[i].signature.clone());
        i += 1;
    }
    let bitmap = threshold_bitmap(n);
    proof {
        lemma_threshold_bitmap_unique(bitmap@, threshold_bitmap_bytes(n as int), n as int);
    }
    let bitmap_hex = hex_encode(bitmap.as_slice());
    Ok(MultiSignaturePayload {
        signature_type: String::from_str("multi_ed25519_signature"),
        public_keys,
        signatures,
        threshold: n as u64,
        bitmap: concat_str("0x", bitmap_hex.as_str()),
    })
}

} // verus!

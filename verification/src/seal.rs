use vstd::prelude::*;

use crate::crypto::base64_encode;
use crate::crypto::base64_of;
use crate::crypto::hmac_sha256;
use crate::crypto::hmac_sha256_of;
use crate::digits::push_dec_i32;
use crate::digits::push_dec_u64;
use crate::digits::spec_dec_i32;
use crate::digits::spec_dec_nat;

verus! {

/// The canonical byte payload bound by a seal: the five signed fields in
/// fixed order, joined by `'|'`, strings as their UTF-8 bytes and numbers in
/// decimal.
pub open spec fn spec_seal_payload(
    mask: i32,
    context: Seq<char>,
    timestamp: u64,
    path: Seq<char>,
    nonce: Seq<char>,
) -> Seq<u8> {
    spec_dec_i32(mask) + seq![124u8] + vstd::utf8::encode_utf8(context) + seq![124u8]
        + spec_dec_nat(timestamp as nat) + seq![124u8] + vstd::utf8::encode_utf8(path)
        + seq![124u8] + vstd::utf8::encode_utf8(nonce)
}

/// The seal of a request: the base64 rendering of the HMAC-SHA256 digest of
/// the canonical payload under the instance secret.
pub open spec fn spec_seal(
    secret: Seq<u8>,
    mask: i32,
    context: Seq<char>,
    timestamp: u64,
    path: Seq<char>,
    nonce: Seq<char>,
) -> Seq<char> {
    base64_of(hmac_sha256_of(secret, spec_seal_payload(mask, context, timestamp, path, nonce)))
}

/// Builds the canonical payload bytes for the given signed fields.
pub fn build_seal_payload(
    mask: i32,
    context: &str,
    timestamp: u64,
    path: &str,
    nonce: &str,
) -> (r: Vec<u8>)
    ensures
        r@ == spec_seal_payload(mask, context@, timestamp, path@, nonce@),
{
    let mut out: Vec<u8> = Vec::new();
    push_dec_i32(&mut out, mask);
    out.push(124u8);
    out.extend_from_slice(context.as_bytes());
    out.push(124u8);
    push_dec_u64(&mut out, timestamp);
    out.push(124u8);
    out.extend_from_slice(path.as_bytes());
    out.push(124u8);
    out.extend_from_slice(nonce.as_bytes());
    assert(out@ =~= spec_seal_payload(mask, context@, timestamp, path@, nonce@));
    out
}

/// Computes the seal text for the given secret and signed fields.
pub fn seal_text(
    secret: &[u8],
    mask: i32,
    context: &str,
    timestamp: u64,
    path: &str,
    nonce: &str,
) -> (r: String)
    ensures
        r@ == spec_seal(secret@, mask, context@, timestamp, path@, nonce@),
{
    let payload = build_seal_payload(mask, context, timestamp, path, nonce);
    let digest = hmac_sha256(secret, payload.as_slice());
    base64_encode(digest.as_slice())
}

/// Sealing is reproducible: the seal is a pure function of the secret and the
/// five signed fields, so identical inputs always yield the identical seal.
pub proof fn lemma_seal_deterministic(
    secret1: Seq<u8>,
    secret2: Seq<u8>,
    mask1: i32,
    mask2: i32,
    context1: Seq<char>,
    context2: Seq<char>,
    timestamp1: u64,
    timestamp2: u64,
    path1: Seq<char>,
    path2: Seq<char>,
    nonce1: Seq<char>,
    nonce2: Seq<char>,
)
    requires
        secret1 == secret2,
        mask1 == mask2,
        context1 == context2,
        timestamp1 == timestamp2,
        path1 == path2,
        nonce1 == nonce2,
    ensures
        spec_seal(secret1, mask1, context1, timestamp1, path1, nonce1) == spec_seal(
            secret2,
            mask2,
            context2,
            timestamp2,
            path2,
            nonce2,
        ),
{
}

} // verus!

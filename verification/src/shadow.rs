use vstd::prelude::*;

use crate::crypto::hex_encode_lower;
use crate::crypto::hmac_sha256;
use crate::crypto::hmac_sha256_of;
use crate::crypto::spec_hex;

verus! {

/// The byte seed a decoy is derived from: a fixed tag and the request
/// coordinates, joined by `'|'`, strings as their UTF-8 bytes.
pub open spec fn spec_shadow_seed(context: Seq<char>, path: Seq<char>, nonce: Seq<char>) -> Seq<
    u8,
> {
    vstd::utf8::encode_utf8("SHADOW|"@) + vstd::utf8::encode_utf8(path) + seq![124u8]
        + vstd::utf8::encode_utf8(context) + seq![124u8] + vstd::utf8::encode_utf8(nonce)
}

/// The decoy payload: a vault-identifier line whose hexadecimal core is the
/// first 8 bytes of the HMAC-SHA256 digest of the seed under the secret. It
/// is a pure function of (secret, context, path, nonce) and of nothing else,
/// so in particular it carries nothing of the real data.
pub open spec fn spec_shadow(
    secret: Seq<u8>,
    context: Seq<char>,
    path: Seq<char>,
    nonce: Seq<char>,
) -> Seq<char> {
    "SHADOW_VAULT_ID:"@ + spec_hex(
        hmac_sha256_of(secret, spec_shadow_seed(context, path, nonce)).take(8),
    ) + ":ENCRYPTED"@
}

/// Builds the decoy payload text for the given secret and coordinates.
pub fn shadow_text(secret: &[u8], context: &str, path: &str, nonce: &str) -> (r: String)
    ensures
        r@ == spec_shadow(secret@, context@, path@, nonce@),
{
    let mut seed: Vec<u8> = Vec::new();
    seed.extend_from_slice("SHADOW|".as_bytes());
    seed.extend_from_slice(path.as_bytes());
    seed.push(124u8);
    seed.extend_from_slice(context.as_bytes());
    seed.push(124u8);
    seed.extend_from_slice(nonce.as_bytes());
    assert(seed@ =~= spec_shadow_seed(context@, path@, nonce@));
    let mut digest = hmac_sha256(secret, seed.as_slice());
    digest.truncate(8);
    assert(digest@ =~= hmac_sha256_of(secret@, spec_shadow_seed(context@, path@, nonce@)).take(8));
    let core = hex_encode_lower(digest.as_slice());
    let mut out = "SHADOW_VAULT_ID:".to_owned();
    out.append(core.as_str());
    out.append(":ENCRYPTED");
    assert(out@ =~= spec_shadow(secret@, context@, path@, nonce@));
    out
}

/// Decoy synthesis is reproducible: the payload is a pure function of the
/// secret and the request coordinates, so identical coordinates always yield
/// the identical decoy — and the real data plays no part in it.
pub proof fn lemma_shadow_deterministic(
    secret1: Seq<u8>,
    secret2: Seq<u8>,
    context1: Seq<char>,
    context2: Seq<char>,
    path1: Seq<char>,
    path2: Seq<char>,
    nonce1: Seq<char>,
    nonce2: Seq<char>,
)
    requires
        secret1 == secret2,
        context1 == context2,
        path1 == path2,
        nonce1 == nonce2,
    ensures
        spec_shadow(secret1, context1, path1, nonce1) == spec_shadow(
            secret2,
            context2,
            path2,
            nonce2,
        ),
{
}

} // verus!

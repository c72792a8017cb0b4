mod crypto;
mod digits;
mod ledger;
mod mask;
mod sanitize;
mod seal;
mod shadow;
mod validator;

pub use crypto::base64_of;
pub use crypto::hmac_sha256_of;
pub use crypto::spec_hex;
pub use digits::spec_dec_i32;
pub use digits::spec_dec_nat;
pub use ledger::sat_inc;
pub use ledger::FailureLedger;
pub use ledger::NonceLedger;
pub use ledger::lemma_first_use_unique;
pub use mask::has_adjacent_ones;
pub use mask::is_valid_mask_value;
pub use mask::lemma_valid_mask_no_adjacent_ones;
pub use mask::spec_valid_mask;
pub use sanitize::lemma_sanitize_idempotent;
pub use sanitize::numeric_char;
pub use sanitize::sanitize_text;
pub use sanitize::spec_sanitize;
pub use seal::lemma_seal_deterministic;
pub use seal::spec_seal;
pub use seal::spec_seal_payload;
pub use shadow::lemma_shadow_deterministic;
pub use shadow::spec_shadow;
pub use shadow::spec_shadow_seed;
pub use validator::lemma_accept_prime;
pub use validator::lemma_failure_escalation;
pub use validator::lemma_replay_never_prime;
pub use validator::lemma_stale_yields_mirror;
pub use validator::spec_fresh;
pub use validator::EntangledLogicOmega;
pub use validator::Reality;
pub use validator::SecureRequest;

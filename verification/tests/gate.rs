use deception_gate::{EntangledLogicOmega, Reality, SecureRequest};
use std::time::{SystemTime, UNIX_EPOCH};

fn now_ms() -> u64 {
    SystemTime::now().duration_since(UNIX_EPOCH).unwrap().as_millis() as u64
}

fn request(mask: i32, seal: &str, context: &str, timestamp: u64, path: &str, nonce: &str) -> SecureRequest {
    SecureRequest {
        mask,
        seal: seal.to_string(),
        context: context.to_string(),
        timestamp,
        path: path.to_string(),
        nonce: nonce.to_string(),
    }
}

#[test]
fn test_zeckendorf_validation() {
    let elp = EntangledLogicOmega::new(b"secret".to_vec(), 300000, 5);

    // 1001 (9) -> Valid (non-adjacent)
    assert!(elp.is_valid_zeckendorf_mask(0b1001));

    // 10100 (20) -> Valid
    assert!(elp.is_valid_zeckendorf_mask(0b10100));

    // 11 (3) -> Invalid (adjacent)
    assert!(!elp.is_valid_zeckendorf_mask(0b11));

    // 110 (6) -> Invalid
    assert!(!elp.is_valid_zeckendorf_mask(0b110));
}

#[test]
fn test_prime_reality_flow() {
    let mut elp = EntangledLogicOmega::new(b"secret".to_vec(), 300000, 5);
    let now = now_ms();

    let mut req = request(0b1001, "", "test", now, "/api/test", "nonce1");
    req.seal = elp.compute_seal(&req);

    let (res, reality) = elp.process_request(req, "REAL_DATA", "fp1");
    assert_eq!(reality, Reality::Prime);
    assert!(res.contains("PRIME_REALITY"));
}

#[test]
fn test_shadow_reality_on_invalid_mask() {
    let mut elp = EntangledLogicOmega::new(b"secret".to_vec(), 300000, 5);
    let now = now_ms();

    let req = request(0b11, "ignored", "test", now, "/api/test", "nonce2");

    let (_, reality) = elp.process_request(req, "REAL_DATA", "fp1");
    assert_eq!(reality, Reality::Shadow);
}

#[test]
fn test_replay_protection() {
    let mut elp = EntangledLogicOmega::new(b"secret".to_vec(), 300000, 5);
    let now = now_ms();

    let mut req = request(0b1001, "", "test", now, "/api/test", "replay_nonce");
    req.seal = elp.compute_seal(&req);

    // First call
    let (_, reality1) = elp.process_request(
        SecureRequest {
            seal: req.seal.clone(),
            context: req.context.clone(),
            nonce: req.nonce.clone(),
            path: req.path.clone(),
            timestamp: req.timestamp,
            mask: req.mask,
        },
        "DATA",
        "fp1",
    );
    assert_eq!(reality1, Reality::Prime);

    // Second call (Replay)
    let (_, reality2) = elp.process_request(req, "DATA", "fp1");
    assert_eq!(reality2, Reality::Shadow);
}

#[test]
fn negative_mask_is_invalid() {
    let elp = EntangledLogicOmega::new(b"secret".to_vec(), 300000, 5);
    assert!(!elp.is_valid_zeckendorf_mask(-1));
    assert!(!elp.is_valid_zeckendorf_mask(i32::MIN));
    assert!(elp.is_valid_zeckendorf_mask(0));
    assert!(elp.is_valid_zeckendorf_mask(1));
    assert!(!elp.is_valid_zeckendorf_mask(i32::MAX));
}

#[test]
fn seal_is_deterministic() {
    let elp = EntangledLogicOmega::new(b"secret".to_vec(), 300000, 5);
    let req = request(9, "", "ctx", 1234, "/p", "n1");
    let s1 = elp.compute_seal(&req);
    let s2 = elp.compute_seal(&req);
    assert_eq!(s1, s2);

    // HMAC-SHA256 yields 32 bytes; standard base64 renders them as 44
    // characters with one '=' of padding.
    assert_eq!(s1.len(), 44);
    assert!(s1.ends_with('='));
    assert!(s1.chars().all(|c| c.is_ascii_alphanumeric() || c == '+' || c == '/' || c == '='));
}

#[test]
fn seal_depends_on_every_signed_field() {
    let elp = EntangledLogicOmega::new(b"secret".to_vec(), 300000, 5);
    let base = request(9, "", "ctx", 1234, "/p", "n1");
    let seal = elp.compute_seal(&base);

    let variants = [
        request(20, "", "ctx", 1234, "/p", "n1"),
        request(9, "", "ctx2", 1234, "/p", "n1"),
        request(9, "", "ctx", 1235, "/p", "n1"),
        request(9, "", "ctx", 1234, "/q", "n1"),
        request(9, "", "ctx", 1234, "/p", "n2"),
    ];
    for variant in variants {
        assert_ne!(elp.compute_seal(&variant), seal);
    }

    let other = EntangledLogicOmega::new(b"other_secret".to_vec(), 300000, 5);
    assert_ne!(other.compute_seal(&base), seal);
}

#[test]
fn tampering_any_signed_field_fails_verification() {
    let now = now_ms();
    let make = |mask: i32, context: &str, timestamp: u64, path: &str, nonce: &str| {
        request(mask, "", context, timestamp, path, nonce)
    };

    let base = make(0b1001, "ctx", now, "/p", "base_nonce");
    let tampered = [
        make(0b10100, "ctx", now, "/p", "base_nonce"),
        make(0b1001, "ctx2", now, "/p", "base_nonce"),
        make(0b1001, "ctx", now - 7, "/p", "base_nonce"),
        make(0b1001, "ctx", now, "/q", "base_nonce"),
        make(0b1001, "ctx", now, "/p", "other_nonce"),
    ];
    for mut req in tampered {
        // A fresh gate per case so failure counts do not accumulate.
        let mut elp = EntangledLogicOmega::new(b"secret".to_vec(), 300000, 5);
        let seal_of_base = elp.compute_seal(&base);
        req.seal = seal_of_base;
        let (_, reality) = elp.process_request(req, "REAL_DATA", "fp1");
        assert_eq!(reality, Reality::Mirror);
    }
}

#[test]
fn stale_timestamp_yields_mirror_without_seal() {
    let mut elp = EntangledLogicOmega::new(b"secret".to_vec(), 300000, 5);
    let now = now_ms();

    // Far older than max_age_ms, and the seal is nonsense: freshness trips
    // first, so the answer is Mirror, not a seal-failure escalation.
    let req = request(0b1001, "garbage", "test", now - 600000, "/api/test", "stale_nonce");
    let (payload, reality) = elp.process_request(req, "acct 123", "fp1");
    assert_eq!(reality, Reality::Mirror);
    assert_eq!(payload, "acct ***");
}

#[test]
fn future_timestamp_yields_mirror() {
    let mut elp = EntangledLogicOmega::new(b"secret".to_vec(), 300000, 5);
    let now = now_ms();

    let req = request(0b1001, "garbage", "test", now + 600000, "/api/test", "future_nonce");
    let (_, reality) = elp.process_request(req, "REAL_DATA", "fp1");
    assert_eq!(reality, Reality::Mirror);
}

#[test]
fn failure_budget_escalates_to_shadow() {
    let mut elp = EntangledLogicOmega::new(b"secret".to_vec(), 300000, 2);
    let now = now_ms();

    // Failures one and two stay Mirror; the third from the same fingerprint
    // exceeds the budget of two and turns Shadow.
    for attempt in 0..3u64 {
        let req = request(0b1001, "wrong", "test", now, "/api/test", &format!("fn{}", attempt));
        let (_, reality) = elp.process_request(req, "DATA", "fp1");
        if attempt < 2 {
            assert_eq!(reality, Reality::Mirror);
        } else {
            assert_eq!(reality, Reality::Shadow);
        }
    }

    // A different fingerprint starts with its own clean budget.
    let req = request(0b1001, "wrong", "test", now, "/api/test", "fn_other");
    let (_, reality) = elp.process_request(req, "DATA", "fp2");
    assert_eq!(reality, Reality::Mirror);
}

#[test]
fn shadow_payload_is_deterministic_and_decoupled() {
    let mut elp = EntangledLogicOmega::new(b"secret".to_vec(), 300000, 5);

    let a = elp.generate_shadow("ctx", "/p", "n1");
    let b = elp.generate_shadow("ctx", "/p", "n1");
    assert_eq!(a, b);

    assert_ne!(elp.generate_shadow("ctx2", "/p", "n1"), a);
    assert_ne!(elp.generate_shadow("ctx", "/q", "n1"), a);
    assert_ne!(elp.generate_shadow("ctx", "/p", "n2"), a);

    let mut other = EntangledLogicOmega::new(b"other_secret".to_vec(), 300000, 5);
    assert_ne!(other.generate_shadow("ctx", "/p", "n1"), a);

    // Same coordinates through the full pipeline: the decoy for an invalid
    // mask is the same decoy, and carries nothing of the real data.
    let req = request(0b11, "ignored", "ctx", now_ms(), "/p", "n1");
    let (payload, reality) = elp.process_request(req, "REAL_DATA", "fp1");
    assert_eq!(reality, Reality::Shadow);
    assert_eq!(payload, a);
    assert!(!payload.contains("REAL_DATA"));
}

#[test]
fn shadow_payload_shape() {
    let elp = EntangledLogicOmega::new(b"secret".to_vec(), 300000, 5);
    let payload = elp.generate_shadow("ctx", "/p", "n1");
    assert!(payload.starts_with("SHADOW_VAULT_ID:"));
    assert!(payload.ends_with(":ENCRYPTED"));
    let core = &payload["SHADOW_VAULT_ID:".len()..payload.len() - ":ENCRYPTED".len()];
    assert_eq!(core.len(), 16);
    assert!(core.chars().all(|c| c.is_ascii_hexdigit() && !c.is_ascii_uppercase()));
}

#[test]
fn sanitize_redacts_digits_and_is_idempotent() {
    let elp = EntangledLogicOmega::new(b"secret".to_vec(), 300000, 5);

    assert_eq!(elp.sanitize("abc"), "abc");
    assert_eq!(elp.sanitize("CPF 123.456.789-00"), "CPF ***.***.***-**");
    assert_eq!(elp.sanitize(""), "");

    let once = elp.sanitize("balance: 9876, owner: ana");
    assert_eq!(once, "balance: ****, owner: ana");
    let twice = elp.sanitize(&once);
    assert_eq!(twice, once);
    assert_eq!(once.chars().count(), "balance: 9876, owner: ana".chars().count());
}

#[test]
fn nonce_ledger_admits_one_first_use() {
    let mut ledger = deception_gate::NonceLedger::new();
    let nonce = "n1".to_string();
    assert!(ledger.check_and_record(&nonce, 1));
    assert!(!ledger.check_and_record(&nonce, 2));
    assert!(!ledger.check_and_record(&nonce, 3));
    let other = "n2".to_string();
    assert!(ledger.check_and_record(&other, 4));
}

#[test]
fn failure_ledger_counts_per_fingerprint() {
    let mut ledger = deception_gate::FailureLedger::new();
    let fp1 = "fp1".to_string();
    let fp2 = "fp2".to_string();
    assert_eq!(ledger.record_failure(&fp1), 1);
    assert_eq!(ledger.record_failure(&fp1), 2);
    assert_eq!(ledger.record_failure(&fp2), 1);
    assert_eq!(ledger.record_failure(&fp1), 3);
}

#[test]
fn prime_payload_carries_real_data() {
    let mut elp = EntangledLogicOmega::new(b"secret".to_vec(), 300000, 5);
    let now = now_ms();

    let mut req = request(0, "", "", now, "", "");
    req.seal = elp.compute_seal(&req);
    let (payload, reality) = elp.process_request(req, "payload body", "fp1");
    assert_eq!(reality, Reality::Prime);
    assert_eq!(payload, "PRIME_REALITY: payload body");
}

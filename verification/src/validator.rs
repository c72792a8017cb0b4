use vstd::prelude::*;

use crate::ledger::sat_inc;
use crate::ledger::FailureLedger;
use crate::ledger::NonceLedger;
use crate::mask::is_valid_mask_value;
use crate::mask::spec_valid_mask;
use crate::sanitize::sanitize_text;
use crate::sanitize::spec_sanitize;
use crate::seal::seal_text;
use crate::seal::spec_seal;
use crate::shadow::shadow_text;
use crate::shadow::spec_shadow;

verus! {

/// The three classification outcomes: genuine, redacted, and fabricated
/// decoy. This is all a caller ever learns about why a request was treated
/// the way it was.
#[derive(Debug, PartialEq, Eq, Structural, Clone)]
pub enum Reality {
    Prime,
    Mirror,
    Shadow,
}

/// One tagged request: a structural mask, the supplied seal, and the signed
/// context, timestamp (milliseconds since the epoch), path and nonce.
pub struct SecureRequest {
    pub mask: i32,
    pub seal: String,
    pub context: String,
    pub timestamp: u64,
    pub path: String,
    pub nonce: String,
}

/// A timestamp is fresh when it does not lie in the future and is at most
/// `max_age_ms` old.
pub open spec fn spec_fresh(timestamp: u64, now: u64, max_age_ms: u64) -> bool {
    timestamp <= now && now - timestamp <= max_age_ms
}

/// The deception gate: immutable configuration (secret, freshness window,
/// failure budget) plus the two growing ledgers.
pub struct EntangledLogicOmega {
    secret: Vec<u8>,
    max_age_ms: u64,
    max_failures: u32,
    used_nonces: NonceLedger,
    failures: FailureLedger,
}

impl EntangledLogicOmega {
    /// The instance secret.
    pub closed spec fn secret_bytes(self) -> Seq<u8> {
        self.secret@
    }

    /// The freshness window in milliseconds.
    pub closed spec fn max_age(self) -> u64 {
        self.max_age_ms
    }

    /// The failure budget: one more failure than this from one fingerprint
    /// escalates from Mirror to Shadow.
    pub closed spec fn failure_budget(self) -> u32 {
        self.max_failures
    }

    /// The nonce was consumed by an earlier accepted request.
    pub closed spec fn nonce_seen(self, nonce: Seq<char>) -> bool {
        self.used_nonces.contains_nonce(nonce)
    }

    /// How many seal failures this fingerprint has caused so far.
    pub closed spec fn failure_count(self, fp: Seq<char>) -> u32 {
        self.failures.count_of(fp)
    }

    /// The supplied seal equals the one recomputed from the signed fields and
    /// the instance secret.
    pub open spec fn seal_ok(self, req: SecureRequest) -> bool {
        req.seal@ == spec_seal(
            self.secret_bytes(),
            req.mask,
            req.context@,
            req.timestamp,
            req.path@,
            req.nonce@,
        )
    }

    /// The outcome of the ordered checks: an invalid mask or a replayed nonce
    /// is Shadow, staleness is Mirror, a seal failure is Mirror until the
    /// fingerprint's budget is spent and Shadow from then on, and only a
    /// request passing every check is Prime. The first failing check decides.
    pub open spec fn spec_outcome(self, req: SecureRequest, fp: Seq<char>, now: u64) -> Reality {
        if !spec_valid_mask(req.mask) {
            Reality::Shadow
        } else if !spec_fresh(req.timestamp, now, self.max_age()) {
            Reality::Mirror
        } else if !self.seal_ok(req) {
            if sat_inc(self.failure_count(fp)) > self.failure_budget() {
                Reality::Shadow
            } else {
                Reality::Mirror
            }
        } else if self.nonce_seen(req.nonce@) {
            Reality::Shadow
        } else {
            Reality::Prime
        }
    }

    /// The payload returned with each outcome: the real data behind a fixed
    /// tag for Prime, the redacted real data for Mirror, and the decoy (which
    /// never depends on the real data) for Shadow.
    pub open spec fn spec_payload(
        self,
        req: SecureRequest,
        data: Seq<char>,
        fp: Seq<char>,
        now: u64,
    ) -> Seq<char> {
        match self.spec_outcome(req, fp, now) {
            Reality::Prime => "PRIME_REALITY: "@ + data,
            Reality::Mirror => spec_sanitize(data),
            Reality::Shadow => spec_shadow(
                self.secret_bytes(),
                req.context@,
                req.path@,
                req.nonce@,
            ),
        }
    }

    pub fn new(secret: Vec<u8>, max_age_ms: u64, max_failures: u32) -> (r: Self)
        ensures
            r.secret_bytes() == secret@,
            r.max_age() == max_age_ms,
            r.failure_budget() == max_failures,
            forall|n: Seq<char>| !r.nonce_seen(n),
            forall|fp: Seq<char>| r.failure_count(fp) == 0,
    {
        EntangledLogicOmega {
            secret,
            max_age_ms,
            max_failures,
            used_nonces: NonceLedger::new(),
            failures: FailureLedger::new(),
        }
    }

    /// Structural validator: true exactly when the mask is non-negative and
    /// no two adjacent bits of it are both set.
    pub fn is_valid_zeckendorf_mask(&self, mask: i32) -> (r: bool)
        ensures
            r == spec_valid_mask(mask),
    {
        is_valid_mask_value(mask)
    }

    /// Recomputes the seal for the request's signed fields under the instance
    /// secret.
    pub fn compute_seal(&self, req: &SecureRequest) -> (r: String)
        ensures
            r@ == spec_seal(
                self.secret_bytes(),
                req.mask,
                req.context@,
                req.timestamp,
                req.path@,
                req.nonce@,
            ),
    {
        seal_text(
            self.secret.as_slice(),
            req.mask,
            req.context.as_str(),
            req.timestamp,
            req.path.as_str(),
            req.nonce.as_str(),
        )
    }

    /// Redacts the real data for the Mirror path: every numeric character
    /// becomes `'*'`, nothing else changes, the length is preserved.
    pub fn sanitize(&self, data: &str) -> (r: String)
        ensures
            r@ == spec_sanitize(data@),
    {
        sanitize_text(data)
    }

    /// Synthesizes the decoy payload for the Shadow path from the request
    /// coordinates alone: deterministic given the secret, and independent of
    /// the real data.
    pub fn generate_shadow(&self, context: &str, path: &str, nonce: &str) -> (r: String)
        ensures
            r@ == spec_shadow(self.secret_bytes(), context@, path@, nonce@),
    {
        shadow_text(self.secret.as_slice(), context, path, nonce)
    }

    /// Books one seal failure for the fingerprint and answers with Mirror
    /// while the failure budget lasts, Shadow once it is spent. Counts for
    /// other fingerprints and the nonce ledger are untouched.
    pub fn handle_failure(
        &mut self,
        fingerprint: &str,
        data: &str,
        context: &str,
        path: &str,
        nonce: &str,
    ) -> (r: (String, Reality))
        ensures
            final(self).failure_count(fingerprint@) == sat_inc(
                old(self).failure_count(fingerprint@),
            ),
            forall|k: Seq<char>|
                k != fingerprint@ ==> final(self).failure_count(k) == old(self).failure_count(k),
            forall|n: Seq<char>| final(self).nonce_seen(n) == old(self).nonce_seen(n),
            final(self).secret_bytes() == old(self).secret_bytes(),
            final(self).max_age() == old(self).max_age(),
            final(self).failure_budget() == old(self).failure_budget(),
            r.1 == if sat_inc(old(self).failure_count(fingerprint@)) > old(
                self,
            ).failure_budget() {
                Reality::Shadow
            } else {
                Reality::Mirror
            },
            r.0@ == if sat_inc(old(self).failure_count(fingerprint@)) > old(
                self,
            ).failure_budget() {
                spec_shadow(old(self).secret_bytes(), context@, path@, nonce@)
            } else {
                spec_sanitize(data@)
            },
    {
        let fp_key = fingerprint.to_owned();
        let count = self.failures.record_failure(&fp_key);
        if count > self.max_failures {
            (self.generate_shadow(context, path, nonce), Reality::Shadow)
        } else {
            (self.sanitize(data), Reality::Mirror)
        }
    }

    /// Runs the ordered checks against an explicit clock reading `now` and
    /// returns the payload and outcome that `spec_outcome` and `spec_payload`
    /// prescribe. The nonce is recorded exactly on the Prime path, a seal
    /// failure is booked exactly on the seal-check path, and nothing else in
    /// the state moves.
    pub fn process_request_at(
        &mut self,
        req: SecureRequest,
        real_data: &str,
        fingerprint: &str,
        now: u64,
    ) -> (r: (String, Reality))
        ensures
            r.1 == old(self).spec_outcome(req, fingerprint@, now),
            r.0@ == old(self).spec_payload(req, real_data@, fingerprint@, now),
            final(self).secret_bytes() == old(self).secret_bytes(),
            final(self).max_age() == old(self).max_age(),
            final(self).failure_budget() == old(self).failure_budget(),
            r.1 == Reality::Prime ==> forall|n: Seq<char>|
                final(self).nonce_seen(n) == (old(self).nonce_seen(n) || n == req.nonce@),
            r.1 != Reality::Prime ==> forall|n: Seq<char>|
                final(self).nonce_seen(n) == old(self).nonce_seen(n),
            spec_valid_mask(req.mask) && spec_fresh(req.timestamp, now, old(self).max_age())
                && !old(self).seal_ok(req) ==> {
                &&& final(self).failure_count(fingerprint@) == sat_inc(
                    old(self).failure_count(fingerprint@),
                )
                &&& forall|k: Seq<char>|
                    k != fingerprint@ ==> final(self).failure_count(k) == old(
                        self,
                    ).failure_count(k)
            },
            !(spec_valid_mask(req.mask) && spec_fresh(req.timestamp, now, old(self).max_age())
                && !old(self).seal_ok(req)) ==> forall|k: Seq<char>|
                final(self).failure_count(k) == old(self).failure_count(k),
    {
        if !self.is_valid_zeckendorf_mask(req.mask) {
            return (
                self.generate_shadow(req.context.as_str(), req.path.as_str(), req.nonce.as_str()),
                Reality::Shadow,
            );
        }
        let fresh = req.timestamp <= now && now - req.timestamp <= self.max_age_ms;
        if !fresh {
            return (self.sanitize(real_data), Reality::Mirror);
        }
        let expected = self.compute_seal(&req);
        if req.seal != expected {
            return self.handle_failure(
                fingerprint,
                real_data,
                req.context.as_str(),
                req.path.as_str(),
                req.nonce.as_str(),
            );
        }
        let first_use = self.used_nonces.check_and_record(&req.nonce, now);
        if !first_use {
            return (
                self.generate_shadow(req.context.as_str(), req.path.as_str(), req.nonce.as_str()),
                Reality::Shadow,
            );
        }
        let mut payload = "PRIME_REALITY: ".to_owned();
        payload.append(real_data);
        (payload, Reality::Prime)
    }

    /// Classifies a request against the current wall clock. Whatever the
    /// clock read: an invalid mask yields the decoy, a consumed nonce is
    /// never Prime again, and Prime is only ever granted to a correctly
    /// sealed, structurally valid request whose nonce was free — which the
    /// call then consumes.
    pub fn process_request(
        &mut self,
        req: SecureRequest,
        real_data: &str,
        fingerprint: &str,
    ) -> (r: (String, Reality))
        ensures
            final(self).secret_bytes() == old(self).secret_bytes(),
            final(self).max_age() == old(self).max_age(),
            final(self).failure_budget() == old(self).failure_budget(),
            !spec_valid_mask(req.mask) ==> r.1 == Reality::Shadow,
            old(self).nonce_seen(req.nonce@) ==> r.1 != Reality::Prime,
            r.1 == Reality::Prime ==> {
                &&& old(self).seal_ok(req)
                &&& spec_valid_mask(req.mask)
                &&& !old(self).nonce_seen(req.nonce@)
                &&& r.0@ == "PRIME_REALITY: "@ + real_data@
                &&& final(self).nonce_seen(req.nonce@)
            },
            forall|n: Seq<char>|
                old(self).nonce_seen(n) ==> final(self).nonce_seen(n),
            r.1 != Reality::Prime ==> forall|n: Seq<char>|
                final(self).nonce_seen(n) == old(self).nonce_seen(n),
            r.1 == Reality::Shadow ==> r.0@ == spec_shadow(
                old(self).secret_bytes(),
                req.context@,
                req.path@,
                req.nonce@,
            ),
            r.1 == Reality::Mirror ==> r.0@ == spec_sanitize(real_data@),
            r.1 == Reality::Shadow && spec_valid_mask(req.mask) ==> (old(self).nonce_seen(
                req.nonce@,
            ) || sat_inc(old(self).failure_count(fingerprint@)) > old(self).failure_budget()),
            r.1 == Reality::Prime ==> forall|k: Seq<char>|
                final(self).failure_count(k) == old(self).failure_count(k),
    {
        let now = now_millis();
        self.process_request_at(req, real_data, fingerprint, now)
    }
}

/// A request that passes every check is accepted: a valid mask, a fresh
/// timestamp, a correct seal and a nonce never seen before always classify as
/// Prime.
pub proof fn lemma_accept_prime(
    v: EntangledLogicOmega,
    req: SecureRequest,
    fp: Seq<char>,
    now: u64,
)
    requires
        spec_valid_mask(req.mask),
        spec_fresh(req.timestamp, now, v.max_age()),
        v.seal_ok(req),
        !v.nonce_seen(req.nonce@),
    ensures
        v.spec_outcome(req, fp, now) == Reality::Prime,
{
}

/// A consumed nonce is permanently rejected: whatever the clock reads and
/// whatever seal the request carries, a request replaying a recorded nonce is
/// never Prime, and when it would otherwise pass every check it is answered
/// with the decoy.
pub proof fn lemma_replay_never_prime(
    v: EntangledLogicOmega,
    req: SecureRequest,
    fp: Seq<char>,
    now: u64,
)
    requires
        v.nonce_seen(req.nonce@),
    ensures
        v.spec_outcome(req, fp, now) != Reality::Prime,
        spec_valid_mask(req.mask) && spec_fresh(req.timestamp, now, v.max_age()) && v.seal_ok(req)
            ==> v.spec_outcome(req, fp, now) == Reality::Shadow,
{
}

/// A stale (or future) timestamp on a structurally valid request is answered
/// with Mirror before the seal is even looked at: the outcome is Mirror
/// whatever seal the request carries and whatever the ledgers hold.
pub proof fn lemma_stale_yields_mirror(
    v: EntangledLogicOmega,
    req: SecureRequest,
    fp: Seq<char>,
    now: u64,
)
    requires
        spec_valid_mask(req.mask),
        !spec_fresh(req.timestamp, now, v.max_age()),
    ensures
        v.spec_outcome(req, fp, now) == Reality::Mirror,
{
}

/// A seal failure is answered with Mirror while the fingerprint's failure
/// budget lasts and with the decoy once the budget is spent: the failure
/// being booked makes the count rise past the budget exactly then. A budget
/// of `u32::MAX` can never be spent, since the counter saturates there.
pub proof fn lemma_failure_escalation(
    v: EntangledLogicOmega,
    req: SecureRequest,
    fp: Seq<char>,
    now: u64,
)
    requires
        spec_valid_mask(req.mask),
        spec_fresh(req.timestamp, now, v.max_age()),
        !v.seal_ok(req),
    ensures
        v.spec_outcome(req, fp, now) == if sat_inc(v.failure_count(fp)) > v.failure_budget() {
            Reality::Shadow
        } else {
            Reality::Mirror
        },
        v.failure_budget() < u32::MAX && v.failure_count(fp) >= v.failure_budget() ==> v
            .spec_outcome(req, fp, now) == Reality::Shadow,
        v.failure_count(fp) < v.failure_budget() ==> v.spec_outcome(req, fp, now)
            == Reality::Mirror,
{
}

/// Relies on std::time::SystemTime: the wall clock as milliseconds since the
/// Unix epoch. Nothing is promised of the reading; every caller must hold for
/// any value that comes back.
#[verifier::external_body]
fn now_millis() -> u64 {
    std::time::SystemTime::now()
        .duration_since(std::time::UNIX_EPOCH)
        .expect("the wall clock is set after the Unix epoch")
        .as_millis() as u64
}

} // verus!

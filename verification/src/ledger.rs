use vstd::prelude::*;

verus! {

/// One more failure, capped so the counter can never overflow.
pub open spec fn sat_inc(c: u32) -> u32 {
    if c == u32::MAX {
        c
    } else {
        (c + 1) as u32
    }
}

/// The anti-replay ledger: every nonce accepted so far, with the time it was
/// first seen. It only ever grows.
pub struct NonceLedger {
    entries: Vec<(String, u64)>,
}

impl NonceLedger {
    /// The nonce is already recorded.
    pub closed spec fn contains_nonce(self, n: Seq<char>) -> bool {
        exists|i: int| 0 <= i < self.entries@.len() && self.entries@[i].0@ == n
    }

    pub fn new() -> (r: Self)
        ensures
            forall|n: Seq<char>| !r.contains_nonce(n),
    {
        NonceLedger { entries: Vec::new() }
    }

    /// The single anti-replay step: reports whether `nonce` is seen here for
    /// the first time and, exactly in that case, records it. Check and insert
    /// form one step, so no two calls can both see first use.
    #[verifier::loop_isolation(false)]
    pub fn check_and_record(&mut self, nonce: &String, now: u64) -> (first_use: bool)
        ensures
            first_use == !old(self).contains_nonce(nonce@),
            final(self).contains_nonce(nonce@),
            forall|k: Seq<char>|
                #[trigger] final(self).contains_nonce(k) <==> (old(self).contains_nonce(k) || k
                    == nonce@),
            !first_use ==> *final(self) == *old(self),
    {
        let ghost entries0 = self.entries@;
        let n = self.entries.len();
        let mut i: usize = 0;
        while i < n
            invariant
                i <= n,
                n == self.entries@.len(),
                self.entries@ == entries0,
                forall|j: int| 0 <= j < i ==> self.entries@[j].0@ != nonce@,
            decreases n - i,
        {
            if self.entries[i].0 == *nonce {
                return false;
            }
            i = i + 1;
        }
        self.entries.push((nonce.clone(), now));
        proof {
            assert(self.entries@[entries0.len() as int].0@ == nonce@);
            assert forall|k: Seq<char>| #[trigger]
                self.contains_nonce(k) implies old(self).contains_nonce(k) || k == nonce@ by {
                let w = choose|w: int| 0 <= w < self.entries@.len() && self.entries@[w].0@ == k;
                if w < entries0.len() {
                    assert(old(self).entries@[w].0@ == k);
                }
            }
            assert forall|k: Seq<char>|
                old(self).contains_nonce(k) implies #[trigger] self.contains_nonce(k) by {
                let w = choose|w: int|
                    0 <= w < old(self).entries@.len() && old(self).entries@[w].0@ == k;
                assert(self.entries@[w].0@ == k);
            }
        }
        true
    }
}

/// Racing `check_and_record` calls on one nonce admit exactly one first use:
/// each call is one atomic step, so any serialization of the calls runs them
/// one after the other, and the states and results of two consecutive calls
/// are related as required here — the later call never sees first use, and
/// when the nonce was free at the start, exactly the earlier call does.
pub proof fn lemma_first_use_unique(
    pre: NonceLedger,
    mid: NonceLedger,
    first1: bool,
    first2: bool,
    nonce: Seq<char>,
)
    requires
        first1 == !pre.contains_nonce(nonce),
        mid.contains_nonce(nonce),
        first2 == !mid.contains_nonce(nonce),
    ensures
        !first2,
        !pre.contains_nonce(nonce) ==> first1 && !first2,
{
}

/// Recursive first-match lookup of a fingerprint's failure count; missing
/// fingerprints count zero.
pub open spec fn count_in(s: Seq<(String, u32)>, fp: Seq<char>) -> u32
    decreases s.len(),
{
    if s.len() == 0 {
        0
    } else if s[0].0@ == fp {
        s[0].1
    } else {
        count_in(s.drop_first(), fp)
    }
}

/// A fingerprint with a key somewhere in the sequence.
pub open spec fn has_key(s: Seq<(String, u32)>, fp: Seq<char>) -> bool {
    exists|i: int| 0 <= i < s.len() && s[i].0@ == fp
}

proof fn lemma_count_absent(s: Seq<(String, u32)>, fp: Seq<char>)
    requires
        !has_key(s, fp),
    ensures
        count_in(s, fp) == 0,
    decreases s.len(),
{
    if s.len() > 0 {
        assert(s[0].0@ != fp);
        assert forall|i: int| 0 <= i < s.drop_first().len() implies s.drop_first()[i].0@ != fp by {
            assert(s[i + 1].0@ != fp);
        }
        lemma_count_absent(s.drop_first(), fp);
    }
}

/// A first match at `i` (no match before it) determines the count.
proof fn lemma_count_first_match(s: Seq<(String, u32)>, fp: Seq<char>, i: int)
    requires
        0 <= i < s.len(),
        s[i].0@ == fp,
        forall|j: int| 0 <= j < i ==> s[j].0@ != fp,
    ensures
        count_in(s, fp) == s[i].1,
    decreases i,
{
    if i == 0 {
    } else {
        assert forall|j: int| 0 <= j < i - 1 implies s.drop_first()[j].0@ != fp by {
            assert(s[j + 1].0@ != fp);
        }
        assert(s.drop_first()[i - 1].0@ == fp);
        lemma_count_first_match(s.drop_first(), fp, i - 1);
    }
}

/// Updating the entry at `i` without changing its key leaves every other
/// fingerprint's count alone.
proof fn lemma_count_update_other(s: Seq<(String, u32)>, i: int, x: (String, u32), k: Seq<char>)
    requires
        0 <= i < s.len(),
        x.0@ == s[i].0@,
        k != x.0@,
    ensures
        count_in(s.update(i, x), k) == count_in(s, k),
    decreases s.len(),
{
    let u = s.update(i, x);
    if i == 0 {
        assert(u[0] == x);
        assert(u.drop_first() =~= s.drop_first());
    } else {
        assert(u[0] == s[0]);
        if s[0].0@ == k {
        } else {
            assert(u.drop_first() =~= s.drop_first().update(i - 1, x));
            lemma_count_update_other(s.drop_first(), i - 1, x, k);
        }
    }
}

/// Appending an entry changes only the count of a fingerprint with no earlier
/// key in the sequence.
proof fn lemma_count_push(s: Seq<(String, u32)>, x: (String, u32), k: Seq<char>)
    ensures
        count_in(s.push(x), k) == if has_key(s, k) {
            count_in(s, k)
        } else if x.0@ == k {
            x.1
        } else {
            0u32
        },
    decreases s.len(),
{
    if s.len() == 0 {
        assert(s.push(x)[0] == x);
        assert(!has_key(s, k));
        if x.0@ != k {
            assert(s.push(x).drop_first() =~= Seq::<(String, u32)>::empty());
            assert(count_in(Seq::<(String, u32)>::empty(), k) == 0);
            assert(count_in(s.push(x), k) == 0);
        } else {
            assert(count_in(s.push(x), k) == x.1);
        }
    } else {
        assert(s.push(x)[0] == s[0]);
        if s[0].0@ == k {
            assert(has_key(s, k));
        } else {
            assert(s.push(x).drop_first() =~= s.drop_first().push(x));
            lemma_count_push(s.drop_first(), x, k);
            assert(has_key(s.drop_first(), k) <==> has_key(s, k)) by {
                if has_key(s, k) {
                    let w = choose|w: int| 0 <= w < s.len() && s[w].0@ == k;
                    assert(s.drop_first()[w - 1].0@ == k);
                }
                if has_key(s.drop_first(), k) {
                    let w = choose|w: int|
                        0 <= w < s.drop_first().len() && s.drop_first()[w].0@ == k;
                    assert(s[w + 1].0@ == k);
                }
            }
        }
    }
}

/// The escalation ledger: how many seal failures each fingerprint has caused.
/// The policy is monotonic: a counter only ever rises and is never reset for
/// the lifetime of the ledger, so an escalated fingerprint stays escalated.
pub struct FailureLedger {
    entries: Vec<(String, u32)>,
}

impl FailureLedger {
    /// The failure count recorded for `fp`; zero when unseen.
    pub closed spec fn count_of(self, fp: Seq<char>) -> u32 {
        count_in(self.entries@, fp)
    }

    pub fn new() -> (r: Self)
        ensures
            forall|fp: Seq<char>| r.count_of(fp) == 0,
    {
        FailureLedger { entries: Vec::new() }
    }

    /// One failure for `fp`: its counter rises by one (capped at `u32::MAX`)
    /// in a single step, every other fingerprint's counter stays put.
    #[verifier::loop_isolation(false)]
    pub fn record_failure(&mut self, fp: &String) -> (count: u32)
        ensures
            count == sat_inc(old(self).count_of(fp@)),
            final(self).count_of(fp@) == count,
            forall|k: Seq<char>|
                k != fp@ ==> final(self).count_of(k) == old(self).count_of(k),
    {
        let ghost entries0 = self.entries@;
        let n = self.entries.len();
        let mut i: usize = 0;
        while i < n
            invariant
                i <= n,
                n == self.entries@.len(),
                self.entries@ == entries0,
                forall|j: int| 0 <= j < i ==> self.entries@[j].0@ != fp@,
            decreases n - i,
        {
            if self.entries[i].0 == *fp {
                let c = self.entries[i].1;
                let nc = if c == u32::MAX {
                    c
                } else {
                    c + 1
                };
                let updated = (self.entries[i].0.clone(), nc);
                let ghost gx = updated;
                self.entries.remove(i);
                self.entries.insert(i, updated);
                proof {
                    assert(self.entries@ =~= entries0.update(i as int, gx));
                    lemma_count_first_match(entries0, fp@, i as int);
                    lemma_count_first_match(self.entries@, fp@, i as int);
                    assert forall|k: Seq<char>| k != fp@ implies count_in(self.entries@, k)
                        == count_in(entries0, k) by {
                        lemma_count_update_other(entries0, i as int, gx, k);
                    }
                }
                return nc;
            }
            i = i + 1;
        }
        let fresh_entry = (fp.clone(), 1u32);
        let ghost gx = fresh_entry;
        self.entries.push(fresh_entry);
        proof {
            assert(!has_key(entries0, fp@));
            lemma_count_absent(entries0, fp@);
            assert forall|k: Seq<char>| k != fp@ implies count_in(self.entries@, k) == count_in(
                entries0,
                k,
            ) by {
                lemma_count_push(entries0, gx, k);
                if !has_key(entries0, k) {
                    lemma_count_absent(entries0, k);
                }
            }
            lemma_count_push(entries0, gx, fp@);
        }
        1
    }
}

} // verus!

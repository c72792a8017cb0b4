use vstd::prelude::*;

verus! {

/// Whether a character counts as numeric for redaction: a pure property of
/// the character, decided by the Unicode tables.
pub uninterp spec fn numeric_char(c: char) -> bool;

/// Relies on char::is_numeric: a pure function of the character; every ASCII
/// digit is numeric.
#[verifier::external_body]
fn is_numeric_char(c: char) -> (r: bool)
    ensures
        r == numeric_char(c),
        ('0' <= c && c <= '9') ==> r,
{
    c.is_numeric()
}

/// Relies on String::push: appends exactly one character.
pub assume_specification[ String::push ](s: &mut String, c: char)
    ensures
        final(s)@ == old(s)@.push(c),
;

/// The redacted form of `s`: every numeric character is replaced by `'*'`,
/// every other character is kept, so the length never changes.
pub open spec fn spec_sanitize(s: Seq<char>) -> Seq<char> {
    Seq::new(s.len(), |i: int| if numeric_char(s[i]) { '*' } else { s[i] })
}

/// Redacts `data`: each numeric character becomes `'*'`, all else is kept.
pub fn sanitize_text(data: &str) -> (r: String)
    ensures
        r@ == spec_sanitize(data@),
{
    let n = data.unicode_len();
    let mut out = String::new();
    let mut i: usize = 0;
    while i < n
        invariant
            i <= n,
            n == data@.len(),
            out@ == spec_sanitize(data@).take(i as int),
        decreases n - i,
    {
        let c = data.get_char(i);
        if is_numeric_char(c) {
            out.push('*');
        } else {
            out.push(c);
        }
        i = i + 1;
        assert(out@ =~= spec_sanitize(data@).take(i as int));
    }
    assert(out@ =~= spec_sanitize(data@));
    out
}

/// Sanitizing is idempotent and length-preserving: redacting an already
/// redacted text changes nothing, and the output is never longer than the
/// input.
pub proof fn lemma_sanitize_idempotent(s: Seq<char>)
    ensures
        spec_sanitize(spec_sanitize(s)) == spec_sanitize(s),
        spec_sanitize(s).len() == s.len(),
{
    assert(spec_sanitize(spec_sanitize(s)) =~= spec_sanitize(s));
}

} // verus!

use vstd::prelude::*;

verus! {

/// The ASCII decimal digits of `n`, most significant first.
pub open spec fn spec_dec_nat(n: nat) -> Seq<u8>
    decreases n,
{
    if n < 10 {
        seq![(48 + n) as u8]
    } else {
        spec_dec_nat(n / 10).push((48 + n % 10) as u8)
    }
}

/// The ASCII decimal rendering of a signed 32-bit value: a leading minus sign
/// for negative values, then the digits of the magnitude.
pub open spec fn spec_dec_i32(m: i32) -> Seq<u8> {
    if m < 0 {
        seq![45u8] + spec_dec_nat((-(m as int)) as nat)
    } else {
        spec_dec_nat(m as nat)
    }
}

/// Appends the decimal digits of `n` to `out`.
pub fn push_dec_u64(out: &mut Vec<u8>, n: u64)
    ensures
        final(out)@ == old(out)@ + spec_dec_nat(n as nat),
    decreases n,
{
    if n < 10 {
        out.push((48 + n) as u8);
        assert(out@ =~= old(out)@ + spec_dec_nat(n as nat));
    } else {
        push_dec_u64(out, n / 10);
        out.push((48 + n % 10) as u8);
        assert(out@ =~= old(out)@ + spec_dec_nat(n as nat));
    }
}

/// Appends the decimal rendering of `m` to `out`.
pub fn push_dec_i32(out: &mut Vec<u8>, m: i32)
    ensures
        final(out)@ == old(out)@ + spec_dec_i32(m),
{
    if m < 0 {
        out.push(45u8);
        let mag = (-(m as i64)) as u64;
        assert(mag as nat == (-(m as int)) as nat);
        push_dec_u64(out, mag);
        assert(out@ =~= old(out)@ + spec_dec_i32(m));
    } else {
        push_dec_u64(out, m as u64);
    }
}

} // verus!

use vstd::prelude::*;

verus! {

/// A mask is structurally valid when it is non-negative and no two adjacent
/// bits of its binary representation are both set.
pub open spec fn spec_valid_mask(mask: i32) -> bool {
    mask >= 0 && (mask & (mask >> 1)) == 0
}

/// Two consecutive bits of `mask` are both set.
pub open spec fn has_adjacent_ones(mask: i32) -> bool {
    exists|i: u32| i < 31 && ((mask >> i) & 3) == 3
}

/// The bitwise test `mask & (mask >> 1) == 0` accepts a non-negative mask
/// exactly when its binary representation holds no two consecutive 1 bits.
pub proof fn lemma_valid_mask_no_adjacent_ones(mask: i32)
    requires
        mask >= 0,
    ensures
        spec_valid_mask(mask) <==> !has_adjacent_ones(mask),
{
    if spec_valid_mask(mask) {
        assert forall|i: u32| i < 31 implies ((mask >> i) & 3) != 3 by {
            assert((mask >= 0 && (mask & (mask >> 1)) == 0 && i < 31) ==> ((mask >> i) & 3) != 3)
                by (bit_vector);
        }
    }
    if !spec_valid_mask(mask) {
        assert((mask & (mask >> 1)) != 0 ==> ((mask & (mask >> 1)) >> 0u32) != 0) by (bit_vector);
        lemma_find_adjacent_pair(mask, 0);
    }
}

/// Walks up from bit `j` to the lowest set bit of `mask & (mask >> 1)` and
/// exhibits it as a pair of adjacent set bits of `mask`.
proof fn lemma_find_adjacent_pair(mask: i32, j: u32)
    requires
        mask >= 0,
        j < 32,
        ((mask & (mask >> 1)) >> j) != 0,
    ensures
        has_adjacent_ones(mask),
    decreases 32 - j,
{
    if j == 31 {
        assert(!(mask >= 0 && ((mask & (mask >> 1)) >> 31u32) != 0)) by (bit_vector);
    } else if ((mask & (mask >> 1)) >> j) & 1 == 1 {
        assert((mask >= 0 && j < 31 && (((mask & (mask >> 1)) >> j) & 1) == 1) ==> ((mask >> j)
            & 3) == 3) by (bit_vector);
        assert(j < 31 && ((mask >> j) & 3) == 3);
    } else {
        let j1 = (j + 1) as u32;
        assert((j < 31 && j1 == j + 1 && ((mask & (mask >> 1)) >> j) != 0 && (((mask & (mask
            >> 1)) >> j) & 1) != 1) ==> ((mask & (mask >> 1)) >> j1) != 0) by (bit_vector);
        lemma_find_adjacent_pair(mask, j1);
    }
}

/// Structural validator: rejects negative masks and masks with two adjacent
/// set bits (checked with one bitwise AND against the mask shifted right).
pub fn is_valid_mask_value(mask: i32) -> (r: bool)
    ensures
        r == spec_valid_mask(mask),
{
    if mask < 0 {
        return false;
    }
    (mask & (mask >> 1)) == 0
}

} // verus!

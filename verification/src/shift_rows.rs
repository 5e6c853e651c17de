//! ShiftRows on bit-planes: each plane holds its sixteen cells row by row
//! (cell `4r + c` is row `r`, column `c`), and ShiftRows rotates row `r`
//! left by `r` columns. The rotations are done with byte-aligned delta
//! swaps.

use vstd::prelude::*;
use crate::lane::{Lane, byte_of, le16, mask, shl_b, shl_b_spec, shr_b, shr_b_spec};

verus! {

/// The delta swap that `delta_swap_1::<by>` performs: the cells selected by
/// `m` are exchanged with the cells `by` bytes above them.
pub open spec fn delta_swap_spec(x: u128, by: usize, m: u128) -> u128 {
    let t = (x ^ shr_b_spec(by, x)) & m;
    x ^ t ^ shl_b_spec(by, t)
}

/// ShiftRows applied 1 time to one plane: cell `4r + c` of the result is
/// cell `4r + (c + 1 r) mod 4` of `x`.
pub open spec fn shift_rows_1_spec(x: u128) -> u128 {
    le16(byte_of(x, 0), byte_of(x, 8), byte_of(x, 16), byte_of(x, 24), byte_of(x, 40), byte_of(x, 48), byte_of(x, 56), byte_of(x, 32), byte_of(x, 80), byte_of(x, 88), byte_of(x, 64), byte_of(x, 72), byte_of(x, 120), byte_of(x, 96), byte_of(x, 104), byte_of(x, 112))
}

/// ShiftRows applied 2 times to one plane: cell `4r + c` of the result is
/// cell `4r + (c + 2 r) mod 4` of `x`.
pub open spec fn shift_rows_2_spec(x: u128) -> u128 {
    le16(byte_of(x, 0), byte_of(x, 8), byte_of(x, 16), byte_of(x, 24), byte_of(x, 48), byte_of(x, 56), byte_of(x, 32), byte_of(x, 40), byte_of(x, 64), byte_of(x, 72), byte_of(x, 80), byte_of(x, 88), byte_of(x, 112), byte_of(x, 120), byte_of(x, 96), byte_of(x, 104))
}

/// ShiftRows applied 3 times to one plane: cell `4r + c` of the result is
/// cell `4r + (c + 3 r) mod 4` of `x`.
pub open spec fn shift_rows_3_spec(x: u128) -> u128 {
    le16(byte_of(x, 0), byte_of(x, 8), byte_of(x, 16), byte_of(x, 24), byte_of(x, 56), byte_of(x, 32), byte_of(x, 40), byte_of(x, 48), byte_of(x, 80), byte_of(x, 88), byte_of(x, 64), byte_of(x, 72), byte_of(x, 104), byte_of(x, 112), byte_of(x, 120), byte_of(x, 96))
}

/// ShiftRows applied `k` times (k in 1..4) to every plane of a state.
#[verifier::opaque]
pub open spec fn shift_rows_state(k: int, s: Seq<Lane>) -> Seq<Lane> {
    Seq::new(
        s.len(),
        |i: int|
            Lane(
                if k == 1 {
                    shift_rows_1_spec(s[i].0)
                } else if k == 2 {
                    shift_rows_2_spec(s[i].0)
                } else {
                    shift_rows_3_spec(s[i].0)
                },
            ),
    )
}

/// The delta swaps of `shift_rows_1`, `shift_rows_2` and `shift_rows_3`
/// perform those cell permutations.
proof fn lemma_shift_rows_delta_swaps(x: u128)
    ensures
        delta_swap_spec(delta_swap_spec(x, 2, le16(0, 0, 0, 0, 255, 0, 0, 0, 255, 255, 0, 0, 0, 255, 0, 0)), 1, le16(0, 0, 0, 0, 255, 0, 255, 0, 0, 0, 0, 0, 255, 0, 255, 0)) == shift_rows_1_spec(x),
        delta_swap_spec(x, 2, le16(0, 0, 0, 0, 255, 255, 0, 0, 0, 0, 0, 0, 255, 255, 0, 0)) == shift_rows_2_spec(x),
        delta_swap_spec(delta_swap_spec(x, 2, le16(0, 0, 0, 0, 0, 255, 0, 0, 255, 255, 0, 0, 255, 0, 0, 0)), 1, le16(0, 0, 0, 0, 255, 0, 255, 0, 0, 0, 0, 0, 255, 0, 255, 0)) == shift_rows_3_spec(x),
{
    assert(
        delta_swap_spec(delta_swap_spec(x, 2, le16(0, 0, 0, 0, 255, 0, 0, 0, 255, 255, 0, 0, 0, 255, 0, 0)), 1, le16(0, 0, 0, 0, 255, 0, 255, 0, 0, 0, 0, 0, 255, 0, 255, 0)) == shift_rows_1_spec(x)
        && delta_swap_spec(x, 2, le16(0, 0, 0, 0, 255, 255, 0, 0, 0, 0, 0, 0, 255, 255, 0, 0)) == shift_rows_2_spec(x)
        && delta_swap_spec(delta_swap_spec(x, 2, le16(0, 0, 0, 0, 0, 255, 0, 0, 255, 255, 0, 0, 255, 0, 0, 0)), 1, le16(0, 0, 0, 0, 255, 0, 255, 0, 0, 0, 0, 0, 255, 0, 255, 0)) == shift_rows_3_spec(x)
    ) by (bit_vector);
}

/// ShiftRows applied three times undoes ShiftRows applied once and the
/// other way round; applied twice, it undoes itself.
pub proof fn lemma_shift_rows_inverses(x: u128)
    ensures
        shift_rows_3_spec(shift_rows_1_spec(x)) == x,
        shift_rows_1_spec(shift_rows_3_spec(x)) == x,
        shift_rows_2_spec(shift_rows_2_spec(x)) == x,
{
    assert(
        shift_rows_3_spec(shift_rows_1_spec(x)) == x
        && shift_rows_1_spec(shift_rows_3_spec(x)) == x
        && shift_rows_2_spec(shift_rows_2_spec(x)) == x
    ) by (bit_vector);
}

/// Exchanges the cells of `a` selected by `mask` with the cells `BY` bytes
/// above them.
pub fn delta_swap_1<const BY: usize>(a: &mut Lane, mask: Lane)
    ensures
        final(a).0 == delta_swap_spec(old(a).0, BY, mask.0),
{
    let t = Lane((a.0 ^ shr_b::<BY>(*a).0) & mask.0);
    *a = Lane(a.0 ^ t.0 ^ shl_b::<BY>(t).0);
}

/// Applies ShiftRows 1 time on an AES state (or round key).
pub fn shift_rows_1(state: &mut [Lane])
    requires
        old(state)@.len() == 8,
    ensures
        final(state)@ == shift_rows_state(1, old(state)@),
{
    proof {
        reveal(shift_rows_state);
    }
    let m1 = mask([0, 0, 0, 0, 255, 0, 0, 0, 255, 255, 0, 0, 0, 255, 0, 0]);
    assert(m1.0 == le16(0, 0, 0, 0, 255, 0, 0, 0, 255, 255, 0, 0, 0, 255, 0, 0));
    let m2 = mask([0, 0, 0, 0, 255, 0, 255, 0, 0, 0, 0, 0, 255, 0, 255, 0]);
    assert(m2.0 == le16(0, 0, 0, 0, 255, 0, 255, 0, 0, 0, 0, 0, 255, 0, 255, 0));
    for i in 0..8
        invariant
            state@.len() == 8,
            old(state)@.len() == 8,
            m1.0 == le16(0, 0, 0, 0, 255, 0, 0, 0, 255, 255, 0, 0, 0, 255, 0, 0),
            m2.0 == le16(0, 0, 0, 0, 255, 0, 255, 0, 0, 0, 0, 0, 255, 0, 255, 0),
            forall|j: int| 0 <= j < i ==> #[trigger] state@[j] == shift_rows_state(1, old(state)@)[j],
            forall|j: int| i <= j < 8 ==> #[trigger] state@[j] == old(state)@[j],
    {
        let mut x = state[i];
        delta_swap_1::<2>(&mut x, m1);
        delta_swap_1::<1>(&mut x, m2);
        proof {
            reveal(shift_rows_state);
            lemma_shift_rows_delta_swaps(old(state)@[i as int].0);
        }
        assert(x == shift_rows_state(1, old(state)@)[i as int]);
        state[i] = x;
    }
    assert(state@ =~= shift_rows_state(1, old(state)@));
}

/// Applies ShiftRows 2 times on an AES state (or round key).
pub fn shift_rows_2(state: &mut [Lane])
    requires
        old(state)@.len() == 8,
    ensures
        final(state)@ == shift_rows_state(2, old(state)@),
{
    proof {
        reveal(shift_rows_state);
    }
    let m = mask([0, 0, 0, 0, 255, 255, 0, 0, 0, 0, 0, 0, 255, 255, 0, 0]);
    assert(m.0 == le16(0, 0, 0, 0, 255, 255, 0, 0, 0, 0, 0, 0, 255, 255, 0, 0));
    for i in 0..8
        invariant
            state@.len() == 8,
            old(state)@.len() == 8,
            m.0 == le16(0, 0, 0, 0, 255, 255, 0, 0, 0, 0, 0, 0, 255, 255, 0, 0),
            forall|j: int| 0 <= j < i ==> #[trigger] state@[j] == shift_rows_state(2, old(state)@)[j],
            forall|j: int| i <= j < 8 ==> #[trigger] state@[j] == old(state)@[j],
    {
        let mut x = state[i];
        delta_swap_1::<2>(&mut x, m);
        proof {
            reveal(shift_rows_state);
            lemma_shift_rows_delta_swaps(old(state)@[i as int].0);
        }
        assert(x == shift_rows_state(2, old(state)@)[i as int]);
        state[i] = x;
    }
    assert(state@ =~= shift_rows_state(2, old(state)@));
}

/// Applies ShiftRows 3 times on an AES state (or round key).
pub fn shift_rows_3(state: &mut [Lane])
    requires
        old(state)@.len() == 8,
    ensures
        final(state)@ == shift_rows_state(3, old(state)@),
{
    proof {
        reveal(shift_rows_state);
    }
    let m1 = mask([0, 0, 0, 0, 0, 255, 0, 0, 255, 255, 0, 0, 255, 0, 0, 0]);
    assert(m1.0 == le16(0, 0, 0, 0, 0, 255, 0, 0, 255, 255, 0, 0, 255, 0, 0, 0));
    let m2 = mask([0, 0, 0, 0, 255, 0, 255, 0, 0, 0, 0, 0, 255, 0, 255, 0]);
    assert(m2.0 == le16(0, 0, 0, 0, 255, 0, 255, 0, 0, 0, 0, 0, 255, 0, 255, 0));
    for i in 0..8
        invariant
            state@.len() == 8,
            old(state)@.len() == 8,
            m1.0 == le16(0, 0, 0, 0, 0, 255, 0, 0, 255, 255, 0, 0, 255, 0, 0, 0),
            m2.0 == le16(0, 0, 0, 0, 255, 0, 255, 0, 0, 0, 0, 0, 255, 0, 255, 0),
            forall|j: int| 0 <= j < i ==> #[trigger] state@[j] == shift_rows_state(3, old(state)@)[j],
            forall|j: int| i <= j < 8 ==> #[trigger] state@[j] == old(state)@[j],
    {
        let mut x = state[i];
        delta_swap_1::<2>(&mut x, m1);
        delta_swap_1::<1>(&mut x, m2);
        proof {
            reveal(shift_rows_state);
            lemma_shift_rows_delta_swaps(old(state)@[i as int].0);
        }
        assert(x == shift_rows_state(3, old(state)@)[i as int]);
        state[i] = x;
    }
    assert(state@ =~= shift_rows_state(3, old(state)@));
}

/// Applies InvShiftRows 1 time: the same as ShiftRows 3 times.
pub fn inv_shift_rows_1(state: &mut [Lane])
    requires
        old(state)@.len() == 8,
    ensures
        final(state)@ == shift_rows_state(3, old(state)@),
{
    proof {
        reveal(shift_rows_state);
    }
    shift_rows_3(state);
}

/// Applies InvShiftRows 2 times: the same as ShiftRows 2 times.
pub fn inv_shift_rows_2(state: &mut [Lane])
    requires
        old(state)@.len() == 8,
    ensures
        final(state)@ == shift_rows_state(2, old(state)@),
{
    proof {
        reveal(shift_rows_state);
    }
    shift_rows_2(state);
}

/// Applies InvShiftRows 3 times: the same as ShiftRows 1 time.
pub fn inv_shift_rows_3(state: &mut [Lane])
    requires
        old(state)@.len() == 8,
    ensures
        final(state)@ == shift_rows_state(1, old(state)@),
{
    proof {
        reveal(shift_rows_state);
    }
    shift_rows_1(state);
}

} // verus!

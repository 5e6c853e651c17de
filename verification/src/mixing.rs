//! MixColumns in the fixsliced representation. The fixsliced encryption
//! omits ShiftRows, so the rows of the state drift from round to round;
//! `mix_columns_k` is MixColumns for a state whose rows have drifted by
//! `k` positions (round number modulo 4), built from two cell rotations.

use vstd::prelude::*;
use crate::lane::{Lane, State, byte_of, le16, rotr128, ror_b};
use crate::bitslice::{uniform_lane, uniform_state};
use crate::standard::{aes_mix_columns, aes_shift_rows_n};
use crate::equivalence::{
    block_of, lemma_mix_columns_0_blocks, lemma_mix_columns_1_blocks, lemma_mix_columns_2_blocks,
    lemma_mix_columns_3_blocks, lemma_inv_mix_columns_0_blocks, lemma_inv_mix_columns_1_blocks,
    lemma_inv_mix_columns_2_blocks, lemma_inv_mix_columns_3_blocks,
};

verus! {

/// Rotates every column of the plane by one row (32 bits).
pub open spec fn rotate_rows_1_spec(x: u128) -> u128 {
    rotr128(x, 32)
}

/// Rotates every column of the plane by two rows (64 bits).
pub open spec fn rotate_rows_2_spec(x: u128) -> u128 {
    rotr128(x, 64)
}

#[verifier::opaque]
/// Byte permutation of a plane: cell `k` of the result is cell `[5, 6, 7, 4, 9, 10, 11, 8, 13, 14, 15, 12, 1, 2, 3, 0][k]`
/// of `x`.
pub open spec fn rotate_rows_and_columns_1_1_spec(x: u128) -> u128 {
    le16(byte_of(x, 40), byte_of(x, 48), byte_of(x, 56), byte_of(x, 32), byte_of(x, 72), byte_of(x, 80), byte_of(x, 88), byte_of(x, 64), byte_of(x, 104), byte_of(x, 112), byte_of(x, 120), byte_of(x, 96), byte_of(x, 8), byte_of(x, 16), byte_of(x, 24), byte_of(x, 0))
}

#[verifier::opaque]
/// Byte permutation of a plane: cell `k` of the result is cell `[6, 7, 4, 5, 10, 11, 8, 9, 14, 15, 12, 13, 2, 3, 0, 1][k]`
/// of `x`.
pub open spec fn rotate_rows_and_columns_1_2_spec(x: u128) -> u128 {
    le16(byte_of(x, 48), byte_of(x, 56), byte_of(x, 32), byte_of(x, 40), byte_of(x, 80), byte_of(x, 88), byte_of(x, 64), byte_of(x, 72), byte_of(x, 112), byte_of(x, 120), byte_of(x, 96), byte_of(x, 104), byte_of(x, 16), byte_of(x, 24), byte_of(x, 0), byte_of(x, 8))
}

#[verifier::opaque]
/// Byte permutation of a plane: cell `k` of the result is cell `[7, 4, 5, 6, 11, 8, 9, 10, 15, 12, 13, 14, 3, 0, 1, 2][k]`
/// of `x`.
pub open spec fn rotate_rows_and_columns_1_3_spec(x: u128) -> u128 {
    le16(byte_of(x, 56), byte_of(x, 32), byte_of(x, 40), byte_of(x, 48), byte_of(x, 88), byte_of(x, 64), byte_of(x, 72), byte_of(x, 80), byte_of(x, 120), byte_of(x, 96), byte_of(x, 104), byte_of(x, 112), byte_of(x, 24), byte_of(x, 0), byte_of(x, 8), byte_of(x, 16))
}

#[verifier::opaque]
/// Byte permutation of a plane: cell `k` of the result is cell `[10, 11, 8, 9, 14, 15, 12, 13, 2, 3, 0, 1, 6, 7, 4, 5][k]`
/// of `x`.
pub open spec fn rotate_rows_and_columns_2_2_spec(x: u128) -> u128 {
    le16(byte_of(x, 80), byte_of(x, 88), byte_of(x, 64), byte_of(x, 72), byte_of(x, 112), byte_of(x, 120), byte_of(x, 96), byte_of(x, 104), byte_of(x, 16), byte_of(x, 24), byte_of(x, 0), byte_of(x, 8), byte_of(x, 48), byte_of(x, 56), byte_of(x, 32), byte_of(x, 40))
}

/// Rotates the plane by one row (a right rotation by four bytes).
pub fn rotate_rows_1(x: Lane) -> (r: Lane)
    ensures
        r.0 == rotate_rows_1_spec(x.0),
{
    ror_b::<4>(x)
}

/// Rotates the plane by two rows (a right rotation by eight bytes).
pub fn rotate_rows_2(x: Lane) -> (r: Lane)
    ensures
        r.0 == rotate_rows_2_spec(x.0),
{
    ror_b::<8>(x)
}

/// Permutes the cells of a plane (one byte shuffle), as `rotate_rows_and_columns_1_1_spec` says.
pub fn rotate_rows_and_columns_1_1(x: Lane) -> (r: Lane)
    ensures
        r.0 == rotate_rows_and_columns_1_1_spec(x.0),
{
    proof {
        reveal(rotate_rows_and_columns_1_1_spec);
    }
    let b = x.to_bytes();
    Lane::from_bytes([b[5], b[6], b[7], b[4], b[9], b[10], b[11], b[8], b[13], b[14], b[15], b[12], b[1], b[2], b[3], b[0]])
}

/// Permutes the cells of a plane (one byte shuffle), as `rotate_rows_and_columns_1_2_spec` says.
pub fn rotate_rows_and_columns_1_2(x: Lane) -> (r: Lane)
    ensures
        r.0 == rotate_rows_and_columns_1_2_spec(x.0),
{
    proof {
        reveal(rotate_rows_and_columns_1_2_spec);
    }
    let b = x.to_bytes();
    Lane::from_bytes([b[6], b[7], b[4], b[5], b[10], b[11], b[8], b[9], b[14], b[15], b[12], b[13], b[2], b[3], b[0], b[1]])
}

/// Permutes the cells of a plane (one byte shuffle), as `rotate_rows_and_columns_1_3_spec` says.
pub fn rotate_rows_and_columns_1_3(x: Lane) -> (r: Lane)
    ensures
        r.0 == rotate_rows_and_columns_1_3_spec(x.0),
{
    proof {
        reveal(rotate_rows_and_columns_1_3_spec);
    }
    let b = x.to_bytes();
    Lane::from_bytes([b[7], b[4], b[5], b[6], b[11], b[8], b[9], b[10], b[15], b[12], b[13], b[14], b[3], b[0], b[1], b[2]])
}

/// Permutes the cells of a plane (one byte shuffle), as `rotate_rows_and_columns_2_2_spec` says.
pub fn rotate_rows_and_columns_2_2(x: Lane) -> (r: Lane)
    ensures
        r.0 == rotate_rows_and_columns_2_2_spec(x.0),
{
    proof {
        reveal(rotate_rows_and_columns_2_2_spec);
    }
    let b = x.to_bytes();
    Lane::from_bytes([b[10], b[11], b[8], b[9], b[14], b[15], b[12], b[13], b[2], b[3], b[0], b[1], b[6], b[7], b[4], b[5]])
}

/// The state after `mix_columns_0`.
#[verifier::opaque]
pub open spec fn mix_columns_0_spec(s: Seq<Lane>) -> Seq<Lane> {
    let r1 = |x: u128| rotate_rows_1_spec(x);
    let r2 = |x: u128| rotate_rows_2_spec(x);
    let c = |i: int| s[i].0 ^ r1(s[i].0);
    Seq::new(8, |i: int| Lane(
        if i == 0 {
            r1(s[0].0) ^ c(7) ^ r2(c(0))
        } else if i == 1 {
            r1(s[1].0) ^ c(0) ^ c(7) ^ r2(c(1))
        } else if i == 2 {
            r1(s[2].0) ^ c(1) ^ r2(c(2))
        } else if i == 3 {
            r1(s[3].0) ^ c(2) ^ c(7) ^ r2(c(3))
        } else if i == 4 {
            r1(s[4].0) ^ c(3) ^ c(7) ^ r2(c(4))
        } else if i == 5 {
            r1(s[5].0) ^ c(4) ^ r2(c(5))
        } else if i == 6 {
            r1(s[6].0) ^ c(5) ^ r2(c(6))
        } else {
            r1(s[7].0) ^ c(6) ^ r2(c(7))
        }
    ))
}

/// The state after `inv_mix_columns_0`.
#[verifier::opaque]
pub open spec fn inv_mix_columns_0_spec(s: Seq<Lane>) -> Seq<Lane> {
    let r1 = |x: u128| rotate_rows_1_spec(x);
    let r2 = |x: u128| rotate_rows_2_spec(x);
    let c = |i: int| s[i].0 ^ r1(s[i].0);
    let d = |i: int|
        if i == 0 {
            s[0].0 ^ c(7)
        } else if i == 1 {
            s[1].0 ^ c(0) ^ c(7)
        } else if i == 2 {
            s[2].0 ^ c(1)
        } else if i == 3 {
            s[3].0 ^ c(2) ^ c(7)
        } else if i == 4 {
            s[4].0 ^ c(3) ^ c(7)
        } else if i == 5 {
            s[5].0 ^ c(4)
        } else if i == 6 {
            s[6].0 ^ c(5)
        } else {
            s[7].0 ^ c(6)
        };
    let e = |i: int|
        if i == 0 {
            c(0) ^ d(6)
        } else if i == 1 {
            c(1) ^ d(6) ^ d(7)
        } else if i == 2 {
            c(2) ^ d(0) ^ d(7)
        } else if i == 3 {
            c(3) ^ d(1) ^ d(6)
        } else if i == 4 {
            c(4) ^ d(2) ^ d(6) ^ d(7)
        } else if i == 5 {
            c(5) ^ d(3) ^ d(7)
        } else if i == 6 {
            c(6) ^ d(4)
        } else {
            c(7) ^ d(5)
        };
    Seq::new(8, |i: int| Lane(d(i) ^ e(i) ^ r2(e(i))))
}

/// The state after `mix_columns_1`.
#[verifier::opaque]
pub open spec fn mix_columns_1_spec(s: Seq<Lane>) -> Seq<Lane> {
    let r1 = |x: u128| rotate_rows_and_columns_1_1_spec(x);
    let r2 = |x: u128| rotate_rows_and_columns_2_2_spec(x);
    let c = |i: int| s[i].0 ^ r1(s[i].0);
    Seq::new(8, |i: int| Lane(
        if i == 0 {
            r1(s[0].0) ^ c(7) ^ r2(c(0))
        } else if i == 1 {
            r1(s[1].0) ^ c(0) ^ c(7) ^ r2(c(1))
        } else if i == 2 {
            r1(s[2].0) ^ c(1) ^ r2(c(2))
        } else if i == 3 {
            r1(s[3].0) ^ c(2) ^ c(7) ^ r2(c(3))
        } else if i == 4 {
            r1(s[4].0) ^ c(3) ^ c(7) ^ r2(c(4))
        } else if i == 5 {
            r1(s[5].0) ^ c(4) ^ r2(c(5))
        } else if i == 6 {
            r1(s[6].0) ^ c(5) ^ r2(c(6))
        } else {
            r1(s[7].0) ^ c(6) ^ r2(c(7))
        }
    ))
}

/// The state after `inv_mix_columns_1`.
#[verifier::opaque]
pub open spec fn inv_mix_columns_1_spec(s: Seq<Lane>) -> Seq<Lane> {
    let r1 = |x: u128| rotate_rows_and_columns_1_1_spec(x);
    let r2 = |x: u128| rotate_rows_and_columns_2_2_spec(x);
    let c = |i: int| s[i].0 ^ r1(s[i].0);
    let d = |i: int|
        if i == 0 {
            s[0].0 ^ c(7)
        } else if i == 1 {
            s[1].0 ^ c(0) ^ c(7)
        } else if i == 2 {
            s[2].0 ^ c(1)
        } else if i == 3 {
            s[3].0 ^ c(2) ^ c(7)
        } else if i == 4 {
            s[4].0 ^ c(3) ^ c(7)
        } else if i == 5 {
            s[5].0 ^ c(4)
        } else if i == 6 {
            s[6].0 ^ c(5)
        } else {
            s[7].0 ^ c(6)
        };
    let e = |i: int|
        if i == 0 {
            c(0) ^ d(6)
        } else if i == 1 {
            c(1) ^ d(6) ^ d(7)
        } else if i == 2 {
            c(2) ^ d(0) ^ d(7)
        } else if i == 3 {
            c(3) ^ d(1) ^ d(6)
        } else if i == 4 {
            c(4) ^ d(2) ^ d(6) ^ d(7)
        } else if i == 5 {
            c(5) ^ d(3) ^ d(7)
        } else if i == 6 {
            c(6) ^ d(4)
        } else {
            c(7) ^ d(5)
        };
    Seq::new(8, |i: int| Lane(d(i) ^ e(i) ^ r2(e(i))))
}

/// The state after `mix_columns_2`.
#[verifier::opaque]
pub open spec fn mix_columns_2_spec(s: Seq<Lane>) -> Seq<Lane> {
    let r1 = |x: u128| rotate_rows_and_columns_1_2_spec(x);
    let r2 = |x: u128| rotate_rows_2_spec(x);
    let c = |i: int| s[i].0 ^ r1(s[i].0);
    Seq::new(8, |i: int| Lane(
        if i == 0 {
            r1(s[0].0) ^ c(7) ^ r2(c(0))
        } else if i == 1 {
            r1(s[1].0) ^ c(0) ^ c(7) ^ r2(c(1))
        } else if i == 2 {
            r1(s[2].0) ^ c(1) ^ r2(c(2))
        } else if i == 3 {
            r1(s[3].0) ^ c(2) ^ c(7) ^ r2(c(3))
        } else if i == 4 {
            r1(s[4].0) ^ c(3) ^ c(7) ^ r2(c(4))
        } else if i == 5 {
            r1(s[5].0) ^ c(4) ^ r2(c(5))
        } else if i == 6 {
            r1(s[6].0) ^ c(5) ^ r2(c(6))
        } else {
            r1(s[7].0) ^ c(6) ^ r2(c(7))
        }
    ))
}

/// The state after `inv_mix_columns_2`.
#[verifier::opaque]
pub open spec fn inv_mix_columns_2_spec(s: Seq<Lane>) -> Seq<Lane> {
    let r1 = |x: u128| rotate_rows_and_columns_1_2_spec(x);
    let r2 = |x: u128| rotate_rows_2_spec(x);
    let c = |i: int| s[i].0 ^ r1(s[i].0);
    let d = |i: int|
        if i == 0 {
            s[0].0 ^ c(7)
        } else if i == 1 {
            s[1].0 ^ c(0) ^ c(7)
        } else if i == 2 {
            s[2].0 ^ c(1)
        } else if i == 3 {
            s[3].0 ^ c(2) ^ c(7)
        } else if i == 4 {
            s[4].0 ^ c(3) ^ c(7)
        } else if i == 5 {
            s[5].0 ^ c(4)
        } else if i == 6 {
            s[6].0 ^ c(5)
        } else {
            s[7].0 ^ c(6)
        };
    let e = |i: int|
        if i == 0 {
            c(0) ^ d(6)
        } else if i == 1 {
            c(1) ^ d(6) ^ d(7)
        } else if i == 2 {
            c(2) ^ d(0) ^ d(7)
        } else if i == 3 {
            c(3) ^ d(1) ^ d(6)
        } else if i == 4 {
            c(4) ^ d(2) ^ d(6) ^ d(7)
        } else if i == 5 {
            c(5) ^ d(3) ^ d(7)
        } else if i == 6 {
            c(6) ^ d(4)
        } else {
            c(7) ^ d(5)
        };
    Seq::new(8, |i: int| Lane(d(i) ^ e(i) ^ r2(e(i))))
}

/// The state after `mix_columns_3`.
#[verifier::opaque]
pub open spec fn mix_columns_3_spec(s: Seq<Lane>) -> Seq<Lane> {
    let r1 = |x: u128| rotate_rows_and_columns_1_3_spec(x);
    let r2 = |x: u128| rotate_rows_and_columns_2_2_spec(x);
    let c = |i: int| s[i].0 ^ r1(s[i].0);
    Seq::new(8, |i: int| Lane(
        if i == 0 {
            r1(s[0].0) ^ c(7) ^ r2(c(0))
        } else if i == 1 {
            r1(s[1].0) ^ c(0) ^ c(7) ^ r2(c(1))
        } else if i == 2 {
            r1(s[2].0) ^ c(1) ^ r2(c(2))
        } else if i == 3 {
            r1(s[3].0) ^ c(2) ^ c(7) ^ r2(c(3))
        } else if i == 4 {
            r1(s[4].0) ^ c(3) ^ c(7) ^ r2(c(4))
        } else if i == 5 {
            r1(s[5].0) ^ c(4) ^ r2(c(5))
        } else if i == 6 {
            r1(s[6].0) ^ c(5) ^ r2(c(6))
        } else {
            r1(s[7].0) ^ c(6) ^ r2(c(7))
        }
    ))
}

/// The state after `inv_mix_columns_3`.
#[verifier::opaque]
pub open spec fn inv_mix_columns_3_spec(s: Seq<Lane>) -> Seq<Lane> {
    let r1 = |x: u128| rotate_rows_and_columns_1_3_spec(x);
    let r2 = |x: u128| rotate_rows_and_columns_2_2_spec(x);
    let c = |i: int| s[i].0 ^ r1(s[i].0);
    let d = |i: int|
        if i == 0 {
            s[0].0 ^ c(7)
        } else if i == 1 {
            s[1].0 ^ c(0) ^ c(7)
        } else if i == 2 {
            s[2].0 ^ c(1)
        } else if i == 3 {
            s[3].0 ^ c(2) ^ c(7)
        } else if i == 4 {
            s[4].0 ^ c(3) ^ c(7)
        } else if i == 5 {
            s[5].0 ^ c(4)
        } else if i == 6 {
            s[6].0 ^ c(5)
        } else {
            s[7].0 ^ c(6)
        };
    let e = |i: int|
        if i == 0 {
            c(0) ^ d(6)
        } else if i == 1 {
            c(1) ^ d(6) ^ d(7)
        } else if i == 2 {
            c(2) ^ d(0) ^ d(7)
        } else if i == 3 {
            c(3) ^ d(1) ^ d(6)
        } else if i == 4 {
            c(4) ^ d(2) ^ d(6) ^ d(7)
        } else if i == 5 {
            c(5) ^ d(3) ^ d(7)
        } else if i == 6 {
            c(6) ^ d(4)
        } else {
            c(7) ^ d(5)
        };
    Seq::new(8, |i: int| Lane(d(i) ^ e(i) ^ r2(e(i))))
}

/// MixColumns on a state whose rows have drifted by 0 positions.
pub fn mix_columns_0(state: &mut State)
    ensures
        final(state)@ == mix_columns_0_spec(old(state)@),
        forall|k: int| 0 <= k < 8 ==> #[trigger] block_of(final(state)@, k) == aes_mix_columns(block_of(old(state)@, k)),
{
    proof {
        reveal(mix_columns_0_spec);
    }
    let a0: Lane = state[0];
    let a1: Lane = state[1];
    let a2: Lane = state[2];
    let a3: Lane = state[3];
    let a4: Lane = state[4];
    let a5: Lane = state[5];
    let a6: Lane = state[6];
    let a7: Lane = state[7];
    let b0: Lane = rotate_rows_1(a0);
    let b1: Lane = rotate_rows_1(a1);
    let b2: Lane = rotate_rows_1(a2);
    let b3: Lane = rotate_rows_1(a3);
    let b4: Lane = rotate_rows_1(a4);
    let b5: Lane = rotate_rows_1(a5);
    let b6: Lane = rotate_rows_1(a6);
    let b7: Lane = rotate_rows_1(a7);
    let c0: u128 = a0.0 ^ b0.0;
    let c1: u128 = a1.0 ^ b1.0;
    let c2: u128 = a2.0 ^ b2.0;
    let c3: u128 = a3.0 ^ b3.0;
    let c4: u128 = a4.0 ^ b4.0;
    let c5: u128 = a5.0 ^ b5.0;
    let c6: u128 = a6.0 ^ b6.0;
    let c7: u128 = a7.0 ^ b7.0;
    state[0] = Lane(b0.0 ^ c7 ^ rotate_rows_2(Lane(c0)).0);
    state[1] = Lane(b1.0 ^ c0 ^ c7 ^ rotate_rows_2(Lane(c1)).0);
    state[2] = Lane(b2.0 ^ c1 ^ rotate_rows_2(Lane(c2)).0);
    state[3] = Lane(b3.0 ^ c2 ^ c7 ^ rotate_rows_2(Lane(c3)).0);
    state[4] = Lane(b4.0 ^ c3 ^ c7 ^ rotate_rows_2(Lane(c4)).0);
    state[5] = Lane(b5.0 ^ c4 ^ rotate_rows_2(Lane(c5)).0);
    state[6] = Lane(b6.0 ^ c5 ^ rotate_rows_2(Lane(c6)).0);
    state[7] = Lane(b7.0 ^ c6 ^ rotate_rows_2(Lane(c7)).0);
    assert(state@ =~= mix_columns_0_spec(old(state)@));
    proof {
        lemma_mix_columns_0_blocks(old(state)@);
    }
}

/// InvMixColumns on a state whose rows have drifted by 0 positions.
pub fn inv_mix_columns_0(state: &mut State)
    ensures
        final(state)@ == inv_mix_columns_0_spec(old(state)@),
        forall|k: int| 0 <= k < 8 ==> #[trigger] aes_mix_columns(block_of(final(state)@, k)) == block_of(old(state)@, k),
{
    proof {
        reveal(inv_mix_columns_0_spec);
    }
    let a0: Lane = state[0];
    let a1: Lane = state[1];
    let a2: Lane = state[2];
    let a3: Lane = state[3];
    let a4: Lane = state[4];
    let a5: Lane = state[5];
    let a6: Lane = state[6];
    let a7: Lane = state[7];
    let b0: Lane = rotate_rows_1(a0);
    let b1: Lane = rotate_rows_1(a1);
    let b2: Lane = rotate_rows_1(a2);
    let b3: Lane = rotate_rows_1(a3);
    let b4: Lane = rotate_rows_1(a4);
    let b5: Lane = rotate_rows_1(a5);
    let b6: Lane = rotate_rows_1(a6);
    let b7: Lane = rotate_rows_1(a7);
    let c0: u128 = a0.0 ^ b0.0;
    let c1: u128 = a1.0 ^ b1.0;
    let c2: u128 = a2.0 ^ b2.0;
    let c3: u128 = a3.0 ^ b3.0;
    let c4: u128 = a4.0 ^ b4.0;
    let c5: u128 = a5.0 ^ b5.0;
    let c6: u128 = a6.0 ^ b6.0;
    let c7: u128 = a7.0 ^ b7.0;
    let d0: u128 = a0.0 ^ c7;
    let d1: u128 = a1.0 ^ c0 ^ c7;
    let d2: u128 = a2.0 ^ c1;
    let d3: u128 = a3.0 ^ c2 ^ c7;
    let d4: u128 = a4.0 ^ c3 ^ c7;
    let d5: u128 = a5.0 ^ c4;
    let d6: u128 = a6.0 ^ c5;
    let d7: u128 = a7.0 ^ c6;
    let e0: u128 = c0 ^ d6;
    let e1: u128 = c1 ^ d6 ^ d7;
    let e2: u128 = c2 ^ d0 ^ d7;
    let e3: u128 = c3 ^ d1 ^ d6;
    let e4: u128 = c4 ^ d2 ^ d6 ^ d7;
    let e5: u128 = c5 ^ d3 ^ d7;
    let e6: u128 = c6 ^ d4;
    let e7: u128 = c7 ^ d5;
    state[0] = Lane(d0 ^ e0 ^ rotate_rows_2(Lane(e0)).0);
    state[1] = Lane(d1 ^ e1 ^ rotate_rows_2(Lane(e1)).0);
    state[2] = Lane(d2 ^ e2 ^ rotate_rows_2(Lane(e2)).0);
    state[3] = Lane(d3 ^ e3 ^ rotate_rows_2(Lane(e3)).0);
    state[4] = Lane(d4 ^ e4 ^ rotate_rows_2(Lane(e4)).0);
    state[5] = Lane(d5 ^ e5 ^ rotate_rows_2(Lane(e5)).0);
    state[6] = Lane(d6 ^ e6 ^ rotate_rows_2(Lane(e6)).0);
    state[7] = Lane(d7 ^ e7 ^ rotate_rows_2(Lane(e7)).0);
    assert(state@ =~= inv_mix_columns_0_spec(old(state)@));
    proof {
        lemma_inv_mix_columns_0_blocks(old(state)@);
    }
}

/// MixColumns on a state whose rows have drifted by 1 positions.
pub fn mix_columns_1(state: &mut State)
    ensures
        final(state)@ == mix_columns_1_spec(old(state)@),
        forall|k: int| 0 <= k < 8 ==> #[trigger] block_of(final(state)@, k) == aes_shift_rows_n(3, aes_mix_columns(aes_shift_rows_n(1, block_of(old(state)@, k)))),
{
    proof {
        reveal(mix_columns_1_spec);
    }
    let a0: Lane = state[0];
    let a1: Lane = state[1];
    let a2: Lane = state[2];
    let a3: Lane = state[3];
    let a4: Lane = state[4];
    let a5: Lane = state[5];
    let a6: Lane = state[6];
    let a7: Lane = state[7];
    let b0: Lane = rotate_rows_and_columns_1_1(a0);
    let b1: Lane = rotate_rows_and_columns_1_1(a1);
    let b2: Lane = rotate_rows_and_columns_1_1(a2);
    let b3: Lane = rotate_rows_and_columns_1_1(a3);
    let b4: Lane = rotate_rows_and_columns_1_1(a4);
    let b5: Lane = rotate_rows_and_columns_1_1(a5);
    let b6: Lane = rotate_rows_and_columns_1_1(a6);
    let b7: Lane = rotate_rows_and_columns_1_1(a7);
    let c0: u128 = a0.0 ^ b0.0;
    let c1: u128 = a1.0 ^ b1.0;
    let c2: u128 = a2.0 ^ b2.0;
    let c3: u128 = a3.0 ^ b3.0;
    let c4: u128 = a4.0 ^ b4.0;
    let c5: u128 = a5.0 ^ b5.0;
    let c6: u128 = a6.0 ^ b6.0;
    let c7: u128 = a7.0 ^ b7.0;
    state[0] = Lane(b0.0 ^ c7 ^ rotate_rows_and_columns_2_2(Lane(c0)).0);
    state[1] = Lane(b1.0 ^ c0 ^ c7 ^ rotate_rows_and_columns_2_2(Lane(c1)).0);
    state[2] = Lane(b2.0 ^ c1 ^ rotate_rows_and_columns_2_2(Lane(c2)).0);
    state[3] = Lane(b3.0 ^ c2 ^ c7 ^ rotate_rows_and_columns_2_2(Lane(c3)).0);
    state[4] = Lane(b4.0 ^ c3 ^ c7 ^ rotate_rows_and_columns_2_2(Lane(c4)).0);
    state[5] = Lane(b5.0 ^ c4 ^ rotate_rows_and_columns_2_2(Lane(c5)).0);
    state[6] = Lane(b6.0 ^ c5 ^ rotate_rows_and_columns_2_2(Lane(c6)).0);
    state[7] = Lane(b7.0 ^ c6 ^ rotate_rows_and_columns_2_2(Lane(c7)).0);
    assert(state@ =~= mix_columns_1_spec(old(state)@));
    proof {
        lemma_mix_columns_1_blocks(old(state)@);
    }
}

/// InvMixColumns on a state whose rows have drifted by 1 positions.
pub fn inv_mix_columns_1(state: &mut State)
    ensures
        final(state)@ == inv_mix_columns_1_spec(old(state)@),
        forall|k: int| 0 <= k < 8 ==> #[trigger] aes_shift_rows_n(3, aes_mix_columns(aes_shift_rows_n(1, block_of(final(state)@, k)))) == block_of(old(state)@, k),
{
    proof {
        reveal(inv_mix_columns_1_spec);
    }
    let a0: Lane = state[0];
    let a1: Lane = state[1];
    let a2: Lane = state[2];
    let a3: Lane = state[3];
    let a4: Lane = state[4];
    let a5: Lane = state[5];
    let a6: Lane = state[6];
    let a7: Lane = state[7];
    let b0: Lane = rotate_rows_and_columns_1_1(a0);
    let b1: Lane = rotate_rows_and_columns_1_1(a1);
    let b2: Lane = rotate_rows_and_columns_1_1(a2);
    let b3: Lane = rotate_rows_and_columns_1_1(a3);
    let b4: Lane = rotate_rows_and_columns_1_1(a4);
    let b5: Lane = rotate_rows_and_columns_1_1(a5);
    let b6: Lane = rotate_rows_and_columns_1_1(a6);
    let b7: Lane = rotate_rows_and_columns_1_1(a7);
    let c0: u128 = a0.0 ^ b0.0;
    let c1: u128 = a1.0 ^ b1.0;
    let c2: u128 = a2.0 ^ b2.0;
    let c3: u128 = a3.0 ^ b3.0;
    let c4: u128 = a4.0 ^ b4.0;
    let c5: u128 = a5.0 ^ b5.0;
    let c6: u128 = a6.0 ^ b6.0;
    let c7: u128 = a7.0 ^ b7.0;
    let d0: u128 = a0.0 ^ c7;
    let d1: u128 = a1.0 ^ c0 ^ c7;
    let d2: u128 = a2.0 ^ c1;
    let d3: u128 = a3.0 ^ c2 ^ c7;
    let d4: u128 = a4.0 ^ c3 ^ c7;
    let d5: u128 = a5.0 ^ c4;
    let d6: u128 = a6.0 ^ c5;
    let d7: u128 = a7.0 ^ c6;
    let e0: u128 = c0 ^ d6;
    let e1: u128 = c1 ^ d6 ^ d7;
    let e2: u128 = c2 ^ d0 ^ d7;
    let e3: u128 = c3 ^ d1 ^ d6;
    let e4: u128 = c4 ^ d2 ^ d6 ^ d7;
    let e5: u128 = c5 ^ d3 ^ d7;
    let e6: u128 = c6 ^ d4;
    let e7: u128 = c7 ^ d5;
    state[0] = Lane(d0 ^ e0 ^ rotate_rows_and_columns_2_2(Lane(e0)).0);
    state[1] = Lane(d1 ^ e1 ^ rotate_rows_and_columns_2_2(Lane(e1)).0);
    state[2] = Lane(d2 ^ e2 ^ rotate_rows_and_columns_2_2(Lane(e2)).0);
    state[3] = Lane(d3 ^ e3 ^ rotate_rows_and_columns_2_2(Lane(e3)).0);
    state[4] = Lane(d4 ^ e4 ^ rotate_rows_and_columns_2_2(Lane(e4)).0);
    state[5] = Lane(d5 ^ e5 ^ rotate_rows_and_columns_2_2(Lane(e5)).0);
    state[6] = Lane(d6 ^ e6 ^ rotate_rows_and_columns_2_2(Lane(e6)).0);
    state[7] = Lane(d7 ^ e7 ^ rotate_rows_and_columns_2_2(Lane(e7)).0);
    assert(state@ =~= inv_mix_columns_1_spec(old(state)@));
    proof {
        lemma_inv_mix_columns_1_blocks(old(state)@);
    }
}

/// MixColumns on a state whose rows have drifted by 2 positions.
pub fn mix_columns_2(state: &mut State)
    ensures
        final(state)@ == mix_columns_2_spec(old(state)@),
        forall|k: int| 0 <= k < 8 ==> #[trigger] block_of(final(state)@, k) == aes_shift_rows_n(2, aes_mix_columns(aes_shift_rows_n(2, block_of(old(state)@, k)))),
{
    proof {
        reveal(mix_columns_2_spec);
    }
    let a0: Lane = state[0];
    let a1: Lane = state[1];
    let a2: Lane = state[2];
    let a3: Lane = state[3];
    let a4: Lane = state[4];
    let a5: Lane = state[5];
    let a6: Lane = state[6];
    let a7: Lane = state[7];
    let b0: Lane = rotate_rows_and_columns_1_2(a0);
    let b1: Lane = rotate_rows_and_columns_1_2(a1);
    let b2: Lane = rotate_rows_and_columns_1_2(a2);
    let b3: Lane = rotate_rows_and_columns_1_2(a3);
    let b4: Lane = rotate_rows_and_columns_1_2(a4);
    let b5: Lane = rotate_rows_and_columns_1_2(a5);
    let b6: Lane = rotate_rows_and_columns_1_2(a6);
    let b7: Lane = rotate_rows_and_columns_1_2(a7);
    let c0: u128 = a0.0 ^ b0.0;
    let c1: u128 = a1.0 ^ b1.0;
    let c2: u128 = a2.0 ^ b2.0;
    let c3: u128 = a3.0 ^ b3.0;
    let c4: u128 = a4.0 ^ b4.0;
    let c5: u128 = a5.0 ^ b5.0;
    let c6: u128 = a6.0 ^ b6.0;
    let c7: u128 = a7.0 ^ b7.0;
    state[0] = Lane(b0.0 ^ c7 ^ rotate_rows_2(Lane(c0)).0);
    state[1] = Lane(b1.0 ^ c0 ^ c7 ^ rotate_rows_2(Lane(c1)).0);
    state[2] = Lane(b2.0 ^ c1 ^ rotate_rows_2(Lane(c2)).0);
    state[3] = Lane(b3.0 ^ c2 ^ c7 ^ rotate_rows_2(Lane(c3)).0);
    state[4] = Lane(b4.0 ^ c3 ^ c7 ^ rotate_rows_2(Lane(c4)).0);
    state[5] = Lane(b5.0 ^ c4 ^ rotate_rows_2(Lane(c5)).0);
    state[6] = Lane(b6.0 ^ c5 ^ rotate_rows_2(Lane(c6)).0);
    state[7] = Lane(b7.0 ^ c6 ^ rotate_rows_2(Lane(c7)).0);
    assert(state@ =~= mix_columns_2_spec(old(state)@));
    proof {
        lemma_mix_columns_2_blocks(old(state)@);
    }
}

/// InvMixColumns on a state whose rows have drifted by 2 positions.
pub fn inv_mix_columns_2(state: &mut State)
    ensures
        final(state)@ == inv_mix_columns_2_spec(old(state)@),
        forall|k: int| 0 <= k < 8 ==> #[trigger] aes_shift_rows_n(2, aes_mix_columns(aes_shift_rows_n(2, block_of(final(state)@, k)))) == block_of(old(state)@, k),
{
    proof {
        reveal(inv_mix_columns_2_spec);
    }
    let a0: Lane = state[0];
    let a1: Lane = state[1];
    let a2: Lane = state[2];
    let a3: Lane = state[3];
    let a4: Lane = state[4];
    let a5: Lane = state[5];
    let a6: Lane = state[6];
    let a7: Lane = state[7];
    let b0: Lane = rotate_rows_and_columns_1_2(a0);
    let b1: Lane = rotate_rows_and_columns_1_2(a1);
    let b2: Lane = rotate_rows_and_columns_1_2(a2);
    let b3: Lane = rotate_rows_and_columns_1_2(a3);
    let b4: Lane = rotate_rows_and_columns_1_2(a4);
    let b5: Lane = rotate_rows_and_columns_1_2(a5);
    let b6: Lane = rotate_rows_and_columns_1_2(a6);
    let b7: Lane = rotate_rows_and_columns_1_2(a7);
    let c0: u128 = a0.0 ^ b0.0;
    let c1: u128 = a1.0 ^ b1.0;
    let c2: u128 = a2.0 ^ b2.0;
    let c3: u128 = a3.0 ^ b3.0;
    let c4: u128 = a4.0 ^ b4.0;
    let c5: u128 = a5.0 ^ b5.0;
    let c6: u128 = a6.0 ^ b6.0;
    let c7: u128 = a7.0 ^ b7.0;
    let d0: u128 = a0.0 ^ c7;
    let d1: u128 = a1.0 ^ c0 ^ c7;
    let d2: u128 = a2.0 ^ c1;
    let d3: u128 = a3.0 ^ c2 ^ c7;
    let d4: u128 = a4.0 ^ c3 ^ c7;
    let d5: u128 = a5.0 ^ c4;
    let d6: u128 = a6.0 ^ c5;
    let d7: u128 = a7.0 ^ c6;
    let e0: u128 = c0 ^ d6;
    let e1: u128 = c1 ^ d6 ^ d7;
    let e2: u128 = c2 ^ d0 ^ d7;
    let e3: u128 = c3 ^ d1 ^ d6;
    let e4: u128 = c4 ^ d2 ^ d6 ^ d7;
    let e5: u128 = c5 ^ d3 ^ d7;
    let e6: u128 = c6 ^ d4;
    let e7: u128 = c7 ^ d5;
    state[0] = Lane(d0 ^ e0 ^ rotate_rows_2(Lane(e0)).0);
    state[1] = Lane(d1 ^ e1 ^ rotate_rows_2(Lane(e1)).0);
    state[2] = Lane(d2 ^ e2 ^ rotate_rows_2(Lane(e2)).0);
    state[3] = Lane(d3 ^ e3 ^ rotate_rows_2(Lane(e3)).0);
    state[4] = Lane(d4 ^ e4 ^ rotate_rows_2(Lane(e4)).0);
    state[5] = Lane(d5 ^ e5 ^ rotate_rows_2(Lane(e5)).0);
    state[6] = Lane(d6 ^ e6 ^ rotate_rows_2(Lane(e6)).0);
    state[7] = Lane(d7 ^ e7 ^ rotate_rows_2(Lane(e7)).0);
    assert(state@ =~= inv_mix_columns_2_spec(old(state)@));
    proof {
        lemma_inv_mix_columns_2_blocks(old(state)@);
    }
}

/// MixColumns on a state whose rows have drifted by 3 positions.
pub fn mix_columns_3(state: &mut State)
    ensures
        final(state)@ == mix_columns_3_spec(old(state)@),
        forall|k: int| 0 <= k < 8 ==> #[trigger] block_of(final(state)@, k) == aes_shift_rows_n(1, aes_mix_columns(aes_shift_rows_n(3, block_of(old(state)@, k)))),
{
    proof {
        reveal(mix_columns_3_spec);
    }
    let a0: Lane = state[0];
    let a1: Lane = state[1];
    let a2: Lane = state[2];
    let a3: Lane = state[3];
    let a4: Lane = state[4];
    let a5: Lane = state[5];
    let a6: Lane = state[6];
    let a7: Lane = state[7];
    let b0: Lane = rotate_rows_and_columns_1_3(a0);
    let b1: Lane = rotate_rows_and_columns_1_3(a1);
    let b2: Lane = rotate_rows_and_columns_1_3(a2);
    let b3: Lane = rotate_rows_and_columns_1_3(a3);
    let b4: Lane = rotate_rows_and_columns_1_3(a4);
    let b5: Lane = rotate_rows_and_columns_1_3(a5);
    let b6: Lane = rotate_rows_and_columns_1_3(a6);
    let b7: Lane = rotate_rows_and_columns_1_3(a7);
    let c0: u128 = a0.0 ^ b0.0;
    let c1: u128 = a1.0 ^ b1.0;
    let c2: u128 = a2.0 ^ b2.0;
    let c3: u128 = a3.0 ^ b3.0;
    let c4: u128 = a4.0 ^ b4.0;
    let c5: u128 = a5.0 ^ b5.0;
    let c6: u128 = a6.0 ^ b6.0;
    let c7: u128 = a7.0 ^ b7.0;
    state[0] = Lane(b0.0 ^ c7 ^ rotate_rows_and_columns_2_2(Lane(c0)).0);
    state[1] = Lane(b1.0 ^ c0 ^ c7 ^ rotate_rows_and_columns_2_2(Lane(c1)).0);
    state[2] = Lane(b2.0 ^ c1 ^ rotate_rows_and_columns_2_2(Lane(c2)).0);
    state[3] = Lane(b3.0 ^ c2 ^ c7 ^ rotate_rows_and_columns_2_2(Lane(c3)).0);
    state[4] = Lane(b4.0 ^ c3 ^ c7 ^ rotate_rows_and_columns_2_2(Lane(c4)).0);
    state[5] = Lane(b5.0 ^ c4 ^ rotate_rows_and_columns_2_2(Lane(c5)).0);
    state[6] = Lane(b6.0 ^ c5 ^ rotate_rows_and_columns_2_2(Lane(c6)).0);
    state[7] = Lane(b7.0 ^ c6 ^ rotate_rows_and_columns_2_2(Lane(c7)).0);
    assert(state@ =~= mix_columns_3_spec(old(state)@));
    proof {
        lemma_mix_columns_3_blocks(old(state)@);
    }
}

/// InvMixColumns on a state whose rows have drifted by 3 positions.
pub fn inv_mix_columns_3(state: &mut State)
    ensures
        final(state)@ == inv_mix_columns_3_spec(old(state)@),
        forall|k: int| 0 <= k < 8 ==> #[trigger] aes_shift_rows_n(1, aes_mix_columns(aes_shift_rows_n(3, block_of(final(state)@, k)))) == block_of(old(state)@, k),
{
    proof {
        reveal(inv_mix_columns_3_spec);
    }
    let a0: Lane = state[0];
    let a1: Lane = state[1];
    let a2: Lane = state[2];
    let a3: Lane = state[3];
    let a4: Lane = state[4];
    let a5: Lane = state[5];
    let a6: Lane = state[6];
    let a7: Lane = state[7];
    let b0: Lane = rotate_rows_and_columns_1_3(a0);
    let b1: Lane = rotate_rows_and_columns_1_3(a1);
    let b2: Lane = rotate_rows_and_columns_1_3(a2);
    let b3: Lane = rotate_rows_and_columns_1_3(a3);
    let b4: Lane = rotate_rows_and_columns_1_3(a4);
    let b5: Lane = rotate_rows_and_columns_1_3(a5);
    let b6: Lane = rotate_rows_and_columns_1_3(a6);
    let b7: Lane = rotate_rows_and_columns_1_3(a7);
    let c0: u128 = a0.0 ^ b0.0;
    let c1: u128 = a1.0 ^ b1.0;
    let c2: u128 = a2.0 ^ b2.0;
    let c3: u128 = a3.0 ^ b3.0;
    let c4: u128 = a4.0 ^ b4.0;
    let c5: u128 = a5.0 ^ b5.0;
    let c6: u128 = a6.0 ^ b6.0;
    let c7: u128 = a7.0 ^ b7.0;
    let d0: u128 = a0.0 ^ c7;
    let d1: u128 = a1.0 ^ c0 ^ c7;
    let d2: u128 = a2.0 ^ c1;
    let d3: u128 = a3.0 ^ c2 ^ c7;
    let d4: u128 = a4.0 ^ c3 ^ c7;
    let d5: u128 = a5.0 ^ c4;
    let d6: u128 = a6.0 ^ c5;
    let d7: u128 = a7.0 ^ c6;
    let e0: u128 = c0 ^ d6;
    let e1: u128 = c1 ^ d6 ^ d7;
    let e2: u128 = c2 ^ d0 ^ d7;
    let e3: u128 = c3 ^ d1 ^ d6;
    let e4: u128 = c4 ^ d2 ^ d6 ^ d7;
    let e5: u128 = c5 ^ d3 ^ d7;
    let e6: u128 = c6 ^ d4;
    let e7: u128 = c7 ^ d5;
    state[0] = Lane(d0 ^ e0 ^ rotate_rows_and_columns_2_2(Lane(e0)).0);
    state[1] = Lane(d1 ^ e1 ^ rotate_rows_and_columns_2_2(Lane(e1)).0);
    state[2] = Lane(d2 ^ e2 ^ rotate_rows_and_columns_2_2(Lane(e2)).0);
    state[3] = Lane(d3 ^ e3 ^ rotate_rows_and_columns_2_2(Lane(e3)).0);
    state[4] = Lane(d4 ^ e4 ^ rotate_rows_and_columns_2_2(Lane(e4)).0);
    state[5] = Lane(d5 ^ e5 ^ rotate_rows_and_columns_2_2(Lane(e5)).0);
    state[6] = Lane(d6 ^ e6 ^ rotate_rows_and_columns_2_2(Lane(e6)).0);
    state[7] = Lane(d7 ^ e7 ^ rotate_rows_and_columns_2_2(Lane(e7)).0);
    assert(state@ =~= inv_mix_columns_3_spec(old(state)@));
    proof {
        lemma_inv_mix_columns_3_blocks(old(state)@);
    }
}

/// `inv_mix_columns_0` undoes `mix_columns_0`.
pub proof fn lemma_inv_mix_columns_0_mix_columns_0(s: Seq<Lane>)
    requires
        s.len() == 8,
    ensures
        inv_mix_columns_0_spec(mix_columns_0_spec(s)) == s,
{
    reveal(mix_columns_0_spec);
    reveal(inv_mix_columns_0_spec);
    let a0: u128 = s[0].0;
    let a1: u128 = s[1].0;
    let a2: u128 = s[2].0;
    let a3: u128 = s[3].0;
    let a4: u128 = s[4].0;
    let a5: u128 = s[5].0;
    let a6: u128 = s[6].0;
    let a7: u128 = s[7].0;
    let f_b0: u128 = rotate_rows_1_spec(a0);
    let f_b1: u128 = rotate_rows_1_spec(a1);
    let f_b2: u128 = rotate_rows_1_spec(a2);
    let f_b3: u128 = rotate_rows_1_spec(a3);
    let f_b4: u128 = rotate_rows_1_spec(a4);
    let f_b5: u128 = rotate_rows_1_spec(a5);
    let f_b6: u128 = rotate_rows_1_spec(a6);
    let f_b7: u128 = rotate_rows_1_spec(a7);
    let f_c0: u128 = a0 ^ f_b0;
    let f_c1: u128 = a1 ^ f_b1;
    let f_c2: u128 = a2 ^ f_b2;
    let f_c3: u128 = a3 ^ f_b3;
    let f_c4: u128 = a4 ^ f_b4;
    let f_c5: u128 = a5 ^ f_b5;
    let f_c6: u128 = a6 ^ f_b6;
    let f_c7: u128 = a7 ^ f_b7;
    let f_r0: u128 = f_b0 ^ f_c7 ^ rotate_rows_2_spec(f_c0);
    let f_r1: u128 = f_b1 ^ f_c0 ^ f_c7 ^ rotate_rows_2_spec(f_c1);
    let f_r2: u128 = f_b2 ^ f_c1 ^ rotate_rows_2_spec(f_c2);
    let f_r3: u128 = f_b3 ^ f_c2 ^ f_c7 ^ rotate_rows_2_spec(f_c3);
    let f_r4: u128 = f_b4 ^ f_c3 ^ f_c7 ^ rotate_rows_2_spec(f_c4);
    let f_r5: u128 = f_b5 ^ f_c4 ^ rotate_rows_2_spec(f_c5);
    let f_r6: u128 = f_b6 ^ f_c5 ^ rotate_rows_2_spec(f_c6);
    let f_r7: u128 = f_b7 ^ f_c6 ^ rotate_rows_2_spec(f_c7);
    let g_b0: u128 = rotate_rows_1_spec(f_r0);
    let g_b1: u128 = rotate_rows_1_spec(f_r1);
    let g_b2: u128 = rotate_rows_1_spec(f_r2);
    let g_b3: u128 = rotate_rows_1_spec(f_r3);
    let g_b4: u128 = rotate_rows_1_spec(f_r4);
    let g_b5: u128 = rotate_rows_1_spec(f_r5);
    let g_b6: u128 = rotate_rows_1_spec(f_r6);
    let g_b7: u128 = rotate_rows_1_spec(f_r7);
    let g_c0: u128 = f_r0 ^ g_b0;
    let g_c1: u128 = f_r1 ^ g_b1;
    let g_c2: u128 = f_r2 ^ g_b2;
    let g_c3: u128 = f_r3 ^ g_b3;
    let g_c4: u128 = f_r4 ^ g_b4;
    let g_c5: u128 = f_r5 ^ g_b5;
    let g_c6: u128 = f_r6 ^ g_b6;
    let g_c7: u128 = f_r7 ^ g_b7;
    let g_d0: u128 = f_r0 ^ g_c7;
    let g_d1: u128 = f_r1 ^ g_c0 ^ g_c7;
    let g_d2: u128 = f_r2 ^ g_c1;
    let g_d3: u128 = f_r3 ^ g_c2 ^ g_c7;
    let g_d4: u128 = f_r4 ^ g_c3 ^ g_c7;
    let g_d5: u128 = f_r5 ^ g_c4;
    let g_d6: u128 = f_r6 ^ g_c5;
    let g_d7: u128 = f_r7 ^ g_c6;
    let g_e0: u128 = g_c0 ^ g_d6;
    let g_e1: u128 = g_c1 ^ g_d6 ^ g_d7;
    let g_e2: u128 = g_c2 ^ g_d0 ^ g_d7;
    let g_e3: u128 = g_c3 ^ g_d1 ^ g_d6;
    let g_e4: u128 = g_c4 ^ g_d2 ^ g_d6 ^ g_d7;
    let g_e5: u128 = g_c5 ^ g_d3 ^ g_d7;
    let g_e6: u128 = g_c6 ^ g_d4;
    let g_e7: u128 = g_c7 ^ g_d5;
    let g_r0: u128 = g_d0 ^ g_e0 ^ rotate_rows_2_spec(g_e0);
    let g_r1: u128 = g_d1 ^ g_e1 ^ rotate_rows_2_spec(g_e1);
    let g_r2: u128 = g_d2 ^ g_e2 ^ rotate_rows_2_spec(g_e2);
    let g_r3: u128 = g_d3 ^ g_e3 ^ rotate_rows_2_spec(g_e3);
    let g_r4: u128 = g_d4 ^ g_e4 ^ rotate_rows_2_spec(g_e4);
    let g_r5: u128 = g_d5 ^ g_e5 ^ rotate_rows_2_spec(g_e5);
    let g_r6: u128 = g_d6 ^ g_e6 ^ rotate_rows_2_spec(g_e6);
    let g_r7: u128 = g_d7 ^ g_e7 ^ rotate_rows_2_spec(g_e7);
    assert(g_r0 == a0 && g_r1 == a1 && g_r2 == a2 && g_r3 == a3 && g_r4 == a4 && g_r5 == a5 && g_r6 == a6 && g_r7 == a7) by (bit_vector)
        requires
            f_b0 == rotate_rows_1_spec(a0),
            f_b1 == rotate_rows_1_spec(a1),
            f_b2 == rotate_rows_1_spec(a2),
            f_b3 == rotate_rows_1_spec(a3),
            f_b4 == rotate_rows_1_spec(a4),
            f_b5 == rotate_rows_1_spec(a5),
            f_b6 == rotate_rows_1_spec(a6),
            f_b7 == rotate_rows_1_spec(a7),
            f_c0 == a0 ^ f_b0,
            f_c1 == a1 ^ f_b1,
            f_c2 == a2 ^ f_b2,
            f_c3 == a3 ^ f_b3,
            f_c4 == a4 ^ f_b4,
            f_c5 == a5 ^ f_b5,
            f_c6 == a6 ^ f_b6,
            f_c7 == a7 ^ f_b7,
            f_r0 == f_b0 ^ f_c7 ^ rotate_rows_2_spec(f_c0),
            f_r1 == f_b1 ^ f_c0 ^ f_c7 ^ rotate_rows_2_spec(f_c1),
            f_r2 == f_b2 ^ f_c1 ^ rotate_rows_2_spec(f_c2),
            f_r3 == f_b3 ^ f_c2 ^ f_c7 ^ rotate_rows_2_spec(f_c3),
            f_r4 == f_b4 ^ f_c3 ^ f_c7 ^ rotate_rows_2_spec(f_c4),
            f_r5 == f_b5 ^ f_c4 ^ rotate_rows_2_spec(f_c5),
            f_r6 == f_b6 ^ f_c5 ^ rotate_rows_2_spec(f_c6),
            f_r7 == f_b7 ^ f_c6 ^ rotate_rows_2_spec(f_c7),
            g_b0 == rotate_rows_1_spec(f_r0),
            g_b1 == rotate_rows_1_spec(f_r1),
            g_b2 == rotate_rows_1_spec(f_r2),
            g_b3 == rotate_rows_1_spec(f_r3),
            g_b4 == rotate_rows_1_spec(f_r4),
            g_b5 == rotate_rows_1_spec(f_r5),
            g_b6 == rotate_rows_1_spec(f_r6),
            g_b7 == rotate_rows_1_spec(f_r7),
            g_c0 == f_r0 ^ g_b0,
            g_c1 == f_r1 ^ g_b1,
            g_c2 == f_r2 ^ g_b2,
            g_c3 == f_r3 ^ g_b3,
            g_c4 == f_r4 ^ g_b4,
            g_c5 == f_r5 ^ g_b5,
            g_c6 == f_r6 ^ g_b6,
            g_c7 == f_r7 ^ g_b7,
            g_d0 == f_r0 ^ g_c7,
            g_d1 == f_r1 ^ g_c0 ^ g_c7,
            g_d2 == f_r2 ^ g_c1,
            g_d3 == f_r3 ^ g_c2 ^ g_c7,
            g_d4 == f_r4 ^ g_c3 ^ g_c7,
            g_d5 == f_r5 ^ g_c4,
            g_d6 == f_r6 ^ g_c5,
            g_d7 == f_r7 ^ g_c6,
            g_e0 == g_c0 ^ g_d6,
            g_e1 == g_c1 ^ g_d6 ^ g_d7,
            g_e2 == g_c2 ^ g_d0 ^ g_d7,
            g_e3 == g_c3 ^ g_d1 ^ g_d6,
            g_e4 == g_c4 ^ g_d2 ^ g_d6 ^ g_d7,
            g_e5 == g_c5 ^ g_d3 ^ g_d7,
            g_e6 == g_c6 ^ g_d4,
            g_e7 == g_c7 ^ g_d5,
            g_r0 == g_d0 ^ g_e0 ^ rotate_rows_2_spec(g_e0),
            g_r1 == g_d1 ^ g_e1 ^ rotate_rows_2_spec(g_e1),
            g_r2 == g_d2 ^ g_e2 ^ rotate_rows_2_spec(g_e2),
            g_r3 == g_d3 ^ g_e3 ^ rotate_rows_2_spec(g_e3),
            g_r4 == g_d4 ^ g_e4 ^ rotate_rows_2_spec(g_e4),
            g_r5 == g_d5 ^ g_e5 ^ rotate_rows_2_spec(g_e5),
            g_r6 == g_d6 ^ g_e6 ^ rotate_rows_2_spec(g_e6),
            g_r7 == g_d7 ^ g_e7 ^ rotate_rows_2_spec(g_e7),
    ;
    let t = mix_columns_0_spec(s);
    assert(t[0].0 == f_r0);
    assert(t[1].0 == f_r1);
    assert(t[2].0 == f_r2);
    assert(t[3].0 == f_r3);
    assert(t[4].0 == f_r4);
    assert(t[5].0 == f_r5);
    assert(t[6].0 == f_r6);
    assert(t[7].0 == f_r7);
    assert(inv_mix_columns_0_spec(t) =~= s);
}

/// `mix_columns_0` undoes `inv_mix_columns_0`.
pub proof fn lemma_mix_columns_0_inv_mix_columns_0(s: Seq<Lane>)
    requires
        s.len() == 8,
    ensures
        mix_columns_0_spec(inv_mix_columns_0_spec(s)) == s,
{
    reveal(mix_columns_0_spec);
    reveal(inv_mix_columns_0_spec);
    let a0: u128 = s[0].0;
    let a1: u128 = s[1].0;
    let a2: u128 = s[2].0;
    let a3: u128 = s[3].0;
    let a4: u128 = s[4].0;
    let a5: u128 = s[5].0;
    let a6: u128 = s[6].0;
    let a7: u128 = s[7].0;
    let f_b0: u128 = rotate_rows_1_spec(a0);
    let f_b1: u128 = rotate_rows_1_spec(a1);
    let f_b2: u128 = rotate_rows_1_spec(a2);
    let f_b3: u128 = rotate_rows_1_spec(a3);
    let f_b4: u128 = rotate_rows_1_spec(a4);
    let f_b5: u128 = rotate_rows_1_spec(a5);
    let f_b6: u128 = rotate_rows_1_spec(a6);
    let f_b7: u128 = rotate_rows_1_spec(a7);
    let f_c0: u128 = a0 ^ f_b0;
    let f_c1: u128 = a1 ^ f_b1;
    let f_c2: u128 = a2 ^ f_b2;
    let f_c3: u128 = a3 ^ f_b3;
    let f_c4: u128 = a4 ^ f_b4;
    let f_c5: u128 = a5 ^ f_b5;
    let f_c6: u128 = a6 ^ f_b6;
    let f_c7: u128 = a7 ^ f_b7;
    let f_d0: u128 = a0 ^ f_c7;
    let f_d1: u128 = a1 ^ f_c0 ^ f_c7;
    let f_d2: u128 = a2 ^ f_c1;
    let f_d3: u128 = a3 ^ f_c2 ^ f_c7;
    let f_d4: u128 = a4 ^ f_c3 ^ f_c7;
    let f_d5: u128 = a5 ^ f_c4;
    let f_d6: u128 = a6 ^ f_c5;
    let f_d7: u128 = a7 ^ f_c6;
    let f_e0: u128 = f_c0 ^ f_d6;
    let f_e1: u128 = f_c1 ^ f_d6 ^ f_d7;
    let f_e2: u128 = f_c2 ^ f_d0 ^ f_d7;
    let f_e3: u128 = f_c3 ^ f_d1 ^ f_d6;
    let f_e4: u128 = f_c4 ^ f_d2 ^ f_d6 ^ f_d7;
    let f_e5: u128 = f_c5 ^ f_d3 ^ f_d7;
    let f_e6: u128 = f_c6 ^ f_d4;
    let f_e7: u128 = f_c7 ^ f_d5;
    let f_r0: u128 = f_d0 ^ f_e0 ^ rotate_rows_2_spec(f_e0);
    let f_r1: u128 = f_d1 ^ f_e1 ^ rotate_rows_2_spec(f_e1);
    let f_r2: u128 = f_d2 ^ f_e2 ^ rotate_rows_2_spec(f_e2);
    let f_r3: u128 = f_d3 ^ f_e3 ^ rotate_rows_2_spec(f_e3);
    let f_r4: u128 = f_d4 ^ f_e4 ^ rotate_rows_2_spec(f_e4);
    let f_r5: u128 = f_d5 ^ f_e5 ^ rotate_rows_2_spec(f_e5);
    let f_r6: u128 = f_d6 ^ f_e6 ^ rotate_rows_2_spec(f_e6);
    let f_r7: u128 = f_d7 ^ f_e7 ^ rotate_rows_2_spec(f_e7);
    let g_b0: u128 = rotate_rows_1_spec(f_r0);
    let g_b1: u128 = rotate_rows_1_spec(f_r1);
    let g_b2: u128 = rotate_rows_1_spec(f_r2);
    let g_b3: u128 = rotate_rows_1_spec(f_r3);
    let g_b4: u128 = rotate_rows_1_spec(f_r4);
    let g_b5: u128 = rotate_rows_1_spec(f_r5);
    let g_b6: u128 = rotate_rows_1_spec(f_r6);
    let g_b7: u128 = rotate_rows_1_spec(f_r7);
    let g_c0: u128 = f_r0 ^ g_b0;
    let g_c1: u128 = f_r1 ^ g_b1;
    let g_c2: u128 = f_r2 ^ g_b2;
    let g_c3: u128 = f_r3 ^ g_b3;
    let g_c4: u128 = f_r4 ^ g_b4;
    let g_c5: u128 = f_r5 ^ g_b5;
    let g_c6: u128 = f_r6 ^ g_b6;
    let g_c7: u128 = f_r7 ^ g_b7;
    let g_r0: u128 = g_b0 ^ g_c7 ^ rotate_rows_2_spec(g_c0);
    let g_r1: u128 = g_b1 ^ g_c0 ^ g_c7 ^ rotate_rows_2_spec(g_c1);
    let g_r2: u128 = g_b2 ^ g_c1 ^ rotate_rows_2_spec(g_c2);
    let g_r3: u128 = g_b3 ^ g_c2 ^ g_c7 ^ rotate_rows_2_spec(g_c3);
    let g_r4: u128 = g_b4 ^ g_c3 ^ g_c7 ^ rotate_rows_2_spec(g_c4);
    let g_r5: u128 = g_b5 ^ g_c4 ^ rotate_rows_2_spec(g_c5);
    let g_r6: u128 = g_b6 ^ g_c5 ^ rotate_rows_2_spec(g_c6);
    let g_r7: u128 = g_b7 ^ g_c6 ^ rotate_rows_2_spec(g_c7);
    assert(g_r0 == a0 && g_r1 == a1 && g_r2 == a2 && g_r3 == a3 && g_r4 == a4 && g_r5 == a5 && g_r6 == a6 && g_r7 == a7) by (bit_vector)
        requires
            f_b0 == rotate_rows_1_spec(a0),
            f_b1 == rotate_rows_1_spec(a1),
            f_b2 == rotate_rows_1_spec(a2),
            f_b3 == rotate_rows_1_spec(a3),
            f_b4 == rotate_rows_1_spec(a4),
            f_b5 == rotate_rows_1_spec(a5),
            f_b6 == rotate_rows_1_spec(a6),
            f_b7 == rotate_rows_1_spec(a7),
            f_c0 == a0 ^ f_b0,
            f_c1 == a1 ^ f_b1,
            f_c2 == a2 ^ f_b2,
            f_c3 == a3 ^ f_b3,
            f_c4 == a4 ^ f_b4,
            f_c5 == a5 ^ f_b5,
            f_c6 == a6 ^ f_b6,
            f_c7 == a7 ^ f_b7,
            f_d0 == a0 ^ f_c7,
            f_d1 == a1 ^ f_c0 ^ f_c7,
            f_d2 == a2 ^ f_c1,
            f_d3 == a3 ^ f_c2 ^ f_c7,
            f_d4 == a4 ^ f_c3 ^ f_c7,
            f_d5 == a5 ^ f_c4,
            f_d6 == a6 ^ f_c5,
            f_d7 == a7 ^ f_c6,
            f_e0 == f_c0 ^ f_d6,
            f_e1 == f_c1 ^ f_d6 ^ f_d7,
            f_e2 == f_c2 ^ f_d0 ^ f_d7,
            f_e3 == f_c3 ^ f_d1 ^ f_d6,
            f_e4 == f_c4 ^ f_d2 ^ f_d6 ^ f_d7,
            f_e5 == f_c5 ^ f_d3 ^ f_d7,
            f_e6 == f_c6 ^ f_d4,
            f_e7 == f_c7 ^ f_d5,
            f_r0 == f_d0 ^ f_e0 ^ rotate_rows_2_spec(f_e0),
            f_r1 == f_d1 ^ f_e1 ^ rotate_rows_2_spec(f_e1),
            f_r2 == f_d2 ^ f_e2 ^ rotate_rows_2_spec(f_e2),
            f_r3 == f_d3 ^ f_e3 ^ rotate_rows_2_spec(f_e3),
            f_r4 == f_d4 ^ f_e4 ^ rotate_rows_2_spec(f_e4),
            f_r5 == f_d5 ^ f_e5 ^ rotate_rows_2_spec(f_e5),
            f_r6 == f_d6 ^ f_e6 ^ rotate_rows_2_spec(f_e6),
            f_r7 == f_d7 ^ f_e7 ^ rotate_rows_2_spec(f_e7),
            g_b0 == rotate_rows_1_spec(f_r0),
            g_b1 == rotate_rows_1_spec(f_r1),
            g_b2 == rotate_rows_1_spec(f_r2),
            g_b3 == rotate_rows_1_spec(f_r3),
            g_b4 == rotate_rows_1_spec(f_r4),
            g_b5 == rotate_rows_1_spec(f_r5),
            g_b6 == rotate_rows_1_spec(f_r6),
            g_b7 == rotate_rows_1_spec(f_r7),
            g_c0 == f_r0 ^ g_b0,
            g_c1 == f_r1 ^ g_b1,
            g_c2 == f_r2 ^ g_b2,
            g_c3 == f_r3 ^ g_b3,
            g_c4 == f_r4 ^ g_b4,
            g_c5 == f_r5 ^ g_b5,
            g_c6 == f_r6 ^ g_b6,
            g_c7 == f_r7 ^ g_b7,
            g_r0 == g_b0 ^ g_c7 ^ rotate_rows_2_spec(g_c0),
            g_r1 == g_b1 ^ g_c0 ^ g_c7 ^ rotate_rows_2_spec(g_c1),
            g_r2 == g_b2 ^ g_c1 ^ rotate_rows_2_spec(g_c2),
            g_r3 == g_b3 ^ g_c2 ^ g_c7 ^ rotate_rows_2_spec(g_c3),
            g_r4 == g_b4 ^ g_c3 ^ g_c7 ^ rotate_rows_2_spec(g_c4),
            g_r5 == g_b5 ^ g_c4 ^ rotate_rows_2_spec(g_c5),
            g_r6 == g_b6 ^ g_c5 ^ rotate_rows_2_spec(g_c6),
            g_r7 == g_b7 ^ g_c6 ^ rotate_rows_2_spec(g_c7),
    ;
    let t = inv_mix_columns_0_spec(s);
    assert(t[0].0 == f_r0);
    assert(t[1].0 == f_r1);
    assert(t[2].0 == f_r2);
    assert(t[3].0 == f_r3);
    assert(t[4].0 == f_r4);
    assert(t[5].0 == f_r5);
    assert(t[6].0 == f_r6);
    assert(t[7].0 == f_r7);
    assert(mix_columns_0_spec(t) =~= s);
}

/// `inv_mix_columns_1` undoes `mix_columns_1`.
pub proof fn lemma_inv_mix_columns_1_mix_columns_1(s: Seq<Lane>)
    requires
        s.len() == 8,
    ensures
        inv_mix_columns_1_spec(mix_columns_1_spec(s)) == s,
{
    reveal(mix_columns_1_spec);
    reveal(inv_mix_columns_1_spec);
    let a0: u128 = s[0].0;
    let a1: u128 = s[1].0;
    let a2: u128 = s[2].0;
    let a3: u128 = s[3].0;
    let a4: u128 = s[4].0;
    let a5: u128 = s[5].0;
    let a6: u128 = s[6].0;
    let a7: u128 = s[7].0;
    let f_b0: u128 = rotate_rows_and_columns_1_1_spec(a0);
    let f_b1: u128 = rotate_rows_and_columns_1_1_spec(a1);
    let f_b2: u128 = rotate_rows_and_columns_1_1_spec(a2);
    let f_b3: u128 = rotate_rows_and_columns_1_1_spec(a3);
    let f_b4: u128 = rotate_rows_and_columns_1_1_spec(a4);
    let f_b5: u128 = rotate_rows_and_columns_1_1_spec(a5);
    let f_b6: u128 = rotate_rows_and_columns_1_1_spec(a6);
    let f_b7: u128 = rotate_rows_and_columns_1_1_spec(a7);
    let f_c0: u128 = a0 ^ f_b0;
    let f_c1: u128 = a1 ^ f_b1;
    let f_c2: u128 = a2 ^ f_b2;
    let f_c3: u128 = a3 ^ f_b3;
    let f_c4: u128 = a4 ^ f_b4;
    let f_c5: u128 = a5 ^ f_b5;
    let f_c6: u128 = a6 ^ f_b6;
    let f_c7: u128 = a7 ^ f_b7;
    let f_r0: u128 = f_b0 ^ f_c7 ^ rotate_rows_and_columns_2_2_spec(f_c0);
    let f_r1: u128 = f_b1 ^ f_c0 ^ f_c7 ^ rotate_rows_and_columns_2_2_spec(f_c1);
    let f_r2: u128 = f_b2 ^ f_c1 ^ rotate_rows_and_columns_2_2_spec(f_c2);
    let f_r3: u128 = f_b3 ^ f_c2 ^ f_c7 ^ rotate_rows_and_columns_2_2_spec(f_c3);
    let f_r4: u128 = f_b4 ^ f_c3 ^ f_c7 ^ rotate_rows_and_columns_2_2_spec(f_c4);
    let f_r5: u128 = f_b5 ^ f_c4 ^ rotate_rows_and_columns_2_2_spec(f_c5);
    let f_r6: u128 = f_b6 ^ f_c5 ^ rotate_rows_and_columns_2_2_spec(f_c6);
    let f_r7: u128 = f_b7 ^ f_c6 ^ rotate_rows_and_columns_2_2_spec(f_c7);
    let g_b0: u128 = rotate_rows_and_columns_1_1_spec(f_r0);
    let g_b1: u128 = rotate_rows_and_columns_1_1_spec(f_r1);
    let g_b2: u128 = rotate_rows_and_columns_1_1_spec(f_r2);
    let g_b3: u128 = rotate_rows_and_columns_1_1_spec(f_r3);
    let g_b4: u128 = rotate_rows_and_columns_1_1_spec(f_r4);
    let g_b5: u128 = rotate_rows_and_columns_1_1_spec(f_r5);
    let g_b6: u128 = rotate_rows_and_columns_1_1_spec(f_r6);
    let g_b7: u128 = rotate_rows_and_columns_1_1_spec(f_r7);
    let g_c0: u128 = f_r0 ^ g_b0;
    let g_c1: u128 = f_r1 ^ g_b1;
    let g_c2: u128 = f_r2 ^ g_b2;
    let g_c3: u128 = f_r3 ^ g_b3;
    let g_c4: u128 = f_r4 ^ g_b4;
    let g_c5: u128 = f_r5 ^ g_b5;
    let g_c6: u128 = f_r6 ^ g_b6;
    let g_c7: u128 = f_r7 ^ g_b7;
    let g_d0: u128 = f_r0 ^ g_c7;
    let g_d1: u128 = f_r1 ^ g_c0 ^ g_c7;
    let g_d2: u128 = f_r2 ^ g_c1;
    let g_d3: u128 = f_r3 ^ g_c2 ^ g_c7;
    let g_d4: u128 = f_r4 ^ g_c3 ^ g_c7;
    let g_d5: u128 = f_r5 ^ g_c4;
    let g_d6: u128 = f_r6 ^ g_c5;
    let g_d7: u128 = f_r7 ^ g_c6;
    let g_e0: u128 = g_c0 ^ g_d6;
    let g_e1: u128 = g_c1 ^ g_d6 ^ g_d7;
    let g_e2: u128 = g_c2 ^ g_d0 ^ g_d7;
    let g_e3: u128 = g_c3 ^ g_d1 ^ g_d6;
    let g_e4: u128 = g_c4 ^ g_d2 ^ g_d6 ^ g_d7;
    let g_e5: u128 = g_c5 ^ g_d3 ^ g_d7;
    let g_e6: u128 = g_c6 ^ g_d4;
    let g_e7: u128 = g_c7 ^ g_d5;
    let g_r0: u128 = g_d0 ^ g_e0 ^ rotate_rows_and_columns_2_2_spec(g_e0);
    let g_r1: u128 = g_d1 ^ g_e1 ^ rotate_rows_and_columns_2_2_spec(g_e1);
    let g_r2: u128 = g_d2 ^ g_e2 ^ rotate_rows_and_columns_2_2_spec(g_e2);
    let g_r3: u128 = g_d3 ^ g_e3 ^ rotate_rows_and_columns_2_2_spec(g_e3);
    let g_r4: u128 = g_d4 ^ g_e4 ^ rotate_rows_and_columns_2_2_spec(g_e4);
    let g_r5: u128 = g_d5 ^ g_e5 ^ rotate_rows_and_columns_2_2_spec(g_e5);
    let g_r6: u128 = g_d6 ^ g_e6 ^ rotate_rows_and_columns_2_2_spec(g_e6);
    let g_r7: u128 = g_d7 ^ g_e7 ^ rotate_rows_and_columns_2_2_spec(g_e7);
    assert(g_r0 == a0 && g_r1 == a1 && g_r2 == a2 && g_r3 == a3 && g_r4 == a4 && g_r5 == a5 && g_r6 == a6 && g_r7 == a7) by (bit_vector)
        requires
            f_b0 == rotate_rows_and_columns_1_1_spec(a0),
            f_b1 == rotate_rows_and_columns_1_1_spec(a1),
            f_b2 == rotate_rows_and_columns_1_1_spec(a2),
            f_b3 == rotate_rows_and_columns_1_1_spec(a3),
            f_b4 == rotate_rows_and_columns_1_1_spec(a4),
            f_b5 == rotate_rows_and_columns_1_1_spec(a5),
            f_b6 == rotate_rows_and_columns_1_1_spec(a6),
            f_b7 == rotate_rows_and_columns_1_1_spec(a7),
            f_c0 == a0 ^ f_b0,
            f_c1 == a1 ^ f_b1,
            f_c2 == a2 ^ f_b2,
            f_c3 == a3 ^ f_b3,
            f_c4 == a4 ^ f_b4,
            f_c5 == a5 ^ f_b5,
            f_c6 == a6 ^ f_b6,
            f_c7 == a7 ^ f_b7,
            f_r0 == f_b0 ^ f_c7 ^ rotate_rows_and_columns_2_2_spec(f_c0),
            f_r1 == f_b1 ^ f_c0 ^ f_c7 ^ rotate_rows_and_columns_2_2_spec(f_c1),
            f_r2 == f_b2 ^ f_c1 ^ rotate_rows_and_columns_2_2_spec(f_c2),
            f_r3 == f_b3 ^ f_c2 ^ f_c7 ^ rotate_rows_and_columns_2_2_spec(f_c3),
            f_r4 == f_b4 ^ f_c3 ^ f_c7 ^ rotate_rows_and_columns_2_2_spec(f_c4),
            f_r5 == f_b5 ^ f_c4 ^ rotate_rows_and_columns_2_2_spec(f_c5),
            f_r6 == f_b6 ^ f_c5 ^ rotate_rows_and_columns_2_2_spec(f_c6),
            f_r7 == f_b7 ^ f_c6 ^ rotate_rows_and_columns_2_2_spec(f_c7),
            g_b0 == rotate_rows_and_columns_1_1_spec(f_r0),
            g_b1 == rotate_rows_and_columns_1_1_spec(f_r1),
            g_b2 == rotate_rows_and_columns_1_1_spec(f_r2),
            g_b3 == rotate_rows_and_columns_1_1_spec(f_r3),
            g_b4 == rotate_rows_and_columns_1_1_spec(f_r4),
            g_b5 == rotate_rows_and_columns_1_1_spec(f_r5),
            g_b6 == rotate_rows_and_columns_1_1_spec(f_r6),
            g_b7 == rotate_rows_and_columns_1_1_spec(f_r7),
            g_c0 == f_r0 ^ g_b0,
            g_c1 == f_r1 ^ g_b1,
            g_c2 == f_r2 ^ g_b2,
            g_c3 == f_r3 ^ g_b3,
            g_c4 == f_r4 ^ g_b4,
            g_c5 == f_r5 ^ g_b5,
            g_c6 == f_r6 ^ g_b6,
            g_c7 == f_r7 ^ g_b7,
            g_d0 == f_r0 ^ g_c7,
            g_d1 == f_r1 ^ g_c0 ^ g_c7,
            g_d2 == f_r2 ^ g_c1,
            g_d3 == f_r3 ^ g_c2 ^ g_c7,
            g_d4 == f_r4 ^ g_c3 ^ g_c7,
            g_d5 == f_r5 ^ g_c4,
            g_d6 == f_r6 ^ g_c5,
            g_d7 == f_r7 ^ g_c6,
            g_e0 == g_c0 ^ g_d6,
            g_e1 == g_c1 ^ g_d6 ^ g_d7,
            g_e2 == g_c2 ^ g_d0 ^ g_d7,
            g_e3 == g_c3 ^ g_d1 ^ g_d6,
            g_e4 == g_c4 ^ g_d2 ^ g_d6 ^ g_d7,
            g_e5 == g_c5 ^ g_d3 ^ g_d7,
            g_e6 == g_c6 ^ g_d4,
            g_e7 == g_c7 ^ g_d5,
            g_r0 == g_d0 ^ g_e0 ^ rotate_rows_and_columns_2_2_spec(g_e0),
            g_r1 == g_d1 ^ g_e1 ^ rotate_rows_and_columns_2_2_spec(g_e1),
            g_r2 == g_d2 ^ g_e2 ^ rotate_rows_and_columns_2_2_spec(g_e2),
            g_r3 == g_d3 ^ g_e3 ^ rotate_rows_and_columns_2_2_spec(g_e3),
            g_r4 == g_d4 ^ g_e4 ^ rotate_rows_and_columns_2_2_spec(g_e4),
            g_r5 == g_d5 ^ g_e5 ^ rotate_rows_and_columns_2_2_spec(g_e5),
            g_r6 == g_d6 ^ g_e6 ^ rotate_rows_and_columns_2_2_spec(g_e6),
            g_r7 == g_d7 ^ g_e7 ^ rotate_rows_and_columns_2_2_spec(g_e7),
    ;
    let t = mix_columns_1_spec(s);
    assert(t[0].0 == f_r0);
    assert(t[1].0 == f_r1);
    assert(t[2].0 == f_r2);
    assert(t[3].0 == f_r3);
    assert(t[4].0 == f_r4);
    assert(t[5].0 == f_r5);
    assert(t[6].0 == f_r6);
    assert(t[7].0 == f_r7);
    assert(inv_mix_columns_1_spec(t) =~= s);
}

/// `mix_columns_1` undoes `inv_mix_columns_1`.
pub proof fn lemma_mix_columns_1_inv_mix_columns_1(s: Seq<Lane>)
    requires
        s.len() == 8,
    ensures
        mix_columns_1_spec(inv_mix_columns_1_spec(s)) == s,
{
    reveal(mix_columns_1_spec);
    reveal(inv_mix_columns_1_spec);
    let a0: u128 = s[0].0;
    let a1: u128 = s[1].0;
    let a2: u128 = s[2].0;
    let a3: u128 = s[3].0;
    let a4: u128 = s[4].0;
    let a5: u128 = s[5].0;
    let a6: u128 = s[6].0;
    let a7: u128 = s[7].0;
    let f_b0: u128 = rotate_rows_and_columns_1_1_spec(a0);
    let f_b1: u128 = rotate_rows_and_columns_1_1_spec(a1);
    let f_b2: u128 = rotate_rows_and_columns_1_1_spec(a2);
    let f_b3: u128 = rotate_rows_and_columns_1_1_spec(a3);
    let f_b4: u128 = rotate_rows_and_columns_1_1_spec(a4);
    let f_b5: u128 = rotate_rows_and_columns_1_1_spec(a5);
    let f_b6: u128 = rotate_rows_and_columns_1_1_spec(a6);
    let f_b7: u128 = rotate_rows_and_columns_1_1_spec(a7);
    let f_c0: u128 = a0 ^ f_b0;
    let f_c1: u128 = a1 ^ f_b1;
    let f_c2: u128 = a2 ^ f_b2;
    let f_c3: u128 = a3 ^ f_b3;
    let f_c4: u128 = a4 ^ f_b4;
    let f_c5: u128 = a5 ^ f_b5;
    let f_c6: u128 = a6 ^ f_b6;
    let f_c7: u128 = a7 ^ f_b7;
    let f_d0: u128 = a0 ^ f_c7;
    let f_d1: u128 = a1 ^ f_c0 ^ f_c7;
    let f_d2: u128 = a2 ^ f_c1;
    let f_d3: u128 = a3 ^ f_c2 ^ f_c7;
    let f_d4: u128 = a4 ^ f_c3 ^ f_c7;
    let f_d5: u128 = a5 ^ f_c4;
    let f_d6: u128 = a6 ^ f_c5;
    let f_d7: u128 = a7 ^ f_c6;
    let f_e0: u128 = f_c0 ^ f_d6;
    let f_e1: u128 = f_c1 ^ f_d6 ^ f_d7;
    let f_e2: u128 = f_c2 ^ f_d0 ^ f_d7;
    let f_e3: u128 = f_c3 ^ f_d1 ^ f_d6;
    let f_e4: u128 = f_c4 ^ f_d2 ^ f_d6 ^ f_d7;
    let f_e5: u128 = f_c5 ^ f_d3 ^ f_d7;
    let f_e6: u128 = f_c6 ^ f_d4;
    let f_e7: u128 = f_c7 ^ f_d5;
    let f_r0: u128 = f_d0 ^ f_e0 ^ rotate_rows_and_columns_2_2_spec(f_e0);
    let f_r1: u128 = f_d1 ^ f_e1 ^ rotate_rows_and_columns_2_2_spec(f_e1);
    let f_r2: u128 = f_d2 ^ f_e2 ^ rotate_rows_and_columns_2_2_spec(f_e2);
    let f_r3: u128 = f_d3 ^ f_e3 ^ rotate_rows_and_columns_2_2_spec(f_e3);
    let f_r4: u128 = f_d4 ^ f_e4 ^ rotate_rows_and_columns_2_2_spec(f_e4);
    let f_r5: u128 = f_d5 ^ f_e5 ^ rotate_rows_and_columns_2_2_spec(f_e5);
    let f_r6: u128 = f_d6 ^ f_e6 ^ rotate_rows_and_columns_2_2_spec(f_e6);
    let f_r7: u128 = f_d7 ^ f_e7 ^ rotate_rows_and_columns_2_2_spec(f_e7);
    let g_b0: u128 = rotate_rows_and_columns_1_1_spec(f_r0);
    let g_b1: u128 = rotate_rows_and_columns_1_1_spec(f_r1);
    let g_b2: u128 = rotate_rows_and_columns_1_1_spec(f_r2);
    let g_b3: u128 = rotate_rows_and_columns_1_1_spec(f_r3);
    let g_b4: u128 = rotate_rows_and_columns_1_1_spec(f_r4);
    let g_b5: u128 = rotate_rows_and_columns_1_1_spec(f_r5);
    let g_b6: u128 = rotate_rows_and_columns_1_1_spec(f_r6);
    let g_b7: u128 = rotate_rows_and_columns_1_1_spec(f_r7);
    let g_c0: u128 = f_r0 ^ g_b0;
    let g_c1: u128 = f_r1 ^ g_b1;
    let g_c2: u128 = f_r2 ^ g_b2;
    let g_c3: u128 = f_r3 ^ g_b3;
    let g_c4: u128 = f_r4 ^ g_b4;
    let g_c5: u128 = f_r5 ^ g_b5;
    let g_c6: u128 = f_r6 ^ g_b6;
    let g_c7: u128 = f_r7 ^ g_b7;
    let g_r0: u128 = g_b0 ^ g_c7 ^ rotate_rows_and_columns_2_2_spec(g_c0);
    let g_r1: u128 = g_b1 ^ g_c0 ^ g_c7 ^ rotate_rows_and_columns_2_2_spec(g_c1);
    let g_r2: u128 = g_b2 ^ g_c1 ^ rotate_rows_and_columns_2_2_spec(g_c2);
    let g_r3: u128 = g_b3 ^ g_c2 ^ g_c7 ^ rotate_rows_and_columns_2_2_spec(g_c3);
    let g_r4: u128 = g_b4 ^ g_c3 ^ g_c7 ^ rotate_rows_and_columns_2_2_spec(g_c4);
    let g_r5: u128 = g_b5 ^ g_c4 ^ rotate_rows_and_columns_2_2_spec(g_c5);
    let g_r6: u128 = g_b6 ^ g_c5 ^ rotate_rows_and_columns_2_2_spec(g_c6);
    let g_r7: u128 = g_b7 ^ g_c6 ^ rotate_rows_and_columns_2_2_spec(g_c7);
    assert(g_r0 == a0 && g_r1 == a1 && g_r2 == a2 && g_r3 == a3 && g_r4 == a4 && g_r5 == a5 && g_r6 == a6 && g_r7 == a7) by (bit_vector)
        requires
            f_b0 == rotate_rows_and_columns_1_1_spec(a0),
            f_b1 == rotate_rows_and_columns_1_1_spec(a1),
            f_b2 == rotate_rows_and_columns_1_1_spec(a2),
            f_b3 == rotate_rows_and_columns_1_1_spec(a3),
            f_b4 == rotate_rows_and_columns_1_1_spec(a4),
            f_b5 == rotate_rows_and_columns_1_1_spec(a5),
            f_b6 == rotate_rows_and_columns_1_1_spec(a6),
            f_b7 == rotate_rows_and_columns_1_1_spec(a7),
            f_c0 == a0 ^ f_b0,
            f_c1 == a1 ^ f_b1,
            f_c2 == a2 ^ f_b2,
            f_c3 == a3 ^ f_b3,
            f_c4 == a4 ^ f_b4,
            f_c5 == a5 ^ f_b5,
            f_c6 == a6 ^ f_b6,
            f_c7 == a7 ^ f_b7,
            f_d0 == a0 ^ f_c7,
            f_d1 == a1 ^ f_c0 ^ f_c7,
            f_d2 == a2 ^ f_c1,
            f_d3 == a3 ^ f_c2 ^ f_c7,
            f_d4 == a4 ^ f_c3 ^ f_c7,
            f_d5 == a5 ^ f_c4,
            f_d6 == a6 ^ f_c5,
            f_d7 == a7 ^ f_c6,
            f_e0 == f_c0 ^ f_d6,
            f_e1 == f_c1 ^ f_d6 ^ f_d7,
            f_e2 == f_c2 ^ f_d0 ^ f_d7,
            f_e3 == f_c3 ^ f_d1 ^ f_d6,
            f_e4 == f_c4 ^ f_d2 ^ f_d6 ^ f_d7,
            f_e5 == f_c5 ^ f_d3 ^ f_d7,
            f_e6 == f_c6 ^ f_d4,
            f_e7 == f_c7 ^ f_d5,
            f_r0 == f_d0 ^ f_e0 ^ rotate_rows_and_columns_2_2_spec(f_e0),
            f_r1 == f_d1 ^ f_e1 ^ rotate_rows_and_columns_2_2_spec(f_e1),
            f_r2 == f_d2 ^ f_e2 ^ rotate_rows_and_columns_2_2_spec(f_e2),
            f_r3 == f_d3 ^ f_e3 ^ rotate_rows_and_columns_2_2_spec(f_e3),
            f_r4 == f_d4 ^ f_e4 ^ rotate_rows_and_columns_2_2_spec(f_e4),
            f_r5 == f_d5 ^ f_e5 ^ rotate_rows_and_columns_2_2_spec(f_e5),
            f_r6 == f_d6 ^ f_e6 ^ rotate_rows_and_columns_2_2_spec(f_e6),
            f_r7 == f_d7 ^ f_e7 ^ rotate_rows_and_columns_2_2_spec(f_e7),
            g_b0 == rotate_rows_and_columns_1_1_spec(f_r0),
            g_b1 == rotate_rows_and_columns_1_1_spec(f_r1),
            g_b2 == rotate_rows_and_columns_1_1_spec(f_r2),
            g_b3 == rotate_rows_and_columns_1_1_spec(f_r3),
            g_b4 == rotate_rows_and_columns_1_1_spec(f_r4),
            g_b5 == rotate_rows_and_columns_1_1_spec(f_r5),
            g_b6 == rotate_rows_and_columns_1_1_spec(f_r6),
            g_b7 == rotate_rows_and_columns_1_1_spec(f_r7),
            g_c0 == f_r0 ^ g_b0,
            g_c1 == f_r1 ^ g_b1,
            g_c2 == f_r2 ^ g_b2,
            g_c3 == f_r3 ^ g_b3,
            g_c4 == f_r4 ^ g_b4,
            g_c5 == f_r5 ^ g_b5,
            g_c6 == f_r6 ^ g_b6,
            g_c7 == f_r7 ^ g_b7,
            g_r0 == g_b0 ^ g_c7 ^ rotate_rows_and_columns_2_2_spec(g_c0),
            g_r1 == g_b1 ^ g_c0 ^ g_c7 ^ rotate_rows_and_columns_2_2_spec(g_c1),
            g_r2 == g_b2 ^ g_c1 ^ rotate_rows_and_columns_2_2_spec(g_c2),
            g_r3 == g_b3 ^ g_c2 ^ g_c7 ^ rotate_rows_and_columns_2_2_spec(g_c3),
            g_r4 == g_b4 ^ g_c3 ^ g_c7 ^ rotate_rows_and_columns_2_2_spec(g_c4),
            g_r5 == g_b5 ^ g_c4 ^ rotate_rows_and_columns_2_2_spec(g_c5),
            g_r6 == g_b6 ^ g_c5 ^ rotate_rows_and_columns_2_2_spec(g_c6),
            g_r7 == g_b7 ^ g_c6 ^ rotate_rows_and_columns_2_2_spec(g_c7),
    ;
    let t = inv_mix_columns_1_spec(s);
    assert(t[0].0 == f_r0);
    assert(t[1].0 == f_r1);
    assert(t[2].0 == f_r2);
    assert(t[3].0 == f_r3);
    assert(t[4].0 == f_r4);
    assert(t[5].0 == f_r5);
    assert(t[6].0 == f_r6);
    assert(t[7].0 == f_r7);
    assert(mix_columns_1_spec(t) =~= s);
}

/// `inv_mix_columns_2` undoes `mix_columns_2`.
pub proof fn lemma_inv_mix_columns_2_mix_columns_2(s: Seq<Lane>)
    requires
        s.len() == 8,
    ensures
        inv_mix_columns_2_spec(mix_columns_2_spec(s)) == s,
{
    reveal(mix_columns_2_spec);
    reveal(inv_mix_columns_2_spec);
    let a0: u128 = s[0].0;
    let a1: u128 = s[1].0;
    let a2: u128 = s[2].0;
    let a3: u128 = s[3].0;
    let a4: u128 = s[4].0;
    let a5: u128 = s[5].0;
    let a6: u128 = s[6].0;
    let a7: u128 = s[7].0;
    let f_b0: u128 = rotate_rows_and_columns_1_2_spec(a0);
    let f_b1: u128 = rotate_rows_and_columns_1_2_spec(a1);
    let f_b2: u128 = rotate_rows_and_columns_1_2_spec(a2);
    let f_b3: u128 = rotate_rows_and_columns_1_2_spec(a3);
    let f_b4: u128 = rotate_rows_and_columns_1_2_spec(a4);
    let f_b5: u128 = rotate_rows_and_columns_1_2_spec(a5);
    let f_b6: u128 = rotate_rows_and_columns_1_2_spec(a6);
    let f_b7: u128 = rotate_rows_and_columns_1_2_spec(a7);
    let f_c0: u128 = a0 ^ f_b0;
    let f_c1: u128 = a1 ^ f_b1;
    let f_c2: u128 = a2 ^ f_b2;
    let f_c3: u128 = a3 ^ f_b3;
    let f_c4: u128 = a4 ^ f_b4;
    let f_c5: u128 = a5 ^ f_b5;
    let f_c6: u128 = a6 ^ f_b6;
    let f_c7: u128 = a7 ^ f_b7;
    let f_r0: u128 = f_b0 ^ f_c7 ^ rotate_rows_2_spec(f_c0);
    let f_r1: u128 = f_b1 ^ f_c0 ^ f_c7 ^ rotate_rows_2_spec(f_c1);
    let f_r2: u128 = f_b2 ^ f_c1 ^ rotate_rows_2_spec(f_c2);
    let f_r3: u128 = f_b3 ^ f_c2 ^ f_c7 ^ rotate_rows_2_spec(f_c3);
    let f_r4: u128 = f_b4 ^ f_c3 ^ f_c7 ^ rotate_rows_2_spec(f_c4);
    let f_r5: u128 = f_b5 ^ f_c4 ^ rotate_rows_2_spec(f_c5);
    let f_r6: u128 = f_b6 ^ f_c5 ^ rotate_rows_2_spec(f_c6);
    let f_r7: u128 = f_b7 ^ f_c6 ^ rotate_rows_2_spec(f_c7);
    let g_b0: u128 = rotate_rows_and_columns_1_2_spec(f_r0);
    let g_b1: u128 = rotate_rows_and_columns_1_2_spec(f_r1);
    let g_b2: u128 = rotate_rows_and_columns_1_2_spec(f_r2);
    let g_b3: u128 = rotate_rows_and_columns_1_2_spec(f_r3);
    let g_b4: u128 = rotate_rows_and_columns_1_2_spec(f_r4);
    let g_b5: u128 = rotate_rows_and_columns_1_2_spec(f_r5);
    let g_b6: u128 = rotate_rows_and_columns_1_2_spec(f_r6);
    let g_b7: u128 = rotate_rows_and_columns_1_2_spec(f_r7);
    let g_c0: u128 = f_r0 ^ g_b0;
    let g_c1: u128 = f_r1 ^ g_b1;
    let g_c2: u128 = f_r2 ^ g_b2;
    let g_c3: u128 = f_r3 ^ g_b3;
    let g_c4: u128 = f_r4 ^ g_b4;
    let g_c5: u128 = f_r5 ^ g_b5;
    let g_c6: u128 = f_r6 ^ g_b6;
    let g_c7: u128 = f_r7 ^ g_b7;
    let g_d0: u128 = f_r0 ^ g_c7;
    let g_d1: u128 = f_r1 ^ g_c0 ^ g_c7;
    let g_d2: u128 = f_r2 ^ g_c1;
    let g_d3: u128 = f_r3 ^ g_c2 ^ g_c7;
    let g_d4: u128 = f_r4 ^ g_c3 ^ g_c7;
    let g_d5: u128 = f_r5 ^ g_c4;
    let g_d6: u128 = f_r6 ^ g_c5;
    let g_d7: u128 = f_r7 ^ g_c6;
    let g_e0: u128 = g_c0 ^ g_d6;
    let g_e1: u128 = g_c1 ^ g_d6 ^ g_d7;
    let g_e2: u128 = g_c2 ^ g_d0 ^ g_d7;
    let g_e3: u128 = g_c3 ^ g_d1 ^ g_d6;
    let g_e4: u128 = g_c4 ^ g_d2 ^ g_d6 ^ g_d7;
    let g_e5: u128 = g_c5 ^ g_d3 ^ g_d7;
    let g_e6: u128 = g_c6 ^ g_d4;
    let g_e7: u128 = g_c7 ^ g_d5;
    let g_r0: u128 = g_d0 ^ g_e0 ^ rotate_rows_2_spec(g_e0);
    let g_r1: u128 = g_d1 ^ g_e1 ^ rotate_rows_2_spec(g_e1);
    let g_r2: u128 = g_d2 ^ g_e2 ^ rotate_rows_2_spec(g_e2);
    let g_r3: u128 = g_d3 ^ g_e3 ^ rotate_rows_2_spec(g_e3);
    let g_r4: u128 = g_d4 ^ g_e4 ^ rotate_rows_2_spec(g_e4);
    let g_r5: u128 = g_d5 ^ g_e5 ^ rotate_rows_2_spec(g_e5);
    let g_r6: u128 = g_d6 ^ g_e6 ^ rotate_rows_2_spec(g_e6);
    let g_r7: u128 = g_d7 ^ g_e7 ^ rotate_rows_2_spec(g_e7);
    assert(g_r0 == a0 && g_r1 == a1 && g_r2 == a2 && g_r3 == a3 && g_r4 == a4 && g_r5 == a5 && g_r6 == a6 && g_r7 == a7) by (bit_vector)
        requires
            f_b0 == rotate_rows_and_columns_1_2_spec(a0),
            f_b1 == rotate_rows_and_columns_1_2_spec(a1),
            f_b2 == rotate_rows_and_columns_1_2_spec(a2),
            f_b3 == rotate_rows_and_columns_1_2_spec(a3),
            f_b4 == rotate_rows_and_columns_1_2_spec(a4),
            f_b5 == rotate_rows_and_columns_1_2_spec(a5),
            f_b6 == rotate_rows_and_columns_1_2_spec(a6),
            f_b7 == rotate_rows_and_columns_1_2_spec(a7),
            f_c0 == a0 ^ f_b0,
            f_c1 == a1 ^ f_b1,
            f_c2 == a2 ^ f_b2,
            f_c3 == a3 ^ f_b3,
            f_c4 == a4 ^ f_b4,
            f_c5 == a5 ^ f_b5,
            f_c6 == a6 ^ f_b6,
            f_c7 == a7 ^ f_b7,
            f_r0 == f_b0 ^ f_c7 ^ rotate_rows_2_spec(f_c0),
            f_r1 == f_b1 ^ f_c0 ^ f_c7 ^ rotate_rows_2_spec(f_c1),
            f_r2 == f_b2 ^ f_c1 ^ rotate_rows_2_spec(f_c2),
            f_r3 == f_b3 ^ f_c2 ^ f_c7 ^ rotate_rows_2_spec(f_c3),
            f_r4 == f_b4 ^ f_c3 ^ f_c7 ^ rotate_rows_2_spec(f_c4),
            f_r5 == f_b5 ^ f_c4 ^ rotate_rows_2_spec(f_c5),
            f_r6 == f_b6 ^ f_c5 ^ rotate_rows_2_spec(f_c6),
            f_r7 == f_b7 ^ f_c6 ^ rotate_rows_2_spec(f_c7),
            g_b0 == rotate_rows_and_columns_1_2_spec(f_r0),
            g_b1 == rotate_rows_and_columns_1_2_spec(f_r1),
            g_b2 == rotate_rows_and_columns_1_2_spec(f_r2),
            g_b3 == rotate_rows_and_columns_1_2_spec(f_r3),
            g_b4 == rotate_rows_and_columns_1_2_spec(f_r4),
            g_b5 == rotate_rows_and_columns_1_2_spec(f_r5),
            g_b6 == rotate_rows_and_columns_1_2_spec(f_r6),
            g_b7 == rotate_rows_and_columns_1_2_spec(f_r7),
            g_c0 == f_r0 ^ g_b0,
            g_c1 == f_r1 ^ g_b1,
            g_c2 == f_r2 ^ g_b2,
            g_c3 == f_r3 ^ g_b3,
            g_c4 == f_r4 ^ g_b4,
            g_c5 == f_r5 ^ g_b5,
            g_c6 == f_r6 ^ g_b6,
            g_c7 == f_r7 ^ g_b7,
            g_d0 == f_r0 ^ g_c7,
            g_d1 == f_r1 ^ g_c0 ^ g_c7,
            g_d2 == f_r2 ^ g_c1,
            g_d3 == f_r3 ^ g_c2 ^ g_c7,
            g_d4 == f_r4 ^ g_c3 ^ g_c7,
            g_d5 == f_r5 ^ g_c4,
            g_d6 == f_r6 ^ g_c5,
            g_d7 == f_r7 ^ g_c6,
            g_e0 == g_c0 ^ g_d6,
            g_e1 == g_c1 ^ g_d6 ^ g_d7,
            g_e2 == g_c2 ^ g_d0 ^ g_d7,
            g_e3 == g_c3 ^ g_d1 ^ g_d6,
            g_e4 == g_c4 ^ g_d2 ^ g_d6 ^ g_d7,
            g_e5 == g_c5 ^ g_d3 ^ g_d7,
            g_e6 == g_c6 ^ g_d4,
            g_e7 == g_c7 ^ g_d5,
            g_r0 == g_d0 ^ g_e0 ^ rotate_rows_2_spec(g_e0),
            g_r1 == g_d1 ^ g_e1 ^ rotate_rows_2_spec(g_e1),
            g_r2 == g_d2 ^ g_e2 ^ rotate_rows_2_spec(g_e2),
            g_r3 == g_d3 ^ g_e3 ^ rotate_rows_2_spec(g_e3),
            g_r4 == g_d4 ^ g_e4 ^ rotate_rows_2_spec(g_e4),
            g_r5 == g_d5 ^ g_e5 ^ rotate_rows_2_spec(g_e5),
            g_r6 == g_d6 ^ g_e6 ^ rotate_rows_2_spec(g_e6),
            g_r7 == g_d7 ^ g_e7 ^ rotate_rows_2_spec(g_e7),
    ;
    let t = mix_columns_2_spec(s);
    assert(t[0].0 == f_r0);
    assert(t[1].0 == f_r1);
    assert(t[2].0 == f_r2);
    assert(t[3].0 == f_r3);
    assert(t[4].0 == f_r4);
    assert(t[5].0 == f_r5);
    assert(t[6].0 == f_r6);
    assert(t[7].0 == f_r7);
    assert(inv_mix_columns_2_spec(t) =~= s);
}

/// `mix_columns_2` undoes `inv_mix_columns_2`.
pub proof fn lemma_mix_columns_2_inv_mix_columns_2(s: Seq<Lane>)
    requires
        s.len() == 8,
    ensures
        mix_columns_2_spec(inv_mix_columns_2_spec(s)) == s,
{
    reveal(mix_columns_2_spec);
    reveal(inv_mix_columns_2_spec);
    let a0: u128 = s[0].0;
    let a1: u128 = s[1].0;
    let a2: u128 = s[2].0;
    let a3: u128 = s[3].0;
    let a4: u128 = s[4].0;
    let a5: u128 = s[5].0;
    let a6: u128 = s[6].0;
    let a7: u128 = s[7].0;
    let f_b0: u128 = rotate_rows_and_columns_1_2_spec(a0);
    let f_b1: u128 = rotate_rows_and_columns_1_2_spec(a1);
    let f_b2: u128 = rotate_rows_and_columns_1_2_spec(a2);
    let f_b3: u128 = rotate_rows_and_columns_1_2_spec(a3);
    let f_b4: u128 = rotate_rows_and_columns_1_2_spec(a4);
    let f_b5: u128 = rotate_rows_and_columns_1_2_spec(a5);
    let f_b6: u128 = rotate_rows_and_columns_1_2_spec(a6);
    let f_b7: u128 = rotate_rows_and_columns_1_2_spec(a7);
    let f_c0: u128 = a0 ^ f_b0;
    let f_c1: u128 = a1 ^ f_b1;
    let f_c2: u128 = a2 ^ f_b2;
    let f_c3: u128 = a3 ^ f_b3;
    let f_c4: u128 = a4 ^ f_b4;
    let f_c5: u128 = a5 ^ f_b5;
    let f_c6: u128 = a6 ^ f_b6;
    let f_c7: u128 = a7 ^ f_b7;
    let f_d0: u128 = a0 ^ f_c7;
    let f_d1: u128 = a1 ^ f_c0 ^ f_c7;
    let f_d2: u128 = a2 ^ f_c1;
    let f_d3: u128 = a3 ^ f_c2 ^ f_c7;
    let f_d4: u128 = a4 ^ f_c3 ^ f_c7;
    let f_d5: u128 = a5 ^ f_c4;
    let f_d6: u128 = a6 ^ f_c5;
    let f_d7: u128 = a7 ^ f_c6;
    let f_e0: u128 = f_c0 ^ f_d6;
    let f_e1: u128 = f_c1 ^ f_d6 ^ f_d7;
    let f_e2: u128 = f_c2 ^ f_d0 ^ f_d7;
    let f_e3: u128 = f_c3 ^ f_d1 ^ f_d6;
    let f_e4: u128 = f_c4 ^ f_d2 ^ f_d6 ^ f_d7;
    let f_e5: u128 = f_c5 ^ f_d3 ^ f_d7;
    let f_e6: u128 = f_c6 ^ f_d4;
    let f_e7: u128 = f_c7 ^ f_d5;
    let f_r0: u128 = f_d0 ^ f_e0 ^ rotate_rows_2_spec(f_e0);
    let f_r1: u128 = f_d1 ^ f_e1 ^ rotate_rows_2_spec(f_e1);
    let f_r2: u128 = f_d2 ^ f_e2 ^ rotate_rows_2_spec(f_e2);
    let f_r3: u128 = f_d3 ^ f_e3 ^ rotate_rows_2_spec(f_e3);
    let f_r4: u128 = f_d4 ^ f_e4 ^ rotate_rows_2_spec(f_e4);
    let f_r5: u128 = f_d5 ^ f_e5 ^ rotate_rows_2_spec(f_e5);
    let f_r6: u128 = f_d6 ^ f_e6 ^ rotate_rows_2_spec(f_e6);
    let f_r7: u128 = f_d7 ^ f_e7 ^ rotate_rows_2_spec(f_e7);
    let g_b0: u128 = rotate_rows_and_columns_1_2_spec(f_r0);
    let g_b1: u128 = rotate_rows_and_columns_1_2_spec(f_r1);
    let g_b2: u128 = rotate_rows_and_columns_1_2_spec(f_r2);
    let g_b3: u128 = rotate_rows_and_columns_1_2_spec(f_r3);
    let g_b4: u128 = rotate_rows_and_columns_1_2_spec(f_r4);
    let g_b5: u128 = rotate_rows_and_columns_1_2_spec(f_r5);
    let g_b6: u128 = rotate_rows_and_columns_1_2_spec(f_r6);
    let g_b7: u128 = rotate_rows_and_columns_1_2_spec(f_r7);
    let g_c0: u128 = f_r0 ^ g_b0;
    let g_c1: u128 = f_r1 ^ g_b1;
    let g_c2: u128 = f_r2 ^ g_b2;
    let g_c3: u128 = f_r3 ^ g_b3;
    let g_c4: u128 = f_r4 ^ g_b4;
    let g_c5: u128 = f_r5 ^ g_b5;
    let g_c6: u128 = f_r6 ^ g_b6;
    let g_c7: u128 = f_r7 ^ g_b7;
    let g_r0: u128 = g_b0 ^ g_c7 ^ rotate_rows_2_spec(g_c0);
    let g_r1: u128 = g_b1 ^ g_c0 ^ g_c7 ^ rotate_rows_2_spec(g_c1);
    let g_r2: u128 = g_b2 ^ g_c1 ^ rotate_rows_2_spec(g_c2);
    let g_r3: u128 = g_b3 ^ g_c2 ^ g_c7 ^ rotate_rows_2_spec(g_c3);
    let g_r4: u128 = g_b4 ^ g_c3 ^ g_c7 ^ rotate_rows_2_spec(g_c4);
    let g_r5: u128 = g_b5 ^ g_c4 ^ rotate_rows_2_spec(g_c5);
    let g_r6: u128 = g_b6 ^ g_c5 ^ rotate_rows_2_spec(g_c6);
    let g_r7: u128 = g_b7 ^ g_c6 ^ rotate_rows_2_spec(g_c7);
    assert(g_r0 == a0 && g_r1 == a1 && g_r2 == a2 && g_r3 == a3 && g_r4 == a4 && g_r5 == a5 && g_r6 == a6 && g_r7 == a7) by (bit_vector)
        requires
            f_b0 == rotate_rows_and_columns_1_2_spec(a0),
            f_b1 == rotate_rows_and_columns_1_2_spec(a1),
            f_b2 == rotate_rows_and_columns_1_2_spec(a2),
            f_b3 == rotate_rows_and_columns_1_2_spec(a3),
            f_b4 == rotate_rows_and_columns_1_2_spec(a4),
            f_b5 == rotate_rows_and_columns_1_2_spec(a5),
            f_b6 == rotate_rows_and_columns_1_2_spec(a6),
            f_b7 == rotate_rows_and_columns_1_2_spec(a7),
            f_c0 == a0 ^ f_b0,
            f_c1 == a1 ^ f_b1,
            f_c2 == a2 ^ f_b2,
            f_c3 == a3 ^ f_b3,
            f_c4 == a4 ^ f_b4,
            f_c5 == a5 ^ f_b5,
            f_c6 == a6 ^ f_b6,
            f_c7 == a7 ^ f_b7,
            f_d0 == a0 ^ f_c7,
            f_d1 == a1 ^ f_c0 ^ f_c7,
            f_d2 == a2 ^ f_c1,
            f_d3 == a3 ^ f_c2 ^ f_c7,
            f_d4 == a4 ^ f_c3 ^ f_c7,
            f_d5 == a5 ^ f_c4,
            f_d6 == a6 ^ f_c5,
            f_d7 == a7 ^ f_c6,
            f_e0 == f_c0 ^ f_d6,
            f_e1 == f_c1 ^ f_d6 ^ f_d7,
            f_e2 == f_c2 ^ f_d0 ^ f_d7,
            f_e3 == f_c3 ^ f_d1 ^ f_d6,
            f_e4 == f_c4 ^ f_d2 ^ f_d6 ^ f_d7,
            f_e5 == f_c5 ^ f_d3 ^ f_d7,
            f_e6 == f_c6 ^ f_d4,
            f_e7 == f_c7 ^ f_d5,
            f_r0 == f_d0 ^ f_e0 ^ rotate_rows_2_spec(f_e0),
            f_r1 == f_d1 ^ f_e1 ^ rotate_rows_2_spec(f_e1),
            f_r2 == f_d2 ^ f_e2 ^ rotate_rows_2_spec(f_e2),
            f_r3 == f_d3 ^ f_e3 ^ rotate_rows_2_spec(f_e3),
            f_r4 == f_d4 ^ f_e4 ^ rotate_rows_2_spec(f_e4),
            f_r5 == f_d5 ^ f_e5 ^ rotate_rows_2_spec(f_e5),
            f_r6 == f_d6 ^ f_e6 ^ rotate_rows_2_spec(f_e6),
            f_r7 == f_d7 ^ f_e7 ^ rotate_rows_2_spec(f_e7),
            g_b0 == rotate_rows_and_columns_1_2_spec(f_r0),
            g_b1 == rotate_rows_and_columns_1_2_spec(f_r1),
            g_b2 == rotate_rows_and_columns_1_2_spec(f_r2),
            g_b3 == rotate_rows_and_columns_1_2_spec(f_r3),
            g_b4 == rotate_rows_and_columns_1_2_spec(f_r4),
            g_b5 == rotate_rows_and_columns_1_2_spec(f_r5),
            g_b6 == rotate_rows_and_columns_1_2_spec(f_r6),
            g_b7 == rotate_rows_and_columns_1_2_spec(f_r7),
            g_c0 == f_r0 ^ g_b0,
            g_c1 == f_r1 ^ g_b1,
            g_c2 == f_r2 ^ g_b2,
            g_c3 == f_r3 ^ g_b3,
            g_c4 == f_r4 ^ g_b4,
            g_c5 == f_r5 ^ g_b5,
            g_c6 == f_r6 ^ g_b6,
            g_c7 == f_r7 ^ g_b7,
            g_r0 == g_b0 ^ g_c7 ^ rotate_rows_2_spec(g_c0),
            g_r1 == g_b1 ^ g_c0 ^ g_c7 ^ rotate_rows_2_spec(g_c1),
            g_r2 == g_b2 ^ g_c1 ^ rotate_rows_2_spec(g_c2),
            g_r3 == g_b3 ^ g_c2 ^ g_c7 ^ rotate_rows_2_spec(g_c3),
            g_r4 == g_b4 ^ g_c3 ^ g_c7 ^ rotate_rows_2_spec(g_c4),
            g_r5 == g_b5 ^ g_c4 ^ rotate_rows_2_spec(g_c5),
            g_r6 == g_b6 ^ g_c5 ^ rotate_rows_2_spec(g_c6),
            g_r7 == g_b7 ^ g_c6 ^ rotate_rows_2_spec(g_c7),
    ;
    let t = inv_mix_columns_2_spec(s);
    assert(t[0].0 == f_r0);
    assert(t[1].0 == f_r1);
    assert(t[2].0 == f_r2);
    assert(t[3].0 == f_r3);
    assert(t[4].0 == f_r4);
    assert(t[5].0 == f_r5);
    assert(t[6].0 == f_r6);
    assert(t[7].0 == f_r7);
    assert(mix_columns_2_spec(t) =~= s);
}

/// `inv_mix_columns_3` undoes `mix_columns_3`.
pub proof fn lemma_inv_mix_columns_3_mix_columns_3(s: Seq<Lane>)
    requires
        s.len() == 8,
    ensures
        inv_mix_columns_3_spec(mix_columns_3_spec(s)) == s,
{
    reveal(mix_columns_3_spec);
    reveal(inv_mix_columns_3_spec);
    let a0: u128 = s[0].0;
    let a1: u128 = s[1].0;
    let a2: u128 = s[2].0;
    let a3: u128 = s[3].0;
    let a4: u128 = s[4].0;
    let a5: u128 = s[5].0;
    let a6: u128 = s[6].0;
    let a7: u128 = s[7].0;
    let f_b0: u128 = rotate_rows_and_columns_1_3_spec(a0);
    let f_b1: u128 = rotate_rows_and_columns_1_3_spec(a1);
    let f_b2: u128 = rotate_rows_and_columns_1_3_spec(a2);
    let f_b3: u128 = rotate_rows_and_columns_1_3_spec(a3);
    let f_b4: u128 = rotate_rows_and_columns_1_3_spec(a4);
    let f_b5: u128 = rotate_rows_and_columns_1_3_spec(a5);
    let f_b6: u128 = rotate_rows_and_columns_1_3_spec(a6);
    let f_b7: u128 = rotate_rows_and_columns_1_3_spec(a7);
    let f_c0: u128 = a0 ^ f_b0;
    let f_c1: u128 = a1 ^ f_b1;
    let f_c2: u128 = a2 ^ f_b2;
    let f_c3: u128 = a3 ^ f_b3;
    let f_c4: u128 = a4 ^ f_b4;
    let f_c5: u128 = a5 ^ f_b5;
    let f_c6: u128 = a6 ^ f_b6;
    let f_c7: u128 = a7 ^ f_b7;
    let f_r0: u128 = f_b0 ^ f_c7 ^ rotate_rows_and_columns_2_2_spec(f_c0);
    let f_r1: u128 = f_b1 ^ f_c0 ^ f_c7 ^ rotate_rows_and_columns_2_2_spec(f_c1);
    let f_r2: u128 = f_b2 ^ f_c1 ^ rotate_rows_and_columns_2_2_spec(f_c2);
    let f_r3: u128 = f_b3 ^ f_c2 ^ f_c7 ^ rotate_rows_and_columns_2_2_spec(f_c3);
    let f_r4: u128 = f_b4 ^ f_c3 ^ f_c7 ^ rotate_rows_and_columns_2_2_spec(f_c4);
    let f_r5: u128 = f_b5 ^ f_c4 ^ rotate_rows_and_columns_2_2_spec(f_c5);
    let f_r6: u128 = f_b6 ^ f_c5 ^ rotate_rows_and_columns_2_2_spec(f_c6);
    let f_r7: u128 = f_b7 ^ f_c6 ^ rotate_rows_and_columns_2_2_spec(f_c7);
    let g_b0: u128 = rotate_rows_and_columns_1_3_spec(f_r0);
    let g_b1: u128 = rotate_rows_and_columns_1_3_spec(f_r1);
    let g_b2: u128 = rotate_rows_and_columns_1_3_spec(f_r2);
    let g_b3: u128 = rotate_rows_and_columns_1_3_spec(f_r3);
    let g_b4: u128 = rotate_rows_and_columns_1_3_spec(f_r4);
    let g_b5: u128 = rotate_rows_and_columns_1_3_spec(f_r5);
    let g_b6: u128 = rotate_rows_and_columns_1_3_spec(f_r6);
    let g_b7: u128 = rotate_rows_and_columns_1_3_spec(f_r7);
    let g_c0: u128 = f_r0 ^ g_b0;
    let g_c1: u128 = f_r1 ^ g_b1;
    let g_c2: u128 = f_r2 ^ g_b2;
    let g_c3: u128 = f_r3 ^ g_b3;
    let g_c4: u128 = f_r4 ^ g_b4;
    let g_c5: u128 = f_r5 ^ g_b5;
    let g_c6: u128 = f_r6 ^ g_b6;
    let g_c7: u128 = f_r7 ^ g_b7;
    let g_d0: u128 = f_r0 ^ g_c7;
    let g_d1: u128 = f_r1 ^ g_c0 ^ g_c7;
    let g_d2: u128 = f_r2 ^ g_c1;
    let g_d3: u128 = f_r3 ^ g_c2 ^ g_c7;
    let g_d4: u128 = f_r4 ^ g_c3 ^ g_c7;
    let g_d5: u128 = f_r5 ^ g_c4;
    let g_d6: u128 = f_r6 ^ g_c5;
    let g_d7: u128 = f_r7 ^ g_c6;
    let g_e0: u128 = g_c0 ^ g_d6;
    let g_e1: u128 = g_c1 ^ g_d6 ^ g_d7;
    let g_e2: u128 = g_c2 ^ g_d0 ^ g_d7;
    let g_e3: u128 = g_c3 ^ g_d1 ^ g_d6;
    let g_e4: u128 = g_c4 ^ g_d2 ^ g_d6 ^ g_d7;
    let g_e5: u128 = g_c5 ^ g_d3 ^ g_d7;
    let g_e6: u128 = g_c6 ^ g_d4;
    let g_e7: u128 = g_c7 ^ g_d5;
    let g_r0: u128 = g_d0 ^ g_e0 ^ rotate_rows_and_columns_2_2_spec(g_e0);
    let g_r1: u128 = g_d1 ^ g_e1 ^ rotate_rows_and_columns_2_2_spec(g_e1);
    let g_r2: u128 = g_d2 ^ g_e2 ^ rotate_rows_and_columns_2_2_spec(g_e2);
    let g_r3: u128 = g_d3 ^ g_e3 ^ rotate_rows_and_columns_2_2_spec(g_e3);
    let g_r4: u128 = g_d4 ^ g_e4 ^ rotate_rows_and_columns_2_2_spec(g_e4);
    let g_r5: u128 = g_d5 ^ g_e5 ^ rotate_rows_and_columns_2_2_spec(g_e5);
    let g_r6: u128 = g_d6 ^ g_e6 ^ rotate_rows_and_columns_2_2_spec(g_e6);
    let g_r7: u128 = g_d7 ^ g_e7 ^ rotate_rows_and_columns_2_2_spec(g_e7);
    assert(g_r0 == a0 && g_r1 == a1 && g_r2 == a2 && g_r3 == a3 && g_r4 == a4 && g_r5 == a5 && g_r6 == a6 && g_r7 == a7) by (bit_vector)
        requires
            f_b0 == rotate_rows_and_columns_1_3_spec(a0),
            f_b1 == rotate_rows_and_columns_1_3_spec(a1),
            f_b2 == rotate_rows_and_columns_1_3_spec(a2),
            f_b3 == rotate_rows_and_columns_1_3_spec(a3),
            f_b4 == rotate_rows_and_columns_1_3_spec(a4),
            f_b5 == rotate_rows_and_columns_1_3_spec(a5),
            f_b6 == rotate_rows_and_columns_1_3_spec(a6),
            f_b7 == rotate_rows_and_columns_1_3_spec(a7),
            f_c0 == a0 ^ f_b0,
            f_c1 == a1 ^ f_b1,
            f_c2 == a2 ^ f_b2,
            f_c3 == a3 ^ f_b3,
            f_c4 == a4 ^ f_b4,
            f_c5 == a5 ^ f_b5,
            f_c6 == a6 ^ f_b6,
            f_c7 == a7 ^ f_b7,
            f_r0 == f_b0 ^ f_c7 ^ rotate_rows_and_columns_2_2_spec(f_c0),
            f_r1 == f_b1 ^ f_c0 ^ f_c7 ^ rotate_rows_and_columns_2_2_spec(f_c1),
            f_r2 == f_b2 ^ f_c1 ^ rotate_rows_and_columns_2_2_spec(f_c2),
            f_r3 == f_b3 ^ f_c2 ^ f_c7 ^ rotate_rows_and_columns_2_2_spec(f_c3),
            f_r4 == f_b4 ^ f_c3 ^ f_c7 ^ rotate_rows_and_columns_2_2_spec(f_c4),
            f_r5 == f_b5 ^ f_c4 ^ rotate_rows_and_columns_2_2_spec(f_c5),
            f_r6 == f_b6 ^ f_c5 ^ rotate_rows_and_columns_2_2_spec(f_c6),
            f_r7 == f_b7 ^ f_c6 ^ rotate_rows_and_columns_2_2_spec(f_c7),
            g_b0 == rotate_rows_and_columns_1_3_spec(f_r0),
            g_b1 == rotate_rows_and_columns_1_3_spec(f_r1),
            g_b2 == rotate_rows_and_columns_1_3_spec(f_r2),
            g_b3 == rotate_rows_and_columns_1_3_spec(f_r3),
            g_b4 == rotate_rows_and_columns_1_3_spec(f_r4),
            g_b5 == rotate_rows_and_columns_1_3_spec(f_r5),
            g_b6 == rotate_rows_and_columns_1_3_spec(f_r6),
            g_b7 == rotate_rows_and_columns_1_3_spec(f_r7),
            g_c0 == f_r0 ^ g_b0,
            g_c1 == f_r1 ^ g_b1,
            g_c2 == f_r2 ^ g_b2,
            g_c3 == f_r3 ^ g_b3,
            g_c4 == f_r4 ^ g_b4,
            g_c5 == f_r5 ^ g_b5,
            g_c6 == f_r6 ^ g_b6,
            g_c7 == f_r7 ^ g_b7,
            g_d0 == f_r0 ^ g_c7,
            g_d1 == f_r1 ^ g_c0 ^ g_c7,
            g_d2 == f_r2 ^ g_c1,
            g_d3 == f_r3 ^ g_c2 ^ g_c7,
            g_d4 == f_r4 ^ g_c3 ^ g_c7,
            g_d5 == f_r5 ^ g_c4,
            g_d6 == f_r6 ^ g_c5,
            g_d7 == f_r7 ^ g_c6,
            g_e0 == g_c0 ^ g_d6,
            g_e1 == g_c1 ^ g_d6 ^ g_d7,
            g_e2 == g_c2 ^ g_d0 ^ g_d7,
            g_e3 == g_c3 ^ g_d1 ^ g_d6,
            g_e4 == g_c4 ^ g_d2 ^ g_d6 ^ g_d7,
            g_e5 == g_c5 ^ g_d3 ^ g_d7,
            g_e6 == g_c6 ^ g_d4,
            g_e7 == g_c7 ^ g_d5,
            g_r0 == g_d0 ^ g_e0 ^ rotate_rows_and_columns_2_2_spec(g_e0),
            g_r1 == g_d1 ^ g_e1 ^ rotate_rows_and_columns_2_2_spec(g_e1),
            g_r2 == g_d2 ^ g_e2 ^ rotate_rows_and_columns_2_2_spec(g_e2),
            g_r3 == g_d3 ^ g_e3 ^ rotate_rows_and_columns_2_2_spec(g_e3),
            g_r4 == g_d4 ^ g_e4 ^ rotate_rows_and_columns_2_2_spec(g_e4),
            g_r5 == g_d5 ^ g_e5 ^ rotate_rows_and_columns_2_2_spec(g_e5),
            g_r6 == g_d6 ^ g_e6 ^ rotate_rows_and_columns_2_2_spec(g_e6),
            g_r7 == g_d7 ^ g_e7 ^ rotate_rows_and_columns_2_2_spec(g_e7),
    ;
    let t = mix_columns_3_spec(s);
    assert(t[0].0 == f_r0);
    assert(t[1].0 == f_r1);
    assert(t[2].0 == f_r2);
    assert(t[3].0 == f_r3);
    assert(t[4].0 == f_r4);
    assert(t[5].0 == f_r5);
    assert(t[6].0 == f_r6);
    assert(t[7].0 == f_r7);
    assert(inv_mix_columns_3_spec(t) =~= s);
}

/// `mix_columns_3` undoes `inv_mix_columns_3`.
pub proof fn lemma_mix_columns_3_inv_mix_columns_3(s: Seq<Lane>)
    requires
        s.len() == 8,
    ensures
        mix_columns_3_spec(inv_mix_columns_3_spec(s)) == s,
{
    reveal(mix_columns_3_spec);
    reveal(inv_mix_columns_3_spec);
    let a0: u128 = s[0].0;
    let a1: u128 = s[1].0;
    let a2: u128 = s[2].0;
    let a3: u128 = s[3].0;
    let a4: u128 = s[4].0;
    let a5: u128 = s[5].0;
    let a6: u128 = s[6].0;
    let a7: u128 = s[7].0;
    let f_b0: u128 = rotate_rows_and_columns_1_3_spec(a0);
    let f_b1: u128 = rotate_rows_and_columns_1_3_spec(a1);
    let f_b2: u128 = rotate_rows_and_columns_1_3_spec(a2);
    let f_b3: u128 = rotate_rows_and_columns_1_3_spec(a3);
    let f_b4: u128 = rotate_rows_and_columns_1_3_spec(a4);
    let f_b5: u128 = rotate_rows_and_columns_1_3_spec(a5);
    let f_b6: u128 = rotate_rows_and_columns_1_3_spec(a6);
    let f_b7: u128 = rotate_rows_and_columns_1_3_spec(a7);
    let f_c0: u128 = a0 ^ f_b0;
    let f_c1: u128 = a1 ^ f_b1;
    let f_c2: u128 = a2 ^ f_b2;
    let f_c3: u128 = a3 ^ f_b3;
    let f_c4: u128 = a4 ^ f_b4;
    let f_c5: u128 = a5 ^ f_b5;
    let f_c6: u128 = a6 ^ f_b6;
    let f_c7: u128 = a7 ^ f_b7;
    let f_d0: u128 = a0 ^ f_c7;
    let f_d1: u128 = a1 ^ f_c0 ^ f_c7;
    let f_d2: u128 = a2 ^ f_c1;
    let f_d3: u128 = a3 ^ f_c2 ^ f_c7;
    let f_d4: u128 = a4 ^ f_c3 ^ f_c7;
    let f_d5: u128 = a5 ^ f_c4;
    let f_d6: u128 = a6 ^ f_c5;
    let f_d7: u128 = a7 ^ f_c6;
    let f_e0: u128 = f_c0 ^ f_d6;
    let f_e1: u128 = f_c1 ^ f_d6 ^ f_d7;
    let f_e2: u128 = f_c2 ^ f_d0 ^ f_d7;
    let f_e3: u128 = f_c3 ^ f_d1 ^ f_d6;
    let f_e4: u128 = f_c4 ^ f_d2 ^ f_d6 ^ f_d7;
    let f_e5: u128 = f_c5 ^ f_d3 ^ f_d7;
    let f_e6: u128 = f_c6 ^ f_d4;
    let f_e7: u128 = f_c7 ^ f_d5;
    let f_r0: u128 = f_d0 ^ f_e0 ^ rotate_rows_and_columns_2_2_spec(f_e0);
    let f_r1: u128 = f_d1 ^ f_e1 ^ rotate_rows_and_columns_2_2_spec(f_e1);
    let f_r2: u128 = f_d2 ^ f_e2 ^ rotate_rows_and_columns_2_2_spec(f_e2);
    let f_r3: u128 = f_d3 ^ f_e3 ^ rotate_rows_and_columns_2_2_spec(f_e3);
    let f_r4: u128 = f_d4 ^ f_e4 ^ rotate_rows_and_columns_2_2_spec(f_e4);
    let f_r5: u128 = f_d5 ^ f_e5 ^ rotate_rows_and_columns_2_2_spec(f_e5);
    let f_r6: u128 = f_d6 ^ f_e6 ^ rotate_rows_and_columns_2_2_spec(f_e6);
    let f_r7: u128 = f_d7 ^ f_e7 ^ rotate_rows_and_columns_2_2_spec(f_e7);
    let g_b0: u128 = rotate_rows_and_columns_1_3_spec(f_r0);
    let g_b1: u128 = rotate_rows_and_columns_1_3_spec(f_r1);
    let g_b2: u128 = rotate_rows_and_columns_1_3_spec(f_r2);
    let g_b3: u128 = rotate_rows_and_columns_1_3_spec(f_r3);
    let g_b4: u128 = rotate_rows_and_columns_1_3_spec(f_r4);
    let g_b5: u128 = rotate_rows_and_columns_1_3_spec(f_r5);
    let g_b6: u128 = rotate_rows_and_columns_1_3_spec(f_r6);
    let g_b7: u128 = rotate_rows_and_columns_1_3_spec(f_r7);
    let g_c0: u128 = f_r0 ^ g_b0;
    let g_c1: u128 = f_r1 ^ g_b1;
    let g_c2: u128 = f_r2 ^ g_b2;
    let g_c3: u128 = f_r3 ^ g_b3;
    let g_c4: u128 = f_r4 ^ g_b4;
    let g_c5: u128 = f_r5 ^ g_b5;
    let g_c6: u128 = f_r6 ^ g_b6;
    let g_c7: u128 = f_r7 ^ g_b7;
    let g_r0: u128 = g_b0 ^ g_c7 ^ rotate_rows_and_columns_2_2_spec(g_c0);
    let g_r1: u128 = g_b1 ^ g_c0 ^ g_c7 ^ rotate_rows_and_columns_2_2_spec(g_c1);
    let g_r2: u128 = g_b2 ^ g_c1 ^ rotate_rows_and_columns_2_2_spec(g_c2);
    let g_r3: u128 = g_b3 ^ g_c2 ^ g_c7 ^ rotate_rows_and_columns_2_2_spec(g_c3);
    let g_r4: u128 = g_b4 ^ g_c3 ^ g_c7 ^ rotate_rows_and_columns_2_2_spec(g_c4);
    let g_r5: u128 = g_b5 ^ g_c4 ^ rotate_rows_and_columns_2_2_spec(g_c5);
    let g_r6: u128 = g_b6 ^ g_c5 ^ rotate_rows_and_columns_2_2_spec(g_c6);
    let g_r7: u128 = g_b7 ^ g_c6 ^ rotate_rows_and_columns_2_2_spec(g_c7);
    assert(g_r0 == a0 && g_r1 == a1 && g_r2 == a2 && g_r3 == a3 && g_r4 == a4 && g_r5 == a5 && g_r6 == a6 && g_r7 == a7) by (bit_vector)
        requires
            f_b0 == rotate_rows_and_columns_1_3_spec(a0),
            f_b1 == rotate_rows_and_columns_1_3_spec(a1),
            f_b2 == rotate_rows_and_columns_1_3_spec(a2),
            f_b3 == rotate_rows_and_columns_1_3_spec(a3),
            f_b4 == rotate_rows_and_columns_1_3_spec(a4),
            f_b5 == rotate_rows_and_columns_1_3_spec(a5),
            f_b6 == rotate_rows_and_columns_1_3_spec(a6),
            f_b7 == rotate_rows_and_columns_1_3_spec(a7),
            f_c0 == a0 ^ f_b0,
            f_c1 == a1 ^ f_b1,
            f_c2 == a2 ^ f_b2,
            f_c3 == a3 ^ f_b3,
            f_c4 == a4 ^ f_b4,
            f_c5 == a5 ^ f_b5,
            f_c6 == a6 ^ f_b6,
            f_c7 == a7 ^ f_b7,
            f_d0 == a0 ^ f_c7,
            f_d1 == a1 ^ f_c0 ^ f_c7,
            f_d2 == a2 ^ f_c1,
            f_d3 == a3 ^ f_c2 ^ f_c7,
            f_d4 == a4 ^ f_c3 ^ f_c7,
            f_d5 == a5 ^ f_c4,
            f_d6 == a6 ^ f_c5,
            f_d7 == a7 ^ f_c6,
            f_e0 == f_c0 ^ f_d6,
            f_e1 == f_c1 ^ f_d6 ^ f_d7,
            f_e2 == f_c2 ^ f_d0 ^ f_d7,
            f_e3 == f_c3 ^ f_d1 ^ f_d6,
            f_e4 == f_c4 ^ f_d2 ^ f_d6 ^ f_d7,
            f_e5 == f_c5 ^ f_d3 ^ f_d7,
            f_e6 == f_c6 ^ f_d4,
            f_e7 == f_c7 ^ f_d5,
            f_r0 == f_d0 ^ f_e0 ^ rotate_rows_and_columns_2_2_spec(f_e0),
            f_r1 == f_d1 ^ f_e1 ^ rotate_rows_and_columns_2_2_spec(f_e1),
            f_r2 == f_d2 ^ f_e2 ^ rotate_rows_and_columns_2_2_spec(f_e2),
            f_r3 == f_d3 ^ f_e3 ^ rotate_rows_and_columns_2_2_spec(f_e3),
            f_r4 == f_d4 ^ f_e4 ^ rotate_rows_and_columns_2_2_spec(f_e4),
            f_r5 == f_d5 ^ f_e5 ^ rotate_rows_and_columns_2_2_spec(f_e5),
            f_r6 == f_d6 ^ f_e6 ^ rotate_rows_and_columns_2_2_spec(f_e6),
            f_r7 == f_d7 ^ f_e7 ^ rotate_rows_and_columns_2_2_spec(f_e7),
            g_b0 == rotate_rows_and_columns_1_3_spec(f_r0),
            g_b1 == rotate_rows_and_columns_1_3_spec(f_r1),
            g_b2 == rotate_rows_and_columns_1_3_spec(f_r2),
            g_b3 == rotate_rows_and_columns_1_3_spec(f_r3),
            g_b4 == rotate_rows_and_columns_1_3_spec(f_r4),
            g_b5 == rotate_rows_and_columns_1_3_spec(f_r5),
            g_b6 == rotate_rows_and_columns_1_3_spec(f_r6),
            g_b7 == rotate_rows_and_columns_1_3_spec(f_r7),
            g_c0 == f_r0 ^ g_b0,
            g_c1 == f_r1 ^ g_b1,
            g_c2 == f_r2 ^ g_b2,
            g_c3 == f_r3 ^ g_b3,
            g_c4 == f_r4 ^ g_b4,
            g_c5 == f_r5 ^ g_b5,
            g_c6 == f_r6 ^ g_b6,
            g_c7 == f_r7 ^ g_b7,
            g_r0 == g_b0 ^ g_c7 ^ rotate_rows_and_columns_2_2_spec(g_c0),
            g_r1 == g_b1 ^ g_c0 ^ g_c7 ^ rotate_rows_and_columns_2_2_spec(g_c1),
            g_r2 == g_b2 ^ g_c1 ^ rotate_rows_and_columns_2_2_spec(g_c2),
            g_r3 == g_b3 ^ g_c2 ^ g_c7 ^ rotate_rows_and_columns_2_2_spec(g_c3),
            g_r4 == g_b4 ^ g_c3 ^ g_c7 ^ rotate_rows_and_columns_2_2_spec(g_c4),
            g_r5 == g_b5 ^ g_c4 ^ rotate_rows_and_columns_2_2_spec(g_c5),
            g_r6 == g_b6 ^ g_c5 ^ rotate_rows_and_columns_2_2_spec(g_c6),
            g_r7 == g_b7 ^ g_c6 ^ rotate_rows_and_columns_2_2_spec(g_c7),
    ;
    let t = inv_mix_columns_3_spec(s);
    assert(t[0].0 == f_r0);
    assert(t[1].0 == f_r1);
    assert(t[2].0 == f_r2);
    assert(t[3].0 == f_r3);
    assert(t[4].0 == f_r4);
    assert(t[5].0 == f_r5);
    assert(t[6].0 == f_r6);
    assert(t[7].0 == f_r7);
    assert(mix_columns_3_spec(t) =~= s);
}

/// XOR and the row rotations keep a lane uniform.
pub proof fn lemma_uniform_ops(a: u128, b: u128)
    requires
        uniform_lane(a),
        uniform_lane(b),
    ensures
        uniform_lane(a ^ b),
        uniform_lane(rotate_rows_1_spec(a)),
        uniform_lane(rotate_rows_2_spec(a)),
{
    assert(uniform_lane(a ^ b) && uniform_lane(rotate_rows_1_spec(a)) && uniform_lane(rotate_rows_2_spec(a))) by (bit_vector)
        requires
            uniform_lane(a),
            uniform_lane(b),
    ;
}

/// MixColumns and InvMixColumns (rows drifted by 0) keep a state uniform:
/// they never mix the eight blocks.
pub proof fn lemma_mix_columns_0_uniform(s: Seq<Lane>)
    requires
        uniform_state(s),
    ensures
        uniform_state(mix_columns_0_spec(s)),
        uniform_state(inv_mix_columns_0_spec(s)),
{
    reveal(mix_columns_0_spec);
    reveal(inv_mix_columns_0_spec);
    lemma_uniform_ops(s[0].0, s[0].0);
    lemma_uniform_ops(s[1].0, s[1].0);
    lemma_uniform_ops(s[2].0, s[2].0);
    lemma_uniform_ops(s[3].0, s[3].0);
    lemma_uniform_ops(s[4].0, s[4].0);
    lemma_uniform_ops(s[5].0, s[5].0);
    lemma_uniform_ops(s[6].0, s[6].0);
    lemma_uniform_ops(s[7].0, s[7].0);
    lemma_uniform_ops(s[0].0, rotate_rows_1_spec(s[0].0));
    lemma_uniform_ops(s[1].0, rotate_rows_1_spec(s[1].0));
    lemma_uniform_ops(s[2].0, rotate_rows_1_spec(s[2].0));
    lemma_uniform_ops(s[3].0, rotate_rows_1_spec(s[3].0));
    lemma_uniform_ops(s[4].0, rotate_rows_1_spec(s[4].0));
    lemma_uniform_ops(s[5].0, rotate_rows_1_spec(s[5].0));
    lemma_uniform_ops(s[6].0, rotate_rows_1_spec(s[6].0));
    lemma_uniform_ops(s[7].0, rotate_rows_1_spec(s[7].0));
    lemma_uniform_ops((s[0].0 ^ rotate_rows_1_spec(s[0].0)), (s[0].0 ^ rotate_rows_1_spec(s[0].0)));
    lemma_uniform_ops((s[1].0 ^ rotate_rows_1_spec(s[1].0)), (s[1].0 ^ rotate_rows_1_spec(s[1].0)));
    lemma_uniform_ops((s[2].0 ^ rotate_rows_1_spec(s[2].0)), (s[2].0 ^ rotate_rows_1_spec(s[2].0)));
    lemma_uniform_ops((s[3].0 ^ rotate_rows_1_spec(s[3].0)), (s[3].0 ^ rotate_rows_1_spec(s[3].0)));
    lemma_uniform_ops((s[4].0 ^ rotate_rows_1_spec(s[4].0)), (s[4].0 ^ rotate_rows_1_spec(s[4].0)));
    lemma_uniform_ops((s[5].0 ^ rotate_rows_1_spec(s[5].0)), (s[5].0 ^ rotate_rows_1_spec(s[5].0)));
    lemma_uniform_ops((s[6].0 ^ rotate_rows_1_spec(s[6].0)), (s[6].0 ^ rotate_rows_1_spec(s[6].0)));
    lemma_uniform_ops((s[7].0 ^ rotate_rows_1_spec(s[7].0)), (s[7].0 ^ rotate_rows_1_spec(s[7].0)));
    lemma_uniform_ops(rotate_rows_1_spec(s[0].0), (s[7].0 ^ rotate_rows_1_spec(s[7].0)));
    lemma_uniform_ops(rotate_rows_1_spec(s[0].0) ^ (s[7].0 ^ rotate_rows_1_spec(s[7].0)), rotate_rows_2_spec((s[0].0 ^ rotate_rows_1_spec(s[0].0))));
    lemma_uniform_ops(rotate_rows_1_spec(s[1].0), (s[0].0 ^ rotate_rows_1_spec(s[0].0)));
    lemma_uniform_ops(rotate_rows_1_spec(s[1].0) ^ (s[0].0 ^ rotate_rows_1_spec(s[0].0)), (s[7].0 ^ rotate_rows_1_spec(s[7].0)));
    lemma_uniform_ops(rotate_rows_1_spec(s[1].0) ^ (s[0].0 ^ rotate_rows_1_spec(s[0].0)) ^ (s[7].0 ^ rotate_rows_1_spec(s[7].0)), rotate_rows_2_spec((s[1].0 ^ rotate_rows_1_spec(s[1].0))));
    lemma_uniform_ops(rotate_rows_1_spec(s[2].0), (s[1].0 ^ rotate_rows_1_spec(s[1].0)));
    lemma_uniform_ops(rotate_rows_1_spec(s[2].0) ^ (s[1].0 ^ rotate_rows_1_spec(s[1].0)), rotate_rows_2_spec((s[2].0 ^ rotate_rows_1_spec(s[2].0))));
    lemma_uniform_ops(rotate_rows_1_spec(s[3].0), (s[2].0 ^ rotate_rows_1_spec(s[2].0)));
    lemma_uniform_ops(rotate_rows_1_spec(s[3].0) ^ (s[2].0 ^ rotate_rows_1_spec(s[2].0)), (s[7].0 ^ rotate_rows_1_spec(s[7].0)));
    lemma_uniform_ops(rotate_rows_1_spec(s[3].0) ^ (s[2].0 ^ rotate_rows_1_spec(s[2].0)) ^ (s[7].0 ^ rotate_rows_1_spec(s[7].0)), rotate_rows_2_spec((s[3].0 ^ rotate_rows_1_spec(s[3].0))));
    lemma_uniform_ops(rotate_rows_1_spec(s[4].0), (s[3].0 ^ rotate_rows_1_spec(s[3].0)));
    lemma_uniform_ops(rotate_rows_1_spec(s[4].0) ^ (s[3].0 ^ rotate_rows_1_spec(s[3].0)), (s[7].0 ^ rotate_rows_1_spec(s[7].0)));
    lemma_uniform_ops(rotate_rows_1_spec(s[4].0) ^ (s[3].0 ^ rotate_rows_1_spec(s[3].0)) ^ (s[7].0 ^ rotate_rows_1_spec(s[7].0)), rotate_rows_2_spec((s[4].0 ^ rotate_rows_1_spec(s[4].0))));
    lemma_uniform_ops(rotate_rows_1_spec(s[5].0), (s[4].0 ^ rotate_rows_1_spec(s[4].0)));
    lemma_uniform_ops(rotate_rows_1_spec(s[5].0) ^ (s[4].0 ^ rotate_rows_1_spec(s[4].0)), rotate_rows_2_spec((s[5].0 ^ rotate_rows_1_spec(s[5].0))));
    lemma_uniform_ops(rotate_rows_1_spec(s[6].0), (s[5].0 ^ rotate_rows_1_spec(s[5].0)));
    lemma_uniform_ops(rotate_rows_1_spec(s[6].0) ^ (s[5].0 ^ rotate_rows_1_spec(s[5].0)), rotate_rows_2_spec((s[6].0 ^ rotate_rows_1_spec(s[6].0))));
    lemma_uniform_ops(rotate_rows_1_spec(s[7].0), (s[6].0 ^ rotate_rows_1_spec(s[6].0)));
    lemma_uniform_ops(rotate_rows_1_spec(s[7].0) ^ (s[6].0 ^ rotate_rows_1_spec(s[6].0)), rotate_rows_2_spec((s[7].0 ^ rotate_rows_1_spec(s[7].0))));
    lemma_uniform_ops(s[0].0, s[0].0);
    lemma_uniform_ops(s[1].0, s[1].0);
    lemma_uniform_ops(s[2].0, s[2].0);
    lemma_uniform_ops(s[3].0, s[3].0);
    lemma_uniform_ops(s[4].0, s[4].0);
    lemma_uniform_ops(s[5].0, s[5].0);
    lemma_uniform_ops(s[6].0, s[6].0);
    lemma_uniform_ops(s[7].0, s[7].0);
    lemma_uniform_ops(s[0].0, rotate_rows_1_spec(s[0].0));
    lemma_uniform_ops(s[1].0, rotate_rows_1_spec(s[1].0));
    lemma_uniform_ops(s[2].0, rotate_rows_1_spec(s[2].0));
    lemma_uniform_ops(s[3].0, rotate_rows_1_spec(s[3].0));
    lemma_uniform_ops(s[4].0, rotate_rows_1_spec(s[4].0));
    lemma_uniform_ops(s[5].0, rotate_rows_1_spec(s[5].0));
    lemma_uniform_ops(s[6].0, rotate_rows_1_spec(s[6].0));
    lemma_uniform_ops(s[7].0, rotate_rows_1_spec(s[7].0));
    lemma_uniform_ops(s[0].0, (s[7].0 ^ rotate_rows_1_spec(s[7].0)));
    lemma_uniform_ops(s[1].0, (s[0].0 ^ rotate_rows_1_spec(s[0].0)));
    lemma_uniform_ops(s[1].0 ^ (s[0].0 ^ rotate_rows_1_spec(s[0].0)), (s[7].0 ^ rotate_rows_1_spec(s[7].0)));
    lemma_uniform_ops(s[2].0, (s[1].0 ^ rotate_rows_1_spec(s[1].0)));
    lemma_uniform_ops(s[3].0, (s[2].0 ^ rotate_rows_1_spec(s[2].0)));
    lemma_uniform_ops(s[3].0 ^ (s[2].0 ^ rotate_rows_1_spec(s[2].0)), (s[7].0 ^ rotate_rows_1_spec(s[7].0)));
    lemma_uniform_ops(s[4].0, (s[3].0 ^ rotate_rows_1_spec(s[3].0)));
    lemma_uniform_ops(s[4].0 ^ (s[3].0 ^ rotate_rows_1_spec(s[3].0)), (s[7].0 ^ rotate_rows_1_spec(s[7].0)));
    lemma_uniform_ops(s[5].0, (s[4].0 ^ rotate_rows_1_spec(s[4].0)));
    lemma_uniform_ops(s[6].0, (s[5].0 ^ rotate_rows_1_spec(s[5].0)));
    lemma_uniform_ops(s[7].0, (s[6].0 ^ rotate_rows_1_spec(s[6].0)));
    lemma_uniform_ops((s[0].0 ^ rotate_rows_1_spec(s[0].0)), (s[6].0 ^ (s[5].0 ^ rotate_rows_1_spec(s[5].0))));
    lemma_uniform_ops((s[1].0 ^ rotate_rows_1_spec(s[1].0)), (s[6].0 ^ (s[5].0 ^ rotate_rows_1_spec(s[5].0))));
    lemma_uniform_ops((s[1].0 ^ rotate_rows_1_spec(s[1].0)) ^ (s[6].0 ^ (s[5].0 ^ rotate_rows_1_spec(s[5].0))), (s[7].0 ^ (s[6].0 ^ rotate_rows_1_spec(s[6].0))));
    lemma_uniform_ops((s[2].0 ^ rotate_rows_1_spec(s[2].0)), (s[0].0 ^ (s[7].0 ^ rotate_rows_1_spec(s[7].0))));
    lemma_uniform_ops((s[2].0 ^ rotate_rows_1_spec(s[2].0)) ^ (s[0].0 ^ (s[7].0 ^ rotate_rows_1_spec(s[7].0))), (s[7].0 ^ (s[6].0 ^ rotate_rows_1_spec(s[6].0))));
    lemma_uniform_ops((s[3].0 ^ rotate_rows_1_spec(s[3].0)), (s[1].0 ^ (s[0].0 ^ rotate_rows_1_spec(s[0].0)) ^ (s[7].0 ^ rotate_rows_1_spec(s[7].0))));
    lemma_uniform_ops((s[3].0 ^ rotate_rows_1_spec(s[3].0)) ^ (s[1].0 ^ (s[0].0 ^ rotate_rows_1_spec(s[0].0)) ^ (s[7].0 ^ rotate_rows_1_spec(s[7].0))), (s[6].0 ^ (s[5].0 ^ rotate_rows_1_spec(s[5].0))));
    lemma_uniform_ops((s[4].0 ^ rotate_rows_1_spec(s[4].0)), (s[2].0 ^ (s[1].0 ^ rotate_rows_1_spec(s[1].0))));
    lemma_uniform_ops((s[4].0 ^ rotate_rows_1_spec(s[4].0)) ^ (s[2].0 ^ (s[1].0 ^ rotate_rows_1_spec(s[1].0))), (s[6].0 ^ (s[5].0 ^ rotate_rows_1_spec(s[5].0))));
    lemma_uniform_ops((s[4].0 ^ rotate_rows_1_spec(s[4].0)) ^ (s[2].0 ^ (s[1].0 ^ rotate_rows_1_spec(s[1].0))) ^ (s[6].0 ^ (s[5].0 ^ rotate_rows_1_spec(s[5].0))), (s[7].0 ^ (s[6].0 ^ rotate_rows_1_spec(s[6].0))));
    lemma_uniform_ops((s[5].0 ^ rotate_rows_1_spec(s[5].0)), (s[3].0 ^ (s[2].0 ^ rotate_rows_1_spec(s[2].0)) ^ (s[7].0 ^ rotate_rows_1_spec(s[7].0))));
    lemma_uniform_ops((s[5].0 ^ rotate_rows_1_spec(s[5].0)) ^ (s[3].0 ^ (s[2].0 ^ rotate_rows_1_spec(s[2].0)) ^ (s[7].0 ^ rotate_rows_1_spec(s[7].0))), (s[7].0 ^ (s[6].0 ^ rotate_rows_1_spec(s[6].0))));
    lemma_uniform_ops((s[6].0 ^ rotate_rows_1_spec(s[6].0)), (s[4].0 ^ (s[3].0 ^ rotate_rows_1_spec(s[3].0)) ^ (s[7].0 ^ rotate_rows_1_spec(s[7].0))));
    lemma_uniform_ops((s[7].0 ^ rotate_rows_1_spec(s[7].0)), (s[5].0 ^ (s[4].0 ^ rotate_rows_1_spec(s[4].0))));
    lemma_uniform_ops(((s[0].0 ^ rotate_rows_1_spec(s[0].0)) ^ (s[6].0 ^ (s[5].0 ^ rotate_rows_1_spec(s[5].0)))), ((s[0].0 ^ rotate_rows_1_spec(s[0].0)) ^ (s[6].0 ^ (s[5].0 ^ rotate_rows_1_spec(s[5].0)))));
    lemma_uniform_ops((s[0].0 ^ (s[7].0 ^ rotate_rows_1_spec(s[7].0))), ((s[0].0 ^ rotate_rows_1_spec(s[0].0)) ^ (s[6].0 ^ (s[5].0 ^ rotate_rows_1_spec(s[5].0)))));
    lemma_uniform_ops((s[0].0 ^ (s[7].0 ^ rotate_rows_1_spec(s[7].0))) ^ ((s[0].0 ^ rotate_rows_1_spec(s[0].0)) ^ (s[6].0 ^ (s[5].0 ^ rotate_rows_1_spec(s[5].0)))), rotate_rows_2_spec(((s[0].0 ^ rotate_rows_1_spec(s[0].0)) ^ (s[6].0 ^ (s[5].0 ^ rotate_rows_1_spec(s[5].0))))));
    lemma_uniform_ops(((s[1].0 ^ rotate_rows_1_spec(s[1].0)) ^ (s[6].0 ^ (s[5].0 ^ rotate_rows_1_spec(s[5].0))) ^ (s[7].0 ^ (s[6].0 ^ rotate_rows_1_spec(s[6].0)))), ((s[1].0 ^ rotate_rows_1_spec(s[1].0)) ^ (s[6].0 ^ (s[5].0 ^ rotate_rows_1_spec(s[5].0))) ^ (s[7].0 ^ (s[6].0 ^ rotate_rows_1_spec(s[6].0)))));
    lemma_uniform_ops((s[1].0 ^ (s[0].0 ^ rotate_rows_1_spec(s[0].0)) ^ (s[7].0 ^ rotate_rows_1_spec(s[7].0))), ((s[1].0 ^ rotate_rows_1_spec(s[1].0)) ^ (s[6].0 ^ (s[5].0 ^ rotate_rows_1_spec(s[5].0))) ^ (s[7].0 ^ (s[6].0 ^ rotate_rows_1_spec(s[6].0)))));
    lemma_uniform_ops((s[1].0 ^ (s[0].0 ^ rotate_rows_1_spec(s[0].0)) ^ (s[7].0 ^ rotate_rows_1_spec(s[7].0))) ^ ((s[1].0 ^ rotate_rows_1_spec(s[1].0)) ^ (s[6].0 ^ (s[5].0 ^ rotate_rows_1_spec(s[5].0))) ^ (s[7].0 ^ (s[6].0 ^ rotate_rows_1_spec(s[6].0)))), rotate_rows_2_spec(((s[1].0 ^ rotate_rows_1_spec(s[1].0)) ^ (s[6].0 ^ (s[5].0 ^ rotate_rows_1_spec(s[5].0))) ^ (s[7].0 ^ (s[6].0 ^ rotate_rows_1_spec(s[6].0))))));
    lemma_uniform_ops(((s[2].0 ^ rotate_rows_1_spec(s[2].0)) ^ (s[0].0 ^ (s[7].0 ^ rotate_rows_1_spec(s[7].0))) ^ (s[7].0 ^ (s[6].0 ^ rotate_rows_1_spec(s[6].0)))), ((s[2].0 ^ rotate_rows_1_spec(s[2].0)) ^ (s[0].0 ^ (s[7].0 ^ rotate_rows_1_spec(s[7].0))) ^ (s[7].0 ^ (s[6].0 ^ rotate_rows_1_spec(s[6].0)))));
    lemma_uniform_ops((s[2].0 ^ (s[1].0 ^ rotate_rows_1_spec(s[1].0))), ((s[2].0 ^ rotate_rows_1_spec(s[2].0)) ^ (s[0].0 ^ (s[7].0 ^ rotate_rows_1_spec(s[7].0))) ^ (s[7].0 ^ (s[6].0 ^ rotate_rows_1_spec(s[6].0)))));
    lemma_uniform_ops((s[2].0 ^ (s[1].0 ^ rotate_rows_1_spec(s[1].0))) ^ ((s[2].0 ^ rotate_rows_1_spec(s[2].0)) ^ (s[0].0 ^ (s[7].0 ^ rotate_rows_1_spec(s[7].0))) ^ (s[7].0 ^ (s[6].0 ^ rotate_rows_1_spec(s[6].0)))), rotate_rows_2_spec(((s[2].0 ^ rotate_rows_1_spec(s[2].0)) ^ (s[0].0 ^ (s[7].0 ^ rotate_rows_1_spec(s[7].0))) ^ (s[7].0 ^ (s[6].0 ^ rotate_rows_1_spec(s[6].0))))));
    lemma_uniform_ops(((s[3].0 ^ rotate_rows_1_spec(s[3].0)) ^ (s[1].0 ^ (s[0].0 ^ rotate_rows_1_spec(s[0].0)) ^ (s[7].0 ^ rotate_rows_1_spec(s[7].0))) ^ (s[6].0 ^ (s[5].0 ^ rotate_rows_1_spec(s[5].0)))), ((s[3].0 ^ rotate_rows_1_spec(s[3].0)) ^ (s[1].0 ^ (s[0].0 ^ rotate_rows_1_spec(s[0].0)) ^ (s[7].0 ^ rotate_rows_1_spec(s[7].0))) ^ (s[6].0 ^ (s[5].0 ^ rotate_rows_1_spec(s[5].0)))));
    lemma_uniform_ops((s[3].0 ^ (s[2].0 ^ rotate_rows_1_spec(s[2].0)) ^ (s[7].0 ^ rotate_rows_1_spec(s[7].0))), ((s[3].0 ^ rotate_rows_1_spec(s[3].0)) ^ (s[1].0 ^ (s[0].0 ^ rotate_rows_1_spec(s[0].0)) ^ (s[7].0 ^ rotate_rows_1_spec(s[7].0))) ^ (s[6].0 ^ (s[5].0 ^ rotate_rows_1_spec(s[5].0)))));
    lemma_uniform_ops((s[3].0 ^ (s[2].0 ^ rotate_rows_1_spec(s[2].0)) ^ (s[7].0 ^ rotate_rows_1_spec(s[7].0))) ^ ((s[3].0 ^ rotate_rows_1_spec(s[3].0)) ^ (s[1].0 ^ (s[0].0 ^ rotate_rows_1_spec(s[0].0)) ^ (s[7].0 ^ rotate_rows_1_spec(s[7].0))) ^ (s[6].0 ^ (s[5].0 ^ rotate_rows_1_spec(s[5].0)))), rotate_rows_2_spec(((s[3].0 ^ rotate_rows_1_spec(s[3].0)) ^ (s[1].0 ^ (s[0].0 ^ rotate_rows_1_spec(s[0].0)) ^ (s[7].0 ^ rotate_rows_1_spec(s[7].0))) ^ (s[6].0 ^ (s[5].0 ^ rotate_rows_1_spec(s[5].0))))));
    lemma_uniform_ops(((s[4].0 ^ rotate_rows_1_spec(s[4].0)) ^ (s[2].0 ^ (s[1].0 ^ rotate_rows_1_spec(s[1].0))) ^ (s[6].0 ^ (s[5].0 ^ rotate_rows_1_spec(s[5].0))) ^ (s[7].0 ^ (s[6].0 ^ rotate_rows_1_spec(s[6].0)))), ((s[4].0 ^ rotate_rows_1_spec(s[4].0)) ^ (s[2].0 ^ (s[1].0 ^ rotate_rows_1_spec(s[1].0))) ^ (s[6].0 ^ (s[5].0 ^ rotate_rows_1_spec(s[5].0))) ^ (s[7].0 ^ (s[6].0 ^ rotate_rows_1_spec(s[6].0)))));
    lemma_uniform_ops((s[4].0 ^ (s[3].0 ^ rotate_rows_1_spec(s[3].0)) ^ (s[7].0 ^ rotate_rows_1_spec(s[7].0))), ((s[4].0 ^ rotate_rows_1_spec(s[4].0)) ^ (s[2].0 ^ (s[1].0 ^ rotate_rows_1_spec(s[1].0))) ^ (s[6].0 ^ (s[5].0 ^ rotate_rows_1_spec(s[5].0))) ^ (s[7].0 ^ (s[6].0 ^ rotate_rows_1_spec(s[6].0)))));
    lemma_uniform_ops((s[4].0 ^ (s[3].0 ^ rotate_rows_1_spec(s[3].0)) ^ (s[7].0 ^ rotate_rows_1_spec(s[7].0))) ^ ((s[4].0 ^ rotate_rows_1_spec(s[4].0)) ^ (s[2].0 ^ (s[1].0 ^ rotate_rows_1_spec(s[1].0))) ^ (s[6].0 ^ (s[5].0 ^ rotate_rows_1_spec(s[5].0))) ^ (s[7].0 ^ (s[6].0 ^ rotate_rows_1_spec(s[6].0)))), rotate_rows_2_spec(((s[4].0 ^ rotate_rows_1_spec(s[4].0)) ^ (s[2].0 ^ (s[1].0 ^ rotate_rows_1_spec(s[1].0))) ^ (s[6].0 ^ (s[5].0 ^ rotate_rows_1_spec(s[5].0))) ^ (s[7].0 ^ (s[6].0 ^ rotate_rows_1_spec(s[6].0))))));
    lemma_uniform_ops(((s[5].0 ^ rotate_rows_1_spec(s[5].0)) ^ (s[3].0 ^ (s[2].0 ^ rotate_rows_1_spec(s[2].0)) ^ (s[7].0 ^ rotate_rows_1_spec(s[7].0))) ^ (s[7].0 ^ (s[6].0 ^ rotate_rows_1_spec(s[6].0)))), ((s[5].0 ^ rotate_rows_1_spec(s[5].0)) ^ (s[3].0 ^ (s[2].0 ^ rotate_rows_1_spec(s[2].0)) ^ (s[7].0 ^ rotate_rows_1_spec(s[7].0))) ^ (s[7].0 ^ (s[6].0 ^ rotate_rows_1_spec(s[6].0)))));
    lemma_uniform_ops((s[5].0 ^ (s[4].0 ^ rotate_rows_1_spec(s[4].0))), ((s[5].0 ^ rotate_rows_1_spec(s[5].0)) ^ (s[3].0 ^ (s[2].0 ^ rotate_rows_1_spec(s[2].0)) ^ (s[7].0 ^ rotate_rows_1_spec(s[7].0))) ^ (s[7].0 ^ (s[6].0 ^ rotate_rows_1_spec(s[6].0)))));
    lemma_uniform_ops((s[5].0 ^ (s[4].0 ^ rotate_rows_1_spec(s[4].0))) ^ ((s[5].0 ^ rotate_rows_1_spec(s[5].0)) ^ (s[3].0 ^ (s[2].0 ^ rotate_rows_1_spec(s[2].0)) ^ (s[7].0 ^ rotate_rows_1_spec(s[7].0))) ^ (s[7].0 ^ (s[6].0 ^ rotate_rows_1_spec(s[6].0)))), rotate_rows_2_spec(((s[5].0 ^ rotate_rows_1_spec(s[5].0)) ^ (s[3].0 ^ (s[2].0 ^ rotate_rows_1_spec(s[2].0)) ^ (s[7].0 ^ rotate_rows_1_spec(s[7].0))) ^ (s[7].0 ^ (s[6].0 ^ rotate_rows_1_spec(s[6].0))))));
    lemma_uniform_ops(((s[6].0 ^ rotate_rows_1_spec(s[6].0)) ^ (s[4].0 ^ (s[3].0 ^ rotate_rows_1_spec(s[3].0)) ^ (s[7].0 ^ rotate_rows_1_spec(s[7].0)))), ((s[6].0 ^ rotate_rows_1_spec(s[6].0)) ^ (s[4].0 ^ (s[3].0 ^ rotate_rows_1_spec(s[3].0)) ^ (s[7].0 ^ rotate_rows_1_spec(s[7].0)))));
    lemma_uniform_ops((s[6].0 ^ (s[5].0 ^ rotate_rows_1_spec(s[5].0))), ((s[6].0 ^ rotate_rows_1_spec(s[6].0)) ^ (s[4].0 ^ (s[3].0 ^ rotate_rows_1_spec(s[3].0)) ^ (s[7].0 ^ rotate_rows_1_spec(s[7].0)))));
    lemma_uniform_ops((s[6].0 ^ (s[5].0 ^ rotate_rows_1_spec(s[5].0))) ^ ((s[6].0 ^ rotate_rows_1_spec(s[6].0)) ^ (s[4].0 ^ (s[3].0 ^ rotate_rows_1_spec(s[3].0)) ^ (s[7].0 ^ rotate_rows_1_spec(s[7].0)))), rotate_rows_2_spec(((s[6].0 ^ rotate_rows_1_spec(s[6].0)) ^ (s[4].0 ^ (s[3].0 ^ rotate_rows_1_spec(s[3].0)) ^ (s[7].0 ^ rotate_rows_1_spec(s[7].0))))));
    lemma_uniform_ops(((s[7].0 ^ rotate_rows_1_spec(s[7].0)) ^ (s[5].0 ^ (s[4].0 ^ rotate_rows_1_spec(s[4].0)))), ((s[7].0 ^ rotate_rows_1_spec(s[7].0)) ^ (s[5].0 ^ (s[4].0 ^ rotate_rows_1_spec(s[4].0)))));
    lemma_uniform_ops((s[7].0 ^ (s[6].0 ^ rotate_rows_1_spec(s[6].0))), ((s[7].0 ^ rotate_rows_1_spec(s[7].0)) ^ (s[5].0 ^ (s[4].0 ^ rotate_rows_1_spec(s[4].0)))));
    lemma_uniform_ops((s[7].0 ^ (s[6].0 ^ rotate_rows_1_spec(s[6].0))) ^ ((s[7].0 ^ rotate_rows_1_spec(s[7].0)) ^ (s[5].0 ^ (s[4].0 ^ rotate_rows_1_spec(s[4].0)))), rotate_rows_2_spec(((s[7].0 ^ rotate_rows_1_spec(s[7].0)) ^ (s[5].0 ^ (s[4].0 ^ rotate_rows_1_spec(s[4].0))))));
    let m = mix_columns_0_spec(s);
    let im = inv_mix_columns_0_spec(s);
    assert forall|i: int| 0 <= i < 8 implies #[trigger] uniform_lane(m[i].0) && uniform_lane(im[i].0) by {
        assert(i == 0 || i == 1 || i == 2 || i == 3 || i == 4 || i == 5 || i == 6 || i == 7);
    }
}

} // verus!

//! Conversion between eight 16-byte blocks and the eight bit-planes of the
//! bitsliced state, and back. Each block is loaded into one lane, its 4x4
//! byte matrix is transposed so that the AES state sits row by row in the
//! lane, and an 8x8 bit transpose at every byte position swaps "block" and
//! "bit" across the eight lanes: afterwards plane `p` holds bit `p` of every
//! byte, and bit `k` of a cell of a plane belongs to block `k`.

use vstd::prelude::*;
use crate::lane::{Lane, byte_of, bytes_le, le16, mask, splat, lemma_bytes_le_le16, lemma_le16_bytes_le};
use crate::sbox::cell_of;
use crate::layout::{pos, cell_byte, lemma_bitslice_cells, lemma_inv_bitslice_cells};

verus! {

/// A block of sixteen bytes.
pub type Block = [u8; 16];

/// Eight blocks, the batch that one bitsliced state carries.
pub type BatchBlocks = [Block; 8];

/// A block read as a lane: byte `i` of the block is cell `i`.
pub open spec fn block_lane(b: Seq<u8>) -> u128 {
    le16(b[0], b[1], b[2], b[3], b[4], b[5], b[6], b[7], b[8], b[9], b[10], b[11], b[12], b[13], b[14], b[15])
}

/// 4x4 byte transpose within one lane: cell `c + 4r` of the result is cell
/// `4c + r` of `x`.
#[verifier::opaque]
pub open spec fn transpose_4x4_bytes_spec(x: u128) -> u128 {
    le16(byte_of(x, 0), byte_of(x, 32), byte_of(x, 64), byte_of(x, 96), byte_of(x, 8), byte_of(x, 40), byte_of(x, 72), byte_of(x, 104), byte_of(x, 16), byte_of(x, 48), byte_of(x, 80), byte_of(x, 112), byte_of(x, 24), byte_of(x, 56), byte_of(x, 88), byte_of(x, 120))
}

/// Logical right shift of every byte of `x` by `s` bits.
pub open spec fn bytes_shr_spec(x: u128, s: u32) -> u128 {
    (x >> s) & splat((0xffu8 >> s) as u8)
}

/// Left shift of every byte of `x` by `s` bits, dropping what leaves the byte.
pub open spec fn bytes_shl_spec(x: u128, s: u32) -> u128 {
    (x << s) & splat((0xffu8 << s) as u8)
}

/// The value that `bit_swap_pair` leaves in `a`.
pub open spec fn pair_a(a: u128, b: u128, s: u32, m: u128) -> u128 {
    a ^ ((a ^ bytes_shr_spec(b, s)) & m)
}

/// The value that `bit_swap_pair` leaves in `b`.
pub open spec fn pair_b(a: u128, b: u128, s: u32, m: u128) -> u128 {
    b ^ bytes_shl_spec((a ^ bytes_shr_spec(b, s)) & m, s)
}

/// The 8x8 bit transpose at every byte position across eight lanes, as the
/// three stages of swaps compute it.
#[verifier::opaque]
pub open spec fn transpose_8x8_spec(s: Seq<Lane>) -> Seq<Lane> {
    let x1_1 = pair_a(s[1].0, s[0].0, 1, splat(0x55u8));
    let x0_1 = pair_b(s[1].0, s[0].0, 1, splat(0x55u8));
    let x3_1 = pair_a(s[3].0, s[2].0, 1, splat(0x55u8));
    let x2_1 = pair_b(s[3].0, s[2].0, 1, splat(0x55u8));
    let x5_1 = pair_a(s[5].0, s[4].0, 1, splat(0x55u8));
    let x4_1 = pair_b(s[5].0, s[4].0, 1, splat(0x55u8));
    let x7_1 = pair_a(s[7].0, s[6].0, 1, splat(0x55u8));
    let x6_1 = pair_b(s[7].0, s[6].0, 1, splat(0x55u8));
    let x2_2 = pair_a(x2_1, x0_1, 2, splat(0x33u8));
    let x0_2 = pair_b(x2_1, x0_1, 2, splat(0x33u8));
    let x3_2 = pair_a(x3_1, x1_1, 2, splat(0x33u8));
    let x1_2 = pair_b(x3_1, x1_1, 2, splat(0x33u8));
    let x6_2 = pair_a(x6_1, x4_1, 2, splat(0x33u8));
    let x4_2 = pair_b(x6_1, x4_1, 2, splat(0x33u8));
    let x7_2 = pair_a(x7_1, x5_1, 2, splat(0x33u8));
    let x5_2 = pair_b(x7_1, x5_1, 2, splat(0x33u8));
    let x4_3 = pair_a(x4_2, x0_2, 4, splat(0x0fu8));
    let x0_3 = pair_b(x4_2, x0_2, 4, splat(0x0fu8));
    let x5_3 = pair_a(x5_2, x1_2, 4, splat(0x0fu8));
    let x1_3 = pair_b(x5_2, x1_2, 4, splat(0x0fu8));
    let x6_3 = pair_a(x6_2, x2_2, 4, splat(0x0fu8));
    let x2_3 = pair_b(x6_2, x2_2, 4, splat(0x0fu8));
    let x7_3 = pair_a(x7_2, x3_2, 4, splat(0x0fu8));
    let x3_3 = pair_b(x7_2, x3_2, 4, splat(0x0fu8));
    seq![Lane(x0_3), Lane(x1_3), Lane(x2_3), Lane(x3_3), Lane(x4_3), Lane(x5_3), Lane(x6_3), Lane(x7_3)]
}

/// Bit `q` of every byte of `x`, moved to bit 0 of that byte.
pub open spec fn cell_bits(x: u128, q: u128) -> u128 {
    (x >> q) & splat(1u8)
}

/// `out` is the bit transpose of `inp` at every byte position: bit `q` of a
/// byte of plane `p` of `out` is bit `p` of the same byte of plane `q` of
/// `inp`.
pub open spec fn bits_transposed(out: Seq<Lane>, inp: Seq<Lane>) -> bool {
    forall|p: int, q: int|
        0 <= p < 8 && 0 <= q < 8 ==> #[trigger] cell_bits(out[p].0, q as u128) == cell_bits(inp[q].0, p as u128)
}

/// The three stages of swaps transpose the bits at every byte position.
pub proof fn lemma_transpose_8x8_transposes(s: Seq<Lane>)
    requires
        s.len() == 8,
    ensures
        bits_transposed(transpose_8x8_spec(s), s),
{
    reveal(transpose_8x8_spec);
    let a0: u128 = s[0].0;
    let a1: u128 = s[1].0;
    let a2: u128 = s[2].0;
    let a3: u128 = s[3].0;
    let a4: u128 = s[4].0;
    let a5: u128 = s[5].0;
    let a6: u128 = s[6].0;
    let a7: u128 = s[7].0;
    let f_x1_1: u128 = pair_a(a1, a0, 1, splat(0x55u8));
    let f_x0_1: u128 = pair_b(a1, a0, 1, splat(0x55u8));
    let f_x3_1: u128 = pair_a(a3, a2, 1, splat(0x55u8));
    let f_x2_1: u128 = pair_b(a3, a2, 1, splat(0x55u8));
    let f_x5_1: u128 = pair_a(a5, a4, 1, splat(0x55u8));
    let f_x4_1: u128 = pair_b(a5, a4, 1, splat(0x55u8));
    let f_x7_1: u128 = pair_a(a7, a6, 1, splat(0x55u8));
    let f_x6_1: u128 = pair_b(a7, a6, 1, splat(0x55u8));
    let f_x2_2: u128 = pair_a(f_x2_1, f_x0_1, 2, splat(0x33u8));
    let f_x0_2: u128 = pair_b(f_x2_1, f_x0_1, 2, splat(0x33u8));
    let f_x3_2: u128 = pair_a(f_x3_1, f_x1_1, 2, splat(0x33u8));
    let f_x1_2: u128 = pair_b(f_x3_1, f_x1_1, 2, splat(0x33u8));
    let f_x6_2: u128 = pair_a(f_x6_1, f_x4_1, 2, splat(0x33u8));
    let f_x4_2: u128 = pair_b(f_x6_1, f_x4_1, 2, splat(0x33u8));
    let f_x7_2: u128 = pair_a(f_x7_1, f_x5_1, 2, splat(0x33u8));
    let f_x5_2: u128 = pair_b(f_x7_1, f_x5_1, 2, splat(0x33u8));
    let f_x4_3: u128 = pair_a(f_x4_2, f_x0_2, 4, splat(0x0fu8));
    let f_x0_3: u128 = pair_b(f_x4_2, f_x0_2, 4, splat(0x0fu8));
    let f_x5_3: u128 = pair_a(f_x5_2, f_x1_2, 4, splat(0x0fu8));
    let f_x1_3: u128 = pair_b(f_x5_2, f_x1_2, 4, splat(0x0fu8));
    let f_x6_3: u128 = pair_a(f_x6_2, f_x2_2, 4, splat(0x0fu8));
    let f_x2_3: u128 = pair_b(f_x6_2, f_x2_2, 4, splat(0x0fu8));
    let f_x7_3: u128 = pair_a(f_x7_2, f_x3_2, 4, splat(0x0fu8));
    let f_x3_3: u128 = pair_b(f_x7_2, f_x3_2, 4, splat(0x0fu8));
    assert(cell_bits(f_x0_3, 0) == cell_bits(a0, 0) && cell_bits(f_x0_3, 1) == cell_bits(a1, 0) && cell_bits(f_x0_3, 2) == cell_bits(a2, 0) && cell_bits(f_x0_3, 3) == cell_bits(a3, 0) && cell_bits(f_x0_3, 4) == cell_bits(a4, 0) && cell_bits(f_x0_3, 5) == cell_bits(a5, 0) && cell_bits(f_x0_3, 6) == cell_bits(a6, 0) && cell_bits(f_x0_3, 7) == cell_bits(a7, 0) && cell_bits(f_x1_3, 0) == cell_bits(a0, 1) && cell_bits(f_x1_3, 1) == cell_bits(a1, 1) && cell_bits(f_x1_3, 2) == cell_bits(a2, 1) && cell_bits(f_x1_3, 3) == cell_bits(a3, 1) && cell_bits(f_x1_3, 4) == cell_bits(a4, 1) && cell_bits(f_x1_3, 5) == cell_bits(a5, 1) && cell_bits(f_x1_3, 6) == cell_bits(a6, 1) && cell_bits(f_x1_3, 7) == cell_bits(a7, 1) && cell_bits(f_x2_3, 0) == cell_bits(a0, 2) && cell_bits(f_x2_3, 1) == cell_bits(a1, 2) && cell_bits(f_x2_3, 2) == cell_bits(a2, 2) && cell_bits(f_x2_3, 3) == cell_bits(a3, 2) && cell_bits(f_x2_3, 4) == cell_bits(a4, 2) && cell_bits(f_x2_3, 5) == cell_bits(a5, 2) && cell_bits(f_x2_3, 6) == cell_bits(a6, 2) && cell_bits(f_x2_3, 7) == cell_bits(a7, 2) && cell_bits(f_x3_3, 0) == cell_bits(a0, 3) && cell_bits(f_x3_3, 1) == cell_bits(a1, 3) && cell_bits(f_x3_3, 2) == cell_bits(a2, 3) && cell_bits(f_x3_3, 3) == cell_bits(a3, 3) && cell_bits(f_x3_3, 4) == cell_bits(a4, 3) && cell_bits(f_x3_3, 5) == cell_bits(a5, 3) && cell_bits(f_x3_3, 6) == cell_bits(a6, 3) && cell_bits(f_x3_3, 7) == cell_bits(a7, 3) && cell_bits(f_x4_3, 0) == cell_bits(a0, 4) && cell_bits(f_x4_3, 1) == cell_bits(a1, 4) && cell_bits(f_x4_3, 2) == cell_bits(a2, 4) && cell_bits(f_x4_3, 3) == cell_bits(a3, 4) && cell_bits(f_x4_3, 4) == cell_bits(a4, 4) && cell_bits(f_x4_3, 5) == cell_bits(a5, 4) && cell_bits(f_x4_3, 6) == cell_bits(a6, 4) && cell_bits(f_x4_3, 7) == cell_bits(a7, 4) && cell_bits(f_x5_3, 0) == cell_bits(a0, 5) && cell_bits(f_x5_3, 1) == cell_bits(a1, 5) && cell_bits(f_x5_3, 2) == cell_bits(a2, 5) && cell_bits(f_x5_3, 3) == cell_bits(a3, 5) && cell_bits(f_x5_3, 4) == cell_bits(a4, 5) && cell_bits(f_x5_3, 5) == cell_bits(a5, 5) && cell_bits(f_x5_3, 6) == cell_bits(a6, 5) && cell_bits(f_x5_3, 7) == cell_bits(a7, 5) && cell_bits(f_x6_3, 0) == cell_bits(a0, 6) && cell_bits(f_x6_3, 1) == cell_bits(a1, 6) && cell_bits(f_x6_3, 2) == cell_bits(a2, 6) && cell_bits(f_x6_3, 3) == cell_bits(a3, 6) && cell_bits(f_x6_3, 4) == cell_bits(a4, 6) && cell_bits(f_x6_3, 5) == cell_bits(a5, 6) && cell_bits(f_x6_3, 6) == cell_bits(a6, 6) && cell_bits(f_x6_3, 7) == cell_bits(a7, 6) && cell_bits(f_x7_3, 0) == cell_bits(a0, 7) && cell_bits(f_x7_3, 1) == cell_bits(a1, 7) && cell_bits(f_x7_3, 2) == cell_bits(a2, 7) && cell_bits(f_x7_3, 3) == cell_bits(a3, 7) && cell_bits(f_x7_3, 4) == cell_bits(a4, 7) && cell_bits(f_x7_3, 5) == cell_bits(a5, 7) && cell_bits(f_x7_3, 6) == cell_bits(a6, 7) && cell_bits(f_x7_3, 7) == cell_bits(a7, 7)) by (bit_vector)
        requires
            f_x1_1 == pair_a(a1, a0, 1, splat(0x55u8)),
            f_x0_1 == pair_b(a1, a0, 1, splat(0x55u8)),
            f_x3_1 == pair_a(a3, a2, 1, splat(0x55u8)),
            f_x2_1 == pair_b(a3, a2, 1, splat(0x55u8)),
            f_x5_1 == pair_a(a5, a4, 1, splat(0x55u8)),
            f_x4_1 == pair_b(a5, a4, 1, splat(0x55u8)),
            f_x7_1 == pair_a(a7, a6, 1, splat(0x55u8)),
            f_x6_1 == pair_b(a7, a6, 1, splat(0x55u8)),
            f_x2_2 == pair_a(f_x2_1, f_x0_1, 2, splat(0x33u8)),
            f_x0_2 == pair_b(f_x2_1, f_x0_1, 2, splat(0x33u8)),
            f_x3_2 == pair_a(f_x3_1, f_x1_1, 2, splat(0x33u8)),
            f_x1_2 == pair_b(f_x3_1, f_x1_1, 2, splat(0x33u8)),
            f_x6_2 == pair_a(f_x6_1, f_x4_1, 2, splat(0x33u8)),
            f_x4_2 == pair_b(f_x6_1, f_x4_1, 2, splat(0x33u8)),
            f_x7_2 == pair_a(f_x7_1, f_x5_1, 2, splat(0x33u8)),
            f_x5_2 == pair_b(f_x7_1, f_x5_1, 2, splat(0x33u8)),
            f_x4_3 == pair_a(f_x4_2, f_x0_2, 4, splat(0x0fu8)),
            f_x0_3 == pair_b(f_x4_2, f_x0_2, 4, splat(0x0fu8)),
            f_x5_3 == pair_a(f_x5_2, f_x1_2, 4, splat(0x0fu8)),
            f_x1_3 == pair_b(f_x5_2, f_x1_2, 4, splat(0x0fu8)),
            f_x6_3 == pair_a(f_x6_2, f_x2_2, 4, splat(0x0fu8)),
            f_x2_3 == pair_b(f_x6_2, f_x2_2, 4, splat(0x0fu8)),
            f_x7_3 == pair_a(f_x7_2, f_x3_2, 4, splat(0x0fu8)),
            f_x3_3 == pair_b(f_x7_2, f_x3_2, 4, splat(0x0fu8)),
    ;
    let t = transpose_8x8_spec(s);
    assert(t[0].0 == f_x0_3);
    assert(t[1].0 == f_x1_3);
    assert(t[2].0 == f_x2_3);
    assert(t[3].0 == f_x3_3);
    assert(t[4].0 == f_x4_3);
    assert(t[5].0 == f_x5_3);
    assert(t[6].0 == f_x6_3);
    assert(t[7].0 == f_x7_3);
    assert forall|p: int, q: int| 0 <= p < 8 && 0 <= q < 8 implies #[trigger] cell_bits(t[p].0, q as u128) == cell_bits(s[q].0, p as u128) by {
        assert(p == 0 || p == 1 || p == 2 || p == 3 || p == 4 || p == 5 || p == 6 || p == 7);
        assert(q == 0 || q == 1 || q == 2 || q == 3 || q == 4 || q == 5 || q == 6 || q == 7);
    }
}

/// The 8x8 bit transpose undoes itself.
pub proof fn lemma_transpose_8x8_involution(s: Seq<Lane>)
    requires
        s.len() == 8,
    ensures
        transpose_8x8_spec(transpose_8x8_spec(s)) == s,
{
    reveal(transpose_8x8_spec);
    let a0: u128 = s[0].0;
    let a1: u128 = s[1].0;
    let a2: u128 = s[2].0;
    let a3: u128 = s[3].0;
    let a4: u128 = s[4].0;
    let a5: u128 = s[5].0;
    let a6: u128 = s[6].0;
    let a7: u128 = s[7].0;
    let f_x1_1: u128 = pair_a(a1, a0, 1, splat(0x55u8));
    let f_x0_1: u128 = pair_b(a1, a0, 1, splat(0x55u8));
    let f_x3_1: u128 = pair_a(a3, a2, 1, splat(0x55u8));
    let f_x2_1: u128 = pair_b(a3, a2, 1, splat(0x55u8));
    let f_x5_1: u128 = pair_a(a5, a4, 1, splat(0x55u8));
    let f_x4_1: u128 = pair_b(a5, a4, 1, splat(0x55u8));
    let f_x7_1: u128 = pair_a(a7, a6, 1, splat(0x55u8));
    let f_x6_1: u128 = pair_b(a7, a6, 1, splat(0x55u8));
    let f_x2_2: u128 = pair_a(f_x2_1, f_x0_1, 2, splat(0x33u8));
    let f_x0_2: u128 = pair_b(f_x2_1, f_x0_1, 2, splat(0x33u8));
    let f_x3_2: u128 = pair_a(f_x3_1, f_x1_1, 2, splat(0x33u8));
    let f_x1_2: u128 = pair_b(f_x3_1, f_x1_1, 2, splat(0x33u8));
    let f_x6_2: u128 = pair_a(f_x6_1, f_x4_1, 2, splat(0x33u8));
    let f_x4_2: u128 = pair_b(f_x6_1, f_x4_1, 2, splat(0x33u8));
    let f_x7_2: u128 = pair_a(f_x7_1, f_x5_1, 2, splat(0x33u8));
    let f_x5_2: u128 = pair_b(f_x7_1, f_x5_1, 2, splat(0x33u8));
    let f_x4_3: u128 = pair_a(f_x4_2, f_x0_2, 4, splat(0x0fu8));
    let f_x0_3: u128 = pair_b(f_x4_2, f_x0_2, 4, splat(0x0fu8));
    let f_x5_3: u128 = pair_a(f_x5_2, f_x1_2, 4, splat(0x0fu8));
    let f_x1_3: u128 = pair_b(f_x5_2, f_x1_2, 4, splat(0x0fu8));
    let f_x6_3: u128 = pair_a(f_x6_2, f_x2_2, 4, splat(0x0fu8));
    let f_x2_3: u128 = pair_b(f_x6_2, f_x2_2, 4, splat(0x0fu8));
    let f_x7_3: u128 = pair_a(f_x7_2, f_x3_2, 4, splat(0x0fu8));
    let f_x3_3: u128 = pair_b(f_x7_2, f_x3_2, 4, splat(0x0fu8));
    let g_x1_1: u128 = pair_a(f_x1_3, f_x0_3, 1, splat(0x55u8));
    let g_x0_1: u128 = pair_b(f_x1_3, f_x0_3, 1, splat(0x55u8));
    let g_x3_1: u128 = pair_a(f_x3_3, f_x2_3, 1, splat(0x55u8));
    let g_x2_1: u128 = pair_b(f_x3_3, f_x2_3, 1, splat(0x55u8));
    let g_x5_1: u128 = pair_a(f_x5_3, f_x4_3, 1, splat(0x55u8));
    let g_x4_1: u128 = pair_b(f_x5_3, f_x4_3, 1, splat(0x55u8));
    let g_x7_1: u128 = pair_a(f_x7_3, f_x6_3, 1, splat(0x55u8));
    let g_x6_1: u128 = pair_b(f_x7_3, f_x6_3, 1, splat(0x55u8));
    let g_x2_2: u128 = pair_a(g_x2_1, g_x0_1, 2, splat(0x33u8));
    let g_x0_2: u128 = pair_b(g_x2_1, g_x0_1, 2, splat(0x33u8));
    let g_x3_2: u128 = pair_a(g_x3_1, g_x1_1, 2, splat(0x33u8));
    let g_x1_2: u128 = pair_b(g_x3_1, g_x1_1, 2, splat(0x33u8));
    let g_x6_2: u128 = pair_a(g_x6_1, g_x4_1, 2, splat(0x33u8));
    let g_x4_2: u128 = pair_b(g_x6_1, g_x4_1, 2, splat(0x33u8));
    let g_x7_2: u128 = pair_a(g_x7_1, g_x5_1, 2, splat(0x33u8));
    let g_x5_2: u128 = pair_b(g_x7_1, g_x5_1, 2, splat(0x33u8));
    let g_x4_3: u128 = pair_a(g_x4_2, g_x0_2, 4, splat(0x0fu8));
    let g_x0_3: u128 = pair_b(g_x4_2, g_x0_2, 4, splat(0x0fu8));
    let g_x5_3: u128 = pair_a(g_x5_2, g_x1_2, 4, splat(0x0fu8));
    let g_x1_3: u128 = pair_b(g_x5_2, g_x1_2, 4, splat(0x0fu8));
    let g_x6_3: u128 = pair_a(g_x6_2, g_x2_2, 4, splat(0x0fu8));
    let g_x2_3: u128 = pair_b(g_x6_2, g_x2_2, 4, splat(0x0fu8));
    let g_x7_3: u128 = pair_a(g_x7_2, g_x3_2, 4, splat(0x0fu8));
    let g_x3_3: u128 = pair_b(g_x7_2, g_x3_2, 4, splat(0x0fu8));
    assert(g_x0_3 == a0 && g_x1_3 == a1 && g_x2_3 == a2 && g_x3_3 == a3 && g_x4_3 == a4 && g_x5_3 == a5 && g_x6_3 == a6 && g_x7_3 == a7) by (bit_vector)
        requires
            f_x1_1 == pair_a(a1, a0, 1, splat(0x55u8)),
            f_x0_1 == pair_b(a1, a0, 1, splat(0x55u8)),
            f_x3_1 == pair_a(a3, a2, 1, splat(0x55u8)),
            f_x2_1 == pair_b(a3, a2, 1, splat(0x55u8)),
            f_x5_1 == pair_a(a5, a4, 1, splat(0x55u8)),
            f_x4_1 == pair_b(a5, a4, 1, splat(0x55u8)),
            f_x7_1 == pair_a(a7, a6, 1, splat(0x55u8)),
            f_x6_1 == pair_b(a7, a6, 1, splat(0x55u8)),
            f_x2_2 == pair_a(f_x2_1, f_x0_1, 2, splat(0x33u8)),
            f_x0_2 == pair_b(f_x2_1, f_x0_1, 2, splat(0x33u8)),
            f_x3_2 == pair_a(f_x3_1, f_x1_1, 2, splat(0x33u8)),
            f_x1_2 == pair_b(f_x3_1, f_x1_1, 2, splat(0x33u8)),
            f_x6_2 == pair_a(f_x6_1, f_x4_1, 2, splat(0x33u8)),
            f_x4_2 == pair_b(f_x6_1, f_x4_1, 2, splat(0x33u8)),
            f_x7_2 == pair_a(f_x7_1, f_x5_1, 2, splat(0x33u8)),
            f_x5_2 == pair_b(f_x7_1, f_x5_1, 2, splat(0x33u8)),
            f_x4_3 == pair_a(f_x4_2, f_x0_2, 4, splat(0x0fu8)),
            f_x0_3 == pair_b(f_x4_2, f_x0_2, 4, splat(0x0fu8)),
            f_x5_3 == pair_a(f_x5_2, f_x1_2, 4, splat(0x0fu8)),
            f_x1_3 == pair_b(f_x5_2, f_x1_2, 4, splat(0x0fu8)),
            f_x6_3 == pair_a(f_x6_2, f_x2_2, 4, splat(0x0fu8)),
            f_x2_3 == pair_b(f_x6_2, f_x2_2, 4, splat(0x0fu8)),
            f_x7_3 == pair_a(f_x7_2, f_x3_2, 4, splat(0x0fu8)),
            f_x3_3 == pair_b(f_x7_2, f_x3_2, 4, splat(0x0fu8)),
            g_x1_1 == pair_a(f_x1_3, f_x0_3, 1, splat(0x55u8)),
            g_x0_1 == pair_b(f_x1_3, f_x0_3, 1, splat(0x55u8)),
            g_x3_1 == pair_a(f_x3_3, f_x2_3, 1, splat(0x55u8)),
            g_x2_1 == pair_b(f_x3_3, f_x2_3, 1, splat(0x55u8)),
            g_x5_1 == pair_a(f_x5_3, f_x4_3, 1, splat(0x55u8)),
            g_x4_1 == pair_b(f_x5_3, f_x4_3, 1, splat(0x55u8)),
            g_x7_1 == pair_a(f_x7_3, f_x6_3, 1, splat(0x55u8)),
            g_x6_1 == pair_b(f_x7_3, f_x6_3, 1, splat(0x55u8)),
            g_x2_2 == pair_a(g_x2_1, g_x0_1, 2, splat(0x33u8)),
            g_x0_2 == pair_b(g_x2_1, g_x0_1, 2, splat(0x33u8)),
            g_x3_2 == pair_a(g_x3_1, g_x1_1, 2, splat(0x33u8)),
            g_x1_2 == pair_b(g_x3_1, g_x1_1, 2, splat(0x33u8)),
            g_x6_2 == pair_a(g_x6_1, g_x4_1, 2, splat(0x33u8)),
            g_x4_2 == pair_b(g_x6_1, g_x4_1, 2, splat(0x33u8)),
            g_x7_2 == pair_a(g_x7_1, g_x5_1, 2, splat(0x33u8)),
            g_x5_2 == pair_b(g_x7_1, g_x5_1, 2, splat(0x33u8)),
            g_x4_3 == pair_a(g_x4_2, g_x0_2, 4, splat(0x0fu8)),
            g_x0_3 == pair_b(g_x4_2, g_x0_2, 4, splat(0x0fu8)),
            g_x5_3 == pair_a(g_x5_2, g_x1_2, 4, splat(0x0fu8)),
            g_x1_3 == pair_b(g_x5_2, g_x1_2, 4, splat(0x0fu8)),
            g_x6_3 == pair_a(g_x6_2, g_x2_2, 4, splat(0x0fu8)),
            g_x2_3 == pair_b(g_x6_2, g_x2_2, 4, splat(0x0fu8)),
            g_x7_3 == pair_a(g_x7_2, g_x3_2, 4, splat(0x0fu8)),
            g_x3_3 == pair_b(g_x7_2, g_x3_2, 4, splat(0x0fu8)),
    ;
    let t = transpose_8x8_spec(s);
    assert(t[0].0 == f_x0_3);
    assert(t[1].0 == f_x1_3);
    assert(t[2].0 == f_x2_3);
    assert(t[3].0 == f_x3_3);
    assert(t[4].0 == f_x4_3);
    assert(t[5].0 == f_x5_3);
    assert(t[6].0 == f_x6_3);
    assert(t[7].0 == f_x7_3);
    assert(transpose_8x8_spec(t) =~= s);
}

/// The 4x4 byte transpose undoes itself.
pub proof fn lemma_transpose_4x4_involution(x: u128)
    ensures
        transpose_4x4_bytes_spec(transpose_4x4_bytes_spec(x)) == x,
{
    reveal(transpose_4x4_bytes_spec);
    assert(transpose_4x4_bytes_spec(transpose_4x4_bytes_spec(x)) == x) by (bit_vector);
}

/// 4x4 byte transpose within one lane (`out[c + 4r] = in[4c + r]`).
pub fn transpose_4x4_bytes(x: Lane) -> (r: Lane)
    ensures
        r.0 == transpose_4x4_bytes_spec(x.0),
{
    proof {
        reveal(transpose_4x4_bytes_spec);
    }
    let b = x.to_bytes();
    Lane::from_bytes([b[0], b[4], b[8], b[12], b[1], b[5], b[9], b[13], b[2], b[6], b[10], b[14], b[3], b[7], b[11], b[15]])
}

/// Logical right shift of every byte of the lane by `s` bits (`s` taken
/// modulo 8).
pub fn bytes_shr(x: Lane, s: u32) -> (r: Lane)
    ensures
        r.0 == bytes_shr_spec(x.0, s % 8),
{
    let s = s % 8;
    let m: u8 = 0xffu8 >> s;
    Lane((x.0 >> s) & mask([m, m, m, m, m, m, m, m, m, m, m, m, m, m, m, m]).0)
}

/// Left shift of every byte of the lane by `s` bits (`s` taken modulo 8).
pub fn bytes_shl(x: Lane, s: u32) -> (r: Lane)
    ensures
        r.0 == bytes_shl_spec(x.0, s % 8),
{
    let s = s % 8;
    let m: u8 = 0xffu8 << s;
    Lane((x.0 << s) & mask([m, m, m, m, m, m, m, m, m, m, m, m, m, m, m, m]).0)
}

/// Per-byte bit swap: at each byte position, the bits of `a` selected by
/// `msk` are exchanged with the bits `SHIFT` positions higher in `b`
/// (`SHIFT` taken modulo 8).
pub fn bit_swap_pair<const SHIFT: u32>(a: &mut Lane, b: &mut Lane, msk: Lane)
    ensures
        final(a).0 == pair_a(old(a).0, old(b).0, SHIFT % 8, msk.0),
        final(b).0 == pair_b(old(a).0, old(b).0, SHIFT % 8, msk.0),
{
    let t = (a.0 ^ bytes_shr(*b, SHIFT).0) & msk.0;
    *a = Lane(a.0 ^ t);
    *b = Lane(b.0 ^ bytes_shl(Lane(t), SHIFT).0);
}

/// 8x8 bit transpose across 8 lanes (independent at each of the 16 byte
/// positions).
pub fn transpose_8x8_bits(t: &mut [Lane; 8])
    ensures
        final(t)@ == transpose_8x8_spec(old(t)@),
        bits_transposed(final(t)@, old(t)@),
{
    proof {
        reveal(transpose_8x8_spec);
    }
    let ghost orig = t@;
    let (mut t0, mut t1, mut t2, mut t3, mut t4, mut t5, mut t6, mut t7) = (t[0], t[1], t[2], t[3], t[4], t[5], t[6], t[7]);
    let m1 = mask([0x55u8, 0x55u8, 0x55u8, 0x55u8, 0x55u8, 0x55u8, 0x55u8, 0x55u8, 0x55u8, 0x55u8, 0x55u8, 0x55u8, 0x55u8, 0x55u8, 0x55u8, 0x55u8]);
    bit_swap_pair::<1>(&mut t1, &mut t0, m1);
    bit_swap_pair::<1>(&mut t3, &mut t2, m1);
    bit_swap_pair::<1>(&mut t5, &mut t4, m1);
    bit_swap_pair::<1>(&mut t7, &mut t6, m1);
    let m2 = mask([0x33u8, 0x33u8, 0x33u8, 0x33u8, 0x33u8, 0x33u8, 0x33u8, 0x33u8, 0x33u8, 0x33u8, 0x33u8, 0x33u8, 0x33u8, 0x33u8, 0x33u8, 0x33u8]);
    bit_swap_pair::<2>(&mut t2, &mut t0, m2);
    bit_swap_pair::<2>(&mut t3, &mut t1, m2);
    bit_swap_pair::<2>(&mut t6, &mut t4, m2);
    bit_swap_pair::<2>(&mut t7, &mut t5, m2);
    let m4 = mask([0x0fu8, 0x0fu8, 0x0fu8, 0x0fu8, 0x0fu8, 0x0fu8, 0x0fu8, 0x0fu8, 0x0fu8, 0x0fu8, 0x0fu8, 0x0fu8, 0x0fu8, 0x0fu8, 0x0fu8, 0x0fu8]);
    bit_swap_pair::<4>(&mut t4, &mut t0, m4);
    bit_swap_pair::<4>(&mut t5, &mut t1, m4);
    bit_swap_pair::<4>(&mut t6, &mut t2, m4);
    bit_swap_pair::<4>(&mut t7, &mut t3, m4);
    t[0] = t0;
    t[1] = t1;
    t[2] = t2;
    t[3] = t3;
    t[4] = t4;
    t[5] = t5;
    t[6] = t6;
    t[7] = t7;
    proof {
        lemma_transpose_8x8_transposes(orig);
    }
    assert(t@ =~= transpose_8x8_spec(orig));
}

/// The state that `bitslice` builds from eight blocks.
#[verifier::opaque]
pub open spec fn bitslice_spec(b0: Seq<u8>, b1: Seq<u8>, b2: Seq<u8>, b3: Seq<u8>, b4: Seq<u8>, b5: Seq<u8>, b6: Seq<u8>, b7: Seq<u8>) -> Seq<Lane> {
    transpose_8x8_spec(seq![
        Lane(transpose_4x4_bytes_spec(block_lane(b0))),
        Lane(transpose_4x4_bytes_spec(block_lane(b1))),
        Lane(transpose_4x4_bytes_spec(block_lane(b2))),
        Lane(transpose_4x4_bytes_spec(block_lane(b3))),
        Lane(transpose_4x4_bytes_spec(block_lane(b4))),
        Lane(transpose_4x4_bytes_spec(block_lane(b5))),
        Lane(transpose_4x4_bytes_spec(block_lane(b6))),
        Lane(transpose_4x4_bytes_spec(block_lane(b7))),
    ])
}

/// The eight blocks that `inv_bitslice` reads out of a state.
#[verifier::opaque]
pub open spec fn inv_bitslice_spec(s: Seq<Lane>) -> Seq<Seq<u8>> {
    let t = transpose_8x8_spec(s);
    Seq::new(8, |k: int| bytes_le(transpose_4x4_bytes_spec(t[k].0)))
}

/// The bytes of each block of a batch.
pub open spec fn batch_view(b: BatchBlocks) -> Seq<Seq<u8>> {
    Seq::new(8, |k: int| b[k]@)
}

/// Loads one block into a lane.
fn load_block(input: &[u8]) -> (r: Lane)
    requires
        input@.len() == 16,
    ensures
        r.0 == block_lane(input@),
{
    Lane::from_bytes([
        input[0], input[1], input[2], input[3], input[4], input[5], input[6], input[7],
        input[8], input[9], input[10], input[11], input[12], input[13], input[14], input[15],
    ])
}

/// Bitslices eight 128-bit input blocks into a 1024-bit internal state.
/// Bit `b` of byte `r + 4c` (row `r`, column `c`) of block `k` lands in
/// plane `b` at bit position `k + 8c + 32r`: the cell of the eight planes
/// at `pos(4r + c, k)` holds that byte.
pub fn bitslice(
    output: &mut [Lane],
    in0: &[u8],
    in1: &[u8],
    in2: &[u8],
    in3: &[u8],
    in4: &[u8],
    in5: &[u8],
    in6: &[u8],
    in7: &[u8],
)
    requires
        old(output)@.len() == 8,
        in0@.len() == 16,
        in1@.len() == 16,
        in2@.len() == 16,
        in3@.len() == 16,
        in4@.len() == 16,
        in5@.len() == 16,
        in6@.len() == 16,
        in7@.len() == 16,
    ensures
        final(output)@ == bitslice_spec(in0@, in1@, in2@, in3@, in4@, in5@, in6@, in7@),
        forall|l: int, k: int|
            0 <= l < 16 && 0 <= k < 8 ==> #[trigger] cell_of(final(output)@, pos(l, k)) == seq![
                in0@,
                in1@,
                in2@,
                in3@,
                in4@,
                in5@,
                in6@,
                in7@,
            ][k][cell_byte(l)],
{
    proof {
        reveal(bitslice_spec);
    }
    let mut t = [
        transpose_4x4_bytes(load_block(in0)),
        transpose_4x4_bytes(load_block(in1)),
        transpose_4x4_bytes(load_block(in2)),
        transpose_4x4_bytes(load_block(in3)),
        transpose_4x4_bytes(load_block(in4)),
        transpose_4x4_bytes(load_block(in5)),
        transpose_4x4_bytes(load_block(in6)),
        transpose_4x4_bytes(load_block(in7)),
    ];
    let ghost t0 = t@;
    assert(t0 =~= seq![
        Lane(transpose_4x4_bytes_spec(block_lane(in0@))),
        Lane(transpose_4x4_bytes_spec(block_lane(in1@))),
        Lane(transpose_4x4_bytes_spec(block_lane(in2@))),
        Lane(transpose_4x4_bytes_spec(block_lane(in3@))),
        Lane(transpose_4x4_bytes_spec(block_lane(in4@))),
        Lane(transpose_4x4_bytes_spec(block_lane(in5@))),
        Lane(transpose_4x4_bytes_spec(block_lane(in6@))),
        Lane(transpose_4x4_bytes_spec(block_lane(in7@))),
    ]);
    transpose_8x8_bits(&mut t);
    output[0] = t[0];
    output[1] = t[1];
    output[2] = t[2];
    output[3] = t[3];
    output[4] = t[4];
    output[5] = t[5];
    output[6] = t[6];
    output[7] = t[7];
    assert(output@ =~= t@);
    proof {
        let b = seq![in0@, in1@, in2@, in3@, in4@, in5@, in6@, in7@];
        assert forall|l: int, k: int| 0 <= l < 16 && 0 <= k < 8 implies #[trigger] cell_of(output@, pos(l, k))
            == b[k][cell_byte(l)] by {
            lemma_bitslice_cells(b, l, k);
        }
    }
}

/// Un-bitslices a 1024-bit internal state into eight 128-bit blocks, with
/// the bit layout of `bitslice`.
pub fn inv_bitslice(input: &[Lane]) -> (r: BatchBlocks)
    requires
        input@.len() == 8,
    ensures
        batch_view(r) == inv_bitslice_spec(input@),
        forall|l: int, k: int|
            0 <= l < 16 && 0 <= k < 8 ==> #[trigger] r[k]@[cell_byte(l)] == cell_of(input@, pos(l, k)),
{
    proof {
        reveal(inv_bitslice_spec);
    }
    let mut t = [input[0], input[1], input[2], input[3], input[4], input[5], input[6], input[7]];
    assert(t@ =~= input@);
    transpose_8x8_bits(&mut t);
    let r = [
        transpose_4x4_bytes(t[0]).to_bytes(),
        transpose_4x4_bytes(t[1]).to_bytes(),
        transpose_4x4_bytes(t[2]).to_bytes(),
        transpose_4x4_bytes(t[3]).to_bytes(),
        transpose_4x4_bytes(t[4]).to_bytes(),
        transpose_4x4_bytes(t[5]).to_bytes(),
        transpose_4x4_bytes(t[6]).to_bytes(),
        transpose_4x4_bytes(t[7]).to_bytes(),
    ];
    assert(batch_view(r) =~= inv_bitslice_spec(input@));
    proof {
        assert forall|l: int, k: int| 0 <= l < 16 && 0 <= k < 8 implies #[trigger] r[k]@[cell_byte(l)] == cell_of(
            input@,
            pos(l, k),
        ) by {
            lemma_inv_bitslice_cells(input@, l, k);
            assert(batch_view(r)[k] == r[k]@);
        }
    }
    r
}

/// A block read as a lane and split again gives the block back.
proof fn lemma_block_lane_roundtrip(b: Seq<u8>)
    requires
        b.len() == 16,
    ensures
        bytes_le(block_lane(b)) == b,
{
    lemma_bytes_le_le16(b[0], b[1], b[2], b[3], b[4], b[5], b[6], b[7], b[8], b[9], b[10], b[11], b[12], b[13], b[14], b[15]);
    assert(b =~= seq![b[0], b[1], b[2], b[3], b[4], b[5], b[6], b[7], b[8], b[9], b[10], b[11], b[12], b[13], b[14], b[15]]);
}

/// Un-bitslicing a bitsliced batch gives the batch back.
pub proof fn lemma_inv_bitslice_bitslice(b0: Seq<u8>, b1: Seq<u8>, b2: Seq<u8>, b3: Seq<u8>, b4: Seq<u8>, b5: Seq<u8>, b6: Seq<u8>, b7: Seq<u8>)
    requires
        b0.len() == 16,
        b1.len() == 16,
        b2.len() == 16,
        b3.len() == 16,
        b4.len() == 16,
        b5.len() == 16,
        b6.len() == 16,
        b7.len() == 16,
    ensures
        inv_bitslice_spec(bitslice_spec(b0, b1, b2, b3, b4, b5, b6, b7)) == seq![b0, b1, b2, b3, b4, b5, b6, b7],
{
    reveal(bitslice_spec);
    reveal(inv_bitslice_spec);
    let blocks = seq![b0, b1, b2, b3, b4, b5, b6, b7];
    let t = seq![
        Lane(transpose_4x4_bytes_spec(block_lane(b0))),
        Lane(transpose_4x4_bytes_spec(block_lane(b1))),
        Lane(transpose_4x4_bytes_spec(block_lane(b2))),
        Lane(transpose_4x4_bytes_spec(block_lane(b3))),
        Lane(transpose_4x4_bytes_spec(block_lane(b4))),
        Lane(transpose_4x4_bytes_spec(block_lane(b5))),
        Lane(transpose_4x4_bytes_spec(block_lane(b6))),
        Lane(transpose_4x4_bytes_spec(block_lane(b7))),
    ];
    lemma_transpose_8x8_involution(t);
    let r = inv_bitslice_spec(bitslice_spec(b0, b1, b2, b3, b4, b5, b6, b7));
    assert forall|k: int| 0 <= k < 8 implies r[k] == blocks[k] by {
        lemma_transpose_4x4_involution(block_lane(blocks[k]));
        lemma_block_lane_roundtrip(blocks[k]);
    }
    assert(r =~= blocks);
}

/// Bitslicing the blocks read out of a state gives the state back.
pub proof fn lemma_bitslice_inv_bitslice(s: Seq<Lane>)
    requires
        s.len() == 8,
    ensures
        ({
            let b = inv_bitslice_spec(s);
            bitslice_spec(b[0], b[1], b[2], b[3], b[4], b[5], b[6], b[7]) == s
        }),
{
    reveal(bitslice_spec);
    reveal(inv_bitslice_spec);
    reveal(transpose_8x8_spec);
    let b = inv_bitslice_spec(s);
    let t = transpose_8x8_spec(s);
    let u = seq![
        Lane(transpose_4x4_bytes_spec(block_lane(b[0]))),
        Lane(transpose_4x4_bytes_spec(block_lane(b[1]))),
        Lane(transpose_4x4_bytes_spec(block_lane(b[2]))),
        Lane(transpose_4x4_bytes_spec(block_lane(b[3]))),
        Lane(transpose_4x4_bytes_spec(block_lane(b[4]))),
        Lane(transpose_4x4_bytes_spec(block_lane(b[5]))),
        Lane(transpose_4x4_bytes_spec(block_lane(b[6]))),
        Lane(transpose_4x4_bytes_spec(block_lane(b[7]))),
    ];
    assert forall|k: int| 0 <= k < 8 implies u[k] == t[k] by {
        let x = transpose_4x4_bytes_spec(t[k].0);
        lemma_le16_bytes_le(x);
        lemma_transpose_4x4_involution(t[k].0);
    }
    assert(u =~= t);
    lemma_transpose_8x8_involution(s);
}

/// The bitsliced state of eight copies of one block.
pub open spec fn bitslice_same(b: Seq<u8>) -> Seq<Lane> {
    bitslice_spec(b, b, b, b, b, b, b, b)
}

/// Every byte of `x` is 0x00 or 0xff: the eight bits of each cell, one per
/// block, agree.
pub open spec fn uniform_lane(x: u128) -> bool {
    (x ^ (x >> 1u128)) & splat(0x7fu8) == 0
}

/// A state of eight planes in which the eight blocks are the same.
pub open spec fn uniform_state(s: Seq<Lane>) -> bool {
    s.len() == 8 && forall|i: int| 0 <= i < 8 ==> #[trigger] uniform_lane(s[i].0)
}

/// A lane whose cells have all their bits equal is uniform, and the other
/// way round.
proof fn lemma_uniform_cell_bits(x: u128)
    ensures
        uniform_lane(x) <==> (cell_bits(x, 1) == cell_bits(x, 0) && cell_bits(x, 2) == cell_bits(x, 0) && cell_bits(x, 3) == cell_bits(x, 0) && cell_bits(x, 4) == cell_bits(x, 0) && cell_bits(x, 5) == cell_bits(x, 0) && cell_bits(x, 6) == cell_bits(x, 0) && cell_bits(x, 7) == cell_bits(x, 0)),
{
    assert(uniform_lane(x) <==> (cell_bits(x, 1) == cell_bits(x, 0) && cell_bits(x, 2) == cell_bits(x, 0) && cell_bits(x, 3) == cell_bits(x, 0) && cell_bits(x, 4) == cell_bits(x, 0) && cell_bits(x, 5) == cell_bits(x, 0) && cell_bits(x, 6) == cell_bits(x, 0) && cell_bits(x, 7) == cell_bits(x, 0))) by (bit_vector);
}

/// Two lanes with the same bits at every position of every byte are equal.
proof fn lemma_eq_by_cell_bits(x: u128, y: u128)
    requires
        cell_bits(x, 0) == cell_bits(y, 0),
        cell_bits(x, 1) == cell_bits(y, 1),
        cell_bits(x, 2) == cell_bits(y, 2),
        cell_bits(x, 3) == cell_bits(y, 3),
        cell_bits(x, 4) == cell_bits(y, 4),
        cell_bits(x, 5) == cell_bits(y, 5),
        cell_bits(x, 6) == cell_bits(y, 6),
        cell_bits(x, 7) == cell_bits(y, 7),

    ensures
        x == y,
{
    assert(x == y) by (bit_vector)
        requires
            cell_bits(x, 0) == cell_bits(y, 0),
            cell_bits(x, 1) == cell_bits(y, 1),
            cell_bits(x, 2) == cell_bits(y, 2),
            cell_bits(x, 3) == cell_bits(y, 3),
            cell_bits(x, 4) == cell_bits(y, 4),
            cell_bits(x, 5) == cell_bits(y, 5),
            cell_bits(x, 6) == cell_bits(y, 6),
            cell_bits(x, 7) == cell_bits(y, 7),

    ;
}

/// Bitslicing eight copies of one block gives a uniform state.
pub proof fn lemma_bitslice_same_uniform(b: Seq<u8>)
    ensures
        uniform_state(bitslice_same(b)),
{
    reveal(bitslice_spec);
    let l = Lane(transpose_4x4_bytes_spec(block_lane(b)));
    let u = seq![l, l, l, l, l, l, l, l];
    lemma_transpose_8x8_transposes(u);
    let t = transpose_8x8_spec(u);
    assert(t == bitslice_same(b));
    lemma_transpose_8x8_len(u);
    assert forall|p: int| 0 <= p < 8 implies #[trigger] uniform_lane(t[p].0) by {
        assert(cell_bits(t[p].0, 0int as u128) == cell_bits(u[0].0, p as u128));
        assert(cell_bits(t[p].0, 1int as u128) == cell_bits(u[1].0, p as u128));
        assert(cell_bits(t[p].0, 2int as u128) == cell_bits(u[2].0, p as u128));
        assert(cell_bits(t[p].0, 3int as u128) == cell_bits(u[3].0, p as u128));
        assert(cell_bits(t[p].0, 4int as u128) == cell_bits(u[4].0, p as u128));
        assert(cell_bits(t[p].0, 5int as u128) == cell_bits(u[5].0, p as u128));
        assert(cell_bits(t[p].0, 6int as u128) == cell_bits(u[6].0, p as u128));
        assert(cell_bits(t[p].0, 7int as u128) == cell_bits(u[7].0, p as u128));
        lemma_uniform_cell_bits(t[p].0);
    }
}

/// The bit transpose keeps eight planes.
proof fn lemma_transpose_8x8_len(s: Seq<Lane>)
    ensures
        transpose_8x8_spec(s).len() == 8,
{
    reveal(transpose_8x8_spec);
}

/// Reading the first block out of a uniform state and bitslicing eight
/// copies of it gives the state back.
pub proof fn lemma_bitslice_same_inv_bitslice(s: Seq<Lane>)
    requires
        uniform_state(s),
    ensures
        bitslice_same(inv_bitslice_spec(s)[0]) == s,
{
    reveal(inv_bitslice_spec);
    let t = transpose_8x8_spec(s);
    lemma_transpose_8x8_transposes(s);
    lemma_transpose_8x8_len(s);
    assert forall|k: int| 0 <= k < 8 implies #[trigger] t[k] == t[0] by {
        assert(k == 0 || k == 1 || k == 2 || k == 3 || k == 4 || k == 5 || k == 6 || k == 7);
        assert(cell_bits(t[k].0, 0int as u128) == cell_bits(s[0].0, k as u128));
        assert(cell_bits(t[0].0, 0int as u128) == cell_bits(s[0].0, 0int as u128));
        lemma_uniform_cell_bits(s[0].0);
        assert(cell_bits(t[k].0, 1int as u128) == cell_bits(s[1].0, k as u128));
        assert(cell_bits(t[0].0, 1int as u128) == cell_bits(s[1].0, 0int as u128));
        lemma_uniform_cell_bits(s[1].0);
        assert(cell_bits(t[k].0, 2int as u128) == cell_bits(s[2].0, k as u128));
        assert(cell_bits(t[0].0, 2int as u128) == cell_bits(s[2].0, 0int as u128));
        lemma_uniform_cell_bits(s[2].0);
        assert(cell_bits(t[k].0, 3int as u128) == cell_bits(s[3].0, k as u128));
        assert(cell_bits(t[0].0, 3int as u128) == cell_bits(s[3].0, 0int as u128));
        lemma_uniform_cell_bits(s[3].0);
        assert(cell_bits(t[k].0, 4int as u128) == cell_bits(s[4].0, k as u128));
        assert(cell_bits(t[0].0, 4int as u128) == cell_bits(s[4].0, 0int as u128));
        lemma_uniform_cell_bits(s[4].0);
        assert(cell_bits(t[k].0, 5int as u128) == cell_bits(s[5].0, k as u128));
        assert(cell_bits(t[0].0, 5int as u128) == cell_bits(s[5].0, 0int as u128));
        lemma_uniform_cell_bits(s[5].0);
        assert(cell_bits(t[k].0, 6int as u128) == cell_bits(s[6].0, k as u128));
        assert(cell_bits(t[0].0, 6int as u128) == cell_bits(s[6].0, 0int as u128));
        lemma_uniform_cell_bits(s[6].0);
        assert(cell_bits(t[k].0, 7int as u128) == cell_bits(s[7].0, k as u128));
        assert(cell_bits(t[0].0, 7int as u128) == cell_bits(s[7].0, 0int as u128));
        lemma_uniform_cell_bits(s[7].0);

        lemma_eq_by_cell_bits(t[k].0, t[0].0);
    }
    let b = inv_bitslice_spec(s);
    lemma_bitslice_inv_bitslice(s);
    assert forall|k: int| 0 <= k < 8 implies #[trigger] b[k] == b[0] by {}
    assert(bitslice_spec(b[0], b[1], b[2], b[3], b[4], b[5], b[6], b[7]) == s);
}

/// Reading the first block out of eight bitsliced copies of a block gives
/// the block back.
pub proof fn lemma_inv_bitslice_same(b: Seq<u8>)
    requires
        b.len() == 16,
    ensures
        inv_bitslice_spec(bitslice_same(b))[0] == b,
{
    lemma_inv_bitslice_bitslice(b, b, b, b, b, b, b, b);
}

} // verus!

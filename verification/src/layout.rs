//! The byte-level meaning of the bitsliced state. Bit `k` of cell `l` of
//! the eight planes, taken plane by plane, forms one byte: the byte of block
//! `k` at row `l / 4`, column `l % 4` of the AES state, that is byte
//! `l / 4 + 4 (l % 4)` of the block. This module proves where `bitslice`
//! puts each byte and what SubBytes, ShiftRows and MixColumns do to those
//! bytes, in the terms of the AES standard.

use vstd::prelude::*;
use crate::lane::{Lane, le16, bit_of, byte_of, bytes_le, rotr128, lemma_bit_of_ops, lemma_bytes_le_le16};
use crate::gf::{gather8, xtime, gf_mul};
use crate::standard::aes_mix_columns;
use crate::sbox::{cell_of, sub_bytes_nots_spec};
use crate::bitslice::{
    bitslice_spec, block_lane, cell_bits, inv_bitslice_spec, transpose_4x4_bytes_spec, transpose_8x8_spec,
    lemma_transpose_8x8_transposes, lemma_bitslice_inv_bitslice,
};
use crate::shift_rows::{shift_rows_state, shift_rows_1_spec, shift_rows_2_spec, shift_rows_3_spec};
use crate::mixing::{mix_columns_0_spec, rotate_rows_1_spec, rotate_rows_2_spec};

verus! {

/// Bit `p` of a byte, as 0 or 1.
pub open spec fn bit8(x: u8, p: u128) -> u8 {
    (((x as u128) >> p) & 1) as u8
}

/// The bit position of cell `l` of block `k` in a plane.
pub open spec fn pos(l: int, k: int) -> u128 {
    (8 * l + k) as u128
}

/// The byte of a block that sits in cell `l` of the state: row `l / 4`,
/// column `l % 4`.
pub open spec fn cell_byte(l: int) -> int {
    l / 4 + 4 * (l % 4)
}

/// A byte is made of its eight bits.
proof fn lemma_gather8_bits(x: u8)
    ensures
        gather8(bit8(x, 0), bit8(x, 1), bit8(x, 2), bit8(x, 3), bit8(x, 4), bit8(x, 5), bit8(x, 6), bit8(x, 7)) == x,
{
    assert(gather8(bit8(x, 0), bit8(x, 1), bit8(x, 2), bit8(x, 3), bit8(x, 4), bit8(x, 5), bit8(x, 6), bit8(x, 7))
        == x) by (bit_vector);
}

/// Bit `8 l + k` of a lane is bit `8 l` of its bits `k` moved down.
proof fn lemma_bit_cell_bits(x: u128, l: u128, k: u128)
    requires
        l < 16,
        k < 8,
    ensures
        bit_of(x, (8 * l + k) as u128) == bit_of(cell_bits(x, k), (8 * l) as u128),
{
    assert(bit_of(x, (8 * l + k) as u128) == bit_of(cell_bits(x, k), (8 * l) as u128)) by (bit_vector)
        requires
            l < 16,
            k < 8,
    ;
}

/// Bit `p` of byte `l` of an assembled lane is bit `p` of `x_l`.
proof fn lemma_le16_bits(x0: u8, x1: u8, x2: u8, x3: u8, x4: u8, x5: u8, x6: u8, x7: u8, x8: u8, x9: u8, x10: u8, x11: u8, x12: u8, x13: u8, x14: u8, x15: u8, p: u128)
    requires
        p < 8,
    ensures
        bit_of(le16(x0, x1, x2, x3, x4, x5, x6, x7, x8, x9, x10, x11, x12, x13, x14, x15), (0 + p) as u128) == bit8(x0, p),
        bit_of(le16(x0, x1, x2, x3, x4, x5, x6, x7, x8, x9, x10, x11, x12, x13, x14, x15), (8 + p) as u128) == bit8(x1, p),
        bit_of(le16(x0, x1, x2, x3, x4, x5, x6, x7, x8, x9, x10, x11, x12, x13, x14, x15), (16 + p) as u128) == bit8(x2, p),
        bit_of(le16(x0, x1, x2, x3, x4, x5, x6, x7, x8, x9, x10, x11, x12, x13, x14, x15), (24 + p) as u128) == bit8(x3, p),
        bit_of(le16(x0, x1, x2, x3, x4, x5, x6, x7, x8, x9, x10, x11, x12, x13, x14, x15), (32 + p) as u128) == bit8(x4, p),
        bit_of(le16(x0, x1, x2, x3, x4, x5, x6, x7, x8, x9, x10, x11, x12, x13, x14, x15), (40 + p) as u128) == bit8(x5, p),
        bit_of(le16(x0, x1, x2, x3, x4, x5, x6, x7, x8, x9, x10, x11, x12, x13, x14, x15), (48 + p) as u128) == bit8(x6, p),
        bit_of(le16(x0, x1, x2, x3, x4, x5, x6, x7, x8, x9, x10, x11, x12, x13, x14, x15), (56 + p) as u128) == bit8(x7, p),
        bit_of(le16(x0, x1, x2, x3, x4, x5, x6, x7, x8, x9, x10, x11, x12, x13, x14, x15), (64 + p) as u128) == bit8(x8, p),
        bit_of(le16(x0, x1, x2, x3, x4, x5, x6, x7, x8, x9, x10, x11, x12, x13, x14, x15), (72 + p) as u128) == bit8(x9, p),
        bit_of(le16(x0, x1, x2, x3, x4, x5, x6, x7, x8, x9, x10, x11, x12, x13, x14, x15), (80 + p) as u128) == bit8(x10, p),
        bit_of(le16(x0, x1, x2, x3, x4, x5, x6, x7, x8, x9, x10, x11, x12, x13, x14, x15), (88 + p) as u128) == bit8(x11, p),
        bit_of(le16(x0, x1, x2, x3, x4, x5, x6, x7, x8, x9, x10, x11, x12, x13, x14, x15), (96 + p) as u128) == bit8(x12, p),
        bit_of(le16(x0, x1, x2, x3, x4, x5, x6, x7, x8, x9, x10, x11, x12, x13, x14, x15), (104 + p) as u128) == bit8(x13, p),
        bit_of(le16(x0, x1, x2, x3, x4, x5, x6, x7, x8, x9, x10, x11, x12, x13, x14, x15), (112 + p) as u128) == bit8(x14, p),
        bit_of(le16(x0, x1, x2, x3, x4, x5, x6, x7, x8, x9, x10, x11, x12, x13, x14, x15), (120 + p) as u128) == bit8(x15, p),
{
    assert(bit_of(le16(x0, x1, x2, x3, x4, x5, x6, x7, x8, x9, x10, x11, x12, x13, x14, x15), (0 + p) as u128) == bit8(x0, p) && bit_of(le16(x0, x1, x2, x3, x4, x5, x6, x7, x8, x9, x10, x11, x12, x13, x14, x15), (8 + p) as u128) == bit8(x1, p) && bit_of(le16(x0, x1, x2, x3, x4, x5, x6, x7, x8, x9, x10, x11, x12, x13, x14, x15), (16 + p) as u128) == bit8(x2, p) && bit_of(le16(x0, x1, x2, x3, x4, x5, x6, x7, x8, x9, x10, x11, x12, x13, x14, x15), (24 + p) as u128) == bit8(x3, p) && bit_of(le16(x0, x1, x2, x3, x4, x5, x6, x7, x8, x9, x10, x11, x12, x13, x14, x15), (32 + p) as u128) == bit8(x4, p) && bit_of(le16(x0, x1, x2, x3, x4, x5, x6, x7, x8, x9, x10, x11, x12, x13, x14, x15), (40 + p) as u128) == bit8(x5, p) && bit_of(le16(x0, x1, x2, x3, x4, x5, x6, x7, x8, x9, x10, x11, x12, x13, x14, x15), (48 + p) as u128) == bit8(x6, p) && bit_of(le16(x0, x1, x2, x3, x4, x5, x6, x7, x8, x9, x10, x11, x12, x13, x14, x15), (56 + p) as u128) == bit8(x7, p) && bit_of(le16(x0, x1, x2, x3, x4, x5, x6, x7, x8, x9, x10, x11, x12, x13, x14, x15), (64 + p) as u128) == bit8(x8, p) && bit_of(le16(x0, x1, x2, x3, x4, x5, x6, x7, x8, x9, x10, x11, x12, x13, x14, x15), (72 + p) as u128) == bit8(x9, p) && bit_of(le16(x0, x1, x2, x3, x4, x5, x6, x7, x8, x9, x10, x11, x12, x13, x14, x15), (80 + p) as u128) == bit8(x10, p) && bit_of(le16(x0, x1, x2, x3, x4, x5, x6, x7, x8, x9, x10, x11, x12, x13, x14, x15), (88 + p) as u128) == bit8(x11, p) && bit_of(le16(x0, x1, x2, x3, x4, x5, x6, x7, x8, x9, x10, x11, x12, x13, x14, x15), (96 + p) as u128) == bit8(x12, p) && bit_of(le16(x0, x1, x2, x3, x4, x5, x6, x7, x8, x9, x10, x11, x12, x13, x14, x15), (104 + p) as u128) == bit8(x13, p) && bit_of(le16(x0, x1, x2, x3, x4, x5, x6, x7, x8, x9, x10, x11, x12, x13, x14, x15), (112 + p) as u128) == bit8(x14, p) && bit_of(le16(x0, x1, x2, x3, x4, x5, x6, x7, x8, x9, x10, x11, x12, x13, x14, x15), (120 + p) as u128) == bit8(x15, p)) by (bit_vector)
        requires
            p < 8,
    ;
}

/// Bit `p` of cell `l` of a block loaded into a lane and transposed is bit
/// `p` of byte `l / 4 + 4 (l % 4)` of the block.
#[verifier::rlimit(50)]
proof fn lemma_block_cell_bits(bk: Seq<u8>, l: int, p: u128)
    requires
        bk.len() == 16,
        0 <= l < 16,
        p < 8,
    ensures
        bit_of(transpose_4x4_bytes_spec(block_lane(bk)), pos(l, p as int)) == bit8(bk[cell_byte(l)], p),
{
    reveal(transpose_4x4_bytes_spec);
    lemma_bytes_le_le16(bk[0], bk[1], bk[2], bk[3], bk[4], bk[5], bk[6], bk[7], bk[8], bk[9], bk[10], bk[11], bk[12], bk[13], bk[14], bk[15]);
    assert(bytes_le(block_lane(bk)) == seq![bk[0], bk[1], bk[2], bk[3], bk[4], bk[5], bk[6], bk[7], bk[8], bk[9], bk[10], bk[11], bk[12], bk[13], bk[14], bk[15]]);
    assert(transpose_4x4_bytes_spec(block_lane(bk)) == le16(bk[0], bk[4], bk[8], bk[12], bk[1], bk[5], bk[9], bk[13], bk[2], bk[6], bk[10], bk[14], bk[3], bk[7], bk[11], bk[15]));
    lemma_le16_bits(bk[0], bk[4], bk[8], bk[12], bk[1], bk[5], bk[9], bk[13], bk[2], bk[6], bk[10], bk[14], bk[3], bk[7], bk[11], bk[15], p);
    assert(l == 0 || l == 1 || l == 2 || l == 3 || l == 4 || l == 5 || l == 6 || l == 7 || l == 8 || l == 9
        || l == 10 || l == 11 || l == 12 || l == 13 || l == 14 || l == 15);
}

/// `bitslice` puts byte `l / 4 + 4 (l % 4)` of block `k` (row `l / 4`,
/// column `l % 4` of its AES state) into cell `l` at bit `k`.
#[verifier::rlimit(50)]
pub proof fn lemma_bitslice_cells(b: Seq<Seq<u8>>, l: int, k: int)
    requires
        b.len() == 8,
        forall|i: int| 0 <= i < 8 ==> #[trigger] b[i].len() == 16,
        0 <= l < 16,
        0 <= k < 8,
    ensures
        cell_of(bitslice_spec(b[0], b[1], b[2], b[3], b[4], b[5], b[6], b[7]), pos(l, k)) == b[k][cell_byte(l)],
{
    reveal(bitslice_spec);
    let u = seq![
        Lane(transpose_4x4_bytes_spec(block_lane(b[0]))),
        Lane(transpose_4x4_bytes_spec(block_lane(b[1]))),
        Lane(transpose_4x4_bytes_spec(block_lane(b[2]))),
        Lane(transpose_4x4_bytes_spec(block_lane(b[3]))),
        Lane(transpose_4x4_bytes_spec(block_lane(b[4]))),
        Lane(transpose_4x4_bytes_spec(block_lane(b[5]))),
        Lane(transpose_4x4_bytes_spec(block_lane(b[6]))),
        Lane(transpose_4x4_bytes_spec(block_lane(b[7]))),
    ];
    let s = transpose_8x8_spec(u);
    assert(s == bitslice_spec(b[0], b[1], b[2], b[3], b[4], b[5], b[6], b[7]));
    lemma_transpose_8x8_transposes(u);
    let y = b[k][cell_byte(l)];
    assert forall|p: int| 0 <= p < 8 implies #[trigger] bit_of(s[p].0, pos(l, k)) == bit8(y, p as u128) by {
        lemma_bit_cell_bits(s[p].0, l as u128, k as u128);
        assert(cell_bits(s[p].0, k as u128) == cell_bits(u[k].0, p as u128));
        lemma_bit_cell_bits(u[k].0, l as u128, p as u128);
        lemma_block_cell_bits(b[k], l, p as u128);
    }
    assert(bit_of(s[0].0, pos(l, k)) == bit8(y, 0));
    assert(bit_of(s[1].0, pos(l, k)) == bit8(y, 1));
    assert(bit_of(s[2].0, pos(l, k)) == bit8(y, 2));
    assert(bit_of(s[3].0, pos(l, k)) == bit8(y, 3));
    assert(bit_of(s[4].0, pos(l, k)) == bit8(y, 4));
    assert(bit_of(s[5].0, pos(l, k)) == bit8(y, 5));
    assert(bit_of(s[6].0, pos(l, k)) == bit8(y, 6));
    assert(bit_of(s[7].0, pos(l, k)) == bit8(y, 7));
    lemma_gather8_bits(y);
}

/// The cell that ShiftRows applied `n` times moves into cell `l`: same
/// row `r = l / 4`, column `(l % 4 + n r) % 4`.
pub open spec fn shift_rows_source(n: int, l: int) -> int {
    let r = l / 4;
    let shift = if n == 1 {
        r
    } else if n == 2 {
        2 * r
    } else {
        3 * r
    };
    4 * r + (l % 4 + shift) % 4
}

/// Bit `k` of byte `m` of a lane is bit `8 m + k` of the lane.
proof fn lemma_byte_bit(x: u128, m: u128, k: u128)
    requires
        m < 16,
        k < 8,
    ensures
        bit8(byte_of(x, (8 * m) as u128), k) == bit_of(x, (8 * m + k) as u128),
{
    assert(bit8(byte_of(x, (8 * m) as u128), k) == bit_of(x, (8 * m + k) as u128)) by (bit_vector)
        requires
            m < 16,
            k < 8,
    ;
}

/// ShiftRows applied `n` times to one plane moves bit `k` of cell
/// `shift_rows_source(n, l)` to bit `k` of cell `l`.
#[verifier::rlimit(50)]
proof fn lemma_shift_rows_plane_bits(x: u128, n: int, l: int, k: int)
    requires
        1 <= n <= 3,
        0 <= l < 16,
        0 <= k < 8,
    ensures
        bit_of(
            (if n == 1 {
                shift_rows_1_spec(x)
            } else if n == 2 {
                shift_rows_2_spec(x)
            } else {
                shift_rows_3_spec(x)
            }),
            pos(l, k),
        ) == bit_of(x, pos(shift_rows_source(n, l), k)),
{
    let kk = k as u128;
    lemma_le16_bits(byte_of(x, 0), byte_of(x, 8), byte_of(x, 16), byte_of(x, 24), byte_of(x, 40), byte_of(x, 48), byte_of(x, 56), byte_of(x, 32), byte_of(x, 80), byte_of(x, 88), byte_of(x, 64), byte_of(x, 72), byte_of(x, 120), byte_of(x, 96), byte_of(x, 104), byte_of(x, 112), kk);
    lemma_le16_bits(byte_of(x, 0), byte_of(x, 8), byte_of(x, 16), byte_of(x, 24), byte_of(x, 48), byte_of(x, 56), byte_of(x, 32), byte_of(x, 40), byte_of(x, 64), byte_of(x, 72), byte_of(x, 80), byte_of(x, 88), byte_of(x, 112), byte_of(x, 120), byte_of(x, 96), byte_of(x, 104), kk);
    lemma_le16_bits(byte_of(x, 0), byte_of(x, 8), byte_of(x, 16), byte_of(x, 24), byte_of(x, 56), byte_of(x, 32), byte_of(x, 40), byte_of(x, 48), byte_of(x, 80), byte_of(x, 88), byte_of(x, 64), byte_of(x, 72), byte_of(x, 104), byte_of(x, 112), byte_of(x, 120), byte_of(x, 96), kk);
    assert(l == 0 || l == 1 || l == 2 || l == 3 || l == 4 || l == 5 || l == 6 || l == 7 || l == 8 || l == 9
        || l == 10 || l == 11 || l == 12 || l == 13 || l == 14 || l == 15);
    lemma_byte_bit(x, shift_rows_source(n, l) as u128, kk);
}

/// ShiftRows applied `n` times moves the byte in cell
/// `shift_rows_source(n, l)` of each block to cell `l`.
pub proof fn lemma_shift_rows_cells(s: Seq<Lane>, n: int, l: int, k: int)
    requires
        s.len() == 8,
        1 <= n <= 3,
        0 <= l < 16,
        0 <= k < 8,
    ensures
        cell_of(shift_rows_state(n, s), pos(l, k)) == cell_of(s, pos(shift_rows_source(n, l), k)),
{
    reveal(shift_rows_state);
    lemma_shift_rows_plane_bits(s[0].0, n, l, k);
    lemma_shift_rows_plane_bits(s[1].0, n, l, k);
    lemma_shift_rows_plane_bits(s[2].0, n, l, k);
    lemma_shift_rows_plane_bits(s[3].0, n, l, k);
    lemma_shift_rows_plane_bits(s[4].0, n, l, k);
    lemma_shift_rows_plane_bits(s[5].0, n, l, k);
    lemma_shift_rows_plane_bits(s[6].0, n, l, k);
    lemma_shift_rows_plane_bits(s[7].0, n, l, k);
}

/// The NOT gates on planes 0, 1, 5 and 6 XOR every cell with 0x63: a cell
/// that holds `y ^ 0x63` ends up holding `y`.
pub proof fn lemma_nots_cell(s: Seq<Lane>, q: u128, y: u8)
    requires
        s.len() == 8,
        q < 128,
        cell_of(s, q) == y ^ 0x63u8,
    ensures
        cell_of(sub_bytes_nots_spec(s), q) == y,
{
    let a0 = s[0].0;
    let a1 = s[1].0;
    let a2 = s[2].0;
    let a3 = s[3].0;
    let a4 = s[4].0;
    let a5 = s[5].0;
    let a6 = s[6].0;
    let a7 = s[7].0;
    let t = sub_bytes_nots_spec(s);
    assert(t[0].0 == a0 ^ u128::MAX && t[1].0 == a1 ^ u128::MAX && t[2].0 == a2 && t[3].0 == a3);
    assert(t[4].0 == a4 && t[5].0 == a5 ^ u128::MAX && t[6].0 == a6 ^ u128::MAX && t[7].0 == a7);
    assert(gather8(bit_of(a0 ^ u128::MAX, q), bit_of(a1 ^ u128::MAX, q), bit_of(a2, q), bit_of(a3, q), bit_of(a4, q),
        bit_of(a5 ^ u128::MAX, q), bit_of(a6 ^ u128::MAX, q), bit_of(a7, q)) == y) by (bit_vector)
        requires
            q < 128,
            gather8(bit_of(a0, q), bit_of(a1, q), bit_of(a2, q), bit_of(a3, q), bit_of(a4, q), bit_of(a5, q),
                bit_of(a6, q), bit_of(a7, q)) == y ^ 0x63u8,
    ;
}

/// A row rotation moves bits by 32 or 64 positions, wrapping around.
proof fn lemma_rot_bits(x: u128, q: u128)
    requires
        q < 128,
    ensures
        bit_of(rotate_rows_1_spec(x), q) == bit_of(x, ((q + 32) % 128) as u128),
        bit_of(rotate_rows_2_spec(x), q) == bit_of(x, ((q + 64) % 128) as u128),
{
    assert(bit_of(rotr128(x, 32), q) == bit_of(x, ((q + 32) % 128) as u128) && bit_of(rotr128(x, 64), q) == bit_of(
        x,
        ((q + 64) % 128) as u128,
    )) by (bit_vector)
        requires
            q < 128,
    ;
}

/// MixColumns on the bits of one bit position: with `A`, `P`, `Q`, `R`
/// the bits of rows `r`, `r + 1`, `r + 2`, `r + 3` of a column, the
/// circuit's output bits gather into `2 a_r + 3 a_{r+1} + a_{r+2} + a_{r+3}`.
proof fn lemma_mix_cell(A0: u8, A1: u8, A2: u8, A3: u8, A4: u8, A5: u8, A6: u8, A7: u8, P0: u8, P1: u8, P2: u8, P3: u8, P4: u8, P5: u8, P6: u8, P7: u8, Q0: u8, Q1: u8, Q2: u8, Q3: u8, Q4: u8, Q5: u8, Q6: u8, Q7: u8, R0: u8, R1: u8, R2: u8, R3: u8, R4: u8, R5: u8, R6: u8, R7: u8)
    requires
        A0 <= 1,
        A1 <= 1,
        A2 <= 1,
        A3 <= 1,
        A4 <= 1,
        A5 <= 1,
        A6 <= 1,
        A7 <= 1,
        P0 <= 1,
        P1 <= 1,
        P2 <= 1,
        P3 <= 1,
        P4 <= 1,
        P5 <= 1,
        P6 <= 1,
        P7 <= 1,
        Q0 <= 1,
        Q1 <= 1,
        Q2 <= 1,
        Q3 <= 1,
        Q4 <= 1,
        Q5 <= 1,
        Q6 <= 1,
        Q7 <= 1,
        R0 <= 1,
        R1 <= 1,
        R2 <= 1,
        R3 <= 1,
        R4 <= 1,
        R5 <= 1,
        R6 <= 1,
        R7 <= 1,
    ensures
        gather8(((P0 ^ (A7 ^ P7)) ^ (Q0 ^ R0)), (((P1 ^ (A0 ^ P0)) ^ (A7 ^ P7)) ^ (Q1 ^ R1)), ((P2 ^ (A1 ^ P1)) ^ (Q2 ^ R2)), (((P3 ^ (A2 ^ P2)) ^ (A7 ^ P7)) ^ (Q3 ^ R3)), (((P4 ^ (A3 ^ P3)) ^ (A7 ^ P7)) ^ (Q4 ^ R4)), ((P5 ^ (A4 ^ P4)) ^ (Q5 ^ R5)), ((P6 ^ (A5 ^ P5)) ^ (Q6 ^ R6)), ((P7 ^ (A6 ^ P6)) ^ (Q7 ^ R7))) == xtime(gather8(A0, A1, A2, A3, A4, A5, A6, A7) ^ gather8(P0, P1, P2, P3, P4, P5, P6, P7)) ^ gather8(P0, P1, P2, P3, P4, P5, P6, P7) ^ gather8(Q0, Q1, Q2, Q3, Q4, Q5, Q6, Q7) ^ gather8(R0, R1, R2, R3, R4, R5, R6, R7),
{
    assert(gather8(((P0 ^ (A7 ^ P7)) ^ (Q0 ^ R0)), (((P1 ^ (A0 ^ P0)) ^ (A7 ^ P7)) ^ (Q1 ^ R1)), ((P2 ^ (A1 ^ P1)) ^ (Q2 ^ R2)), (((P3 ^ (A2 ^ P2)) ^ (A7 ^ P7)) ^ (Q3 ^ R3)), (((P4 ^ (A3 ^ P3)) ^ (A7 ^ P7)) ^ (Q4 ^ R4)), ((P5 ^ (A4 ^ P4)) ^ (Q5 ^ R5)), ((P6 ^ (A5 ^ P5)) ^ (Q6 ^ R6)), ((P7 ^ (A6 ^ P6)) ^ (Q7 ^ R7))) == xtime(gather8(A0, A1, A2, A3, A4, A5, A6, A7) ^ gather8(P0, P1, P2, P3, P4, P5, P6, P7)) ^ gather8(P0, P1, P2, P3, P4, P5, P6, P7) ^ gather8(Q0, Q1, Q2, Q3, Q4, Q5, Q6, Q7) ^ gather8(R0, R1, R2, R3, R4, R5, R6, R7)) by (bit_vector)
        requires
            A0 <= 1,
            A1 <= 1,
            A2 <= 1,
            A3 <= 1,
            A4 <= 1,
            A5 <= 1,
            A6 <= 1,
            A7 <= 1,
            P0 <= 1,
            P1 <= 1,
            P2 <= 1,
            P3 <= 1,
            P4 <= 1,
            P5 <= 1,
            P6 <= 1,
            P7 <= 1,
            Q0 <= 1,
            Q1 <= 1,
            Q2 <= 1,
            Q3 <= 1,
            Q4 <= 1,
            Q5 <= 1,
            Q6 <= 1,
            Q7 <= 1,
            R0 <= 1,
            R1 <= 1,
            R2 <= 1,
            R3 <= 1,
            R4 <= 1,
            R5 <= 1,
            R6 <= 1,
            R7 <= 1,
    ;
}

/// `mix_columns_0` is the MixColumns of AES on every column of every block:
/// with `a_j` the cell `32 j` bits above bit position `q` (row `r + j` of
/// the same column, wrapping), the cell at `q` becomes
/// `2 a_0 + 3 a_1 + a_2 + a_3` in GF(2^8).
#[verifier::rlimit(50)]
pub proof fn lemma_mix_columns_0_cells(s: Seq<Lane>, q: u128)
    requires
        s.len() == 8,
        q < 128,
    ensures
        ({
            let a0 = cell_of(s, q);
            let a1 = cell_of(s, ((q + 32) % 128) as u128);
            let a2 = cell_of(s, ((q + 64) % 128) as u128);
            let a3 = cell_of(s, ((q + 96) % 128) as u128);
            cell_of(mix_columns_0_spec(s), q) == xtime(a0 ^ a1) ^ a1 ^ a2 ^ a3
        }),
{
    reveal(mix_columns_0_spec);
    let q1 = ((q + 32) % 128) as u128;
    let q2 = ((q + 64) % 128) as u128;
    let q3 = ((q + 96) % 128) as u128;
    assert(((q2 + 32) % 128) as u128 == q3);
    lemma_rot_bits(s[0].0, q);
    lemma_rot_bits(s[0].0, q2);
    lemma_rot_bits((s[0].0 ^ rotate_rows_1_spec(s[0].0)), q);
    lemma_rot_bits(s[1].0, q);
    lemma_rot_bits(s[1].0, q2);
    lemma_rot_bits((s[1].0 ^ rotate_rows_1_spec(s[1].0)), q);
    lemma_rot_bits(s[2].0, q);
    lemma_rot_bits(s[2].0, q2);
    lemma_rot_bits((s[2].0 ^ rotate_rows_1_spec(s[2].0)), q);
    lemma_rot_bits(s[3].0, q);
    lemma_rot_bits(s[3].0, q2);
    lemma_rot_bits((s[3].0 ^ rotate_rows_1_spec(s[3].0)), q);
    lemma_rot_bits(s[4].0, q);
    lemma_rot_bits(s[4].0, q2);
    lemma_rot_bits((s[4].0 ^ rotate_rows_1_spec(s[4].0)), q);
    lemma_rot_bits(s[5].0, q);
    lemma_rot_bits(s[5].0, q2);
    lemma_rot_bits((s[5].0 ^ rotate_rows_1_spec(s[5].0)), q);
    lemma_rot_bits(s[6].0, q);
    lemma_rot_bits(s[6].0, q2);
    lemma_rot_bits((s[6].0 ^ rotate_rows_1_spec(s[6].0)), q);
    lemma_rot_bits(s[7].0, q);
    lemma_rot_bits(s[7].0, q2);
    lemma_rot_bits((s[7].0 ^ rotate_rows_1_spec(s[7].0)), q);
    lemma_bit_of_ops(s[0].0, rotate_rows_1_spec(s[0].0), q);
    lemma_bit_of_ops(s[0].0, rotate_rows_1_spec(s[0].0), q2);
    lemma_bit_of_ops(s[1].0, rotate_rows_1_spec(s[1].0), q);
    lemma_bit_of_ops(s[1].0, rotate_rows_1_spec(s[1].0), q2);
    lemma_bit_of_ops(s[2].0, rotate_rows_1_spec(s[2].0), q);
    lemma_bit_of_ops(s[2].0, rotate_rows_1_spec(s[2].0), q2);
    lemma_bit_of_ops(s[3].0, rotate_rows_1_spec(s[3].0), q);
    lemma_bit_of_ops(s[3].0, rotate_rows_1_spec(s[3].0), q2);
    lemma_bit_of_ops(s[4].0, rotate_rows_1_spec(s[4].0), q);
    lemma_bit_of_ops(s[4].0, rotate_rows_1_spec(s[4].0), q2);
    lemma_bit_of_ops(s[5].0, rotate_rows_1_spec(s[5].0), q);
    lemma_bit_of_ops(s[5].0, rotate_rows_1_spec(s[5].0), q2);
    lemma_bit_of_ops(s[6].0, rotate_rows_1_spec(s[6].0), q);
    lemma_bit_of_ops(s[6].0, rotate_rows_1_spec(s[6].0), q2);
    lemma_bit_of_ops(s[7].0, rotate_rows_1_spec(s[7].0), q);
    lemma_bit_of_ops(s[7].0, rotate_rows_1_spec(s[7].0), q2);
    lemma_bit_of_ops(rotate_rows_1_spec(s[0].0), (s[7].0 ^ rotate_rows_1_spec(s[7].0)), q);
    lemma_bit_of_ops(rotate_rows_1_spec(s[0].0) ^ (s[7].0 ^ rotate_rows_1_spec(s[7].0)), rotate_rows_2_spec((s[0].0 ^ rotate_rows_1_spec(s[0].0))), q);
    lemma_bit_of_ops(rotate_rows_1_spec(s[1].0), (s[0].0 ^ rotate_rows_1_spec(s[0].0)), q);
    lemma_bit_of_ops(rotate_rows_1_spec(s[1].0) ^ (s[0].0 ^ rotate_rows_1_spec(s[0].0)), (s[7].0 ^ rotate_rows_1_spec(s[7].0)), q);
    lemma_bit_of_ops(rotate_rows_1_spec(s[1].0) ^ (s[0].0 ^ rotate_rows_1_spec(s[0].0)) ^ (s[7].0 ^ rotate_rows_1_spec(s[7].0)), rotate_rows_2_spec((s[1].0 ^ rotate_rows_1_spec(s[1].0))), q);
    lemma_bit_of_ops(rotate_rows_1_spec(s[2].0), (s[1].0 ^ rotate_rows_1_spec(s[1].0)), q);
    lemma_bit_of_ops(rotate_rows_1_spec(s[2].0) ^ (s[1].0 ^ rotate_rows_1_spec(s[1].0)), rotate_rows_2_spec((s[2].0 ^ rotate_rows_1_spec(s[2].0))), q);
    lemma_bit_of_ops(rotate_rows_1_spec(s[3].0), (s[2].0 ^ rotate_rows_1_spec(s[2].0)), q);
    lemma_bit_of_ops(rotate_rows_1_spec(s[3].0) ^ (s[2].0 ^ rotate_rows_1_spec(s[2].0)), (s[7].0 ^ rotate_rows_1_spec(s[7].0)), q);
    lemma_bit_of_ops(rotate_rows_1_spec(s[3].0) ^ (s[2].0 ^ rotate_rows_1_spec(s[2].0)) ^ (s[7].0 ^ rotate_rows_1_spec(s[7].0)), rotate_rows_2_spec((s[3].0 ^ rotate_rows_1_spec(s[3].0))), q);
    lemma_bit_of_ops(rotate_rows_1_spec(s[4].0), (s[3].0 ^ rotate_rows_1_spec(s[3].0)), q);
    lemma_bit_of_ops(rotate_rows_1_spec(s[4].0) ^ (s[3].0 ^ rotate_rows_1_spec(s[3].0)), (s[7].0 ^ rotate_rows_1_spec(s[7].0)), q);
    lemma_bit_of_ops(rotate_rows_1_spec(s[4].0) ^ (s[3].0 ^ rotate_rows_1_spec(s[3].0)) ^ (s[7].0 ^ rotate_rows_1_spec(s[7].0)), rotate_rows_2_spec((s[4].0 ^ rotate_rows_1_spec(s[4].0))), q);
    lemma_bit_of_ops(rotate_rows_1_spec(s[5].0), (s[4].0 ^ rotate_rows_1_spec(s[4].0)), q);
    lemma_bit_of_ops(rotate_rows_1_spec(s[5].0) ^ (s[4].0 ^ rotate_rows_1_spec(s[4].0)), rotate_rows_2_spec((s[5].0 ^ rotate_rows_1_spec(s[5].0))), q);
    lemma_bit_of_ops(rotate_rows_1_spec(s[6].0), (s[5].0 ^ rotate_rows_1_spec(s[5].0)), q);
    lemma_bit_of_ops(rotate_rows_1_spec(s[6].0) ^ (s[5].0 ^ rotate_rows_1_spec(s[5].0)), rotate_rows_2_spec((s[6].0 ^ rotate_rows_1_spec(s[6].0))), q);
    lemma_bit_of_ops(rotate_rows_1_spec(s[7].0), (s[6].0 ^ rotate_rows_1_spec(s[6].0)), q);
    lemma_bit_of_ops(rotate_rows_1_spec(s[7].0) ^ (s[6].0 ^ rotate_rows_1_spec(s[6].0)), rotate_rows_2_spec((s[7].0 ^ rotate_rows_1_spec(s[7].0))), q);
    lemma_bit_of_ops(s[0].0, s[0].0, q);
    lemma_bit_of_ops(s[0].0, s[0].0, q1);
    lemma_bit_of_ops(s[0].0, s[0].0, q2);
    lemma_bit_of_ops(s[0].0, s[0].0, q3);
    lemma_bit_of_ops(s[1].0, s[1].0, q);
    lemma_bit_of_ops(s[1].0, s[1].0, q1);
    lemma_bit_of_ops(s[1].0, s[1].0, q2);
    lemma_bit_of_ops(s[1].0, s[1].0, q3);
    lemma_bit_of_ops(s[2].0, s[2].0, q);
    lemma_bit_of_ops(s[2].0, s[2].0, q1);
    lemma_bit_of_ops(s[2].0, s[2].0, q2);
    lemma_bit_of_ops(s[2].0, s[2].0, q3);
    lemma_bit_of_ops(s[3].0, s[3].0, q);
    lemma_bit_of_ops(s[3].0, s[3].0, q1);
    lemma_bit_of_ops(s[3].0, s[3].0, q2);
    lemma_bit_of_ops(s[3].0, s[3].0, q3);
    lemma_bit_of_ops(s[4].0, s[4].0, q);
    lemma_bit_of_ops(s[4].0, s[4].0, q1);
    lemma_bit_of_ops(s[4].0, s[4].0, q2);
    lemma_bit_of_ops(s[4].0, s[4].0, q3);
    lemma_bit_of_ops(s[5].0, s[5].0, q);
    lemma_bit_of_ops(s[5].0, s[5].0, q1);
    lemma_bit_of_ops(s[5].0, s[5].0, q2);
    lemma_bit_of_ops(s[5].0, s[5].0, q3);
    lemma_bit_of_ops(s[6].0, s[6].0, q);
    lemma_bit_of_ops(s[6].0, s[6].0, q1);
    lemma_bit_of_ops(s[6].0, s[6].0, q2);
    lemma_bit_of_ops(s[6].0, s[6].0, q3);
    lemma_bit_of_ops(s[7].0, s[7].0, q);
    lemma_bit_of_ops(s[7].0, s[7].0, q1);
    lemma_bit_of_ops(s[7].0, s[7].0, q2);
    lemma_bit_of_ops(s[7].0, s[7].0, q3);
    lemma_mix_cell(
        bit_of(s[0].0, q), bit_of(s[1].0, q), bit_of(s[2].0, q), bit_of(s[3].0, q),
        bit_of(s[4].0, q), bit_of(s[5].0, q), bit_of(s[6].0, q), bit_of(s[7].0, q),
        bit_of(s[0].0, q1), bit_of(s[1].0, q1), bit_of(s[2].0, q1), bit_of(s[3].0, q1),
        bit_of(s[4].0, q1), bit_of(s[5].0, q1), bit_of(s[6].0, q1), bit_of(s[7].0, q1),
        bit_of(s[0].0, q2), bit_of(s[1].0, q2), bit_of(s[2].0, q2), bit_of(s[3].0, q2),
        bit_of(s[4].0, q2), bit_of(s[5].0, q2), bit_of(s[6].0, q2), bit_of(s[7].0, q2),
        bit_of(s[0].0, q3), bit_of(s[1].0, q3), bit_of(s[2].0, q3), bit_of(s[3].0, q3),
        bit_of(s[4].0, q3), bit_of(s[5].0, q3), bit_of(s[6].0, q3), bit_of(s[7].0, q3),
    );
}

/// The NOT gates XOR every cell with 0x63.
pub proof fn lemma_nots_cell_xor(s: Seq<Lane>, q: u128)
    requires
        s.len() == 8,
        q < 128,
    ensures
        cell_of(sub_bytes_nots_spec(s), q) ^ 0x63u8 == cell_of(s, q),
{
    let c = cell_of(s, q);
    assert((c ^ 0x63u8) ^ 0x63u8 == c) by (bit_vector);
    lemma_nots_cell(s, q, c ^ 0x63u8);
}

/// `2 a0 + 3 a1 + a2 + a3` in GF(2^8), written with one doubling.
proof fn lemma_mix_formula(a0: u8, a1: u8, a2: u8, a3: u8)
    ensures
        gf_mul(a0, 2) ^ gf_mul(a1, 3) ^ a2 ^ a3 == xtime(a0 ^ a1) ^ a1 ^ a2 ^ a3,
{
    assert(gf_mul(a0, 2) ^ gf_mul(a1, 3) ^ a2 ^ a3 == xtime(a0 ^ a1) ^ a1 ^ a2 ^ a3) by (bit_vector);
}

/// `lemma_mix_indices` for the bytes of column 0.
#[verifier::rlimit(60)]
proof fn lemma_mix_indices_0(j: int, k: int)
    requires
        0 <= j < 4,
        0 <= k < 8,
    ensures
        ({
            let r = j % 4;
            let c = j / 4;
            let l = 4 * r + c;
            let l1 = 4 * ((r + 1) % 4) + c;
            let l2 = 4 * ((r + 2) % 4) + c;
            let l3 = 4 * ((r + 3) % 4) + c;
            &&& 0 <= l < 16 && 0 <= l1 < 16 && 0 <= l2 < 16 && 0 <= l3 < 16
            &&& cell_byte(l) == j
            &&& ((pos(l, k) + 32) % 128) as u128 == pos(l1, k)
            &&& ((pos(l, k) + 64) % 128) as u128 == pos(l2, k)
            &&& ((pos(l, k) + 96) % 128) as u128 == pos(l3, k)
            &&& cell_byte(l1) == j - r + (r + 1) % 4
            &&& cell_byte(l2) == j - r + (r + 2) % 4
            &&& cell_byte(l3) == j - r + (r + 3) % 4
        }),
{
    if j == 0 {
    } else if j == 1 {
    } else if j == 2 {
    } else {
    }
}

/// `lemma_mix_indices` for the bytes of column 1.
#[verifier::rlimit(60)]
proof fn lemma_mix_indices_1(j: int, k: int)
    requires
        4 <= j < 8,
        0 <= k < 8,
    ensures
        ({
            let r = j % 4;
            let c = j / 4;
            let l = 4 * r + c;
            let l1 = 4 * ((r + 1) % 4) + c;
            let l2 = 4 * ((r + 2) % 4) + c;
            let l3 = 4 * ((r + 3) % 4) + c;
            &&& 0 <= l < 16 && 0 <= l1 < 16 && 0 <= l2 < 16 && 0 <= l3 < 16
            &&& cell_byte(l) == j
            &&& ((pos(l, k) + 32) % 128) as u128 == pos(l1, k)
            &&& ((pos(l, k) + 64) % 128) as u128 == pos(l2, k)
            &&& ((pos(l, k) + 96) % 128) as u128 == pos(l3, k)
            &&& cell_byte(l1) == j - r + (r + 1) % 4
            &&& cell_byte(l2) == j - r + (r + 2) % 4
            &&& cell_byte(l3) == j - r + (r + 3) % 4
        }),
{
    if j == 4 {
    } else if j == 5 {
    } else if j == 6 {
    } else {
    }
}

/// `lemma_mix_indices` for the bytes of column 2.
#[verifier::rlimit(60)]
proof fn lemma_mix_indices_2(j: int, k: int)
    requires
        8 <= j < 12,
        0 <= k < 8,
    ensures
        ({
            let r = j % 4;
            let c = j / 4;
            let l = 4 * r + c;
            let l1 = 4 * ((r + 1) % 4) + c;
            let l2 = 4 * ((r + 2) % 4) + c;
            let l3 = 4 * ((r + 3) % 4) + c;
            &&& 0 <= l < 16 && 0 <= l1 < 16 && 0 <= l2 < 16 && 0 <= l3 < 16
            &&& cell_byte(l) == j
            &&& ((pos(l, k) + 32) % 128) as u128 == pos(l1, k)
            &&& ((pos(l, k) + 64) % 128) as u128 == pos(l2, k)
            &&& ((pos(l, k) + 96) % 128) as u128 == pos(l3, k)
            &&& cell_byte(l1) == j - r + (r + 1) % 4
            &&& cell_byte(l2) == j - r + (r + 2) % 4
            &&& cell_byte(l3) == j - r + (r + 3) % 4
        }),
{
    if j == 8 {
    } else if j == 9 {
    } else if j == 10 {
    } else {
    }
}

/// `lemma_mix_indices` for the bytes of column 3.
#[verifier::rlimit(60)]
proof fn lemma_mix_indices_3(j: int, k: int)
    requires
        12 <= j < 16,
        0 <= k < 8,
    ensures
        ({
            let r = j % 4;
            let c = j / 4;
            let l = 4 * r + c;
            let l1 = 4 * ((r + 1) % 4) + c;
            let l2 = 4 * ((r + 2) % 4) + c;
            let l3 = 4 * ((r + 3) % 4) + c;
            &&& 0 <= l < 16 && 0 <= l1 < 16 && 0 <= l2 < 16 && 0 <= l3 < 16
            &&& cell_byte(l) == j
            &&& ((pos(l, k) + 32) % 128) as u128 == pos(l1, k)
            &&& ((pos(l, k) + 64) % 128) as u128 == pos(l2, k)
            &&& ((pos(l, k) + 96) % 128) as u128 == pos(l3, k)
            &&& cell_byte(l1) == j - r + (r + 1) % 4
            &&& cell_byte(l2) == j - r + (r + 2) % 4
            &&& cell_byte(l3) == j - r + (r + 3) % 4
        }),
{
    if j == 12 {
    } else if j == 13 {
    } else if j == 14 {
    } else {
    }
}

/// The cells of the column of byte `j`, from its own row down, wrapping.
proof fn lemma_mix_indices(j: int, k: int)
    requires
        0 <= j < 16,
        0 <= k < 8,
    ensures
        ({
            let r = j % 4;
            let c = j / 4;
            let l = 4 * r + c;
            let l1 = 4 * ((r + 1) % 4) + c;
            let l2 = 4 * ((r + 2) % 4) + c;
            let l3 = 4 * ((r + 3) % 4) + c;
            &&& 0 <= l < 16 && 0 <= l1 < 16 && 0 <= l2 < 16 && 0 <= l3 < 16
            &&& cell_byte(l) == j
            &&& ((pos(l, k) + 32) % 128) as u128 == pos(l1, k)
            &&& ((pos(l, k) + 64) % 128) as u128 == pos(l2, k)
            &&& ((pos(l, k) + 96) % 128) as u128 == pos(l3, k)
            &&& cell_byte(l1) == j - r + (r + 1) % 4
            &&& cell_byte(l2) == j - r + (r + 2) % 4
            &&& cell_byte(l3) == j - r + (r + 3) % 4
        }),
{
    if j < 4 {
        lemma_mix_indices_0(j, k);
    } else if j < 8 {
        lemma_mix_indices_1(j, k);
    } else if j < 12 {
        lemma_mix_indices_2(j, k);
    } else {
        lemma_mix_indices_3(j, k);
    }
}

/// Byte `j` of block `k` after `mix_columns_0` is byte `j` of MixColumns of
/// AES applied to block `k` of the state, given as `x`.
#[verifier::rlimit(60)]
proof fn lemma_mix_columns_0_byte(xs: Seq<Lane>, x: Seq<u8>, k: int, j: int)
    requires
        xs.len() == 8,
        x.len() == 16,
        0 <= k < 8,
        0 <= j < 16,
        forall|l: int| 0 <= l < 16 ==> #[trigger] cell_of(xs, pos(l, k)) == x[cell_byte(l)],
    ensures
        inv_bitslice_spec(mix_columns_0_spec(xs))[k][j] == aes_mix_columns(x)[j],
{
    let m = mix_columns_0_spec(xs);
    lemma_mix_columns_0_len(xs);
    let r = j % 4;
    let c = j / 4;
    let l = 4 * r + c;
    let l1 = 4 * ((r + 1) % 4) + c;
    let l2 = 4 * ((r + 2) % 4) + c;
    let l3 = 4 * ((r + 3) % 4) + c;
    lemma_mix_indices(j, k);
    lemma_inv_bitslice_cells(m, l, k);
    lemma_mix_columns_0_cells(xs, pos(l, k));
    assert(cell_of(xs, pos(l1, k)) == x[cell_byte(l1)]);
    assert(cell_of(xs, pos(l2, k)) == x[cell_byte(l2)]);
    assert(cell_of(xs, pos(l3, k)) == x[cell_byte(l3)]);
    lemma_mix_formula(x[j], x[j - r + (r + 1) % 4], x[j - r + (r + 2) % 4], x[j - r + (r + 3) % 4]);
}

/// Reading out block `k` of a state after `mix_columns_0` gives the
/// MixColumns of AES applied to block `k` of the state, given as `x`.
pub proof fn lemma_mix_columns_0_block(xs: Seq<Lane>, x: Seq<u8>, k: int)
    requires
        xs.len() == 8,
        x.len() == 16,
        0 <= k < 8,
        forall|l: int| 0 <= l < 16 ==> #[trigger] cell_of(xs, pos(l, k)) == x[cell_byte(l)],
    ensures
        inv_bitslice_spec(mix_columns_0_spec(xs))[k] =~= aes_mix_columns(x),
{
    let m = mix_columns_0_spec(xs);
    lemma_mix_columns_0_len(xs);
    lemma_inv_bitslice_len(m);
    assert forall|j: int| 0 <= j < 16 implies #[trigger] inv_bitslice_spec(m)[k][j] == aes_mix_columns(x)[j] by {
        lemma_mix_columns_0_byte(xs, x, k, j);
    }
}

/// `mix_columns_0` keeps eight planes.
proof fn lemma_mix_columns_0_len(s: Seq<Lane>)
    ensures
        mix_columns_0_spec(s).len() == 8,
{
    reveal(mix_columns_0_spec);
}

/// `inv_bitslice` reads out eight blocks of sixteen bytes.
pub proof fn lemma_inv_bitslice_len(s: Seq<Lane>)
    ensures
        inv_bitslice_spec(s).len() == 8,
        forall|k: int| 0 <= k < 8 ==> #[trigger] inv_bitslice_spec(s)[k].len() == 16,
{
    reveal(inv_bitslice_spec);
}

/// `inv_bitslice` reads cell `l` at bit `k` into byte `l / 4 + 4 (l % 4)`
/// of block `k`.
pub proof fn lemma_inv_bitslice_cells(s: Seq<Lane>, l: int, k: int)
    requires
        s.len() == 8,
        0 <= l < 16,
        0 <= k < 8,
    ensures
        inv_bitslice_spec(s)[k][cell_byte(l)] == cell_of(s, pos(l, k)),
{
    let b = inv_bitslice_spec(s);
    lemma_inv_bitslice_len(s);
    lemma_bitslice_inv_bitslice(s);
    lemma_bitslice_cells(b, l, k);
}

} // verus!

//! The fixsliced cipher computes AES as the standard defines it. With the
//! round keys laid out as the fixsliced key schedules lay them out, block
//! `k` of the bitsliced state after round `r` is the AES state after round
//! `r`, with ShiftRows undone `r` times.

use vstd::prelude::*;
use crate::lane::Lane;
use crate::mixing::{
    rotate_rows_1_spec, rotate_rows_2_spec, rotate_rows_and_columns_1_1_spec, rotate_rows_and_columns_1_2_spec,
    rotate_rows_and_columns_1_3_spec, rotate_rows_and_columns_2_2_spec, mix_columns_0_spec, mix_columns_1_spec,
    mix_columns_2_spec, mix_columns_3_spec, inv_mix_columns_0_spec, inv_mix_columns_1_spec, inv_mix_columns_2_spec,
    inv_mix_columns_3_spec, lemma_mix_columns_0_inv_mix_columns_0, lemma_mix_columns_1_inv_mix_columns_1,
    lemma_mix_columns_2_inv_mix_columns_2, lemma_mix_columns_3_inv_mix_columns_3,
};
use crate::shift_rows::{shift_rows_1_spec, shift_rows_2_spec, shift_rows_3_spec, shift_rows_state};
use crate::block_cipher::{
    mix_spec, inv_mix_spec, ark_spec, lemma_round_lengths, enc_rounds, encrypt_state, realign_state, bitslice_batch, is_batch,
    lemma_bitslice_batch_len, aes128_encrypt_spec, aes128_decrypt_spec, aes192_encrypt_spec, aes192_decrypt_spec,
    aes256_encrypt_spec, aes256_decrypt_spec, lemma_aes128_roundtrip, lemma_aes192_roundtrip, lemma_aes256_roundtrip,
};
use crate::keys::window;
use crate::sbox::{cell_of, sub_bytes_spec, lemma_sub_bytes_sbox};
use crate::bitslice::{inv_bitslice_spec, lemma_inv_bitslice_bitslice};
use crate::layout::{
    pos, cell_byte, shift_rows_source, lemma_shift_rows_cells, lemma_inv_bitslice_cells, lemma_inv_bitslice_len,
    lemma_mix_columns_0_block,
};
use crate::lane::{bit_of, lemma_bit_of_ops};
use crate::gf::{gather8, gf_mul};
use crate::standard::{
    shift_src, aes_shift_rows_n, aes_xor_const, aes_sub_bytes, aes_shift_rows, aes_mix_columns, aes_add_round_key,
    aes_rounds, aes_encrypt_block,
};

verus! {

/// ShiftRows `k` times, a cell rotation, then ShiftRows `4 - k` times is
/// the cell rotation of `mix_columns_k`, plane by plane, for both shapes of
/// plane that MixColumns computes.
proof fn lemma_mix_planes_conjugate(a: u128, b: u128, d: u128)
    ensures
        shift_rows_3_spec(
            rotate_rows_1_spec(shift_rows_1_spec(a)) ^ (shift_rows_1_spec(b) ^ rotate_rows_1_spec(shift_rows_1_spec(b)))
                ^ rotate_rows_2_spec(shift_rows_1_spec(a) ^ rotate_rows_1_spec(shift_rows_1_spec(a))),
        ) == rotate_rows_and_columns_1_1_spec(a) ^ (b ^ rotate_rows_and_columns_1_1_spec(b))
            ^ rotate_rows_and_columns_2_2_spec(a ^ rotate_rows_and_columns_1_1_spec(a)),
        shift_rows_3_spec(
            rotate_rows_1_spec(shift_rows_1_spec(a)) ^ (shift_rows_1_spec(b) ^ rotate_rows_1_spec(shift_rows_1_spec(b)))
                ^ (shift_rows_1_spec(d) ^ rotate_rows_1_spec(shift_rows_1_spec(d)))
                ^ rotate_rows_2_spec(shift_rows_1_spec(a) ^ rotate_rows_1_spec(shift_rows_1_spec(a))),
        ) == rotate_rows_and_columns_1_1_spec(a) ^ (b ^ rotate_rows_and_columns_1_1_spec(b))
            ^ (d ^ rotate_rows_and_columns_1_1_spec(d))
            ^ rotate_rows_and_columns_2_2_spec(a ^ rotate_rows_and_columns_1_1_spec(a)),
        shift_rows_2_spec(
            rotate_rows_1_spec(shift_rows_2_spec(a)) ^ (shift_rows_2_spec(b) ^ rotate_rows_1_spec(shift_rows_2_spec(b)))
                ^ rotate_rows_2_spec(shift_rows_2_spec(a) ^ rotate_rows_1_spec(shift_rows_2_spec(a))),
        ) == rotate_rows_and_columns_1_2_spec(a) ^ (b ^ rotate_rows_and_columns_1_2_spec(b))
            ^ rotate_rows_2_spec(a ^ rotate_rows_and_columns_1_2_spec(a)),
        shift_rows_2_spec(
            rotate_rows_1_spec(shift_rows_2_spec(a)) ^ (shift_rows_2_spec(b) ^ rotate_rows_1_spec(shift_rows_2_spec(b)))
                ^ (shift_rows_2_spec(d) ^ rotate_rows_1_spec(shift_rows_2_spec(d)))
                ^ rotate_rows_2_spec(shift_rows_2_spec(a) ^ rotate_rows_1_spec(shift_rows_2_spec(a))),
        ) == rotate_rows_and_columns_1_2_spec(a) ^ (b ^ rotate_rows_and_columns_1_2_spec(b))
            ^ (d ^ rotate_rows_and_columns_1_2_spec(d))
            ^ rotate_rows_2_spec(a ^ rotate_rows_and_columns_1_2_spec(a)),
        shift_rows_1_spec(
            rotate_rows_1_spec(shift_rows_3_spec(a)) ^ (shift_rows_3_spec(b) ^ rotate_rows_1_spec(shift_rows_3_spec(b)))
                ^ rotate_rows_2_spec(shift_rows_3_spec(a) ^ rotate_rows_1_spec(shift_rows_3_spec(a))),
        ) == rotate_rows_and_columns_1_3_spec(a) ^ (b ^ rotate_rows_and_columns_1_3_spec(b))
            ^ rotate_rows_and_columns_2_2_spec(a ^ rotate_rows_and_columns_1_3_spec(a)),
        shift_rows_1_spec(
            rotate_rows_1_spec(shift_rows_3_spec(a)) ^ (shift_rows_3_spec(b) ^ rotate_rows_1_spec(shift_rows_3_spec(b)))
                ^ (shift_rows_3_spec(d) ^ rotate_rows_1_spec(shift_rows_3_spec(d)))
                ^ rotate_rows_2_spec(shift_rows_3_spec(a) ^ rotate_rows_1_spec(shift_rows_3_spec(a))),
        ) == rotate_rows_and_columns_1_3_spec(a) ^ (b ^ rotate_rows_and_columns_1_3_spec(b))
            ^ (d ^ rotate_rows_and_columns_1_3_spec(d))
            ^ rotate_rows_and_columns_2_2_spec(a ^ rotate_rows_and_columns_1_3_spec(a)),
{
    reveal(rotate_rows_and_columns_1_1_spec);
    reveal(rotate_rows_and_columns_1_2_spec);
    reveal(rotate_rows_and_columns_1_3_spec);
    reveal(rotate_rows_and_columns_2_2_spec);
    assert(
        (shift_rows_3_spec(
            rotate_rows_1_spec(shift_rows_1_spec(a)) ^ (shift_rows_1_spec(b) ^ rotate_rows_1_spec(shift_rows_1_spec(b)))
                ^ rotate_rows_2_spec(shift_rows_1_spec(a) ^ rotate_rows_1_spec(shift_rows_1_spec(a))),
        ) == rotate_rows_and_columns_1_1_spec(a) ^ (b ^ rotate_rows_and_columns_1_1_spec(b))
            ^ rotate_rows_and_columns_2_2_spec(a ^ rotate_rows_and_columns_1_1_spec(a)))
        && (shift_rows_3_spec(
            rotate_rows_1_spec(shift_rows_1_spec(a)) ^ (shift_rows_1_spec(b) ^ rotate_rows_1_spec(shift_rows_1_spec(b)))
                ^ (shift_rows_1_spec(d) ^ rotate_rows_1_spec(shift_rows_1_spec(d)))
                ^ rotate_rows_2_spec(shift_rows_1_spec(a) ^ rotate_rows_1_spec(shift_rows_1_spec(a))),
        ) == rotate_rows_and_columns_1_1_spec(a) ^ (b ^ rotate_rows_and_columns_1_1_spec(b))
            ^ (d ^ rotate_rows_and_columns_1_1_spec(d))
            ^ rotate_rows_and_columns_2_2_spec(a ^ rotate_rows_and_columns_1_1_spec(a)))
        && (shift_rows_2_spec(
            rotate_rows_1_spec(shift_rows_2_spec(a)) ^ (shift_rows_2_spec(b) ^ rotate_rows_1_spec(shift_rows_2_spec(b)))
                ^ rotate_rows_2_spec(shift_rows_2_spec(a) ^ rotate_rows_1_spec(shift_rows_2_spec(a))),
        ) == rotate_rows_and_columns_1_2_spec(a) ^ (b ^ rotate_rows_and_columns_1_2_spec(b))
            ^ rotate_rows_2_spec(a ^ rotate_rows_and_columns_1_2_spec(a)))
        && (shift_rows_2_spec(
            rotate_rows_1_spec(shift_rows_2_spec(a)) ^ (shift_rows_2_spec(b) ^ rotate_rows_1_spec(shift_rows_2_spec(b)))
                ^ (shift_rows_2_spec(d) ^ rotate_rows_1_spec(shift_rows_2_spec(d)))
                ^ rotate_rows_2_spec(shift_rows_2_spec(a) ^ rotate_rows_1_spec(shift_rows_2_spec(a))),
        ) == rotate_rows_and_columns_1_2_spec(a) ^ (b ^ rotate_rows_and_columns_1_2_spec(b))
            ^ (d ^ rotate_rows_and_columns_1_2_spec(d))
            ^ rotate_rows_2_spec(a ^ rotate_rows_and_columns_1_2_spec(a)))
        && (shift_rows_1_spec(
            rotate_rows_1_spec(shift_rows_3_spec(a)) ^ (shift_rows_3_spec(b) ^ rotate_rows_1_spec(shift_rows_3_spec(b)))
                ^ rotate_rows_2_spec(shift_rows_3_spec(a) ^ rotate_rows_1_spec(shift_rows_3_spec(a))),
        ) == rotate_rows_and_columns_1_3_spec(a) ^ (b ^ rotate_rows_and_columns_1_3_spec(b))
            ^ rotate_rows_and_columns_2_2_spec(a ^ rotate_rows_and_columns_1_3_spec(a)))
        && (shift_rows_1_spec(
            rotate_rows_1_spec(shift_rows_3_spec(a)) ^ (shift_rows_3_spec(b) ^ rotate_rows_1_spec(shift_rows_3_spec(b)))
                ^ (shift_rows_3_spec(d) ^ rotate_rows_1_spec(shift_rows_3_spec(d)))
                ^ rotate_rows_2_spec(shift_rows_3_spec(a) ^ rotate_rows_1_spec(shift_rows_3_spec(a))),
        ) == rotate_rows_and_columns_1_3_spec(a) ^ (b ^ rotate_rows_and_columns_1_3_spec(b))
            ^ (d ^ rotate_rows_and_columns_1_3_spec(d))
            ^ rotate_rows_and_columns_2_2_spec(a ^ rotate_rows_and_columns_1_3_spec(a)))
    ) by (bit_vector);
}

/// MixColumns for rows drifted by `k` positions is ShiftRows `k` times,
/// MixColumns, and ShiftRows `4 - k` times.
pub proof fn lemma_mix_columns_conjugate(k: int, s: Seq<Lane>)
    requires
        s.len() == 8,
        1 <= k <= 3,
    ensures
        mix_spec(k, s) == shift_rows_state(4 - k, mix_columns_0_spec(shift_rows_state(k, s))),
{
    reveal(shift_rows_state);
    reveal(mix_columns_0_spec);
    lemma_mix_planes_conjugate(s[0].0, s[7].0, s[7].0);
    lemma_mix_planes_conjugate(s[1].0, s[0].0, s[7].0);
    lemma_mix_planes_conjugate(s[2].0, s[1].0, s[7].0);
    lemma_mix_planes_conjugate(s[3].0, s[2].0, s[7].0);
    lemma_mix_planes_conjugate(s[4].0, s[3].0, s[7].0);
    lemma_mix_planes_conjugate(s[5].0, s[4].0, s[7].0);
    lemma_mix_planes_conjugate(s[6].0, s[5].0, s[7].0);
    lemma_mix_planes_conjugate(s[7].0, s[6].0, s[7].0);
    if k == 1 {
        reveal(mix_columns_1_spec);
        assert(mix_spec(k, s) =~= shift_rows_state(4 - k, mix_columns_0_spec(shift_rows_state(k, s))));
    } else if k == 2 {
        reveal(mix_columns_2_spec);
        assert(mix_spec(k, s) =~= shift_rows_state(4 - k, mix_columns_0_spec(shift_rows_state(k, s))));
    } else {
        reveal(mix_columns_3_spec);
        assert(mix_spec(k, s) =~= shift_rows_state(4 - k, mix_columns_0_spec(shift_rows_state(k, s))));
    }
}

/// Block `k` of a bitsliced state, in the byte order of the standard.
pub open spec fn block_of(s: Seq<Lane>, k: int) -> Seq<u8> {
    inv_bitslice_spec(s)[k]
}

/// The cell of byte `j` of a block: row `j % 4`, column `j / 4`.
pub open spec fn byte_cell(j: int) -> int {
    4 * (j % 4) + j / 4
}

/// Where the cell that holds byte `j` takes its byte from under ShiftRows
/// `n` times, in cells and in bytes.
proof fn lemma_shift_src_cells(n: int, j: int)
    requires
        1 <= n <= 3,
        0 <= j < 16,
    ensures
        0 <= byte_cell(j) < 16,
        cell_byte(byte_cell(j)) == j,
        0 <= shift_rows_source(n, byte_cell(j)) < 16,
        cell_byte(shift_rows_source(n, byte_cell(j))) == shift_src(n, j),
{
    if j == 0 {
    } else if j == 1 {
    } else if j == 2 {
    } else if j == 3 {
    } else if j == 4 {
    } else if j == 5 {
    } else if j == 6 {
    } else if j == 7 {
    } else if j == 8 {
    } else if j == 9 {
    } else if j == 10 {
    } else if j == 11 {
    } else if j == 12 {
    } else if j == 13 {
    } else if j == 14 {
    } else {
    }
}

/// Byte `j` of block `k` is the cell that holds it.
pub proof fn lemma_block_byte(s: Seq<Lane>, k: int, j: int)
    requires
        s.len() == 8,
        0 <= k < 8,
        0 <= j < 16,
    ensures
        block_of(s, k)[j] == cell_of(s, pos(byte_cell(j), k)),
{
    lemma_shift_src_cells(1, j);
    lemma_inv_bitslice_cells(s, byte_cell(j), k);
}

/// ShiftRows `n` times on every plane is ShiftRows `n` times on every
/// block.
pub proof fn lemma_block_shift_rows(s: Seq<Lane>, n: int, k: int)
    requires
        s.len() == 8,
        1 <= n <= 3,
        0 <= k < 8,
    ensures
        block_of(shift_rows_state(n, s), k) == aes_shift_rows_n(n, block_of(s, k)),
{
    lemma_round_lengths(0, s);
    let t = shift_rows_state(n, s);
    lemma_inv_bitslice_len(t);
    lemma_inv_bitslice_len(s);
    assert forall|j: int| 0 <= j < 16 implies #[trigger] block_of(t, k)[j] == aes_shift_rows_n(n, block_of(s, k))[j] by {
        lemma_shift_src_cells(n, j);
        lemma_block_byte(t, k, j);
        lemma_shift_rows_cells(s, n, byte_cell(j), k);
        lemma_inv_bitslice_cells(s, shift_rows_source(n, byte_cell(j)), k);
    }
    assert(block_of(t, k) =~= aes_shift_rows_n(n, block_of(s, k)));
}

/// SubBytes without its NOT gates on every plane is SubBytes on every
/// block, with every byte XORed with 0x63.
pub proof fn lemma_block_sub_bytes(s: Seq<Lane>, k: int)
    requires
        s.len() == 8,
        0 <= k < 8,
    ensures
        block_of(sub_bytes_spec(s), k) == aes_xor_const(aes_sub_bytes(block_of(s, k)), 0x63u8),
{
    lemma_round_lengths(0, s);
    let t = sub_bytes_spec(s);
    lemma_inv_bitslice_len(t);
    lemma_inv_bitslice_len(s);
    assert forall|j: int| 0 <= j < 16 implies #[trigger] block_of(t, k)[j] == aes_xor_const(
        aes_sub_bytes(block_of(s, k)),
        0x63u8,
    )[j] by {
        lemma_block_byte(t, k, j);
        lemma_block_byte(s, k, j);
        lemma_sub_bytes_sbox(s, pos(byte_cell(j), k));
    }
    assert(block_of(t, k) =~= aes_xor_const(aes_sub_bytes(block_of(s, k)), 0x63u8));
}

/// `mix_columns_0` on every plane is MixColumns on every block.
pub proof fn lemma_block_mix_columns_0(s: Seq<Lane>, k: int)
    requires
        s.len() == 8,
        0 <= k < 8,
    ensures
        block_of(mix_columns_0_spec(s), k) == aes_mix_columns(block_of(s, k)),
{
    lemma_inv_bitslice_len(s);
    assert forall|l: int| 0 <= l < 16 implies #[trigger] cell_of(s, pos(l, k)) == block_of(s, k)[cell_byte(l)] by {
        lemma_inv_bitslice_cells(s, l, k);
    }
    lemma_mix_columns_0_block(s, block_of(s, k), k);
}

/// The bits of a cell of two planes XORed are the XOR of the bits.
pub proof fn lemma_gather8_xor(
    a0: u8, a1: u8, a2: u8, a3: u8, a4: u8, a5: u8, a6: u8, a7: u8,
    b0: u8, b1: u8, b2: u8, b3: u8, b4: u8, b5: u8, b6: u8, b7: u8,
)
    requires
        a0 <= 1, a1 <= 1, a2 <= 1, a3 <= 1, a4 <= 1, a5 <= 1, a6 <= 1, a7 <= 1,
        b0 <= 1, b1 <= 1, b2 <= 1, b3 <= 1, b4 <= 1, b5 <= 1, b6 <= 1, b7 <= 1,
    ensures
        gather8(a0 ^ b0, a1 ^ b1, a2 ^ b2, a3 ^ b3, a4 ^ b4, a5 ^ b5, a6 ^ b6, a7 ^ b7)
            == gather8(a0, a1, a2, a3, a4, a5, a6, a7) ^ gather8(b0, b1, b2, b3, b4, b5, b6, b7),
        a0 ^ b0 <= 1, a1 ^ b1 <= 1, a2 ^ b2 <= 1, a3 ^ b3 <= 1, a4 ^ b4 <= 1, a5 ^ b5 <= 1, a6 ^ b6 <= 1, a7 ^ b7 <= 1,
{
    assert(gather8(a0 ^ b0, a1 ^ b1, a2 ^ b2, a3 ^ b3, a4 ^ b4, a5 ^ b5, a6 ^ b6, a7 ^ b7)
        == gather8(a0, a1, a2, a3, a4, a5, a6, a7) ^ gather8(b0, b1, b2, b3, b4, b5, b6, b7)
        && a0 ^ b0 <= 1 && a1 ^ b1 <= 1 && a2 ^ b2 <= 1 && a3 ^ b3 <= 1 && a4 ^ b4 <= 1 && a5 ^ b5 <= 1
        && a6 ^ b6 <= 1 && a7 ^ b7 <= 1) by (bit_vector)
        requires
            a0 <= 1, a1 <= 1, a2 <= 1, a3 <= 1, a4 <= 1, a5 <= 1, a6 <= 1, a7 <= 1,
            b0 <= 1, b1 <= 1, b2 <= 1, b3 <= 1, b4 <= 1, b5 <= 1, b6 <= 1, b7 <= 1,
    ;
}

/// Adding a round key plane by plane adds it block by block.
pub proof fn lemma_block_ark(s: Seq<Lane>, r: Seq<Lane>, k: int)
    requires
        s.len() == 8,
        r.len() == 8,
        0 <= k < 8,
    ensures
        block_of(ark_spec(s, r), k) == aes_add_round_key(block_of(s, k), block_of(r, k)),
{
    let t = ark_spec(s, r);
    lemma_inv_bitslice_len(t);
    lemma_inv_bitslice_len(s);
    lemma_inv_bitslice_len(r);
    assert forall|j: int| 0 <= j < 16 implies #[trigger] block_of(t, k)[j] == aes_add_round_key(
        block_of(s, k),
        block_of(r, k),
    )[j] by {
        lemma_block_byte(t, k, j);
        lemma_block_byte(s, k, j);
        lemma_block_byte(r, k, j);
        let q = pos(byte_cell(j), k);
        lemma_bit_of_ops(s[0].0, r[0].0, q);
        lemma_bit_of_ops(s[1].0, r[1].0, q);
        lemma_bit_of_ops(s[2].0, r[2].0, q);
        lemma_bit_of_ops(s[3].0, r[3].0, q);
        lemma_bit_of_ops(s[4].0, r[4].0, q);
        lemma_bit_of_ops(s[5].0, r[5].0, q);
        lemma_bit_of_ops(s[6].0, r[6].0, q);
        lemma_bit_of_ops(s[7].0, r[7].0, q);
        lemma_bit_of_ops(r[0].0, r[0].0, q);
        lemma_bit_of_ops(r[1].0, r[1].0, q);
        lemma_bit_of_ops(r[2].0, r[2].0, q);
        lemma_bit_of_ops(r[3].0, r[3].0, q);
        lemma_bit_of_ops(r[4].0, r[4].0, q);
        lemma_bit_of_ops(r[5].0, r[5].0, q);
        lemma_bit_of_ops(r[6].0, r[6].0, q);
        lemma_bit_of_ops(r[7].0, r[7].0, q);
        lemma_gather8_xor(
            bit_of(s[0].0, q), bit_of(s[1].0, q), bit_of(s[2].0, q), bit_of(s[3].0, q),
            bit_of(s[4].0, q), bit_of(s[5].0, q), bit_of(s[6].0, q), bit_of(s[7].0, q),
            bit_of(r[0].0, q), bit_of(r[1].0, q), bit_of(r[2].0, q), bit_of(r[3].0, q),
            bit_of(r[4].0, q), bit_of(r[5].0, q), bit_of(r[6].0, q), bit_of(r[7].0, q),
        );
    }
    assert(block_of(t, k) =~= aes_add_round_key(block_of(s, k), block_of(r, k)));
}

/// ShiftRows `n` times takes every byte from within the block.
proof fn lemma_shift_src_range(n: int, j: int)
    requires
        0 <= j < 16,
    ensures
        0 <= shift_src(n, j) < 16,
        n == 0 ==> shift_src(n, j) == j,
{
}

/// ShiftRows no times leaves a block alone.
pub proof fn lemma_shift_rows_n_zero(x: Seq<u8>)
    requires
        x.len() == 16,
    ensures
        aes_shift_rows_n(0, x) == x,
{
    assert forall|j: int| 0 <= j < 16 implies #[trigger] aes_shift_rows_n(0, x)[j] == x[j] by {
        lemma_shift_src_range(0, j);
    }
    assert(aes_shift_rows_n(0, x) =~= x);
}

/// ShiftRows once is the ShiftRows of the standard.
pub proof fn lemma_shift_rows_n_one(x: Seq<u8>)
    ensures
        aes_shift_rows_n(1, x) == aes_shift_rows(x),
{
    assert(aes_shift_rows_n(1, x) =~= aes_shift_rows(x));
}

/// Where ShiftRows `a` times after ShiftRows `b` times takes byte `j` from,
/// when `a + b` is 1 modulo 4.
#[verifier::rlimit(60)]
proof fn lemma_shift_src_compose(a: int, b: int, j: int)
    requires
        0 <= a <= 3,
        0 <= b <= 3,
        (a + b) % 4 == 1,
        0 <= j < 16,
    ensures
        shift_src(b, shift_src(a, j)) == shift_src(1, j),
{
    if a == 0 {
        assert(b == 1);
        if j == 0 {
        } else if j == 1 {
        } else if j == 2 {
        } else if j == 3 {
        } else if j == 4 {
        } else if j == 5 {
        } else if j == 6 {
        } else if j == 7 {
        } else if j == 8 {
        } else if j == 9 {
        } else if j == 10 {
        } else if j == 11 {
        } else if j == 12 {
        } else if j == 13 {
        } else if j == 14 {
        } else {
        }
    } else if a == 1 {
        assert(b == 0);
        if j == 0 {
        } else if j == 1 {
        } else if j == 2 {
        } else if j == 3 {
        } else if j == 4 {
        } else if j == 5 {
        } else if j == 6 {
        } else if j == 7 {
        } else if j == 8 {
        } else if j == 9 {
        } else if j == 10 {
        } else if j == 11 {
        } else if j == 12 {
        } else if j == 13 {
        } else if j == 14 {
        } else {
        }
    } else if a == 2 {
        assert(b == 3);
        if j == 0 {
        } else if j == 1 {
        } else if j == 2 {
        } else if j == 3 {
        } else if j == 4 {
        } else if j == 5 {
        } else if j == 6 {
        } else if j == 7 {
        } else if j == 8 {
        } else if j == 9 {
        } else if j == 10 {
        } else if j == 11 {
        } else if j == 12 {
        } else if j == 13 {
        } else if j == 14 {
        } else {
        }
    } else {
        assert(b == 2);
        if j == 0 {
        } else if j == 1 {
        } else if j == 2 {
        } else if j == 3 {
        } else if j == 4 {
        } else if j == 5 {
        } else if j == 6 {
        } else if j == 7 {
        } else if j == 8 {
        } else if j == 9 {
        } else if j == 10 {
        } else if j == 11 {
        } else if j == 12 {
        } else if j == 13 {
        } else if j == 14 {
        } else {
        }
    }
}

/// ShiftRows `a` times after ShiftRows `b` times is ShiftRows once when
/// `a + b` is 1 modulo 4.
pub proof fn lemma_shift_rows_n_compose(a: int, b: int, x: Seq<u8>)
    requires
        0 <= a <= 3,
        0 <= b <= 3,
        (a + b) % 4 == 1,
        x.len() == 16,
    ensures
        aes_shift_rows_n(a, aes_shift_rows_n(b, x)) == aes_shift_rows_n(1, x),
{
    assert forall|j: int| 0 <= j < 16 implies #[trigger] aes_shift_rows_n(a, aes_shift_rows_n(b, x))[j]
        == aes_shift_rows_n(1, x)[j] by {
        lemma_shift_src_range(a, j);
        lemma_shift_src_compose(a, b, j);
    }
    assert(aes_shift_rows_n(a, aes_shift_rows_n(b, x)) =~= aes_shift_rows_n(1, x));
}

/// ShiftRows moves bytes and nothing else: it commutes with SubBytes, with
/// XORing a constant, and with AddRoundKey.
pub proof fn lemma_shift_rows_n_bytewise(n: int, x: Seq<u8>, y: Seq<u8>, c: u8)
    requires
        x.len() == 16,
        y.len() == 16,
    ensures
        aes_shift_rows_n(n, aes_sub_bytes(x)) == aes_sub_bytes(aes_shift_rows_n(n, x)),
        aes_shift_rows_n(n, aes_xor_const(x, c)) == aes_xor_const(aes_shift_rows_n(n, x), c),
        aes_shift_rows_n(n, aes_add_round_key(x, y)) == aes_add_round_key(aes_shift_rows_n(n, x), aes_shift_rows_n(n, y)),
{
    assert forall|j: int| 0 <= j < 16 implies 0 <= #[trigger] shift_src(n, j) < 16 by {
        lemma_shift_src_range(n, j);
    }
    assert(aes_shift_rows_n(n, aes_sub_bytes(x)) =~= aes_sub_bytes(aes_shift_rows_n(n, x)));
    assert(aes_shift_rows_n(n, aes_xor_const(x, c)) =~= aes_xor_const(aes_shift_rows_n(n, x), c));
    assert(aes_shift_rows_n(n, aes_add_round_key(x, y)) =~= aes_add_round_key(
        aes_shift_rows_n(n, x),
        aes_shift_rows_n(n, y),
    ));
}

/// The two facts of GF(2^8) arithmetic that the NOT gates rest on: a
/// constant XORed into every byte of a column comes out of MixColumns
/// unchanged (`2 c + 3 c + c + c = c`), and XORing the same constant into
/// both operands of an XOR cancels.
pub proof fn lemma_const_bytes(a: u8, b: u8, e: u8, f: u8)
    ensures
        gf_mul(a ^ 0x63u8, 2) ^ gf_mul(b ^ 0x63u8, 3) ^ (e ^ 0x63u8) ^ (f ^ 0x63u8) == (gf_mul(a, 2) ^ gf_mul(b, 3) ^ e
            ^ f) ^ 0x63u8,
        (a ^ 0x63u8) ^ (b ^ 0x63u8) == a ^ b,
        (a ^ 0x63u8) ^ 0x63u8 == a,
{
    assert(gf_mul(a ^ 0x63u8, 2) ^ gf_mul(b ^ 0x63u8, 3) ^ (e ^ 0x63u8) ^ (f ^ 0x63u8) == (gf_mul(a, 2) ^ gf_mul(b, 3)
        ^ e ^ f) ^ 0x63u8 && (a ^ 0x63u8) ^ (b ^ 0x63u8) == a ^ b && (a ^ 0x63u8) ^ 0x63u8 == a) by (bit_vector);
}

/// MixColumns lets 0x63 in every byte through, and two such constants
/// cancel in AddRoundKey.
pub proof fn lemma_xor_63(x: Seq<u8>, y: Seq<u8>)
    requires
        x.len() == 16,
        y.len() == 16,
    ensures
        aes_mix_columns(aes_xor_const(x, 0x63u8)) == aes_xor_const(aes_mix_columns(x), 0x63u8),
        aes_add_round_key(aes_xor_const(x, 0x63u8), aes_xor_const(y, 0x63u8)) == aes_add_round_key(x, y),
{
    let mx = aes_mix_columns(aes_xor_const(x, 0x63u8));
    assert forall|j: int| 0 <= j < 16 implies #[trigger] mx[j] == aes_xor_const(aes_mix_columns(x), 0x63u8)[j] by {
        let r = j % 4;
        let c4 = j - r;
        lemma_const_bytes(x[j], x[c4 + (r + 1) % 4], x[c4 + (r + 2) % 4], x[c4 + (r + 3) % 4]);
    }
    assert(mx =~= aes_xor_const(aes_mix_columns(x), 0x63u8));
    assert forall|j: int| 0 <= j < 16 implies #[trigger] aes_add_round_key(
        aes_xor_const(x, 0x63u8),
        aes_xor_const(y, 0x63u8),
    )[j] == aes_add_round_key(x, y)[j] by {
        lemma_const_bytes(x[j], y[j], 0, 0);
    }
    assert(aes_add_round_key(aes_xor_const(x, 0x63u8), aes_xor_const(y, 0x63u8)) =~= aes_add_round_key(x, y));
}

/// MixColumns for rows drifted by `m` positions, block by block: ShiftRows
/// `m` times, MixColumns, ShiftRows `4 - m` times.
pub proof fn lemma_block_mix(m: int, s: Seq<Lane>, k: int)
    requires
        s.len() == 8,
        0 <= m <= 3,
        0 <= k < 8,
    ensures
        block_of(mix_spec(m, s), k) == aes_shift_rows_n(
            (4 - m) % 4,
            aes_mix_columns(aes_shift_rows_n(m, block_of(s, k))),
        ),
{
    if m == 0 {
        lemma_block_mix_aligned(s, k);
    } else {
        lemma_block_mix_drifted(m, s, k);
        assert((4 - m) % 4 == 4 - m);
    }
}

/// `lemma_block_mix` for rows in place.
proof fn lemma_block_mix_aligned(s: Seq<Lane>, k: int)
    requires
        s.len() == 8,
        0 <= k < 8,
    ensures
        block_of(mix_spec(0, s), k) == aes_shift_rows_n(0, aes_mix_columns(aes_shift_rows_n(0, block_of(s, k)))),
{
    lemma_inv_bitslice_len(s);
    lemma_block_mix_columns_0(s, k);
    lemma_shift_rows_n_zero(block_of(s, k));
    lemma_shift_rows_n_zero(aes_mix_columns(block_of(s, k)));
}

/// `lemma_block_mix` for rows that have drifted.
#[verifier::rlimit(40)]
proof fn lemma_block_mix_drifted(m: int, s: Seq<Lane>, k: int)
    requires
        s.len() == 8,
        1 <= m <= 3,
        0 <= k < 8,
    ensures
        block_of(mix_spec(m, s), k) == aes_shift_rows_n(4 - m, aes_mix_columns(aes_shift_rows_n(m, block_of(s, k)))),
{
    let t = shift_rows_state(m, s);
    assert(t.len() == 8) by {
        lemma_round_lengths(0, s);
    }
    let u = mix_columns_0_spec(t);
    assert(u.len() == 8) by {
        lemma_round_lengths(0, t);
        assert(u == mix_spec(0, t));
    }
    lemma_mix_columns_conjugate(m, s);
    lemma_block_shift_rows(s, m, k);
    lemma_block_mix_columns_0(t, k);
    lemma_block_shift_rows(u, 4 - m, k);
}

/// Block `k` of round key `r` in a buffer of fixsliced round keys.
pub open spec fn key_block(rk: Seq<Lane>, r: int, k: int) -> Seq<u8> {
    block_of(window(rk, 8 * r), k)
}

/// How the fixsliced key schedules store round key `r` of a cipher with
/// `nr` rounds: the first as it is; the others with every byte XORed with
/// 0x63 (the NOT gates that SubBytes leaves out), and, but for the last,
/// with ShiftRows undone `r` times to follow the drifting rows.
pub open spec fn fixsliced_round_key(r: int, nr: int, key: Seq<u8>) -> Seq<u8> {
    if r == 0 {
        key
    } else if r == nr {
        aes_xor_const(key, 0x63u8)
    } else {
        aes_xor_const(aes_shift_rows_n((4 - r % 4) % 4, key), 0x63u8)
    }
}

/// `rk` holds the round keys `keys` of a cipher with `nr` rounds, each in
/// all eight block positions, laid out as the fixsliced key schedules lay
/// them out.
pub open spec fn fixsliced_keys_hold(rk: Seq<Lane>, keys: Seq<Seq<u8>>, nr: int) -> bool {
    &&& keys.len() == nr + 1
    &&& rk.len() >= 8 * (nr + 1)
    &&& forall|r: int| 0 <= r <= nr ==> #[trigger] keys[r].len() == 16
    &&& forall|r: int, k: int|
        0 <= r <= nr && 0 <= k < 8 ==> #[trigger] key_block(rk, r, k) == fixsliced_round_key(r, nr, keys[r])
}

/// Block `k` of the bitsliced batch is block `k` of the batch.
proof fn lemma_block_of_batch(b: Seq<Seq<u8>>, k: int)
    requires
        is_batch(b),
        0 <= k < 8,
    ensures
        block_of(bitslice_batch(b), k) == b[k],
{
    lemma_inv_bitslice_bitslice(b[0], b[1], b[2], b[3], b[4], b[5], b[6], b[7]);
}

/// After the initial round key and `n` full rounds, block `k` of the
/// fixsliced state is the AES state after `n` rounds with ShiftRows undone
/// `n` times.
pub proof fn lemma_enc_rounds_aes(b: Seq<Seq<u8>>, rk: Seq<Lane>, keys: Seq<Seq<u8>>, nr: int, n: nat, k: int)
    requires
        is_batch(b),
        fixsliced_keys_hold(rk, keys, nr),
        n < nr,
        0 <= k < 8,
    ensures
        enc_rounds(bitslice_batch(b), rk, n).len() == 8,
        block_of(enc_rounds(bitslice_batch(b), rk, n), k) == aes_shift_rows_n(
            (4 - n % 4) % 4,
            aes_rounds(keys, b[k], n),
        ),
    decreases n,
{
    let s = bitslice_batch(b);
    lemma_bitslice_batch_len(b);
    assert(key_block(rk, n as int, k) == fixsliced_round_key(n as int, nr, keys[n as int]));
    let w = window(rk, (8 * n) as int);
    assert(w.len() == 8);
    if n == 0 {
        lemma_block_ark(s, w, k);
        lemma_block_of_batch(b, k);
        lemma_shift_rows_n_zero(aes_rounds(keys, b[k], n));
    } else {
        let p = (4 - (n - 1) % 4) % 4;
        let m = (n % 4) as int;
        let q = (4 - m) % 4;
        let a = aes_rounds(keys, b[k], (n - 1) as nat);
        let key = keys[n as int];
        let t = enc_rounds(s, rk, (n - 1) as nat);
        lemma_enc_rounds_aes(b, rk, keys, nr, (n - 1) as nat, k);
        let u = sub_bytes_spec(t);
        lemma_block_sub_bytes(t, k);
        lemma_shift_rows_n_bytewise(p, a, a, 0x63u8);
        lemma_shift_rows_n_bytewise(p, aes_sub_bytes(a), a, 0x63u8);
        let y = aes_xor_const(aes_sub_bytes(a), 0x63u8);
        assert(block_of(u, k) == aes_shift_rows_n(p, y));
        lemma_round_lengths(0, t);
        let v = mix_spec(m, u);
        lemma_block_mix(m, u, k);
        lemma_shift_rows_n_compose(m, p, y);
        lemma_shift_rows_n_bytewise(1, aes_sub_bytes(a), a, 0x63u8);
        lemma_shift_rows_n_one(aes_sub_bytes(a));
        let z = aes_shift_rows(aes_sub_bytes(a));
        lemma_xor_63(z, z);
        let mz = aes_mix_columns(z);
        assert(block_of(v, k) == aes_shift_rows_n(q, aes_xor_const(mz, 0x63u8)));
        lemma_shift_rows_n_bytewise(q, mz, key, 0x63u8);
        lemma_shift_rows_n_bytewise(q, key, key, 0x63u8);
        lemma_round_lengths(m, u);
        lemma_block_ark(v, w, k);
        lemma_xor_63(aes_shift_rows_n(q, mz), aes_shift_rows_n(q, key));
    }
}

/// The realignment before the last round brings the drifted rows to
/// ShiftRows applied once.
proof fn lemma_realigned_block(t: Seq<Lane>, a: Seq<u8>, nr: int, k: int)
    requires
        t.len() == 8,
        a.len() == 16,
        nr == 10 || nr == 12 || nr == 14,
        0 <= k < 8,
        block_of(t, k) == aes_shift_rows_n((4 - (nr - 1) % 4) % 4, a),
    ensures
        realign_state(nr as nat, t).len() == 8,
        block_of(realign_state(nr as nat, t), k) == aes_shift_rows_n(1, a),
{
    lemma_round_lengths(0, t);
    if nr % 4 == 2 {
        lemma_block_shift_rows(t, 2, k);
        lemma_shift_rows_n_compose(2, 3, a);
    }
}

/// After the last round, block `k` of the fixsliced state is the AES
/// cipher of block `k`, for 10, 12 and 14 rounds.
pub proof fn lemma_encrypt_state_aes(b: Seq<Seq<u8>>, rk: Seq<Lane>, keys: Seq<Seq<u8>>, nr: int, k: int)
    requires
        is_batch(b),
        fixsliced_keys_hold(rk, keys, nr),
        nr == 10 || nr == 12 || nr == 14,
        0 <= k < 8,
    ensures
        block_of(encrypt_state(bitslice_batch(b), rk, nr as nat), k) == aes_encrypt_block(keys, nr as nat, b[k]),
{
    let s = bitslice_batch(b);
    let a = aes_rounds(keys, b[k], (nr - 1) as nat);
    let t = enc_rounds(s, rk, (nr - 1) as nat);
    lemma_enc_rounds_aes(b, rk, keys, nr, (nr - 1) as nat, k);
    let r = realign_state(nr as nat, t);
    lemma_realigned_block(t, a, nr, k);
    let u = sub_bytes_spec(r);
    lemma_block_sub_bytes(r, k);
    lemma_shift_rows_n_bytewise(1, a, a, 0x63u8);
    lemma_shift_rows_n_one(aes_sub_bytes(a));
    let z = aes_shift_rows(aes_sub_bytes(a));
    let key = keys[nr];
    assert(key_block(rk, nr, k) == fixsliced_round_key(nr, nr, key));
    let w = window(rk, 8 * nr);
    lemma_round_lengths(0, r);
    lemma_block_ark(u, w, k);
    lemma_xor_63(z, key);
}

/// AES-128 encryption with round keys laid out by the fixsliced key
/// schedule is the cipher of the standard, block by block; decryption is
/// its inverse.
pub proof fn lemma_aes128_is_aes(rk: Seq<Lane>, keys: Seq<Seq<u8>>, blocks: Seq<Seq<u8>>)
    requires
        is_batch(blocks),
        fixsliced_keys_hold(rk, keys, 10),
    ensures
        forall|k: int| 0 <= k < 8 ==> #[trigger] aes128_encrypt_spec(rk, blocks)[k] == aes_encrypt_block(keys, 10, blocks[k]),
        forall|k: int| 0 <= k < 8 ==> #[trigger] aes_encrypt_block(keys, 10, aes128_decrypt_spec(rk, blocks)[k]) == blocks[k],
{
    assert forall|k: int| 0 <= k < 8 implies #[trigger] aes128_encrypt_spec(rk, blocks)[k] == aes_encrypt_block(
        keys,
        10,
        blocks[k],
    ) by {
        lemma_encrypt_state_aes(blocks, rk, keys, 10, k);
    }
    let d = aes128_decrypt_spec(rk, blocks);
    lemma_inv_bitslice_len(crate::block_cipher::decrypt_state(bitslice_batch(blocks), rk, 10));
    lemma_aes128_roundtrip(rk, blocks);
    assert forall|k: int| 0 <= k < 8 implies #[trigger] aes_encrypt_block(keys, 10, d[k]) == blocks[k] by {
        lemma_encrypt_state_aes(d, rk, keys, 10, k);
    }
}

/// AES-192 encryption with round keys laid out by the fixsliced key
/// schedule is the cipher of the standard, block by block; decryption is
/// its inverse.
pub proof fn lemma_aes192_is_aes(rk: Seq<Lane>, keys: Seq<Seq<u8>>, blocks: Seq<Seq<u8>>)
    requires
        is_batch(blocks),
        fixsliced_keys_hold(rk, keys, 12),
    ensures
        forall|k: int| 0 <= k < 8 ==> #[trigger] aes192_encrypt_spec(rk, blocks)[k] == aes_encrypt_block(keys, 12, blocks[k]),
        forall|k: int| 0 <= k < 8 ==> #[trigger] aes_encrypt_block(keys, 12, aes192_decrypt_spec(rk, blocks)[k]) == blocks[k],
{
    assert forall|k: int| 0 <= k < 8 implies #[trigger] aes192_encrypt_spec(rk, blocks)[k] == aes_encrypt_block(
        keys,
        12,
        blocks[k],
    ) by {
        lemma_encrypt_state_aes(blocks, rk, keys, 12, k);
    }
    let d = aes192_decrypt_spec(rk, blocks);
    lemma_inv_bitslice_len(crate::block_cipher::decrypt_state(bitslice_batch(blocks), rk, 12));
    lemma_aes192_roundtrip(rk, blocks);
    assert forall|k: int| 0 <= k < 8 implies #[trigger] aes_encrypt_block(keys, 12, d[k]) == blocks[k] by {
        lemma_encrypt_state_aes(d, rk, keys, 12, k);
    }
}

/// AES-256 encryption with round keys laid out by the fixsliced key
/// schedule is the cipher of the standard, block by block; decryption is
/// its inverse.
pub proof fn lemma_aes256_is_aes(rk: Seq<Lane>, keys: Seq<Seq<u8>>, blocks: Seq<Seq<u8>>)
    requires
        is_batch(blocks),
        fixsliced_keys_hold(rk, keys, 14),
    ensures
        forall|k: int| 0 <= k < 8 ==> #[trigger] aes256_encrypt_spec(rk, blocks)[k] == aes_encrypt_block(keys, 14, blocks[k]),
        forall|k: int| 0 <= k < 8 ==> #[trigger] aes_encrypt_block(keys, 14, aes256_decrypt_spec(rk, blocks)[k]) == blocks[k],
{
    assert forall|k: int| 0 <= k < 8 implies #[trigger] aes256_encrypt_spec(rk, blocks)[k] == aes_encrypt_block(
        keys,
        14,
        blocks[k],
    ) by {
        lemma_encrypt_state_aes(blocks, rk, keys, 14, k);
    }
    let d = aes256_decrypt_spec(rk, blocks);
    lemma_inv_bitslice_len(crate::block_cipher::decrypt_state(bitslice_batch(blocks), rk, 14));
    lemma_aes256_roundtrip(rk, blocks);
    assert forall|k: int| 0 <= k < 8 implies #[trigger] aes_encrypt_block(keys, 14, d[k]) == blocks[k] by {
        lemma_encrypt_state_aes(d, rk, keys, 14, k);
    }
}

/// `mix_columns_0` is MixColumns on every block.
pub proof fn lemma_mix_columns_0_blocks(s: Seq<Lane>)
    requires
        s.len() == 8,
    ensures
        forall|k: int| 0 <= k < 8 ==> #[trigger] block_of(mix_columns_0_spec(s), k) == aes_mix_columns(block_of(s, k)),
{
    assert forall|k: int| 0 <= k < 8 implies #[trigger] block_of(mix_columns_0_spec(s), k) == aes_mix_columns(block_of(s, k)) by {
        lemma_block_mix_columns_0(s, k);
    }
}

/// `inv_mix_columns_0` gives, block by block, what `mix_columns_0` maps
/// back to its input.
pub proof fn lemma_inv_mix_columns_0_blocks(s: Seq<Lane>)
    requires
        s.len() == 8,
    ensures
        forall|k: int| 0 <= k < 8 ==> #[trigger] aes_mix_columns(block_of(inv_mix_columns_0_spec(s), k)) == block_of(s, k),
{
    let t = inv_mix_columns_0_spec(s);
    lemma_round_lengths(0, s);
    assert(t == inv_mix_spec(0, s));
    lemma_mix_columns_0_inv_mix_columns_0(s);
    lemma_mix_columns_0_blocks(t);
    assert forall|k: int| 0 <= k < 8 implies #[trigger] aes_mix_columns(block_of(inv_mix_columns_0_spec(s), k)) == block_of(s, k) by {
        assert(block_of(mix_columns_0_spec(t), k) == block_of(s, k));
    }
}

/// `mix_columns_1` is MixColumns on every block whose rows have drifted by 1: ShiftRows 1 times, MixColumns, ShiftRows 3 times.
pub proof fn lemma_mix_columns_1_blocks(s: Seq<Lane>)
    requires
        s.len() == 8,
    ensures
        forall|k: int| 0 <= k < 8 ==> #[trigger] block_of(mix_columns_1_spec(s), k) == aes_shift_rows_n(3, aes_mix_columns(aes_shift_rows_n(1, block_of(s, k)))),
{
    assert forall|k: int| 0 <= k < 8 implies #[trigger] block_of(mix_columns_1_spec(s), k) == aes_shift_rows_n(3, aes_mix_columns(aes_shift_rows_n(1, block_of(s, k)))) by {
        lemma_block_mix(1, s, k);
    }
}

/// `inv_mix_columns_1` gives, block by block, what `mix_columns_1` maps
/// back to its input.
pub proof fn lemma_inv_mix_columns_1_blocks(s: Seq<Lane>)
    requires
        s.len() == 8,
    ensures
        forall|k: int| 0 <= k < 8 ==> #[trigger] aes_shift_rows_n(3, aes_mix_columns(aes_shift_rows_n(1, block_of(inv_mix_columns_1_spec(s), k)))) == block_of(s, k),
{
    let t = inv_mix_columns_1_spec(s);
    lemma_round_lengths(1, s);
    assert(t == inv_mix_spec(1, s));
    lemma_mix_columns_1_inv_mix_columns_1(s);
    lemma_mix_columns_1_blocks(t);
    assert forall|k: int| 0 <= k < 8 implies #[trigger] aes_shift_rows_n(3, aes_mix_columns(aes_shift_rows_n(1, block_of(inv_mix_columns_1_spec(s), k)))) == block_of(s, k) by {
        assert(block_of(mix_columns_1_spec(t), k) == block_of(s, k));
    }
}

/// `mix_columns_2` is MixColumns on every block whose rows have drifted by 2: ShiftRows 2 times, MixColumns, ShiftRows 2 times.
pub proof fn lemma_mix_columns_2_blocks(s: Seq<Lane>)
    requires
        s.len() == 8,
    ensures
        forall|k: int| 0 <= k < 8 ==> #[trigger] block_of(mix_columns_2_spec(s), k) == aes_shift_rows_n(2, aes_mix_columns(aes_shift_rows_n(2, block_of(s, k)))),
{
    assert forall|k: int| 0 <= k < 8 implies #[trigger] block_of(mix_columns_2_spec(s), k) == aes_shift_rows_n(2, aes_mix_columns(aes_shift_rows_n(2, block_of(s, k)))) by {
        lemma_block_mix(2, s, k);
    }
}

/// `inv_mix_columns_2` gives, block by block, what `mix_columns_2` maps
/// back to its input.
pub proof fn lemma_inv_mix_columns_2_blocks(s: Seq<Lane>)
    requires
        s.len() == 8,
    ensures
        forall|k: int| 0 <= k < 8 ==> #[trigger] aes_shift_rows_n(2, aes_mix_columns(aes_shift_rows_n(2, block_of(inv_mix_columns_2_spec(s), k)))) == block_of(s, k),
{
    let t = inv_mix_columns_2_spec(s);
    lemma_round_lengths(2, s);
    assert(t == inv_mix_spec(2, s));
    lemma_mix_columns_2_inv_mix_columns_2(s);
    lemma_mix_columns_2_blocks(t);
    assert forall|k: int| 0 <= k < 8 implies #[trigger] aes_shift_rows_n(2, aes_mix_columns(aes_shift_rows_n(2, block_of(inv_mix_columns_2_spec(s), k)))) == block_of(s, k) by {
        assert(block_of(mix_columns_2_spec(t), k) == block_of(s, k));
    }
}

/// `mix_columns_3` is MixColumns on every block whose rows have drifted by 3: ShiftRows 3 times, MixColumns, ShiftRows 1 times.
pub proof fn lemma_mix_columns_3_blocks(s: Seq<Lane>)
    requires
        s.len() == 8,
    ensures
        forall|k: int| 0 <= k < 8 ==> #[trigger] block_of(mix_columns_3_spec(s), k) == aes_shift_rows_n(1, aes_mix_columns(aes_shift_rows_n(3, block_of(s, k)))),
{
    assert forall|k: int| 0 <= k < 8 implies #[trigger] block_of(mix_columns_3_spec(s), k) == aes_shift_rows_n(1, aes_mix_columns(aes_shift_rows_n(3, block_of(s, k)))) by {
        lemma_block_mix(3, s, k);
    }
}

/// `inv_mix_columns_3` gives, block by block, what `mix_columns_3` maps
/// back to its input.
pub proof fn lemma_inv_mix_columns_3_blocks(s: Seq<Lane>)
    requires
        s.len() == 8,
    ensures
        forall|k: int| 0 <= k < 8 ==> #[trigger] aes_shift_rows_n(1, aes_mix_columns(aes_shift_rows_n(3, block_of(inv_mix_columns_3_spec(s), k)))) == block_of(s, k),
{
    let t = inv_mix_columns_3_spec(s);
    lemma_round_lengths(3, s);
    assert(t == inv_mix_spec(3, s));
    lemma_mix_columns_3_inv_mix_columns_3(s);
    lemma_mix_columns_3_blocks(t);
    assert forall|k: int| 0 <= k < 8 implies #[trigger] aes_shift_rows_n(1, aes_mix_columns(aes_shift_rows_n(3, block_of(inv_mix_columns_3_spec(s), k)))) == block_of(s, k) by {
        assert(block_of(mix_columns_3_spec(t), k) == block_of(s, k));
    }
}

} // verus!

//! The fixsliced key schedules compute the AES key expansion of the
//! standard: every round key they store is the round key of the standard,
//! laid out as `fixsliced_keys_hold` says.

use vstd::prelude::*;
use crate::lane::{Lane, bit_of, lemma_bit_of_ops};
use crate::keys::{
    xor_columns_cell, xor_columns_spec, window, with_window, add_rcon_bit_spec, rcon_cell_mask, sbox_window,
    ks128_round, ks128_expand, initial_keys, zero_lanes, map_shift, map_nots, realign, nots_windows,
    aes128_key_schedule_spec, ks256_step, ks256_expand, aes256_key_schedule_spec,
};
use crate::bitslice::{bitslice_same, lemma_inv_bitslice_bitslice};
use crate::block_cipher::{
    bitslice_batch, lemma_bitslice_batch_len, is_batch, aes128_encrypt_spec, aes128_decrypt_spec, aes256_encrypt_spec,
    aes256_decrypt_spec,
};
use crate::sbox::{cell_of, sub_bytes_spec, sub_bytes_nots_spec, lemma_sub_bytes_sbox};
use crate::layout::{pos, lemma_nots_cell, lemma_inv_bitslice_len};
use crate::block_cipher::lemma_round_lengths;
use crate::gf::gather8;
use crate::equivalence::{
    block_of, byte_cell, lemma_block_byte, lemma_gather8_xor, lemma_const_bytes, lemma_block_shift_rows,
    lemma_shift_rows_n_zero, key_block, fixsliced_round_key, fixsliced_keys_hold, lemma_aes128_is_aes, lemma_aes256_is_aes,
};
use crate::shift_rows::shift_rows_state;
use crate::standard::{
    aes_key_step, aes_sub_bytes, aes_rcon, aes_rot_sub_word, aes128_round_key, aes128_round_keys, aes_xor_const, aes_sub_word, aes256_round_key, aes256_round_keys, aes_encrypt_block,
};
use crate::gf::aes_sbox;

verus! {

/// A bit of a plane after `xor_columns`: the bits of `prev` in the same row
/// at columns `c, c - 1, ..., 0` (the row prefix), then the bit of `cur`
/// that the rotation brings to column 0 of the row.
proof fn lemma_xor_columns_bits(prev: u128, cur: u128, q: u128)
    requires
        q < 128,
    ensures
        ({
            let c = (q / 8) % 4;
            let pre = if c == 0 {
                bit_of(prev, q)
            } else if c == 1 {
                bit_of(prev, q) ^ bit_of(prev, (q - 8) as u128)
            } else if c == 2 {
                bit_of(prev, q) ^ bit_of(prev, (q - 8) as u128) ^ bit_of(prev, (q - 16) as u128)
            } else {
                bit_of(prev, q) ^ bit_of(prev, (q - 8) as u128) ^ bit_of(prev, (q - 16) as u128) ^ bit_of(
                    prev,
                    (q - 24) as u128,
                )
            };
            &&& bit_of(xor_columns_cell(prev, cur, 7), q) == pre ^ bit_of(cur, ((q - 8 * c + 56) % 128) as u128)
            &&& bit_of(xor_columns_cell(prev, cur, 3), q) == pre ^ bit_of(cur, ((q - 8 * c + 24) % 128) as u128)
        }),
{
    assert({
        let c = (q / 8) % 4;
        let pre = if c == 0 {
            bit_of(prev, q)
        } else if c == 1 {
            bit_of(prev, q) ^ bit_of(prev, (q - 8) as u128)
        } else if c == 2 {
            bit_of(prev, q) ^ bit_of(prev, (q - 8) as u128) ^ bit_of(prev, (q - 16) as u128)
        } else {
            bit_of(prev, q) ^ bit_of(prev, (q - 8) as u128) ^ bit_of(prev, (q - 16) as u128) ^ bit_of(
                prev,
                (q - 24) as u128,
            )
        };
        &&& bit_of(xor_columns_cell(prev, cur, 7), q) == pre ^ bit_of(cur, ((q - 8 * c + 56) % 128) as u128)
        &&& bit_of(xor_columns_cell(prev, cur, 3), q) == pre ^ bit_of(cur, ((q - 8 * c + 24) % 128) as u128)
    }) by (bit_vector)
        requires
            q < 128,
    ;
}

/// The word that `xor_columns` adds in, read from the block `b` after the
/// S-box: rotated by one row for a rotation of seven bytes, in place for a
/// rotation of three.
pub open spec fn key_temp(b: Seq<u8>, ror: usize) -> Seq<u8> {
    Seq::new(4, |r: int| if ror == 7 { b[12 + (r + 1) % 4] } else { b[12 + r] })
}

/// `lemma_key_step_byte` for a byte in column 0.
#[verifier::rlimit(40)]
proof fn lemma_key_step_byte_0(p: Seq<Lane>, cu: Seq<Lane>, w: Seq<Lane>, ror: usize, k: int, j: int)
    requires
        p.len() == 8,
        cu.len() == 8,
        w.len() == 8,
        ror == 7 || ror == 3,
        0 <= k < 8,
        0 <= j < 16,
        j / 4 == 0,
        forall|i: int| 0 <= i < 8 ==> #[trigger] w[i].0 == xor_columns_cell(p[i].0, cu[i].0, ror),
    ensures
        block_of(w, k)[j] == aes_key_step(block_of(p, k), key_temp(block_of(cu, k), ror))[j],
{
    let r = j % 4;
    let q = pos(byte_cell(j), k);
    let qr = if ror == 7 { pos(byte_cell(12 + (r + 1) % 4), k) } else { pos(byte_cell(12 + r), k) };
    assert(q < 128 && qr < 128);
    assert((q / 8) % 4 == 0);
    assert(qr == if ror == 7 { ((q - 8 * 0 + 56) % 128) as u128 } else { ((q - 8 * 0 + 24) % 128) as u128 });
    lemma_xor_columns_bits(p[0].0, cu[0].0, q);
    assert(w[0].0 == xor_columns_cell(p[0].0, cu[0].0, ror));
    lemma_bit_of_ops(p[0].0, p[0].0, q);
    lemma_bit_of_ops(cu[0].0, cu[0].0, qr);
    lemma_xor_columns_bits(p[1].0, cu[1].0, q);
    assert(w[1].0 == xor_columns_cell(p[1].0, cu[1].0, ror));
    lemma_bit_of_ops(p[1].0, p[1].0, q);
    lemma_bit_of_ops(cu[1].0, cu[1].0, qr);
    lemma_xor_columns_bits(p[2].0, cu[2].0, q);
    assert(w[2].0 == xor_columns_cell(p[2].0, cu[2].0, ror));
    lemma_bit_of_ops(p[2].0, p[2].0, q);
    lemma_bit_of_ops(cu[2].0, cu[2].0, qr);
    lemma_xor_columns_bits(p[3].0, cu[3].0, q);
    assert(w[3].0 == xor_columns_cell(p[3].0, cu[3].0, ror));
    lemma_bit_of_ops(p[3].0, p[3].0, q);
    lemma_bit_of_ops(cu[3].0, cu[3].0, qr);
    lemma_xor_columns_bits(p[4].0, cu[4].0, q);
    assert(w[4].0 == xor_columns_cell(p[4].0, cu[4].0, ror));
    lemma_bit_of_ops(p[4].0, p[4].0, q);
    lemma_bit_of_ops(cu[4].0, cu[4].0, qr);
    lemma_xor_columns_bits(p[5].0, cu[5].0, q);
    assert(w[5].0 == xor_columns_cell(p[5].0, cu[5].0, ror));
    lemma_bit_of_ops(p[5].0, p[5].0, q);
    lemma_bit_of_ops(cu[5].0, cu[5].0, qr);
    lemma_xor_columns_bits(p[6].0, cu[6].0, q);
    assert(w[6].0 == xor_columns_cell(p[6].0, cu[6].0, ror));
    lemma_bit_of_ops(p[6].0, p[6].0, q);
    lemma_bit_of_ops(cu[6].0, cu[6].0, qr);
    lemma_xor_columns_bits(p[7].0, cu[7].0, q);
    assert(w[7].0 == xor_columns_cell(p[7].0, cu[7].0, ror));
    lemma_bit_of_ops(p[7].0, p[7].0, q);
    lemma_bit_of_ops(cu[7].0, cu[7].0, qr);
    lemma_gather8_xor(
        bit_of(p[0].0, q),
        bit_of(p[1].0, q),
        bit_of(p[2].0, q),
        bit_of(p[3].0, q),
        bit_of(p[4].0, q),
        bit_of(p[5].0, q),
        bit_of(p[6].0, q),
        bit_of(p[7].0, q),
        bit_of(cu[0].0, qr),
        bit_of(cu[1].0, qr),
        bit_of(cu[2].0, qr),
        bit_of(cu[3].0, qr),
        bit_of(cu[4].0, qr),
        bit_of(cu[5].0, qr),
        bit_of(cu[6].0, qr),
        bit_of(cu[7].0, qr),
    );
    lemma_block_byte(p, k, j - 0);
    lemma_block_byte(w, k, j);
    if ror == 7 {
        lemma_block_byte(cu, k, 12 + (r + 1) % 4);
    } else {
        lemma_block_byte(cu, k, 12 + r);
    }
}

/// `lemma_key_step_byte` for a byte in column 1.
#[verifier::rlimit(40)]
proof fn lemma_key_step_byte_1(p: Seq<Lane>, cu: Seq<Lane>, w: Seq<Lane>, ror: usize, k: int, j: int)
    requires
        p.len() == 8,
        cu.len() == 8,
        w.len() == 8,
        ror == 7 || ror == 3,
        0 <= k < 8,
        0 <= j < 16,
        j / 4 == 1,
        forall|i: int| 0 <= i < 8 ==> #[trigger] w[i].0 == xor_columns_cell(p[i].0, cu[i].0, ror),
    ensures
        block_of(w, k)[j] == aes_key_step(block_of(p, k), key_temp(block_of(cu, k), ror))[j],
{
    let r = j % 4;
    let q = pos(byte_cell(j), k);
    let qr = if ror == 7 { pos(byte_cell(12 + (r + 1) % 4), k) } else { pos(byte_cell(12 + r), k) };
    assert(q < 128 && qr < 128);
    assert((q / 8) % 4 == 1);
    assert(qr == if ror == 7 { ((q - 8 * 1 + 56) % 128) as u128 } else { ((q - 8 * 1 + 24) % 128) as u128 });
    lemma_xor_columns_bits(p[0].0, cu[0].0, q);
    assert(w[0].0 == xor_columns_cell(p[0].0, cu[0].0, ror));
    lemma_bit_of_ops(p[0].0, p[0].0, q);
    lemma_bit_of_ops(p[0].0, p[0].0, (q - 8) as u128);
    lemma_bit_of_ops(cu[0].0, cu[0].0, qr);
    lemma_xor_columns_bits(p[1].0, cu[1].0, q);
    assert(w[1].0 == xor_columns_cell(p[1].0, cu[1].0, ror));
    lemma_bit_of_ops(p[1].0, p[1].0, q);
    lemma_bit_of_ops(p[1].0, p[1].0, (q - 8) as u128);
    lemma_bit_of_ops(cu[1].0, cu[1].0, qr);
    lemma_xor_columns_bits(p[2].0, cu[2].0, q);
    assert(w[2].0 == xor_columns_cell(p[2].0, cu[2].0, ror));
    lemma_bit_of_ops(p[2].0, p[2].0, q);
    lemma_bit_of_ops(p[2].0, p[2].0, (q - 8) as u128);
    lemma_bit_of_ops(cu[2].0, cu[2].0, qr);
    lemma_xor_columns_bits(p[3].0, cu[3].0, q);
    assert(w[3].0 == xor_columns_cell(p[3].0, cu[3].0, ror));
    lemma_bit_of_ops(p[3].0, p[3].0, q);
    lemma_bit_of_ops(p[3].0, p[3].0, (q - 8) as u128);
    lemma_bit_of_ops(cu[3].0, cu[3].0, qr);
    lemma_xor_columns_bits(p[4].0, cu[4].0, q);
    assert(w[4].0 == xor_columns_cell(p[4].0, cu[4].0, ror));
    lemma_bit_of_ops(p[4].0, p[4].0, q);
    lemma_bit_of_ops(p[4].0, p[4].0, (q - 8) as u128);
    lemma_bit_of_ops(cu[4].0, cu[4].0, qr);
    lemma_xor_columns_bits(p[5].0, cu[5].0, q);
    assert(w[5].0 == xor_columns_cell(p[5].0, cu[5].0, ror));
    lemma_bit_of_ops(p[5].0, p[5].0, q);
    lemma_bit_of_ops(p[5].0, p[5].0, (q - 8) as u128);
    lemma_bit_of_ops(cu[5].0, cu[5].0, qr);
    lemma_xor_columns_bits(p[6].0, cu[6].0, q);
    assert(w[6].0 == xor_columns_cell(p[6].0, cu[6].0, ror));
    lemma_bit_of_ops(p[6].0, p[6].0, q);
    lemma_bit_of_ops(p[6].0, p[6].0, (q - 8) as u128);
    lemma_bit_of_ops(cu[6].0, cu[6].0, qr);
    lemma_xor_columns_bits(p[7].0, cu[7].0, q);
    assert(w[7].0 == xor_columns_cell(p[7].0, cu[7].0, ror));
    lemma_bit_of_ops(p[7].0, p[7].0, q);
    lemma_bit_of_ops(p[7].0, p[7].0, (q - 8) as u128);
    lemma_bit_of_ops(cu[7].0, cu[7].0, qr);
    lemma_gather8_xor(
        bit_of(p[0].0, q),
        bit_of(p[1].0, q),
        bit_of(p[2].0, q),
        bit_of(p[3].0, q),
        bit_of(p[4].0, q),
        bit_of(p[5].0, q),
        bit_of(p[6].0, q),
        bit_of(p[7].0, q),
        bit_of(p[0].0, (q - 8) as u128),
        bit_of(p[1].0, (q - 8) as u128),
        bit_of(p[2].0, (q - 8) as u128),
        bit_of(p[3].0, (q - 8) as u128),
        bit_of(p[4].0, (q - 8) as u128),
        bit_of(p[5].0, (q - 8) as u128),
        bit_of(p[6].0, (q - 8) as u128),
        bit_of(p[7].0, (q - 8) as u128),
    );
    lemma_gather8_xor(
        bit_of(p[0].0, q) ^ bit_of(p[0].0, (q - 8) as u128),
        bit_of(p[1].0, q) ^ bit_of(p[1].0, (q - 8) as u128),
        bit_of(p[2].0, q) ^ bit_of(p[2].0, (q - 8) as u128),
        bit_of(p[3].0, q) ^ bit_of(p[3].0, (q - 8) as u128),
        bit_of(p[4].0, q) ^ bit_of(p[4].0, (q - 8) as u128),
        bit_of(p[5].0, q) ^ bit_of(p[5].0, (q - 8) as u128),
        bit_of(p[6].0, q) ^ bit_of(p[6].0, (q - 8) as u128),
        bit_of(p[7].0, q) ^ bit_of(p[7].0, (q - 8) as u128),
        bit_of(cu[0].0, qr),
        bit_of(cu[1].0, qr),
        bit_of(cu[2].0, qr),
        bit_of(cu[3].0, qr),
        bit_of(cu[4].0, qr),
        bit_of(cu[5].0, qr),
        bit_of(cu[6].0, qr),
        bit_of(cu[7].0, qr),
    );
    lemma_block_byte(p, k, j - 0);
    lemma_block_byte(p, k, j - 4);
    assert(pos(byte_cell(j - 4), k) == (q - 8) as u128);
    lemma_block_byte(w, k, j);
    if ror == 7 {
        lemma_block_byte(cu, k, 12 + (r + 1) % 4);
    } else {
        lemma_block_byte(cu, k, 12 + r);
    }
}

/// `lemma_key_step_byte` for a byte in column 2.
#[verifier::rlimit(40)]
proof fn lemma_key_step_byte_2(p: Seq<Lane>, cu: Seq<Lane>, w: Seq<Lane>, ror: usize, k: int, j: int)
    requires
        p.len() == 8,
        cu.len() == 8,
        w.len() == 8,
        ror == 7 || ror == 3,
        0 <= k < 8,
        0 <= j < 16,
        j / 4 == 2,
        forall|i: int| 0 <= i < 8 ==> #[trigger] w[i].0 == xor_columns_cell(p[i].0, cu[i].0, ror),
    ensures
        block_of(w, k)[j] == aes_key_step(block_of(p, k), key_temp(block_of(cu, k), ror))[j],
{
    let r = j % 4;
    let q = pos(byte_cell(j), k);
    let qr = if ror == 7 { pos(byte_cell(12 + (r + 1) % 4), k) } else { pos(byte_cell(12 + r), k) };
    assert(q < 128 && qr < 128);
    assert((q / 8) % 4 == 2);
    assert(qr == if ror == 7 { ((q - 8 * 2 + 56) % 128) as u128 } else { ((q - 8 * 2 + 24) % 128) as u128 });
    lemma_xor_columns_bits(p[0].0, cu[0].0, q);
    assert(w[0].0 == xor_columns_cell(p[0].0, cu[0].0, ror));
    lemma_bit_of_ops(p[0].0, p[0].0, q);
    lemma_bit_of_ops(p[0].0, p[0].0, (q - 8) as u128);
    lemma_bit_of_ops(p[0].0, p[0].0, (q - 16) as u128);
    lemma_bit_of_ops(cu[0].0, cu[0].0, qr);
    lemma_xor_columns_bits(p[1].0, cu[1].0, q);
    assert(w[1].0 == xor_columns_cell(p[1].0, cu[1].0, ror));
    lemma_bit_of_ops(p[1].0, p[1].0, q);
    lemma_bit_of_ops(p[1].0, p[1].0, (q - 8) as u128);
    lemma_bit_of_ops(p[1].0, p[1].0, (q - 16) as u128);
    lemma_bit_of_ops(cu[1].0, cu[1].0, qr);
    lemma_xor_columns_bits(p[2].0, cu[2].0, q);
    assert(w[2].0 == xor_columns_cell(p[2].0, cu[2].0, ror));
    lemma_bit_of_ops(p[2].0, p[2].0, q);
    lemma_bit_of_ops(p[2].0, p[2].0, (q - 8) as u128);
    lemma_bit_of_ops(p[2].0, p[2].0, (q - 16) as u128);
    lemma_bit_of_ops(cu[2].0, cu[2].0, qr);
    lemma_xor_columns_bits(p[3].0, cu[3].0, q);
    assert(w[3].0 == xor_columns_cell(p[3].0, cu[3].0, ror));
    lemma_bit_of_ops(p[3].0, p[3].0, q);
    lemma_bit_of_ops(p[3].0, p[3].0, (q - 8) as u128);
    lemma_bit_of_ops(p[3].0, p[3].0, (q - 16) as u128);
    lemma_bit_of_ops(cu[3].0, cu[3].0, qr);
    lemma_xor_columns_bits(p[4].0, cu[4].0, q);
    assert(w[4].0 == xor_columns_cell(p[4].0, cu[4].0, ror));
    lemma_bit_of_ops(p[4].0, p[4].0, q);
    lemma_bit_of_ops(p[4].0, p[4].0, (q - 8) as u128);
    lemma_bit_of_ops(p[4].0, p[4].0, (q - 16) as u128);
    lemma_bit_of_ops(cu[4].0, cu[4].0, qr);
    lemma_xor_columns_bits(p[5].0, cu[5].0, q);
    assert(w[5].0 == xor_columns_cell(p[5].0, cu[5].0, ror));
    lemma_bit_of_ops(p[5].0, p[5].0, q);
    lemma_bit_of_ops(p[5].0, p[5].0, (q - 8) as u128);
    lemma_bit_of_ops(p[5].0, p[5].0, (q - 16) as u128);
    lemma_bit_of_ops(cu[5].0, cu[5].0, qr);
    lemma_xor_columns_bits(p[6].0, cu[6].0, q);
    assert(w[6].0 == xor_columns_cell(p[6].0, cu[6].0, ror));
    lemma_bit_of_ops(p[6].0, p[6].0, q);
    lemma_bit_of_ops(p[6].0, p[6].0, (q - 8) as u128);
    lemma_bit_of_ops(p[6].0, p[6].0, (q - 16) as u128);
    lemma_bit_of_ops(cu[6].0, cu[6].0, qr);
    lemma_xor_columns_bits(p[7].0, cu[7].0, q);
    assert(w[7].0 == xor_columns_cell(p[7].0, cu[7].0, ror));
    lemma_bit_of_ops(p[7].0, p[7].0, q);
    lemma_bit_of_ops(p[7].0, p[7].0, (q - 8) as u128);
    lemma_bit_of_ops(p[7].0, p[7].0, (q - 16) as u128);
    lemma_bit_of_ops(cu[7].0, cu[7].0, qr);
    lemma_gather8_xor(
        bit_of(p[0].0, q),
        bit_of(p[1].0, q),
        bit_of(p[2].0, q),
        bit_of(p[3].0, q),
        bit_of(p[4].0, q),
        bit_of(p[5].0, q),
        bit_of(p[6].0, q),
        bit_of(p[7].0, q),
        bit_of(p[0].0, (q - 8) as u128),
        bit_of(p[1].0, (q - 8) as u128),
        bit_of(p[2].0, (q - 8) as u128),
        bit_of(p[3].0, (q - 8) as u128),
        bit_of(p[4].0, (q - 8) as u128),
        bit_of(p[5].0, (q - 8) as u128),
        bit_of(p[6].0, (q - 8) as u128),
        bit_of(p[7].0, (q - 8) as u128),
    );
    lemma_gather8_xor(
        bit_of(p[0].0, q) ^ bit_of(p[0].0, (q - 8) as u128),
        bit_of(p[1].0, q) ^ bit_of(p[1].0, (q - 8) as u128),
        bit_of(p[2].0, q) ^ bit_of(p[2].0, (q - 8) as u128),
        bit_of(p[3].0, q) ^ bit_of(p[3].0, (q - 8) as u128),
        bit_of(p[4].0, q) ^ bit_of(p[4].0, (q - 8) as u128),
        bit_of(p[5].0, q) ^ bit_of(p[5].0, (q - 8) as u128),
        bit_of(p[6].0, q) ^ bit_of(p[6].0, (q - 8) as u128),
        bit_of(p[7].0, q) ^ bit_of(p[7].0, (q - 8) as u128),
        bit_of(p[0].0, (q - 16) as u128),
        bit_of(p[1].0, (q - 16) as u128),
        bit_of(p[2].0, (q - 16) as u128),
        bit_of(p[3].0, (q - 16) as u128),
        bit_of(p[4].0, (q - 16) as u128),
        bit_of(p[5].0, (q - 16) as u128),
        bit_of(p[6].0, (q - 16) as u128),
        bit_of(p[7].0, (q - 16) as u128),
    );
    lemma_gather8_xor(
        bit_of(p[0].0, q) ^ bit_of(p[0].0, (q - 8) as u128) ^ bit_of(p[0].0, (q - 16) as u128),
        bit_of(p[1].0, q) ^ bit_of(p[1].0, (q - 8) as u128) ^ bit_of(p[1].0, (q - 16) as u128),
        bit_of(p[2].0, q) ^ bit_of(p[2].0, (q - 8) as u128) ^ bit_of(p[2].0, (q - 16) as u128),
        bit_of(p[3].0, q) ^ bit_of(p[3].0, (q - 8) as u128) ^ bit_of(p[3].0, (q - 16) as u128),
        bit_of(p[4].0, q) ^ bit_of(p[4].0, (q - 8) as u128) ^ bit_of(p[4].0, (q - 16) as u128),
        bit_of(p[5].0, q) ^ bit_of(p[5].0, (q - 8) as u128) ^ bit_of(p[5].0, (q - 16) as u128),
        bit_of(p[6].0, q) ^ bit_of(p[6].0, (q - 8) as u128) ^ bit_of(p[6].0, (q - 16) as u128),
        bit_of(p[7].0, q) ^ bit_of(p[7].0, (q - 8) as u128) ^ bit_of(p[7].0, (q - 16) as u128),
        bit_of(cu[0].0, qr),
        bit_of(cu[1].0, qr),
        bit_of(cu[2].0, qr),
        bit_of(cu[3].0, qr),
        bit_of(cu[4].0, qr),
        bit_of(cu[5].0, qr),
        bit_of(cu[6].0, qr),
        bit_of(cu[7].0, qr),
    );
    lemma_block_byte(p, k, j - 0);
    lemma_block_byte(p, k, j - 4);
    assert(pos(byte_cell(j - 4), k) == (q - 8) as u128);
    lemma_block_byte(p, k, j - 8);
    assert(pos(byte_cell(j - 8), k) == (q - 16) as u128);
    lemma_block_byte(w, k, j);
    if ror == 7 {
        lemma_block_byte(cu, k, 12 + (r + 1) % 4);
    } else {
        lemma_block_byte(cu, k, 12 + r);
    }
}

/// `lemma_key_step_byte` for a byte in column 3.
#[verifier::rlimit(40)]
proof fn lemma_key_step_byte_3(p: Seq<Lane>, cu: Seq<Lane>, w: Seq<Lane>, ror: usize, k: int, j: int)
    requires
        p.len() == 8,
        cu.len() == 8,
        w.len() == 8,
        ror == 7 || ror == 3,
        0 <= k < 8,
        0 <= j < 16,
        j / 4 == 3,
        forall|i: int| 0 <= i < 8 ==> #[trigger] w[i].0 == xor_columns_cell(p[i].0, cu[i].0, ror),
    ensures
        block_of(w, k)[j] == aes_key_step(block_of(p, k), key_temp(block_of(cu, k), ror))[j],
{
    let r = j % 4;
    let q = pos(byte_cell(j), k);
    let qr = if ror == 7 { pos(byte_cell(12 + (r + 1) % 4), k) } else { pos(byte_cell(12 + r), k) };
    assert(q < 128 && qr < 128);
    assert((q / 8) % 4 == 3);
    assert(qr == if ror == 7 { ((q - 8 * 3 + 56) % 128) as u128 } else { ((q - 8 * 3 + 24) % 128) as u128 });
    lemma_xor_columns_bits(p[0].0, cu[0].0, q);
    assert(w[0].0 == xor_columns_cell(p[0].0, cu[0].0, ror));
    lemma_bit_of_ops(p[0].0, p[0].0, q);
    lemma_bit_of_ops(p[0].0, p[0].0, (q - 8) as u128);
    lemma_bit_of_ops(p[0].0, p[0].0, (q - 16) as u128);
    lemma_bit_of_ops(p[0].0, p[0].0, (q - 24) as u128);
    lemma_bit_of_ops(cu[0].0, cu[0].0, qr);
    lemma_xor_columns_bits(p[1].0, cu[1].0, q);
    assert(w[1].0 == xor_columns_cell(p[1].0, cu[1].0, ror));
    lemma_bit_of_ops(p[1].0, p[1].0, q);
    lemma_bit_of_ops(p[1].0, p[1].0, (q - 8) as u128);
    lemma_bit_of_ops(p[1].0, p[1].0, (q - 16) as u128);
    lemma_bit_of_ops(p[1].0, p[1].0, (q - 24) as u128);
    lemma_bit_of_ops(cu[1].0, cu[1].0, qr);
    lemma_xor_columns_bits(p[2].0, cu[2].0, q);
    assert(w[2].0 == xor_columns_cell(p[2].0, cu[2].0, ror));
    lemma_bit_of_ops(p[2].0, p[2].0, q);
    lemma_bit_of_ops(p[2].0, p[2].0, (q - 8) as u128);
    lemma_bit_of_ops(p[2].0, p[2].0, (q - 16) as u128);
    lemma_bit_of_ops(p[2].0, p[2].0, (q - 24) as u128);
    lemma_bit_of_ops(cu[2].0, cu[2].0, qr);
    lemma_xor_columns_bits(p[3].0, cu[3].0, q);
    assert(w[3].0 == xor_columns_cell(p[3].0, cu[3].0, ror));
    lemma_bit_of_ops(p[3].0, p[3].0, q);
    lemma_bit_of_ops(p[3].0, p[3].0, (q - 8) as u128);
    lemma_bit_of_ops(p[3].0, p[3].0, (q - 16) as u128);
    lemma_bit_of_ops(p[3].0, p[3].0, (q - 24) as u128);
    lemma_bit_of_ops(cu[3].0, cu[3].0, qr);
    lemma_xor_columns_bits(p[4].0, cu[4].0, q);
    assert(w[4].0 == xor_columns_cell(p[4].0, cu[4].0, ror));
    lemma_bit_of_ops(p[4].0, p[4].0, q);
    lemma_bit_of_ops(p[4].0, p[4].0, (q - 8) as u128);
    lemma_bit_of_ops(p[4].0, p[4].0, (q - 16) as u128);
    lemma_bit_of_ops(p[4].0, p[4].0, (q - 24) as u128);
    lemma_bit_of_ops(cu[4].0, cu[4].0, qr);
    lemma_xor_columns_bits(p[5].0, cu[5].0, q);
    assert(w[5].0 == xor_columns_cell(p[5].0, cu[5].0, ror));
    lemma_bit_of_ops(p[5].0, p[5].0, q);
    lemma_bit_of_ops(p[5].0, p[5].0, (q - 8) as u128);
    lemma_bit_of_ops(p[5].0, p[5].0, (q - 16) as u128);
    lemma_bit_of_ops(p[5].0, p[5].0, (q - 24) as u128);
    lemma_bit_of_ops(cu[5].0, cu[5].0, qr);
    lemma_xor_columns_bits(p[6].0, cu[6].0, q);
    assert(w[6].0 == xor_columns_cell(p[6].0, cu[6].0, ror));
    lemma_bit_of_ops(p[6].0, p[6].0, q);
    lemma_bit_of_ops(p[6].0, p[6].0, (q - 8) as u128);
    lemma_bit_of_ops(p[6].0, p[6].0, (q - 16) as u128);
    lemma_bit_of_ops(p[6].0, p[6].0, (q - 24) as u128);
    lemma_bit_of_ops(cu[6].0, cu[6].0, qr);
    lemma_xor_columns_bits(p[7].0, cu[7].0, q);
    assert(w[7].0 == xor_columns_cell(p[7].0, cu[7].0, ror));
    lemma_bit_of_ops(p[7].0, p[7].0, q);
    lemma_bit_of_ops(p[7].0, p[7].0, (q - 8) as u128);
    lemma_bit_of_ops(p[7].0, p[7].0, (q - 16) as u128);
    lemma_bit_of_ops(p[7].0, p[7].0, (q - 24) as u128);
    lemma_bit_of_ops(cu[7].0, cu[7].0, qr);
    lemma_gather8_xor(
        bit_of(p[0].0, q),
        bit_of(p[1].0, q),
        bit_of(p[2].0, q),
        bit_of(p[3].0, q),
        bit_of(p[4].0, q),
        bit_of(p[5].0, q),
        bit_of(p[6].0, q),
        bit_of(p[7].0, q),
        bit_of(p[0].0, (q - 8) as u128),
        bit_of(p[1].0, (q - 8) as u128),
        bit_of(p[2].0, (q - 8) as u128),
        bit_of(p[3].0, (q - 8) as u128),
        bit_of(p[4].0, (q - 8) as u128),
        bit_of(p[5].0, (q - 8) as u128),
        bit_of(p[6].0, (q - 8) as u128),
        bit_of(p[7].0, (q - 8) as u128),
    );
    lemma_gather8_xor(
        bit_of(p[0].0, q) ^ bit_of(p[0].0, (q - 8) as u128),
        bit_of(p[1].0, q) ^ bit_of(p[1].0, (q - 8) as u128),
        bit_of(p[2].0, q) ^ bit_of(p[2].0, (q - 8) as u128),
        bit_of(p[3].0, q) ^ bit_of(p[3].0, (q - 8) as u128),
        bit_of(p[4].0, q) ^ bit_of(p[4].0, (q - 8) as u128),
        bit_of(p[5].0, q) ^ bit_of(p[5].0, (q - 8) as u128),
        bit_of(p[6].0, q) ^ bit_of(p[6].0, (q - 8) as u128),
        bit_of(p[7].0, q) ^ bit_of(p[7].0, (q - 8) as u128),
        bit_of(p[0].0, (q - 16) as u128),
        bit_of(p[1].0, (q - 16) as u128),
        bit_of(p[2].0, (q - 16) as u128),
        bit_of(p[3].0, (q - 16) as u128),
        bit_of(p[4].0, (q - 16) as u128),
        bit_of(p[5].0, (q - 16) as u128),
        bit_of(p[6].0, (q - 16) as u128),
        bit_of(p[7].0, (q - 16) as u128),
    );
    lemma_gather8_xor(
        bit_of(p[0].0, q) ^ bit_of(p[0].0, (q - 8) as u128) ^ bit_of(p[0].0, (q - 16) as u128),
        bit_of(p[1].0, q) ^ bit_of(p[1].0, (q - 8) as u128) ^ bit_of(p[1].0, (q - 16) as u128),
        bit_of(p[2].0, q) ^ bit_of(p[2].0, (q - 8) as u128) ^ bit_of(p[2].0, (q - 16) as u128),
        bit_of(p[3].0, q) ^ bit_of(p[3].0, (q - 8) as u128) ^ bit_of(p[3].0, (q - 16) as u128),
        bit_of(p[4].0, q) ^ bit_of(p[4].0, (q - 8) as u128) ^ bit_of(p[4].0, (q - 16) as u128),
        bit_of(p[5].0, q) ^ bit_of(p[5].0, (q - 8) as u128) ^ bit_of(p[5].0, (q - 16) as u128),
        bit_of(p[6].0, q) ^ bit_of(p[6].0, (q - 8) as u128) ^ bit_of(p[6].0, (q - 16) as u128),
        bit_of(p[7].0, q) ^ bit_of(p[7].0, (q - 8) as u128) ^ bit_of(p[7].0, (q - 16) as u128),
        bit_of(p[0].0, (q - 24) as u128),
        bit_of(p[1].0, (q - 24) as u128),
        bit_of(p[2].0, (q - 24) as u128),
        bit_of(p[3].0, (q - 24) as u128),
        bit_of(p[4].0, (q - 24) as u128),
        bit_of(p[5].0, (q - 24) as u128),
        bit_of(p[6].0, (q - 24) as u128),
        bit_of(p[7].0, (q - 24) as u128),
    );
    lemma_gather8_xor(
        bit_of(p[0].0, q) ^ bit_of(p[0].0, (q - 8) as u128) ^ bit_of(p[0].0, (q - 16) as u128) ^ bit_of(p[0].0, (q - 24) as u128),
        bit_of(p[1].0, q) ^ bit_of(p[1].0, (q - 8) as u128) ^ bit_of(p[1].0, (q - 16) as u128) ^ bit_of(p[1].0, (q - 24) as u128),
        bit_of(p[2].0, q) ^ bit_of(p[2].0, (q - 8) as u128) ^ bit_of(p[2].0, (q - 16) as u128) ^ bit_of(p[2].0, (q - 24) as u128),
        bit_of(p[3].0, q) ^ bit_of(p[3].0, (q - 8) as u128) ^ bit_of(p[3].0, (q - 16) as u128) ^ bit_of(p[3].0, (q - 24) as u128),
        bit_of(p[4].0, q) ^ bit_of(p[4].0, (q - 8) as u128) ^ bit_of(p[4].0, (q - 16) as u128) ^ bit_of(p[4].0, (q - 24) as u128),
        bit_of(p[5].0, q) ^ bit_of(p[5].0, (q - 8) as u128) ^ bit_of(p[5].0, (q - 16) as u128) ^ bit_of(p[5].0, (q - 24) as u128),
        bit_of(p[6].0, q) ^ bit_of(p[6].0, (q - 8) as u128) ^ bit_of(p[6].0, (q - 16) as u128) ^ bit_of(p[6].0, (q - 24) as u128),
        bit_of(p[7].0, q) ^ bit_of(p[7].0, (q - 8) as u128) ^ bit_of(p[7].0, (q - 16) as u128) ^ bit_of(p[7].0, (q - 24) as u128),
        bit_of(cu[0].0, qr),
        bit_of(cu[1].0, qr),
        bit_of(cu[2].0, qr),
        bit_of(cu[3].0, qr),
        bit_of(cu[4].0, qr),
        bit_of(cu[5].0, qr),
        bit_of(cu[6].0, qr),
        bit_of(cu[7].0, qr),
    );
    lemma_block_byte(p, k, j - 0);
    lemma_block_byte(p, k, j - 4);
    assert(pos(byte_cell(j - 4), k) == (q - 8) as u128);
    lemma_block_byte(p, k, j - 8);
    assert(pos(byte_cell(j - 8), k) == (q - 16) as u128);
    lemma_block_byte(p, k, j - 12);
    assert(pos(byte_cell(j - 12), k) == (q - 24) as u128);
    lemma_block_byte(w, k, j);
    if ror == 7 {
        lemma_block_byte(cu, k, 12 + (r + 1) % 4);
    } else {
        lemma_block_byte(cu, k, 12 + r);
    }
}

/// A byte of the round key that `xor_columns` writes: the key step of the
/// standard, from the round key it reads and the word it adds in.
pub proof fn lemma_key_step_byte(p: Seq<Lane>, cu: Seq<Lane>, w: Seq<Lane>, ror: usize, k: int, j: int)
    requires
        p.len() == 8,
        cu.len() == 8,
        w.len() == 8,
        ror == 7 || ror == 3,
        0 <= k < 8,
        0 <= j < 16,
        forall|i: int| 0 <= i < 8 ==> #[trigger] w[i].0 == xor_columns_cell(p[i].0, cu[i].0, ror),
    ensures
        block_of(w, k)[j] == aes_key_step(block_of(p, k), key_temp(block_of(cu, k), ror))[j],
{
    if j / 4 == 0 {
        lemma_key_step_byte_0(p, cu, w, ror, k, j);
    } else if j / 4 == 1 {
        lemma_key_step_byte_1(p, cu, w, ror, k, j);
    } else if j / 4 == 2 {
        lemma_key_step_byte_2(p, cu, w, ror, k, j);
    } else {
        lemma_key_step_byte_3(p, cu, w, ror, k, j);
    }
}

/// `xor_columns` rewrites the eight lanes at `offset`, plane `i` from the
/// lane `idx_xor` lanes before it and itself, and leaves the rest alone.
pub proof fn lemma_xor_columns_spec(buf: Seq<Lane>, offset: int, idx_xor: int, ror: usize, n: nat)
    requires
        8 <= idx_xor <= offset,
        offset + 8 <= buf.len(),
        n <= 8,
    ensures
        xor_columns_spec(buf, offset, idx_xor, ror, n).len() == buf.len(),
        forall|i: int|
            0 <= i < buf.len() ==> #[trigger] xor_columns_spec(buf, offset, idx_xor, ror, n)[i] == if offset <= i
                < offset + n {
                Lane(xor_columns_cell(buf[i - idx_xor].0, buf[i].0, ror))
            } else {
                buf[i]
            },
    decreases n,
{
    if n > 0 {
        lemma_xor_columns_spec(buf, offset, idx_xor, ror, (n - 1) as nat);
    }
}

/// The S-box of the key schedule is SubBytes on every block.
pub proof fn lemma_block_sbox_window(buf: Seq<Lane>, off: int, k: int)
    requires
        0 <= off,
        off + 8 <= buf.len(),
        0 <= k < 8,
    ensures
        sbox_window(buf, off).len() == 8,
        block_of(sbox_window(buf, off), k) == aes_sub_bytes(block_of(window(buf, off), k)),
{
    let w = window(buf, off);
    let t = sub_bytes_spec(w);
    lemma_round_lengths(0, w);
    let u = sbox_window(buf, off);
    lemma_inv_bitslice_len(u);
    lemma_inv_bitslice_len(w);
    assert forall|j: int| 0 <= j < 16 implies #[trigger] block_of(u, k)[j] == aes_sub_bytes(block_of(w, k))[j] by {
        lemma_block_byte(u, k, j);
        lemma_block_byte(w, k, j);
        let q = pos(byte_cell(j), k);
        lemma_sub_bytes_sbox(w, q);
        lemma_nots_cell(t, q, aes_sbox(cell_of(w, q)));
    }
    assert(block_of(u, k) =~= aes_sub_bytes(block_of(w, k)));
}

/// The bit of a round-constant mask, and the byte that a flipped bit makes.
proof fn lemma_rcon_bits(x: u128, q: u128, bit: u8, a0: u8, a1: u8, a2: u8, a3: u8, a4: u8, a5: u8, a6: u8, a7: u8, y: u8)
    requires
        q < 128,
        bit < 8,
        a0 <= 1, a1 <= 1, a2 <= 1, a3 <= 1, a4 <= 1, a5 <= 1, a6 <= 1, a7 <= 1,
    ensures
        bit_of(x ^ rcon_cell_mask(), q) == if q / 8 == 7 { bit_of(x, q) ^ 1u8 } else { bit_of(x, q) },
        gather8(
            if bit == 0 { a0 ^ 1u8 } else { a0 },
            if bit == 1 { a1 ^ 1u8 } else { a1 },
            if bit == 2 { a2 ^ 1u8 } else { a2 },
            if bit == 3 { a3 ^ 1u8 } else { a3 },
            if bit == 4 { a4 ^ 1u8 } else { a4 },
            if bit == 5 { a5 ^ 1u8 } else { a5 },
            if bit == 6 { a6 ^ 1u8 } else { a6 },
            if bit == 7 { a7 ^ 1u8 } else { a7 },
        ) == gather8(a0, a1, a2, a3, a4, a5, a6, a7) ^ (1u8 << bit),
        y ^ 0x01u8 ^ 0x02u8 ^ 0x08u8 ^ 0x10u8 == y ^ 0x1bu8,
        y ^ 0x02u8 ^ 0x04u8 ^ 0x10u8 ^ 0x20u8 == y ^ 0x36u8,
        (1u8 << bit) == aes_rcon(bit + 1),
{
    assert(bit_of(x ^ rcon_cell_mask(), q) == (if q / 8 == 7 { bit_of(x, q) ^ 1u8 } else { bit_of(x, q) })
        && gather8(
            if bit == 0 { a0 ^ 1u8 } else { a0 },
            if bit == 1 { a1 ^ 1u8 } else { a1 },
            if bit == 2 { a2 ^ 1u8 } else { a2 },
            if bit == 3 { a3 ^ 1u8 } else { a3 },
            if bit == 4 { a4 ^ 1u8 } else { a4 },
            if bit == 5 { a5 ^ 1u8 } else { a5 },
            if bit == 6 { a6 ^ 1u8 } else { a6 },
            if bit == 7 { a7 ^ 1u8 } else { a7 },
        ) == gather8(a0, a1, a2, a3, a4, a5, a6, a7) ^ (1u8 << bit)
        && y ^ 0x01u8 ^ 0x02u8 ^ 0x08u8 ^ 0x10u8 == y ^ 0x1bu8
        && y ^ 0x02u8 ^ 0x04u8 ^ 0x10u8 ^ 0x20u8 == y ^ 0x36u8
        && (1u8 << bit) == (if bit == 0 {
            0x01u8
        } else if bit == 1 {
            0x02u8
        } else if bit == 2 {
            0x04u8
        } else if bit == 3 {
            0x08u8
        } else if bit == 4 {
            0x10u8
        } else if bit == 5 {
            0x20u8
        } else if bit == 6 {
            0x40u8
        } else {
            0x80u8
        })) by (bit_vector)
        requires
            q < 128,
            bit < 8,
            a0 <= 1, a1 <= 1, a2 <= 1, a3 <= 1, a4 <= 1, a5 <= 1, a6 <= 1, a7 <= 1,
    ;
}

/// Adding round-constant bit `bit` flips that bit of byte 13 (row 1,
/// column 3) of every block and leaves the other bytes alone.
pub proof fn lemma_block_rcon_bit(s: Seq<Lane>, bit: int, k: int)
    requires
        s.len() == 8,
        0 <= bit < 8,
        0 <= k < 8,
    ensures
        add_rcon_bit_spec(s, bit).len() == 8,
        block_of(add_rcon_bit_spec(s, bit), k) == block_of(s, k).update(13, block_of(s, k)[13] ^ aes_rcon(bit + 1)),
{
    let t = add_rcon_bit_spec(s, bit);
    lemma_inv_bitslice_len(t);
    lemma_inv_bitslice_len(s);
    let b = bit as u8;
    assert forall|j: int| 0 <= j < 16 implies #[trigger] block_of(t, k)[j] == block_of(s, k).update(
        13,
        block_of(s, k)[13] ^ (1u8 << b),
    )[j] by {
        lemma_block_byte(t, k, j);
        lemma_block_byte(s, k, j);
        let q = pos(byte_cell(j), k);
        lemma_bit_of_ops(s[0].0, s[0].0, q);
        lemma_bit_of_ops(s[1].0, s[1].0, q);
        lemma_bit_of_ops(s[2].0, s[2].0, q);
        lemma_bit_of_ops(s[3].0, s[3].0, q);
        lemma_bit_of_ops(s[4].0, s[4].0, q);
        lemma_bit_of_ops(s[5].0, s[5].0, q);
        lemma_bit_of_ops(s[6].0, s[6].0, q);
        lemma_bit_of_ops(s[7].0, s[7].0, q);
        lemma_rcon_bits(s[bit].0, q, b, bit_of(s[0].0, q), bit_of(s[1].0, q), bit_of(s[2].0, q), bit_of(s[3].0, q),
            bit_of(s[4].0, q), bit_of(s[5].0, q), bit_of(s[6].0, q), bit_of(s[7].0, q), 0);
        if j == 13 {
            assert(q / 8 == 7);
        } else {
            assert(q / 8 != 7);
        }
    }
    lemma_rcon_bits(0, 0, b, 0, 0, 0, 0, 0, 0, 0, 0, 0);
    assert(block_of(t, k) =~= block_of(s, k).update(13, block_of(s, k)[13] ^ (1u8 << b)));
}

/// A window of a buffer after one window was written: the written one, or
/// the old contents for a window that does not overlap it.
pub proof fn lemma_window_with_window(buf: Seq<Lane>, off: int, w: Seq<Lane>, o: int)
    requires
        w.len() == 8,
        0 <= off,
        off + 8 <= buf.len(),
        0 <= o,
        o + 8 <= buf.len(),
        o == off || o + 8 <= off || off + 8 <= o,
    ensures
        with_window(buf, off, w).len() == buf.len(),
        window(with_window(buf, off, w), o) == if o == off { w } else { window(buf, o) },
{
    if o == off {
        assert(window(with_window(buf, off, w), o) =~= w);
    } else {
        assert(window(with_window(buf, off, w), o) =~= window(buf, o));
    }
}

/// The key of every block of `bitslice_same(key)` is `key`.
pub proof fn lemma_block_of_same(key: Seq<u8>, k: int)
    requires
        key.len() == 16,
        0 <= k < 8,
    ensures
        bitslice_same(key).len() == 8,
        block_of(bitslice_same(key), k) == key,
{
    let b = seq![key, key, key, key, key, key, key, key];
    assert(bitslice_batch(b) == bitslice_same(key));
    lemma_bitslice_batch_len(b);
    lemma_inv_bitslice_bitslice(key, key, key, key, key, key, key, key);
}

/// The word that round `rcon` of the AES-128 key schedule adds in, after
/// the S-box and the round constant.
proof fn lemma_ks128_temp(b1: Seq<Lane>, off: int, rcon: int, k: int) -> (w: Seq<Lane>)
    requires
        b1.len() == 88,
        off == 8 * rcon + 8,
        0 <= rcon < 10,
        0 <= k < 8,
    ensures
        w == (if rcon < 8 {
            add_rcon_bit_spec(sbox_window(b1, off), rcon)
        } else {
            add_rcon_bit_spec(
                add_rcon_bit_spec(add_rcon_bit_spec(add_rcon_bit_spec(sbox_window(b1, off), rcon - 8), rcon - 7), rcon - 5),
                rcon - 4,
            )
        }),
        w.len() == 8,
        key_temp(block_of(w, k), 7) == aes_rot_sub_word(block_of(window(b1, off), k), aes_rcon(rcon + 1)),
{
    let sb = sbox_window(b1, off);
    lemma_block_sbox_window(b1, off, k);
    let p = block_of(window(b1, off), k);
    lemma_inv_bitslice_len(window(b1, off));
    let w = if rcon < 8 {
        lemma_block_rcon_bit(sb, rcon, k);
        add_rcon_bit_spec(sb, rcon)
    } else {
        let s1 = add_rcon_bit_spec(sb, rcon - 8);
        lemma_block_rcon_bit(sb, rcon - 8, k);
        let s2 = add_rcon_bit_spec(s1, rcon - 7);
        lemma_block_rcon_bit(s1, rcon - 7, k);
        let s3 = add_rcon_bit_spec(s2, rcon - 5);
        lemma_block_rcon_bit(s2, rcon - 5, k);
        lemma_block_rcon_bit(s3, rcon - 4, k);
        lemma_rcon_bits(0, 0, 0, 0, 0, 0, 0, 0, 0, 0, 0, aes_sbox(p[13]));
        add_rcon_bit_spec(s3, rcon - 4)
    };
    assert(block_of(w, k)[13] == aes_sbox(p[13]) ^ aes_rcon(rcon + 1));
    assert(key_temp(block_of(w, k), 7) =~= aes_rot_sub_word(p, aes_rcon(rcon + 1)));
    w
}

/// Round `rcon` of the AES-128 key schedule writes, into every block of the
/// next round key, the key step of the standard from the round key before
/// it, and changes nothing else.
pub proof fn lemma_ks128_round(buf: Seq<Lane>, rcon: int, k: int)
    requires
        buf.len() == 88,
        0 <= rcon < 10,
        0 <= k < 8,
    ensures
        ks128_round(buf, rcon).len() == 88,
        ({
            let p = block_of(window(buf, 8 * rcon), k);
            block_of(window(ks128_round(buf, rcon), 8 * rcon + 8), k) == aes_key_step(
                p,
                aes_rot_sub_word(p, aes_rcon(rcon + 1)),
            )
        }),
        forall|i: int|
            0 <= i < 88 && (i < 8 * rcon + 8 || 8 * rcon + 16 <= i) ==> #[trigger] ks128_round(buf, rcon)[i] == buf[i],
{
    let off = 8 * rcon + 8;
    let pw = window(buf, off - 8);
    let b1 = with_window(buf, off, pw);
    lemma_window_with_window(buf, off, pw, off);
    let w = lemma_ks128_temp(b1, off, rcon, k);
    lemma_key_write(buf, off, 8, w, 7, k);
}

/// The first `n` rounds of the AES-128 key schedule hold, in every block,
/// round keys `0..=n` of the standard's key expansion.
pub proof fn lemma_ks128_expand(key: Seq<u8>, n: nat, k: int)
    requires
        key.len() == 16,
        n <= 10,
        0 <= k < 8,
    ensures
        ks128_expand(initial_keys(88, bitslice_same(key)), n).len() == 88,
        forall|r: int|
            0 <= r <= n ==> #[trigger] block_of(window(ks128_expand(initial_keys(88, bitslice_same(key)), n), 8 * r), k)
                == aes128_round_key(key, r as nat),
    decreases n,
{
    let init = initial_keys(88, bitslice_same(key));
    lemma_block_of_same(key, k);
    if n == 0 {
        lemma_window_with_window(zero_lanes(88), 0, bitslice_same(key), 0);
    } else {
        let e = ks128_expand(init, (n - 1) as nat);
        lemma_ks128_expand(key, (n - 1) as nat, k);
        lemma_ks128_round(e, n - 1, k);
        let f = ks128_expand(init, n);
        assert forall|r: int| 0 <= r <= n implies #[trigger] block_of(window(f, 8 * r), k) == aes128_round_key(
            key,
            r as nat,
        ) by {
            if r < n {
                assert(window(f, 8 * r) =~= window(e, 8 * r));
            }
        }
    }
}

/// The NOT gates of the S-box XOR every byte of every block with 0x63.
pub proof fn lemma_block_nots(s: Seq<Lane>, k: int)
    requires
        s.len() == 8,
        0 <= k < 8,
    ensures
        sub_bytes_nots_spec(s).len() == 8,
        block_of(sub_bytes_nots_spec(s), k) == aes_xor_const(block_of(s, k), 0x63u8),
{
    let t = sub_bytes_nots_spec(s);
    lemma_inv_bitslice_len(t);
    lemma_inv_bitslice_len(s);
    assert forall|j: int| 0 <= j < 16 implies #[trigger] block_of(t, k)[j] == aes_xor_const(block_of(s, k), 0x63u8)[j] by {
        lemma_block_byte(t, k, j);
        lemma_block_byte(s, k, j);
        let q = pos(byte_cell(j), k);
        let c = cell_of(s, q);
        lemma_const_bytes(c, 0, 0, 0);
        lemma_nots_cell(s, q, c ^ 0x63u8);
    }
    assert(block_of(t, k) =~= aes_xor_const(block_of(s, k), 0x63u8));
}

/// A window after ShiftRows `n` times on the window at `off`.
pub proof fn lemma_map_shift_window(buf: Seq<Lane>, off: int, n: int, o: int)
    requires
        1 <= n <= 3,
        0 <= off,
        off + 8 <= buf.len(),
        0 <= o,
        o + 8 <= buf.len(),
        o == off || o + 8 <= off || off + 8 <= o,
    ensures
        map_shift(buf, off, n).len() == buf.len(),
        window(map_shift(buf, off, n), o) == if o == off { shift_rows_state(n, window(buf, o)) } else { window(buf, o) },
{
    lemma_round_lengths(0, window(buf, off));
    lemma_window_with_window(buf, off, shift_rows_state(n, window(buf, off)), o);
}

/// A window after the NOT gates on the window at `off`.
pub proof fn lemma_map_nots_window(buf: Seq<Lane>, off: int, o: int)
    requires
        0 <= off,
        off + 8 <= buf.len(),
        0 <= o,
        o + 8 <= buf.len(),
        o == off || o + 8 <= off || off + 8 <= o,
    ensures
        map_nots(buf, off).len() == buf.len(),
        window(map_nots(buf, off), o) == if o == off { sub_bytes_nots_spec(window(buf, o)) } else { window(buf, o) },
{
    lemma_window_with_window(buf, off, sub_bytes_nots_spec(window(buf, off)), o);
}

/// The NOT gates on round keys `1..=n` of a buffer of round keys.
pub proof fn lemma_nots_windows(buf: Seq<Lane>, n: nat, r: int)
    requires
        8 * n + 8 <= buf.len(),
        0 <= r,
        8 * r + 8 <= buf.len(),
    ensures
        nots_windows(buf, n).len() == buf.len(),
        window(nots_windows(buf, n), 8 * r) == if 1 <= r <= n {
            sub_bytes_nots_spec(window(buf, 8 * r))
        } else {
            window(buf, 8 * r)
        },
    decreases n,
{
    if n > 0 {
        let b = nots_windows(buf, (n - 1) as nat);
        lemma_nots_windows(buf, (n - 1) as nat, r);
        lemma_map_nots_window(b, (8 * n) as int, 8 * r);
    }
}

/// How many times the AES-128 key schedule applies ShiftRows to round key
/// `r` to follow the drifting rows.
pub open spec fn ks128_shifts(r: int) -> int {
    if r == 0 || r == 10 {
        0
    } else {
        (4 - r % 4) % 4
    }
}

/// The realignment of the AES-128 round keys: ShiftRows three, two and one
/// times on round keys 1, 2, 3 and 5, 6, 7, and three times on round key 9.
proof fn lemma_realign_128(buf: Seq<Lane>, r: int)
    requires
        buf.len() == 88,
        0 <= r <= 10,
    ensures
        map_shift(realign(buf, 8, 2), 72, 3).len() == 88,
        window(map_shift(realign(buf, 8, 2), 72, 3), 8 * r) == if ks128_shifts(r) == 0 {
            window(buf, 8 * r)
        } else {
            shift_rows_state(ks128_shifts(r), window(buf, 8 * r))
        },
{
    let o = 8 * r;
    let b1 = map_shift(buf, 8, 3);
    lemma_map_shift_window(buf, 8, 3, o);
    let b2 = map_shift(b1, 16, 2);
    lemma_map_shift_window(b1, 16, 2, o);
    let b3 = map_shift(b2, 24, 1);
    lemma_map_shift_window(b2, 24, 1, o);
    let b4 = map_shift(b3, 40, 3);
    lemma_map_shift_window(b3, 40, 3, o);
    let b5 = map_shift(b4, 48, 2);
    lemma_map_shift_window(b4, 48, 2, o);
    let b6 = map_shift(b5, 56, 1);
    lemma_map_shift_window(b5, 56, 1, o);
    let b7 = map_shift(b6, 72, 3);
    lemma_map_shift_window(b6, 72, 3, o);
    assert(realign(buf, 8, 0) == buf);
    assert(realign(buf, 8, 1) == b3);
    assert(realign(buf, 8, 2) == b6);
}

/// The AES-128 key schedule lays out the round keys of the standard's key
/// expansion as the fixsliced cipher reads them.
pub proof fn lemma_aes128_key_schedule_holds(key: Seq<u8>)
    requires
        key.len() == 16,
    ensures
        fixsliced_keys_hold(aes128_key_schedule_spec(key), aes128_round_keys(key), 10),
{
    let e = ks128_expand(initial_keys(88, bitslice_same(key)), 10);
    let a = map_shift(realign(e, 8, 2), 72, 3);
    let rk = aes128_key_schedule_spec(key);
    let keys = aes128_round_keys(key);
    assert(e.len() == 88) by {
        lemma_ks128_expand(key, 10, 0);
    }
    lemma_realign_128(e, 0);
    lemma_nots_windows(a, 10, 0);
    assert forall|r: int| 0 <= r <= 10 implies #[trigger] keys[r].len() == 16 by {
    }
    assert forall|r: int, k: int| 0 <= r <= 10 && 0 <= k < 8 implies #[trigger] key_block(rk, r, k)
        == fixsliced_round_key(r, 10, keys[r]) by {
        lemma_ks128_expand(key, 10, k);
        let kr = aes128_round_key(key, r as nat);
        assert(block_of(window(e, 8 * r), k) == kr);
        lemma_realign_128(e, r);
        lemma_nots_windows(a, 10, r);
        let we = window(e, 8 * r);
        lemma_inv_bitslice_len(we);
        let n = ks128_shifts(r);
        let wa = window(a, 8 * r);
        if n == 0 {
            assert(wa == we);
        } else {
            lemma_block_shift_rows(we, n, k);
        }
        assert(wa.len() == 8) by {
            lemma_round_lengths(0, we);
        }
        if r == 0 {
        } else {
            lemma_block_nots(wa, k);
            if r != 10 && n == 0 {
                lemma_shift_rows_n_zero(kr);
            }
        }
    }
}

/// Writing a round key as the key schedules do: the round key at `off`
/// becomes `xor_columns` of the round key `idx` lanes before it and the
/// S-box output `w`; no other lane changes.
pub proof fn lemma_key_write(buf: Seq<Lane>, off: int, idx: int, w: Seq<Lane>, ror: usize, k: int)
    requires
        8 <= idx <= off,
        off + 8 <= buf.len(),
        w.len() == 8,
        ror == 7 || ror == 3,
        0 <= k < 8,
    ensures
        ({
            let x = xor_columns_spec(with_window(with_window(buf, off, window(buf, off - 8)), off, w), off, idx, ror, 8);
            &&& x.len() == buf.len()
            &&& block_of(window(x, off), k) == aes_key_step(
                block_of(window(buf, off - idx), k),
                key_temp(block_of(w, k), ror),
            )
            &&& forall|i: int| 0 <= i < buf.len() && (i < off || off + 8 <= i) ==> #[trigger] x[i] == buf[i]
        }),
{
    let pw = window(buf, off - idx);
    let b1 = with_window(buf, off, window(buf, off - 8));
    let b2 = with_window(b1, off, w);
    let x = xor_columns_spec(b2, off, idx, ror, 8);
    lemma_xor_columns_spec(b2, off, idx, ror, 8);
    let ww = window(x, off);
    assert forall|i: int| 0 <= i < 8 implies #[trigger] ww[i].0 == xor_columns_cell(pw[i].0, w[i].0, ror) by {
        assert(b2[off + i - idx] == buf[off - idx + i]);
        assert(b2[off + i] == w[i]);
    }
    assert forall|j: int| 0 <= j < 16 implies #[trigger] block_of(ww, k)[j] == aes_key_step(
        block_of(pw, k),
        key_temp(block_of(w, k), ror),
    )[j] by {
        lemma_key_step_byte(pw, w, ww, ror, k, j);
    }
    lemma_inv_bitslice_len(ww);
    assert(block_of(ww, k) =~= aes_key_step(block_of(pw, k), key_temp(block_of(w, k), ror)));
}

/// The word that step `t` of the AES-256 key schedule adds in: the S-box
/// of round key `t + 1`, with a round constant in even steps.
#[verifier::rlimit(100)]
proof fn lemma_ks256_temp(buf: Seq<Lane>, t: int, k: int) -> (w: Seq<Lane>)
    requires
        buf.len() == 120,
        0 <= t < 13,
        0 <= k < 8,
    ensures
        ({
            let off = 8 * t + 16;
            let sb = sbox_window(with_window(buf, off, window(buf, off - 8)), off);
            w == if t % 2 == 0 { add_rcon_bit_spec(sb, t / 2) } else { sb }
        }),
        w.len() == 8,
        t % 2 == 0 ==> key_temp(block_of(w, k), 7) == aes_rot_sub_word(
            block_of(window(buf, 8 * t + 8), k),
            aes_rcon(t / 2 + 1),
        ),
        t % 2 != 0 ==> key_temp(block_of(w, k), 3) == aes_sub_word(block_of(window(buf, 8 * t + 8), k)),
{
    let off = 8 * t + 16;
    let b1 = with_window(buf, off, window(buf, off - 8));
    lemma_window_with_window(buf, off, window(buf, off - 8), off);
    let sb = sbox_window(b1, off);
    lemma_block_sbox_window(b1, off, k);
    let p1 = block_of(window(buf, off - 8), k);
    lemma_inv_bitslice_len(window(buf, off - 8));
    if t % 2 == 0 {
        lemma_block_rcon_bit(sb, t / 2, k);
        let w = add_rcon_bit_spec(sb, t / 2);
        assert(key_temp(block_of(w, k), 7) =~= aes_rot_sub_word(p1, aes_rcon(t / 2 + 1)));
        w
    } else {
        assert(key_temp(block_of(sb, k), 3) =~= aes_sub_word(p1));
        sb
    }
}

/// Step `t` of the AES-256 key schedule writes round key `t + 2`: the key
/// step of the standard from round key `t`, with the S-box word (rotated,
/// with a round constant, in even steps) of round key `t + 1`; nothing else
/// changes.
#[verifier::rlimit(100)]
pub proof fn lemma_ks256_step(buf: Seq<Lane>, t: int, k: int)
    requires
        buf.len() == 120,
        0 <= t < 13,
        0 <= k < 8,
    ensures
        ks256_step(buf, t).len() == 120,
        ({
            let p2 = block_of(window(buf, 8 * t), k);
            let p1 = block_of(window(buf, 8 * t + 8), k);
            block_of(window(ks256_step(buf, t), 8 * t + 16), k) == if t % 2 == 0 {
                aes_key_step(p2, aes_rot_sub_word(p1, aes_rcon(t / 2 + 1)))
            } else {
                aes_key_step(p2, aes_sub_word(p1))
            }
        }),
        forall|i: int|
            0 <= i < 120 && (i < 8 * t + 16 || 8 * t + 24 <= i) ==> #[trigger] ks256_step(buf, t)[i] == buf[i],
{
    let off = 8 * t + 16;
    let w = lemma_ks256_temp(buf, t, k);
    if t % 2 == 0 {
        lemma_key_write(buf, off, 16, w, 7, k);
    } else {
        lemma_key_write(buf, off, 16, w, 3, k);
    }
}

/// The first two round keys of AES-256 are the two halves of the key, in
/// every block.
proof fn lemma_ks256_init(key: Seq<u8>, k: int)
    requires
        key.len() == 32,
        0 <= k < 8,
    ensures
        ({
            let init = with_window(
                initial_keys(120, bitslice_same(key.subrange(0, 16))),
                8,
                bitslice_same(key.subrange(16, 32)),
            );
            &&& init.len() == 120
            &&& block_of(window(init, 0), k) == aes256_round_key(key, 0)
            &&& block_of(window(init, 8), k) == aes256_round_key(key, 1)
        }),
{
    let k0 = key.subrange(0, 16);
    let k1 = key.subrange(16, 32);
    let i0 = initial_keys(120, bitslice_same(k0));
    lemma_block_of_same(k0, k);
    lemma_block_of_same(k1, k);
    lemma_window_with_window(zero_lanes(120), 0, bitslice_same(k0), 0);
    lemma_window_with_window(i0, 8, bitslice_same(k1), 0);
    lemma_window_with_window(i0, 8, bitslice_same(k1), 8);
}

/// The AES-256 key schedule init: the key in the first two round keys.
pub open spec fn ks256_init(key: Seq<u8>) -> Seq<Lane> {
    with_window(initial_keys(120, bitslice_same(key.subrange(0, 16))), 8, bitslice_same(key.subrange(16, 32)))
}

/// Round key `m` (from 2 on) of AES-256 from the two before it.
proof fn lemma_aes256_round_key_unfold(key: Seq<u8>, m: nat)
    requires
        m >= 2,
    ensures
        aes256_round_key(key, m) == if m % 2 == 0 {
            aes_key_step(
                aes256_round_key(key, (m - 2) as nat),
                aes_rot_sub_word(aes256_round_key(key, (m - 1) as nat), aes_rcon((m / 2) as int)),
            )
        } else {
            aes_key_step(aes256_round_key(key, (m - 2) as nat), aes_sub_word(aes256_round_key(key, (m - 1) as nat)))
        },
{
}

/// One more step of the AES-256 key schedule writes the next round key of
/// the standard and keeps the earlier ones.
#[verifier::rlimit(50)]
proof fn lemma_ks256_expand_step(key: Seq<u8>, e: Seq<Lane>, n: nat, k: int)
    requires
        key.len() == 32,
        1 <= n <= 13,
        0 <= k < 8,
        e.len() == 120,
        forall|r: int| 0 <= r <= n ==> #[trigger] block_of(window(e, 8 * r), k) == aes256_round_key(key, r as nat),
    ensures
        ks256_step(e, n - 1).len() == 120,
        forall|r: int|
            0 <= r <= n + 1 ==> #[trigger] block_of(window(ks256_step(e, n - 1), 8 * r), k) == aes256_round_key(
                key,
                r as nat,
            ),
{
    lemma_ks256_step(e, n - 1, k);
    let f = ks256_step(e, n - 1);
    let m = (n + 1) as nat;
    lemma_aes256_round_key_unfold(key, m);
    assert(block_of(window(e, 8 * (n as int)), k) == aes256_round_key(key, n));
    assert(block_of(window(e, 8 * (n - 1)), k) == aes256_round_key(key, (n - 1) as nat));
    assert((n - 1) / 2 + 1 == m / 2);
    assert(block_of(window(f, 8 * (m as int)), k) == aes256_round_key(key, m));
    assert forall|r: int| 0 <= r <= n + 1 implies #[trigger] block_of(window(f, 8 * r), k) == aes256_round_key(
        key,
        r as nat,
    ) by {
        if r < n + 1 {
            assert(window(f, 8 * r) =~= window(e, 8 * r));
        }
    }
}

/// The first `n` steps of the AES-256 key schedule hold, in every block,
/// round keys `0..=n + 1` of the standard's key expansion.
pub proof fn lemma_ks256_expand(key: Seq<u8>, n: nat, k: int)
    requires
        key.len() == 32,
        n <= 13,
        0 <= k < 8,
    ensures
        ks256_expand(ks256_init(key), n).len() == 120,
        forall|r: int|
            0 <= r <= n + 1 ==> #[trigger] block_of(window(ks256_expand(ks256_init(key), n), 8 * r), k)
                == aes256_round_key(key, r as nat),
    decreases n,
{
    if n == 0 {
        lemma_ks256_init(key, k);
    } else {
        let e = ks256_expand(ks256_init(key), (n - 1) as nat);
        lemma_ks256_expand(key, (n - 1) as nat, k);
        lemma_ks256_expand_step(key, e, n, k);
    }
}

/// How many times the AES-256 key schedule applies ShiftRows to round key
/// `r` to follow the drifting rows.
pub open spec fn ks256_shifts(r: int) -> int {
    if r == 0 || r == 14 {
        0
    } else {
        (4 - r % 4) % 4
    }
}

/// The realignment of the AES-256 round keys: ShiftRows three, two and one
/// times on round keys 1, 2, 3, on 5, 6, 7 and on 9, 10, 11, and three times
/// on round key 13.
proof fn lemma_realign_256(buf: Seq<Lane>, r: int)
    requires
        buf.len() == 120,
        0 <= r <= 14,
    ensures
        map_shift(realign(buf, 8, 3), 104, 3).len() == 120,
        window(map_shift(realign(buf, 8, 3), 104, 3), 8 * r) == if ks256_shifts(r) == 0 {
            window(buf, 8 * r)
        } else {
            shift_rows_state(ks256_shifts(r), window(buf, 8 * r))
        },
{
    let o = 8 * r;
    let b1 = map_shift(buf, 8, 3);
    lemma_map_shift_window(buf, 8, 3, o);
    let b2 = map_shift(b1, 16, 2);
    lemma_map_shift_window(b1, 16, 2, o);
    let b3 = map_shift(b2, 24, 1);
    lemma_map_shift_window(b2, 24, 1, o);
    let b4 = map_shift(b3, 40, 3);
    lemma_map_shift_window(b3, 40, 3, o);
    let b5 = map_shift(b4, 48, 2);
    lemma_map_shift_window(b4, 48, 2, o);
    let b6 = map_shift(b5, 56, 1);
    lemma_map_shift_window(b5, 56, 1, o);
    let b7 = map_shift(b6, 72, 3);
    lemma_map_shift_window(b6, 72, 3, o);
    let b8 = map_shift(b7, 80, 2);
    lemma_map_shift_window(b7, 80, 2, o);
    let b9 = map_shift(b8, 88, 1);
    lemma_map_shift_window(b8, 88, 1, o);
    let b10 = map_shift(b9, 104, 3);
    lemma_map_shift_window(b9, 104, 3, o);
    assert(realign(buf, 8, 0) == buf);
    assert(realign(buf, 8, 1) == b3);
    assert(realign(buf, 8, 2) == b6);
    assert(realign(buf, 8, 3) == b9);
}

/// The AES-256 key schedule lays out the round keys of the standard's key
/// expansion as the fixsliced cipher reads them.
pub proof fn lemma_aes256_key_schedule_holds(key: Seq<u8>)
    requires
        key.len() == 32,
    ensures
        fixsliced_keys_hold(aes256_key_schedule_spec(key), aes256_round_keys(key), 14),
{
    let e = ks256_expand(ks256_init(key), 13);
    let a = map_shift(realign(e, 8, 3), 104, 3);
    let rk = aes256_key_schedule_spec(key);
    let keys = aes256_round_keys(key);
    assert(e.len() == 120) by {
        lemma_ks256_expand(key, 13, 0);
    }
    lemma_realign_256(e, 0);
    lemma_nots_windows(a, 14, 0);
    assert forall|r: int| 0 <= r <= 14 implies #[trigger] keys[r].len() == 16 by {
    }
    assert forall|r: int, k: int| 0 <= r <= 14 && 0 <= k < 8 implies #[trigger] key_block(rk, r, k)
        == fixsliced_round_key(r, 14, keys[r]) by {
        lemma_ks256_expand(key, 13, k);
        let kr = aes256_round_key(key, r as nat);
        assert(block_of(window(e, 8 * r), k) == kr);
        lemma_realign_256(e, r);
        lemma_nots_windows(a, 14, r);
        let we = window(e, 8 * r);
        lemma_inv_bitslice_len(we);
        let n = ks256_shifts(r);
        let wa = window(a, 8 * r);
        if n == 0 {
            assert(wa == we);
        } else {
            lemma_block_shift_rows(we, n, k);
        }
        assert(wa.len() == 8) by {
            lemma_round_lengths(0, we);
        }
        if r == 0 {
        } else {
            lemma_block_nots(wa, k);
            if r != 14 && n == 0 {
                lemma_shift_rows_n_zero(kr);
            }
        }
    }
}

/// AES-128 with the round keys of the fixsliced key schedule is the AES-128
/// cipher of the standard, block by block, and decryption is its inverse.
pub proof fn lemma_aes128_fips(key: Seq<u8>, blocks: Seq<Seq<u8>>)
    requires
        key.len() == 16,
        is_batch(blocks),
    ensures
        forall|k: int|
            0 <= k < 8 ==> #[trigger] aes128_encrypt_spec(aes128_key_schedule_spec(key), blocks)[k] == aes_encrypt_block(
                aes128_round_keys(key),
                10,
                blocks[k],
            ),
        forall|k: int|
            0 <= k < 8 ==> #[trigger] aes_encrypt_block(
                aes128_round_keys(key),
                10,
                aes128_decrypt_spec(aes128_key_schedule_spec(key), blocks)[k],
            ) == blocks[k],
{
    lemma_aes128_key_schedule_holds(key);
    lemma_aes128_is_aes(aes128_key_schedule_spec(key), aes128_round_keys(key), blocks);
}

/// AES-256 with the round keys of the fixsliced key schedule is the AES-256
/// cipher of the standard, block by block, and decryption is its inverse.
pub proof fn lemma_aes256_fips(key: Seq<u8>, blocks: Seq<Seq<u8>>)
    requires
        key.len() == 32,
        is_batch(blocks),
    ensures
        forall|k: int|
            0 <= k < 8 ==> #[trigger] aes256_encrypt_spec(aes256_key_schedule_spec(key), blocks)[k] == aes_encrypt_block(
                aes256_round_keys(key),
                14,
                blocks[k],
            ),
        forall|k: int|
            0 <= k < 8 ==> #[trigger] aes_encrypt_block(
                aes256_round_keys(key),
                14,
                aes256_decrypt_spec(aes256_key_schedule_spec(key), blocks)[k],
            ) == blocks[k],
{
    lemma_aes256_key_schedule_holds(key);
    lemma_aes256_is_aes(aes256_key_schedule_spec(key), aes256_round_keys(key), blocks);
}

} // verus!

//! The AES-192 key schedule computes the AES-192 key expansion of the
//! standard (`Nk = 6`): every round key it stores is the round key of the
//! standard, laid out as `fixsliced_keys_hold` says.

use vstd::prelude::*;
use crate::lane::{Lane, bit_of, lemma_bit_of_ops, shr_b_spec, shl_b_spec, rotr128};
use crate::keys::{
    window, with_window, add_rcon_bit_spec, sbox_window, cols01_mask, cols23_mask, col0_mask, col2_mask, col3_mask,
    prefix_columns, ks192_a, ks192_b, ks192_c, ks192_d, ks192_e, ks192_group, ks192_expand, aes192_key_schedule_spec,
    initial_keys, zero_lanes, map_shift, realign,
};
use crate::bitslice::bitslice_same;
use crate::shift_rows::shift_rows_state;
use crate::block_cipher::{lemma_round_lengths, is_batch, aes192_encrypt_spec, aes192_decrypt_spec};
use crate::sbox::{sub_bytes_spec, sub_bytes_nots_spec};
use crate::layout::{pos, lemma_inv_bitslice_len};
use crate::equivalence::{block_of, byte_cell, lemma_block_byte, lemma_gather8_xor};
use crate::expansion::{
    lemma_block_sbox_window, lemma_block_rcon_bit, lemma_window_with_window, lemma_block_of_same, lemma_map_shift_window,
    lemma_nots_windows, lemma_block_nots,
};
use crate::equivalence::{
    key_block, fixsliced_round_key, fixsliced_keys_hold, lemma_block_shift_rows, lemma_shift_rows_n_zero, lemma_aes192_is_aes,
};
use crate::standard::{aes_rcon, aes_rot_sub_w, aes192_word, aes192_round_key, aes192_round_keys, aes_encrypt_block};

verus! {

/// The bits of the AES-192 key schedule planes that move and fold columns:
/// `ks192_a`, `ks192_b` and `ks192_e`, column by column.
proof fn lemma_ks192_bits_abe(x: u128, y: u128, z: u128, q: u128)
    requires
        q < 128,
    ensures
        ({
            let c = (q / 8) % 4;
            &&& (bit_of((cols01_mask() & shr_b_spec(2, x)) | (cols23_mask() & shl_b_spec(2, y)), q) == {
                if c == 0 {
                    bit_of(x, (q + 16) as u128)
                } else if c == 1 {
                    bit_of(x, (q + 16) as u128)
                } else if c == 2 {
                    bit_of(y, (q - 16) as u128)
                } else {
                    bit_of(y, (q - 16) as u128)
                }
            })
            &&& (bit_of((x ^ (col2_mask() & rotr128(y, 40))) ^ (col3_mask() & shl_b_spec(1, x ^ (col2_mask() & rotr128(y, 40)))), q) == {
                if c == 0 {
                    bit_of(x, q)
                } else if c == 1 {
                    bit_of(x, q)
                } else if c == 2 {
                    bit_of(x, q) ^ bit_of(y, ((q + 40) % 128) as u128)
                } else {
                    bit_of(x, q) ^ (bit_of(x, (q - 8) as u128) ^ bit_of(y, ((q + 32) % 128) as u128))
                }
            })
            &&& (bit_of((x ^ (col2_mask() & shr_b_spec(1, y))) ^ (col3_mask() & shl_b_spec(1, x ^ (col2_mask() & shr_b_spec(1, y)))), q) == {
                if c == 0 {
                    bit_of(x, q)
                } else if c == 1 {
                    bit_of(x, q)
                } else if c == 2 {
                    bit_of(x, q) ^ bit_of(y, (q + 8) as u128)
                } else {
                    bit_of(x, q) ^ (bit_of(x, (q - 8) as u128) ^ bit_of(y, q))
                }
            })
        }),
{
    assert({
        let c = (q / 8) % 4;
        &&& (bit_of((cols01_mask() & shr_b_spec(2, x)) | (cols23_mask() & shl_b_spec(2, y)), q) == {
            if c == 0 {
                bit_of(x, (q + 16) as u128)
            } else if c == 1 {
                bit_of(x, (q + 16) as u128)
            } else if c == 2 {
                bit_of(y, (q - 16) as u128)
            } else {
                bit_of(y, (q - 16) as u128)
            }
        })
        &&& (bit_of((x ^ (col2_mask() & rotr128(y, 40))) ^ (col3_mask() & shl_b_spec(1, x ^ (col2_mask() & rotr128(y, 40)))), q) == {
            if c == 0 {
                bit_of(x, q)
            } else if c == 1 {
                bit_of(x, q)
            } else if c == 2 {
                bit_of(x, q) ^ bit_of(y, ((q + 40) % 128) as u128)
            } else {
                bit_of(x, q) ^ (bit_of(x, (q - 8) as u128) ^ bit_of(y, ((q + 32) % 128) as u128))
            }
        })
        &&& (bit_of((x ^ (col2_mask() & shr_b_spec(1, y))) ^ (col3_mask() & shl_b_spec(1, x ^ (col2_mask() & shr_b_spec(1, y)))), q) == {
            if c == 0 {
                bit_of(x, q)
            } else if c == 1 {
                bit_of(x, q)
            } else if c == 2 {
                bit_of(x, q) ^ bit_of(y, (q + 8) as u128)
            } else {
                bit_of(x, q) ^ (bit_of(x, (q - 8) as u128) ^ bit_of(y, q))
            }
        })
    }) by (bit_vector)
        requires
            q < 128,
    ;
}

/// The bits of the AES-192 key schedule planes that XOR along the rows:
/// `ks192_c` and `ks192_d`, column by column, in the order of the words of
/// the key expansion.
proof fn lemma_ks192_bits_cd(x: u128, y: u128, z: u128, q: u128)
    requires
        q < 128,
    ensures
        ({
            let c = (q / 8) % 4;
            &&& (bit_of(prefix_columns(((cols01_mask() & shr_b_spec(2, x)) | (cols23_mask() & shl_b_spec(2, y))) ^ (col0_mask() & shr_b_spec(3, y))), q) == {
                if c == 0 {
                    (bit_of(x, (q + 16) as u128) ^ bit_of(y, (q + 24) as u128))
                } else if c == 1 {
                    bit_of(x, (q + 16) as u128) ^ ((bit_of(x, (q + 8) as u128) ^ bit_of(y, (q + 16) as u128)))
                } else if c == 2 {
                    bit_of(y, (q - 16) as u128) ^ (bit_of(x, (q + 8) as u128) ^ ((bit_of(x, q) ^ bit_of(y, (q + 8) as u128))))
                } else {
                    bit_of(y, (q - 16) as u128) ^ (bit_of(y, (q - 24) as u128) ^ (bit_of(x, q) ^ ((bit_of(x, (q - 8) as u128) ^ bit_of(y, q)))))
                }
            })
            &&& (bit_of(prefix_columns(((cols01_mask() & shr_b_spec(2, x)) | (cols23_mask() & shl_b_spec(2, y))) ^ (col0_mask() & rotr128(z, 56))), q) == {
                if c == 0 {
                    (bit_of(x, (q + 16) as u128) ^ bit_of(z, ((q + 56) % 128) as u128))
                } else if c == 1 {
                    bit_of(x, (q + 16) as u128) ^ ((bit_of(x, (q + 8) as u128) ^ bit_of(z, ((q - 8 + 56) % 128) as u128)))
                } else if c == 2 {
                    bit_of(y, (q - 16) as u128) ^ (bit_of(x, (q + 8) as u128) ^ ((bit_of(x, q) ^ bit_of(z, ((q - 16 + 56) % 128) as u128))))
                } else {
                    bit_of(y, (q - 16) as u128) ^ (bit_of(y, (q - 24) as u128) ^ (bit_of(x, q) ^ ((bit_of(x, (q - 8) as u128) ^ bit_of(z, ((q - 24 + 56) % 128) as u128)))))
                }
            })
        }),
{
    assert({
        let c = (q / 8) % 4;
        &&& (bit_of(prefix_columns(((cols01_mask() & shr_b_spec(2, x)) | (cols23_mask() & shl_b_spec(2, y))) ^ (col0_mask() & shr_b_spec(3, y))), q) == {
            if c == 0 {
                (bit_of(x, (q + 16) as u128) ^ bit_of(y, (q + 24) as u128))
            } else if c == 1 {
                bit_of(x, (q + 16) as u128) ^ ((bit_of(x, (q + 8) as u128) ^ bit_of(y, (q + 16) as u128)))
            } else if c == 2 {
                bit_of(y, (q - 16) as u128) ^ (bit_of(x, (q + 8) as u128) ^ ((bit_of(x, q) ^ bit_of(y, (q + 8) as u128))))
            } else {
                bit_of(y, (q - 16) as u128) ^ (bit_of(y, (q - 24) as u128) ^ (bit_of(x, q) ^ ((bit_of(x, (q - 8) as u128) ^ bit_of(y, q)))))
            }
        })
        &&& (bit_of(prefix_columns(((cols01_mask() & shr_b_spec(2, x)) | (cols23_mask() & shl_b_spec(2, y))) ^ (col0_mask() & rotr128(z, 56))), q) == {
            if c == 0 {
                (bit_of(x, (q + 16) as u128) ^ bit_of(z, ((q + 56) % 128) as u128))
            } else if c == 1 {
                bit_of(x, (q + 16) as u128) ^ ((bit_of(x, (q + 8) as u128) ^ bit_of(z, ((q - 8 + 56) % 128) as u128)))
            } else if c == 2 {
                bit_of(y, (q - 16) as u128) ^ (bit_of(x, (q + 8) as u128) ^ ((bit_of(x, q) ^ bit_of(z, ((q - 16 + 56) % 128) as u128))))
            } else {
                bit_of(y, (q - 16) as u128) ^ (bit_of(y, (q - 24) as u128) ^ (bit_of(x, q) ^ ((bit_of(x, (q - 8) as u128) ^ bit_of(z, ((q - 24 + 56) % 128) as u128)))))
            }
        })
    }) by (bit_vector)
        requires
            q < 128,
    ;
}

/// Where the cells that the AES-192 plane formulas read sit, for the cell
/// of byte `j`: the bytes of the same row in each column, and the cell that
/// the S-box rotation brings to it.
proof fn lemma_cells_192(j: int, k: int)
    requires
        0 <= j < 16,
        0 <= k < 8,
    ensures
        ({
            let r = j % 4;
            let c = j / 4;
            let q = pos(byte_cell(j), k);
            &&& q < 128
            &&& pos(byte_cell(r), k) == q - 8 * c
            &&& pos(byte_cell(r + 4), k) == q - 8 * c + 8
            &&& pos(byte_cell(r + 8), k) == q - 8 * c + 16
            &&& pos(byte_cell(r + 12), k) == q - 8 * c + 24
            &&& pos(byte_cell(12 + (r + 1) % 4), k) == ((q - 8 * c + 56) % 128) as u128
            &&& r + 4 * c == j
        }),
{
    if j == 0 {
    } else if j == 1 {
    } else if j == 2 {
    } else if j == 3 {
    } else if j == 4 {
    } else if j == 5 {
    } else if j == 6 {
    } else if j == 7 {
    } else if j == 8 {
    } else if j == 9 {
    } else if j == 10 {
    } else if j == 11 {
    } else if j == 12 {
    } else if j == 13 {
    } else if j == 14 {
    } else {
    }
}

/// Byte `j` in column 0 of the plane formula `ks192_a`, block by block.
#[verifier::rlimit(100)]
proof fn lemma_ks192_a_byte_0(x: Seq<Lane>, y: Seq<Lane>, z: Seq<Lane>, o: Seq<Lane>, k: int, j: int)
    requires
        x.len() == 8,
        y.len() == 8,
        z.len() == 8,
        o.len() == 8,
        0 <= k < 8,
        0 <= j < 16,
        j / 4 == 0,
        forall|i: int| 0 <= i < 8 ==> #[trigger] o[i].0 == (cols01_mask() & shr_b_spec(2, x[i].0)) | (cols23_mask() & shl_b_spec(2, y[i].0)),
    ensures
        block_of(o, k)[j] == block_of(x, k)[j + 8],
{
    let r = j % 4;
    let q = pos(byte_cell(j), k);
    lemma_cells_192(j, k);
    assert((q / 8) % 4 == 0);
    assert(o[0].0 == (cols01_mask() & shr_b_spec(2, x[0].0)) | (cols23_mask() & shl_b_spec(2, y[0].0)));
    lemma_ks192_bits_abe(x[0].0, y[0].0, z[0].0, q);
    assert(o[1].0 == (cols01_mask() & shr_b_spec(2, x[1].0)) | (cols23_mask() & shl_b_spec(2, y[1].0)));
    lemma_ks192_bits_abe(x[1].0, y[1].0, z[1].0, q);
    assert(o[2].0 == (cols01_mask() & shr_b_spec(2, x[2].0)) | (cols23_mask() & shl_b_spec(2, y[2].0)));
    lemma_ks192_bits_abe(x[2].0, y[2].0, z[2].0, q);
    assert(o[3].0 == (cols01_mask() & shr_b_spec(2, x[3].0)) | (cols23_mask() & shl_b_spec(2, y[3].0)));
    lemma_ks192_bits_abe(x[3].0, y[3].0, z[3].0, q);
    assert(o[4].0 == (cols01_mask() & shr_b_spec(2, x[4].0)) | (cols23_mask() & shl_b_spec(2, y[4].0)));
    lemma_ks192_bits_abe(x[4].0, y[4].0, z[4].0, q);
    assert(o[5].0 == (cols01_mask() & shr_b_spec(2, x[5].0)) | (cols23_mask() & shl_b_spec(2, y[5].0)));
    lemma_ks192_bits_abe(x[5].0, y[5].0, z[5].0, q);
    assert(o[6].0 == (cols01_mask() & shr_b_spec(2, x[6].0)) | (cols23_mask() & shl_b_spec(2, y[6].0)));
    lemma_ks192_bits_abe(x[6].0, y[6].0, z[6].0, q);
    assert(o[7].0 == (cols01_mask() & shr_b_spec(2, x[7].0)) | (cols23_mask() & shl_b_spec(2, y[7].0)));
    lemma_ks192_bits_abe(x[7].0, y[7].0, z[7].0, q);
    assert((q + 16) as u128 == pos(byte_cell(j + 8), k));
    lemma_block_byte(x, k, j + 8);
    lemma_bit_of_ops(x[0].0, x[0].0, (q + 16) as u128);
    lemma_bit_of_ops(x[1].0, x[1].0, (q + 16) as u128);
    lemma_bit_of_ops(x[2].0, x[2].0, (q + 16) as u128);
    lemma_bit_of_ops(x[3].0, x[3].0, (q + 16) as u128);
    lemma_bit_of_ops(x[4].0, x[4].0, (q + 16) as u128);
    lemma_bit_of_ops(x[5].0, x[5].0, (q + 16) as u128);
    lemma_bit_of_ops(x[6].0, x[6].0, (q + 16) as u128);
    lemma_bit_of_ops(x[7].0, x[7].0, (q + 16) as u128);
    lemma_block_byte(o, k, j);
}

/// Byte `j` in column 1 of the plane formula `ks192_a`, block by block.
#[verifier::rlimit(100)]
proof fn lemma_ks192_a_byte_1(x: Seq<Lane>, y: Seq<Lane>, z: Seq<Lane>, o: Seq<Lane>, k: int, j: int)
    requires
        x.len() == 8,
        y.len() == 8,
        z.len() == 8,
        o.len() == 8,
        0 <= k < 8,
        0 <= j < 16,
        j / 4 == 1,
        forall|i: int| 0 <= i < 8 ==> #[trigger] o[i].0 == (cols01_mask() & shr_b_spec(2, x[i].0)) | (cols23_mask() & shl_b_spec(2, y[i].0)),
    ensures
        block_of(o, k)[j] == block_of(x, k)[j + 8],
{
    let r = j % 4;
    let q = pos(byte_cell(j), k);
    lemma_cells_192(j, k);
    assert((q / 8) % 4 == 1);
    assert(o[0].0 == (cols01_mask() & shr_b_spec(2, x[0].0)) | (cols23_mask() & shl_b_spec(2, y[0].0)));
    lemma_ks192_bits_abe(x[0].0, y[0].0, z[0].0, q);
    assert(o[1].0 == (cols01_mask() & shr_b_spec(2, x[1].0)) | (cols23_mask() & shl_b_spec(2, y[1].0)));
    lemma_ks192_bits_abe(x[1].0, y[1].0, z[1].0, q);
    assert(o[2].0 == (cols01_mask() & shr_b_spec(2, x[2].0)) | (cols23_mask() & shl_b_spec(2, y[2].0)));
    lemma_ks192_bits_abe(x[2].0, y[2].0, z[2].0, q);
    assert(o[3].0 == (cols01_mask() & shr_b_spec(2, x[3].0)) | (cols23_mask() & shl_b_spec(2, y[3].0)));
    lemma_ks192_bits_abe(x[3].0, y[3].0, z[3].0, q);
    assert(o[4].0 == (cols01_mask() & shr_b_spec(2, x[4].0)) | (cols23_mask() & shl_b_spec(2, y[4].0)));
    lemma_ks192_bits_abe(x[4].0, y[4].0, z[4].0, q);
    assert(o[5].0 == (cols01_mask() & shr_b_spec(2, x[5].0)) | (cols23_mask() & shl_b_spec(2, y[5].0)));
    lemma_ks192_bits_abe(x[5].0, y[5].0, z[5].0, q);
    assert(o[6].0 == (cols01_mask() & shr_b_spec(2, x[6].0)) | (cols23_mask() & shl_b_spec(2, y[6].0)));
    lemma_ks192_bits_abe(x[6].0, y[6].0, z[6].0, q);
    assert(o[7].0 == (cols01_mask() & shr_b_spec(2, x[7].0)) | (cols23_mask() & shl_b_spec(2, y[7].0)));
    lemma_ks192_bits_abe(x[7].0, y[7].0, z[7].0, q);
    assert((q + 16) as u128 == pos(byte_cell(j + 8), k));
    lemma_block_byte(x, k, j + 8);
    lemma_bit_of_ops(x[0].0, x[0].0, (q + 16) as u128);
    lemma_bit_of_ops(x[1].0, x[1].0, (q + 16) as u128);
    lemma_bit_of_ops(x[2].0, x[2].0, (q + 16) as u128);
    lemma_bit_of_ops(x[3].0, x[3].0, (q + 16) as u128);
    lemma_bit_of_ops(x[4].0, x[4].0, (q + 16) as u128);
    lemma_bit_of_ops(x[5].0, x[5].0, (q + 16) as u128);
    lemma_bit_of_ops(x[6].0, x[6].0, (q + 16) as u128);
    lemma_bit_of_ops(x[7].0, x[7].0, (q + 16) as u128);
    lemma_block_byte(o, k, j);
}

/// Byte `j` in column 2 of the plane formula `ks192_a`, block by block.
#[verifier::rlimit(100)]
proof fn lemma_ks192_a_byte_2(x: Seq<Lane>, y: Seq<Lane>, z: Seq<Lane>, o: Seq<Lane>, k: int, j: int)
    requires
        x.len() == 8,
        y.len() == 8,
        z.len() == 8,
        o.len() == 8,
        0 <= k < 8,
        0 <= j < 16,
        j / 4 == 2,
        forall|i: int| 0 <= i < 8 ==> #[trigger] o[i].0 == (cols01_mask() & shr_b_spec(2, x[i].0)) | (cols23_mask() & shl_b_spec(2, y[i].0)),
    ensures
        block_of(o, k)[j] == block_of(y, k)[j - 8],
{
    let r = j % 4;
    let q = pos(byte_cell(j), k);
    lemma_cells_192(j, k);
    assert((q / 8) % 4 == 2);
    assert(o[0].0 == (cols01_mask() & shr_b_spec(2, x[0].0)) | (cols23_mask() & shl_b_spec(2, y[0].0)));
    lemma_ks192_bits_abe(x[0].0, y[0].0, z[0].0, q);
    assert(o[1].0 == (cols01_mask() & shr_b_spec(2, x[1].0)) | (cols23_mask() & shl_b_spec(2, y[1].0)));
    lemma_ks192_bits_abe(x[1].0, y[1].0, z[1].0, q);
    assert(o[2].0 == (cols01_mask() & shr_b_spec(2, x[2].0)) | (cols23_mask() & shl_b_spec(2, y[2].0)));
    lemma_ks192_bits_abe(x[2].0, y[2].0, z[2].0, q);
    assert(o[3].0 == (cols01_mask() & shr_b_spec(2, x[3].0)) | (cols23_mask() & shl_b_spec(2, y[3].0)));
    lemma_ks192_bits_abe(x[3].0, y[3].0, z[3].0, q);
    assert(o[4].0 == (cols01_mask() & shr_b_spec(2, x[4].0)) | (cols23_mask() & shl_b_spec(2, y[4].0)));
    lemma_ks192_bits_abe(x[4].0, y[4].0, z[4].0, q);
    assert(o[5].0 == (cols01_mask() & shr_b_spec(2, x[5].0)) | (cols23_mask() & shl_b_spec(2, y[5].0)));
    lemma_ks192_bits_abe(x[5].0, y[5].0, z[5].0, q);
    assert(o[6].0 == (cols01_mask() & shr_b_spec(2, x[6].0)) | (cols23_mask() & shl_b_spec(2, y[6].0)));
    lemma_ks192_bits_abe(x[6].0, y[6].0, z[6].0, q);
    assert(o[7].0 == (cols01_mask() & shr_b_spec(2, x[7].0)) | (cols23_mask() & shl_b_spec(2, y[7].0)));
    lemma_ks192_bits_abe(x[7].0, y[7].0, z[7].0, q);
    assert((q - 16) as u128 == pos(byte_cell(j - 8), k));
    lemma_block_byte(y, k, j - 8);
    lemma_bit_of_ops(y[0].0, y[0].0, (q - 16) as u128);
    lemma_bit_of_ops(y[1].0, y[1].0, (q - 16) as u128);
    lemma_bit_of_ops(y[2].0, y[2].0, (q - 16) as u128);
    lemma_bit_of_ops(y[3].0, y[3].0, (q - 16) as u128);
    lemma_bit_of_ops(y[4].0, y[4].0, (q - 16) as u128);
    lemma_bit_of_ops(y[5].0, y[5].0, (q - 16) as u128);
    lemma_bit_of_ops(y[6].0, y[6].0, (q - 16) as u128);
    lemma_bit_of_ops(y[7].0, y[7].0, (q - 16) as u128);
    lemma_block_byte(o, k, j);
}

/// Byte `j` in column 3 of the plane formula `ks192_a`, block by block.
#[verifier::rlimit(100)]
proof fn lemma_ks192_a_byte_3(x: Seq<Lane>, y: Seq<Lane>, z: Seq<Lane>, o: Seq<Lane>, k: int, j: int)
    requires
        x.len() == 8,
        y.len() == 8,
        z.len() == 8,
        o.len() == 8,
        0 <= k < 8,
        0 <= j < 16,
        j / 4 == 3,
        forall|i: int| 0 <= i < 8 ==> #[trigger] o[i].0 == (cols01_mask() & shr_b_spec(2, x[i].0)) | (cols23_mask() & shl_b_spec(2, y[i].0)),
    ensures
        block_of(o, k)[j] == block_of(y, k)[j - 8],
{
    let r = j % 4;
    let q = pos(byte_cell(j), k);
    lemma_cells_192(j, k);
    assert((q / 8) % 4 == 3);
    assert(o[0].0 == (cols01_mask() & shr_b_spec(2, x[0].0)) | (cols23_mask() & shl_b_spec(2, y[0].0)));
    lemma_ks192_bits_abe(x[0].0, y[0].0, z[0].0, q);
    assert(o[1].0 == (cols01_mask() & shr_b_spec(2, x[1].0)) | (cols23_mask() & shl_b_spec(2, y[1].0)));
    lemma_ks192_bits_abe(x[1].0, y[1].0, z[1].0, q);
    assert(o[2].0 == (cols01_mask() & shr_b_spec(2, x[2].0)) | (cols23_mask() & shl_b_spec(2, y[2].0)));
    lemma_ks192_bits_abe(x[2].0, y[2].0, z[2].0, q);
    assert(o[3].0 == (cols01_mask() & shr_b_spec(2, x[3].0)) | (cols23_mask() & shl_b_spec(2, y[3].0)));
    lemma_ks192_bits_abe(x[3].0, y[3].0, z[3].0, q);
    assert(o[4].0 == (cols01_mask() & shr_b_spec(2, x[4].0)) | (cols23_mask() & shl_b_spec(2, y[4].0)));
    lemma_ks192_bits_abe(x[4].0, y[4].0, z[4].0, q);
    assert(o[5].0 == (cols01_mask() & shr_b_spec(2, x[5].0)) | (cols23_mask() & shl_b_spec(2, y[5].0)));
    lemma_ks192_bits_abe(x[5].0, y[5].0, z[5].0, q);
    assert(o[6].0 == (cols01_mask() & shr_b_spec(2, x[6].0)) | (cols23_mask() & shl_b_spec(2, y[6].0)));
    lemma_ks192_bits_abe(x[6].0, y[6].0, z[6].0, q);
    assert(o[7].0 == (cols01_mask() & shr_b_spec(2, x[7].0)) | (cols23_mask() & shl_b_spec(2, y[7].0)));
    lemma_ks192_bits_abe(x[7].0, y[7].0, z[7].0, q);
    assert((q - 16) as u128 == pos(byte_cell(j - 8), k));
    lemma_block_byte(y, k, j - 8);
    lemma_bit_of_ops(y[0].0, y[0].0, (q - 16) as u128);
    lemma_bit_of_ops(y[1].0, y[1].0, (q - 16) as u128);
    lemma_bit_of_ops(y[2].0, y[2].0, (q - 16) as u128);
    lemma_bit_of_ops(y[3].0, y[3].0, (q - 16) as u128);
    lemma_bit_of_ops(y[4].0, y[4].0, (q - 16) as u128);
    lemma_bit_of_ops(y[5].0, y[5].0, (q - 16) as u128);
    lemma_bit_of_ops(y[6].0, y[6].0, (q - 16) as u128);
    lemma_bit_of_ops(y[7].0, y[7].0, (q - 16) as u128);
    lemma_block_byte(o, k, j);
}

/// Byte `j` in column 0 of the plane formula `ks192_b`, block by block.
#[verifier::rlimit(100)]
proof fn lemma_ks192_b_byte_0(x: Seq<Lane>, y: Seq<Lane>, z: Seq<Lane>, o: Seq<Lane>, k: int, j: int)
    requires
        x.len() == 8,
        y.len() == 8,
        z.len() == 8,
        o.len() == 8,
        0 <= k < 8,
        0 <= j < 16,
        j / 4 == 0,
        forall|i: int| 0 <= i < 8 ==> #[trigger] o[i].0 == (x[i].0 ^ (col2_mask() & rotr128(y[i].0, 40))) ^ (col3_mask() & shl_b_spec(1, x[i].0 ^ (col2_mask() & rotr128(y[i].0, 40)))),
    ensures
        block_of(o, k)[j] == block_of(x, k)[j],
{
    let r = j % 4;
    let q = pos(byte_cell(j), k);
    lemma_cells_192(j, k);
    assert((q / 8) % 4 == 0);
    assert(o[0].0 == (x[0].0 ^ (col2_mask() & rotr128(y[0].0, 40))) ^ (col3_mask() & shl_b_spec(1, x[0].0 ^ (col2_mask() & rotr128(y[0].0, 40)))));
    lemma_ks192_bits_abe(x[0].0, y[0].0, z[0].0, q);
    assert(o[1].0 == (x[1].0 ^ (col2_mask() & rotr128(y[1].0, 40))) ^ (col3_mask() & shl_b_spec(1, x[1].0 ^ (col2_mask() & rotr128(y[1].0, 40)))));
    lemma_ks192_bits_abe(x[1].0, y[1].0, z[1].0, q);
    assert(o[2].0 == (x[2].0 ^ (col2_mask() & rotr128(y[2].0, 40))) ^ (col3_mask() & shl_b_spec(1, x[2].0 ^ (col2_mask() & rotr128(y[2].0, 40)))));
    lemma_ks192_bits_abe(x[2].0, y[2].0, z[2].0, q);
    assert(o[3].0 == (x[3].0 ^ (col2_mask() & rotr128(y[3].0, 40))) ^ (col3_mask() & shl_b_spec(1, x[3].0 ^ (col2_mask() & rotr128(y[3].0, 40)))));
    lemma_ks192_bits_abe(x[3].0, y[3].0, z[3].0, q);
    assert(o[4].0 == (x[4].0 ^ (col2_mask() & rotr128(y[4].0, 40))) ^ (col3_mask() & shl_b_spec(1, x[4].0 ^ (col2_mask() & rotr128(y[4].0, 40)))));
    lemma_ks192_bits_abe(x[4].0, y[4].0, z[4].0, q);
    assert(o[5].0 == (x[5].0 ^ (col2_mask() & rotr128(y[5].0, 40))) ^ (col3_mask() & shl_b_spec(1, x[5].0 ^ (col2_mask() & rotr128(y[5].0, 40)))));
    lemma_ks192_bits_abe(x[5].0, y[5].0, z[5].0, q);
    assert(o[6].0 == (x[6].0 ^ (col2_mask() & rotr128(y[6].0, 40))) ^ (col3_mask() & shl_b_spec(1, x[6].0 ^ (col2_mask() & rotr128(y[6].0, 40)))));
    lemma_ks192_bits_abe(x[6].0, y[6].0, z[6].0, q);
    assert(o[7].0 == (x[7].0 ^ (col2_mask() & rotr128(y[7].0, 40))) ^ (col3_mask() & shl_b_spec(1, x[7].0 ^ (col2_mask() & rotr128(y[7].0, 40)))));
    lemma_ks192_bits_abe(x[7].0, y[7].0, z[7].0, q);
    assert(q == pos(byte_cell(j), k));
    lemma_block_byte(x, k, j);
    lemma_bit_of_ops(x[0].0, x[0].0, q);
    lemma_bit_of_ops(x[1].0, x[1].0, q);
    lemma_bit_of_ops(x[2].0, x[2].0, q);
    lemma_bit_of_ops(x[3].0, x[3].0, q);
    lemma_bit_of_ops(x[4].0, x[4].0, q);
    lemma_bit_of_ops(x[5].0, x[5].0, q);
    lemma_bit_of_ops(x[6].0, x[6].0, q);
    lemma_bit_of_ops(x[7].0, x[7].0, q);
    lemma_block_byte(o, k, j);
}

/// Byte `j` in column 1 of the plane formula `ks192_b`, block by block.
#[verifier::rlimit(100)]
proof fn lemma_ks192_b_byte_1(x: Seq<Lane>, y: Seq<Lane>, z: Seq<Lane>, o: Seq<Lane>, k: int, j: int)
    requires
        x.len() == 8,
        y.len() == 8,
        z.len() == 8,
        o.len() == 8,
        0 <= k < 8,
        0 <= j < 16,
        j / 4 == 1,
        forall|i: int| 0 <= i < 8 ==> #[trigger] o[i].0 == (x[i].0 ^ (col2_mask() & rotr128(y[i].0, 40))) ^ (col3_mask() & shl_b_spec(1, x[i].0 ^ (col2_mask() & rotr128(y[i].0, 40)))),
    ensures
        block_of(o, k)[j] == block_of(x, k)[j],
{
    let r = j % 4;
    let q = pos(byte_cell(j), k);
    lemma_cells_192(j, k);
    assert((q / 8) % 4 == 1);
    assert(o[0].0 == (x[0].0 ^ (col2_mask() & rotr128(y[0].0, 40))) ^ (col3_mask() & shl_b_spec(1, x[0].0 ^ (col2_mask() & rotr128(y[0].0, 40)))));
    lemma_ks192_bits_abe(x[0].0, y[0].0, z[0].0, q);
    assert(o[1].0 == (x[1].0 ^ (col2_mask() & rotr128(y[1].0, 40))) ^ (col3_mask() & shl_b_spec(1, x[1].0 ^ (col2_mask() & rotr128(y[1].0, 40)))));
    lemma_ks192_bits_abe(x[1].0, y[1].0, z[1].0, q);
    assert(o[2].0 == (x[2].0 ^ (col2_mask() & rotr128(y[2].0, 40))) ^ (col3_mask() & shl_b_spec(1, x[2].0 ^ (col2_mask() & rotr128(y[2].0, 40)))));
    lemma_ks192_bits_abe(x[2].0, y[2].0, z[2].0, q);
    assert(o[3].0 == (x[3].0 ^ (col2_mask() & rotr128(y[3].0, 40))) ^ (col3_mask() & shl_b_spec(1, x[3].0 ^ (col2_mask() & rotr128(y[3].0, 40)))));
    lemma_ks192_bits_abe(x[3].0, y[3].0, z[3].0, q);
    assert(o[4].0 == (x[4].0 ^ (col2_mask() & rotr128(y[4].0, 40))) ^ (col3_mask() & shl_b_spec(1, x[4].0 ^ (col2_mask() & rotr128(y[4].0, 40)))));
    lemma_ks192_bits_abe(x[4].0, y[4].0, z[4].0, q);
    assert(o[5].0 == (x[5].0 ^ (col2_mask() & rotr128(y[5].0, 40))) ^ (col3_mask() & shl_b_spec(1, x[5].0 ^ (col2_mask() & rotr128(y[5].0, 40)))));
    lemma_ks192_bits_abe(x[5].0, y[5].0, z[5].0, q);
    assert(o[6].0 == (x[6].0 ^ (col2_mask() & rotr128(y[6].0, 40))) ^ (col3_mask() & shl_b_spec(1, x[6].0 ^ (col2_mask() & rotr128(y[6].0, 40)))));
    lemma_ks192_bits_abe(x[6].0, y[6].0, z[6].0, q);
    assert(o[7].0 == (x[7].0 ^ (col2_mask() & rotr128(y[7].0, 40))) ^ (col3_mask() & shl_b_spec(1, x[7].0 ^ (col2_mask() & rotr128(y[7].0, 40)))));
    lemma_ks192_bits_abe(x[7].0, y[7].0, z[7].0, q);
    assert(q == pos(byte_cell(j), k));
    lemma_block_byte(x, k, j);
    lemma_bit_of_ops(x[0].0, x[0].0, q);
    lemma_bit_of_ops(x[1].0, x[1].0, q);
    lemma_bit_of_ops(x[2].0, x[2].0, q);
    lemma_bit_of_ops(x[3].0, x[3].0, q);
    lemma_bit_of_ops(x[4].0, x[4].0, q);
    lemma_bit_of_ops(x[5].0, x[5].0, q);
    lemma_bit_of_ops(x[6].0, x[6].0, q);
    lemma_bit_of_ops(x[7].0, x[7].0, q);
    lemma_block_byte(o, k, j);
}

/// Byte `j` in column 2 of the plane formula `ks192_b`, block by block.
#[verifier::rlimit(100)]
proof fn lemma_ks192_b_byte_2(x: Seq<Lane>, y: Seq<Lane>, z: Seq<Lane>, o: Seq<Lane>, k: int, j: int)
    requires
        x.len() == 8,
        y.len() == 8,
        z.len() == 8,
        o.len() == 8,
        0 <= k < 8,
        0 <= j < 16,
        j / 4 == 2,
        forall|i: int| 0 <= i < 8 ==> #[trigger] o[i].0 == (x[i].0 ^ (col2_mask() & rotr128(y[i].0, 40))) ^ (col3_mask() & shl_b_spec(1, x[i].0 ^ (col2_mask() & rotr128(y[i].0, 40)))),
    ensures
        block_of(o, k)[j] == (block_of(x, k)[j] ^ block_of(y, k)[12 + ((j % 4) + 1) % 4]),
{
    let r = j % 4;
    let q = pos(byte_cell(j), k);
    lemma_cells_192(j, k);
    assert((q / 8) % 4 == 2);
    assert(o[0].0 == (x[0].0 ^ (col2_mask() & rotr128(y[0].0, 40))) ^ (col3_mask() & shl_b_spec(1, x[0].0 ^ (col2_mask() & rotr128(y[0].0, 40)))));
    lemma_ks192_bits_abe(x[0].0, y[0].0, z[0].0, q);
    assert(o[1].0 == (x[1].0 ^ (col2_mask() & rotr128(y[1].0, 40))) ^ (col3_mask() & shl_b_spec(1, x[1].0 ^ (col2_mask() & rotr128(y[1].0, 40)))));
    lemma_ks192_bits_abe(x[1].0, y[1].0, z[1].0, q);
    assert(o[2].0 == (x[2].0 ^ (col2_mask() & rotr128(y[2].0, 40))) ^ (col3_mask() & shl_b_spec(1, x[2].0 ^ (col2_mask() & rotr128(y[2].0, 40)))));
    lemma_ks192_bits_abe(x[2].0, y[2].0, z[2].0, q);
    assert(o[3].0 == (x[3].0 ^ (col2_mask() & rotr128(y[3].0, 40))) ^ (col3_mask() & shl_b_spec(1, x[3].0 ^ (col2_mask() & rotr128(y[3].0, 40)))));
    lemma_ks192_bits_abe(x[3].0, y[3].0, z[3].0, q);
    assert(o[4].0 == (x[4].0 ^ (col2_mask() & rotr128(y[4].0, 40))) ^ (col3_mask() & shl_b_spec(1, x[4].0 ^ (col2_mask() & rotr128(y[4].0, 40)))));
    lemma_ks192_bits_abe(x[4].0, y[4].0, z[4].0, q);
    assert(o[5].0 == (x[5].0 ^ (col2_mask() & rotr128(y[5].0, 40))) ^ (col3_mask() & shl_b_spec(1, x[5].0 ^ (col2_mask() & rotr128(y[5].0, 40)))));
    lemma_ks192_bits_abe(x[5].0, y[5].0, z[5].0, q);
    assert(o[6].0 == (x[6].0 ^ (col2_mask() & rotr128(y[6].0, 40))) ^ (col3_mask() & shl_b_spec(1, x[6].0 ^ (col2_mask() & rotr128(y[6].0, 40)))));
    lemma_ks192_bits_abe(x[6].0, y[6].0, z[6].0, q);
    assert(o[7].0 == (x[7].0 ^ (col2_mask() & rotr128(y[7].0, 40))) ^ (col3_mask() & shl_b_spec(1, x[7].0 ^ (col2_mask() & rotr128(y[7].0, 40)))));
    lemma_ks192_bits_abe(x[7].0, y[7].0, z[7].0, q);
    assert(q == pos(byte_cell(j), k));
    lemma_block_byte(x, k, j);
    lemma_bit_of_ops(x[0].0, x[0].0, q);
    lemma_bit_of_ops(x[1].0, x[1].0, q);
    lemma_bit_of_ops(x[2].0, x[2].0, q);
    lemma_bit_of_ops(x[3].0, x[3].0, q);
    lemma_bit_of_ops(x[4].0, x[4].0, q);
    lemma_bit_of_ops(x[5].0, x[5].0, q);
    lemma_bit_of_ops(x[6].0, x[6].0, q);
    lemma_bit_of_ops(x[7].0, x[7].0, q);
    assert(((q + 40) % 128) as u128 == pos(byte_cell(12 + (r + 1) % 4), k));
    lemma_block_byte(y, k, 12 + (r + 1) % 4);
    lemma_bit_of_ops(y[0].0, y[0].0, ((q + 40) % 128) as u128);
    lemma_bit_of_ops(y[1].0, y[1].0, ((q + 40) % 128) as u128);
    lemma_bit_of_ops(y[2].0, y[2].0, ((q + 40) % 128) as u128);
    lemma_bit_of_ops(y[3].0, y[3].0, ((q + 40) % 128) as u128);
    lemma_bit_of_ops(y[4].0, y[4].0, ((q + 40) % 128) as u128);
    lemma_bit_of_ops(y[5].0, y[5].0, ((q + 40) % 128) as u128);
    lemma_bit_of_ops(y[6].0, y[6].0, ((q + 40) % 128) as u128);
    lemma_bit_of_ops(y[7].0, y[7].0, ((q + 40) % 128) as u128);
    lemma_gather8_xor(bit_of(x[0].0, q), bit_of(x[1].0, q), bit_of(x[2].0, q), bit_of(x[3].0, q), bit_of(x[4].0, q), bit_of(x[5].0, q), bit_of(x[6].0, q), bit_of(x[7].0, q), bit_of(y[0].0, ((q + 40) % 128) as u128), bit_of(y[1].0, ((q + 40) % 128) as u128), bit_of(y[2].0, ((q + 40) % 128) as u128), bit_of(y[3].0, ((q + 40) % 128) as u128), bit_of(y[4].0, ((q + 40) % 128) as u128), bit_of(y[5].0, ((q + 40) % 128) as u128), bit_of(y[6].0, ((q + 40) % 128) as u128), bit_of(y[7].0, ((q + 40) % 128) as u128));
    lemma_block_byte(o, k, j);
}

/// Byte `j` in column 3 of the plane formula `ks192_b`, block by block.
#[verifier::rlimit(100)]
proof fn lemma_ks192_b_byte_3(x: Seq<Lane>, y: Seq<Lane>, z: Seq<Lane>, o: Seq<Lane>, k: int, j: int)
    requires
        x.len() == 8,
        y.len() == 8,
        z.len() == 8,
        o.len() == 8,
        0 <= k < 8,
        0 <= j < 16,
        j / 4 == 3,
        forall|i: int| 0 <= i < 8 ==> #[trigger] o[i].0 == (x[i].0 ^ (col2_mask() & rotr128(y[i].0, 40))) ^ (col3_mask() & shl_b_spec(1, x[i].0 ^ (col2_mask() & rotr128(y[i].0, 40)))),
    ensures
        block_of(o, k)[j] == (block_of(x, k)[j] ^ (block_of(x, k)[j - 4] ^ block_of(y, k)[12 + ((j % 4) + 1) % 4])),
{
    let r = j % 4;
    let q = pos(byte_cell(j), k);
    lemma_cells_192(j, k);
    assert((q / 8) % 4 == 3);
    assert(o[0].0 == (x[0].0 ^ (col2_mask() & rotr128(y[0].0, 40))) ^ (col3_mask() & shl_b_spec(1, x[0].0 ^ (col2_mask() & rotr128(y[0].0, 40)))));
    lemma_ks192_bits_abe(x[0].0, y[0].0, z[0].0, q);
    assert(o[1].0 == (x[1].0 ^ (col2_mask() & rotr128(y[1].0, 40))) ^ (col3_mask() & shl_b_spec(1, x[1].0 ^ (col2_mask() & rotr128(y[1].0, 40)))));
    lemma_ks192_bits_abe(x[1].0, y[1].0, z[1].0, q);
    assert(o[2].0 == (x[2].0 ^ (col2_mask() & rotr128(y[2].0, 40))) ^ (col3_mask() & shl_b_spec(1, x[2].0 ^ (col2_mask() & rotr128(y[2].0, 40)))));
    lemma_ks192_bits_abe(x[2].0, y[2].0, z[2].0, q);
    assert(o[3].0 == (x[3].0 ^ (col2_mask() & rotr128(y[3].0, 40))) ^ (col3_mask() & shl_b_spec(1, x[3].0 ^ (col2_mask() & rotr128(y[3].0, 40)))));
    lemma_ks192_bits_abe(x[3].0, y[3].0, z[3].0, q);
    assert(o[4].0 == (x[4].0 ^ (col2_mask() & rotr128(y[4].0, 40))) ^ (col3_mask() & shl_b_spec(1, x[4].0 ^ (col2_mask() & rotr128(y[4].0, 40)))));
    lemma_ks192_bits_abe(x[4].0, y[4].0, z[4].0, q);
    assert(o[5].0 == (x[5].0 ^ (col2_mask() & rotr128(y[5].0, 40))) ^ (col3_mask() & shl_b_spec(1, x[5].0 ^ (col2_mask() & rotr128(y[5].0, 40)))));
    lemma_ks192_bits_abe(x[5].0, y[5].0, z[5].0, q);
    assert(o[6].0 == (x[6].0 ^ (col2_mask() & rotr128(y[6].0, 40))) ^ (col3_mask() & shl_b_spec(1, x[6].0 ^ (col2_mask() & rotr128(y[6].0, 40)))));
    lemma_ks192_bits_abe(x[6].0, y[6].0, z[6].0, q);
    assert(o[7].0 == (x[7].0 ^ (col2_mask() & rotr128(y[7].0, 40))) ^ (col3_mask() & shl_b_spec(1, x[7].0 ^ (col2_mask() & rotr128(y[7].0, 40)))));
    lemma_ks192_bits_abe(x[7].0, y[7].0, z[7].0, q);
    assert(q == pos(byte_cell(j), k));
    lemma_block_byte(x, k, j);
    lemma_bit_of_ops(x[0].0, x[0].0, q);
    lemma_bit_of_ops(x[1].0, x[1].0, q);
    lemma_bit_of_ops(x[2].0, x[2].0, q);
    lemma_bit_of_ops(x[3].0, x[3].0, q);
    lemma_bit_of_ops(x[4].0, x[4].0, q);
    lemma_bit_of_ops(x[5].0, x[5].0, q);
    lemma_bit_of_ops(x[6].0, x[6].0, q);
    lemma_bit_of_ops(x[7].0, x[7].0, q);
    assert((q - 8) as u128 == pos(byte_cell(j - 4), k));
    lemma_block_byte(x, k, j - 4);
    lemma_bit_of_ops(x[0].0, x[0].0, (q - 8) as u128);
    lemma_bit_of_ops(x[1].0, x[1].0, (q - 8) as u128);
    lemma_bit_of_ops(x[2].0, x[2].0, (q - 8) as u128);
    lemma_bit_of_ops(x[3].0, x[3].0, (q - 8) as u128);
    lemma_bit_of_ops(x[4].0, x[4].0, (q - 8) as u128);
    lemma_bit_of_ops(x[5].0, x[5].0, (q - 8) as u128);
    lemma_bit_of_ops(x[6].0, x[6].0, (q - 8) as u128);
    lemma_bit_of_ops(x[7].0, x[7].0, (q - 8) as u128);
    assert(((q + 32) % 128) as u128 == pos(byte_cell(12 + (r + 1) % 4), k));
    lemma_block_byte(y, k, 12 + (r + 1) % 4);
    lemma_bit_of_ops(y[0].0, y[0].0, ((q + 32) % 128) as u128);
    lemma_bit_of_ops(y[1].0, y[1].0, ((q + 32) % 128) as u128);
    lemma_bit_of_ops(y[2].0, y[2].0, ((q + 32) % 128) as u128);
    lemma_bit_of_ops(y[3].0, y[3].0, ((q + 32) % 128) as u128);
    lemma_bit_of_ops(y[4].0, y[4].0, ((q + 32) % 128) as u128);
    lemma_bit_of_ops(y[5].0, y[5].0, ((q + 32) % 128) as u128);
    lemma_bit_of_ops(y[6].0, y[6].0, ((q + 32) % 128) as u128);
    lemma_bit_of_ops(y[7].0, y[7].0, ((q + 32) % 128) as u128);
    lemma_gather8_xor(bit_of(x[0].0, (q - 8) as u128), bit_of(x[1].0, (q - 8) as u128), bit_of(x[2].0, (q - 8) as u128), bit_of(x[3].0, (q - 8) as u128), bit_of(x[4].0, (q - 8) as u128), bit_of(x[5].0, (q - 8) as u128), bit_of(x[6].0, (q - 8) as u128), bit_of(x[7].0, (q - 8) as u128), bit_of(y[0].0, ((q + 32) % 128) as u128), bit_of(y[1].0, ((q + 32) % 128) as u128), bit_of(y[2].0, ((q + 32) % 128) as u128), bit_of(y[3].0, ((q + 32) % 128) as u128), bit_of(y[4].0, ((q + 32) % 128) as u128), bit_of(y[5].0, ((q + 32) % 128) as u128), bit_of(y[6].0, ((q + 32) % 128) as u128), bit_of(y[7].0, ((q + 32) % 128) as u128));
    lemma_gather8_xor(bit_of(x[0].0, q), bit_of(x[1].0, q), bit_of(x[2].0, q), bit_of(x[3].0, q), bit_of(x[4].0, q), bit_of(x[5].0, q), bit_of(x[6].0, q), bit_of(x[7].0, q), (bit_of(x[0].0, (q - 8) as u128) ^ bit_of(y[0].0, ((q + 32) % 128) as u128)), (bit_of(x[1].0, (q - 8) as u128) ^ bit_of(y[1].0, ((q + 32) % 128) as u128)), (bit_of(x[2].0, (q - 8) as u128) ^ bit_of(y[2].0, ((q + 32) % 128) as u128)), (bit_of(x[3].0, (q - 8) as u128) ^ bit_of(y[3].0, ((q + 32) % 128) as u128)), (bit_of(x[4].0, (q - 8) as u128) ^ bit_of(y[4].0, ((q + 32) % 128) as u128)), (bit_of(x[5].0, (q - 8) as u128) ^ bit_of(y[5].0, ((q + 32) % 128) as u128)), (bit_of(x[6].0, (q - 8) as u128) ^ bit_of(y[6].0, ((q + 32) % 128) as u128)), (bit_of(x[7].0, (q - 8) as u128) ^ bit_of(y[7].0, ((q + 32) % 128) as u128)));
    lemma_block_byte(o, k, j);
}

/// Byte `j` in column 0 of the plane formula `ks192_e`, block by block.
#[verifier::rlimit(100)]
proof fn lemma_ks192_e_byte_0(x: Seq<Lane>, y: Seq<Lane>, z: Seq<Lane>, o: Seq<Lane>, k: int, j: int)
    requires
        x.len() == 8,
        y.len() == 8,
        z.len() == 8,
        o.len() == 8,
        0 <= k < 8,
        0 <= j < 16,
        j / 4 == 0,
        forall|i: int| 0 <= i < 8 ==> #[trigger] o[i].0 == (x[i].0 ^ (col2_mask() & shr_b_spec(1, y[i].0))) ^ (col3_mask() & shl_b_spec(1, x[i].0 ^ (col2_mask() & shr_b_spec(1, y[i].0)))),
    ensures
        block_of(o, k)[j] == block_of(x, k)[j],
{
    let r = j % 4;
    let q = pos(byte_cell(j), k);
    lemma_cells_192(j, k);
    assert((q / 8) % 4 == 0);
    assert(o[0].0 == (x[0].0 ^ (col2_mask() & shr_b_spec(1, y[0].0))) ^ (col3_mask() & shl_b_spec(1, x[0].0 ^ (col2_mask() & shr_b_spec(1, y[0].0)))));
    lemma_ks192_bits_abe(x[0].0, y[0].0, z[0].0, q);
    assert(o[1].0 == (x[1].0 ^ (col2_mask() & shr_b_spec(1, y[1].0))) ^ (col3_mask() & shl_b_spec(1, x[1].0 ^ (col2_mask() & shr_b_spec(1, y[1].0)))));
    lemma_ks192_bits_abe(x[1].0, y[1].0, z[1].0, q);
    assert(o[2].0 == (x[2].0 ^ (col2_mask() & shr_b_spec(1, y[2].0))) ^ (col3_mask() & shl_b_spec(1, x[2].0 ^ (col2_mask() & shr_b_spec(1, y[2].0)))));
    lemma_ks192_bits_abe(x[2].0, y[2].0, z[2].0, q);
    assert(o[3].0 == (x[3].0 ^ (col2_mask() & shr_b_spec(1, y[3].0))) ^ (col3_mask() & shl_b_spec(1, x[3].0 ^ (col2_mask() & shr_b_spec(1, y[3].0)))));
    lemma_ks192_bits_abe(x[3].0, y[3].0, z[3].0, q);
    assert(o[4].0 == (x[4].0 ^ (col2_mask() & shr_b_spec(1, y[4].0))) ^ (col3_mask() & shl_b_spec(1, x[4].0 ^ (col2_mask() & shr_b_spec(1, y[4].0)))));
    lemma_ks192_bits_abe(x[4].0, y[4].0, z[4].0, q);
    assert(o[5].0 == (x[5].0 ^ (col2_mask() & shr_b_spec(1, y[5].0))) ^ (col3_mask() & shl_b_spec(1, x[5].0 ^ (col2_mask() & shr_b_spec(1, y[5].0)))));
    lemma_ks192_bits_abe(x[5].0, y[5].0, z[5].0, q);
    assert(o[6].0 == (x[6].0 ^ (col2_mask() & shr_b_spec(1, y[6].0))) ^ (col3_mask() & shl_b_spec(1, x[6].0 ^ (col2_mask() & shr_b_spec(1, y[6].0)))));
    lemma_ks192_bits_abe(x[6].0, y[6].0, z[6].0, q);
    assert(o[7].0 == (x[7].0 ^ (col2_mask() & shr_b_spec(1, y[7].0))) ^ (col3_mask() & shl_b_spec(1, x[7].0 ^ (col2_mask() & shr_b_spec(1, y[7].0)))));
    lemma_ks192_bits_abe(x[7].0, y[7].0, z[7].0, q);
    assert(q == pos(byte_cell(j), k));
    lemma_block_byte(x, k, j);
    lemma_bit_of_ops(x[0].0, x[0].0, q);
    lemma_bit_of_ops(x[1].0, x[1].0, q);
    lemma_bit_of_ops(x[2].0, x[2].0, q);
    lemma_bit_of_ops(x[3].0, x[3].0, q);
    lemma_bit_of_ops(x[4].0, x[4].0, q);
    lemma_bit_of_ops(x[5].0, x[5].0, q);
    lemma_bit_of_ops(x[6].0, x[6].0, q);
    lemma_bit_of_ops(x[7].0, x[7].0, q);
    lemma_block_byte(o, k, j);
}

/// Byte `j` in column 1 of the plane formula `ks192_e`, block by block.
#[verifier::rlimit(100)]
proof fn lemma_ks192_e_byte_1(x: Seq<Lane>, y: Seq<Lane>, z: Seq<Lane>, o: Seq<Lane>, k: int, j: int)
    requires
        x.len() == 8,
        y.len() == 8,
        z.len() == 8,
        o.len() == 8,
        0 <= k < 8,
        0 <= j < 16,
        j / 4 == 1,
        forall|i: int| 0 <= i < 8 ==> #[trigger] o[i].0 == (x[i].0 ^ (col2_mask() & shr_b_spec(1, y[i].0))) ^ (col3_mask() & shl_b_spec(1, x[i].0 ^ (col2_mask() & shr_b_spec(1, y[i].0)))),
    ensures
        block_of(o, k)[j] == block_of(x, k)[j],
{
    let r = j % 4;
    let q = pos(byte_cell(j), k);
    lemma_cells_192(j, k);
    assert((q / 8) % 4 == 1);
    assert(o[0].0 == (x[0].0 ^ (col2_mask() & shr_b_spec(1, y[0].0))) ^ (col3_mask() & shl_b_spec(1, x[0].0 ^ (col2_mask() & shr_b_spec(1, y[0].0)))));
    lemma_ks192_bits_abe(x[0].0, y[0].0, z[0].0, q);
    assert(o[1].0 == (x[1].0 ^ (col2_mask() & shr_b_spec(1, y[1].0))) ^ (col3_mask() & shl_b_spec(1, x[1].0 ^ (col2_mask() & shr_b_spec(1, y[1].0)))));
    lemma_ks192_bits_abe(x[1].0, y[1].0, z[1].0, q);
    assert(o[2].0 == (x[2].0 ^ (col2_mask() & shr_b_spec(1, y[2].0))) ^ (col3_mask() & shl_b_spec(1, x[2].0 ^ (col2_mask() & shr_b_spec(1, y[2].0)))));
    lemma_ks192_bits_abe(x[2].0, y[2].0, z[2].0, q);
    assert(o[3].0 == (x[3].0 ^ (col2_mask() & shr_b_spec(1, y[3].0))) ^ (col3_mask() & shl_b_spec(1, x[3].0 ^ (col2_mask() & shr_b_spec(1, y[3].0)))));
    lemma_ks192_bits_abe(x[3].0, y[3].0, z[3].0, q);
    assert(o[4].0 == (x[4].0 ^ (col2_mask() & shr_b_spec(1, y[4].0))) ^ (col3_mask() & shl_b_spec(1, x[4].0 ^ (col2_mask() & shr_b_spec(1, y[4].0)))));
    lemma_ks192_bits_abe(x[4].0, y[4].0, z[4].0, q);
    assert(o[5].0 == (x[5].0 ^ (col2_mask() & shr_b_spec(1, y[5].0))) ^ (col3_mask() & shl_b_spec(1, x[5].0 ^ (col2_mask() & shr_b_spec(1, y[5].0)))));
    lemma_ks192_bits_abe(x[5].0, y[5].0, z[5].0, q);
    assert(o[6].0 == (x[6].0 ^ (col2_mask() & shr_b_spec(1, y[6].0))) ^ (col3_mask() & shl_b_spec(1, x[6].0 ^ (col2_mask() & shr_b_spec(1, y[6].0)))));
    lemma_ks192_bits_abe(x[6].0, y[6].0, z[6].0, q);
    assert(o[7].0 == (x[7].0 ^ (col2_mask() & shr_b_spec(1, y[7].0))) ^ (col3_mask() & shl_b_spec(1, x[7].0 ^ (col2_mask() & shr_b_spec(1, y[7].0)))));
    lemma_ks192_bits_abe(x[7].0, y[7].0, z[7].0, q);
    assert(q == pos(byte_cell(j), k));
    lemma_block_byte(x, k, j);
    lemma_bit_of_ops(x[0].0, x[0].0, q);
    lemma_bit_of_ops(x[1].0, x[1].0, q);
    lemma_bit_of_ops(x[2].0, x[2].0, q);
    lemma_bit_of_ops(x[3].0, x[3].0, q);
    lemma_bit_of_ops(x[4].0, x[4].0, q);
    lemma_bit_of_ops(x[5].0, x[5].0, q);
    lemma_bit_of_ops(x[6].0, x[6].0, q);
    lemma_bit_of_ops(x[7].0, x[7].0, q);
    lemma_block_byte(o, k, j);
}

/// Byte `j` in column 2 of the plane formula `ks192_e`, block by block.
#[verifier::rlimit(100)]
proof fn lemma_ks192_e_byte_2(x: Seq<Lane>, y: Seq<Lane>, z: Seq<Lane>, o: Seq<Lane>, k: int, j: int)
    requires
        x.len() == 8,
        y.len() == 8,
        z.len() == 8,
        o.len() == 8,
        0 <= k < 8,
        0 <= j < 16,
        j / 4 == 2,
        forall|i: int| 0 <= i < 8 ==> #[trigger] o[i].0 == (x[i].0 ^ (col2_mask() & shr_b_spec(1, y[i].0))) ^ (col3_mask() & shl_b_spec(1, x[i].0 ^ (col2_mask() & shr_b_spec(1, y[i].0)))),
    ensures
        block_of(o, k)[j] == (block_of(x, k)[j] ^ block_of(y, k)[j + 4]),
{
    let r = j % 4;
    let q = pos(byte_cell(j), k);
    lemma_cells_192(j, k);
    assert((q / 8) % 4 == 2);
    assert(o[0].0 == (x[0].0 ^ (col2_mask() & shr_b_spec(1, y[0].0))) ^ (col3_mask() & shl_b_spec(1, x[0].0 ^ (col2_mask() & shr_b_spec(1, y[0].0)))));
    lemma_ks192_bits_abe(x[0].0, y[0].0, z[0].0, q);
    assert(o[1].0 == (x[1].0 ^ (col2_mask() & shr_b_spec(1, y[1].0))) ^ (col3_mask() & shl_b_spec(1, x[1].0 ^ (col2_mask() & shr_b_spec(1, y[1].0)))));
    lemma_ks192_bits_abe(x[1].0, y[1].0, z[1].0, q);
    assert(o[2].0 == (x[2].0 ^ (col2_mask() & shr_b_spec(1, y[2].0))) ^ (col3_mask() & shl_b_spec(1, x[2].0 ^ (col2_mask() & shr_b_spec(1, y[2].0)))));
    lemma_ks192_bits_abe(x[2].0, y[2].0, z[2].0, q);
    assert(o[3].0 == (x[3].0 ^ (col2_mask() & shr_b_spec(1, y[3].0))) ^ (col3_mask() & shl_b_spec(1, x[3].0 ^ (col2_mask() & shr_b_spec(1, y[3].0)))));
    lemma_ks192_bits_abe(x[3].0, y[3].0, z[3].0, q);
    assert(o[4].0 == (x[4].0 ^ (col2_mask() & shr_b_spec(1, y[4].0))) ^ (col3_mask() & shl_b_spec(1, x[4].0 ^ (col2_mask() & shr_b_spec(1, y[4].0)))));
    lemma_ks192_bits_abe(x[4].0, y[4].0, z[4].0, q);
    assert(o[5].0 == (x[5].0 ^ (col2_mask() & shr_b_spec(1, y[5].0))) ^ (col3_mask() & shl_b_spec(1, x[5].0 ^ (col2_mask() & shr_b_spec(1, y[5].0)))));
    lemma_ks192_bits_abe(x[5].0, y[5].0, z[5].0, q);
    assert(o[6].0 == (x[6].0 ^ (col2_mask() & shr_b_spec(1, y[6].0))) ^ (col3_mask() & shl_b_spec(1, x[6].0 ^ (col2_mask() & shr_b_spec(1, y[6].0)))));
    lemma_ks192_bits_abe(x[6].0, y[6].0, z[6].0, q);
    assert(o[7].0 == (x[7].0 ^ (col2_mask() & shr_b_spec(1, y[7].0))) ^ (col3_mask() & shl_b_spec(1, x[7].0 ^ (col2_mask() & shr_b_spec(1, y[7].0)))));
    lemma_ks192_bits_abe(x[7].0, y[7].0, z[7].0, q);
    assert(q == pos(byte_cell(j), k));
    lemma_block_byte(x, k, j);
    lemma_bit_of_ops(x[0].0, x[0].0, q);
    lemma_bit_of_ops(x[1].0, x[1].0, q);
    lemma_bit_of_ops(x[2].0, x[2].0, q);
    lemma_bit_of_ops(x[3].0, x[3].0, q);
    lemma_bit_of_ops(x[4].0, x[4].0, q);
    lemma_bit_of_ops(x[5].0, x[5].0, q);
    lemma_bit_of_ops(x[6].0, x[6].0, q);
    lemma_bit_of_ops(x[7].0, x[7].0, q);
    assert((q + 8) as u128 == pos(byte_cell(j + 4), k));
    lemma_block_byte(y, k, j + 4);
    lemma_bit_of_ops(y[0].0, y[0].0, (q + 8) as u128);
    lemma_bit_of_ops(y[1].0, y[1].0, (q + 8) as u128);
    lemma_bit_of_ops(y[2].0, y[2].0, (q + 8) as u128);
    lemma_bit_of_ops(y[3].0, y[3].0, (q + 8) as u128);
    lemma_bit_of_ops(y[4].0, y[4].0, (q + 8) as u128);
    lemma_bit_of_ops(y[5].0, y[5].0, (q + 8) as u128);
    lemma_bit_of_ops(y[6].0, y[6].0, (q + 8) as u128);
    lemma_bit_of_ops(y[7].0, y[7].0, (q + 8) as u128);
    lemma_gather8_xor(bit_of(x[0].0, q), bit_of(x[1].0, q), bit_of(x[2].0, q), bit_of(x[3].0, q), bit_of(x[4].0, q), bit_of(x[5].0, q), bit_of(x[6].0, q), bit_of(x[7].0, q), bit_of(y[0].0, (q + 8) as u128), bit_of(y[1].0, (q + 8) as u128), bit_of(y[2].0, (q + 8) as u128), bit_of(y[3].0, (q + 8) as u128), bit_of(y[4].0, (q + 8) as u128), bit_of(y[5].0, (q + 8) as u128), bit_of(y[6].0, (q + 8) as u128), bit_of(y[7].0, (q + 8) as u128));
    lemma_block_byte(o, k, j);
}

/// Byte `j` in column 3 of the plane formula `ks192_e`, block by block.
#[verifier::rlimit(100)]
proof fn lemma_ks192_e_byte_3(x: Seq<Lane>, y: Seq<Lane>, z: Seq<Lane>, o: Seq<Lane>, k: int, j: int)
    requires
        x.len() == 8,
        y.len() == 8,
        z.len() == 8,
        o.len() == 8,
        0 <= k < 8,
        0 <= j < 16,
        j / 4 == 3,
        forall|i: int| 0 <= i < 8 ==> #[trigger] o[i].0 == (x[i].0 ^ (col2_mask() & shr_b_spec(1, y[i].0))) ^ (col3_mask() & shl_b_spec(1, x[i].0 ^ (col2_mask() & shr_b_spec(1, y[i].0)))),
    ensures
        block_of(o, k)[j] == (block_of(x, k)[j] ^ (block_of(x, k)[j - 4] ^ block_of(y, k)[j])),
{
    let r = j % 4;
    let q = pos(byte_cell(j), k);
    lemma_cells_192(j, k);
    assert((q / 8) % 4 == 3);
    assert(o[0].0 == (x[0].0 ^ (col2_mask() & shr_b_spec(1, y[0].0))) ^ (col3_mask() & shl_b_spec(1, x[0].0 ^ (col2_mask() & shr_b_spec(1, y[0].0)))));
    lemma_ks192_bits_abe(x[0].0, y[0].0, z[0].0, q);
    assert(o[1].0 == (x[1].0 ^ (col2_mask() & shr_b_spec(1, y[1].0))) ^ (col3_mask() & shl_b_spec(1, x[1].0 ^ (col2_mask() & shr_b_spec(1, y[1].0)))));
    lemma_ks192_bits_abe(x[1].0, y[1].0, z[1].0, q);
    assert(o[2].0 == (x[2].0 ^ (col2_mask() & shr_b_spec(1, y[2].0))) ^ (col3_mask() & shl_b_spec(1, x[2].0 ^ (col2_mask() & shr_b_spec(1, y[2].0)))));
    lemma_ks192_bits_abe(x[2].0, y[2].0, z[2].0, q);
    assert(o[3].0 == (x[3].0 ^ (col2_mask() & shr_b_spec(1, y[3].0))) ^ (col3_mask() & shl_b_spec(1, x[3].0 ^ (col2_mask() & shr_b_spec(1, y[3].0)))));
    lemma_ks192_bits_abe(x[3].0, y[3].0, z[3].0, q);
    assert(o[4].0 == (x[4].0 ^ (col2_mask() & shr_b_spec(1, y[4].0))) ^ (col3_mask() & shl_b_spec(1, x[4].0 ^ (col2_mask() & shr_b_spec(1, y[4].0)))));
    lemma_ks192_bits_abe(x[4].0, y[4].0, z[4].0, q);
    assert(o[5].0 == (x[5].0 ^ (col2_mask() & shr_b_spec(1, y[5].0))) ^ (col3_mask() & shl_b_spec(1, x[5].0 ^ (col2_mask() & shr_b_spec(1, y[5].0)))));
    lemma_ks192_bits_abe(x[5].0, y[5].0, z[5].0, q);
    assert(o[6].0 == (x[6].0 ^ (col2_mask() & shr_b_spec(1, y[6].0))) ^ (col3_mask() & shl_b_spec(1, x[6].0 ^ (col2_mask() & shr_b_spec(1, y[6].0)))));
    lemma_ks192_bits_abe(x[6].0, y[6].0, z[6].0, q);
    assert(o[7].0 == (x[7].0 ^ (col2_mask() & shr_b_spec(1, y[7].0))) ^ (col3_mask() & shl_b_spec(1, x[7].0 ^ (col2_mask() & shr_b_spec(1, y[7].0)))));
    lemma_ks192_bits_abe(x[7].0, y[7].0, z[7].0, q);
    assert(q == pos(byte_cell(j), k));
    lemma_block_byte(x, k, j);
    lemma_bit_of_ops(x[0].0, x[0].0, q);
    lemma_bit_of_ops(x[1].0, x[1].0, q);
    lemma_bit_of_ops(x[2].0, x[2].0, q);
    lemma_bit_of_ops(x[3].0, x[3].0, q);
    lemma_bit_of_ops(x[4].0, x[4].0, q);
    lemma_bit_of_ops(x[5].0, x[5].0, q);
    lemma_bit_of_ops(x[6].0, x[6].0, q);
    lemma_bit_of_ops(x[7].0, x[7].0, q);
    assert((q - 8) as u128 == pos(byte_cell(j - 4), k));
    lemma_block_byte(x, k, j - 4);
    lemma_bit_of_ops(x[0].0, x[0].0, (q - 8) as u128);
    lemma_bit_of_ops(x[1].0, x[1].0, (q - 8) as u128);
    lemma_bit_of_ops(x[2].0, x[2].0, (q - 8) as u128);
    lemma_bit_of_ops(x[3].0, x[3].0, (q - 8) as u128);
    lemma_bit_of_ops(x[4].0, x[4].0, (q - 8) as u128);
    lemma_bit_of_ops(x[5].0, x[5].0, (q - 8) as u128);
    lemma_bit_of_ops(x[6].0, x[6].0, (q - 8) as u128);
    lemma_bit_of_ops(x[7].0, x[7].0, (q - 8) as u128);
    assert(q == pos(byte_cell(j), k));
    lemma_block_byte(y, k, j);
    lemma_bit_of_ops(y[0].0, y[0].0, q);
    lemma_bit_of_ops(y[1].0, y[1].0, q);
    lemma_bit_of_ops(y[2].0, y[2].0, q);
    lemma_bit_of_ops(y[3].0, y[3].0, q);
    lemma_bit_of_ops(y[4].0, y[4].0, q);
    lemma_bit_of_ops(y[5].0, y[5].0, q);
    lemma_bit_of_ops(y[6].0, y[6].0, q);
    lemma_bit_of_ops(y[7].0, y[7].0, q);
    lemma_gather8_xor(bit_of(x[0].0, (q - 8) as u128), bit_of(x[1].0, (q - 8) as u128), bit_of(x[2].0, (q - 8) as u128), bit_of(x[3].0, (q - 8) as u128), bit_of(x[4].0, (q - 8) as u128), bit_of(x[5].0, (q - 8) as u128), bit_of(x[6].0, (q - 8) as u128), bit_of(x[7].0, (q - 8) as u128), bit_of(y[0].0, q), bit_of(y[1].0, q), bit_of(y[2].0, q), bit_of(y[3].0, q), bit_of(y[4].0, q), bit_of(y[5].0, q), bit_of(y[6].0, q), bit_of(y[7].0, q));
    lemma_gather8_xor(bit_of(x[0].0, q), bit_of(x[1].0, q), bit_of(x[2].0, q), bit_of(x[3].0, q), bit_of(x[4].0, q), bit_of(x[5].0, q), bit_of(x[6].0, q), bit_of(x[7].0, q), (bit_of(x[0].0, (q - 8) as u128) ^ bit_of(y[0].0, q)), (bit_of(x[1].0, (q - 8) as u128) ^ bit_of(y[1].0, q)), (bit_of(x[2].0, (q - 8) as u128) ^ bit_of(y[2].0, q)), (bit_of(x[3].0, (q - 8) as u128) ^ bit_of(y[3].0, q)), (bit_of(x[4].0, (q - 8) as u128) ^ bit_of(y[4].0, q)), (bit_of(x[5].0, (q - 8) as u128) ^ bit_of(y[5].0, q)), (bit_of(x[6].0, (q - 8) as u128) ^ bit_of(y[6].0, q)), (bit_of(x[7].0, (q - 8) as u128) ^ bit_of(y[7].0, q)));
    lemma_block_byte(o, k, j);
}

/// Byte `j` in column 0 of the plane formula `ks192_c`, block by block.
#[verifier::rlimit(100)]
proof fn lemma_ks192_c_byte_0(x: Seq<Lane>, y: Seq<Lane>, z: Seq<Lane>, o: Seq<Lane>, k: int, j: int)
    requires
        x.len() == 8,
        y.len() == 8,
        z.len() == 8,
        o.len() == 8,
        0 <= k < 8,
        0 <= j < 16,
        j / 4 == 0,
        forall|i: int| 0 <= i < 8 ==> #[trigger] o[i].0 == prefix_columns(((cols01_mask() & shr_b_spec(2, x[i].0)) | (cols23_mask() & shl_b_spec(2, y[i].0))) ^ (col0_mask() & shr_b_spec(3, y[i].0))),
    ensures
        block_of(o, k)[j] == (block_of(x, k)[(j % 4) + 8] ^ block_of(y, k)[(j % 4) + 12]),
{
    let r = j % 4;
    let q = pos(byte_cell(j), k);
    lemma_cells_192(j, k);
    assert((q / 8) % 4 == 0);
    assert(o[0].0 == prefix_columns(((cols01_mask() & shr_b_spec(2, x[0].0)) | (cols23_mask() & shl_b_spec(2, y[0].0))) ^ (col0_mask() & shr_b_spec(3, y[0].0))));
    lemma_ks192_bits_cd(x[0].0, y[0].0, z[0].0, q);
    assert(o[1].0 == prefix_columns(((cols01_mask() & shr_b_spec(2, x[1].0)) | (cols23_mask() & shl_b_spec(2, y[1].0))) ^ (col0_mask() & shr_b_spec(3, y[1].0))));
    lemma_ks192_bits_cd(x[1].0, y[1].0, z[1].0, q);
    assert(o[2].0 == prefix_columns(((cols01_mask() & shr_b_spec(2, x[2].0)) | (cols23_mask() & shl_b_spec(2, y[2].0))) ^ (col0_mask() & shr_b_spec(3, y[2].0))));
    lemma_ks192_bits_cd(x[2].0, y[2].0, z[2].0, q);
    assert(o[3].0 == prefix_columns(((cols01_mask() & shr_b_spec(2, x[3].0)) | (cols23_mask() & shl_b_spec(2, y[3].0))) ^ (col0_mask() & shr_b_spec(3, y[3].0))));
    lemma_ks192_bits_cd(x[3].0, y[3].0, z[3].0, q);
    assert(o[4].0 == prefix_columns(((cols01_mask() & shr_b_spec(2, x[4].0)) | (cols23_mask() & shl_b_spec(2, y[4].0))) ^ (col0_mask() & shr_b_spec(3, y[4].0))));
    lemma_ks192_bits_cd(x[4].0, y[4].0, z[4].0, q);
    assert(o[5].0 == prefix_columns(((cols01_mask() & shr_b_spec(2, x[5].0)) | (cols23_mask() & shl_b_spec(2, y[5].0))) ^ (col0_mask() & shr_b_spec(3, y[5].0))));
    lemma_ks192_bits_cd(x[5].0, y[5].0, z[5].0, q);
    assert(o[6].0 == prefix_columns(((cols01_mask() & shr_b_spec(2, x[6].0)) | (cols23_mask() & shl_b_spec(2, y[6].0))) ^ (col0_mask() & shr_b_spec(3, y[6].0))));
    lemma_ks192_bits_cd(x[6].0, y[6].0, z[6].0, q);
    assert(o[7].0 == prefix_columns(((cols01_mask() & shr_b_spec(2, x[7].0)) | (cols23_mask() & shl_b_spec(2, y[7].0))) ^ (col0_mask() & shr_b_spec(3, y[7].0))));
    lemma_ks192_bits_cd(x[7].0, y[7].0, z[7].0, q);
    assert((q + 16) as u128 == pos(byte_cell(r + 8), k));
    lemma_block_byte(x, k, r + 8);
    lemma_bit_of_ops(x[0].0, x[0].0, (q + 16) as u128);
    lemma_bit_of_ops(x[1].0, x[1].0, (q + 16) as u128);
    lemma_bit_of_ops(x[2].0, x[2].0, (q + 16) as u128);
    lemma_bit_of_ops(x[3].0, x[3].0, (q + 16) as u128);
    lemma_bit_of_ops(x[4].0, x[4].0, (q + 16) as u128);
    lemma_bit_of_ops(x[5].0, x[5].0, (q + 16) as u128);
    lemma_bit_of_ops(x[6].0, x[6].0, (q + 16) as u128);
    lemma_bit_of_ops(x[7].0, x[7].0, (q + 16) as u128);
    assert((q + 24) as u128 == pos(byte_cell(r + 12), k));
    lemma_block_byte(y, k, r + 12);
    lemma_bit_of_ops(y[0].0, y[0].0, (q + 24) as u128);
    lemma_bit_of_ops(y[1].0, y[1].0, (q + 24) as u128);
    lemma_bit_of_ops(y[2].0, y[2].0, (q + 24) as u128);
    lemma_bit_of_ops(y[3].0, y[3].0, (q + 24) as u128);
    lemma_bit_of_ops(y[4].0, y[4].0, (q + 24) as u128);
    lemma_bit_of_ops(y[5].0, y[5].0, (q + 24) as u128);
    lemma_bit_of_ops(y[6].0, y[6].0, (q + 24) as u128);
    lemma_bit_of_ops(y[7].0, y[7].0, (q + 24) as u128);
    lemma_gather8_xor(bit_of(x[0].0, (q + 16) as u128), bit_of(x[1].0, (q + 16) as u128), bit_of(x[2].0, (q + 16) as u128), bit_of(x[3].0, (q + 16) as u128), bit_of(x[4].0, (q + 16) as u128), bit_of(x[5].0, (q + 16) as u128), bit_of(x[6].0, (q + 16) as u128), bit_of(x[7].0, (q + 16) as u128), bit_of(y[0].0, (q + 24) as u128), bit_of(y[1].0, (q + 24) as u128), bit_of(y[2].0, (q + 24) as u128), bit_of(y[3].0, (q + 24) as u128), bit_of(y[4].0, (q + 24) as u128), bit_of(y[5].0, (q + 24) as u128), bit_of(y[6].0, (q + 24) as u128), bit_of(y[7].0, (q + 24) as u128));
    lemma_block_byte(o, k, j);
}

/// Byte `j` in column 1 of the plane formula `ks192_c`, block by block.
#[verifier::rlimit(100)]
proof fn lemma_ks192_c_byte_1(x: Seq<Lane>, y: Seq<Lane>, z: Seq<Lane>, o: Seq<Lane>, k: int, j: int)
    requires
        x.len() == 8,
        y.len() == 8,
        z.len() == 8,
        o.len() == 8,
        0 <= k < 8,
        0 <= j < 16,
        j / 4 == 1,
        forall|i: int| 0 <= i < 8 ==> #[trigger] o[i].0 == prefix_columns(((cols01_mask() & shr_b_spec(2, x[i].0)) | (cols23_mask() & shl_b_spec(2, y[i].0))) ^ (col0_mask() & shr_b_spec(3, y[i].0))),
    ensures
        block_of(o, k)[j] == (block_of(x, k)[(j % 4) + 12] ^ (block_of(x, k)[(j % 4) + 8] ^ block_of(y, k)[(j % 4) + 12])),
{
    let r = j % 4;
    let q = pos(byte_cell(j), k);
    lemma_cells_192(j, k);
    assert((q / 8) % 4 == 1);
    assert(o[0].0 == prefix_columns(((cols01_mask() & shr_b_spec(2, x[0].0)) | (cols23_mask() & shl_b_spec(2, y[0].0))) ^ (col0_mask() & shr_b_spec(3, y[0].0))));
    lemma_ks192_bits_cd(x[0].0, y[0].0, z[0].0, q);
    assert(o[1].0 == prefix_columns(((cols01_mask() & shr_b_spec(2, x[1].0)) | (cols23_mask() & shl_b_spec(2, y[1].0))) ^ (col0_mask() & shr_b_spec(3, y[1].0))));
    lemma_ks192_bits_cd(x[1].0, y[1].0, z[1].0, q);
    assert(o[2].0 == prefix_columns(((cols01_mask() & shr_b_spec(2, x[2].0)) | (cols23_mask() & shl_b_spec(2, y[2].0))) ^ (col0_mask() & shr_b_spec(3, y[2].0))));
    lemma_ks192_bits_cd(x[2].0, y[2].0, z[2].0, q);
    assert(o[3].0 == prefix_columns(((cols01_mask() & shr_b_spec(2, x[3].0)) | (cols23_mask() & shl_b_spec(2, y[3].0))) ^ (col0_mask() & shr_b_spec(3, y[3].0))));
    lemma_ks192_bits_cd(x[3].0, y[3].0, z[3].0, q);
    assert(o[4].0 == prefix_columns(((cols01_mask() & shr_b_spec(2, x[4].0)) | (cols23_mask() & shl_b_spec(2, y[4].0))) ^ (col0_mask() & shr_b_spec(3, y[4].0))));
    lemma_ks192_bits_cd(x[4].0, y[4].0, z[4].0, q);
    assert(o[5].0 == prefix_columns(((cols01_mask() & shr_b_spec(2, x[5].0)) | (cols23_mask() & shl_b_spec(2, y[5].0))) ^ (col0_mask() & shr_b_spec(3, y[5].0))));
    lemma_ks192_bits_cd(x[5].0, y[5].0, z[5].0, q);
    assert(o[6].0 == prefix_columns(((cols01_mask() & shr_b_spec(2, x[6].0)) | (cols23_mask() & shl_b_spec(2, y[6].0))) ^ (col0_mask() & shr_b_spec(3, y[6].0))));
    lemma_ks192_bits_cd(x[6].0, y[6].0, z[6].0, q);
    assert(o[7].0 == prefix_columns(((cols01_mask() & shr_b_spec(2, x[7].0)) | (cols23_mask() & shl_b_spec(2, y[7].0))) ^ (col0_mask() & shr_b_spec(3, y[7].0))));
    lemma_ks192_bits_cd(x[7].0, y[7].0, z[7].0, q);
    assert((q + 16) as u128 == pos(byte_cell(r + 12), k));
    lemma_block_byte(x, k, r + 12);
    lemma_bit_of_ops(x[0].0, x[0].0, (q + 16) as u128);
    lemma_bit_of_ops(x[1].0, x[1].0, (q + 16) as u128);
    lemma_bit_of_ops(x[2].0, x[2].0, (q + 16) as u128);
    lemma_bit_of_ops(x[3].0, x[3].0, (q + 16) as u128);
    lemma_bit_of_ops(x[4].0, x[4].0, (q + 16) as u128);
    lemma_bit_of_ops(x[5].0, x[5].0, (q + 16) as u128);
    lemma_bit_of_ops(x[6].0, x[6].0, (q + 16) as u128);
    lemma_bit_of_ops(x[7].0, x[7].0, (q + 16) as u128);
    assert((q + 8) as u128 == pos(byte_cell(r + 8), k));
    lemma_block_byte(x, k, r + 8);
    lemma_bit_of_ops(x[0].0, x[0].0, (q + 8) as u128);
    lemma_bit_of_ops(x[1].0, x[1].0, (q + 8) as u128);
    lemma_bit_of_ops(x[2].0, x[2].0, (q + 8) as u128);
    lemma_bit_of_ops(x[3].0, x[3].0, (q + 8) as u128);
    lemma_bit_of_ops(x[4].0, x[4].0, (q + 8) as u128);
    lemma_bit_of_ops(x[5].0, x[5].0, (q + 8) as u128);
    lemma_bit_of_ops(x[6].0, x[6].0, (q + 8) as u128);
    lemma_bit_of_ops(x[7].0, x[7].0, (q + 8) as u128);
    assert((q + 16) as u128 == pos(byte_cell(r + 12), k));
    lemma_block_byte(y, k, r + 12);
    lemma_bit_of_ops(y[0].0, y[0].0, (q + 16) as u128);
    lemma_bit_of_ops(y[1].0, y[1].0, (q + 16) as u128);
    lemma_bit_of_ops(y[2].0, y[2].0, (q + 16) as u128);
    lemma_bit_of_ops(y[3].0, y[3].0, (q + 16) as u128);
    lemma_bit_of_ops(y[4].0, y[4].0, (q + 16) as u128);
    lemma_bit_of_ops(y[5].0, y[5].0, (q + 16) as u128);
    lemma_bit_of_ops(y[6].0, y[6].0, (q + 16) as u128);
    lemma_bit_of_ops(y[7].0, y[7].0, (q + 16) as u128);
    lemma_gather8_xor(bit_of(x[0].0, (q + 8) as u128), bit_of(x[1].0, (q + 8) as u128), bit_of(x[2].0, (q + 8) as u128), bit_of(x[3].0, (q + 8) as u128), bit_of(x[4].0, (q + 8) as u128), bit_of(x[5].0, (q + 8) as u128), bit_of(x[6].0, (q + 8) as u128), bit_of(x[7].0, (q + 8) as u128), bit_of(y[0].0, (q + 16) as u128), bit_of(y[1].0, (q + 16) as u128), bit_of(y[2].0, (q + 16) as u128), bit_of(y[3].0, (q + 16) as u128), bit_of(y[4].0, (q + 16) as u128), bit_of(y[5].0, (q + 16) as u128), bit_of(y[6].0, (q + 16) as u128), bit_of(y[7].0, (q + 16) as u128));
    lemma_gather8_xor(bit_of(x[0].0, (q + 16) as u128), bit_of(x[1].0, (q + 16) as u128), bit_of(x[2].0, (q + 16) as u128), bit_of(x[3].0, (q + 16) as u128), bit_of(x[4].0, (q + 16) as u128), bit_of(x[5].0, (q + 16) as u128), bit_of(x[6].0, (q + 16) as u128), bit_of(x[7].0, (q + 16) as u128), (bit_of(x[0].0, (q + 8) as u128) ^ bit_of(y[0].0, (q + 16) as u128)), (bit_of(x[1].0, (q + 8) as u128) ^ bit_of(y[1].0, (q + 16) as u128)), (bit_of(x[2].0, (q + 8) as u128) ^ bit_of(y[2].0, (q + 16) as u128)), (bit_of(x[3].0, (q + 8) as u128) ^ bit_of(y[3].0, (q + 16) as u128)), (bit_of(x[4].0, (q + 8) as u128) ^ bit_of(y[4].0, (q + 16) as u128)), (bit_of(x[5].0, (q + 8) as u128) ^ bit_of(y[5].0, (q + 16) as u128)), (bit_of(x[6].0, (q + 8) as u128) ^ bit_of(y[6].0, (q + 16) as u128)), (bit_of(x[7].0, (q + 8) as u128) ^ bit_of(y[7].0, (q + 16) as u128)));
    lemma_block_byte(o, k, j);
}

/// Byte `j` in column 2 of the plane formula `ks192_c`, block by block.
#[verifier::rlimit(100)]
proof fn lemma_ks192_c_byte_2(x: Seq<Lane>, y: Seq<Lane>, z: Seq<Lane>, o: Seq<Lane>, k: int, j: int)
    requires
        x.len() == 8,
        y.len() == 8,
        z.len() == 8,
        o.len() == 8,
        0 <= k < 8,
        0 <= j < 16,
        j / 4 == 2,
        forall|i: int| 0 <= i < 8 ==> #[trigger] o[i].0 == prefix_columns(((cols01_mask() & shr_b_spec(2, x[i].0)) | (cols23_mask() & shl_b_spec(2, y[i].0))) ^ (col0_mask() & shr_b_spec(3, y[i].0))),
    ensures
        block_of(o, k)[j] == (block_of(y, k)[(j % 4)] ^ (block_of(x, k)[(j % 4) + 12] ^ (block_of(x, k)[(j % 4) + 8] ^ block_of(y, k)[(j % 4) + 12]))),
{
    let r = j % 4;
    let q = pos(byte_cell(j), k);
    lemma_cells_192(j, k);
    assert((q / 8) % 4 == 2);
    assert(o[0].0 == prefix_columns(((cols01_mask() & shr_b_spec(2, x[0].0)) | (cols23_mask() & shl_b_spec(2, y[0].0))) ^ (col0_mask() & shr_b_spec(3, y[0].0))));
    lemma_ks192_bits_cd(x[0].0, y[0].0, z[0].0, q);
    assert(o[1].0 == prefix_columns(((cols01_mask() & shr_b_spec(2, x[1].0)) | (cols23_mask() & shl_b_spec(2, y[1].0))) ^ (col0_mask() & shr_b_spec(3, y[1].0))));
    lemma_ks192_bits_cd(x[1].0, y[1].0, z[1].0, q);
    assert(o[2].0 == prefix_columns(((cols01_mask() & shr_b_spec(2, x[2].0)) | (cols23_mask() & shl_b_spec(2, y[2].0))) ^ (col0_mask() & shr_b_spec(3, y[2].0))));
    lemma_ks192_bits_cd(x[2].0, y[2].0, z[2].0, q);
    assert(o[3].0 == prefix_columns(((cols01_mask() & shr_b_spec(2, x[3].0)) | (cols23_mask() & shl_b_spec(2, y[3].0))) ^ (col0_mask() & shr_b_spec(3, y[3].0))));
    lemma_ks192_bits_cd(x[3].0, y[3].0, z[3].0, q);
    assert(o[4].0 == prefix_columns(((cols01_mask() & shr_b_spec(2, x[4].0)) | (cols23_mask() & shl_b_spec(2, y[4].0))) ^ (col0_mask() & shr_b_spec(3, y[4].0))));
    lemma_ks192_bits_cd(x[4].0, y[4].0, z[4].0, q);
    assert(o[5].0 == prefix_columns(((cols01_mask() & shr_b_spec(2, x[5].0)) | (cols23_mask() & shl_b_spec(2, y[5].0))) ^ (col0_mask() & shr_b_spec(3, y[5].0))));
    lemma_ks192_bits_cd(x[5].0, y[5].0, z[5].0, q);
    assert(o[6].0 == prefix_columns(((cols01_mask() & shr_b_spec(2, x[6].0)) | (cols23_mask() & shl_b_spec(2, y[6].0))) ^ (col0_mask() & shr_b_spec(3, y[6].0))));
    lemma_ks192_bits_cd(x[6].0, y[6].0, z[6].0, q);
    assert(o[7].0 == prefix_columns(((cols01_mask() & shr_b_spec(2, x[7].0)) | (cols23_mask() & shl_b_spec(2, y[7].0))) ^ (col0_mask() & shr_b_spec(3, y[7].0))));
    lemma_ks192_bits_cd(x[7].0, y[7].0, z[7].0, q);
    assert((q - 16) as u128 == pos(byte_cell(r), k));
    lemma_block_byte(y, k, r);
    lemma_bit_of_ops(y[0].0, y[0].0, (q - 16) as u128);
    lemma_bit_of_ops(y[1].0, y[1].0, (q - 16) as u128);
    lemma_bit_of_ops(y[2].0, y[2].0, (q - 16) as u128);
    lemma_bit_of_ops(y[3].0, y[3].0, (q - 16) as u128);
    lemma_bit_of_ops(y[4].0, y[4].0, (q - 16) as u128);
    lemma_bit_of_ops(y[5].0, y[5].0, (q - 16) as u128);
    lemma_bit_of_ops(y[6].0, y[6].0, (q - 16) as u128);
    lemma_bit_of_ops(y[7].0, y[7].0, (q - 16) as u128);
    assert((q + 8) as u128 == pos(byte_cell(r + 12), k));
    lemma_block_byte(x, k, r + 12);
    lemma_bit_of_ops(x[0].0, x[0].0, (q + 8) as u128);
    lemma_bit_of_ops(x[1].0, x[1].0, (q + 8) as u128);
    lemma_bit_of_ops(x[2].0, x[2].0, (q + 8) as u128);
    lemma_bit_of_ops(x[3].0, x[3].0, (q + 8) as u128);
    lemma_bit_of_ops(x[4].0, x[4].0, (q + 8) as u128);
    lemma_bit_of_ops(x[5].0, x[5].0, (q + 8) as u128);
    lemma_bit_of_ops(x[6].0, x[6].0, (q + 8) as u128);
    lemma_bit_of_ops(x[7].0, x[7].0, (q + 8) as u128);
    assert(q == pos(byte_cell(r + 8), k));
    lemma_block_byte(x, k, r + 8);
    lemma_bit_of_ops(x[0].0, x[0].0, q);
    lemma_bit_of_ops(x[1].0, x[1].0, q);
    lemma_bit_of_ops(x[2].0, x[2].0, q);
    lemma_bit_of_ops(x[3].0, x[3].0, q);
    lemma_bit_of_ops(x[4].0, x[4].0, q);
    lemma_bit_of_ops(x[5].0, x[5].0, q);
    lemma_bit_of_ops(x[6].0, x[6].0, q);
    lemma_bit_of_ops(x[7].0, x[7].0, q);
    assert((q + 8) as u128 == pos(byte_cell(r + 12), k));
    lemma_block_byte(y, k, r + 12);
    lemma_bit_of_ops(y[0].0, y[0].0, (q + 8) as u128);
    lemma_bit_of_ops(y[1].0, y[1].0, (q + 8) as u128);
    lemma_bit_of_ops(y[2].0, y[2].0, (q + 8) as u128);
    lemma_bit_of_ops(y[3].0, y[3].0, (q + 8) as u128);
    lemma_bit_of_ops(y[4].0, y[4].0, (q + 8) as u128);
    lemma_bit_of_ops(y[5].0, y[5].0, (q + 8) as u128);
    lemma_bit_of_ops(y[6].0, y[6].0, (q + 8) as u128);
    lemma_bit_of_ops(y[7].0, y[7].0, (q + 8) as u128);
    lemma_gather8_xor(bit_of(x[0].0, q), bit_of(x[1].0, q), bit_of(x[2].0, q), bit_of(x[3].0, q), bit_of(x[4].0, q), bit_of(x[5].0, q), bit_of(x[6].0, q), bit_of(x[7].0, q), bit_of(y[0].0, (q + 8) as u128), bit_of(y[1].0, (q + 8) as u128), bit_of(y[2].0, (q + 8) as u128), bit_of(y[3].0, (q + 8) as u128), bit_of(y[4].0, (q + 8) as u128), bit_of(y[5].0, (q + 8) as u128), bit_of(y[6].0, (q + 8) as u128), bit_of(y[7].0, (q + 8) as u128));
    lemma_gather8_xor(bit_of(x[0].0, (q + 8) as u128), bit_of(x[1].0, (q + 8) as u128), bit_of(x[2].0, (q + 8) as u128), bit_of(x[3].0, (q + 8) as u128), bit_of(x[4].0, (q + 8) as u128), bit_of(x[5].0, (q + 8) as u128), bit_of(x[6].0, (q + 8) as u128), bit_of(x[7].0, (q + 8) as u128), (bit_of(x[0].0, q) ^ bit_of(y[0].0, (q + 8) as u128)), (bit_of(x[1].0, q) ^ bit_of(y[1].0, (q + 8) as u128)), (bit_of(x[2].0, q) ^ bit_of(y[2].0, (q + 8) as u128)), (bit_of(x[3].0, q) ^ bit_of(y[3].0, (q + 8) as u128)), (bit_of(x[4].0, q) ^ bit_of(y[4].0, (q + 8) as u128)), (bit_of(x[5].0, q) ^ bit_of(y[5].0, (q + 8) as u128)), (bit_of(x[6].0, q) ^ bit_of(y[6].0, (q + 8) as u128)), (bit_of(x[7].0, q) ^ bit_of(y[7].0, (q + 8) as u128)));
    lemma_gather8_xor(bit_of(y[0].0, (q - 16) as u128), bit_of(y[1].0, (q - 16) as u128), bit_of(y[2].0, (q - 16) as u128), bit_of(y[3].0, (q - 16) as u128), bit_of(y[4].0, (q - 16) as u128), bit_of(y[5].0, (q - 16) as u128), bit_of(y[6].0, (q - 16) as u128), bit_of(y[7].0, (q - 16) as u128), (bit_of(x[0].0, (q + 8) as u128) ^ (bit_of(x[0].0, q) ^ bit_of(y[0].0, (q + 8) as u128))), (bit_of(x[1].0, (q + 8) as u128) ^ (bit_of(x[1].0, q) ^ bit_of(y[1].0, (q + 8) as u128))), (bit_of(x[2].0, (q + 8) as u128) ^ (bit_of(x[2].0, q) ^ bit_of(y[2].0, (q + 8) as u128))), (bit_of(x[3].0, (q + 8) as u128) ^ (bit_of(x[3].0, q) ^ bit_of(y[3].0, (q + 8) as u128))), (bit_of(x[4].0, (q + 8) as u128) ^ (bit_of(x[4].0, q) ^ bit_of(y[4].0, (q + 8) as u128))), (bit_of(x[5].0, (q + 8) as u128) ^ (bit_of(x[5].0, q) ^ bit_of(y[5].0, (q + 8) as u128))), (bit_of(x[6].0, (q + 8) as u128) ^ (bit_of(x[6].0, q) ^ bit_of(y[6].0, (q + 8) as u128))), (bit_of(x[7].0, (q + 8) as u128) ^ (bit_of(x[7].0, q) ^ bit_of(y[7].0, (q + 8) as u128))));
    lemma_block_byte(o, k, j);
}

/// Byte `j` in column 3 of the plane formula `ks192_c`, block by block.
#[verifier::rlimit(100)]
proof fn lemma_ks192_c_byte_3(x: Seq<Lane>, y: Seq<Lane>, z: Seq<Lane>, o: Seq<Lane>, k: int, j: int)
    requires
        x.len() == 8,
        y.len() == 8,
        z.len() == 8,
        o.len() == 8,
        0 <= k < 8,
        0 <= j < 16,
        j / 4 == 3,
        forall|i: int| 0 <= i < 8 ==> #[trigger] o[i].0 == prefix_columns(((cols01_mask() & shr_b_spec(2, x[i].0)) | (cols23_mask() & shl_b_spec(2, y[i].0))) ^ (col0_mask() & shr_b_spec(3, y[i].0))),
    ensures
        block_of(o, k)[j] == (block_of(y, k)[(j % 4) + 4] ^ (block_of(y, k)[(j % 4)] ^ (block_of(x, k)[(j % 4) + 12] ^ (block_of(x, k)[(j % 4) + 8] ^ block_of(y, k)[(j % 4) + 12])))),
{
    let r = j % 4;
    let q = pos(byte_cell(j), k);
    lemma_cells_192(j, k);
    assert((q / 8) % 4 == 3);
    assert(o[0].0 == prefix_columns(((cols01_mask() & shr_b_spec(2, x[0].0)) | (cols23_mask() & shl_b_spec(2, y[0].0))) ^ (col0_mask() & shr_b_spec(3, y[0].0))));
    lemma_ks192_bits_cd(x[0].0, y[0].0, z[0].0, q);
    assert(o[1].0 == prefix_columns(((cols01_mask() & shr_b_spec(2, x[1].0)) | (cols23_mask() & shl_b_spec(2, y[1].0))) ^ (col0_mask() & shr_b_spec(3, y[1].0))));
    lemma_ks192_bits_cd(x[1].0, y[1].0, z[1].0, q);
    assert(o[2].0 == prefix_columns(((cols01_mask() & shr_b_spec(2, x[2].0)) | (cols23_mask() & shl_b_spec(2, y[2].0))) ^ (col0_mask() & shr_b_spec(3, y[2].0))));
    lemma_ks192_bits_cd(x[2].0, y[2].0, z[2].0, q);
    assert(o[3].0 == prefix_columns(((cols01_mask() & shr_b_spec(2, x[3].0)) | (cols23_mask() & shl_b_spec(2, y[3].0))) ^ (col0_mask() & shr_b_spec(3, y[3].0))));
    lemma_ks192_bits_cd(x[3].0, y[3].0, z[3].0, q);
    assert(o[4].0 == prefix_columns(((cols01_mask() & shr_b_spec(2, x[4].0)) | (cols23_mask() & shl_b_spec(2, y[4].0))) ^ (col0_mask() & shr_b_spec(3, y[4].0))));
    lemma_ks192_bits_cd(x[4].0, y[4].0, z[4].0, q);
    assert(o[5].0 == prefix_columns(((cols01_mask() & shr_b_spec(2, x[5].0)) | (cols23_mask() & shl_b_spec(2, y[5].0))) ^ (col0_mask() & shr_b_spec(3, y[5].0))));
    lemma_ks192_bits_cd(x[5].0, y[5].0, z[5].0, q);
    assert(o[6].0 == prefix_columns(((cols01_mask() & shr_b_spec(2, x[6].0)) | (cols23_mask() & shl_b_spec(2, y[6].0))) ^ (col0_mask() & shr_b_spec(3, y[6].0))));
    lemma_ks192_bits_cd(x[6].0, y[6].0, z[6].0, q);
    assert(o[7].0 == prefix_columns(((cols01_mask() & shr_b_spec(2, x[7].0)) | (cols23_mask() & shl_b_spec(2, y[7].0))) ^ (col0_mask() & shr_b_spec(3, y[7].0))));
    lemma_ks192_bits_cd(x[7].0, y[7].0, z[7].0, q);
    assert((q - 16) as u128 == pos(byte_cell(r + 4), k));
    lemma_block_byte(y, k, r + 4);
    lemma_bit_of_ops(y[0].0, y[0].0, (q - 16) as u128);
    lemma_bit_of_ops(y[1].0, y[1].0, (q - 16) as u128);
    lemma_bit_of_ops(y[2].0, y[2].0, (q - 16) as u128);
    lemma_bit_of_ops(y[3].0, y[3].0, (q - 16) as u128);
    lemma_bit_of_ops(y[4].0, y[4].0, (q - 16) as u128);
    lemma_bit_of_ops(y[5].0, y[5].0, (q - 16) as u128);
    lemma_bit_of_ops(y[6].0, y[6].0, (q - 16) as u128);
    lemma_bit_of_ops(y[7].0, y[7].0, (q - 16) as u128);
    assert((q - 24) as u128 == pos(byte_cell(r), k));
    lemma_block_byte(y, k, r);
    lemma_bit_of_ops(y[0].0, y[0].0, (q - 24) as u128);
    lemma_bit_of_ops(y[1].0, y[1].0, (q - 24) as u128);
    lemma_bit_of_ops(y[2].0, y[2].0, (q - 24) as u128);
    lemma_bit_of_ops(y[3].0, y[3].0, (q - 24) as u128);
    lemma_bit_of_ops(y[4].0, y[4].0, (q - 24) as u128);
    lemma_bit_of_ops(y[5].0, y[5].0, (q - 24) as u128);
    lemma_bit_of_ops(y[6].0, y[6].0, (q - 24) as u128);
    lemma_bit_of_ops(y[7].0, y[7].0, (q - 24) as u128);
    assert(q == pos(byte_cell(r + 12), k));
    lemma_block_byte(x, k, r + 12);
    lemma_bit_of_ops(x[0].0, x[0].0, q);
    lemma_bit_of_ops(x[1].0, x[1].0, q);
    lemma_bit_of_ops(x[2].0, x[2].0, q);
    lemma_bit_of_ops(x[3].0, x[3].0, q);
    lemma_bit_of_ops(x[4].0, x[4].0, q);
    lemma_bit_of_ops(x[5].0, x[5].0, q);
    lemma_bit_of_ops(x[6].0, x[6].0, q);
    lemma_bit_of_ops(x[7].0, x[7].0, q);
    assert((q - 8) as u128 == pos(byte_cell(r + 8), k));
    lemma_block_byte(x, k, r + 8);
    lemma_bit_of_ops(x[0].0, x[0].0, (q - 8) as u128);
    lemma_bit_of_ops(x[1].0, x[1].0, (q - 8) as u128);
    lemma_bit_of_ops(x[2].0, x[2].0, (q - 8) as u128);
    lemma_bit_of_ops(x[3].0, x[3].0, (q - 8) as u128);
    lemma_bit_of_ops(x[4].0, x[4].0, (q - 8) as u128);
    lemma_bit_of_ops(x[5].0, x[5].0, (q - 8) as u128);
    lemma_bit_of_ops(x[6].0, x[6].0, (q - 8) as u128);
    lemma_bit_of_ops(x[7].0, x[7].0, (q - 8) as u128);
    assert(q == pos(byte_cell(r + 12), k));
    lemma_block_byte(y, k, r + 12);
    lemma_bit_of_ops(y[0].0, y[0].0, q);
    lemma_bit_of_ops(y[1].0, y[1].0, q);
    lemma_bit_of_ops(y[2].0, y[2].0, q);
    lemma_bit_of_ops(y[3].0, y[3].0, q);
    lemma_bit_of_ops(y[4].0, y[4].0, q);
    lemma_bit_of_ops(y[5].0, y[5].0, q);
    lemma_bit_of_ops(y[6].0, y[6].0, q);
    lemma_bit_of_ops(y[7].0, y[7].0, q);
    lemma_gather8_xor(bit_of(x[0].0, (q - 8) as u128), bit_of(x[1].0, (q - 8) as u128), bit_of(x[2].0, (q - 8) as u128), bit_of(x[3].0, (q - 8) as u128), bit_of(x[4].0, (q - 8) as u128), bit_of(x[5].0, (q - 8) as u128), bit_of(x[6].0, (q - 8) as u128), bit_of(x[7].0, (q - 8) as u128), bit_of(y[0].0, q), bit_of(y[1].0, q), bit_of(y[2].0, q), bit_of(y[3].0, q), bit_of(y[4].0, q), bit_of(y[5].0, q), bit_of(y[6].0, q), bit_of(y[7].0, q));
    lemma_gather8_xor(bit_of(x[0].0, q), bit_of(x[1].0, q), bit_of(x[2].0, q), bit_of(x[3].0, q), bit_of(x[4].0, q), bit_of(x[5].0, q), bit_of(x[6].0, q), bit_of(x[7].0, q), (bit_of(x[0].0, (q - 8) as u128) ^ bit_of(y[0].0, q)), (bit_of(x[1].0, (q - 8) as u128) ^ bit_of(y[1].0, q)), (bit_of(x[2].0, (q - 8) as u128) ^ bit_of(y[2].0, q)), (bit_of(x[3].0, (q - 8) as u128) ^ bit_of(y[3].0, q)), (bit_of(x[4].0, (q - 8) as u128) ^ bit_of(y[4].0, q)), (bit_of(x[5].0, (q - 8) as u128) ^ bit_of(y[5].0, q)), (bit_of(x[6].0, (q - 8) as u128) ^ bit_of(y[6].0, q)), (bit_of(x[7].0, (q - 8) as u128) ^ bit_of(y[7].0, q)));
    lemma_gather8_xor(bit_of(y[0].0, (q - 24) as u128), bit_of(y[1].0, (q - 24) as u128), bit_of(y[2].0, (q - 24) as u128), bit_of(y[3].0, (q - 24) as u128), bit_of(y[4].0, (q - 24) as u128), bit_of(y[5].0, (q - 24) as u128), bit_of(y[6].0, (q - 24) as u128), bit_of(y[7].0, (q - 24) as u128), (bit_of(x[0].0, q) ^ (bit_of(x[0].0, (q - 8) as u128) ^ bit_of(y[0].0, q))), (bit_of(x[1].0, q) ^ (bit_of(x[1].0, (q - 8) as u128) ^ bit_of(y[1].0, q))), (bit_of(x[2].0, q) ^ (bit_of(x[2].0, (q - 8) as u128) ^ bit_of(y[2].0, q))), (bit_of(x[3].0, q) ^ (bit_of(x[3].0, (q - 8) as u128) ^ bit_of(y[3].0, q))), (bit_of(x[4].0, q) ^ (bit_of(x[4].0, (q - 8) as u128) ^ bit_of(y[4].0, q))), (bit_of(x[5].0, q) ^ (bit_of(x[5].0, (q - 8) as u128) ^ bit_of(y[5].0, q))), (bit_of(x[6].0, q) ^ (bit_of(x[6].0, (q - 8) as u128) ^ bit_of(y[6].0, q))), (bit_of(x[7].0, q) ^ (bit_of(x[7].0, (q - 8) as u128) ^ bit_of(y[7].0, q))));
    lemma_gather8_xor(bit_of(y[0].0, (q - 16) as u128), bit_of(y[1].0, (q - 16) as u128), bit_of(y[2].0, (q - 16) as u128), bit_of(y[3].0, (q - 16) as u128), bit_of(y[4].0, (q - 16) as u128), bit_of(y[5].0, (q - 16) as u128), bit_of(y[6].0, (q - 16) as u128), bit_of(y[7].0, (q - 16) as u128), (bit_of(y[0].0, (q - 24) as u128) ^ (bit_of(x[0].0, q) ^ (bit_of(x[0].0, (q - 8) as u128) ^ bit_of(y[0].0, q)))), (bit_of(y[1].0, (q - 24) as u128) ^ (bit_of(x[1].0, q) ^ (bit_of(x[1].0, (q - 8) as u128) ^ bit_of(y[1].0, q)))), (bit_of(y[2].0, (q - 24) as u128) ^ (bit_of(x[2].0, q) ^ (bit_of(x[2].0, (q - 8) as u128) ^ bit_of(y[2].0, q)))), (bit_of(y[3].0, (q - 24) as u128) ^ (bit_of(x[3].0, q) ^ (bit_of(x[3].0, (q - 8) as u128) ^ bit_of(y[3].0, q)))), (bit_of(y[4].0, (q - 24) as u128) ^ (bit_of(x[4].0, q) ^ (bit_of(x[4].0, (q - 8) as u128) ^ bit_of(y[4].0, q)))), (bit_of(y[5].0, (q - 24) as u128) ^ (bit_of(x[5].0, q) ^ (bit_of(x[5].0, (q - 8) as u128) ^ bit_of(y[5].0, q)))), (bit_of(y[6].0, (q - 24) as u128) ^ (bit_of(x[6].0, q) ^ (bit_of(x[6].0, (q - 8) as u128) ^ bit_of(y[6].0, q)))), (bit_of(y[7].0, (q - 24) as u128) ^ (bit_of(x[7].0, q) ^ (bit_of(x[7].0, (q - 8) as u128) ^ bit_of(y[7].0, q)))));
    lemma_block_byte(o, k, j);
}

/// Byte `j` in column 0 of the plane formula `ks192_d`, block by block.
#[verifier::rlimit(100)]
proof fn lemma_ks192_d_byte_0(x: Seq<Lane>, y: Seq<Lane>, z: Seq<Lane>, o: Seq<Lane>, k: int, j: int)
    requires
        x.len() == 8,
        y.len() == 8,
        z.len() == 8,
        o.len() == 8,
        0 <= k < 8,
        0 <= j < 16,
        j / 4 == 0,
        forall|i: int| 0 <= i < 8 ==> #[trigger] o[i].0 == prefix_columns(((cols01_mask() & shr_b_spec(2, x[i].0)) | (cols23_mask() & shl_b_spec(2, y[i].0))) ^ (col0_mask() & rotr128(z[i].0, 56))),
    ensures
        block_of(o, k)[j] == (block_of(x, k)[(j % 4) + 8] ^ block_of(z, k)[12 + ((j % 4) + 1) % 4]),
{
    let r = j % 4;
    let q = pos(byte_cell(j), k);
    lemma_cells_192(j, k);
    assert((q / 8) % 4 == 0);
    assert(o[0].0 == prefix_columns(((cols01_mask() & shr_b_spec(2, x[0].0)) | (cols23_mask() & shl_b_spec(2, y[0].0))) ^ (col0_mask() & rotr128(z[0].0, 56))));
    lemma_ks192_bits_cd(x[0].0, y[0].0, z[0].0, q);
    assert(o[1].0 == prefix_columns(((cols01_mask() & shr_b_spec(2, x[1].0)) | (cols23_mask() & shl_b_spec(2, y[1].0))) ^ (col0_mask() & rotr128(z[1].0, 56))));
    lemma_ks192_bits_cd(x[1].0, y[1].0, z[1].0, q);
    assert(o[2].0 == prefix_columns(((cols01_mask() & shr_b_spec(2, x[2].0)) | (cols23_mask() & shl_b_spec(2, y[2].0))) ^ (col0_mask() & rotr128(z[2].0, 56))));
    lemma_ks192_bits_cd(x[2].0, y[2].0, z[2].0, q);
    assert(o[3].0 == prefix_columns(((cols01_mask() & shr_b_spec(2, x[3].0)) | (cols23_mask() & shl_b_spec(2, y[3].0))) ^ (col0_mask() & rotr128(z[3].0, 56))));
    lemma_ks192_bits_cd(x[3].0, y[3].0, z[3].0, q);
    assert(o[4].0 == prefix_columns(((cols01_mask() & shr_b_spec(2, x[4].0)) | (cols23_mask() & shl_b_spec(2, y[4].0))) ^ (col0_mask() & rotr128(z[4].0, 56))));
    lemma_ks192_bits_cd(x[4].0, y[4].0, z[4].0, q);
    assert(o[5].0 == prefix_columns(((cols01_mask() & shr_b_spec(2, x[5].0)) | (cols23_mask() & shl_b_spec(2, y[5].0))) ^ (col0_mask() & rotr128(z[5].0, 56))));
    lemma_ks192_bits_cd(x[5].0, y[5].0, z[5].0, q);
    assert(o[6].0 == prefix_columns(((cols01_mask() & shr_b_spec(2, x[6].0)) | (cols23_mask() & shl_b_spec(2, y[6].0))) ^ (col0_mask() & rotr128(z[6].0, 56))));
    lemma_ks192_bits_cd(x[6].0, y[6].0, z[6].0, q);
    assert(o[7].0 == prefix_columns(((cols01_mask() & shr_b_spec(2, x[7].0)) | (cols23_mask() & shl_b_spec(2, y[7].0))) ^ (col0_mask() & rotr128(z[7].0, 56))));
    lemma_ks192_bits_cd(x[7].0, y[7].0, z[7].0, q);
    assert((q + 16) as u128 == pos(byte_cell(r + 8), k));
    lemma_block_byte(x, k, r + 8);
    lemma_bit_of_ops(x[0].0, x[0].0, (q + 16) as u128);
    lemma_bit_of_ops(x[1].0, x[1].0, (q + 16) as u128);
    lemma_bit_of_ops(x[2].0, x[2].0, (q + 16) as u128);
    lemma_bit_of_ops(x[3].0, x[3].0, (q + 16) as u128);
    lemma_bit_of_ops(x[4].0, x[4].0, (q + 16) as u128);
    lemma_bit_of_ops(x[5].0, x[5].0, (q + 16) as u128);
    lemma_bit_of_ops(x[6].0, x[6].0, (q + 16) as u128);
    lemma_bit_of_ops(x[7].0, x[7].0, (q + 16) as u128);
    assert(((q + 56) % 128) as u128 == pos(byte_cell(12 + (r + 1) % 4), k));
    lemma_block_byte(z, k, 12 + (r + 1) % 4);
    lemma_bit_of_ops(z[0].0, z[0].0, ((q + 56) % 128) as u128);
    lemma_bit_of_ops(z[1].0, z[1].0, ((q + 56) % 128) as u128);
    lemma_bit_of_ops(z[2].0, z[2].0, ((q + 56) % 128) as u128);
    lemma_bit_of_ops(z[3].0, z[3].0, ((q + 56) % 128) as u128);
    lemma_bit_of_ops(z[4].0, z[4].0, ((q + 56) % 128) as u128);
    lemma_bit_of_ops(z[5].0, z[5].0, ((q + 56) % 128) as u128);
    lemma_bit_of_ops(z[6].0, z[6].0, ((q + 56) % 128) as u128);
    lemma_bit_of_ops(z[7].0, z[7].0, ((q + 56) % 128) as u128);
    lemma_gather8_xor(bit_of(x[0].0, (q + 16) as u128), bit_of(x[1].0, (q + 16) as u128), bit_of(x[2].0, (q + 16) as u128), bit_of(x[3].0, (q + 16) as u128), bit_of(x[4].0, (q + 16) as u128), bit_of(x[5].0, (q + 16) as u128), bit_of(x[6].0, (q + 16) as u128), bit_of(x[7].0, (q + 16) as u128), bit_of(z[0].0, ((q + 56) % 128) as u128), bit_of(z[1].0, ((q + 56) % 128) as u128), bit_of(z[2].0, ((q + 56) % 128) as u128), bit_of(z[3].0, ((q + 56) % 128) as u128), bit_of(z[4].0, ((q + 56) % 128) as u128), bit_of(z[5].0, ((q + 56) % 128) as u128), bit_of(z[6].0, ((q + 56) % 128) as u128), bit_of(z[7].0, ((q + 56) % 128) as u128));
    lemma_block_byte(o, k, j);
}

/// Byte `j` in column 1 of the plane formula `ks192_d`, block by block.
#[verifier::rlimit(100)]
proof fn lemma_ks192_d_byte_1(x: Seq<Lane>, y: Seq<Lane>, z: Seq<Lane>, o: Seq<Lane>, k: int, j: int)
    requires
        x.len() == 8,
        y.len() == 8,
        z.len() == 8,
        o.len() == 8,
        0 <= k < 8,
        0 <= j < 16,
        j / 4 == 1,
        forall|i: int| 0 <= i < 8 ==> #[trigger] o[i].0 == prefix_columns(((cols01_mask() & shr_b_spec(2, x[i].0)) | (cols23_mask() & shl_b_spec(2, y[i].0))) ^ (col0_mask() & rotr128(z[i].0, 56))),
    ensures
        block_of(o, k)[j] == (block_of(x, k)[(j % 4) + 12] ^ (block_of(x, k)[(j % 4) + 8] ^ block_of(z, k)[12 + ((j % 4) + 1) % 4])),
{
    let r = j % 4;
    let q = pos(byte_cell(j), k);
    lemma_cells_192(j, k);
    assert((q / 8) % 4 == 1);
    assert(o[0].0 == prefix_columns(((cols01_mask() & shr_b_spec(2, x[0].0)) | (cols23_mask() & shl_b_spec(2, y[0].0))) ^ (col0_mask() & rotr128(z[0].0, 56))));
    lemma_ks192_bits_cd(x[0].0, y[0].0, z[0].0, q);
    assert(o[1].0 == prefix_columns(((cols01_mask() & shr_b_spec(2, x[1].0)) | (cols23_mask() & shl_b_spec(2, y[1].0))) ^ (col0_mask() & rotr128(z[1].0, 56))));
    lemma_ks192_bits_cd(x[1].0, y[1].0, z[1].0, q);
    assert(o[2].0 == prefix_columns(((cols01_mask() & shr_b_spec(2, x[2].0)) | (cols23_mask() & shl_b_spec(2, y[2].0))) ^ (col0_mask() & rotr128(z[2].0, 56))));
    lemma_ks192_bits_cd(x[2].0, y[2].0, z[2].0, q);
    assert(o[3].0 == prefix_columns(((cols01_mask() & shr_b_spec(2, x[3].0)) | (cols23_mask() & shl_b_spec(2, y[3].0))) ^ (col0_mask() & rotr128(z[3].0, 56))));
    lemma_ks192_bits_cd(x[3].0, y[3].0, z[3].0, q);
    assert(o[4].0 == prefix_columns(((cols01_mask() & shr_b_spec(2, x[4].0)) | (cols23_mask() & shl_b_spec(2, y[4].0))) ^ (col0_mask() & rotr128(z[4].0, 56))));
    lemma_ks192_bits_cd(x[4].0, y[4].0, z[4].0, q);
    assert(o[5].0 == prefix_columns(((cols01_mask() & shr_b_spec(2, x[5].0)) | (cols23_mask() & shl_b_spec(2, y[5].0))) ^ (col0_mask() & rotr128(z[5].0, 56))));
    lemma_ks192_bits_cd(x[5].0, y[5].0, z[5].0, q);
    assert(o[6].0 == prefix_columns(((cols01_mask() & shr_b_spec(2, x[6].0)) | (cols23_mask() & shl_b_spec(2, y[6].0))) ^ (col0_mask() & rotr128(z[6].0, 56))));
    lemma_ks192_bits_cd(x[6].0, y[6].0, z[6].0, q);
    assert(o[7].0 == prefix_columns(((cols01_mask() & shr_b_spec(2, x[7].0)) | (cols23_mask() & shl_b_spec(2, y[7].0))) ^ (col0_mask() & rotr128(z[7].0, 56))));
    lemma_ks192_bits_cd(x[7].0, y[7].0, z[7].0, q);
    assert((q + 16) as u128 == pos(byte_cell(r + 12), k));
    lemma_block_byte(x, k, r + 12);
    lemma_bit_of_ops(x[0].0, x[0].0, (q + 16) as u128);
    lemma_bit_of_ops(x[1].0, x[1].0, (q + 16) as u128);
    lemma_bit_of_ops(x[2].0, x[2].0, (q + 16) as u128);
    lemma_bit_of_ops(x[3].0, x[3].0, (q + 16) as u128);
    lemma_bit_of_ops(x[4].0, x[4].0, (q + 16) as u128);
    lemma_bit_of_ops(x[5].0, x[5].0, (q + 16) as u128);
    lemma_bit_of_ops(x[6].0, x[6].0, (q + 16) as u128);
    lemma_bit_of_ops(x[7].0, x[7].0, (q + 16) as u128);
    assert((q + 8) as u128 == pos(byte_cell(r + 8), k));
    lemma_block_byte(x, k, r + 8);
    lemma_bit_of_ops(x[0].0, x[0].0, (q + 8) as u128);
    lemma_bit_of_ops(x[1].0, x[1].0, (q + 8) as u128);
    lemma_bit_of_ops(x[2].0, x[2].0, (q + 8) as u128);
    lemma_bit_of_ops(x[3].0, x[3].0, (q + 8) as u128);
    lemma_bit_of_ops(x[4].0, x[4].0, (q + 8) as u128);
    lemma_bit_of_ops(x[5].0, x[5].0, (q + 8) as u128);
    lemma_bit_of_ops(x[6].0, x[6].0, (q + 8) as u128);
    lemma_bit_of_ops(x[7].0, x[7].0, (q + 8) as u128);
    assert(((q - 8 + 56) % 128) as u128 == pos(byte_cell(12 + (r + 1) % 4), k));
    lemma_block_byte(z, k, 12 + (r + 1) % 4);
    lemma_bit_of_ops(z[0].0, z[0].0, ((q - 8 + 56) % 128) as u128);
    lemma_bit_of_ops(z[1].0, z[1].0, ((q - 8 + 56) % 128) as u128);
    lemma_bit_of_ops(z[2].0, z[2].0, ((q - 8 + 56) % 128) as u128);
    lemma_bit_of_ops(z[3].0, z[3].0, ((q - 8 + 56) % 128) as u128);
    lemma_bit_of_ops(z[4].0, z[4].0, ((q - 8 + 56) % 128) as u128);
    lemma_bit_of_ops(z[5].0, z[5].0, ((q - 8 + 56) % 128) as u128);
    lemma_bit_of_ops(z[6].0, z[6].0, ((q - 8 + 56) % 128) as u128);
    lemma_bit_of_ops(z[7].0, z[7].0, ((q - 8 + 56) % 128) as u128);
    lemma_gather8_xor(bit_of(x[0].0, (q + 8) as u128), bit_of(x[1].0, (q + 8) as u128), bit_of(x[2].0, (q + 8) as u128), bit_of(x[3].0, (q + 8) as u128), bit_of(x[4].0, (q + 8) as u128), bit_of(x[5].0, (q + 8) as u128), bit_of(x[6].0, (q + 8) as u128), bit_of(x[7].0, (q + 8) as u128), bit_of(z[0].0, ((q - 8 + 56) % 128) as u128), bit_of(z[1].0, ((q - 8 + 56) % 128) as u128), bit_of(z[2].0, ((q - 8 + 56) % 128) as u128), bit_of(z[3].0, ((q - 8 + 56) % 128) as u128), bit_of(z[4].0, ((q - 8 + 56) % 128) as u128), bit_of(z[5].0, ((q - 8 + 56) % 128) as u128), bit_of(z[6].0, ((q - 8 + 56) % 128) as u128), bit_of(z[7].0, ((q - 8 + 56) % 128) as u128));
    lemma_gather8_xor(bit_of(x[0].0, (q + 16) as u128), bit_of(x[1].0, (q + 16) as u128), bit_of(x[2].0, (q + 16) as u128), bit_of(x[3].0, (q + 16) as u128), bit_of(x[4].0, (q + 16) as u128), bit_of(x[5].0, (q + 16) as u128), bit_of(x[6].0, (q + 16) as u128), bit_of(x[7].0, (q + 16) as u128), (bit_of(x[0].0, (q + 8) as u128) ^ bit_of(z[0].0, ((q - 8 + 56) % 128) as u128)), (bit_of(x[1].0, (q + 8) as u128) ^ bit_of(z[1].0, ((q - 8 + 56) % 128) as u128)), (bit_of(x[2].0, (q + 8) as u128) ^ bit_of(z[2].0, ((q - 8 + 56) % 128) as u128)), (bit_of(x[3].0, (q + 8) as u128) ^ bit_of(z[3].0, ((q - 8 + 56) % 128) as u128)), (bit_of(x[4].0, (q + 8) as u128) ^ bit_of(z[4].0, ((q - 8 + 56) % 128) as u128)), (bit_of(x[5].0, (q + 8) as u128) ^ bit_of(z[5].0, ((q - 8 + 56) % 128) as u128)), (bit_of(x[6].0, (q + 8) as u128) ^ bit_of(z[6].0, ((q - 8 + 56) % 128) as u128)), (bit_of(x[7].0, (q + 8) as u128) ^ bit_of(z[7].0, ((q - 8 + 56) % 128) as u128)));
    lemma_block_byte(o, k, j);
}

/// Byte `j` in column 2 of the plane formula `ks192_d`, block by block.
#[verifier::rlimit(100)]
proof fn lemma_ks192_d_byte_2(x: Seq<Lane>, y: Seq<Lane>, z: Seq<Lane>, o: Seq<Lane>, k: int, j: int)
    requires
        x.len() == 8,
        y.len() == 8,
        z.len() == 8,
        o.len() == 8,
        0 <= k < 8,
        0 <= j < 16,
        j / 4 == 2,
        forall|i: int| 0 <= i < 8 ==> #[trigger] o[i].0 == prefix_columns(((cols01_mask() & shr_b_spec(2, x[i].0)) | (cols23_mask() & shl_b_spec(2, y[i].0))) ^ (col0_mask() & rotr128(z[i].0, 56))),
    ensures
        block_of(o, k)[j] == (block_of(y, k)[(j % 4)] ^ (block_of(x, k)[(j % 4) + 12] ^ (block_of(x, k)[(j % 4) + 8] ^ block_of(z, k)[12 + ((j % 4) + 1) % 4]))),
{
    let r = j % 4;
    let q = pos(byte_cell(j), k);
    lemma_cells_192(j, k);
    assert((q / 8) % 4 == 2);
    assert(o[0].0 == prefix_columns(((cols01_mask() & shr_b_spec(2, x[0].0)) | (cols23_mask() & shl_b_spec(2, y[0].0))) ^ (col0_mask() & rotr128(z[0].0, 56))));
    lemma_ks192_bits_cd(x[0].0, y[0].0, z[0].0, q);
    assert(o[1].0 == prefix_columns(((cols01_mask() & shr_b_spec(2, x[1].0)) | (cols23_mask() & shl_b_spec(2, y[1].0))) ^ (col0_mask() & rotr128(z[1].0, 56))));
    lemma_ks192_bits_cd(x[1].0, y[1].0, z[1].0, q);
    assert(o[2].0 == prefix_columns(((cols01_mask() & shr_b_spec(2, x[2].0)) | (cols23_mask() & shl_b_spec(2, y[2].0))) ^ (col0_mask() & rotr128(z[2].0, 56))));
    lemma_ks192_bits_cd(x[2].0, y[2].0, z[2].0, q);
    assert(o[3].0 == prefix_columns(((cols01_mask() & shr_b_spec(2, x[3].0)) | (cols23_mask() & shl_b_spec(2, y[3].0))) ^ (col0_mask() & rotr128(z[3].0, 56))));
    lemma_ks192_bits_cd(x[3].0, y[3].0, z[3].0, q);
    assert(o[4].0 == prefix_columns(((cols01_mask() & shr_b_spec(2, x[4].0)) | (cols23_mask() & shl_b_spec(2, y[4].0))) ^ (col0_mask() & rotr128(z[4].0, 56))));
    lemma_ks192_bits_cd(x[4].0, y[4].0, z[4].0, q);
    assert(o[5].0 == prefix_columns(((cols01_mask() & shr_b_spec(2, x[5].0)) | (cols23_mask() & shl_b_spec(2, y[5].0))) ^ (col0_mask() & rotr128(z[5].0, 56))));
    lemma_ks192_bits_cd(x[5].0, y[5].0, z[5].0, q);
    assert(o[6].0 == prefix_columns(((cols01_mask() & shr_b_spec(2, x[6].0)) | (cols23_mask() & shl_b_spec(2, y[6].0))) ^ (col0_mask() & rotr128(z[6].0, 56))));
    lemma_ks192_bits_cd(x[6].0, y[6].0, z[6].0, q);
    assert(o[7].0 == prefix_columns(((cols01_mask() & shr_b_spec(2, x[7].0)) | (cols23_mask() & shl_b_spec(2, y[7].0))) ^ (col0_mask() & rotr128(z[7].0, 56))));
    lemma_ks192_bits_cd(x[7].0, y[7].0, z[7].0, q);
    assert((q - 16) as u128 == pos(byte_cell(r), k));
    lemma_block_byte(y, k, r);
    lemma_bit_of_ops(y[0].0, y[0].0, (q - 16) as u128);
    lemma_bit_of_ops(y[1].0, y[1].0, (q - 16) as u128);
    lemma_bit_of_ops(y[2].0, y[2].0, (q - 16) as u128);
    lemma_bit_of_ops(y[3].0, y[3].0, (q - 16) as u128);
    lemma_bit_of_ops(y[4].0, y[4].0, (q - 16) as u128);
    lemma_bit_of_ops(y[5].0, y[5].0, (q - 16) as u128);
    lemma_bit_of_ops(y[6].0, y[6].0, (q - 16) as u128);
    lemma_bit_of_ops(y[7].0, y[7].0, (q - 16) as u128);
    assert((q + 8) as u128 == pos(byte_cell(r + 12), k));
    lemma_block_byte(x, k, r + 12);
    lemma_bit_of_ops(x[0].0, x[0].0, (q + 8) as u128);
    lemma_bit_of_ops(x[1].0, x[1].0, (q + 8) as u128);
    lemma_bit_of_ops(x[2].0, x[2].0, (q + 8) as u128);
    lemma_bit_of_ops(x[3].0, x[3].0, (q + 8) as u128);
    lemma_bit_of_ops(x[4].0, x[4].0, (q + 8) as u128);
    lemma_bit_of_ops(x[5].0, x[5].0, (q + 8) as u128);
    lemma_bit_of_ops(x[6].0, x[6].0, (q + 8) as u128);
    lemma_bit_of_ops(x[7].0, x[7].0, (q + 8) as u128);
    assert(q == pos(byte_cell(r + 8), k));
    lemma_block_byte(x, k, r + 8);
    lemma_bit_of_ops(x[0].0, x[0].0, q);
    lemma_bit_of_ops(x[1].0, x[1].0, q);
    lemma_bit_of_ops(x[2].0, x[2].0, q);
    lemma_bit_of_ops(x[3].0, x[3].0, q);
    lemma_bit_of_ops(x[4].0, x[4].0, q);
    lemma_bit_of_ops(x[5].0, x[5].0, q);
    lemma_bit_of_ops(x[6].0, x[6].0, q);
    lemma_bit_of_ops(x[7].0, x[7].0, q);
    assert(((q - 16 + 56) % 128) as u128 == pos(byte_cell(12 + (r + 1) % 4), k));
    lemma_block_byte(z, k, 12 + (r + 1) % 4);
    lemma_bit_of_ops(z[0].0, z[0].0, ((q - 16 + 56) % 128) as u128);
    lemma_bit_of_ops(z[1].0, z[1].0, ((q - 16 + 56) % 128) as u128);
    lemma_bit_of_ops(z[2].0, z[2].0, ((q - 16 + 56) % 128) as u128);
    lemma_bit_of_ops(z[3].0, z[3].0, ((q - 16 + 56) % 128) as u128);
    lemma_bit_of_ops(z[4].0, z[4].0, ((q - 16 + 56) % 128) as u128);
    lemma_bit_of_ops(z[5].0, z[5].0, ((q - 16 + 56) % 128) as u128);
    lemma_bit_of_ops(z[6].0, z[6].0, ((q - 16 + 56) % 128) as u128);
    lemma_bit_of_ops(z[7].0, z[7].0, ((q - 16 + 56) % 128) as u128);
    lemma_gather8_xor(bit_of(x[0].0, q), bit_of(x[1].0, q), bit_of(x[2].0, q), bit_of(x[3].0, q), bit_of(x[4].0, q), bit_of(x[5].0, q), bit_of(x[6].0, q), bit_of(x[7].0, q), bit_of(z[0].0, ((q - 16 + 56) % 128) as u128), bit_of(z[1].0, ((q - 16 + 56) % 128) as u128), bit_of(z[2].0, ((q - 16 + 56) % 128) as u128), bit_of(z[3].0, ((q - 16 + 56) % 128) as u128), bit_of(z[4].0, ((q - 16 + 56) % 128) as u128), bit_of(z[5].0, ((q - 16 + 56) % 128) as u128), bit_of(z[6].0, ((q - 16 + 56) % 128) as u128), bit_of(z[7].0, ((q - 16 + 56) % 128) as u128));
    lemma_gather8_xor(bit_of(x[0].0, (q + 8) as u128), bit_of(x[1].0, (q + 8) as u128), bit_of(x[2].0, (q + 8) as u128), bit_of(x[3].0, (q + 8) as u128), bit_of(x[4].0, (q + 8) as u128), bit_of(x[5].0, (q + 8) as u128), bit_of(x[6].0, (q + 8) as u128), bit_of(x[7].0, (q + 8) as u128), (bit_of(x[0].0, q) ^ bit_of(z[0].0, ((q - 16 + 56) % 128) as u128)), (bit_of(x[1].0, q) ^ bit_of(z[1].0, ((q - 16 + 56) % 128) as u128)), (bit_of(x[2].0, q) ^ bit_of(z[2].0, ((q - 16 + 56) % 128) as u128)), (bit_of(x[3].0, q) ^ bit_of(z[3].0, ((q - 16 + 56) % 128) as u128)), (bit_of(x[4].0, q) ^ bit_of(z[4].0, ((q - 16 + 56) % 128) as u128)), (bit_of(x[5].0, q) ^ bit_of(z[5].0, ((q - 16 + 56) % 128) as u128)), (bit_of(x[6].0, q) ^ bit_of(z[6].0, ((q - 16 + 56) % 128) as u128)), (bit_of(x[7].0, q) ^ bit_of(z[7].0, ((q - 16 + 56) % 128) as u128)));
    lemma_gather8_xor(bit_of(y[0].0, (q - 16) as u128), bit_of(y[1].0, (q - 16) as u128), bit_of(y[2].0, (q - 16) as u128), bit_of(y[3].0, (q - 16) as u128), bit_of(y[4].0, (q - 16) as u128), bit_of(y[5].0, (q - 16) as u128), bit_of(y[6].0, (q - 16) as u128), bit_of(y[7].0, (q - 16) as u128), (bit_of(x[0].0, (q + 8) as u128) ^ (bit_of(x[0].0, q) ^ bit_of(z[0].0, ((q - 16 + 56) % 128) as u128))), (bit_of(x[1].0, (q + 8) as u128) ^ (bit_of(x[1].0, q) ^ bit_of(z[1].0, ((q - 16 + 56) % 128) as u128))), (bit_of(x[2].0, (q + 8) as u128) ^ (bit_of(x[2].0, q) ^ bit_of(z[2].0, ((q - 16 + 56) % 128) as u128))), (bit_of(x[3].0, (q + 8) as u128) ^ (bit_of(x[3].0, q) ^ bit_of(z[3].0, ((q - 16 + 56) % 128) as u128))), (bit_of(x[4].0, (q + 8) as u128) ^ (bit_of(x[4].0, q) ^ bit_of(z[4].0, ((q - 16 + 56) % 128) as u128))), (bit_of(x[5].0, (q + 8) as u128) ^ (bit_of(x[5].0, q) ^ bit_of(z[5].0, ((q - 16 + 56) % 128) as u128))), (bit_of(x[6].0, (q + 8) as u128) ^ (bit_of(x[6].0, q) ^ bit_of(z[6].0, ((q - 16 + 56) % 128) as u128))), (bit_of(x[7].0, (q + 8) as u128) ^ (bit_of(x[7].0, q) ^ bit_of(z[7].0, ((q - 16 + 56) % 128) as u128))));
    lemma_block_byte(o, k, j);
}

/// Byte `j` in column 3 of the plane formula `ks192_d`, block by block.
#[verifier::rlimit(100)]
proof fn lemma_ks192_d_byte_3(x: Seq<Lane>, y: Seq<Lane>, z: Seq<Lane>, o: Seq<Lane>, k: int, j: int)
    requires
        x.len() == 8,
        y.len() == 8,
        z.len() == 8,
        o.len() == 8,
        0 <= k < 8,
        0 <= j < 16,
        j / 4 == 3,
        forall|i: int| 0 <= i < 8 ==> #[trigger] o[i].0 == prefix_columns(((cols01_mask() & shr_b_spec(2, x[i].0)) | (cols23_mask() & shl_b_spec(2, y[i].0))) ^ (col0_mask() & rotr128(z[i].0, 56))),
    ensures
        block_of(o, k)[j] == (block_of(y, k)[(j % 4) + 4] ^ (block_of(y, k)[(j % 4)] ^ (block_of(x, k)[(j % 4) + 12] ^ (block_of(x, k)[(j % 4) + 8] ^ block_of(z, k)[12 + ((j % 4) + 1) % 4])))),
{
    let r = j % 4;
    let q = pos(byte_cell(j), k);
    lemma_cells_192(j, k);
    assert((q / 8) % 4 == 3);
    assert(o[0].0 == prefix_columns(((cols01_mask() & shr_b_spec(2, x[0].0)) | (cols23_mask() & shl_b_spec(2, y[0].0))) ^ (col0_mask() & rotr128(z[0].0, 56))));
    lemma_ks192_bits_cd(x[0].0, y[0].0, z[0].0, q);
    assert(o[1].0 == prefix_columns(((cols01_mask() & shr_b_spec(2, x[1].0)) | (cols23_mask() & shl_b_spec(2, y[1].0))) ^ (col0_mask() & rotr128(z[1].0, 56))));
    lemma_ks192_bits_cd(x[1].0, y[1].0, z[1].0, q);
    assert(o[2].0 == prefix_columns(((cols01_mask() & shr_b_spec(2, x[2].0)) | (cols23_mask() & shl_b_spec(2, y[2].0))) ^ (col0_mask() & rotr128(z[2].0, 56))));
    lemma_ks192_bits_cd(x[2].0, y[2].0, z[2].0, q);
    assert(o[3].0 == prefix_columns(((cols01_mask() & shr_b_spec(2, x[3].0)) | (cols23_mask() & shl_b_spec(2, y[3].0))) ^ (col0_mask() & rotr128(z[3].0, 56))));
    lemma_ks192_bits_cd(x[3].0, y[3].0, z[3].0, q);
    assert(o[4].0 == prefix_columns(((cols01_mask() & shr_b_spec(2, x[4].0)) | (cols23_mask() & shl_b_spec(2, y[4].0))) ^ (col0_mask() & rotr128(z[4].0, 56))));
    lemma_ks192_bits_cd(x[4].0, y[4].0, z[4].0, q);
    assert(o[5].0 == prefix_columns(((cols01_mask() & shr_b_spec(2, x[5].0)) | (cols23_mask() & shl_b_spec(2, y[5].0))) ^ (col0_mask() & rotr128(z[5].0, 56))));
    lemma_ks192_bits_cd(x[5].0, y[5].0, z[5].0, q);
    assert(o[6].0 == prefix_columns(((cols01_mask() & shr_b_spec(2, x[6].0)) | (cols23_mask() & shl_b_spec(2, y[6].0))) ^ (col0_mask() & rotr128(z[6].0, 56))));
    lemma_ks192_bits_cd(x[6].0, y[6].0, z[6].0, q);
    assert(o[7].0 == prefix_columns(((cols01_mask() & shr_b_spec(2, x[7].0)) | (cols23_mask() & shl_b_spec(2, y[7].0))) ^ (col0_mask() & rotr128(z[7].0, 56))));
    lemma_ks192_bits_cd(x[7].0, y[7].0, z[7].0, q);
    assert((q - 16) as u128 == pos(byte_cell(r + 4), k));
    lemma_block_byte(y, k, r + 4);
    lemma_bit_of_ops(y[0].0, y[0].0, (q - 16) as u128);
    lemma_bit_of_ops(y[1].0, y[1].0, (q - 16) as u128);
    lemma_bit_of_ops(y[2].0, y[2].0, (q - 16) as u128);
    lemma_bit_of_ops(y[3].0, y[3].0, (q - 16) as u128);
    lemma_bit_of_ops(y[4].0, y[4].0, (q - 16) as u128);
    lemma_bit_of_ops(y[5].0, y[5].0, (q - 16) as u128);
    lemma_bit_of_ops(y[6].0, y[6].0, (q - 16) as u128);
    lemma_bit_of_ops(y[7].0, y[7].0, (q - 16) as u128);
    assert((q - 24) as u128 == pos(byte_cell(r), k));
    lemma_block_byte(y, k, r);
    lemma_bit_of_ops(y[0].0, y[0].0, (q - 24) as u128);
    lemma_bit_of_ops(y[1].0, y[1].0, (q - 24) as u128);
    lemma_bit_of_ops(y[2].0, y[2].0, (q - 24) as u128);
    lemma_bit_of_ops(y[3].0, y[3].0, (q - 24) as u128);
    lemma_bit_of_ops(y[4].0, y[4].0, (q - 24) as u128);
    lemma_bit_of_ops(y[5].0, y[5].0, (q - 24) as u128);
    lemma_bit_of_ops(y[6].0, y[6].0, (q - 24) as u128);
    lemma_bit_of_ops(y[7].0, y[7].0, (q - 24) as u128);
    assert(q == pos(byte_cell(r + 12), k));
    lemma_block_byte(x, k, r + 12);
    lemma_bit_of_ops(x[0].0, x[0].0, q);
    lemma_bit_of_ops(x[1].0, x[1].0, q);
    lemma_bit_of_ops(x[2].0, x[2].0, q);
    lemma_bit_of_ops(x[3].0, x[3].0, q);
    lemma_bit_of_ops(x[4].0, x[4].0, q);
    lemma_bit_of_ops(x[5].0, x[5].0, q);
    lemma_bit_of_ops(x[6].0, x[6].0, q);
    lemma_bit_of_ops(x[7].0, x[7].0, q);
    assert((q - 8) as u128 == pos(byte_cell(r + 8), k));
    lemma_block_byte(x, k, r + 8);
    lemma_bit_of_ops(x[0].0, x[0].0, (q - 8) as u128);
    lemma_bit_of_ops(x[1].0, x[1].0, (q - 8) as u128);
    lemma_bit_of_ops(x[2].0, x[2].0, (q - 8) as u128);
    lemma_bit_of_ops(x[3].0, x[3].0, (q - 8) as u128);
    lemma_bit_of_ops(x[4].0, x[4].0, (q - 8) as u128);
    lemma_bit_of_ops(x[5].0, x[5].0, (q - 8) as u128);
    lemma_bit_of_ops(x[6].0, x[6].0, (q - 8) as u128);
    lemma_bit_of_ops(x[7].0, x[7].0, (q - 8) as u128);
    assert(((q - 24 + 56) % 128) as u128 == pos(byte_cell(12 + (r + 1) % 4), k));
    lemma_block_byte(z, k, 12 + (r + 1) % 4);
    lemma_bit_of_ops(z[0].0, z[0].0, ((q - 24 + 56) % 128) as u128);
    lemma_bit_of_ops(z[1].0, z[1].0, ((q - 24 + 56) % 128) as u128);
    lemma_bit_of_ops(z[2].0, z[2].0, ((q - 24 + 56) % 128) as u128);
    lemma_bit_of_ops(z[3].0, z[3].0, ((q - 24 + 56) % 128) as u128);
    lemma_bit_of_ops(z[4].0, z[4].0, ((q - 24 + 56) % 128) as u128);
    lemma_bit_of_ops(z[5].0, z[5].0, ((q - 24 + 56) % 128) as u128);
    lemma_bit_of_ops(z[6].0, z[6].0, ((q - 24 + 56) % 128) as u128);
    lemma_bit_of_ops(z[7].0, z[7].0, ((q - 24 + 56) % 128) as u128);
    lemma_gather8_xor(bit_of(x[0].0, (q - 8) as u128), bit_of(x[1].0, (q - 8) as u128), bit_of(x[2].0, (q - 8) as u128), bit_of(x[3].0, (q - 8) as u128), bit_of(x[4].0, (q - 8) as u128), bit_of(x[5].0, (q - 8) as u128), bit_of(x[6].0, (q - 8) as u128), bit_of(x[7].0, (q - 8) as u128), bit_of(z[0].0, ((q - 24 + 56) % 128) as u128), bit_of(z[1].0, ((q - 24 + 56) % 128) as u128), bit_of(z[2].0, ((q - 24 + 56) % 128) as u128), bit_of(z[3].0, ((q - 24 + 56) % 128) as u128), bit_of(z[4].0, ((q - 24 + 56) % 128) as u128), bit_of(z[5].0, ((q - 24 + 56) % 128) as u128), bit_of(z[6].0, ((q - 24 + 56) % 128) as u128), bit_of(z[7].0, ((q - 24 + 56) % 128) as u128));
    lemma_gather8_xor(bit_of(x[0].0, q), bit_of(x[1].0, q), bit_of(x[2].0, q), bit_of(x[3].0, q), bit_of(x[4].0, q), bit_of(x[5].0, q), bit_of(x[6].0, q), bit_of(x[7].0, q), (bit_of(x[0].0, (q - 8) as u128) ^ bit_of(z[0].0, ((q - 24 + 56) % 128) as u128)), (bit_of(x[1].0, (q - 8) as u128) ^ bit_of(z[1].0, ((q - 24 + 56) % 128) as u128)), (bit_of(x[2].0, (q - 8) as u128) ^ bit_of(z[2].0, ((q - 24 + 56) % 128) as u128)), (bit_of(x[3].0, (q - 8) as u128) ^ bit_of(z[3].0, ((q - 24 + 56) % 128) as u128)), (bit_of(x[4].0, (q - 8) as u128) ^ bit_of(z[4].0, ((q - 24 + 56) % 128) as u128)), (bit_of(x[5].0, (q - 8) as u128) ^ bit_of(z[5].0, ((q - 24 + 56) % 128) as u128)), (bit_of(x[6].0, (q - 8) as u128) ^ bit_of(z[6].0, ((q - 24 + 56) % 128) as u128)), (bit_of(x[7].0, (q - 8) as u128) ^ bit_of(z[7].0, ((q - 24 + 56) % 128) as u128)));
    lemma_gather8_xor(bit_of(y[0].0, (q - 24) as u128), bit_of(y[1].0, (q - 24) as u128), bit_of(y[2].0, (q - 24) as u128), bit_of(y[3].0, (q - 24) as u128), bit_of(y[4].0, (q - 24) as u128), bit_of(y[5].0, (q - 24) as u128), bit_of(y[6].0, (q - 24) as u128), bit_of(y[7].0, (q - 24) as u128), (bit_of(x[0].0, q) ^ (bit_of(x[0].0, (q - 8) as u128) ^ bit_of(z[0].0, ((q - 24 + 56) % 128) as u128))), (bit_of(x[1].0, q) ^ (bit_of(x[1].0, (q - 8) as u128) ^ bit_of(z[1].0, ((q - 24 + 56) % 128) as u128))), (bit_of(x[2].0, q) ^ (bit_of(x[2].0, (q - 8) as u128) ^ bit_of(z[2].0, ((q - 24 + 56) % 128) as u128))), (bit_of(x[3].0, q) ^ (bit_of(x[3].0, (q - 8) as u128) ^ bit_of(z[3].0, ((q - 24 + 56) % 128) as u128))), (bit_of(x[4].0, q) ^ (bit_of(x[4].0, (q - 8) as u128) ^ bit_of(z[4].0, ((q - 24 + 56) % 128) as u128))), (bit_of(x[5].0, q) ^ (bit_of(x[5].0, (q - 8) as u128) ^ bit_of(z[5].0, ((q - 24 + 56) % 128) as u128))), (bit_of(x[6].0, q) ^ (bit_of(x[6].0, (q - 8) as u128) ^ bit_of(z[6].0, ((q - 24 + 56) % 128) as u128))), (bit_of(x[7].0, q) ^ (bit_of(x[7].0, (q - 8) as u128) ^ bit_of(z[7].0, ((q - 24 + 56) % 128) as u128))));
    lemma_gather8_xor(bit_of(y[0].0, (q - 16) as u128), bit_of(y[1].0, (q - 16) as u128), bit_of(y[2].0, (q - 16) as u128), bit_of(y[3].0, (q - 16) as u128), bit_of(y[4].0, (q - 16) as u128), bit_of(y[5].0, (q - 16) as u128), bit_of(y[6].0, (q - 16) as u128), bit_of(y[7].0, (q - 16) as u128), (bit_of(y[0].0, (q - 24) as u128) ^ (bit_of(x[0].0, q) ^ (bit_of(x[0].0, (q - 8) as u128) ^ bit_of(z[0].0, ((q - 24 + 56) % 128) as u128)))), (bit_of(y[1].0, (q - 24) as u128) ^ (bit_of(x[1].0, q) ^ (bit_of(x[1].0, (q - 8) as u128) ^ bit_of(z[1].0, ((q - 24 + 56) % 128) as u128)))), (bit_of(y[2].0, (q - 24) as u128) ^ (bit_of(x[2].0, q) ^ (bit_of(x[2].0, (q - 8) as u128) ^ bit_of(z[2].0, ((q - 24 + 56) % 128) as u128)))), (bit_of(y[3].0, (q - 24) as u128) ^ (bit_of(x[3].0, q) ^ (bit_of(x[3].0, (q - 8) as u128) ^ bit_of(z[3].0, ((q - 24 + 56) % 128) as u128)))), (bit_of(y[4].0, (q - 24) as u128) ^ (bit_of(x[4].0, q) ^ (bit_of(x[4].0, (q - 8) as u128) ^ bit_of(z[4].0, ((q - 24 + 56) % 128) as u128)))), (bit_of(y[5].0, (q - 24) as u128) ^ (bit_of(x[5].0, q) ^ (bit_of(x[5].0, (q - 8) as u128) ^ bit_of(z[5].0, ((q - 24 + 56) % 128) as u128)))), (bit_of(y[6].0, (q - 24) as u128) ^ (bit_of(x[6].0, q) ^ (bit_of(x[6].0, (q - 8) as u128) ^ bit_of(z[6].0, ((q - 24 + 56) % 128) as u128)))), (bit_of(y[7].0, (q - 24) as u128) ^ (bit_of(x[7].0, q) ^ (bit_of(x[7].0, (q - 8) as u128) ^ bit_of(z[7].0, ((q - 24 + 56) % 128) as u128)))));
    lemma_block_byte(o, k, j);
}

/// Every byte of the plane formula `ks192_a`, block by block.
proof fn lemma_ks192_a_block(x: Seq<Lane>, y: Seq<Lane>, z: Seq<Lane>, o: Seq<Lane>, k: int)
    requires
        x.len() == 8,
        y.len() == 8,
        z.len() == 8,
        o.len() == 8,
        0 <= k < 8,
        forall|i: int| 0 <= i < 8 ==> #[trigger] o[i].0 == (cols01_mask() & shr_b_spec(2, x[i].0)) | (cols23_mask() & shl_b_spec(2, y[i].0)),
    ensures
        forall|j: int| 0 <= j < 16 ==> {
            #[trigger] block_of(o, k)[j] == if j / 4 == 0 { block_of(x, k)[j + 8] } else if j / 4 == 1 { block_of(x, k)[j + 8] } else if j / 4 == 2 { block_of(y, k)[j - 8] } else { block_of(y, k)[j - 8] }
        },
{
    assert forall|j: int| 0 <= j < 16 implies {
        #[trigger] block_of(o, k)[j] == if j / 4 == 0 { block_of(x, k)[j + 8] } else if j / 4 == 1 { block_of(x, k)[j + 8] } else if j / 4 == 2 { block_of(y, k)[j - 8] } else { block_of(y, k)[j - 8] }
    } by {
        if j / 4 == 0 {
            lemma_ks192_a_byte_0(x, y, z, o, k, j);
        } else if j / 4 == 1 {
            lemma_ks192_a_byte_1(x, y, z, o, k, j);
        } else if j / 4 == 2 {
            lemma_ks192_a_byte_2(x, y, z, o, k, j);
        } else {
            lemma_ks192_a_byte_3(x, y, z, o, k, j);
        }
    }
}

/// Every byte of the plane formula `ks192_b`, block by block.
proof fn lemma_ks192_b_block(x: Seq<Lane>, y: Seq<Lane>, z: Seq<Lane>, o: Seq<Lane>, k: int)
    requires
        x.len() == 8,
        y.len() == 8,
        z.len() == 8,
        o.len() == 8,
        0 <= k < 8,
        forall|i: int| 0 <= i < 8 ==> #[trigger] o[i].0 == (x[i].0 ^ (col2_mask() & rotr128(y[i].0, 40))) ^ (col3_mask() & shl_b_spec(1, x[i].0 ^ (col2_mask() & rotr128(y[i].0, 40)))),
    ensures
        forall|j: int| 0 <= j < 16 ==> {
            #[trigger] block_of(o, k)[j] == if j / 4 == 0 { block_of(x, k)[j] } else if j / 4 == 1 { block_of(x, k)[j] } else if j / 4 == 2 { (block_of(x, k)[j] ^ block_of(y, k)[12 + ((j % 4) + 1) % 4]) } else { (block_of(x, k)[j] ^ (block_of(x, k)[j - 4] ^ block_of(y, k)[12 + ((j % 4) + 1) % 4])) }
        },
{
    assert forall|j: int| 0 <= j < 16 implies {
        #[trigger] block_of(o, k)[j] == if j / 4 == 0 { block_of(x, k)[j] } else if j / 4 == 1 { block_of(x, k)[j] } else if j / 4 == 2 { (block_of(x, k)[j] ^ block_of(y, k)[12 + ((j % 4) + 1) % 4]) } else { (block_of(x, k)[j] ^ (block_of(x, k)[j - 4] ^ block_of(y, k)[12 + ((j % 4) + 1) % 4])) }
    } by {
        if j / 4 == 0 {
            lemma_ks192_b_byte_0(x, y, z, o, k, j);
        } else if j / 4 == 1 {
            lemma_ks192_b_byte_1(x, y, z, o, k, j);
        } else if j / 4 == 2 {
            lemma_ks192_b_byte_2(x, y, z, o, k, j);
        } else {
            lemma_ks192_b_byte_3(x, y, z, o, k, j);
        }
    }
}

/// Every byte of the plane formula `ks192_e`, block by block.
proof fn lemma_ks192_e_block(x: Seq<Lane>, y: Seq<Lane>, z: Seq<Lane>, o: Seq<Lane>, k: int)
    requires
        x.len() == 8,
        y.len() == 8,
        z.len() == 8,
        o.len() == 8,
        0 <= k < 8,
        forall|i: int| 0 <= i < 8 ==> #[trigger] o[i].0 == (x[i].0 ^ (col2_mask() & shr_b_spec(1, y[i].0))) ^ (col3_mask() & shl_b_spec(1, x[i].0 ^ (col2_mask() & shr_b_spec(1, y[i].0)))),
    ensures
        forall|j: int| 0 <= j < 16 ==> {
            #[trigger] block_of(o, k)[j] == if j / 4 == 0 { block_of(x, k)[j] } else if j / 4 == 1 { block_of(x, k)[j] } else if j / 4 == 2 { (block_of(x, k)[j] ^ block_of(y, k)[j + 4]) } else { (block_of(x, k)[j] ^ (block_of(x, k)[j - 4] ^ block_of(y, k)[j])) }
        },
{
    assert forall|j: int| 0 <= j < 16 implies {
        #[trigger] block_of(o, k)[j] == if j / 4 == 0 { block_of(x, k)[j] } else if j / 4 == 1 { block_of(x, k)[j] } else if j / 4 == 2 { (block_of(x, k)[j] ^ block_of(y, k)[j + 4]) } else { (block_of(x, k)[j] ^ (block_of(x, k)[j - 4] ^ block_of(y, k)[j])) }
    } by {
        if j / 4 == 0 {
            lemma_ks192_e_byte_0(x, y, z, o, k, j);
        } else if j / 4 == 1 {
            lemma_ks192_e_byte_1(x, y, z, o, k, j);
        } else if j / 4 == 2 {
            lemma_ks192_e_byte_2(x, y, z, o, k, j);
        } else {
            lemma_ks192_e_byte_3(x, y, z, o, k, j);
        }
    }
}

/// Every byte of the plane formula `ks192_c`, block by block.
proof fn lemma_ks192_c_block(x: Seq<Lane>, y: Seq<Lane>, z: Seq<Lane>, o: Seq<Lane>, k: int)
    requires
        x.len() == 8,
        y.len() == 8,
        z.len() == 8,
        o.len() == 8,
        0 <= k < 8,
        forall|i: int| 0 <= i < 8 ==> #[trigger] o[i].0 == prefix_columns(((cols01_mask() & shr_b_spec(2, x[i].0)) | (cols23_mask() & shl_b_spec(2, y[i].0))) ^ (col0_mask() & shr_b_spec(3, y[i].0))),
    ensures
        forall|j: int| 0 <= j < 16 ==> {
            #[trigger] block_of(o, k)[j] == if j / 4 == 0 { (block_of(x, k)[(j % 4) + 8] ^ block_of(y, k)[(j % 4) + 12]) } else if j / 4 == 1 { (block_of(x, k)[(j % 4) + 12] ^ (block_of(x, k)[(j % 4) + 8] ^ block_of(y, k)[(j % 4) + 12])) } else if j / 4 == 2 { (block_of(y, k)[(j % 4)] ^ (block_of(x, k)[(j % 4) + 12] ^ (block_of(x, k)[(j % 4) + 8] ^ block_of(y, k)[(j % 4) + 12]))) } else { (block_of(y, k)[(j % 4) + 4] ^ (block_of(y, k)[(j % 4)] ^ (block_of(x, k)[(j % 4) + 12] ^ (block_of(x, k)[(j % 4) + 8] ^ block_of(y, k)[(j % 4) + 12])))) }
        },
{
    assert forall|j: int| 0 <= j < 16 implies {
        #[trigger] block_of(o, k)[j] == if j / 4 == 0 { (block_of(x, k)[(j % 4) + 8] ^ block_of(y, k)[(j % 4) + 12]) } else if j / 4 == 1 { (block_of(x, k)[(j % 4) + 12] ^ (block_of(x, k)[(j % 4) + 8] ^ block_of(y, k)[(j % 4) + 12])) } else if j / 4 == 2 { (block_of(y, k)[(j % 4)] ^ (block_of(x, k)[(j % 4) + 12] ^ (block_of(x, k)[(j % 4) + 8] ^ block_of(y, k)[(j % 4) + 12]))) } else { (block_of(y, k)[(j % 4) + 4] ^ (block_of(y, k)[(j % 4)] ^ (block_of(x, k)[(j % 4) + 12] ^ (block_of(x, k)[(j % 4) + 8] ^ block_of(y, k)[(j % 4) + 12])))) }
    } by {
        if j / 4 == 0 {
            lemma_ks192_c_byte_0(x, y, z, o, k, j);
        } else if j / 4 == 1 {
            lemma_ks192_c_byte_1(x, y, z, o, k, j);
        } else if j / 4 == 2 {
            lemma_ks192_c_byte_2(x, y, z, o, k, j);
        } else {
            lemma_ks192_c_byte_3(x, y, z, o, k, j);
        }
    }
}

/// Every byte of the plane formula `ks192_d`, block by block.
proof fn lemma_ks192_d_block(x: Seq<Lane>, y: Seq<Lane>, z: Seq<Lane>, o: Seq<Lane>, k: int)
    requires
        x.len() == 8,
        y.len() == 8,
        z.len() == 8,
        o.len() == 8,
        0 <= k < 8,
        forall|i: int| 0 <= i < 8 ==> #[trigger] o[i].0 == prefix_columns(((cols01_mask() & shr_b_spec(2, x[i].0)) | (cols23_mask() & shl_b_spec(2, y[i].0))) ^ (col0_mask() & rotr128(z[i].0, 56))),
    ensures
        forall|j: int| 0 <= j < 16 ==> {
            #[trigger] block_of(o, k)[j] == if j / 4 == 0 { (block_of(x, k)[(j % 4) + 8] ^ block_of(z, k)[12 + ((j % 4) + 1) % 4]) } else if j / 4 == 1 { (block_of(x, k)[(j % 4) + 12] ^ (block_of(x, k)[(j % 4) + 8] ^ block_of(z, k)[12 + ((j % 4) + 1) % 4])) } else if j / 4 == 2 { (block_of(y, k)[(j % 4)] ^ (block_of(x, k)[(j % 4) + 12] ^ (block_of(x, k)[(j % 4) + 8] ^ block_of(z, k)[12 + ((j % 4) + 1) % 4]))) } else { (block_of(y, k)[(j % 4) + 4] ^ (block_of(y, k)[(j % 4)] ^ (block_of(x, k)[(j % 4) + 12] ^ (block_of(x, k)[(j % 4) + 8] ^ block_of(z, k)[12 + ((j % 4) + 1) % 4])))) }
        },
{
    assert forall|j: int| 0 <= j < 16 implies {
        #[trigger] block_of(o, k)[j] == if j / 4 == 0 { (block_of(x, k)[(j % 4) + 8] ^ block_of(z, k)[12 + ((j % 4) + 1) % 4]) } else if j / 4 == 1 { (block_of(x, k)[(j % 4) + 12] ^ (block_of(x, k)[(j % 4) + 8] ^ block_of(z, k)[12 + ((j % 4) + 1) % 4])) } else if j / 4 == 2 { (block_of(y, k)[(j % 4)] ^ (block_of(x, k)[(j % 4) + 12] ^ (block_of(x, k)[(j % 4) + 8] ^ block_of(z, k)[12 + ((j % 4) + 1) % 4]))) } else { (block_of(y, k)[(j % 4) + 4] ^ (block_of(y, k)[(j % 4)] ^ (block_of(x, k)[(j % 4) + 12] ^ (block_of(x, k)[(j % 4) + 8] ^ block_of(z, k)[12 + ((j % 4) + 1) % 4])))) }
    } by {
        if j / 4 == 0 {
            lemma_ks192_d_byte_0(x, y, z, o, k, j);
        } else if j / 4 == 1 {
            lemma_ks192_d_byte_1(x, y, z, o, k, j);
        } else if j / 4 == 2 {
            lemma_ks192_d_byte_2(x, y, z, o, k, j);
        } else {
            lemma_ks192_d_byte_3(x, y, z, o, k, j);
        }
    }
}

/// The S-box with a round constant on the carried key material of AES-192:
/// the bytes that the rotation of `ks192_b` and `ks192_d` reads are
/// `SubWord(RotWord(w)) ^ Rcon` of its last column `w`.
proof fn lemma_192_sbox_rcon(s: Seq<Lane>, bit: int, w: Seq<u8>, k: int)
    requires
        s.len() == 8,
        0 <= bit < 8,
        0 <= k < 8,
        forall|x: int| 0 <= x < 4 ==> #[trigger] block_of(s, k)[12 + x] == w[x],
    ensures
        add_rcon_bit_spec(sub_bytes_nots_spec(sub_bytes_spec(s)), bit).len() == 8,
        forall|r: int|
            0 <= r < 4 ==> #[trigger] block_of(add_rcon_bit_spec(sub_bytes_nots_spec(sub_bytes_spec(s)), bit), k)[12 + (r
                + 1) % 4] == aes_rot_sub_w(w, aes_rcon(bit + 1))[r],
{
    assert(window(s, 0) =~= s);
    lemma_block_sbox_window(s, 0, k);
    let t = sub_bytes_nots_spec(sub_bytes_spec(s));
    assert(t == sbox_window(s, 0));
    lemma_block_rcon_bit(t, bit, k);
    lemma_inv_bitslice_len(s);
    assert forall|r: int| 0 <= r < 4 implies #[trigger] block_of(add_rcon_bit_spec(t, bit), k)[12 + (r + 1) % 4]
        == aes_rot_sub_w(w, aes_rcon(bit + 1))[r] by {
        assert(block_of(s, k)[12 + (r + 1) % 4] == w[(r + 1) % 4]);
    }
}

/// The words of a block: byte `r + 4c` is byte `r` of word `c`.
pub open spec fn block_words(b: Seq<u8>, key: Seq<u8>, first: nat) -> bool {
    forall|jj: int| 0 <= jj < 16 ==> #[trigger] b[jj] == aes192_word(key, (first + jj / 4) as nat)[jj % 4]
}

/// Byte `jj` of round key `3g + 1` of AES-192.
#[verifier::rlimit(100)]
proof fn lemma_192_stage_b_byte(key: Seq<u8>, tmp: Seq<Lane>, prev: Seq<Lane>, g: int, k: int, jj: int)
    requires
        tmp.len() == 8,
        prev.len() == 8,
        0 <= g < 4,
        0 <= k < 8,
        0 <= jj < 16,
        block_words(block_of(prev, k), key, (12 * g) as nat),
        forall|x: int| 0 <= x < 4 ==> #[trigger] block_of(tmp, k)[8 + x] == aes192_word(key, (12 * g + 4) as nat)[x],
        forall|x: int| 0 <= x < 4 ==> #[trigger] block_of(tmp, k)[12 + x] == aes192_word(key, (12 * g + 5) as nat)[x],
    ensures
        block_of(ks192_b(ks192_a(tmp, prev), add_rcon_bit_spec(sub_bytes_nots_spec(sub_bytes_spec(tmp)), 2 * g)), k)[jj]
            == aes192_word(key, (12 * g + 4 + jj / 4) as nat)[jj % 4],
{
    let n = 12 * g;
    let a = ks192_a(tmp, prev);
    lemma_ks192_a_block(tmp, prev, prev, a, k);
    let sb = add_rcon_bit_spec(sub_bytes_nots_spec(sub_bytes_spec(tmp)), 2 * g);
    let w5 = aes192_word(key, (n + 5) as nat);
    lemma_192_sbox_rcon(tmp, 2 * g, w5, k);
    let tb = ks192_b(a, sb);
    lemma_ks192_b_block(a, sb, sb, tb, k);
    let r = jj % 4;
    let c = jj / 4;
    assert(block_of(tb, k)[jj] == (if c == 0 {
        block_of(a, k)[jj]
    } else if c == 1 {
        block_of(a, k)[jj]
    } else if c == 2 {
        block_of(a, k)[jj] ^ block_of(sb, k)[12 + (r + 1) % 4]
    } else {
        block_of(a, k)[jj] ^ (block_of(a, k)[jj - 4] ^ block_of(sb, k)[12 + (r + 1) % 4])
    }));
    if c == 0 {
        assert(block_of(a, k)[jj] == block_of(tmp, k)[8 + r]);
    } else if c == 1 {
        assert(block_of(a, k)[jj] == block_of(tmp, k)[12 + r]);
    } else {
        assert(block_of(a, k)[r + 8] == block_of(prev, k)[r]);
        assert(block_of(a, k)[r + 12] == block_of(prev, k)[r + 4]);
        assert(block_of(prev, k)[r] == aes192_word(key, n as nat)[r]);
        assert(block_of(prev, k)[r + 4] == aes192_word(key, (n + 1) as nat)[r]);
        assert(block_of(sb, k)[12 + (r + 1) % 4] == aes_rot_sub_w(w5, aes_rcon(2 * g + 1))[r]);
        assert((n + 6) % 6 == 0 && (n + 6) / 6 == 2 * g + 1 && (n + 7) % 6 == 1);
        assert(aes192_word(key, (n + 6) as nat)[r] == aes192_word(key, n as nat)[r] ^ aes_rot_sub_w(
            w5,
            aes_rcon(2 * g + 1),
        )[r]);
        if c == 3 {
            assert(aes192_word(key, (n + 7) as nat)[r] == aes192_word(key, (n + 1) as nat)[r] ^ aes192_word(
                key,
                (n + 6) as nat,
            )[r]);
        }
    }
}

/// Round key `3g + 1` of AES-192 from round key `3g` and the carried words.
proof fn lemma_192_stage_b(key: Seq<u8>, tmp: Seq<Lane>, prev: Seq<Lane>, g: int, k: int)
    requires
        tmp.len() == 8,
        prev.len() == 8,
        0 <= g < 4,
        0 <= k < 8,
        block_words(block_of(prev, k), key, (12 * g) as nat),
        forall|x: int| 0 <= x < 4 ==> #[trigger] block_of(tmp, k)[8 + x] == aes192_word(key, (12 * g + 4) as nat)[x],
        forall|x: int| 0 <= x < 4 ==> #[trigger] block_of(tmp, k)[12 + x] == aes192_word(key, (12 * g + 5) as nat)[x],
    ensures
        block_words(
            block_of(ks192_b(ks192_a(tmp, prev), add_rcon_bit_spec(sub_bytes_nots_spec(sub_bytes_spec(tmp)), 2 * g)), k),
            key,
            (12 * g + 4) as nat,
        ),
{
    assert forall|jj: int| 0 <= jj < 16 implies #[trigger] block_of(
        ks192_b(ks192_a(tmp, prev), add_rcon_bit_spec(sub_bytes_nots_spec(sub_bytes_spec(tmp)), 2 * g)),
        k,
    )[jj] == aes192_word(key, (12 * g + 4 + jj / 4) as nat)[jj % 4] by {
        lemma_192_stage_b_byte(key, tmp, prev, g, k, jj);
    }
}

/// Round key `3g + 2` of AES-192 from round keys `3g` and `3g + 1`.
#[verifier::rlimit(100)]
proof fn lemma_192_stage_c(key: Seq<u8>, tb: Seq<Lane>, prev: Seq<Lane>, g: int, k: int)
    requires
        tb.len() == 8,
        prev.len() == 8,
        0 <= g < 4,
        0 <= k < 8,
        block_words(block_of(prev, k), key, (12 * g) as nat),
        block_words(block_of(tb, k), key, (12 * g + 4) as nat),
    ensures
        block_words(block_of(ks192_c(tb, prev), k), key, (12 * g + 8) as nat),
{
    let n = 12 * g;
    let tc = ks192_c(tb, prev);
    lemma_ks192_c_block(prev, tb, tb, tc, k);
    assert forall|jj: int| 0 <= jj < 16 implies #[trigger] block_of(tc, k)[jj] == aes192_word(
        key,
        (n + 8 + jj / 4) as nat,
    )[jj % 4] by {
        let r = jj % 4;
        assert(block_of(prev, k)[r + 8] == aes192_word(key, (n + 2) as nat)[r]);
        assert(block_of(prev, k)[r + 12] == aes192_word(key, (n + 3) as nat)[r]);
        assert(block_of(tb, k)[r] == aes192_word(key, (n + 4) as nat)[r]);
        assert(block_of(tb, k)[r + 4] == aes192_word(key, (n + 5) as nat)[r]);
        assert(block_of(tb, k)[r + 12] == aes192_word(key, (n + 7) as nat)[r]);
        assert((n + 8) % 6 == 2 && (n + 9) % 6 == 3 && (n + 10) % 6 == 4 && (n + 11) % 6 == 5);
        assert(aes192_word(key, (n + 8) as nat)[r] == aes192_word(key, (n + 2) as nat)[r] ^ aes192_word(
            key,
            (n + 7) as nat,
        )[r]);
        assert(aes192_word(key, (n + 9) as nat)[r] == aes192_word(key, (n + 3) as nat)[r] ^ aes192_word(
            key,
            (n + 8) as nat,
        )[r]);
        assert(aes192_word(key, (n + 10) as nat)[r] == aes192_word(key, (n + 4) as nat)[r] ^ aes192_word(
            key,
            (n + 9) as nat,
        )[r]);
        assert(aes192_word(key, (n + 11) as nat)[r] == aes192_word(key, (n + 5) as nat)[r] ^ aes192_word(
            key,
            (n + 10) as nat,
        )[r]);
    }
}

/// The words of round key `3g + 3` of AES-192, unfolded.
proof fn lemma_192_words_d(key: Seq<u8>, g: int, r: int)
    requires
        0 <= g < 4,
        0 <= r < 4,
    ensures
        aes192_word(key, (12 * g + 12) as nat)[r] == aes192_word(key, (12 * g + 6) as nat)[r] ^ aes_rot_sub_w(
            aes192_word(key, (12 * g + 11) as nat),
            aes_rcon(2 * g + 2),
        )[r],
        aes192_word(key, (12 * g + 13) as nat)[r] == aes192_word(key, (12 * g + 7) as nat)[r] ^ aes192_word(
            key,
            (12 * g + 12) as nat,
        )[r],
        aes192_word(key, (12 * g + 14) as nat)[r] == aes192_word(key, (12 * g + 8) as nat)[r] ^ aes192_word(
            key,
            (12 * g + 13) as nat,
        )[r],
        aes192_word(key, (12 * g + 15) as nat)[r] == aes192_word(key, (12 * g + 9) as nat)[r] ^ aes192_word(
            key,
            (12 * g + 14) as nat,
        )[r],
{
    let n = 12 * g;
    assert((n + 12) % 6 == 0 && (n + 12) / 6 == 2 * g + 2 && (n + 13) % 6 == 1 && (n + 14) % 6 == 2 && (n + 15) % 6
        == 3);
}

/// Byte `jj` of the plane formula of round key `3g + 3`, from the bytes of
/// the two round keys before it and the S-box word.
#[verifier::rlimit(100)]
proof fn lemma_192_bytes_d(tb: Seq<Lane>, tc: Seq<Lane>, g: int, k: int, jj: int, w11: Seq<u8>)
    requires
        tb.len() == 8,
        tc.len() == 8,
        0 <= g < 4,
        0 <= k < 8,
        0 <= jj < 16,
        forall|x: int| 0 <= x < 4 ==> #[trigger] block_of(tc, k)[12 + x] == w11[x],
    ensures
        ({
            let r = jj % 4;
            let c = jj / 4;
            let d = block_of(ks192_d(tb, tc, add_rcon_bit_spec(sub_bytes_nots_spec(sub_bytes_spec(tc)), 2 * g + 1)), k);
            let rot = aes_rot_sub_w(w11, aes_rcon(2 * g + 2))[r];
            let t0 = block_of(tb, k)[r + 8] ^ rot;
            let t1 = block_of(tb, k)[r + 12] ^ t0;
            let t2 = block_of(tc, k)[r] ^ t1;
            let t3 = block_of(tc, k)[r + 4] ^ t2;
            d[jj] == if c == 0 {
                t0
            } else if c == 1 {
                t1
            } else if c == 2 {
                t2
            } else {
                t3
            }
        }),
{
    let sb2 = add_rcon_bit_spec(sub_bytes_nots_spec(sub_bytes_spec(tc)), 2 * g + 1);
    lemma_192_sbox_rcon(tc, 2 * g + 1, w11, k);
    let td = ks192_d(tb, tc, sb2);
    lemma_ks192_d_block(tb, tc, sb2, td, k);
    let r = jj % 4;
    assert(block_of(sb2, k)[12 + (r + 1) % 4] == aes_rot_sub_w(w11, aes_rcon(2 * g + 2))[r]);
}

/// Byte `jj` of round key `3g + 3` of AES-192.
#[verifier::rlimit(100)]
proof fn lemma_192_stage_d_byte(key: Seq<u8>, tb: Seq<Lane>, tc: Seq<Lane>, g: int, k: int, jj: int)
    requires
        tb.len() == 8,
        tc.len() == 8,
        0 <= g < 4,
        0 <= k < 8,
        0 <= jj < 16,
        block_words(block_of(tb, k), key, (12 * g + 4) as nat),
        block_words(block_of(tc, k), key, (12 * g + 8) as nat),
    ensures
        block_of(ks192_d(tb, tc, add_rcon_bit_spec(sub_bytes_nots_spec(sub_bytes_spec(tc)), 2 * g + 1)), k)[jj]
            == aes192_word(key, (12 * g + 12 + jj / 4) as nat)[jj % 4],
{
    let n = 12 * g;
    let w11 = aes192_word(key, (n + 11) as nat);
    assert forall|x: int| 0 <= x < 4 implies #[trigger] block_of(tc, k)[12 + x] == w11[x] by {
        assert(block_of(tc, k)[12 + x] == aes192_word(key, (n + 8 + (12 + x) / 4) as nat)[(12 + x) % 4]);
    }
    let r = jj % 4;
    let c = jj / 4;
    lemma_192_bytes_d(tb, tc, g, k, jj, w11);
    lemma_192_words_d(key, g, r);
    let b8 = block_of(tb, k)[r + 8];
    let b12 = block_of(tb, k)[r + 12];
    let c0 = block_of(tc, k)[r];
    let c4 = block_of(tc, k)[r + 4];
    assert(b8 == aes192_word(key, (n + 6) as nat)[r]);
    assert(b12 == aes192_word(key, (n + 7) as nat)[r]);
    assert(c0 == aes192_word(key, (n + 8) as nat)[r]);
    assert(c4 == aes192_word(key, (n + 9) as nat)[r]);
    assert(jj == r + 4 * c);
}

/// Round key `3g + 3` of AES-192 from round keys `3g + 1` and `3g + 2`.
proof fn lemma_192_stage_d(key: Seq<u8>, tb: Seq<Lane>, tc: Seq<Lane>, g: int, k: int)
    requires
        tb.len() == 8,
        tc.len() == 8,
        0 <= g < 4,
        0 <= k < 8,
        block_words(block_of(tb, k), key, (12 * g + 4) as nat),
        block_words(block_of(tc, k), key, (12 * g + 8) as nat),
    ensures
        block_words(
            block_of(ks192_d(tb, tc, add_rcon_bit_spec(sub_bytes_nots_spec(sub_bytes_spec(tc)), 2 * g + 1)), k),
            key,
            (12 * g + 12) as nat,
        ),
{
    assert forall|jj: int| 0 <= jj < 16 implies #[trigger] block_of(
        ks192_d(tb, tc, add_rcon_bit_spec(sub_bytes_nots_spec(sub_bytes_spec(tc)), 2 * g + 1)),
        k,
    )[jj] == aes192_word(key, (12 * g + 12 + jj / 4) as nat)[jj % 4] by {
        lemma_192_stage_d_byte(key, tb, tc, g, k, jj);
    }
}

/// The words that AES-192 carries into the next group, from round keys
/// `3g + 2` and `3g + 3`.
#[verifier::rlimit(100)]
proof fn lemma_192_stage_e(key: Seq<u8>, tc: Seq<Lane>, td: Seq<Lane>, g: int, k: int)
    requires
        tc.len() == 8,
        td.len() == 8,
        0 <= g < 4,
        0 <= k < 8,
        block_words(block_of(tc, k), key, (12 * g + 8) as nat),
        block_words(block_of(td, k), key, (12 * g + 12) as nat),
    ensures
        forall|x: int|
            0 <= x < 4 ==> #[trigger] block_of(ks192_e(tc, td), k)[8 + x] == aes192_word(key, (12 * g + 16) as nat)[x],
        forall|x: int|
            0 <= x < 4 ==> #[trigger] block_of(ks192_e(tc, td), k)[12 + x] == aes192_word(key, (12 * g + 17) as nat)[x],
{
    let n = 12 * g;
    let te = ks192_e(tc, td);
    lemma_ks192_e_block(tc, td, td, te, k);
    assert forall|x: int| 0 <= x < 4 implies #[trigger] block_of(te, k)[8 + x] == aes192_word(key, (n + 16) as nat)[x] by {
        assert(block_of(tc, k)[8 + x] == aes192_word(key, (n + 10) as nat)[x]);
        assert(block_of(td, k)[12 + x] == aes192_word(key, (n + 15) as nat)[x]);
        assert((n + 16) % 6 == 4);
        assert(aes192_word(key, (n + 16) as nat)[x] == aes192_word(key, (n + 10) as nat)[x] ^ aes192_word(
            key,
            (n + 15) as nat,
        )[x]);
    }
    assert forall|x: int| 0 <= x < 4 implies #[trigger] block_of(te, k)[12 + x] == aes192_word(key, (n + 17) as nat)[x] by {
        assert(block_of(tc, k)[8 + x] == aes192_word(key, (n + 10) as nat)[x]);
        assert(block_of(tc, k)[12 + x] == aes192_word(key, (n + 11) as nat)[x]);
        assert(block_of(td, k)[12 + x] == aes192_word(key, (n + 15) as nat)[x]);
        assert((n + 16) % 6 == 4 && (n + 17) % 6 == 5);
        assert(aes192_word(key, (n + 16) as nat)[x] == aes192_word(key, (n + 10) as nat)[x] ^ aes192_word(
            key,
            (n + 15) as nat,
        )[x]);
        assert(aes192_word(key, (n + 17) as nat)[x] == aes192_word(key, (n + 11) as nat)[x] ^ aes192_word(
            key,
            (n + 16) as nat,
        )[x]);
    }
}

/// One group of the AES-192 key schedule: from round key `3g` and the last
/// two words of the carried material, it writes round keys `3g + 1`,
/// `3g + 2` and `3g + 3` of the standard and carries the two words after.
proof fn lemma_ks192_group(key: Seq<u8>, rk: Seq<Lane>, tmp: Seq<Lane>, g: int, k: int)
    requires
        rk.len() == 104,
        tmp.len() == 8,
        0 <= g < 4,
        0 <= k < 8,
        block_words(block_of(window(rk, 24 * g), k), key, (12 * g) as nat),
        forall|x: int| 0 <= x < 4 ==> #[trigger] block_of(tmp, k)[8 + x] == aes192_word(key, (12 * g + 4) as nat)[x],
        forall|x: int| 0 <= x < 4 ==> #[trigger] block_of(tmp, k)[12 + x] == aes192_word(key, (12 * g + 5) as nat)[x],
    ensures
        ks192_group(rk, tmp, g).0.len() == 104,
        ks192_group(rk, tmp, g).1.len() == 8,
        block_words(block_of(window(ks192_group(rk, tmp, g).0, 24 * g + 8), k), key, (12 * g + 4) as nat),
        block_words(block_of(window(ks192_group(rk, tmp, g).0, 24 * g + 16), k), key, (12 * g + 8) as nat),
        block_words(block_of(window(ks192_group(rk, tmp, g).0, 24 * g + 24), k), key, (12 * g + 12) as nat),
        forall|i: int|
            0 <= i < 104 && (i < 24 * g + 8 || 24 * g + 32 <= i) ==> #[trigger] ks192_group(rk, tmp, g).0[i] == rk[i],
        forall|x: int|
            0 <= x < 4 ==> #[trigger] block_of(ks192_group(rk, tmp, g).1, k)[8 + x] == aes192_word(
                key,
                (12 * g + 16) as nat,
            )[x],
        forall|x: int|
            0 <= x < 4 ==> #[trigger] block_of(ks192_group(rk, tmp, g).1, k)[12 + x] == aes192_word(
                key,
                (12 * g + 17) as nat,
            )[x],
{
    let off = 8 + 24 * g;
    let prev = window(rk, off - 8);
    let a = ks192_a(tmp, prev);
    let rk_a = with_window(rk, off, a);
    lemma_window_with_window(rk, off, a, off);
    lemma_window_with_window(rk, off, a, off - 8);
    let sb = add_rcon_bit_spec(sub_bytes_nots_spec(sub_bytes_spec(tmp)), 2 * g);
    let tb = ks192_b(window(rk_a, off), sb);
    lemma_192_stage_b(key, tmp, prev, g, k);
    let rk_b = with_window(rk_a, off, tb);
    lemma_window_with_window(rk_a, off, tb, off);
    lemma_window_with_window(rk_a, off, tb, off - 8);
    let tc = ks192_c(tb, window(rk_b, off - 8));
    lemma_192_stage_c(key, tb, prev, g, k);
    let rk_c = with_window(rk_b, off + 8, tc);
    lemma_window_with_window(rk_b, off + 8, tc, off + 8);
    lemma_window_with_window(rk_b, off + 8, tc, off);
    let sb2 = add_rcon_bit_spec(sub_bytes_nots_spec(sub_bytes_spec(tc)), 2 * g + 1);
    let td = ks192_d(window(rk_c, off), window(rk_c, off + 8), sb2);
    lemma_192_stage_d(key, tb, tc, g, k);
    let rk_d = with_window(rk_c, off + 16, td);
    lemma_window_with_window(rk_c, off + 16, td, off + 16);
    lemma_window_with_window(rk_c, off + 16, td, off + 8);
    lemma_window_with_window(rk_c, off + 16, td, off);
    lemma_192_stage_e(key, tc, td, g, k);
    assert(ks192_group(rk, tmp, g) == (rk_d, ks192_e(window(rk_d, off + 8), window(rk_d, off + 16))));
}

/// The round keys and carried material that the AES-192 key schedule
/// starts from.
pub open spec fn ks192_init(key: Seq<u8>) -> (Seq<Lane>, Seq<Lane>) {
    (initial_keys(104, bitslice_same(key.subrange(0, 16))), bitslice_same(key.subrange(8, 24)))
}

/// The key schedule starts with words 0 to 3 as round key 0 and words 4
/// and 5 in the last two columns of the carried material.
proof fn lemma_ks192_init(key: Seq<u8>, k: int)
    requires
        key.len() == 24,
        0 <= k < 8,
    ensures
        ks192_init(key).0.len() == 104,
        ks192_init(key).1.len() == 8,
        block_words(block_of(window(ks192_init(key).0, 0), k), key, 0),
        forall|x: int| 0 <= x < 4 ==> #[trigger] block_of(ks192_init(key).1, k)[8 + x] == aes192_word(key, 4)[x],
        forall|x: int| 0 <= x < 4 ==> #[trigger] block_of(ks192_init(key).1, k)[12 + x] == aes192_word(key, 5)[x],
{
    let k0 = key.subrange(0, 16);
    let k1 = key.subrange(8, 24);
    lemma_block_of_same(k0, k);
    lemma_block_of_same(k1, k);
    lemma_window_with_window(zero_lanes(104), 0, bitslice_same(k0), 0);
    assert forall|jj: int| 0 <= jj < 16 implies #[trigger] block_of(window(ks192_init(key).0, 0), k)[jj] == aes192_word(
        key,
        (0 + jj / 4) as nat,
    )[jj % 4] by {
        assert(aes192_word(key, (jj / 4) as nat) == key.subrange(4 * (jj / 4), 4 * (jj / 4) + 4));
    }
}

/// The first `n` groups of the AES-192 key schedule hold, in every block,
/// round keys `0..=3n` of the standard's key expansion.
proof fn lemma_ks192_expand(key: Seq<u8>, n: nat, k: int)
    requires
        key.len() == 24,
        n <= 4,
        0 <= k < 8,
    ensures
        ks192_expand(ks192_init(key).0, ks192_init(key).1, n).0.len() == 104,
        ks192_expand(ks192_init(key).0, ks192_init(key).1, n).1.len() == 8,
        forall|r: int|
            0 <= r <= 3 * n ==> #[trigger] block_words(
                block_of(window(ks192_expand(ks192_init(key).0, ks192_init(key).1, n).0, 8 * r), k),
                key,
                (4 * r) as nat,
            ),
        forall|x: int|
            0 <= x < 4 ==> #[trigger] block_of(ks192_expand(ks192_init(key).0, ks192_init(key).1, n).1, k)[8 + x]
                == aes192_word(key, (12 * n + 4) as nat)[x],
        forall|x: int|
            0 <= x < 4 ==> #[trigger] block_of(ks192_expand(ks192_init(key).0, ks192_init(key).1, n).1, k)[12 + x]
                == aes192_word(key, (12 * n + 5) as nat)[x],
    decreases n,
{
    lemma_ks192_init(key, k);
    if n > 0 {
        let p = ks192_expand(ks192_init(key).0, ks192_init(key).1, (n - 1) as nat);
        lemma_ks192_expand(key, (n - 1) as nat, k);
        let g = n - 1;
        assert(block_words(block_of(window(p.0, 24 * g), k), key, (12 * g) as nat)) by {
            assert(block_words(block_of(window(p.0, 8 * (3 * g)), k), key, (4 * (3 * g)) as nat));
        }
        lemma_ks192_group(key, p.0, p.1, g, k);
        let q = ks192_group(p.0, p.1, g);
        assert forall|r: int| 0 <= r <= 3 * n implies #[trigger] block_words(
            block_of(window(q.0, 8 * r), k),
            key,
            (4 * r) as nat,
        ) by {
            if r <= 3 * g {
                assert(window(q.0, 8 * r) =~= window(p.0, 8 * r));
            } else if r == 3 * g + 1 {
                assert(8 * r == 24 * g + 8);
            } else if r == 3 * g + 2 {
                assert(8 * r == 24 * g + 16);
            } else {
                assert(8 * r == 24 * g + 24);
            }
        }
    }
}

/// How many times the AES-192 key schedule applies ShiftRows to round key
/// `r` to follow the drifting rows.
pub open spec fn ks192_shifts(r: int) -> int {
    if r == 0 || r == 12 {
        0
    } else {
        (4 - r % 4) % 4
    }
}

/// The realignment of the AES-192 round keys: ShiftRows three, two and one
/// times on round keys 1, 2, 3, on 5, 6, 7 and on 9, 10, 11.
proof fn lemma_realign_192(buf: Seq<Lane>, r: int)
    requires
        buf.len() == 104,
        0 <= r <= 12,
    ensures
        realign(buf, 8, 3).len() == 104,
        window(realign(buf, 8, 3), 8 * r) == if ks192_shifts(r) == 0 {
            window(buf, 8 * r)
        } else {
            shift_rows_state(ks192_shifts(r), window(buf, 8 * r))
        },
{
    let o = 8 * r;
    let b1 = map_shift(buf, 8, 3);
    lemma_map_shift_window(buf, 8, 3, o);
    let b2 = map_shift(b1, 16, 2);
    lemma_map_shift_window(b1, 16, 2, o);
    let b3 = map_shift(b2, 24, 1);
    lemma_map_shift_window(b2, 24, 1, o);
    let b4 = map_shift(b3, 40, 3);
    lemma_map_shift_window(b3, 40, 3, o);
    let b5 = map_shift(b4, 48, 2);
    lemma_map_shift_window(b4, 48, 2, o);
    let b6 = map_shift(b5, 56, 1);
    lemma_map_shift_window(b5, 56, 1, o);
    let b7 = map_shift(b6, 72, 3);
    lemma_map_shift_window(b6, 72, 3, o);
    let b8 = map_shift(b7, 80, 2);
    lemma_map_shift_window(b7, 80, 2, o);
    let b9 = map_shift(b8, 88, 1);
    lemma_map_shift_window(b8, 88, 1, o);
    assert(realign(buf, 8, 0) == buf);
    assert(realign(buf, 8, 1) == b3);
    assert(realign(buf, 8, 2) == b6);
    assert(realign(buf, 8, 3) == b9);
}

/// The AES-192 key schedule lays out the round keys of the standard's key
/// expansion as the fixsliced cipher reads them.
pub proof fn lemma_aes192_key_schedule_holds(key: Seq<u8>)
    requires
        key.len() == 24,
    ensures
        fixsliced_keys_hold(aes192_key_schedule_spec(key), aes192_round_keys(key), 12),
{
    let e = ks192_expand(ks192_init(key).0, ks192_init(key).1, 4).0;
    let a = realign(e, 8, 3);
    let rk = aes192_key_schedule_spec(key);
    let keys = aes192_round_keys(key);
    assert(e.len() == 104) by {
        lemma_ks192_expand(key, 4, 0);
    }
    lemma_realign_192(e, 0);
    lemma_nots_windows(a, 12, 0);
    assert forall|r: int| 0 <= r <= 12 implies #[trigger] keys[r].len() == 16 by {
    }
    assert forall|r: int, k: int| 0 <= r <= 12 && 0 <= k < 8 implies #[trigger] key_block(rk, r, k)
        == fixsliced_round_key(r, 12, keys[r]) by {
        lemma_ks192_expand(key, 4, k);
        let kr = aes192_round_key(key, r as nat);
        let we = window(e, 8 * r);
        lemma_inv_bitslice_len(we);
        assert(block_words(block_of(we, k), key, (4 * r) as nat));
        assert(block_of(we, k) =~= kr);
        lemma_realign_192(e, r);
        lemma_nots_windows(a, 12, r);
        let n = ks192_shifts(r);
        let wa = window(a, 8 * r);
        if n == 0 {
            assert(wa == we);
        } else {
            lemma_block_shift_rows(we, n, k);
        }
        assert(wa.len() == 8) by {
            lemma_round_lengths(0, we);
        }
        if r == 0 {
        } else {
            lemma_block_nots(wa, k);
            if r != 12 && n == 0 {
                lemma_shift_rows_n_zero(kr);
            }
        }
    }
}

/// AES-192 with the round keys of the fixsliced key schedule is the AES-192
/// cipher of the standard, block by block, and decryption is its inverse.
pub proof fn lemma_aes192_fips(key: Seq<u8>, blocks: Seq<Seq<u8>>)
    requires
        key.len() == 24,
        is_batch(blocks),
    ensures
        forall|k: int|
            0 <= k < 8 ==> #[trigger] aes192_encrypt_spec(aes192_key_schedule_spec(key), blocks)[k] == aes_encrypt_block(
                aes192_round_keys(key),
                12,
                blocks[k],
            ),
        forall|k: int|
            0 <= k < 8 ==> #[trigger] aes_encrypt_block(
                aes192_round_keys(key),
                12,
                aes192_decrypt_spec(aes192_key_schedule_spec(key), blocks)[k],
            ) == blocks[k],
{
    lemma_aes192_key_schedule_holds(key);
    lemma_aes192_is_aes(aes192_key_schedule_spec(key), aes192_round_keys(key), blocks);
}

} // verus!

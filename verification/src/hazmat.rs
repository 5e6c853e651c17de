//! Low-level AES functions on single blocks and on batches of eight: one
//! cipher round, one equivalent inverse cipher round, MixColumns and
//! InvMixColumns. A bitsliced state carries eight blocks natively, so a
//! single block is broadcast to all eight positions.

use vstd::prelude::*;
use crate::lane::{Lane, State};
use crate::sbox::{sub_bytes, inv_sub_bytes, sub_bytes_nots, sub_bytes_spec, inv_sub_bytes_spec, sub_bytes_nots_spec};
use crate::shift_rows::{shift_rows_1, inv_shift_rows_1, shift_rows_state};
use crate::mixing::{
    mix_columns_0, inv_mix_columns_0, mix_columns_0_spec, inv_mix_columns_0_spec, lemma_mix_columns_0_uniform,
    lemma_inv_mix_columns_0_mix_columns_0, lemma_mix_columns_0_inv_mix_columns_0,
};
use crate::bitslice::{
    Block, bitslice, inv_bitslice, inv_bitslice_spec, batch_view, bitslice_same, lemma_bitslice_same_uniform,
    lemma_bitslice_same_inv_bitslice, lemma_inv_bitslice_same,
};
use crate::block_cipher::{bitslice_batch, is_batch, lemma_bitslice_batch_len, lemma_round_lengths, inv_mix_spec};
use crate::sbox::{cell_of, lemma_sub_bytes_sbox, lemma_inv_sub_bytes_sbox};
use crate::layout::{
    pos, cell_byte, shift_rows_source, lemma_shift_rows_cells, lemma_nots_cell, lemma_nots_cell_xor,
    lemma_bitslice_cells, lemma_inv_bitslice_cells, lemma_inv_bitslice_len, lemma_mix_columns_0_block,
};
use crate::standard::{
    aes_sub_bytes, aes_inv_sub_bytes, aes_shift_rows, aes_inv_shift_rows, aes_mix_columns, aes_add_round_key,
};
use crate::gf::aes_sbox;

verus! {

/// Eight blocks, handled in parallel.
pub type Block8 = [Block; 8];

/// The bytes of `a` XORed with the bytes of `b`.
pub open spec fn xor_bytes(a: Seq<u8>, b: Seq<u8>) -> Seq<u8> {
    Seq::new(a.len(), |i: int| a[i] ^ b[i])
}

/// One AES cipher round on a bitsliced state, before the round key:
/// SubBytes (with its NOT gates), ShiftRows, MixColumns.
pub open spec fn cipher_round_state(s: Seq<Lane>) -> Seq<Lane> {
    mix_columns_0_spec(shift_rows_state(1, sub_bytes_nots_spec(sub_bytes_spec(s))))
}

/// One AES equivalent inverse cipher round on a bitsliced state, before the
/// round key: InvSubBytes, InvShiftRows, InvMixColumns.
pub open spec fn equiv_inv_cipher_round_state(s: Seq<Lane>) -> Seq<Lane> {
    inv_mix_columns_0_spec(shift_rows_state(3, inv_sub_bytes_spec(sub_bytes_nots_spec(s))))
}

/// The first block read out of a state that carries eight copies of `b`
/// after the cipher round.
pub open spec fn cipher_round_block(b: Seq<u8>) -> Seq<u8> {
    inv_bitslice_spec(cipher_round_state(bitslice_same(b)))[0]
}

/// The first block read out of a state that carries eight copies of `b`
/// after the equivalent inverse cipher round.
pub open spec fn equiv_inv_cipher_round_block(b: Seq<u8>) -> Seq<u8> {
    inv_bitslice_spec(equiv_inv_cipher_round_state(bitslice_same(b)))[0]
}

/// MixColumns on one block.
pub open spec fn mix_columns_block(b: Seq<u8>) -> Seq<u8> {
    inv_bitslice_spec(mix_columns_0_spec(bitslice_same(b)))[0]
}

/// InvMixColumns on one block.
pub open spec fn inv_mix_columns_block(b: Seq<u8>) -> Seq<u8> {
    inv_bitslice_spec(inv_mix_columns_0_spec(bitslice_same(b)))[0]
}

/// XORs `src` into `dst`, byte by byte.
pub fn xor_in_place(dst: &mut Block, src: &Block)
    ensures
        final(dst)@ == xor_bytes(old(dst)@, src@),
{
    for i in 0..16
        invariant
            forall|j: int| 0 <= j < i ==> #[trigger] dst@[j] == old(dst)@[j] ^ src@[j],
            forall|j: int| i <= j < 16 ==> #[trigger] dst@[j] == old(dst)@[j],
    {
        dst[i] = dst[i] ^ src[i];
    }
    assert(dst@ =~= xor_bytes(old(dst)@, src@));
}

/// Bitslices a single block by broadcasting it to all 8 block positions.
pub fn bitslice_block(block: &Block) -> (r: State)
    ensures
        r@ == bitslice_same(block@),
{
    let mut state: State = [Lane::default(); 8];
    bitslice(&mut state, block, block, block, block, block, block, block, block);
    state
}

/// Un-bitslices a single block (takes the first of the 8 outputs).
pub fn inv_bitslice_block(block: &mut Block, state: &State)
    ensures
        final(block)@ == inv_bitslice_spec(state@)[0],
{
    let out = inv_bitslice(state);
    *block = out[0];
}

/// AES cipher (encrypt) round function.
pub fn cipher_round(block: &mut Block, round_key: &Block)
    ensures
        final(block)@ == xor_bytes(cipher_round_block(old(block)@), round_key@),
        final(block)@ == aes_add_round_key(
            aes_mix_columns(aes_shift_rows(aes_sub_bytes(old(block)@))),
            round_key@,
        ),
{
    proof {
        lemma_cipher_round_block_aes(block@);
    }
    let mut state = bitslice_block(block);
    sub_bytes(&mut state);
    sub_bytes_nots(&mut state);
    shift_rows_1(&mut state);
    mix_columns_0(&mut state);
    inv_bitslice_block(block, &state);
    xor_in_place(block, round_key);
    assert(block@ =~= aes_add_round_key(
        aes_mix_columns(aes_shift_rows(aes_sub_bytes(old(block)@))),
        round_key@,
    ));
}

/// AES cipher (encrypt) round function: parallel version.
pub fn cipher_round_par(blocks: &mut Block8, round_keys: &Block8)
    ensures
        forall|i: int|
            0 <= i < 8 ==> #[trigger] final(blocks)[i]@ == xor_bytes(
                inv_bitslice_spec(cipher_round_state(bitslice_batch(batch_view(*old(blocks)))))[i],
                round_keys[i]@,
            ),
        forall|i: int|
            0 <= i < 8 ==> #[trigger] final(blocks)[i]@ == aes_add_round_key(
                aes_mix_columns(aes_shift_rows(aes_sub_bytes(old(blocks)[i]@))),
                round_keys[i]@,
            ),
{
    let ghost b0 = batch_view(*blocks);
    let mut state: State = [Lane::default(); 8];
    bitslice(
        &mut state, &blocks[0], &blocks[1], &blocks[2], &blocks[3], &blocks[4], &blocks[5], &blocks[6],
        &blocks[7],
    );
    let ghost s0 = state@;
    assert(s0 == bitslice_batch(batch_view(*old(blocks))));
    sub_bytes(&mut state);
    sub_bytes_nots(&mut state);
    shift_rows_1(&mut state);
    mix_columns_0(&mut state);
    let res = inv_bitslice(&state);
    assert(batch_view(res) == inv_bitslice_spec(cipher_round_state(s0)));
    for i in 0..8
        invariant
            batch_view(res) == inv_bitslice_spec(cipher_round_state(s0)),
            forall|j: int| 0 <= j < i ==> #[trigger] blocks[j]@ == xor_bytes(batch_view(res)[j], round_keys[j]@),
    {
        blocks[i] = res[i];
        let mut b = blocks[i];
        xor_in_place(&mut b, &round_keys[i]);
        blocks[i] = b;
    }
    proof {
        assert forall|i: int| 0 <= i < 8 implies #[trigger] blocks[i]@ == aes_add_round_key(
            aes_mix_columns(aes_shift_rows(aes_sub_bytes(old(blocks)[i]@))),
            round_keys[i]@,
        ) by {
            lemma_cipher_round_state_aes(b0, i);
            assert(b0[i] == old(blocks)[i]@);
            assert(blocks[i]@ =~= aes_add_round_key(
                aes_mix_columns(aes_shift_rows(aes_sub_bytes(old(blocks)[i]@))),
                round_keys[i]@,
            ));
        }
    }
}

/// AES equivalent inverse cipher (decrypt) round function.
pub fn equiv_inv_cipher_round(block: &mut Block, round_key: &Block)
    ensures
        final(block)@ == xor_bytes(equiv_inv_cipher_round_block(old(block)@), round_key@),
        aes_mix_columns(aes_add_round_key(final(block)@, round_key@)) == aes_inv_shift_rows(
            aes_inv_sub_bytes(old(block)@),
        ),
{
    proof {
        lemma_equiv_inv_cipher_round_block_aes(block@);
        lemma_equiv_inv_cipher_round_block_len(block@);
    }
    let mut state = bitslice_block(block);
    sub_bytes_nots(&mut state);
    inv_sub_bytes(&mut state);
    inv_shift_rows_1(&mut state);
    inv_mix_columns_0(&mut state);
    inv_bitslice_block(block, &state);
    xor_in_place(block, round_key);
    proof {
        lemma_xor_bytes_twice(equiv_inv_cipher_round_block(old(block)@), round_key@);
    }
}

/// AES equivalent inverse cipher (decrypt) round function: parallel
/// version.
pub fn equiv_inv_cipher_round_par(blocks: &mut Block8, round_keys: &Block8)
    ensures
        forall|i: int|
            0 <= i < 8 ==> #[trigger] final(blocks)[i]@ == xor_bytes(
                inv_bitslice_spec(equiv_inv_cipher_round_state(bitslice_batch(batch_view(*old(blocks)))))[i],
                round_keys[i]@,
            ),
        forall|i: int|
            0 <= i < 8 ==> #[trigger] aes_mix_columns(aes_add_round_key(final(blocks)[i]@, round_keys[i]@))
                == aes_inv_shift_rows(aes_inv_sub_bytes(old(blocks)[i]@)),
{
    let ghost b0 = batch_view(*blocks);
    let mut state: State = [Lane::default(); 8];
    bitslice(
        &mut state, &blocks[0], &blocks[1], &blocks[2], &blocks[3], &blocks[4], &blocks[5], &blocks[6],
        &blocks[7],
    );
    let ghost s0 = state@;
    assert(s0 == bitslice_batch(batch_view(*old(blocks))));
    sub_bytes_nots(&mut state);
    inv_sub_bytes(&mut state);
    inv_shift_rows_1(&mut state);
    inv_mix_columns_0(&mut state);
    let res = inv_bitslice(&state);
    assert(batch_view(res) == inv_bitslice_spec(equiv_inv_cipher_round_state(s0)));
    for i in 0..8
        invariant
            batch_view(res) == inv_bitslice_spec(equiv_inv_cipher_round_state(s0)),
            forall|j: int| 0 <= j < i ==> #[trigger] blocks[j]@ == xor_bytes(batch_view(res)[j], round_keys[j]@),
    {
        blocks[i] = res[i];
        let mut b = blocks[i];
        xor_in_place(&mut b, &round_keys[i]);
        blocks[i] = b;
    }
    proof {
        assert forall|i: int| 0 <= i < 8 implies #[trigger] aes_mix_columns(
            aes_add_round_key(blocks[i]@, round_keys[i]@),
        ) == aes_inv_shift_rows(aes_inv_sub_bytes(old(blocks)[i]@)) by {
            let e = inv_bitslice_spec(equiv_inv_cipher_round_state(bitslice_batch(b0)));
            lemma_equiv_inv_cipher_round_state_aes(b0, i);
            lemma_inv_bitslice_len(equiv_inv_cipher_round_state(bitslice_batch(b0)));
            lemma_xor_bytes_twice(e[i], round_keys[i]@);
            assert(b0[i] == old(blocks)[i]@);
        }
    }
}

/// AES mix columns function.
pub fn mix_columns(block: &mut Block)
    ensures
        final(block)@ == mix_columns_block(old(block)@),
        final(block)@ == aes_mix_columns(old(block)@),
{
    proof {
        lemma_mix_columns_block_aes(block@);
    }
    let mut state = bitslice_block(block);
    mix_columns_0(&mut state);
    inv_bitslice_block(block, &state);
}

/// AES inverse mix columns function.
pub fn inv_mix_columns(block: &mut Block)
    ensures
        final(block)@ == inv_mix_columns_block(old(block)@),
        aes_mix_columns(final(block)@) == old(block)@,
{
    proof {
        lemma_inv_mix_columns_block_len(block@);
        lemma_mix_columns_block_aes(inv_mix_columns_block(block@));
        lemma_mix_columns_block_inverses(block@);
    }
    let mut state = bitslice_block(block);
    inv_mix_columns_0(&mut state);
    inv_bitslice_block(block, &state);
}

/// `inv_mix_columns` undoes `mix_columns` on every block, and the other way
/// round.
pub proof fn lemma_mix_columns_block_inverses(b: Seq<u8>)
    requires
        b.len() == 16,
    ensures
        inv_mix_columns_block(mix_columns_block(b)) == b,
        mix_columns_block(inv_mix_columns_block(b)) == b,
{
    let s = bitslice_same(b);
    lemma_bitslice_same_uniform(b);
    lemma_mix_columns_0_uniform(s);
    lemma_bitslice_same_inv_bitslice(mix_columns_0_spec(s));
    lemma_bitslice_same_inv_bitslice(inv_mix_columns_0_spec(s));
    lemma_inv_mix_columns_0_mix_columns_0(s);
    lemma_mix_columns_0_inv_mix_columns_0(s);
    lemma_inv_bitslice_same(b);
}

/// Where ShiftRows and InvShiftRows take the byte of cell `l` from, in
/// the cell layout of a bitsliced state and in the byte layout of a block.
proof fn lemma_shift_rows_source_bytes(l: int)
    requires
        0 <= l < 16,
    ensures
        0 <= cell_byte(l) < 16,
        0 <= shift_rows_source(1, l) < 16,
        0 <= shift_rows_source(3, l) < 16,
        cell_byte(shift_rows_source(1, l)) == cell_byte(l) % 4 + 4 * ((cell_byte(l) / 4 + cell_byte(l) % 4) % 4),
        cell_byte(shift_rows_source(3, l)) == cell_byte(l) % 4 + 4 * ((cell_byte(l) / 4 + 4 - cell_byte(l) % 4)
            % 4),
{
    if l == 0 {
    } else if l == 1 {
    } else if l == 2 {
    } else if l == 3 {
    } else if l == 4 {
    } else if l == 5 {
    } else if l == 6 {
    } else if l == 7 {
    } else if l == 8 {
    } else if l == 9 {
    } else if l == 10 {
    } else if l == 11 {
    } else if l == 12 {
    } else if l == 13 {
    } else if l == 14 {
    } else {
    }
}

/// Cell `l` at bit `k` after SubBytes (with its NOT gates) and ShiftRows
/// holds byte `l / 4 + 4 (l % 4)` of SubBytes then ShiftRows of AES on
/// block `k`.
proof fn lemma_sub_shift_cells(b: Seq<Seq<u8>>, l: int, k: int)
    requires
        is_batch(b),
        0 <= l < 16,
        0 <= k < 8,
    ensures
        cell_of(
            shift_rows_state(1, sub_bytes_nots_spec(sub_bytes_spec(bitslice_batch(b)))),
            pos(l, k),
        ) == aes_shift_rows(aes_sub_bytes(b[k]))[cell_byte(l)],
{
    let s = bitslice_batch(b);
    lemma_bitslice_batch_len(b);
    lemma_round_lengths(0, s);
    let t = sub_bytes_nots_spec(sub_bytes_spec(s));
    let l0 = shift_rows_source(1, l);
    lemma_shift_rows_source_bytes(l);
    lemma_shift_rows_cells(t, 1, l, k);
    lemma_sub_bytes_sbox(s, pos(l0, k));
    lemma_nots_cell(sub_bytes_spec(s), pos(l0, k), aes_sbox(cell_of(s, pos(l0, k))));
    lemma_bitslice_cells(b, l0, k);
    lemma_shift_rows_source_bytes(l);
}

/// Cell `l` at bit `k` after InvSubBytes (with the NOT gates put back) and
/// InvShiftRows holds byte `l / 4 + 4 (l % 4)` of InvSubBytes then
/// InvShiftRows of AES on block `k`.
proof fn lemma_inv_sub_shift_cells(b: Seq<Seq<u8>>, l: int, k: int)
    requires
        is_batch(b),
        0 <= l < 16,
        0 <= k < 8,
    ensures
        cell_of(
            shift_rows_state(3, inv_sub_bytes_spec(sub_bytes_nots_spec(bitslice_batch(b)))),
            pos(l, k),
        ) == aes_inv_shift_rows(aes_inv_sub_bytes(b[k]))[cell_byte(l)],
{
    let s = bitslice_batch(b);
    lemma_bitslice_batch_len(b);
    let n = sub_bytes_nots_spec(s);
    lemma_round_lengths(0, n);
    let t = inv_sub_bytes_spec(n);
    let l0 = shift_rows_source(3, l);
    lemma_shift_rows_source_bytes(l);
    lemma_shift_rows_cells(t, 3, l, k);
    lemma_inv_sub_bytes_sbox(n, pos(l0, k));
    lemma_nots_cell_xor(s, pos(l0, k));
    lemma_bitslice_cells(b, l0, k);
    lemma_shift_rows_source_bytes(l);
}

/// Block `k` of the batch after the bitsliced cipher round is the AES round
/// (before the round key) of block `k`: MixColumns(ShiftRows(SubBytes)).
pub proof fn lemma_cipher_round_state_aes(b: Seq<Seq<u8>>, k: int)
    requires
        is_batch(b),
        0 <= k < 8,
    ensures
        inv_bitslice_spec(cipher_round_state(bitslice_batch(b)))[k] == aes_mix_columns(
            aes_shift_rows(aes_sub_bytes(b[k])),
        ),
{
    let s = bitslice_batch(b);
    lemma_bitslice_batch_len(b);
    lemma_round_lengths(0, s);
    lemma_round_lengths(0, sub_bytes_spec(s));
    lemma_round_lengths(0, sub_bytes_nots_spec(sub_bytes_spec(s)));
    let x = shift_rows_state(1, sub_bytes_nots_spec(sub_bytes_spec(s)));
    assert forall|l: int| 0 <= l < 16 implies #[trigger] cell_of(x, pos(l, k)) == aes_shift_rows(
        aes_sub_bytes(b[k]),
    )[cell_byte(l)] by {
        lemma_sub_shift_cells(b, l, k);
    }
    lemma_mix_columns_0_block(x, aes_shift_rows(aes_sub_bytes(b[k])), k);
}

/// Block `k` of the batch after the bitsliced equivalent inverse cipher
/// round is the block whose MixColumns is InvShiftRows(InvSubBytes) of
/// block `k`: InvMixColumns(InvShiftRows(InvSubBytes)).
pub proof fn lemma_equiv_inv_cipher_round_state_aes(b: Seq<Seq<u8>>, k: int)
    requires
        is_batch(b),
        0 <= k < 8,
    ensures
        aes_mix_columns(inv_bitslice_spec(equiv_inv_cipher_round_state(bitslice_batch(b)))[k])
            == aes_inv_shift_rows(aes_inv_sub_bytes(b[k])),
{
    let s = bitslice_batch(b);
    lemma_bitslice_batch_len(b);
    let n = sub_bytes_nots_spec(s);
    lemma_round_lengths(0, n);
    let y = shift_rows_state(3, inv_sub_bytes_spec(n));
    lemma_round_lengths(0, inv_sub_bytes_spec(n));
    let z = inv_mix_columns_0_spec(y);
    lemma_round_lengths(0, y);
    assert(z == inv_mix_spec(0, y));
    let e = inv_bitslice_spec(z)[k];
    lemma_inv_bitslice_len(z);
    assert forall|l: int| 0 <= l < 16 implies #[trigger] cell_of(z, pos(l, k)) == e[cell_byte(l)] by {
        lemma_inv_bitslice_cells(z, l, k);
    }
    lemma_mix_columns_0_block(z, e, k);
    lemma_mix_columns_0_inv_mix_columns_0(y);
    lemma_inv_bitslice_len(y);
    assert forall|j: int| 0 <= j < 16 implies #[trigger] inv_bitslice_spec(y)[k][j] == aes_inv_shift_rows(
        aes_inv_sub_bytes(b[k]),
    )[j] by {
        let l = 4 * (j % 4) + j / 4;
        assert(cell_byte(l) == j);
        lemma_inv_bitslice_cells(y, l, k);
        lemma_inv_sub_shift_cells(b, l, k);
    }
    assert(inv_bitslice_spec(y)[k] =~= aes_inv_shift_rows(aes_inv_sub_bytes(b[k])));
}

/// The eight copies of one block as a batch.
pub open spec fn same_batch(b: Seq<u8>) -> Seq<Seq<u8>> {
    seq![b, b, b, b, b, b, b, b]
}

/// The bitsliced cipher round on one block is the AES round of the
/// standard before the round key: MixColumns(ShiftRows(SubBytes(b))).
pub proof fn lemma_cipher_round_block_aes(b: Seq<u8>)
    requires
        b.len() == 16,
    ensures
        cipher_round_block(b) == aes_mix_columns(aes_shift_rows(aes_sub_bytes(b))),
{
    assert(bitslice_batch(same_batch(b)) == bitslice_same(b));
    lemma_cipher_round_state_aes(same_batch(b), 0);
}

/// MixColumns of the bitsliced equivalent inverse cipher round on one
/// block is InvShiftRows(InvSubBytes(b)): the round computes
/// InvMixColumns(InvShiftRows(InvSubBytes(b))).
pub proof fn lemma_equiv_inv_cipher_round_block_aes(b: Seq<u8>)
    requires
        b.len() == 16,
    ensures
        aes_mix_columns(equiv_inv_cipher_round_block(b)) == aes_inv_shift_rows(aes_inv_sub_bytes(b)),
{
    assert(bitslice_batch(same_batch(b)) == bitslice_same(b));
    lemma_equiv_inv_cipher_round_state_aes(same_batch(b), 0);
}

/// The bitsliced MixColumns on one block is MixColumns of the standard.
pub proof fn lemma_mix_columns_block_aes(b: Seq<u8>)
    requires
        b.len() == 16,
    ensures
        mix_columns_block(b) == aes_mix_columns(b),
{
    let bb = same_batch(b);
    assert(bitslice_batch(bb) == bitslice_same(b));
    let s = bitslice_same(b);
    lemma_bitslice_batch_len(bb);
    assert forall|l: int| 0 <= l < 16 implies #[trigger] cell_of(s, pos(l, 0)) == b[cell_byte(l)] by {
        lemma_bitslice_cells(bb, l, 0);
    }
    lemma_mix_columns_0_block(s, b, 0);
}

/// XORing the same bytes twice gives the first operand back, read as an
/// AddRoundKey.
proof fn lemma_xor_bytes_twice(a: Seq<u8>, k: Seq<u8>)
    requires
        a.len() == 16,
    ensures
        aes_add_round_key(xor_bytes(a, k), k) == a,
{
    assert forall|j: int| 0 <= j < 16 implies #[trigger] aes_add_round_key(xor_bytes(a, k), k)[j] == a[j] by {
        let x = a[j];
        let y = k[j];
        assert((x ^ y) ^ y == x) by (bit_vector);
    }
    assert(aes_add_round_key(xor_bytes(a, k), k) =~= a);
}

/// A block read out of a state has sixteen bytes.
proof fn lemma_equiv_inv_cipher_round_block_len(b: Seq<u8>)
    ensures
        equiv_inv_cipher_round_block(b).len() == 16,
{
    lemma_inv_bitslice_len(equiv_inv_cipher_round_state(bitslice_same(b)));
}

/// InvMixColumns on one block gives sixteen bytes.
proof fn lemma_inv_mix_columns_block_len(b: Seq<u8>)
    ensures
        inv_mix_columns_block(b).len() == 16,
{
    lemma_inv_bitslice_len(inv_mix_columns_0_spec(bitslice_same(b)));
}

} // verus!

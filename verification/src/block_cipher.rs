//! Fully-fixsliced AES-128, AES-192 and AES-256 encryption and decryption
//! of eight blocks at a time, and the round key addition they share.
//!
//! Encryption omits ShiftRows: the rows of the state drift by one position
//! every round and MixColumns follows them (`mix_columns_k` for round
//! `k mod 4`); the round keys are stored pre-shifted to match, and a final
//! ShiftRows twice realigns the state when the number of rounds is 2 mod 4.
//! Decryption runs the same steps backwards with the inverse operations.

use vstd::prelude::*;
use crate::lane::{Lane, State};
use crate::sbox::{
    sub_bytes, inv_sub_bytes, sub_bytes_spec, inv_sub_bytes_spec, lemma_inv_sub_bytes_sub_bytes,
    lemma_sub_bytes_inv_sub_bytes,
};
use crate::mixing::{
    mix_columns_0, mix_columns_1, mix_columns_2, mix_columns_3, inv_mix_columns_0, inv_mix_columns_1,
    inv_mix_columns_2, inv_mix_columns_3, mix_columns_0_spec, mix_columns_1_spec, mix_columns_2_spec,
    mix_columns_3_spec, inv_mix_columns_0_spec, inv_mix_columns_1_spec, inv_mix_columns_2_spec,
    inv_mix_columns_3_spec, lemma_inv_mix_columns_0_mix_columns_0, lemma_inv_mix_columns_1_mix_columns_1,
    lemma_inv_mix_columns_2_mix_columns_2, lemma_inv_mix_columns_3_mix_columns_3,
    lemma_mix_columns_0_inv_mix_columns_0, lemma_mix_columns_1_inv_mix_columns_1,
    lemma_mix_columns_2_inv_mix_columns_2, lemma_mix_columns_3_inv_mix_columns_3,
};
use crate::shift_rows::{shift_rows_2, inv_shift_rows_2, shift_rows_state, lemma_shift_rows_inverses};
use crate::bitslice::{
    BatchBlocks, bitslice, inv_bitslice, bitslice_spec, inv_bitslice_spec, batch_view,
    lemma_inv_bitslice_bitslice, lemma_bitslice_inv_bitslice,
};
use crate::keys::{
    FixsliceKeys128, FixsliceKeys192, FixsliceKeys256, window, aes128_key_schedule_spec, aes192_key_schedule_spec,
    aes256_key_schedule_spec,
};
use crate::standard::{aes_encrypt_block, aes128_round_keys, aes192_round_keys, aes256_round_keys};
use crate::expansion192::lemma_aes192_fips;
use crate::expansion::{lemma_aes128_fips, lemma_aes256_fips};

verus! {

/// The state XORed plane by plane with the round key `k`.
pub open spec fn ark_spec(s: Seq<Lane>, k: Seq<Lane>) -> Seq<Lane> {
    Seq::new(8, |i: int| Lane(s[i].0 ^ k[i].0))
}

/// MixColumns for a state whose rows have drifted by `k` positions.
pub open spec fn mix_spec(k: int, s: Seq<Lane>) -> Seq<Lane> {
    if k == 0 {
        mix_columns_0_spec(s)
    } else if k == 1 {
        mix_columns_1_spec(s)
    } else if k == 2 {
        mix_columns_2_spec(s)
    } else {
        mix_columns_3_spec(s)
    }
}

/// InvMixColumns for a state whose rows have drifted by `k` positions.
pub open spec fn inv_mix_spec(k: int, s: Seq<Lane>) -> Seq<Lane> {
    if k == 0 {
        inv_mix_columns_0_spec(s)
    } else if k == 1 {
        inv_mix_columns_1_spec(s)
    } else if k == 2 {
        inv_mix_columns_2_spec(s)
    } else {
        inv_mix_columns_3_spec(s)
    }
}

/// The state after the initial round key and the first `n` full rounds of
/// fixsliced encryption with round keys `rk` (round key `r` at lane `8 r`).
pub open spec fn enc_rounds(s: Seq<Lane>, rk: Seq<Lane>, n: nat) -> Seq<Lane>
    decreases n,
{
    if n == 0 {
        ark_spec(s, window(rk, 0))
    } else {
        ark_spec(mix_spec((n % 4) as int, sub_bytes_spec(enc_rounds(s, rk, (n - 1) as nat))), window(rk, (8 * n) as int))
    }
}

/// Fixsliced decryption from full round `n` down: full rounds `n..=1`
/// undone in turn, then the initial round key.
pub open spec fn dec_rounds(s: Seq<Lane>, rk: Seq<Lane>, n: nat) -> Seq<Lane>
    decreases n,
{
    if n == 0 {
        ark_spec(s, window(rk, 0))
    } else {
        dec_rounds(inv_sub_bytes_spec(inv_mix_spec((n % 4) as int, ark_spec(s, window(rk, (8 * n) as int)))), rk, (n - 1) as nat)
    }
}

/// ShiftRows twice when the number of rounds is 2 mod 4 (AES-128 and
/// AES-256), which brings the drifted rows back into place; nothing for
/// AES-192.
pub open spec fn realign_state(nr: nat, s: Seq<Lane>) -> Seq<Lane> {
    if nr % 4 == 2 {
        shift_rows_state(2, s)
    } else {
        s
    }
}

/// Fixsliced encryption of a bitsliced state with `nr` rounds.
pub open spec fn encrypt_state(s: Seq<Lane>, rk: Seq<Lane>, nr: nat) -> Seq<Lane> {
    ark_spec(sub_bytes_spec(realign_state(nr, enc_rounds(s, rk, (nr - 1) as nat))), window(rk, (8 * nr) as int))
}

/// The first steps of fixsliced decryption: the last round key, the inverse
/// S-box and the realignment.
pub open spec fn dec_start(s: Seq<Lane>, rk: Seq<Lane>, nr: nat) -> Seq<Lane> {
    realign_state(nr, inv_sub_bytes_spec(ark_spec(s, window(rk, (8 * nr) as int))))
}

/// Fixsliced decryption of a bitsliced state with `nr` rounds.
pub open spec fn decrypt_state(s: Seq<Lane>, rk: Seq<Lane>, nr: nat) -> Seq<Lane> {
    dec_rounds(dec_start(s, rk, nr), rk, (nr - 1) as nat)
}

/// The bitsliced state of a batch of eight blocks.
pub open spec fn bitslice_batch(b: Seq<Seq<u8>>) -> Seq<Lane> {
    bitslice_spec(b[0], b[1], b[2], b[3], b[4], b[5], b[6], b[7])
}

/// AES-128 encryption of eight blocks with fixsliced round keys `rk`.
pub open spec fn aes128_encrypt_spec(rk: Seq<Lane>, blocks: Seq<Seq<u8>>) -> Seq<Seq<u8>> {
    inv_bitslice_spec(encrypt_state(bitslice_batch(blocks), rk, 10))
}

/// AES-128 decryption of eight blocks with fixsliced round keys `rk`.
pub open spec fn aes128_decrypt_spec(rk: Seq<Lane>, blocks: Seq<Seq<u8>>) -> Seq<Seq<u8>> {
    inv_bitslice_spec(decrypt_state(bitslice_batch(blocks), rk, 10))
}

/// AES-192 encryption of eight blocks with fixsliced round keys `rk`.
pub open spec fn aes192_encrypt_spec(rk: Seq<Lane>, blocks: Seq<Seq<u8>>) -> Seq<Seq<u8>> {
    inv_bitslice_spec(encrypt_state(bitslice_batch(blocks), rk, 12))
}

/// AES-192 decryption of eight blocks with fixsliced round keys `rk`.
pub open spec fn aes192_decrypt_spec(rk: Seq<Lane>, blocks: Seq<Seq<u8>>) -> Seq<Seq<u8>> {
    inv_bitslice_spec(decrypt_state(bitslice_batch(blocks), rk, 12))
}

/// AES-256 encryption of eight blocks with fixsliced round keys `rk`.
pub open spec fn aes256_encrypt_spec(rk: Seq<Lane>, blocks: Seq<Seq<u8>>) -> Seq<Seq<u8>> {
    inv_bitslice_spec(encrypt_state(bitslice_batch(blocks), rk, 14))
}

/// AES-256 decryption of eight blocks with fixsliced round keys `rk`.
pub open spec fn aes256_decrypt_spec(rk: Seq<Lane>, blocks: Seq<Seq<u8>>) -> Seq<Seq<u8>> {
    inv_bitslice_spec(decrypt_state(bitslice_batch(blocks), rk, 14))
}

/// XORs the round key into the internal state. Round keys are expected to
/// be pre-computed and packed in the fixsliced representation.
pub fn add_round_key(state: &mut State, rkey: &[Lane])
    requires
        rkey@.len() == 8,
    ensures
        final(state)@ == ark_spec(old(state)@, rkey@),
{
    for i in 0..8
        invariant
            rkey@.len() == 8,
            forall|j: int| 0 <= j < i ==> #[trigger] state@[j] == ark_spec(old(state)@, rkey@)[j],
            forall|j: int| i <= j < 8 ==> #[trigger] state@[j] == old(state)@[j],
    {
        state[i] = Lane(state[i].0 ^ rkey[i].0);
    }
    assert(state@ =~= ark_spec(old(state)@, rkey@));
}

/// Fully-fixsliced AES-128 decryption (the InvShiftRows is completely
/// omitted).
///
/// Decrypts eight blocks in parallel.
pub fn aes128_decrypt(rkeys: &FixsliceKeys128, blocks: &BatchBlocks) -> (r: BatchBlocks)
    ensures
        batch_view(r) == aes128_decrypt_spec(rkeys@, batch_view(*blocks)),
        forall|key: Seq<u8>, k: int|
            0 <= k < 8 && key.len() == 16 && rkeys@ == aes128_key_schedule_spec(key) ==> #[trigger] aes_encrypt_block(
                aes128_round_keys(key),
                10,
                r[k]@,
            ) == blocks[k]@,
{
    let mut state: State = [Lane::default(); 8];
    bitslice(&mut state, &blocks[0], &blocks[1], &blocks[2], &blocks[3], &blocks[4], &blocks[5], &blocks[6], &blocks[7]);
    let ghost s0 = state@;
    let ghost rk = rkeys@;
    assert(s0 == bitslice_batch(batch_view(*blocks)));
    add_round_key(&mut state, &rkeys[80..88]);
    inv_sub_bytes(&mut state);
    inv_shift_rows_2(&mut state);
    let ghost t0 = state@;
    assert(t0 == dec_start(s0, rk, 10));
    let mut rk_off: usize = 72;
    let ghost mut m: int = 9;
    loop
        invariant_except_break
            rk_off == 8 * m,
            1 <= m <= 9,
            m % 4 == 1,
            dec_rounds(state@, rk, m as nat) == dec_rounds(t0, rk, 9),
        invariant
            rk == rkeys@,
            state@.len() == 8,
        ensures
            rk_off == 0,
            dec_rounds(state@, rk, 0) == dec_rounds(t0, rk, 9),
        decreases rk_off,
    {
        let ghost before = state@;
        add_round_key(&mut state, &rkeys[rk_off..(rk_off + 8)]);
        inv_mix_columns_1(&mut state);
        inv_sub_bytes(&mut state);
        assert(dec_rounds(state@, rk, (m - 1) as nat) == dec_rounds(before, rk, m as nat));
        rk_off -= 8;
        proof {
            m = m - 1;
        }
        if rk_off == 0 {
            break;
        }
        let ghost before = state@;
        add_round_key(&mut state, &rkeys[rk_off..(rk_off + 8)]);
        inv_mix_columns_0(&mut state);
        inv_sub_bytes(&mut state);
        assert(dec_rounds(state@, rk, (m - 1) as nat) == dec_rounds(before, rk, m as nat));
        rk_off -= 8;
        proof {
            m = m - 1;
        }
        let ghost before = state@;
        add_round_key(&mut state, &rkeys[rk_off..(rk_off + 8)]);
        inv_mix_columns_3(&mut state);
        inv_sub_bytes(&mut state);
        assert(dec_rounds(state@, rk, (m - 1) as nat) == dec_rounds(before, rk, m as nat));
        rk_off -= 8;
        proof {
            m = m - 1;
        }
        let ghost before = state@;
        add_round_key(&mut state, &rkeys[rk_off..(rk_off + 8)]);
        inv_mix_columns_2(&mut state);
        inv_sub_bytes(&mut state);
        assert(dec_rounds(state@, rk, (m - 1) as nat) == dec_rounds(before, rk, m as nat));
        rk_off -= 8;
        proof {
            m = m - 1;
        }
    }
    add_round_key(&mut state, &rkeys[0..8]);
    let r = inv_bitslice(&state);
    proof {
        lemma_aes128_decrypt_fips(rkeys, blocks, &r);
    }
    r
}

/// Fully-fixsliced AES-128 encryption (the ShiftRows is completely omitted).
///
/// Encrypts eight blocks in parallel.
pub fn aes128_encrypt(rkeys: &FixsliceKeys128, blocks: &BatchBlocks) -> (r: BatchBlocks)
    ensures
        batch_view(r) == aes128_encrypt_spec(rkeys@, batch_view(*blocks)),
        forall|key: Seq<u8>, k: int|
            0 <= k < 8 && key.len() == 16 && rkeys@ == aes128_key_schedule_spec(key) ==> #[trigger] aes_encrypt_block(
                aes128_round_keys(key),
                10,
                blocks[k]@,
            ) == r[k]@,
{
    let mut state: State = [Lane::default(); 8];
    bitslice(&mut state, &blocks[0], &blocks[1], &blocks[2], &blocks[3], &blocks[4], &blocks[5], &blocks[6], &blocks[7]);
    let ghost s0 = state@;
    let ghost rk = rkeys@;
    assert(s0 == bitslice_batch(batch_view(*blocks)));
    add_round_key(&mut state, &rkeys[0..8]);
    let mut rk_off: usize = 8;
    let ghost mut m: int = 1;
    loop
        invariant_except_break
            rk_off == 8 * m,
            1 <= m < 10,
            m % 4 == 1,
            state@ == enc_rounds(s0, rk, (m - 1) as nat),
        invariant
            rk == rkeys@,
            s0.len() == 8,
        ensures
            state@ == enc_rounds(s0, rk, 9),
        decreases 80 - rk_off,
    {
        sub_bytes(&mut state);
        mix_columns_1(&mut state);
        add_round_key(&mut state, &rkeys[rk_off..(rk_off + 8)]);
        assert(state@ == enc_rounds(s0, rk, m as nat));
        rk_off += 8;
        proof {
            m = m + 1;
        }
        if rk_off == 80 {
            break;
        }
        sub_bytes(&mut state);
        mix_columns_2(&mut state);
        add_round_key(&mut state, &rkeys[rk_off..(rk_off + 8)]);
        assert(state@ == enc_rounds(s0, rk, m as nat));
        rk_off += 8;
        proof {
            m = m + 1;
        }
        sub_bytes(&mut state);
        mix_columns_3(&mut state);
        add_round_key(&mut state, &rkeys[rk_off..(rk_off + 8)]);
        assert(state@ == enc_rounds(s0, rk, m as nat));
        rk_off += 8;
        proof {
            m = m + 1;
        }
        sub_bytes(&mut state);
        mix_columns_0(&mut state);
        add_round_key(&mut state, &rkeys[rk_off..(rk_off + 8)]);
        assert(state@ == enc_rounds(s0, rk, m as nat));
        rk_off += 8;
        proof {
            m = m + 1;
        }
    }
    shift_rows_2(&mut state);
    sub_bytes(&mut state);
    add_round_key(&mut state, &rkeys[80..88]);
    let r = inv_bitslice(&state);
    proof {
        lemma_aes128_encrypt_fips(rkeys, blocks, &r);
    }
    r
}

/// Fully-fixsliced AES-192 decryption (the InvShiftRows is completely
/// omitted).
///
/// Decrypts eight blocks in parallel.
pub fn aes192_decrypt(rkeys: &FixsliceKeys192, blocks: &BatchBlocks) -> (r: BatchBlocks)
    ensures
        batch_view(r) == aes192_decrypt_spec(rkeys@, batch_view(*blocks)),
        forall|key: Seq<u8>, k: int|
            0 <= k < 8 && key.len() == 24 && rkeys@ == aes192_key_schedule_spec(key) ==> #[trigger] aes_encrypt_block(
                aes192_round_keys(key),
                12,
                r[k]@,
            ) == blocks[k]@,
{
    let mut state: State = [Lane::default(); 8];
    bitslice(&mut state, &blocks[0], &blocks[1], &blocks[2], &blocks[3], &blocks[4], &blocks[5], &blocks[6], &blocks[7]);
    let ghost s0 = state@;
    let ghost rk = rkeys@;
    assert(s0 == bitslice_batch(batch_view(*blocks)));
    add_round_key(&mut state, &rkeys[96..104]);
    inv_sub_bytes(&mut state);
    let ghost t0 = state@;
    assert(t0 == dec_start(s0, rk, 12));
    let mut rk_off: usize = 88;
    let ghost mut m: int = 11;
    loop
        invariant_except_break
            rk_off == 8 * m,
            1 <= m <= 11,
            m % 4 == 3,
            dec_rounds(state@, rk, m as nat) == dec_rounds(t0, rk, 11),
        invariant
            rk == rkeys@,
            state@.len() == 8,
        ensures
            rk_off == 0,
            dec_rounds(state@, rk, 0) == dec_rounds(t0, rk, 11),
        decreases rk_off,
    {
        let ghost before = state@;
        add_round_key(&mut state, &rkeys[rk_off..(rk_off + 8)]);
        inv_mix_columns_3(&mut state);
        inv_sub_bytes(&mut state);
        assert(dec_rounds(state@, rk, (m - 1) as nat) == dec_rounds(before, rk, m as nat));
        rk_off -= 8;
        proof {
            m = m - 1;
        }
        let ghost before = state@;
        add_round_key(&mut state, &rkeys[rk_off..(rk_off + 8)]);
        inv_mix_columns_2(&mut state);
        inv_sub_bytes(&mut state);
        assert(dec_rounds(state@, rk, (m - 1) as nat) == dec_rounds(before, rk, m as nat));
        rk_off -= 8;
        proof {
            m = m - 1;
        }
        let ghost before = state@;
        add_round_key(&mut state, &rkeys[rk_off..(rk_off + 8)]);
        inv_mix_columns_1(&mut state);
        inv_sub_bytes(&mut state);
        assert(dec_rounds(state@, rk, (m - 1) as nat) == dec_rounds(before, rk, m as nat));
        rk_off -= 8;
        proof {
            m = m - 1;
        }
        if rk_off == 0 {
            break;
        }
        let ghost before = state@;
        add_round_key(&mut state, &rkeys[rk_off..(rk_off + 8)]);
        inv_mix_columns_0(&mut state);
        inv_sub_bytes(&mut state);
        assert(dec_rounds(state@, rk, (m - 1) as nat) == dec_rounds(before, rk, m as nat));
        rk_off -= 8;
        proof {
            m = m - 1;
        }
    }
    add_round_key(&mut state, &rkeys[0..8]);
    let r = inv_bitslice(&state);
    proof {
        lemma_aes192_decrypt_fips(rkeys, blocks, &r);
    }
    r
}

/// Fully-fixsliced AES-192 encryption (the ShiftRows is completely omitted).
///
/// Encrypts eight blocks in parallel.
pub fn aes192_encrypt(rkeys: &FixsliceKeys192, blocks: &BatchBlocks) -> (r: BatchBlocks)
    ensures
        batch_view(r) == aes192_encrypt_spec(rkeys@, batch_view(*blocks)),
        forall|key: Seq<u8>, k: int|
            0 <= k < 8 && key.len() == 24 && rkeys@ == aes192_key_schedule_spec(key) ==> #[trigger] aes_encrypt_block(
                aes192_round_keys(key),
                12,
                blocks[k]@,
            ) == r[k]@,
{
    let mut state: State = [Lane::default(); 8];
    bitslice(&mut state, &blocks[0], &blocks[1], &blocks[2], &blocks[3], &blocks[4], &blocks[5], &blocks[6], &blocks[7]);
    let ghost s0 = state@;
    let ghost rk = rkeys@;
    assert(s0 == bitslice_batch(batch_view(*blocks)));
    add_round_key(&mut state, &rkeys[0..8]);
    let mut rk_off: usize = 8;
    let ghost mut m: int = 1;
    loop
        invariant_except_break
            rk_off == 8 * m,
            1 <= m < 12,
            m % 4 == 1,
            state@ == enc_rounds(s0, rk, (m - 1) as nat),
        invariant
            rk == rkeys@,
            s0.len() == 8,
        ensures
            state@ == enc_rounds(s0, rk, 11),
        decreases 96 - rk_off,
    {
        sub_bytes(&mut state);
        mix_columns_1(&mut state);
        add_round_key(&mut state, &rkeys[rk_off..(rk_off + 8)]);
        assert(state@ == enc_rounds(s0, rk, m as nat));
        rk_off += 8;
        proof {
            m = m + 1;
        }
        sub_bytes(&mut state);
        mix_columns_2(&mut state);
        add_round_key(&mut state, &rkeys[rk_off..(rk_off + 8)]);
        assert(state@ == enc_rounds(s0, rk, m as nat));
        rk_off += 8;
        proof {
            m = m + 1;
        }
        sub_bytes(&mut state);
        mix_columns_3(&mut state);
        add_round_key(&mut state, &rkeys[rk_off..(rk_off + 8)]);
        assert(state@ == enc_rounds(s0, rk, m as nat));
        rk_off += 8;
        proof {
            m = m + 1;
        }
        if rk_off == 96 {
            break;
        }
        sub_bytes(&mut state);
        mix_columns_0(&mut state);
        add_round_key(&mut state, &rkeys[rk_off..(rk_off + 8)]);
        assert(state@ == enc_rounds(s0, rk, m as nat));
        rk_off += 8;
        proof {
            m = m + 1;
        }
    }
    sub_bytes(&mut state);
    add_round_key(&mut state, &rkeys[96..104]);
    let r = inv_bitslice(&state);
    proof {
        lemma_aes192_encrypt_fips(rkeys, blocks, &r);
    }
    r
}

/// Fully-fixsliced AES-256 decryption (the InvShiftRows is completely
/// omitted).
///
/// Decrypts eight blocks in parallel.
pub fn aes256_decrypt(rkeys: &FixsliceKeys256, blocks: &BatchBlocks) -> (r: BatchBlocks)
    ensures
        batch_view(r) == aes256_decrypt_spec(rkeys@, batch_view(*blocks)),
        forall|key: Seq<u8>, k: int|
            0 <= k < 8 && key.len() == 32 && rkeys@ == aes256_key_schedule_spec(key) ==> #[trigger] aes_encrypt_block(
                aes256_round_keys(key),
                14,
                r[k]@,
            ) == blocks[k]@,
{
    let mut state: State = [Lane::default(); 8];
    bitslice(&mut state, &blocks[0], &blocks[1], &blocks[2], &blocks[3], &blocks[4], &blocks[5], &blocks[6], &blocks[7]);
    let ghost s0 = state@;
    let ghost rk = rkeys@;
    assert(s0 == bitslice_batch(batch_view(*blocks)));
    add_round_key(&mut state, &rkeys[112..120]);
    inv_sub_bytes(&mut state);
    inv_shift_rows_2(&mut state);
    let ghost t0 = state@;
    assert(t0 == dec_start(s0, rk, 14));
    let mut rk_off: usize = 104;
    let ghost mut m: int = 13;
    loop
        invariant_except_break
            rk_off == 8 * m,
            1 <= m <= 13,
            m % 4 == 1,
            dec_rounds(state@, rk, m as nat) == dec_rounds(t0, rk, 13),
        invariant
            rk == rkeys@,
            state@.len() == 8,
        ensures
            rk_off == 0,
            dec_rounds(state@, rk, 0) == dec_rounds(t0, rk, 13),
        decreases rk_off,
    {
        let ghost before = state@;
        add_round_key(&mut state, &rkeys[rk_off..(rk_off + 8)]);
        inv_mix_columns_1(&mut state);
        inv_sub_bytes(&mut state);
        assert(dec_rounds(state@, rk, (m - 1) as nat) == dec_rounds(before, rk, m as nat));
        rk_off -= 8;
        proof {
            m = m - 1;
        }
        if rk_off == 0 {
            break;
        }
        let ghost before = state@;
        add_round_key(&mut state, &rkeys[rk_off..(rk_off + 8)]);
        inv_mix_columns_0(&mut state);
        inv_sub_bytes(&mut state);
        assert(dec_rounds(state@, rk, (m - 1) as nat) == dec_rounds(before, rk, m as nat));
        rk_off -= 8;
        proof {
            m = m - 1;
        }
        let ghost before = state@;
        add_round_key(&mut state, &rkeys[rk_off..(rk_off + 8)]);
        inv_mix_columns_3(&mut state);
        inv_sub_bytes(&mut state);
        assert(dec_rounds(state@, rk, (m - 1) as nat) == dec_rounds(before, rk, m as nat));
        rk_off -= 8;
        proof {
            m = m - 1;
        }
        let ghost before = state@;
        add_round_key(&mut state, &rkeys[rk_off..(rk_off + 8)]);
        inv_mix_columns_2(&mut state);
        inv_sub_bytes(&mut state);
        assert(dec_rounds(state@, rk, (m - 1) as nat) == dec_rounds(before, rk, m as nat));
        rk_off -= 8;
        proof {
            m = m - 1;
        }
    }
    add_round_key(&mut state, &rkeys[0..8]);
    let r = inv_bitslice(&state);
    proof {
        lemma_aes256_decrypt_fips(rkeys, blocks, &r);
    }
    r
}

/// Fully-fixsliced AES-256 encryption (the ShiftRows is completely omitted).
///
/// Encrypts eight blocks in parallel.
pub fn aes256_encrypt(rkeys: &FixsliceKeys256, blocks: &BatchBlocks) -> (r: BatchBlocks)
    ensures
        batch_view(r) == aes256_encrypt_spec(rkeys@, batch_view(*blocks)),
        forall|key: Seq<u8>, k: int|
            0 <= k < 8 && key.len() == 32 && rkeys@ == aes256_key_schedule_spec(key) ==> #[trigger] aes_encrypt_block(
                aes256_round_keys(key),
                14,
                blocks[k]@,
            ) == r[k]@,
{
    let mut state: State = [Lane::default(); 8];
    bitslice(&mut state, &blocks[0], &blocks[1], &blocks[2], &blocks[3], &blocks[4], &blocks[5], &blocks[6], &blocks[7]);
    let ghost s0 = state@;
    let ghost rk = rkeys@;
    assert(s0 == bitslice_batch(batch_view(*blocks)));
    add_round_key(&mut state, &rkeys[0..8]);
    let mut rk_off: usize = 8;
    let ghost mut m: int = 1;
    loop
        invariant_except_break
            rk_off == 8 * m,
            1 <= m < 14,
            m % 4 == 1,
            state@ == enc_rounds(s0, rk, (m - 1) as nat),
        invariant
            rk == rkeys@,
            s0.len() == 8,
        ensures
            state@ == enc_rounds(s0, rk, 13),
        decreases 112 - rk_off,
    {
        sub_bytes(&mut state);
        mix_columns_1(&mut state);
        add_round_key(&mut state, &rkeys[rk_off..(rk_off + 8)]);
        assert(state@ == enc_rounds(s0, rk, m as nat));
        rk_off += 8;
        proof {
            m = m + 1;
        }
        if rk_off == 112 {
            break;
        }
        sub_bytes(&mut state);
        mix_columns_2(&mut state);
        add_round_key(&mut state, &rkeys[rk_off..(rk_off + 8)]);
        assert(state@ == enc_rounds(s0, rk, m as nat));
        rk_off += 8;
        proof {
            m = m + 1;
        }
        sub_bytes(&mut state);
        mix_columns_3(&mut state);
        add_round_key(&mut state, &rkeys[rk_off..(rk_off + 8)]);
        assert(state@ == enc_rounds(s0, rk, m as nat));
        rk_off += 8;
        proof {
            m = m + 1;
        }
        sub_bytes(&mut state);
        mix_columns_0(&mut state);
        add_round_key(&mut state, &rkeys[rk_off..(rk_off + 8)]);
        assert(state@ == enc_rounds(s0, rk, m as nat));
        rk_off += 8;
        proof {
            m = m + 1;
        }
    }
    shift_rows_2(&mut state);
    sub_bytes(&mut state);
    add_round_key(&mut state, &rkeys[112..120]);
    let r = inv_bitslice(&state);
    proof {
        lemma_aes256_encrypt_fips(rkeys, blocks, &r);
    }
    r
}

/// XORing the same round key twice gives the state back.
pub proof fn lemma_ark_twice(s: Seq<Lane>, k: Seq<Lane>)
    requires
        s.len() == 8,
    ensures
        ark_spec(ark_spec(s, k), k) == s,
{
    assert forall|i: int| 0 <= i < 8 implies ark_spec(ark_spec(s, k), k)[i] == s[i] by {
        let a = s[i].0;
        let b = k[i].0;
        assert(a ^ b ^ b == a) by (bit_vector);
    }
    assert(ark_spec(ark_spec(s, k), k) =~= s);
}

/// `inv_mix_spec(k, _)` undoes `mix_spec(k, _)` and the other way round.
pub proof fn lemma_mix_inverses(k: int, s: Seq<Lane>)
    requires
        0 <= k < 4,
        s.len() == 8,
    ensures
        inv_mix_spec(k, mix_spec(k, s)) == s,
        mix_spec(k, inv_mix_spec(k, s)) == s,
{
    if k == 0 {
        lemma_inv_mix_columns_0_mix_columns_0(s);
        lemma_mix_columns_0_inv_mix_columns_0(s);
    } else if k == 1 {
        lemma_inv_mix_columns_1_mix_columns_1(s);
        lemma_mix_columns_1_inv_mix_columns_1(s);
    } else if k == 2 {
        lemma_inv_mix_columns_2_mix_columns_2(s);
        lemma_mix_columns_2_inv_mix_columns_2(s);
    } else {
        lemma_inv_mix_columns_3_mix_columns_3(s);
        lemma_mix_columns_3_inv_mix_columns_3(s);
    }
}

/// Every step of a round keeps a state of eight planes.
pub proof fn lemma_round_lengths(k: int, s: Seq<Lane>)
    ensures
        sub_bytes_spec(s).len() == 8,
        inv_sub_bytes_spec(s).len() == 8,
        mix_spec(k, s).len() == 8,
        inv_mix_spec(k, s).len() == 8,
        shift_rows_state(2, s).len() == s.len(),
        forall|n: int| #[trigger] shift_rows_state(n, s).len() == s.len(),
{
    reveal(sub_bytes_spec);
    reveal(inv_sub_bytes_spec);
    reveal(mix_columns_0_spec);
    reveal(mix_columns_1_spec);
    reveal(mix_columns_2_spec);
    reveal(mix_columns_3_spec);
    reveal(inv_mix_columns_0_spec);
    reveal(inv_mix_columns_1_spec);
    reveal(inv_mix_columns_2_spec);
    reveal(inv_mix_columns_3_spec);
    reveal(shift_rows_state);
}

/// Undoing the rounds `n..=1` and the initial round key after doing them
/// gives the state back.
pub proof fn lemma_dec_rounds_enc_rounds(s: Seq<Lane>, rk: Seq<Lane>, n: nat)
    requires
        s.len() == 8,
    ensures
        dec_rounds(enc_rounds(s, rk, n), rk, n) == s,
    decreases n,
{
    if n == 0 {
        lemma_ark_twice(s, window(rk, 0));
    } else {
        let k = (n % 4) as int;
        let w = window(rk, (8 * n) as int);
        let prev = enc_rounds(s, rk, (n - 1) as nat);
        lemma_dec_rounds_enc_rounds(s, rk, (n - 1) as nat);
        lemma_enc_rounds_len(s, rk, (n - 1) as nat);
        lemma_round_lengths(k, prev);
        lemma_round_lengths(k, sub_bytes_spec(prev));
        lemma_ark_twice(mix_spec(k, sub_bytes_spec(prev)), w);
        lemma_mix_inverses(k, sub_bytes_spec(prev));
        lemma_inv_sub_bytes_sub_bytes(prev);
    }
}

/// Doing the rounds `1..=n` after undoing them gives the state back.
pub proof fn lemma_enc_rounds_dec_rounds(t: Seq<Lane>, rk: Seq<Lane>, n: nat)
    requires
        t.len() == 8,
    ensures
        enc_rounds(dec_rounds(t, rk, n), rk, n) == t,
    decreases n,
{
    if n == 0 {
        lemma_ark_twice(t, window(rk, 0));
    } else {
        let k = (n % 4) as int;
        let w = window(rk, (8 * n) as int);
        let a = ark_spec(t, w);
        let t1 = inv_sub_bytes_spec(inv_mix_spec(k, a));
        lemma_round_lengths(k, a);
        lemma_round_lengths(k, inv_mix_spec(k, a));
        lemma_enc_rounds_dec_rounds(t1, rk, (n - 1) as nat);
        lemma_sub_bytes_inv_sub_bytes(inv_mix_spec(k, a));
        lemma_mix_inverses(k, a);
        lemma_ark_twice(t, w);
    }
}

/// The rounds keep a state of eight planes.
pub proof fn lemma_enc_rounds_len(s: Seq<Lane>, rk: Seq<Lane>, n: nat)
    ensures
        enc_rounds(s, rk, n).len() == 8,
    decreases n,
{
    if n > 0 {
        lemma_enc_rounds_len(s, rk, (n - 1) as nat);
    }
}

/// The realignment of the rows undoes itself.
pub proof fn lemma_realign_state_twice(nr: nat, s: Seq<Lane>)
    ensures
        realign_state(nr, realign_state(nr, s)) == s,
{
    if nr % 4 == 2 {
        reveal(shift_rows_state);
        assert forall|i: int| 0 <= i < s.len() implies realign_state(nr, realign_state(nr, s))[i] == s[i] by {
            lemma_shift_rows_inverses(s[i].0);
        }
        assert(realign_state(nr, realign_state(nr, s)) =~= s);
    }
}

/// Fixsliced decryption undoes fixsliced encryption under the same round
/// keys, whatever they are.
pub proof fn lemma_decrypt_state_encrypt_state(s: Seq<Lane>, rk: Seq<Lane>, nr: nat)
    requires
        s.len() == 8,
        nr >= 1,
    ensures
        decrypt_state(encrypt_state(s, rk, nr), rk, nr) == s,
{
    let e = enc_rounds(s, rk, (nr - 1) as nat);
    let w = window(rk, (8 * nr) as int);
    lemma_enc_rounds_len(s, rk, (nr - 1) as nat);
    lemma_round_lengths(0, realign_state(nr, e));
    lemma_round_lengths(0, e);
    lemma_ark_twice(sub_bytes_spec(realign_state(nr, e)), w);
    lemma_inv_sub_bytes_sub_bytes(realign_state(nr, e));
    lemma_realign_state_twice(nr, e);
    lemma_dec_rounds_enc_rounds(s, rk, (nr - 1) as nat);
}

/// Fixsliced encryption undoes fixsliced decryption under the same round
/// keys, whatever they are.
pub proof fn lemma_encrypt_state_decrypt_state(t: Seq<Lane>, rk: Seq<Lane>, nr: nat)
    requires
        t.len() == 8,
        nr >= 1,
    ensures
        encrypt_state(decrypt_state(t, rk, nr), rk, nr) == t,
{
    let w = window(rk, (8 * nr) as int);
    let a = ark_spec(t, w);
    let d = dec_start(t, rk, nr);
    lemma_round_lengths(0, a);
    lemma_round_lengths(0, inv_sub_bytes_spec(a));
    lemma_enc_rounds_dec_rounds(d, rk, (nr - 1) as nat);
    lemma_realign_state_twice(nr, inv_sub_bytes_spec(a));
    lemma_sub_bytes_inv_sub_bytes(a);
    lemma_ark_twice(t, w);
}

/// Eight blocks of sixteen bytes.
pub open spec fn is_batch(b: Seq<Seq<u8>>) -> bool {
    b.len() == 8 && forall|k: int| 0 <= k < 8 ==> #[trigger] b[k].len() == 16
}

/// The state of a bitsliced batch has eight planes.
pub proof fn lemma_bitslice_batch_len(b: Seq<Seq<u8>>)
    ensures
        bitslice_batch(b).len() == 8,
{
    reveal(bitslice_spec);
    reveal(crate::bitslice::transpose_8x8_spec);
}

/// Decrypting what was encrypted with `nr` rounds gives the batch back,
/// for every batch and every sequence of round keys.
proof fn lemma_batch_roundtrip(rk: Seq<Lane>, blocks: Seq<Seq<u8>>, nr: nat)
    requires
        is_batch(blocks),
        nr >= 1,
    ensures
        inv_bitslice_spec(decrypt_state(bitslice_batch(inv_bitslice_spec(encrypt_state(bitslice_batch(blocks), rk, nr))), rk, nr)) == blocks,
        inv_bitslice_spec(encrypt_state(bitslice_batch(inv_bitslice_spec(decrypt_state(bitslice_batch(blocks), rk, nr))), rk, nr)) == blocks,
{
    let s = bitslice_batch(blocks);
    lemma_bitslice_batch_len(blocks);
    let e = encrypt_state(s, rk, nr);
    let d = decrypt_state(s, rk, nr);
    lemma_enc_len(s, rk, nr);
    lemma_bitslice_inv_bitslice(e);
    lemma_bitslice_inv_bitslice(d);
    lemma_decrypt_state_encrypt_state(s, rk, nr);
    lemma_encrypt_state_decrypt_state(s, rk, nr);
    assert(blocks[0].len() == 16 && blocks[1].len() == 16 && blocks[2].len() == 16 && blocks[3].len() == 16);
    assert(blocks[4].len() == 16 && blocks[5].len() == 16 && blocks[6].len() == 16 && blocks[7].len() == 16);
    lemma_inv_bitslice_bitslice(blocks[0], blocks[1], blocks[2], blocks[3], blocks[4], blocks[5], blocks[6], blocks[7]);
    assert(seq![blocks[0], blocks[1], blocks[2], blocks[3], blocks[4], blocks[5], blocks[6], blocks[7]] =~= blocks);
}

/// Encryption and decryption keep a state of eight planes.
proof fn lemma_enc_len(s: Seq<Lane>, rk: Seq<Lane>, nr: nat)
    ensures
        encrypt_state(s, rk, nr).len() == 8,
        decrypt_state(s, rk, nr).len() == 8,
{
    lemma_dec_rounds_len(dec_start(s, rk, nr), rk, (nr - 1) as nat);
}

/// Decryption keeps a state of eight planes.
proof fn lemma_dec_rounds_len(s: Seq<Lane>, rk: Seq<Lane>, n: nat)
    ensures
        dec_rounds(s, rk, n).len() == 8,
    decreases n,
{
    if n > 0 {
        lemma_dec_rounds_len(inv_sub_bytes_spec(inv_mix_spec((n % 4) as int, ark_spec(s, window(rk, (8 * n) as int)))), rk, (n - 1) as nat);
    }
}

/// AES-128 decryption undoes AES-128 encryption under the same round keys,
/// and the other way round, for every batch of eight blocks.
pub proof fn lemma_aes128_roundtrip(rk: Seq<Lane>, blocks: Seq<Seq<u8>>)
    requires
        is_batch(blocks),
    ensures
        aes128_decrypt_spec(rk, aes128_encrypt_spec(rk, blocks)) == blocks,
        aes128_encrypt_spec(rk, aes128_decrypt_spec(rk, blocks)) == blocks,
{
    lemma_batch_roundtrip(rk, blocks, 10);
}

/// AES-192 decryption undoes AES-192 encryption under the same round keys,
/// and the other way round, for every batch of eight blocks.
pub proof fn lemma_aes192_roundtrip(rk: Seq<Lane>, blocks: Seq<Seq<u8>>)
    requires
        is_batch(blocks),
    ensures
        aes192_decrypt_spec(rk, aes192_encrypt_spec(rk, blocks)) == blocks,
        aes192_encrypt_spec(rk, aes192_decrypt_spec(rk, blocks)) == blocks,
{
    lemma_batch_roundtrip(rk, blocks, 12);
}

/// AES-256 decryption undoes AES-256 encryption under the same round keys,
/// and the other way round, for every batch of eight blocks.
pub proof fn lemma_aes256_roundtrip(rk: Seq<Lane>, blocks: Seq<Seq<u8>>)
    requires
        is_batch(blocks),
    ensures
        aes256_decrypt_spec(rk, aes256_encrypt_spec(rk, blocks)) == blocks,
        aes256_encrypt_spec(rk, aes256_decrypt_spec(rk, blocks)) == blocks,
{
    lemma_batch_roundtrip(rk, blocks, 14);
}

/// With round keys from the key schedule of `key`, the fixsliced AES-128
/// encryption gives, block by block, the AES-128 cipher of the standard under `key`.
proof fn lemma_aes128_encrypt_fips(rkeys: &FixsliceKeys128, blocks: &BatchBlocks, r: &BatchBlocks)
    requires
        batch_view(*r) == aes128_encrypt_spec(rkeys@, batch_view(*blocks)),
    ensures
        forall|key: Seq<u8>, k: int|
            0 <= k < 8 && key.len() == 16 && rkeys@ == aes128_key_schedule_spec(key) ==> #[trigger] aes_encrypt_block(aes128_round_keys(key), 10, blocks[k]@) == r[k]@,
{
    assert forall|key: Seq<u8>, k: int|
        0 <= k < 8 && key.len() == 16 && rkeys@ == aes128_key_schedule_spec(key) implies #[trigger] aes_encrypt_block(aes128_round_keys(key), 10, blocks[k]@) == r[k]@ by {
        lemma_aes128_fips(key, batch_view(*blocks));
        assert(batch_view(*r)[k] == r[k]@);
        assert(batch_view(*blocks)[k] == blocks[k]@);
    }
}

/// With round keys from the key schedule of `key`, the fixsliced AES-128
/// decryption gives, block by block, what the AES-128 cipher of the standard under `key` maps to the input.
proof fn lemma_aes128_decrypt_fips(rkeys: &FixsliceKeys128, blocks: &BatchBlocks, r: &BatchBlocks)
    requires
        batch_view(*r) == aes128_decrypt_spec(rkeys@, batch_view(*blocks)),
    ensures
        forall|key: Seq<u8>, k: int|
            0 <= k < 8 && key.len() == 16 && rkeys@ == aes128_key_schedule_spec(key) ==> #[trigger] aes_encrypt_block(aes128_round_keys(key), 10, r[k]@) == blocks[k]@,
{
    assert forall|key: Seq<u8>, k: int|
        0 <= k < 8 && key.len() == 16 && rkeys@ == aes128_key_schedule_spec(key) implies #[trigger] aes_encrypt_block(aes128_round_keys(key), 10, r[k]@) == blocks[k]@ by {
        lemma_aes128_fips(key, batch_view(*blocks));
        assert(batch_view(*r)[k] == r[k]@);
        assert(batch_view(*blocks)[k] == blocks[k]@);
    }
}

/// With round keys from the key schedule of `key`, the fixsliced AES-256
/// encryption gives, block by block, the AES-256 cipher of the standard under `key`.
proof fn lemma_aes256_encrypt_fips(rkeys: &FixsliceKeys256, blocks: &BatchBlocks, r: &BatchBlocks)
    requires
        batch_view(*r) == aes256_encrypt_spec(rkeys@, batch_view(*blocks)),
    ensures
        forall|key: Seq<u8>, k: int|
            0 <= k < 8 && key.len() == 32 && rkeys@ == aes256_key_schedule_spec(key) ==> #[trigger] aes_encrypt_block(aes256_round_keys(key), 14, blocks[k]@) == r[k]@,
{
    assert forall|key: Seq<u8>, k: int|
        0 <= k < 8 && key.len() == 32 && rkeys@ == aes256_key_schedule_spec(key) implies #[trigger] aes_encrypt_block(aes256_round_keys(key), 14, blocks[k]@) == r[k]@ by {
        lemma_aes256_fips(key, batch_view(*blocks));
        assert(batch_view(*r)[k] == r[k]@);
        assert(batch_view(*blocks)[k] == blocks[k]@);
    }
}

/// With round keys from the key schedule of `key`, the fixsliced AES-256
/// decryption gives, block by block, what the AES-256 cipher of the standard under `key` maps to the input.
proof fn lemma_aes256_decrypt_fips(rkeys: &FixsliceKeys256, blocks: &BatchBlocks, r: &BatchBlocks)
    requires
        batch_view(*r) == aes256_decrypt_spec(rkeys@, batch_view(*blocks)),
    ensures
        forall|key: Seq<u8>, k: int|
            0 <= k < 8 && key.len() == 32 && rkeys@ == aes256_key_schedule_spec(key) ==> #[trigger] aes_encrypt_block(aes256_round_keys(key), 14, r[k]@) == blocks[k]@,
{
    assert forall|key: Seq<u8>, k: int|
        0 <= k < 8 && key.len() == 32 && rkeys@ == aes256_key_schedule_spec(key) implies #[trigger] aes_encrypt_block(aes256_round_keys(key), 14, r[k]@) == blocks[k]@ by {
        lemma_aes256_fips(key, batch_view(*blocks));
        assert(batch_view(*r)[k] == r[k]@);
        assert(batch_view(*blocks)[k] == blocks[k]@);
    }
}

/// With round keys from the key schedule of `key`, the fixsliced AES-192
/// encryption gives, block by block, the AES-192 cipher of the standard under `key`.
proof fn lemma_aes192_encrypt_fips(rkeys: &FixsliceKeys192, blocks: &BatchBlocks, r: &BatchBlocks)
    requires
        batch_view(*r) == aes192_encrypt_spec(rkeys@, batch_view(*blocks)),
    ensures
        forall|key: Seq<u8>, k: int|
            0 <= k < 8 && key.len() == 24 && rkeys@ == aes192_key_schedule_spec(key) ==> #[trigger] aes_encrypt_block(aes192_round_keys(key), 12, blocks[k]@) == r[k]@,
{
    assert forall|key: Seq<u8>, k: int|
        0 <= k < 8 && key.len() == 24 && rkeys@ == aes192_key_schedule_spec(key) implies #[trigger] aes_encrypt_block(aes192_round_keys(key), 12, blocks[k]@) == r[k]@ by {
        lemma_aes192_fips(key, batch_view(*blocks));
        assert(batch_view(*r)[k] == r[k]@);
        assert(batch_view(*blocks)[k] == blocks[k]@);
    }
}

/// With round keys from the key schedule of `key`, the fixsliced AES-192
/// decryption gives, block by block, what the AES-192 cipher of the standard under `key` maps to the input.
proof fn lemma_aes192_decrypt_fips(rkeys: &FixsliceKeys192, blocks: &BatchBlocks, r: &BatchBlocks)
    requires
        batch_view(*r) == aes192_decrypt_spec(rkeys@, batch_view(*blocks)),
    ensures
        forall|key: Seq<u8>, k: int|
            0 <= k < 8 && key.len() == 24 && rkeys@ == aes192_key_schedule_spec(key) ==> #[trigger] aes_encrypt_block(aes192_round_keys(key), 12, r[k]@) == blocks[k]@,
{
    assert forall|key: Seq<u8>, k: int|
        0 <= k < 8 && key.len() == 24 && rkeys@ == aes192_key_schedule_spec(key) implies #[trigger] aes_encrypt_block(aes192_round_keys(key), 12, r[k]@) == blocks[k]@ by {
        lemma_aes192_fips(key, batch_view(*blocks));
        assert(batch_view(*r)[k] == r[k]@);
        assert(batch_view(*blocks)[k] == blocks[k]@);
    }
}

} // verus!

//! Fully bitsliced AES-128, AES-192 and AES-256 key schedules, producing
//! round keys in the fixsliced representation (one eight-plane round key
//! every eight lanes), and the building blocks they share.

use vstd::prelude::*;
use crate::lane::{Lane, State, le16, mask, rep4, ror_b, rotr128, shl_b, shl_b_spec, shr_b, shr_b_spec};
use crate::sbox::{sub_bytes, sub_bytes_nots, sub_bytes_spec, sub_bytes_nots_spec};
use crate::shift_rows::{inv_shift_rows_1, inv_shift_rows_2, inv_shift_rows_3, shift_rows_state};
use crate::bitslice::{bitslice, bitslice_same};
use crate::equivalence::fixsliced_keys_hold;
use crate::expansion::{lemma_aes128_key_schedule_holds, lemma_aes256_key_schedule_holds};
use crate::standard::{aes128_round_keys, aes192_round_keys, aes256_round_keys};
use crate::expansion192::lemma_aes192_key_schedule_holds;

verus! {

/// AES-128 round keys.
pub type FixsliceKeys128 = [Lane; 88];

/// AES-192 round keys.
pub type FixsliceKeys192 = [Lane; 104];

/// AES-256 round keys.
pub type FixsliceKeys256 = [Lane; 120];

/// The eight lanes of `buf` that start at `off`.
pub open spec fn window(buf: Seq<Lane>, off: int) -> Seq<Lane> {
    buf.subrange(off, off + 8)
}

/// `buf` with the eight lanes that start at `off` replaced by `w`.
pub open spec fn with_window(buf: Seq<Lane>, off: int, w: Seq<Lane>) -> Seq<Lane> {
    Seq::new(buf.len(), |i: int| if off <= i < off + 8 { w[i - off] } else { buf[i] })
}

/// `buf` with ShiftRows applied `k` times to the eight lanes at `off`.
pub open spec fn map_shift(buf: Seq<Lane>, off: int, k: int) -> Seq<Lane> {
    with_window(buf, off, shift_rows_state(k, window(buf, off)))
}

/// `buf` with the NOT gates of the S-box applied to the eight lanes at `off`.
pub open spec fn map_nots(buf: Seq<Lane>, off: int) -> Seq<Lane> {
    with_window(buf, off, sub_bytes_nots_spec(window(buf, off)))
}

/// The cell that carries the round constant: row 1, column 3 (byte 7).
pub open spec fn rcon_cell_mask() -> u128 {
    le16(0, 0, 0, 0, 0, 0, 0, 0xff, 0, 0, 0, 0, 0, 0, 0, 0)
}

/// A state with a round-constant bit XORed into plane `bit`.
pub open spec fn add_rcon_bit_spec(s: Seq<Lane>, bit: int) -> Seq<Lane> {
    s.update(bit, Lane(s[bit].0 ^ rcon_cell_mask()))
}

/// Cells of column 0 (cell `4r + c` is row `r`, column `c`).
pub open spec fn col0_mask() -> u128 {
    le16(0xff, 0, 0, 0, 0xff, 0, 0, 0, 0xff, 0, 0, 0, 0xff, 0, 0, 0)
}

/// Cells of columns 1 to 3.
pub open spec fn cols13_mask() -> u128 {
    le16(0, 0xff, 0xff, 0xff, 0, 0xff, 0xff, 0xff, 0, 0xff, 0xff, 0xff, 0, 0xff, 0xff, 0xff)
}

/// Cells of columns 2 and 3.
pub open spec fn cols23_mask() -> u128 {
    le16(0, 0, 0xff, 0xff, 0, 0, 0xff, 0xff, 0, 0, 0xff, 0xff, 0, 0, 0xff, 0xff)
}

/// Cells of column 3.
pub open spec fn col3_mask() -> u128 {
    le16(0, 0, 0, 0xff, 0, 0, 0, 0xff, 0, 0, 0, 0xff, 0, 0, 0, 0xff)
}

/// Cells of columns 0 and 1.
pub open spec fn cols01_mask() -> u128 {
    le16(0xff, 0xff, 0, 0, 0xff, 0xff, 0, 0, 0xff, 0xff, 0, 0, 0xff, 0xff, 0, 0)
}

/// Cells of column 2.
pub open spec fn col2_mask() -> u128 {
    le16(0, 0, 0xff, 0, 0, 0, 0xff, 0, 0, 0, 0xff, 0, 0, 0, 0xff, 0)
}

/// Propagates an XOR along every row: column `c` of the result is the XOR
/// of columns `0..=c` of `rk`.
pub open spec fn prefix_columns(rk: u128) -> u128 {
    rk ^ (cols13_mask() & shl_b_spec(1, rk)) ^ (cols23_mask() & shl_b_spec(2, rk)) ^ (col3_mask() & shl_b_spec(3, rk))
}

/// The new value of one plane of the round key in `xor_columns`: `prev` is
/// the plane of the earlier round key, `cur` the plane after the S-box.
pub open spec fn xor_columns_cell(prev: u128, cur: u128, ror: usize) -> u128 {
    prefix_columns(prev ^ (col0_mask() & rotr128(cur, (8 * (ror % 16)) as u128)))
}

/// `xor_columns` after its first `n` planes.
pub open spec fn xor_columns_spec(buf: Seq<Lane>, offset: int, idx_xor: int, ror: usize, n: nat) -> Seq<Lane>
    decreases n,
{
    if n == 0 {
        buf
    } else {
        let b = xor_columns_spec(buf, offset, idx_xor, ror, (n - 1) as nat);
        let j = offset + n - 1;
        b.update(j, Lane(xor_columns_cell(b[j - idx_xor].0, b[j].0, ror)))
    }
}

/// Copies the eight lanes of `buf` that start at `off`.
pub fn get_window(buf: &[Lane], off: usize) -> (w: State)
    requires
        off + 8 <= buf@.len(),
    ensures
        w@ == window(buf@, off as int),
{
    let w = [
        buf[off],
        buf[off + 1],
        buf[off + 2],
        buf[off + 3],
        buf[off + 4],
        buf[off + 5],
        buf[off + 6],
        buf[off + 7],
    ];
    assert(w@ =~= window(buf@, off as int));
    w
}

/// Writes `w` over the eight lanes of `buf` that start at `off`.
pub fn set_window(buf: &mut [Lane], off: usize, w: &State)
    requires
        off + 8 <= old(buf)@.len(),
    ensures
        final(buf)@ == with_window(old(buf)@, off as int, w@),
{
    buf[off] = w[0];
    buf[off + 1] = w[1];
    buf[off + 2] = w[2];
    buf[off + 3] = w[3];
    buf[off + 4] = w[4];
    buf[off + 5] = w[5];
    buf[off + 6] = w[6];
    buf[off + 7] = w[7];
    assert(buf@ =~= with_window(old(buf)@, off as int, w@));
}

/// Copies 8 lanes (one round key) within `buffer` from `src_offset` to
/// `src_offset + 8`.
pub fn memshift32(buffer: &mut [Lane], src_offset: usize)
    requires
        src_offset % 8 == 0,
        src_offset + 16 <= old(buffer)@.len(),
    ensures
        final(buffer)@ == with_window(old(buffer)@, src_offset + 8, window(old(buffer)@, src_offset as int)),
{
    let len = buffer.len();
    let dst_offset = src_offset + 8;
    let mut i: usize = 8;
    while i > 0
        invariant
            i <= 8,
            dst_offset == src_offset + 8,
            src_offset + 16 <= old(buffer)@.len(),
            buffer@.len() == old(buffer)@.len(),
            forall|j: int|
                0 <= j < buffer@.len() ==> #[trigger] buffer@[j] == (if dst_offset + i <= j < dst_offset + 8 {
                    old(buffer)@[j - 8]
                } else {
                    old(buffer)@[j]
                }),
        decreases i,
    {
        i -= 1;
        let v = buffer[src_offset + i];
        buffer[dst_offset + i] = v;
    }
    assert(buffer@ =~= with_window(old(buffer)@, src_offset + 8, window(old(buffer)@, src_offset as int)));
}

/// XORs a 1-bit round constant into byte 7 (row 1, column 3) of bit-plane
/// `bit`.
pub fn add_round_constant_bit(state: &mut [Lane], bit: usize)
    requires
        bit < old(state)@.len(),
    ensures
        final(state)@ == add_rcon_bit_spec(old(state)@, bit as int),
{
    let m = mask([0, 0, 0, 0, 0, 0, 0, 0xff, 0, 0, 0, 0, 0, 0, 0, 0]);
    state[bit] = Lane(state[bit].0 ^ m.0);
}

/// XORs the columns after the S-box during the key schedule round function:
/// for each plane of the round key at `offset`, column 0 of the round key
/// `idx_xor` lanes earlier takes the rotated S-box output, and the result
/// is then XORed along the rows (column `c` gets columns `0..=c`).
pub fn xor_columns<const ROR: usize>(rkeys: &mut [Lane], offset: usize, idx_xor: usize)
    requires
        idx_xor <= offset,
        offset + 8 <= old(rkeys)@.len(),
    ensures
        final(rkeys)@ == xor_columns_spec(old(rkeys)@, offset as int, idx_xor as int, ROR, 8),
{
    let len = rkeys.len();
    let m_lo1 = mask(rep4([0xff, 0, 0, 0]));
    let m_hi3 = mask(rep4([0, 0xff, 0xff, 0xff]));
    let m_hi2 = mask(rep4([0, 0, 0xff, 0xff]));
    let m_hi1 = mask(rep4([0, 0, 0, 0xff]));
    for i in 0..8
        invariant
            idx_xor <= offset,
            offset + 8 <= old(rkeys)@.len(),
            len == old(rkeys)@.len(),
            m_lo1.0 == col0_mask(),
            m_hi3.0 == cols13_mask(),
            m_hi2.0 == cols23_mask(),
            m_hi1.0 == col3_mask(),
            rkeys@ == xor_columns_spec(old(rkeys)@, offset as int, idx_xor as int, ROR, i as nat),
            rkeys@.len() == old(rkeys)@.len(),
    {
        let off_i = offset + i;
        let rk = Lane(rkeys[off_i - idx_xor].0 ^ (m_lo1.0 & ror_b::<ROR>(rkeys[off_i]).0));
        rkeys[off_i] = Lane(
            rk.0 ^ (m_hi3.0 & shl_b::<1>(rk).0) ^ (m_hi2.0 & shl_b::<2>(rk).0) ^ (m_hi1.0 & shl_b::<3>(rk).0),
        );
    }
}

/// `n` zero lanes.
pub open spec fn zero_lanes(n: nat) -> Seq<Lane> {
    Seq::new(n, |i: int| Lane(0))
}

/// `n` zero lanes, with `w` in the first eight.
pub open spec fn initial_keys(n: nat, w: Seq<Lane>) -> Seq<Lane> {
    with_window(zero_lanes(n), 0, w)
}

/// Realigns the round keys to the fixsliced representation: for
/// `j < n`, ShiftRows three, two and one times on the round keys at
/// `first + 32 j`, `first + 32 j + 8` and `first + 32 j + 16`.
pub open spec fn realign(buf: Seq<Lane>, first: int, n: nat) -> Seq<Lane>
    decreases n,
{
    if n == 0 {
        buf
    } else {
        let b = realign(buf, first, (n - 1) as nat);
        let i = first + 32 * (n - 1);
        map_shift(map_shift(map_shift(b, i, 3), i + 8, 2), i + 16, 1)
    }
}

/// Applies the NOT gates of the S-box to round keys `1..=n`.
pub open spec fn nots_windows(buf: Seq<Lane>, n: nat) -> Seq<Lane>
    decreases n,
{
    if n == 0 {
        buf
    } else {
        map_nots(nots_windows(buf, (n - 1) as nat), (8 * n) as int)
    }
}

/// The S-box of the key schedule (without its NOT gates) on the round key
/// at `off`.
pub open spec fn sbox_window(buf: Seq<Lane>, off: int) -> Seq<Lane> {
    sub_bytes_nots_spec(sub_bytes_spec(window(buf, off)))
}

/// Round `rcon` of the AES-128 key expansion.
pub open spec fn ks128_round(buf: Seq<Lane>, rcon: int) -> Seq<Lane> {
    let off = 8 * rcon + 8;
    let b1 = with_window(buf, off, window(buf, off - 8));
    let sb = sbox_window(b1, off);
    let w = if rcon < 8 {
        add_rcon_bit_spec(sb, rcon)
    } else {
        add_rcon_bit_spec(
            add_rcon_bit_spec(add_rcon_bit_spec(add_rcon_bit_spec(sb, rcon - 8), rcon - 7), rcon - 5),
            rcon - 4,
        )
    };
    xor_columns_spec(with_window(b1, off, w), off, 8, 7, 8)
}

/// The first `n` rounds of the AES-128 key expansion.
pub open spec fn ks128_expand(buf: Seq<Lane>, n: nat) -> Seq<Lane>
    decreases n,
{
    if n == 0 {
        buf
    } else {
        ks128_round(ks128_expand(buf, (n - 1) as nat), n - 1)
    }
}

/// The AES-128 round keys of `key`.
pub open spec fn aes128_key_schedule_spec(key: Seq<u8>) -> Seq<Lane> {
    let expanded = ks128_expand(initial_keys(88, bitslice_same(key)), 10);
    nots_windows(map_shift(realign(expanded, 8, 2), 72, 3), 10)
}

/// Step `t` of the AES-256 key expansion: even steps take the S-box with
/// a round constant and rotate by seven bytes, odd steps take the S-box
/// alone and rotate by three.
pub open spec fn ks256_step(buf: Seq<Lane>, t: int) -> Seq<Lane> {
    let off = 8 * t + 16;
    let b1 = with_window(buf, off, window(buf, off - 8));
    let sb = sbox_window(b1, off);
    if t % 2 == 0 {
        xor_columns_spec(with_window(b1, off, add_rcon_bit_spec(sb, t / 2)), off, 16, 7, 8)
    } else {
        xor_columns_spec(with_window(b1, off, sb), off, 16, 3, 8)
    }
}

/// The first `n` steps of the AES-256 key expansion.
pub open spec fn ks256_expand(buf: Seq<Lane>, n: nat) -> Seq<Lane>
    decreases n,
{
    if n == 0 {
        buf
    } else {
        ks256_step(ks256_expand(buf, (n - 1) as nat), n - 1)
    }
}

/// The AES-256 round keys of `key`.
pub open spec fn aes256_key_schedule_spec(key: Seq<u8>) -> Seq<Lane> {
    let init = with_window(initial_keys(120, bitslice_same(key.subrange(0, 16))), 8, bitslice_same(key.subrange(16, 32)));
    let expanded = ks256_expand(init, 13);
    nots_windows(map_shift(realign(expanded, 8, 3), 104, 3), 14)
}

/// Applies ShiftRows `k` times to the round key at `off`.
fn shift_window(rkeys: &mut [Lane], off: usize, k: usize)
    requires
        off + 8 <= old(rkeys)@.len(),
        1 <= k <= 3,
    ensures
        final(rkeys)@ == map_shift(old(rkeys)@, off as int, k as int),
{
    let mut w = get_window(rkeys, off);
    if k == 1 {
        inv_shift_rows_3(&mut w);
    } else if k == 2 {
        inv_shift_rows_2(&mut w);
    } else {
        inv_shift_rows_1(&mut w);
    }
    set_window(rkeys, off, &w);
}

/// Applies the NOT gates of the S-box to the round key at `off`.
fn nots_window(rkeys: &mut [Lane], off: usize)
    requires
        off + 8 <= old(rkeys)@.len(),
    ensures
        final(rkeys)@ == map_nots(old(rkeys)@, off as int),
{
    let mut w = get_window(rkeys, off);
    sub_bytes_nots(&mut w);
    set_window(rkeys, off, &w);
}

/// Adjusts round keys to the fixsliced format (non-compact form): `n`
/// groups of three round keys starting at lane 8, taken by ShiftRows three,
/// two and one times.
fn realign_keys(rkeys: &mut [Lane], n: usize)
    requires
        8 + 32 * n <= old(rkeys)@.len(),
        n <= 3,
    ensures
        final(rkeys)@ == realign(old(rkeys)@, 8, n as nat),
{
    let ghost expanded = rkeys@;
    let mut i: usize = 8;
    let mut j: usize = 0;
    while j < n
        invariant
            i == 8 + 32 * j,
            j <= n,
            n <= 3,
            8 + 32 * n <= old(rkeys)@.len(),
            rkeys@.len() == old(rkeys)@.len(),
            expanded == old(rkeys)@,
            rkeys@ == realign(expanded, 8, j as nat),
        decreases n - j,
    {
        shift_window(rkeys, i, 3);
        shift_window(rkeys, i + 8, 2);
        shift_window(rkeys, i + 16, 1);
        i += 32;
        j += 1;
    }
}

/// Accounts for the NOT gates removed from the S-box on round keys
/// `1..=nots`.
fn nots_keys(rkeys: &mut [Lane], nots: usize)
    requires
        8 * nots + 8 <= old(rkeys)@.len(),
        nots <= 14,
    ensures
        final(rkeys)@ == nots_windows(old(rkeys)@, nots as nat),
{
    let ghost aligned = rkeys@;
    for k in 1..nots + 1
        invariant
            nots <= 14,
            8 * nots + 8 <= old(rkeys)@.len(),
            rkeys@.len() == old(rkeys)@.len(),
            aligned == old(rkeys)@,
            rkeys@ == nots_windows(aligned, (k - 1) as nat),
    {
        nots_window(rkeys, k * 8);
    }
}

/// Fully bitsliced AES-128 key schedule matching the fixsliced
/// representation.
pub fn aes128_key_schedule(key: &[u8; 16]) -> (r: FixsliceKeys128)
    ensures
        r@ == aes128_key_schedule_spec(key@),
        fixsliced_keys_hold(r@, aes128_round_keys(key@), 10),
{
    proof {
        lemma_aes128_key_schedule_holds(key@);
    }
    let mut rkeys = [Lane::zero(); 88];
    let mut w = [Lane::zero(); 8];
    bitslice(&mut w, key, key, key, key, key, key, key, key);
    assert(rkeys@ =~= zero_lanes(88));
    set_window(&mut rkeys, 0, &w);
    let ghost init = rkeys@;
    assert(init == initial_keys(88, bitslice_same(key@)));
    let mut rk_off: usize = 0;
    for rcon in 0..10
        invariant
            rk_off == 8 * rcon,
            rkeys@ == ks128_expand(init, rcon as nat),
            rkeys@.len() == 88,
    {
        memshift32(&mut rkeys, rk_off);
        rk_off += 8;
        let mut w = get_window(&rkeys, rk_off);
        sub_bytes(&mut w);
        sub_bytes_nots(&mut w);
        if rcon < 8 {
            add_round_constant_bit(&mut w, rcon);
        } else {
            add_round_constant_bit(&mut w, rcon - 8);
            add_round_constant_bit(&mut w, rcon - 7);
            add_round_constant_bit(&mut w, rcon - 5);
            add_round_constant_bit(&mut w, rcon - 4);
        }
        set_window(&mut rkeys, rk_off, &w);
        // `ror_distance(1, 3)` = 56 bits = 7 bytes.
        xor_columns::<7>(&mut rkeys, rk_off, 8);
    }
    // Adjust to match fixslicing format (non-compact form).
    realign_keys(&mut rkeys, 2);
    shift_window(&mut rkeys, 72, 3);
    // Account for NOTs removed from sub_bytes
    nots_keys(&mut rkeys, 10);
    rkeys
}

/// Fully bitsliced AES-256 key schedule matching the fixsliced
/// representation.
pub fn aes256_key_schedule(key: &[u8; 32]) -> (r: FixsliceKeys256)
    ensures
        r@ == aes256_key_schedule_spec(key@),
        fixsliced_keys_hold(r@, aes256_round_keys(key@), 14),
{
    proof {
        lemma_aes256_key_schedule_holds(key@);
    }
    let mut rkeys = [Lane::zero(); 120];
    let mut w = [Lane::zero(); 8];
    bitslice(&mut w, &key[0..16], &key[0..16], &key[0..16], &key[0..16], &key[0..16], &key[0..16], &key[0..16], &key[0..16]);
    assert(rkeys@ =~= zero_lanes(120));
    set_window(&mut rkeys, 0, &w);
    bitslice(&mut w, &key[16..32], &key[16..32], &key[16..32], &key[16..32], &key[16..32], &key[16..32], &key[16..32], &key[16..32]);
    set_window(&mut rkeys, 8, &w);
    let ghost init = rkeys@;
    assert(init == with_window(initial_keys(120, bitslice_same(key@.subrange(0, 16))), 8, bitslice_same(key@.subrange(16, 32))));
    let mut rk_off: usize = 8;
    let mut rcon: usize = 0;
    loop
        invariant_except_break
            rk_off == 8 + 16 * rcon,
            rcon < 7,
            rkeys@ == ks256_expand(init, (2 * rcon) as nat),
            rkeys@.len() == 120,
        ensures
            rkeys@ == ks256_expand(init, 13),
            rkeys@.len() == 120,
        decreases 7 - rcon,
    {
        memshift32(&mut rkeys, rk_off);
        rk_off += 8;
        let mut w = get_window(&rkeys, rk_off);
        sub_bytes(&mut w);
        sub_bytes_nots(&mut w);
        add_round_constant_bit(&mut w, rcon);
        set_window(&mut rkeys, rk_off, &w);
        // `ror_distance(1, 3)` = 56 bits = 7 bytes.
        xor_columns::<7>(&mut rkeys, rk_off, 16);
        assert(rkeys@ == ks256_expand(init, (2 * rcon + 1) as nat));
        rcon += 1;
        if rcon == 7 {
            break;
        }
        memshift32(&mut rkeys, rk_off);
        rk_off += 8;
        let mut w = get_window(&rkeys, rk_off);
        sub_bytes(&mut w);
        sub_bytes_nots(&mut w);
        set_window(&mut rkeys, rk_off, &w);
        // `ror_distance(0, 3)` = 24 bits = 3 bytes.
        xor_columns::<3>(&mut rkeys, rk_off, 16);
        assert(rkeys@ == ks256_expand(init, (2 * rcon) as nat));
    }
    // Adjust to match fixslicing format (non-compact form).
    realign_keys(&mut rkeys, 3);
    shift_window(&mut rkeys, 104, 3);
    // Account for NOTs removed from sub_bytes
    nots_keys(&mut rkeys, 14);
    rkeys
}

/// AES-192 key expansion, first pass of a group: the new round key at
/// `off` combines columns 2 and 3 of `tmp` (shifted down to 0 and 1) with
/// columns 0 and 1 of the previous round key `prev` (shifted up to 2 and 3).
pub open spec fn ks192_a(tmp: Seq<Lane>, prev: Seq<Lane>) -> Seq<Lane> {
    Seq::new(8, |i: int| Lane((cols01_mask() & shr_b_spec(2, tmp[i].0)) | (cols23_mask() & shl_b_spec(2, prev[i].0))))
}

/// AES-192 key expansion: folds the S-box output `sb` into columns 2 and 3
/// of the round key `rk`.
pub open spec fn ks192_b(rk: Seq<Lane>, sb: Seq<Lane>) -> Seq<Lane> {
    Seq::new(8, |i: int| {
        let t = rk[i].0 ^ (col2_mask() & rotr128(sb[i].0, 40));
        Lane(t ^ (col3_mask() & shl_b_spec(1, t)))
    })
}

/// AES-192 key expansion: the round key after one built from `u`, with
/// `w16` the round key two places earlier.
pub open spec fn ks192_c(u: Seq<Lane>, w16: Seq<Lane>) -> Seq<Lane> {
    Seq::new(8, |i: int| {
        let t = ((cols01_mask() & shr_b_spec(2, w16[i].0)) | (cols23_mask() & shl_b_spec(2, u[i].0))) ^ (col0_mask()
            & shr_b_spec(3, u[i].0));
        Lane(prefix_columns(t))
    })
}

/// AES-192 key expansion: the third round key of a group, from the two
/// round keys before it and the S-box output `sb`.
pub open spec fn ks192_d(w16: Seq<Lane>, w8: Seq<Lane>, sb: Seq<Lane>) -> Seq<Lane> {
    Seq::new(8, |i: int| {
        let t = ((cols01_mask() & shr_b_spec(2, w16[i].0)) | (cols23_mask() & shl_b_spec(2, w8[i].0))) ^ (col0_mask()
            & rotr128(sb[i].0, 56));
        Lane(prefix_columns(t))
    })
}

/// AES-192 key expansion: the carry into the next group, from the last two
/// round keys.
pub open spec fn ks192_e(w16: Seq<Lane>, w8: Seq<Lane>) -> Seq<Lane> {
    Seq::new(8, |i: int| {
        let t = w16[i].0 ^ (col2_mask() & shr_b_spec(1, w8[i].0));
        Lane(t ^ (col3_mask() & shl_b_spec(1, t)))
    })
}

/// Group `j` of the AES-192 key expansion: three round keys written at
/// `8 + 24 j`, `+ 8` and `+ 16`, and the carried key material `tmp`.
pub open spec fn ks192_group(rk: Seq<Lane>, tmp: Seq<Lane>, j: int) -> (Seq<Lane>, Seq<Lane>) {
    let off = 8 + 24 * j;
    let rk_a = with_window(rk, off, ks192_a(tmp, window(rk, off - 8)));
    let tmp_b = ks192_b(window(rk_a, off), add_rcon_bit_spec(sub_bytes_nots_spec(sub_bytes_spec(tmp)), 2 * j));
    let rk_b = with_window(rk_a, off, tmp_b);
    let tmp_c = ks192_c(tmp_b, window(rk_b, off - 8));
    let rk_c = with_window(rk_b, off + 8, tmp_c);
    let sb = add_rcon_bit_spec(sub_bytes_nots_spec(sub_bytes_spec(tmp_c)), 2 * j + 1);
    let rk_d = with_window(rk_c, off + 16, ks192_d(window(rk_c, off), window(rk_c, off + 8), sb));
    (rk_d, ks192_e(window(rk_d, off + 8), window(rk_d, off + 16)))
}

/// The first `n` groups of the AES-192 key expansion.
pub open spec fn ks192_expand(rk: Seq<Lane>, tmp: Seq<Lane>, n: nat) -> (Seq<Lane>, Seq<Lane>)
    decreases n,
{
    if n == 0 {
        (rk, tmp)
    } else {
        let p = ks192_expand(rk, tmp, (n - 1) as nat);
        ks192_group(p.0, p.1, n - 1)
    }
}

/// The AES-192 round keys of `key`.
pub open spec fn aes192_key_schedule_spec(key: Seq<u8>) -> Seq<Lane> {
    let expanded = ks192_expand(
        initial_keys(104, bitslice_same(key.subrange(0, 16))),
        bitslice_same(key.subrange(8, 24)),
        4,
    ).0;
    nots_windows(realign(expanded, 8, 3), 12)
}

/// Fully bitsliced AES-192 key schedule matching the fixsliced
/// representation.
pub fn aes192_key_schedule(key: &[u8; 24]) -> (r: FixsliceKeys192)
    ensures
        r@ == aes192_key_schedule_spec(key@),
        fixsliced_keys_hold(r@, aes192_round_keys(key@), 12),
{
    proof {
        lemma_aes192_key_schedule_holds(key@);
    }
    let mut rkeys = [Lane::zero(); 104];
    let mut tmp = [Lane::zero(); 8];
    let mut w = [Lane::zero(); 8];
    bitslice(&mut w, &key[0..16], &key[0..16], &key[0..16], &key[0..16], &key[0..16], &key[0..16], &key[0..16], &key[0..16]);
    assert(rkeys@ =~= zero_lanes(104));
    set_window(&mut rkeys, 0, &w);
    bitslice(&mut tmp, &key[8..24], &key[8..24], &key[8..24], &key[8..24], &key[8..24], &key[8..24], &key[8..24], &key[8..24]);
    let ghost init_rk = rkeys@;
    let ghost init_tmp = tmp@;
    assert(init_rk == initial_keys(104, bitslice_same(key@.subrange(0, 16))));
    assert(init_tmp == bitslice_same(key@.subrange(8, 24)));

    // Mask helpers, one byte per cell.
    let m_lo2 = mask(rep4([0xff, 0xff, 0, 0]));
    let m_hi2 = mask(rep4([0, 0, 0xff, 0xff]));
    let m_col2 = mask(rep4([0, 0, 0xff, 0]));
    let m_col3 = mask(rep4([0, 0, 0, 0xff]));
    let m_col0 = mask(rep4([0xff, 0, 0, 0]));
    let m_hi3 = mask(rep4([0, 0xff, 0xff, 0xff]));

    let mut rcon: usize = 0;
    let mut rk_off: usize = 8;

    loop
        invariant_except_break
            rcon % 2 == 0,
            rcon < 8,
            rk_off == 8 + 12 * rcon,
            (rkeys@, tmp@) == ks192_expand(init_rk, init_tmp, (rcon / 2) as nat),
        invariant
            rkeys@.len() == 104,
            m_lo2.0 == cols01_mask(),
            m_hi2.0 == cols23_mask(),
            m_col2.0 == col2_mask(),
            m_col3.0 == col3_mask(),
            m_col0.0 == col0_mask(),
            m_hi3.0 == cols13_mask(),
        ensures
            rkeys@ == ks192_expand(init_rk, init_tmp, 4).0,
        decreases 8 - rcon,
    {
        let ghost j: int = rcon as int / 2;
        let ghost rk0 = rkeys@;
        let ghost tmp0 = tmp@;
        let ghost nxt = ks192_group(rk0, tmp0, j);
        assert(nxt == ks192_expand(init_rk, init_tmp, (j + 1) as nat));

        for i in 0..8
            invariant
                rk_off == 8 + 24 * j,
                0 <= j < 4,
                rkeys@.len() == 104,
                rk0.len() == 104,
                tmp@ == tmp0,
                m_lo2.0 == cols01_mask(),
                m_hi2.0 == cols23_mask(),
                forall|k: int|
                    0 <= k < 104 ==> #[trigger] rkeys@[k] == (if rk_off <= k < rk_off + i {
                        ks192_a(tmp0, window(rk0, rk_off - 8))[k - rk_off]
                    } else {
                        rk0[k]
                    }),
        {
            rkeys[rk_off + i] = Lane((m_lo2.0 & shr_b::<2>(tmp[i]).0) | (m_hi2.0 & shl_b::<2>(rkeys[(rk_off - 8) + i]).0));
        }
        let ghost rk_a = with_window(rk0, rk_off as int, ks192_a(tmp0, window(rk0, rk_off - 8)));
        assert(rkeys@ =~= rk_a);

        sub_bytes(&mut tmp);
        sub_bytes_nots(&mut tmp);
        add_round_constant_bit(&mut tmp, rcon);
        rcon += 1;

        let ghost sb = tmp@;
        for i in 0..8
            invariant
                rk_off == 8 + 24 * j,
                0 <= j < 4,
                rkeys@ == rk_a,
                rk_a.len() == 104,
                tmp@.len() == 8,
                sb.len() == 8,
                m_col2.0 == col2_mask(),
                m_col3.0 == col3_mask(),
                forall|k: int|
                    0 <= k < 8 ==> #[trigger] tmp@[k] == (if k < i {
                        ks192_b(window(rk_a, rk_off as int), sb)[k]
                    } else {
                        sb[k]
                    }),
        {
            // `ror_distance(1, 1)` = 40 bits = 5 bytes.
            let mut ti = rkeys[rk_off + i].0;
            ti = ti ^ (m_col2.0 & ror_b::<5>(tmp[i]).0);
            ti = ti ^ (m_col3.0 & shl_b::<1>(Lane(ti)).0);
            tmp[i] = Lane(ti);
        }
        let ghost tmp_b = ks192_b(window(rk_a, rk_off as int), sb);
        assert(tmp@ =~= tmp_b);
        set_window(&mut rkeys, rk_off, &tmp);
        rk_off += 8;

        let ghost rk_b = rkeys@;
        for i in 0..8
            invariant
                rk_off == 16 + 24 * j,
                0 <= j < 4,
                rkeys@ == rk_b,
                rk_b.len() == 104,
                tmp@.len() == 8,
                tmp_b.len() == 8,
                m_lo2.0 == cols01_mask(),
                m_hi2.0 == cols23_mask(),
                m_col0.0 == col0_mask(),
                m_col3.0 == col3_mask(),
                m_hi3.0 == cols13_mask(),
                forall|k: int|
                    0 <= k < 8 ==> #[trigger] tmp@[k] == (if k < i {
                        ks192_c(tmp_b, window(rk_b, rk_off - 16))[k]
                    } else {
                        tmp_b[k]
                    }),
        {
            let ui = tmp[i];
            let mut ti = (m_lo2.0 & shr_b::<2>(rkeys[(rk_off - 16) + i]).0) | (m_hi2.0 & shl_b::<2>(ui).0);
            ti = ti ^ (m_col0.0 & shr_b::<3>(ui).0);
            let t = Lane(ti);
            tmp[i] = Lane(ti ^ (m_hi3.0 & shl_b::<1>(t).0) ^ (m_hi2.0 & shl_b::<2>(t).0) ^ (m_col3.0 & shl_b::<3>(t).0));
        }
        let ghost tmp_c = ks192_c(tmp_b, window(rk_b, rk_off - 16));
        assert(tmp@ =~= tmp_c);
        set_window(&mut rkeys, rk_off, &tmp);
        rk_off += 8;

        sub_bytes(&mut tmp);
        sub_bytes_nots(&mut tmp);
        add_round_constant_bit(&mut tmp, rcon);
        rcon += 1;

        let ghost rk_c = rkeys@;
        let ghost sb2 = tmp@;
        for i in 0..8
            invariant
                rk_off == 24 + 24 * j,
                0 <= j < 4,
                rkeys@.len() == 104,
                rk_c.len() == 104,
                tmp@ == sb2,
                sb2.len() == 8,
                m_lo2.0 == cols01_mask(),
                m_hi2.0 == cols23_mask(),
                m_col0.0 == col0_mask(),
                m_col3.0 == col3_mask(),
                m_hi3.0 == cols13_mask(),
                forall|k: int|
                    0 <= k < 104 ==> #[trigger] rkeys@[k] == (if rk_off <= k < rk_off + i {
                        ks192_d(window(rk_c, rk_off - 16), window(rk_c, rk_off - 8), sb2)[k - rk_off]
                    } else {
                        rk_c[k]
                    }),
        {
            // `ror_distance(1, 3)` = 56 bits = 7 bytes.
            let mut ti = (m_lo2.0 & shr_b::<2>(rkeys[(rk_off - 16) + i]).0) | (m_hi2.0 & shl_b::<2>(rkeys[(rk_off - 8) + i]).0);
            ti = ti ^ (m_col0.0 & ror_b::<7>(tmp[i]).0);
            let t = Lane(ti);
            rkeys[rk_off + i] = Lane(ti ^ (m_hi3.0 & shl_b::<1>(t).0) ^ (m_hi2.0 & shl_b::<2>(t).0) ^ (m_col3.0 & shl_b::<3>(t).0));
        }
        let ghost rk_d = with_window(rk_c, rk_off as int, ks192_d(window(rk_c, rk_off - 16), window(rk_c, rk_off - 8), sb2));
        assert(rkeys@ =~= rk_d);
        rk_off += 8;
        assert(rk_d == nxt.0);

        if rcon >= 8 {
            break;
        }

        for i in 0..8
            invariant
                rk_off == 32 + 24 * j,
                0 <= j < 3,
                rkeys@ == rk_d,
                rk_d.len() == 104,
                tmp@.len() == 8,
                sb2.len() == 8,
                m_col2.0 == col2_mask(),
                m_col3.0 == col3_mask(),
                forall|k: int|
                    0 <= k < 8 ==> #[trigger] tmp@[k] == (if k < i {
                        ks192_e(window(rk_d, rk_off - 16), window(rk_d, rk_off - 8))[k]
                    } else {
                        sb2[k]
                    }),
        {
            let ui = rkeys[(rk_off - 8) + i];
            let mut ti = rkeys[(rk_off - 16) + i].0;
            ti = ti ^ (m_col2.0 & shr_b::<1>(ui).0);
            ti = ti ^ (m_col3.0 & shl_b::<1>(Lane(ti)).0);
            tmp[i] = Lane(ti);
        }
        assert(tmp@ =~= nxt.1);
    }

    // Adjust to match fixslicing format (non-compact form).
    realign_keys(&mut rkeys, 3);
    // Account for NOTs removed from sub_bytes
    nots_keys(&mut rkeys, 12);
    rkeys
}

} // verus!

use aes::bitslice::{
    bit_swap_pair, bitslice, bytes_shl, bytes_shr, inv_bitslice, transpose_4x4_bytes, transpose_8x8_bits, Block,
};
use aes::block_cipher::add_round_key;
use aes::hazmat::{bitslice_block, inv_bitslice_block, xor_in_place};
use aes::keys::{
    add_round_constant_bit, aes128_key_schedule, aes192_key_schedule, aes256_key_schedule, memshift32,
    xor_columns,
};
use aes::lane::{mask, rep4, ror_b, shl_b, shr_b, Lane, State};
use aes::mixing::{
    inv_mix_columns_0, inv_mix_columns_1, inv_mix_columns_2, inv_mix_columns_3, mix_columns_0, mix_columns_1,
    mix_columns_2, mix_columns_3, rotate_rows_1, rotate_rows_2, rotate_rows_and_columns_1_1,
    rotate_rows_and_columns_1_2, rotate_rows_and_columns_1_3, rotate_rows_and_columns_2_2,
};
use aes::sbox::{inv_sub_bytes, sub_bytes, sub_bytes_nots};
use aes::shift_rows::{
    delta_swap_1, inv_shift_rows_1, inv_shift_rows_2, inv_shift_rows_3, shift_rows_1, shift_rows_2,
    shift_rows_3,
};

fn bytes(x: Lane) -> [u8; 16] {
    x.to_bytes()
}

fn counting_lane() -> Lane {
    let mut b = [0u8; 16];
    for i in 0..16 {
        b[i] = i as u8;
    }
    Lane::from_bytes(b)
}

fn sample_state() -> State {
    let mut s = [Lane::zero(); 8];
    for i in 0..8 {
        s[i] = Lane(0x0123_4567_89ab_cdef_fedc_ba98_7654_3210u128.rotate_left(13 * i as u32) ^ (i as u128 * 0x1111));
    }
    s
}

#[test]
fn lane_bytes_roundtrip() {
    let b = [1u8, 2, 3, 4, 5, 6, 7, 8, 9, 10, 11, 12, 13, 14, 15, 16];
    let l = Lane::from_bytes(b);
    assert_eq!(l.0, u128::from_le_bytes(b));
    assert_eq!(l.to_bytes(), b);
    assert_eq!(Lane::zero().0, 0);
    assert_eq!(Lane::all_ones().0, u128::MAX);
    assert_eq!(Lane::default().0, 0);
}

#[test]
fn byte_rotations_and_shifts() {
    let x = counting_lane();
    assert_eq!(bytes(ror_b::<1>(x)), [1, 2, 3, 4, 5, 6, 7, 8, 9, 10, 11, 12, 13, 14, 15, 0]);
    assert_eq!(bytes(ror_b::<5>(x)), [5, 6, 7, 8, 9, 10, 11, 12, 13, 14, 15, 0, 1, 2, 3, 4]);
    assert_eq!(ror_b::<16>(x), x);
    assert_eq!(ror_b::<0>(x), x);
    assert_eq!(bytes(shr_b::<2>(x)), [2, 3, 4, 5, 6, 7, 8, 9, 10, 11, 12, 13, 14, 15, 0, 0]);
    assert_eq!(bytes(shl_b::<3>(x)), [0, 0, 0, 0, 1, 2, 3, 4, 5, 6, 7, 8, 9, 10, 11, 12]);
    assert_eq!(bytes(shr_b::<4>(x)), [4, 5, 6, 7, 8, 9, 10, 11, 12, 13, 14, 15, 0, 0, 0, 0]);
    assert_eq!(bytes(shl_b::<5>(x)), [0, 0, 0, 0, 0, 0, 1, 2, 3, 4, 5, 6, 7, 8, 9, 10]);
    assert_eq!(shr_b::<0>(x), x);
}

#[test]
fn masks() {
    assert_eq!(rep4([1, 2, 3, 4]), [1, 2, 3, 4, 1, 2, 3, 4, 1, 2, 3, 4, 1, 2, 3, 4]);
    assert_eq!(mask(rep4([0xff, 0, 0, 0])).0, 0x000000ff_000000ff_000000ff_000000ffu128);
}

#[test]
fn cell_permutations() {
    let x = counting_lane();
    assert_eq!(bytes(rotate_rows_1(x)), bytes(ror_b::<4>(x)));
    assert_eq!(bytes(rotate_rows_2(x)), bytes(ror_b::<8>(x)));
    assert_eq!(bytes(rotate_rows_and_columns_1_1(x)), [5, 6, 7, 4, 9, 10, 11, 8, 13, 14, 15, 12, 1, 2, 3, 0]);
    assert_eq!(bytes(rotate_rows_and_columns_1_2(x)), [6, 7, 4, 5, 10, 11, 8, 9, 14, 15, 12, 13, 2, 3, 0, 1]);
    assert_eq!(bytes(rotate_rows_and_columns_1_3(x)), [7, 4, 5, 6, 11, 8, 9, 10, 15, 12, 13, 14, 3, 0, 1, 2]);
    assert_eq!(bytes(rotate_rows_and_columns_2_2(x)), [10, 11, 8, 9, 14, 15, 12, 13, 2, 3, 0, 1, 6, 7, 4, 5]);
    assert_eq!(bytes(transpose_4x4_bytes(x)), [0, 4, 8, 12, 1, 5, 9, 13, 2, 6, 10, 14, 3, 7, 11, 15]);
    assert_eq!(transpose_4x4_bytes(transpose_4x4_bytes(x)), x);
}

#[test]
fn shift_rows_permutes_rows() {
    let mut s = [counting_lane(); 8];
    shift_rows_1(&mut s);
    assert_eq!(bytes(s[0]), [0, 1, 2, 3, 5, 6, 7, 4, 10, 11, 8, 9, 15, 12, 13, 14]);
    let mut t = [counting_lane(); 8];
    shift_rows_2(&mut t);
    assert_eq!(bytes(t[5]), [0, 1, 2, 3, 6, 7, 4, 5, 8, 9, 10, 11, 14, 15, 12, 13]);
    let mut u = [counting_lane(); 8];
    shift_rows_3(&mut u);
    assert_eq!(bytes(u[7]), [0, 1, 2, 3, 7, 4, 5, 6, 10, 11, 8, 9, 13, 14, 15, 12]);
}

#[test]
fn shift_rows_inverses() {
    let orig = sample_state();
    let mut s = orig;
    shift_rows_1(&mut s);
    inv_shift_rows_1(&mut s);
    assert_eq!(s, orig);
    shift_rows_2(&mut s);
    inv_shift_rows_2(&mut s);
    assert_eq!(s, orig);
    shift_rows_3(&mut s);
    inv_shift_rows_3(&mut s);
    assert_eq!(s, orig);
}

#[test]
fn delta_swap_exchanges_cells() {
    let mut x = counting_lane();
    delta_swap_1::<1>(&mut x, mask([0xff, 0, 0, 0, 0, 0, 0, 0, 0, 0, 0, 0, 0, 0, 0, 0]));
    assert_eq!(bytes(x), [1, 0, 2, 3, 4, 5, 6, 7, 8, 9, 10, 11, 12, 13, 14, 15]);
}

#[test]
fn sbox_values_through_planes() {
    // Bitslice a block, run the S-box circuit with its NOT gates, read back.
    let input: Block = [0x00, 0x01, 0x53, 0xff, 0x10, 0x20, 0x30, 0x40, 0x50, 0x60, 0x70, 0x80, 0x90, 0xa0, 0xb0, 0xc0];
    let expect: Block = [0x63, 0x7c, 0xed, 0x16, 0xca, 0xb7, 0x04, 0x09, 0x53, 0xd0, 0x51, 0xcd, 0x60, 0xe0, 0xe7, 0xba];
    let mut s = bitslice_block(&input);
    sub_bytes(&mut s);
    sub_bytes_nots(&mut s);
    let mut out = [0u8; 16];
    inv_bitslice_block(&mut out, &s);
    assert_eq!(out, expect);
    sub_bytes_nots(&mut s);
    inv_sub_bytes(&mut s);
    inv_bitslice_block(&mut out, &s);
    assert_eq!(out, input);
}

#[test]
fn sub_bytes_inverses() {
    let orig = sample_state();
    let mut s = orig;
    sub_bytes(&mut s);
    assert_ne!(s, orig);
    inv_sub_bytes(&mut s);
    assert_eq!(s, orig);
    inv_sub_bytes(&mut s);
    sub_bytes(&mut s);
    assert_eq!(s, orig);
    sub_bytes_nots(&mut s);
    assert_eq!(s[0].0, !orig[0].0);
    assert_eq!(s[2], orig[2]);
    sub_bytes_nots(&mut s);
    assert_eq!(s, orig);
}

#[test]
fn mix_columns_inverses() {
    let orig = sample_state();
    let mut s = orig;
    mix_columns_0(&mut s);
    assert_ne!(s, orig);
    inv_mix_columns_0(&mut s);
    assert_eq!(s, orig);
    mix_columns_1(&mut s);
    inv_mix_columns_1(&mut s);
    assert_eq!(s, orig);
    mix_columns_2(&mut s);
    inv_mix_columns_2(&mut s);
    assert_eq!(s, orig);
    mix_columns_3(&mut s);
    inv_mix_columns_3(&mut s);
    assert_eq!(s, orig);
    inv_mix_columns_3(&mut s);
    mix_columns_3(&mut s);
    assert_eq!(s, orig);
}

#[test]
fn transposes_are_involutions() {
    let orig = sample_state();
    let mut t = orig;
    transpose_8x8_bits(&mut t);
    assert_ne!(t, orig);
    // Bit q of a byte of plane p is bit p of the same byte of plane q.
    for p in 0..8 {
        for q in 0..8 {
            for j in 0..16 {
                let out_bit = (t[p].0 >> (8 * j + q)) & 1;
                let in_bit = (orig[q].0 >> (8 * j + p)) & 1;
                assert_eq!(out_bit, in_bit);
            }
        }
    }
    transpose_8x8_bits(&mut t);
    assert_eq!(t, orig);
}

#[test]
fn bit_swap_pair_swaps() {
    let mut a = Lane(0);
    let mut b = Lane(u128::MAX);
    bit_swap_pair::<1>(&mut a, &mut b, mask([0x55; 16]));
    assert_eq!(a.0, 0x5555_5555_5555_5555_5555_5555_5555_5555u128);
    assert_eq!(b.0, 0x5555_5555_5555_5555_5555_5555_5555_5555u128);
}

#[test]
fn bitslice_roundtrip() {
    let mut blocks = [[0u8; 16]; 8];
    for k in 0..8 {
        for i in 0..16 {
            blocks[k][i] = (k * 16 + i) as u8 ^ 0xa5;
        }
    }
    let mut s = [Lane::zero(); 8];
    bitslice(&mut s, &blocks[0], &blocks[1], &blocks[2], &blocks[3], &blocks[4], &blocks[5], &blocks[6], &blocks[7]);
    // Bit k of cell 4r + c of plane p is bit p of byte r + 4c of block k.
    for p in 0..8 {
        for r in 0..4 {
            for c in 0..4 {
                for k in 0..8 {
                    let bit = (s[p].0 >> (8 * (4 * r + c) + k)) & 1;
                    assert_eq!(bit as u8, (blocks[k][r + 4 * c] >> p) & 1);
                }
            }
        }
    }
    assert_eq!(inv_bitslice(&s), blocks);
}

#[test]
fn xor_in_place_xors() {
    let mut a = [0x0fu8; 16];
    xor_in_place(&mut a, &[0xf1u8; 16]);
    assert_eq!(a, [0xfeu8; 16]);
}

#[test]
fn round_key_addition_twice_is_identity() {
    let orig = sample_state();
    let mut s = orig;
    let k = [Lane(7), Lane(8), Lane(9), Lane(10), Lane(11), Lane(12), Lane(13), Lane(14)];
    add_round_key(&mut s, &k);
    assert_eq!(s[3].0, orig[3].0 ^ 10);
    add_round_key(&mut s, &k);
    assert_eq!(s, orig);
}

#[test]
fn round_constant_bit() {
    let mut s = [Lane::zero(); 8];
    add_round_constant_bit(&mut s, 3);
    assert_eq!(bytes(s[3])[7], 0xff);
    assert_eq!(s[3].0.count_ones(), 8);
    assert_eq!(s[2].0, 0);
}

#[test]
fn memshift_copies_round_key() {
    let mut buf = [Lane::zero(); 24];
    for i in 0..24 {
        buf[i] = Lane(i as u128);
    }
    memshift32(&mut buf, 8);
    for i in 0..8 {
        assert_eq!(buf[16 + i].0, (8 + i) as u128);
        assert_eq!(buf[i].0, i as u128);
        assert_eq!(buf[8 + i].0, (8 + i) as u128);
    }
}

#[test]
fn xor_columns_prefix() {
    // With a zero S-box output, column c of each new plane is the XOR of
    // columns 0..=c of the plane eight lanes back.
    let mut buf = [Lane::zero(); 16];
    for i in 0..8 {
        buf[i] = Lane::from_bytes([1, 2, 4, 8, 16, 32, 64, 128, 3, 5, 6, 9, 10, 12, 17, 18]);
    }
    xor_columns::<7>(&mut buf, 8, 8);
    assert_eq!(bytes(buf[8]), [1, 3, 7, 15, 16, 48, 112, 240, 3, 6, 0, 9, 10, 6, 23, 5]);
}

#[test]
fn key_schedules_start_with_the_key() {
    let key128 = [0x2bu8, 0x7e, 0x15, 0x16, 0x28, 0xae, 0xd2, 0xa6, 0xab, 0xf7, 0x15, 0x88, 0x09, 0xcf, 0x4f, 0x3c];
    let rk = aes128_key_schedule(&key128);
    assert_eq!(inv_bitslice(&rk[0..8])[5], key128);
    let mut key192 = [0u8; 24];
    for i in 0..24 {
        key192[i] = (i * 7) as u8;
    }
    let rk = aes192_key_schedule(&key192);
    assert_eq!(inv_bitslice(&rk[0..8])[0][..], key192[0..16]);
    let mut key256 = [0u8; 32];
    for i in 0..32 {
        key256[i] = (i * 11) as u8;
    }
    let rk = aes256_key_schedule(&key256);
    assert_eq!(inv_bitslice(&rk[0..8])[0][..], key256[0..16]);
    // The second round key is stored realigned (InvShiftRows once) and with
    // the S-box NOT gates applied; undoing both gives the second key half.
    let mut w = [Lane::zero(); 8];
    w.copy_from_slice(&rk[8..16]);
    sub_bytes_nots(&mut w);
    shift_rows_1(&mut w);
    assert_eq!(inv_bitslice(&w)[7][..], key256[16..32]);
}

#[test]
fn lane_operators() {
    let a = Lane(0xf0f0);
    let b = Lane(0x0ff0);
    assert_eq!((a ^ b).0, 0xff00);
    assert_eq!((a & b).0, 0x00f0);
    assert_eq!((a | b).0, 0xfff0);
    assert_eq!((!a).0, !0xf0f0u128);
    let mut c = a;
    c ^= b;
    assert_eq!(c.0, 0xff00);
    c &= b;
    assert_eq!(c.0, 0x0f00);
    c |= a;
    assert_eq!(c.0, 0xfff0);
}

#[test]
fn byte_shifts_past_four_bytes() {
    let ones = Lane(u128::MAX);
    assert_eq!(shr_b::<4>(ones).0, u128::MAX >> 32);
    assert_eq!(shr_b::<15>(ones).0, 0xff);
    assert_eq!(shr_b::<16>(ones).0, 0);
    assert_eq!(shl_b::<4>(Lane(1)).0, 1u128 << 32);
    assert_eq!(shl_b::<15>(Lane(0xab)).0, 0xabu128 << 120);
    assert_eq!(shl_b::<20>(ones).0, 0);
}

#[test]
fn round_constant_bit_on_any_slice() {
    let mut planes = [Lane(0), Lane(0), Lane(0)];
    add_round_constant_bit(&mut planes, 2);
    assert_eq!(planes[0].0, 0);
    assert_eq!(planes[1].0, 0);
    assert_eq!(planes[2].to_bytes(), [0, 0, 0, 0, 0, 0, 0, 0xff, 0, 0, 0, 0, 0, 0, 0, 0]);
}

#[test]
fn per_byte_shifts_take_the_amount_modulo_8() {
    let x = Lane(0x0123_4567_89ab_cdef_fedc_ba98_7654_3210);
    assert_eq!(bytes_shr(x, 9).0, bytes_shr(x, 1).0);
    assert_eq!(bytes_shl(x, 11).0, bytes_shl(x, 3).0);
    assert_eq!(bytes_shr(x, 8).0, x.0);
    assert_eq!(bytes_shr(Lane(0x80), 7).0, 1);
    assert_eq!(bytes_shl(Lane(0x01), 7).0, 0x80);
}

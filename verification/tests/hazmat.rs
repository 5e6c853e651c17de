use aes::bitslice::Block;
use aes::hazmat::{
    cipher_round, cipher_round_par, equiv_inv_cipher_round, equiv_inv_cipher_round_par, inv_mix_columns,
    mix_columns, Block8,
};

fn hex16(s: &str) -> Block {
    let mut out = [0u8; 16];
    for i in 0..16 {
        out[i] = u8::from_str_radix(&s[2 * i..2 * i + 2], 16).unwrap();
    }
    out
}

// FIPS-197 Appendix B, round 1.
const ROUND1_START: &str = "193de3bea0f4e22b9ac68d2ae9f84808";
const ROUND1_SHIFTED: &str = "d4bf5d30e0b452aeb84111f11e2798e5";
const ROUND1_MIXED: &str = "046681e5e0cb199a48f8d37a2806264c";
const ROUND1_KEY: &str = "a0fafe1788542cb123a339392a6c7605";
const ROUND2_START: &str = "a49c7ff2689f352b6b5bea43026a5049";

#[test]
fn cipher_round_fips197() {
    let mut b = hex16(ROUND1_START);
    cipher_round(&mut b, &hex16(ROUND1_KEY));
    assert_eq!(b, hex16(ROUND2_START));
}

#[test]
fn mix_columns_fips197() {
    let mut b = hex16(ROUND1_SHIFTED);
    mix_columns(&mut b);
    assert_eq!(b, hex16(ROUND1_MIXED));
}

#[test]
fn inv_mix_columns_fips197() {
    let mut b = hex16(ROUND1_MIXED);
    inv_mix_columns(&mut b);
    assert_eq!(b, hex16(ROUND1_SHIFTED));
}

#[test]
fn mix_columns_classic_columns() {
    // Columns db 13 53 45 -> 8e 4d a1 bc, f2 0a 22 5c -> 9f dc 58 9d,
    // 01 01 01 01 -> itself, c6 c6 c6 c6 -> itself.
    let mut b = hex16("db135345f20a225c01010101c6c6c6c6");
    mix_columns(&mut b);
    assert_eq!(b, hex16("8e4da1bc9fdc589d01010101c6c6c6c6"));
    inv_mix_columns(&mut b);
    assert_eq!(b, hex16("db135345f20a225c01010101c6c6c6c6"));
}

#[test]
fn equiv_inv_cipher_round_undoes_sub_and_shift() {
    // InvSubBytes and InvShiftRows of SR(SB(x)) give x back; InvMixColumns
    // then is undone by MixColumns.
    let mut b = hex16(ROUND1_SHIFTED);
    equiv_inv_cipher_round(&mut b, &[0u8; 16]);
    mix_columns(&mut b);
    assert_eq!(b, hex16(ROUND1_START));
}

#[test]
fn equiv_inv_cipher_round_xors_key() {
    let mut a = hex16(ROUND1_SHIFTED);
    let mut b = hex16(ROUND1_SHIFTED);
    let key = hex16(ROUND1_KEY);
    equiv_inv_cipher_round(&mut a, &[0u8; 16]);
    equiv_inv_cipher_round(&mut b, &key);
    for i in 0..16 {
        assert_eq!(a[i] ^ key[i], b[i]);
    }
}

fn eight_blocks() -> Block8 {
    let mut out = [hex16(ROUND1_START); 8];
    for k in 0..8 {
        out[k][k] ^= 0x5a;
        out[k][15 - k] ^= k as u8;
    }
    out
}

fn eight_keys() -> Block8 {
    let mut out = [hex16(ROUND1_KEY); 8];
    for k in 0..8 {
        out[k][3] ^= (k as u8) * 17;
    }
    out
}

#[test]
fn cipher_round_par_matches_single() {
    let mut blocks = eight_blocks();
    let keys = eight_keys();
    let orig = blocks;
    cipher_round_par(&mut blocks, &keys);
    for k in 0..8 {
        let mut b = orig[k];
        cipher_round(&mut b, &keys[k]);
        assert_eq!(blocks[k], b);
    }
}

#[test]
fn equiv_inv_cipher_round_par_matches_single() {
    let mut blocks = eight_blocks();
    let keys = eight_keys();
    let orig = blocks;
    equiv_inv_cipher_round_par(&mut blocks, &keys);
    for k in 0..8 {
        let mut b = orig[k];
        equiv_inv_cipher_round(&mut b, &keys[k]);
        assert_eq!(blocks[k], b);
    }
}

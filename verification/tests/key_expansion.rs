use aes::bitslice::{inv_bitslice, Block};
use aes::keys::{aes128_key_schedule, aes192_key_schedule, aes256_key_schedule};
use aes::lane::Lane;

fn hex16(s: &str) -> Block {
    let mut out = [0u8; 16];
    for i in 0..16 {
        out[i] = u8::from_str_radix(&s[2 * i..2 * i + 2], 16).unwrap();
    }
    out
}

fn gmul(mut a: u8, mut b: u8) -> u8 {
    let mut p = 0u8;
    while b != 0 {
        if b & 1 != 0 {
            p ^= a;
        }
        let hi = a & 0x80;
        a <<= 1;
        if hi != 0 {
            a ^= 0x1b;
        }
        b >>= 1;
    }
    p
}

// The S-box from its definition: inverse in GF(2^8), then the affine map.
fn sbox(x: u8) -> u8 {
    let mut inv = 0u8;
    if x != 0 {
        for y in 1..=255u8 {
            if gmul(x, y) == 1 {
                inv = y;
            }
        }
    }
    let mut s = inv;
    let mut r = inv;
    for _ in 0..4 {
        r = r.rotate_left(1);
        s ^= r;
    }
    s ^ 0x63
}

// KeyExpansion of FIPS-197, word by word; round key `r` is words
// `4r..4r+4`.
fn expand(key: &[u8], nr: usize) -> Vec<Block> {
    let nk = key.len() / 4;
    let mut w: Vec<[u8; 4]> = Vec::new();
    for i in 0..nk {
        w.push([key[4 * i], key[4 * i + 1], key[4 * i + 2], key[4 * i + 3]]);
    }
    let mut rcon = 1u8;
    for i in nk..4 * (nr + 1) {
        let mut temp = w[i - 1];
        if i % nk == 0 {
            temp = [sbox(temp[1]) ^ rcon, sbox(temp[2]), sbox(temp[3]), sbox(temp[0])];
            rcon = gmul(rcon, 2);
        } else if nk > 6 && i % nk == 4 {
            temp = [sbox(temp[0]), sbox(temp[1]), sbox(temp[2]), sbox(temp[3])];
        }
        let prev = w[i - nk];
        w.push([prev[0] ^ temp[0], prev[1] ^ temp[1], prev[2] ^ temp[2], prev[3] ^ temp[3]]);
    }
    let mut keys = Vec::new();
    for r in 0..=nr {
        let mut k = [0u8; 16];
        for j in 0..16 {
            k[j] = w[4 * r + j / 4][j % 4];
        }
        keys.push(k);
    }
    keys
}

// How a fixsliced key schedule stores round key `r` of `nr`: round key 0
// as it is; the others XORed with 0x63, and all but the last with ShiftRows
// undone `r` times.
fn stored_form(k: Block, r: usize, nr: usize) -> Block {
    if r == 0 {
        return k;
    }
    let n = if r == nr { 0 } else { (4 - r % 4) % 4 };
    let mut out = [0u8; 16];
    for j in 0..16 {
        let row = j % 4;
        let col = j / 4;
        out[j] = k[row + 4 * ((col + n * row) % 4)] ^ 0x63;
    }
    out
}

fn check_schedule(key: &[u8], rkeys: &[Lane], nr: usize) {
    let expected = expand(key, nr);
    for r in 0..=nr {
        let stored = inv_bitslice(&rkeys[8 * r..8 * r + 8]);
        for b in stored {
            assert_eq!(b, stored_form(expected[r], r, nr), "round key {}", r);
        }
    }
}

#[test]
fn reference_expansion_fips197_a1() {
    // The last round key of FIPS-197 Appendix A.1 checks the reference
    // expansion itself.
    let keys = expand(&hex16("2b7e151628aed2a6abf7158809cf4f3c"), 10);
    assert_eq!(keys[1], hex16("a0fafe1788542cb123a339392a6c7605"));
    assert_eq!(keys[10], hex16("d014f9a8c9ee2589e13f0cc8b6630ca6"));
}

#[test]
fn aes128_schedule_stores_fips_round_keys() {
    let key = hex16("2b7e151628aed2a6abf7158809cf4f3c");
    check_schedule(&key, &aes128_key_schedule(&key), 10);
    let key = hex16("000102030405060708090a0b0c0d0e0f");
    check_schedule(&key, &aes128_key_schedule(&key), 10);
}

#[test]
fn aes192_schedule_stores_fips_round_keys() {
    let mut key = [0u8; 24];
    for i in 0..24 {
        key[i] = i as u8;
    }
    check_schedule(&key, &aes192_key_schedule(&key), 12);
    let mut key = [0u8; 24];
    for i in 0..24 {
        key[i] = (37 * i as u32 + 11) as u8;
    }
    check_schedule(&key, &aes192_key_schedule(&key), 12);
}

#[test]
fn aes256_schedule_stores_fips_round_keys() {
    let mut key = [0u8; 32];
    for i in 0..32 {
        key[i] = i as u8;
    }
    check_schedule(&key, &aes256_key_schedule(&key), 14);
    let mut key = [0u8; 32];
    for i in 0..32 {
        key[i] = (251 - 7 * i as u32) as u8;
    }
    check_schedule(&key, &aes256_key_schedule(&key), 14);
}

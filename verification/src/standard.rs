//! The AES round transformations on one 16-byte block as the standard
//! defines them: the block is the state column by column, byte `r + 4c`
//! at row `r`, column `c`.

use vstd::prelude::*;
use crate::gf::{aes_sbox, aes_inv_sbox, gf_mul};

verus! {

/// SubBytes: the S-box on every byte.
pub open spec fn aes_sub_bytes(b: Seq<u8>) -> Seq<u8> {
    Seq::new(16, |j: int| aes_sbox(b[j]))
}

/// InvSubBytes: the inverse S-box on every byte.
pub open spec fn aes_inv_sub_bytes(b: Seq<u8>) -> Seq<u8> {
    Seq::new(16, |j: int| aes_inv_sbox(b[j]))
}

/// ShiftRows: row `r` rotates left by `r`, so row `r`, column `c` takes the
/// byte at row `r`, column `(c + r) mod 4`.
pub open spec fn aes_shift_rows(b: Seq<u8>) -> Seq<u8> {
    Seq::new(16, |j: int| b[j % 4 + 4 * ((j / 4 + j % 4) % 4)])
}

/// InvShiftRows: row `r` rotates right by `r`, so row `r`, column `c` takes
/// the byte at row `r`, column `(c - r) mod 4`.
pub open spec fn aes_inv_shift_rows(b: Seq<u8>) -> Seq<u8> {
    Seq::new(16, |j: int| b[j % 4 + 4 * ((j / 4 + 4 - j % 4) % 4)])
}

/// MixColumns: every column `(a0, a1, a2, a3)` is multiplied by the
/// circulant matrix with rows `(2, 3, 1, 1)`, `(1, 2, 3, 1)`, ... over
/// GF(2^8).
pub open spec fn aes_mix_columns(b: Seq<u8>) -> Seq<u8> {
    Seq::new(
        16,
        |j: int|
            {
                let r = j % 4;
                let c4 = j - r;
                gf_mul(b[j], 2) ^ gf_mul(b[c4 + (r + 1) % 4], 3) ^ b[c4 + (r + 2) % 4] ^ b[c4 + (r + 3) % 4]
            },
    )
}

/// AddRoundKey: the block XORed with the round key.
pub open spec fn aes_add_round_key(b: Seq<u8>, k: Seq<u8>) -> Seq<u8> {
    Seq::new(16, |j: int| b[j] ^ k[j])
}

/// Where ShiftRows applied `n` times (`n` in 0..4) takes byte `j` from:
/// row `j % 4` rotates left by `n` times the row number.
pub open spec fn shift_src(n: int, j: int) -> int {
    let r = j % 4;
    let c = j / 4;
    let m = if n == 1 {
        r
    } else if n == 2 {
        2 * r
    } else if n == 3 {
        3 * r
    } else {
        0
    };
    r + 4 * ((c + m) % 4)
}

/// ShiftRows applied `n` times (`n` in 0..4); `n = 0` leaves the block
/// alone and `n = 3` is InvShiftRows.
pub open spec fn aes_shift_rows_n(n: int, b: Seq<u8>) -> Seq<u8> {
    Seq::new(16, |j: int| b[shift_src(n, j)])
}

/// Every byte of the block XORed with the constant `c`.
pub open spec fn aes_xor_const(b: Seq<u8>, c: u8) -> Seq<u8> {
    Seq::new(16, |j: int| b[j] ^ c)
}

/// One full round of the cipher: SubBytes, ShiftRows, MixColumns,
/// AddRoundKey.
pub open spec fn aes_round(b: Seq<u8>, k: Seq<u8>) -> Seq<u8> {
    aes_add_round_key(aes_mix_columns(aes_shift_rows(aes_sub_bytes(b))), k)
}

/// The state of the cipher after the initial AddRoundKey and `n` full
/// rounds, with round key `r` at `keys[r]`.
pub open spec fn aes_rounds(keys: Seq<Seq<u8>>, b: Seq<u8>, n: nat) -> Seq<u8>
    decreases n,
{
    if n == 0 {
        aes_add_round_key(b, keys[0])
    } else {
        aes_round(aes_rounds(keys, b, (n - 1) as nat), keys[n as int])
    }
}

/// The cipher with `nr` rounds: the initial AddRoundKey, `nr - 1` full
/// rounds, and a last round without MixColumns.
pub open spec fn aes_encrypt_block(keys: Seq<Seq<u8>>, nr: nat, b: Seq<u8>) -> Seq<u8> {
    aes_add_round_key(aes_shift_rows(aes_sub_bytes(aes_rounds(keys, b, (nr - 1) as nat))), keys[nr as int])
}

/// The round constant `Rcon[i]` of the key expansion (`x^(i - 1)` in
/// GF(2^8)), for `i` in 1..=10.
pub open spec fn aes_rcon(i: int) -> u8 {
    if i == 1 {
        0x01
    } else if i == 2 {
        0x02
    } else if i == 3 {
        0x04
    } else if i == 4 {
        0x08
    } else if i == 5 {
        0x10
    } else if i == 6 {
        0x20
    } else if i == 7 {
        0x40
    } else if i == 8 {
        0x80
    } else if i == 9 {
        0x1b
    } else {
        0x36
    }
}

/// `SubWord(RotWord(w)) ^ Rcon` of the last column `w` of `b`, as four
/// bytes, row by row.
pub open spec fn aes_rot_sub_word(b: Seq<u8>, rc: u8) -> Seq<u8> {
    Seq::new(4, |r: int| if r == 0 { aes_sbox(b[13]) ^ rc } else { aes_sbox(b[12 + (r + 1) % 4]) })
}

/// `SubWord(w)` of the last column `w` of `b`, as four bytes.
pub open spec fn aes_sub_word(b: Seq<u8>) -> Seq<u8> {
    Seq::new(4, |r: int| aes_sbox(b[12 + r]))
}

/// Four words of the key expansion from the four words `prev` that stand
/// `Nk` words earlier and the word `temp`: the first is `prev[0] ^ temp`,
/// and each next one XORs in the next word of `prev`. Column `c` at row
/// `r` is column `c` of `prev` XOR columns `c - 1, ..., 0`, XOR `temp`.
pub open spec fn aes_key_step(prev: Seq<u8>, temp: Seq<u8>) -> Seq<u8> {
    Seq::new(
        16,
        |j: int|
            {
                let r = j % 4;
                let c = j / 4;
                if c == 0 {
                    prev[j] ^ temp[r]
                } else if c == 1 {
                    prev[j] ^ prev[j - 4] ^ temp[r]
                } else if c == 2 {
                    prev[j] ^ prev[j - 4] ^ prev[j - 8] ^ temp[r]
                } else {
                    prev[j] ^ prev[j - 4] ^ prev[j - 8] ^ prev[j - 12] ^ temp[r]
                }
            },
    )
}

/// Round key `r` of the AES-128 key expansion of `key`.
pub open spec fn aes128_round_key(key: Seq<u8>, r: nat) -> Seq<u8>
    decreases r,
{
    if r == 0 {
        key
    } else {
        let prev = aes128_round_key(key, (r - 1) as nat);
        aes_key_step(prev, aes_rot_sub_word(prev, aes_rcon(r as int)))
    }
}

/// The eleven round keys of AES-128.
pub open spec fn aes128_round_keys(key: Seq<u8>) -> Seq<Seq<u8>> {
    Seq::new(11, |r: int| aes128_round_key(key, r as nat))
}

/// Round key `r` of the AES-256 key expansion of `key`: the key itself for
/// the first two, then each from the round key two before, with
/// `SubWord(RotWord(..)) ^ Rcon` of the last word of the one before in even
/// rounds and `SubWord` of it in odd rounds.
pub open spec fn aes256_round_key(key: Seq<u8>, r: nat) -> Seq<u8>
    decreases r,
{
    if r == 0 {
        key.subrange(0, 16)
    } else if r == 1 {
        key.subrange(16, 32)
    } else {
        let prev = aes256_round_key(key, (r - 1) as nat);
        let prev2 = aes256_round_key(key, (r - 2) as nat);
        if r % 2 == 0 {
            aes_key_step(prev2, aes_rot_sub_word(prev, aes_rcon((r / 2) as int)))
        } else {
            aes_key_step(prev2, aes_sub_word(prev))
        }
    }
}

/// The fifteen round keys of AES-256.
pub open spec fn aes256_round_keys(key: Seq<u8>) -> Seq<Seq<u8>> {
    Seq::new(15, |r: int| aes256_round_key(key, r as nat))
}

/// `SubWord(RotWord(w)) ^ Rcon` of a word `w` of four bytes.
pub open spec fn aes_rot_sub_w(w: Seq<u8>, rc: u8) -> Seq<u8> {
    Seq::new(4, |r: int| if r == 0 { aes_sbox(w[1]) ^ rc } else { aes_sbox(w[(r + 1) % 4]) })
}

/// Two words XORed byte by byte.
pub open spec fn aes_xor_w(a: Seq<u8>, b: Seq<u8>) -> Seq<u8> {
    Seq::new(4, |r: int| a[r] ^ b[r])
}

/// Word `i` of the AES-192 key expansion (`Nk = 6`): the six words of the
/// key, then `w[i] = w[i - 6] ^ temp` with `temp = w[i - 1]`, passed through
/// `SubWord(RotWord(..)) ^ Rcon[i / 6]` when `i` is a multiple of 6.
pub open spec fn aes192_word(key: Seq<u8>, i: nat) -> Seq<u8>
    decreases i,
{
    if i < 6 {
        key.subrange(4 * i as int, 4 * i as int + 4)
    } else {
        let prev = aes192_word(key, (i - 1) as nat);
        let temp = if i % 6 == 0 { aes_rot_sub_w(prev, aes_rcon((i / 6) as int)) } else { prev };
        aes_xor_w(aes192_word(key, (i - 6) as nat), temp)
    }
}

/// Round key `r` of AES-192: words `4r..4r + 4` of the key expansion.
pub open spec fn aes192_round_key(key: Seq<u8>, r: nat) -> Seq<u8> {
    Seq::new(16, |j: int| aes192_word(key, (4 * r + j / 4) as nat)[j % 4])
}

/// The thirteen round keys of AES-192.
pub open spec fn aes192_round_keys(key: Seq<u8>) -> Seq<Seq<u8>> {
    Seq::new(13, |r: int| aes192_round_key(key, r as nat))
}

} // verus!

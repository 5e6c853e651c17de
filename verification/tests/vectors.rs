use aes::bitslice::{BatchBlocks, Block};
use aes::block_cipher::{
    aes128_decrypt, aes128_encrypt, aes192_decrypt, aes192_encrypt, aes256_decrypt, aes256_encrypt,
};
use aes::keys::{aes128_key_schedule, aes192_key_schedule, aes256_key_schedule};

fn hex16(s: &str) -> Block {
    let mut out = [0u8; 16];
    for i in 0..16 {
        out[i] = u8::from_str_radix(&s[2 * i..2 * i + 2], 16).unwrap();
    }
    out
}

fn counting_key<const N: usize>() -> [u8; N] {
    let mut k = [0u8; N];
    for i in 0..N {
        k[i] = i as u8;
    }
    k
}

fn batch_of(b: Block) -> BatchBlocks {
    [b; 8]
}

/// A batch of eight different blocks: block `k` is the plaintext with its
/// first byte XORed with `k`.
fn varied_batch(b: Block) -> BatchBlocks {
    let mut out = [b; 8];
    for k in 0..8 {
        out[k][0] ^= k as u8;
        out[k][15] ^= (k as u8) << 4;
    }
    out
}

#[test]
fn aes128_fips197_encrypt() {
    let rk = aes128_key_schedule(&counting_key::<16>());
    let pt = hex16("00112233445566778899aabbccddeeff");
    let ct = aes128_encrypt(&rk, &batch_of(pt));
    for k in 0..8 {
        assert_eq!(ct[k], hex16("69c4e0d86a7b0430d8cdb78070b4c55a"));
    }
}

#[test]
fn aes128_fips197_decrypt() {
    let rk = aes128_key_schedule(&counting_key::<16>());
    let ct = hex16("69c4e0d86a7b0430d8cdb78070b4c55a");
    let pt = aes128_decrypt(&rk, &batch_of(ct));
    for k in 0..8 {
        assert_eq!(pt[k], hex16("00112233445566778899aabbccddeeff"));
    }
}

#[test]
fn aes128_appendix_b() {
    let key = hex16("2b7e151628aed2a6abf7158809cf4f3c");
    let rk = aes128_key_schedule(&key);
    let ct = aes128_encrypt(&rk, &batch_of(hex16("3243f6a8885a308d313198a2e0370734")));
    assert_eq!(ct[3], hex16("3925841d02dc09fbdc118597196a0b32"));
}

#[test]
fn aes192_fips197_encrypt() {
    let rk = aes192_key_schedule(&counting_key::<24>());
    let pt = hex16("00112233445566778899aabbccddeeff");
    let ct = aes192_encrypt(&rk, &batch_of(pt));
    for k in 0..8 {
        assert_eq!(ct[k], hex16("dda97ca4864cdfe06eaf70a0ec0d7191"));
    }
}

#[test]
fn aes192_fips197_decrypt() {
    let rk = aes192_key_schedule(&counting_key::<24>());
    let pt = aes192_decrypt(&rk, &batch_of(hex16("dda97ca4864cdfe06eaf70a0ec0d7191")));
    for k in 0..8 {
        assert_eq!(pt[k], hex16("00112233445566778899aabbccddeeff"));
    }
}

#[test]
fn aes256_fips197_encrypt() {
    let rk = aes256_key_schedule(&counting_key::<32>());
    let pt = hex16("00112233445566778899aabbccddeeff");
    let ct = aes256_encrypt(&rk, &batch_of(pt));
    for k in 0..8 {
        assert_eq!(ct[k], hex16("8ea2b7ca516745bfeafc49904b496089"));
    }
}

#[test]
fn aes256_fips197_decrypt() {
    let rk = aes256_key_schedule(&counting_key::<32>());
    let pt = aes256_decrypt(&rk, &batch_of(hex16("8ea2b7ca516745bfeafc49904b496089")));
    for k in 0..8 {
        assert_eq!(pt[k], hex16("00112233445566778899aabbccddeeff"));
    }
}

#[test]
fn blocks_are_independent() {
    // Each of the eight positions of a batch is encrypted on its own.
    let rk = aes128_key_schedule(&counting_key::<16>());
    let batch = varied_batch(hex16("00112233445566778899aabbccddeeff"));
    let ct = aes128_encrypt(&rk, &batch);
    for k in 0..8 {
        let single = aes128_encrypt(&rk, &batch_of(batch[k]));
        assert_eq!(ct[k], single[0]);
    }
    assert_eq!(ct[0], hex16("69c4e0d86a7b0430d8cdb78070b4c55a"));
}

#[test]
fn roundtrip_all_key_sizes() {
    let batch = varied_batch(hex16("0f1e2d3c4b5a69788796a5b4c3d2e1f0"));
    let rk128 = aes128_key_schedule(&counting_key::<16>());
    assert_eq!(aes128_decrypt(&rk128, &aes128_encrypt(&rk128, &batch)), batch);
    assert_eq!(aes128_encrypt(&rk128, &aes128_decrypt(&rk128, &batch)), batch);
    let rk192 = aes192_key_schedule(&counting_key::<24>());
    assert_eq!(aes192_decrypt(&rk192, &aes192_encrypt(&rk192, &batch)), batch);
    assert_eq!(aes192_encrypt(&rk192, &aes192_decrypt(&rk192, &batch)), batch);
    let rk256 = aes256_key_schedule(&counting_key::<32>());
    assert_eq!(aes256_decrypt(&rk256, &aes256_encrypt(&rk256, &batch)), batch);
    assert_eq!(aes256_encrypt(&rk256, &aes256_decrypt(&rk256, &batch)), batch);
}

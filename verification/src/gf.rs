//! Arithmetic in GF(2^8), the field of AES, and the AES S-box defined from
//! it: the multiplicative inverse followed by an affine map.

use vstd::prelude::*;

verus! {

/// Multiplication by `x` in GF(2^8) = GF(2)[x] / (x^8 + x^4 + x^3 + x + 1).
pub open spec fn xtime(a: u8) -> u8 {
    (a << 1u8) ^ (if a & 0x80u8 != 0u8 { 0x1bu8 } else { 0u8 })
}

/// The sum of the `a_i = x^i a` selected by the bits of `b`.
pub open spec fn mul_sum(b: u8, a0: u8, a1: u8, a2: u8, a3: u8, a4: u8, a5: u8, a6: u8, a7: u8) -> u8 {
    (if b & 1u8 != 0u8 { a0 } else { 0u8 }) ^ (if b & 2u8 != 0u8 { a1 } else { 0u8 }) ^ (if b & 4u8 != 0u8 {
        a2
    } else {
        0u8
    }) ^ (if b & 8u8 != 0u8 { a3 } else { 0u8 }) ^ (if b & 16u8 != 0u8 { a4 } else { 0u8 }) ^ (if b & 32u8
        != 0u8 {
        a5
    } else {
        0u8
    }) ^ (if b & 64u8 != 0u8 { a6 } else { 0u8 }) ^ (if b & 128u8 != 0u8 { a7 } else { 0u8 })
}

/// Multiplication in GF(2^8).
pub open spec fn gf_mul(a: u8, b: u8) -> u8 {
    let a1 = xtime(a);
    let a2 = xtime(a1);
    let a3 = xtime(a2);
    let a4 = xtime(a3);
    let a5 = xtime(a4);
    let a6 = xtime(a5);
    let a7 = xtime(a6);
    mul_sum(b, a, a1, a2, a3, a4, a5, a6, a7)
}

/// The multiplicative inverse in GF(2^8), `x^254` (0 for 0).
pub open spec fn gf_inv(x: u8) -> u8 {
    let x2 = gf_mul(x, x);
    let x4 = gf_mul(x2, x2);
    let x8 = gf_mul(x4, x4);
    let x16 = gf_mul(x8, x8);
    let x32 = gf_mul(x16, x16);
    let x64 = gf_mul(x32, x32);
    let x128 = gf_mul(x64, x64);
    let p1 = gf_mul(x2, x4);
    let p2 = gf_mul(x8, x16);
    let p3 = gf_mul(x32, x64);
    let p4 = gf_mul(p1, p2);
    let p5 = gf_mul(p3, x128);
    gf_mul(p4, p5)
}

/// Left rotation of a byte by `s` bits, `0 < s < 8`.
pub open spec fn rotl8(b: u8, s: u8) -> u8 {
    (b << s) | (b >> ((8 - s) as u8))
}

/// The linear part of the affine map of the AES S-box.
pub open spec fn affine(b: u8) -> u8 {
    b ^ rotl8(b, 1) ^ rotl8(b, 2) ^ rotl8(b, 3) ^ rotl8(b, 4)
}

/// The inverse of `affine`.
pub open spec fn inv_affine(b: u8) -> u8 {
    rotl8(b, 1) ^ rotl8(b, 3) ^ rotl8(b, 6)
}

/// The AES S-box: the inverse in GF(2^8) followed by the affine map.
pub open spec fn aes_sbox(x: u8) -> u8 {
    affine(gf_inv(x)) ^ 0x63u8
}

/// The inverse AES S-box.
pub open spec fn aes_inv_sbox(y: u8) -> u8 {
    gf_inv(inv_affine(y ^ 0x63u8))
}

/// Eight bits (each 0 or 1) gathered into a byte, `b0` least significant.
pub open spec fn gather8(b0: u8, b1: u8, b2: u8, b3: u8, b4: u8, b5: u8, b6: u8, b7: u8) -> u8 {
    b0 | (b1 << 1u8) | (b2 << 2u8) | (b3 << 3u8) | (b4 << 4u8) | (b5 << 5u8) | (b6 << 6u8) | (b7 << 7u8)
}

} // verus!

//! Fixsliced AES-128, AES-192 and AES-256 over 128-bit bit-planes.

pub mod lane;
pub mod gf;
pub mod standard;
pub mod sbox;
pub mod mixing;
pub mod shift_rows;
pub mod bitslice;
pub mod keys;
pub mod block_cipher;
pub mod hazmat;
pub mod layout;
pub mod equivalence;
pub mod expansion;
pub mod expansion192;

//! The `Lane` type: one bit-plane of the bitsliced state, a 128-bit value
//! whose sixteen bytes are the sixteen cells of the plane (byte `k` of the
//! lane is bits `8k..8k+8` of the value, little-endian), together with the
//! byte-aligned rotations and shifts and the mask helpers built on it.

use vstd::prelude::*;

verus! {

/// The byte of `x` that starts at bit `s` (zero once `s` reaches 128).
pub open spec fn byte_of(x: u128, s: u128) -> u8 {
    (x >> s) as u8
}

/// Little-endian assembly of sixteen bytes into a 128-bit value:
/// byte `i` becomes bits `8i..8i+8`.
pub open spec fn le16(b0: u8, b1: u8, b2: u8, b3: u8, b4: u8, b5: u8, b6: u8, b7: u8, b8: u8, b9: u8, b10: u8, b11: u8, b12: u8, b13: u8, b14: u8, b15: u8) -> u128 {
    (b0 as u128) | ((b1 as u128) << 8) | ((b2 as u128) << 16) | ((b3 as u128) << 24) | ((b4 as u128) << 32) | ((b5 as u128) << 40) | ((b6 as u128) << 48) | ((b7 as u128) << 56) | ((b8 as u128) << 64) | ((b9 as u128) << 72) | ((b10 as u128) << 80) | ((b11 as u128) << 88) | ((b12 as u128) << 96) | ((b13 as u128) << 104) | ((b14 as u128) << 112) | ((b15 as u128) << 120)
}

/// The sixteen bytes of `x`, least significant first.
pub open spec fn bytes_le(x: u128) -> Seq<u8> {
    seq![byte_of(x, 0), byte_of(x, 8), byte_of(x, 16), byte_of(x, 24), byte_of(x, 32), byte_of(x, 40), byte_of(x, 48), byte_of(x, 56), byte_of(x, 64), byte_of(x, 72), byte_of(x, 80), byte_of(x, 88), byte_of(x, 96), byte_of(x, 104), byte_of(x, 112), byte_of(x, 120)]
}

/// Rotation of a 128-bit value right by `s` bits, `s < 128`.
pub open spec fn rotr128(x: u128, s: u128) -> u128 {
    if s == 0 {
        x
    } else {
        (x >> s) | (x << ((128 - s) as u128))
    }
}

/// A value whose sixteen bytes all equal `b`.
pub open spec fn splat(b: u8) -> u128 {
    le16(b, b, b, b, b, b, b, b, b, b, b, b, b, b, b, b)
}

/// One bit-plane of the bitsliced state: 128 bits, one byte per cell.
#[derive(Clone, Copy, PartialEq, Eq, Structural, Debug)]
pub struct Lane(pub u128);

impl Lane {
    /// The all-zero lane.
    pub fn zero() -> (r: Lane)
        ensures
            r.0 == 0,
    {
        Lane(0)
    }

    /// The lane with every bit set.
    pub fn all_ones() -> (r: Lane)
        ensures
            r.0 == u128::MAX,
    {
        Lane(u128::MAX)
    }

    /// Builds a lane from its sixteen bytes (byte `i` is cell `i`).
    pub fn from_bytes(b: [u8; 16]) -> (r: Lane)
        ensures
            r.0 == le16(b[0], b[1], b[2], b[3], b[4], b[5], b[6], b[7], b[8], b[9], b[10], b[11], b[12], b[13], b[14], b[15]),
    {
        Lane(
            (b[0] as u128)
            | ((b[1] as u128) << 8)
            | ((b[2] as u128) << 16)
            | ((b[3] as u128) << 24)
            | ((b[4] as u128) << 32)
            | ((b[5] as u128) << 40)
            | ((b[6] as u128) << 48)
            | ((b[7] as u128) << 56)
            | ((b[8] as u128) << 64)
            | ((b[9] as u128) << 72)
            | ((b[10] as u128) << 80)
            | ((b[11] as u128) << 88)
            | ((b[12] as u128) << 96)
            | ((b[13] as u128) << 104)
            | ((b[14] as u128) << 112)
            | ((b[15] as u128) << 120)
        )
    }

    /// The sixteen bytes of the lane (cell `i` is byte `i`).
    pub fn to_bytes(self) -> (r: [u8; 16])
        ensures
            r@ == bytes_le(self.0),
    {
        let x = self.0;
        [
            (x >> 0u128) as u8,
            (x >> 8u128) as u8,
            (x >> 16u128) as u8,
            (x >> 24u128) as u8,
            (x >> 32u128) as u8,
            (x >> 40u128) as u8,
            (x >> 48u128) as u8,
            (x >> 56u128) as u8,
            (x >> 64u128) as u8,
            (x >> 72u128) as u8,
            (x >> 80u128) as u8,
            (x >> 88u128) as u8,
            (x >> 96u128) as u8,
            (x >> 104u128) as u8,
            (x >> 112u128) as u8,
            (x >> 120u128) as u8
        ]
    }
}

impl Default for Lane {
    /// The all-zero lane.
    fn default() -> (r: Lane)
        ensures
            r.0 == 0,
    {
        Lane::zero()
    }
}

impl core::ops::BitXor for Lane {
    type Output = Lane;

    /// Bitwise XOR of two lanes.
    fn bitxor(self, r: Lane) -> (out: Lane)
        ensures
            out.0 == self.0 ^ r.0,
    {
        Lane(self.0 ^ r.0)
    }
}

impl vstd::std_specs::ops::BitXorSpecImpl for Lane {
    open spec fn obeys_bitxor_spec() -> bool {
        true
    }

    open spec fn bitxor_req(self, r: Lane) -> bool {
        true
    }

    open spec fn bitxor_spec(self, r: Lane) -> Lane {
        Lane(self.0 ^ r.0)
    }
}

impl core::ops::BitAnd for Lane {
    type Output = Lane;

    /// Bitwise AND of two lanes.
    fn bitand(self, r: Lane) -> (out: Lane)
        ensures
            out.0 == self.0 & r.0,
    {
        Lane(self.0 & r.0)
    }
}

impl vstd::std_specs::ops::BitAndSpecImpl for Lane {
    open spec fn obeys_bitand_spec() -> bool {
        true
    }

    open spec fn bitand_req(self, r: Lane) -> bool {
        true
    }

    open spec fn bitand_spec(self, r: Lane) -> Lane {
        Lane(self.0 & r.0)
    }
}

impl core::ops::BitOr for Lane {
    type Output = Lane;

    /// Bitwise OR of two lanes.
    fn bitor(self, r: Lane) -> (out: Lane)
        ensures
            out.0 == self.0 | r.0,
    {
        Lane(self.0 | r.0)
    }
}

impl vstd::std_specs::ops::BitOrSpecImpl for Lane {
    open spec fn obeys_bitor_spec() -> bool {
        true
    }

    open spec fn bitor_req(self, r: Lane) -> bool {
        true
    }

    open spec fn bitor_spec(self, r: Lane) -> Lane {
        Lane(self.0 | r.0)
    }
}

impl core::ops::Not for Lane {
    type Output = Lane;

    /// Bitwise NOT of a lane.
    fn not(self) -> (out: Lane)
        ensures
            out.0 == !self.0,
    {
        Lane(!self.0)
    }
}

impl vstd::std_specs::ops::NotSpecImpl for Lane {
    open spec fn obeys_not_spec() -> bool {
        true
    }

    open spec fn not_req(self) -> bool {
        true
    }

    open spec fn not_spec(self) -> Lane {
        Lane(!self.0)
    }
}

impl core::ops::BitXorAssign for Lane {
    /// XORs `r` into the lane.
    fn bitxor_assign(&mut self, r: Lane)
        ensures
            final(self).0 == old(self).0 ^ r.0,
    {
        self.0 = self.0 ^ r.0;
    }
}

impl core::ops::BitAndAssign for Lane {
    /// ANDs `r` into the lane.
    fn bitand_assign(&mut self, r: Lane)
        ensures
            final(self).0 == old(self).0 & r.0,
    {
        self.0 = self.0 & r.0;
    }
}

impl core::ops::BitOrAssign for Lane {
    /// ORs `r` into the lane.
    fn bitor_assign(&mut self, r: Lane)
        ensures
            final(self).0 == old(self).0 | r.0,
    {
        self.0 = self.0 | r.0;
    }
}

/// Reassembling the bytes of a value gives the value back.
pub proof fn lemma_le16_bytes_le(x: u128)
    ensures
        le16(
            bytes_le(x)[0], bytes_le(x)[1], bytes_le(x)[2], bytes_le(x)[3],
            bytes_le(x)[4], bytes_le(x)[5], bytes_le(x)[6], bytes_le(x)[7],
            bytes_le(x)[8], bytes_le(x)[9], bytes_le(x)[10], bytes_le(x)[11],
            bytes_le(x)[12], bytes_le(x)[13], bytes_le(x)[14], bytes_le(x)[15],
        ) == x,
{
    assert(le16(byte_of(x, 0), byte_of(x, 8), byte_of(x, 16), byte_of(x, 24), byte_of(x, 32), byte_of(x, 40), byte_of(x, 48), byte_of(x, 56), byte_of(x, 64), byte_of(x, 72), byte_of(x, 80), byte_of(x, 88), byte_of(x, 96), byte_of(x, 104), byte_of(x, 112), byte_of(x, 120)) == x) by (bit_vector);
}

/// Splitting an assembled value into bytes gives the bytes back.
pub proof fn lemma_bytes_le_le16(b0: u8, b1: u8, b2: u8, b3: u8, b4: u8, b5: u8, b6: u8, b7: u8, b8: u8, b9: u8, b10: u8, b11: u8, b12: u8, b13: u8, b14: u8, b15: u8)
    ensures
        bytes_le(le16(b0, b1, b2, b3, b4, b5, b6, b7, b8, b9, b10, b11, b12, b13, b14, b15)) == seq![b0, b1, b2, b3, b4, b5, b6, b7, b8, b9, b10, b11, b12, b13, b14, b15],
{
    let x = le16(b0, b1, b2, b3, b4, b5, b6, b7, b8, b9, b10, b11, b12, b13, b14, b15);
    assert(byte_of(x, 0) == b0 && byte_of(x, 8) == b1 && byte_of(x, 16) == b2 && byte_of(x, 24) == b3 && byte_of(x, 32) == b4 && byte_of(x, 40) == b5 && byte_of(x, 48) == b6 && byte_of(x, 56) == b7 && byte_of(x, 64) == b8 && byte_of(x, 72) == b9 && byte_of(x, 80) == b10 && byte_of(x, 88) == b11 && byte_of(x, 96) == b12 && byte_of(x, 104) == b13 && byte_of(x, 112) == b14 && byte_of(x, 120) == b15)
        by (bit_vector)
        requires
            x == le16(b0, b1, b2, b3, b4, b5, b6, b7, b8, b9, b10, b11, b12, b13, b14, b15),
    ;
    assert(bytes_le(x) =~= seq![b0, b1, b2, b3, b4, b5, b6, b7, b8, b9, b10, b11, b12, b13, b14, b15]);
}



/// A byte of an XOR is the XOR of the bytes.
pub proof fn lemma_byte_of_xor(a: u128, b: u128, s: u128)
    ensures
        byte_of(a ^ b, s) == byte_of(a, s) ^ byte_of(b, s),
{
    assert(((a ^ b) >> s) as u8 == ((a >> s) as u8) ^ ((b >> s) as u8)) by (bit_vector);
}

/// A byte of an AND is the AND of the bytes.
pub proof fn lemma_byte_of_and(a: u128, b: u128, s: u128)
    ensures
        byte_of(a & b, s) == byte_of(a, s) & byte_of(b, s),
{
    assert(((a & b) >> s) as u8 == ((a >> s) as u8) & ((b >> s) as u8)) by (bit_vector);
}

/// Two values with the same sixteen bytes are equal.
pub proof fn lemma_eq_by_bytes(x: u128, y: u128)
    requires
        forall|s: u128| byte_of(x, s) == byte_of(y, s),
    ensures
        x == y,
{
    assert(byte_of(x, 0) == byte_of(y, 0) && byte_of(x, 8) == byte_of(y, 8));
    assert(byte_of(x, 16) == byte_of(y, 16) && byte_of(x, 24) == byte_of(y, 24));
    assert(byte_of(x, 32) == byte_of(y, 32) && byte_of(x, 40) == byte_of(y, 40));
    assert(byte_of(x, 48) == byte_of(y, 48) && byte_of(x, 56) == byte_of(y, 56));
    assert(byte_of(x, 64) == byte_of(y, 64) && byte_of(x, 72) == byte_of(y, 72));
    assert(byte_of(x, 80) == byte_of(y, 80) && byte_of(x, 88) == byte_of(y, 88));
    assert(byte_of(x, 96) == byte_of(y, 96) && byte_of(x, 104) == byte_of(y, 104));
    assert(byte_of(x, 112) == byte_of(y, 112) && byte_of(x, 120) == byte_of(y, 120));
    assert(x == y) by (bit_vector)
        requires
            (x >> 0) as u8 == (y >> 0) as u8, (x >> 8) as u8 == (y >> 8) as u8,
            (x >> 16) as u8 == (y >> 16) as u8, (x >> 24) as u8 == (y >> 24) as u8,
            (x >> 32) as u8 == (y >> 32) as u8, (x >> 40) as u8 == (y >> 40) as u8,
            (x >> 48) as u8 == (y >> 48) as u8, (x >> 56) as u8 == (y >> 56) as u8,
            (x >> 64) as u8 == (y >> 64) as u8, (x >> 72) as u8 == (y >> 72) as u8,
            (x >> 80) as u8 == (y >> 80) as u8, (x >> 88) as u8 == (y >> 88) as u8,
            (x >> 96) as u8 == (y >> 96) as u8, (x >> 104) as u8 == (y >> 104) as u8,
            (x >> 112) as u8 == (y >> 112) as u8, (x >> 120) as u8 == (y >> 120) as u8,
    ;
}


/// The eight bit-planes of a bitsliced state (eight blocks per cell).
pub type State = [Lane; 8];

/// Rotates the lane, as a 128-bit integer, right by `N` bytes (`N` taken
/// modulo 16).
pub fn ror_b<const N: usize>(x: Lane) -> (r: Lane)
    ensures
        r.0 == rotr128(x.0, (8 * (N % 16)) as u128),
{
    let n: usize = N % 16;
    if n == 0 {
        x
    } else {
        let sh: u32 = (8 * n) as u32;
        Lane((x.0 >> sh) | (x.0 << (128 - sh)))
    }
}

/// Shifts the lane, as a 128-bit integer, right by `N` bytes (the zero lane
/// once `N` reaches 16, when every byte has left).
pub fn shr_b<const N: usize>(x: Lane) -> (r: Lane)
    ensures
        r.0 == shr_b_spec(N, x.0),
{
    if N == 0 {
        x
    } else if N < 16 {
        let sh: u32 = (8 * N) as u32;
        Lane(x.0 >> sh)
    } else {
        Lane(0)
    }
}

/// Shifts the lane, as a 128-bit integer, left by `N` bytes (the zero lane
/// once `N` reaches 16, when every byte has left).
pub fn shl_b<const N: usize>(x: Lane) -> (r: Lane)
    ensures
        r.0 == shl_b_spec(N, x.0),
{
    if N == 0 {
        x
    } else if N < 16 {
        let sh: u32 = (8 * N) as u32;
        Lane(x.0 << sh)
    } else {
        Lane(0)
    }
}

/// A lane given byte by byte (byte `i` is cell `i`).
pub fn mask(bytes: [u8; 16]) -> (r: Lane)
    ensures
        r.0 == le16(
            bytes[0], bytes[1], bytes[2], bytes[3], bytes[4], bytes[5], bytes[6], bytes[7],
            bytes[8], bytes[9], bytes[10], bytes[11], bytes[12], bytes[13], bytes[14], bytes[15],
        ),
{
    Lane::from_bytes(bytes)
}

/// Repeats a four-byte pattern four times.
pub fn rep4(p: [u8; 4]) -> (r: [u8; 16])
    ensures
        r@ == seq![p[0], p[1], p[2], p[3], p[0], p[1], p[2], p[3], p[0], p[1], p[2], p[3], p[0], p[1], p[2], p[3]],
{
    [p[0], p[1], p[2], p[3], p[0], p[1], p[2], p[3], p[0], p[1], p[2], p[3], p[0], p[1], p[2], p[3]]
}

/// What `shr_b::<n>` computes.
pub open spec fn shr_b_spec(n: usize, x: u128) -> u128 {
    if n == 0 {
        x
    } else if n < 16 {
        x >> ((8 * n) as u128)
    } else {
        0
    }
}

/// What `shl_b::<n>` computes.
pub open spec fn shl_b_spec(n: usize, x: u128) -> u128 {
    if n == 0 {
        x
    } else if n < 16 {
        x << ((8 * n) as u128)
    } else {
        0
    }
}

/// Bit `p` of `x`, as 0 or 1.
pub open spec fn bit_of(x: u128, p: u128) -> u8 {
    ((x >> p) & 1) as u8
}

/// A bit of an XOR is the XOR of the bits, a bit of an AND is the AND of
/// the bits, and a bit is 0 or 1.
pub proof fn lemma_bit_of_ops(a: u128, b: u128, p: u128)
    ensures
        bit_of(a ^ b, p) == bit_of(a, p) ^ bit_of(b, p),
        bit_of(a & b, p) == bit_of(a, p) & bit_of(b, p),
        bit_of(a, p) <= 1,
{
    assert(((((a ^ b) >> p) & 1) as u8 == (((a >> p) & 1) as u8) ^ (((b >> p) & 1) as u8))
        && ((((a & b) >> p) & 1) as u8 == (((a >> p) & 1) as u8) & (((b >> p) & 1) as u8))
        && (((a >> p) & 1) as u8) <= 1) by (bit_vector);
}

} // verus!

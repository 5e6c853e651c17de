//! The AES S-box as a Boolean circuit on bit-planes (Boyar, Peralta and
//! Calik), its inverse, and the four NOT gates that the forward circuit
//! leaves to the key schedule.
//!
//! Every gate acts bitwise, so each cell (byte position) of the eight planes
//! goes through the same circuit independently; the laws below are proved on
//! one byte position and carried over to whole planes.

use vstd::prelude::*;
use crate::lane::{Lane, byte_of, bit_of, lemma_byte_of_xor, lemma_byte_of_and, lemma_bit_of_ops, lemma_eq_by_bytes};
use crate::gf::{aes_sbox, aes_inv_sbox, gather8, affine, inv_affine, xtime, mul_sum};

verus! {

/// Plane `k` of the output of the forward S-box circuit (without its four
/// NOT gates) applied to planes `a0..a7`; plane `a0` carries the most
/// significant bit of each cell.
pub open spec fn sub_bytes_plane(k: int, a0: u128, a1: u128, a2: u128, a3: u128, a4: u128, a5: u128, a6: u128, a7: u128) -> u128 {
    let u7 = a0;
    let u6 = a1;
    let u5 = a2;
    let u4 = a3;
    let u3 = a4;
    let u2 = a5;
    let u1 = a6;
    let u0 = a7;
    let y14 = u3 ^ u5;
    let y13 = u0 ^ u6;
    let y12 = y13 ^ y14;
    let t1 = u4 ^ y12;
    let y15 = t1 ^ u5;
    let t2 = y12 & y15;
    let y6 = y15 ^ u7;
    let y20 = t1 ^ u1;
    let y9 = u0 ^ u3;
    let y11 = y20 ^ y9;
    let t12 = y9 & y11;
    let y7 = u7 ^ y11;
    let y8 = u0 ^ u5;
    let t0 = u1 ^ u2;
    let y10 = y15 ^ t0;
    let y17 = y10 ^ y11;
    let t13 = y14 & y17;
    let t14 = t13 ^ t12;
    let y19 = y10 ^ y8;
    let t15 = y8 & y10;
    let t16 = t15 ^ t12;
    let y16 = t0 ^ y11;
    let y21 = y13 ^ y16;
    let t7 = y13 & y16;
    let y18 = u0 ^ y16;
    let y1 = t0 ^ u7;
    let y4 = y1 ^ u3;
    let t5 = y4 & u7;
    let t6 = t5 ^ t2;
    let t18 = t6 ^ t16;
    let t22 = t18 ^ y19;
    let y2 = y1 ^ u0;
    let t10 = y2 & y7;
    let t11 = t10 ^ t7;
    let t20 = t11 ^ t16;
    let t24 = t20 ^ y18;
    let y5 = y1 ^ u6;
    let t8 = y5 & y1;
    let t9 = t8 ^ t7;
    let t19 = t9 ^ t14;
    let t23 = t19 ^ y21;
    let y3 = y5 ^ y8;
    let t3 = y3 & y6;
    let t4 = t3 ^ t2;
    let t17 = t4 ^ y20;
    let t21 = t17 ^ t14;
    let t26 = t21 & t23;
    let t27 = t24 ^ t26;
    let t31 = t22 ^ t26;
    let t25 = t21 ^ t22;
    let t28 = t25 & t27;
    let t29 = t28 ^ t22;
    let z14 = t29 & y2;
    let z5 = t29 & y7;
    let t30 = t23 ^ t24;
    let t32 = t31 & t30;
    let t33 = t32 ^ t24;
    let t35 = t27 ^ t33;
    let t36 = t24 & t35;
    let t38 = t27 ^ t36;
    let t39 = t29 & t38;
    let t40 = t25 ^ t39;
    let t43 = t29 ^ t40;
    let z3 = t43 & y16;
    let tc12 = z3 ^ z5;
    let z12 = t43 & y13;
    let z13 = t40 & y5;
    let z4 = t40 & y1;
    let tc6 = z3 ^ z4;
    let t34 = t23 ^ t33;
    let t37 = t36 ^ t34;
    let t41 = t40 ^ t37;
    let z8 = t41 & y10;
    let z17 = t41 & y8;
    let t44 = t33 ^ t37;
    let z0 = t44 & y15;
    let z9 = t44 & y12;
    let z10 = t37 & y3;
    let z1 = t37 & y6;
    let tc5 = z1 ^ z0;
    let tc11 = tc6 ^ tc5;
    let z11 = t33 & y4;
    let t42 = t29 ^ t33;
    let t45 = t42 ^ t41;
    let z7 = t45 & y17;
    let tc8 = z7 ^ tc6;
    let z16 = t45 & y14;
    let z6 = t42 & y11;
    let tc16 = z6 ^ tc8;
    let z15 = t42 & y9;
    let tc20 = z15 ^ tc16;
    let tc1 = z15 ^ z16;
    let tc2 = z10 ^ tc1;
    let tc21 = tc2 ^ z11;
    let tc3 = z9 ^ tc2;
    let s0 = tc3 ^ tc16;
    let s3 = tc3 ^ tc11;
    let s1 = s3 ^ tc16;
    let tc13 = z13 ^ tc1;
    let z2 = t33 & u7;
    let tc4 = z0 ^ z2;
    let tc7 = z12 ^ tc4;
    let tc9 = z8 ^ tc7;
    let tc10 = tc8 ^ tc9;
    let tc17 = z14 ^ tc10;
    let s5 = tc21 ^ tc17;
    let tc26 = tc17 ^ tc20;
    let s2 = tc26 ^ z17;
    let tc14 = tc4 ^ tc12;
    let tc18 = tc13 ^ tc14;
    let s6 = tc10 ^ tc18;
    let s7 = z12 ^ tc18;
    let s4 = tc14 ^ s3;
    if k == 0 { s7 } else if k == 1 { s6 } else if k == 2 { s5 } else if k == 3 { s4 }
    else if k == 4 { s3 } else if k == 5 { s2 } else if k == 6 { s1 } else { s0 }
}

/// The forward S-box circuit on one byte position of each plane.
pub open spec fn sub_bytes_cell(k: int, a0: u8, a1: u8, a2: u8, a3: u8, a4: u8, a5: u8, a6: u8, a7: u8) -> u8 {
    let u7 = a0;
    let u6 = a1;
    let u5 = a2;
    let u4 = a3;
    let u3 = a4;
    let u2 = a5;
    let u1 = a6;
    let u0 = a7;
    let y14 = u3 ^ u5;
    let y13 = u0 ^ u6;
    let y12 = y13 ^ y14;
    let t1 = u4 ^ y12;
    let y15 = t1 ^ u5;
    let t2 = y12 & y15;
    let y6 = y15 ^ u7;
    let y20 = t1 ^ u1;
    let y9 = u0 ^ u3;
    let y11 = y20 ^ y9;
    let t12 = y9 & y11;
    let y7 = u7 ^ y11;
    let y8 = u0 ^ u5;
    let t0 = u1 ^ u2;
    let y10 = y15 ^ t0;
    let y17 = y10 ^ y11;
    let t13 = y14 & y17;
    let t14 = t13 ^ t12;
    let y19 = y10 ^ y8;
    let t15 = y8 & y10;
    let t16 = t15 ^ t12;
    let y16 = t0 ^ y11;
    let y21 = y13 ^ y16;
    let t7 = y13 & y16;
    let y18 = u0 ^ y16;
    let y1 = t0 ^ u7;
    let y4 = y1 ^ u3;
    let t5 = y4 & u7;
    let t6 = t5 ^ t2;
    let t18 = t6 ^ t16;
    let t22 = t18 ^ y19;
    let y2 = y1 ^ u0;
    let t10 = y2 & y7;
    let t11 = t10 ^ t7;
    let t20 = t11 ^ t16;
    let t24 = t20 ^ y18;
    let y5 = y1 ^ u6;
    let t8 = y5 & y1;
    let t9 = t8 ^ t7;
    let t19 = t9 ^ t14;
    let t23 = t19 ^ y21;
    let y3 = y5 ^ y8;
    let t3 = y3 & y6;
    let t4 = t3 ^ t2;
    let t17 = t4 ^ y20;
    let t21 = t17 ^ t14;
    let t26 = t21 & t23;
    let t27 = t24 ^ t26;
    let t31 = t22 ^ t26;
    let t25 = t21 ^ t22;
    let t28 = t25 & t27;
    let t29 = t28 ^ t22;
    let z14 = t29 & y2;
    let z5 = t29 & y7;
    let t30 = t23 ^ t24;
    let t32 = t31 & t30;
    let t33 = t32 ^ t24;
    let t35 = t27 ^ t33;
    let t36 = t24 & t35;
    let t38 = t27 ^ t36;
    let t39 = t29 & t38;
    let t40 = t25 ^ t39;
    let t43 = t29 ^ t40;
    let z3 = t43 & y16;
    let tc12 = z3 ^ z5;
    let z12 = t43 & y13;
    let z13 = t40 & y5;
    let z4 = t40 & y1;
    let tc6 = z3 ^ z4;
    let t34 = t23 ^ t33;
    let t37 = t36 ^ t34;
    let t41 = t40 ^ t37;
    let z8 = t41 & y10;
    let z17 = t41 & y8;
    let t44 = t33 ^ t37;
    let z0 = t44 & y15;
    let z9 = t44 & y12;
    let z10 = t37 & y3;
    let z1 = t37 & y6;
    let tc5 = z1 ^ z0;
    let tc11 = tc6 ^ tc5;
    let z11 = t33 & y4;
    let t42 = t29 ^ t33;
    let t45 = t42 ^ t41;
    let z7 = t45 & y17;
    let tc8 = z7 ^ tc6;
    let z16 = t45 & y14;
    let z6 = t42 & y11;
    let tc16 = z6 ^ tc8;
    let z15 = t42 & y9;
    let tc20 = z15 ^ tc16;
    let tc1 = z15 ^ z16;
    let tc2 = z10 ^ tc1;
    let tc21 = tc2 ^ z11;
    let tc3 = z9 ^ tc2;
    let s0 = tc3 ^ tc16;
    let s3 = tc3 ^ tc11;
    let s1 = s3 ^ tc16;
    let tc13 = z13 ^ tc1;
    let z2 = t33 & u7;
    let tc4 = z0 ^ z2;
    let tc7 = z12 ^ tc4;
    let tc9 = z8 ^ tc7;
    let tc10 = tc8 ^ tc9;
    let tc17 = z14 ^ tc10;
    let s5 = tc21 ^ tc17;
    let tc26 = tc17 ^ tc20;
    let s2 = tc26 ^ z17;
    let tc14 = tc4 ^ tc12;
    let tc18 = tc13 ^ tc14;
    let s6 = tc10 ^ tc18;
    let s7 = z12 ^ tc18;
    let s4 = tc14 ^ s3;
    if k == 0 { s7 } else if k == 1 { s6 } else if k == 2 { s5 } else if k == 3 { s4 }
    else if k == 4 { s3 } else if k == 5 { s2 } else if k == 6 { s1 } else { s0 }
}

/// The forward S-box circuit applied to an eight-plane state.
#[verifier::opaque]
pub open spec fn sub_bytes_spec(s: Seq<Lane>) -> Seq<Lane> {
    Seq::new(8, |k: int| Lane(sub_bytes_plane(k, s[0].0, s[1].0, s[2].0, s[3].0, s[4].0, s[5].0, s[6].0, s[7].0)))
}

/// Plane `k` of the output of the inverse S-box circuit applied to planes
/// `a0..a7`.
pub open spec fn inv_sub_bytes_plane(k: int, a0: u128, a1: u128, a2: u128, a3: u128, a4: u128, a5: u128, a6: u128, a7: u128) -> u128 {
    let u7 = a0;
    let u6 = a1;
    let u5 = a2;
    let u4 = a3;
    let u3 = a4;
    let u2 = a5;
    let u1 = a6;
    let u0 = a7;
    let t23 = u0 ^ u3;
    let t8 = u1 ^ t23;
    let m2 = t23 & t8;
    let t4 = u4 ^ t8;
    let t22 = u1 ^ u3;
    let t2 = u0 ^ u1;
    let t1 = u3 ^ u4;
    let t9 = u7 ^ t1;
    let m7 = t22 & t9;
    let t24 = u4 ^ u7;
    let t10 = t2 ^ t24;
    let m14 = t2 & t10;
    let r5 = u6 ^ u7;
    let t3 = t1 ^ r5;
    let t13 = t2 ^ r5;
    let t19 = t22 ^ r5;
    let t17 = u2 ^ t19;
    let t25 = u2 ^ t1;
    let r13 = u1 ^ u6;
    let t20 = t24 ^ r13;
    let m9 = t20 & t17;
    let r17 = u2 ^ u5;
    let t6 = t22 ^ r17;
    let m1 = t13 & t6;
    let y5 = u0 ^ r17;
    let m4 = t19 & y5;
    let m5 = m4 ^ m1;
    let m17 = m5 ^ t24;
    let r18 = u5 ^ u6;
    let t27 = t1 ^ r18;
    let t15 = t10 ^ t27;
    let m11 = t1 & t15;
    let m15 = m14 ^ m11;
    let m21 = m17 ^ m15;
    let m12 = t4 & t27;
    let m13 = m12 ^ m11;
    let t14 = t10 ^ r18;
    let m3 = t14 ^ m1;
    let m16 = m3 ^ m2;
    let m20 = m16 ^ m13;
    let r19 = u2 ^ u4;
    let t16 = r13 ^ r19;
    let t26 = t3 ^ t16;
    let m6 = t3 & t16;
    let m8 = t26 ^ m6;
    let m18 = m8 ^ m7;
    let m22 = m18 ^ m13;
    let m25 = m22 & m20;
    let m26 = m21 ^ m25;
    let m10 = m9 ^ m6;
    let m19 = m10 ^ m15;
    let m23 = m19 ^ t25;
    let m28 = m23 ^ m25;
    let m24 = m22 ^ m23;
    let m30 = m26 & m24;
    let m39 = m23 ^ m30;
    let m48 = m39 & y5;
    let m57 = m39 & t19;
    let m36 = m24 ^ m25;
    let m31 = m20 & m23;
    let m27 = m20 ^ m21;
    let m32 = m27 & m31;
    let m29 = m28 & m27;
    let m37 = m21 ^ m29;
    let m42 = m37 ^ m39;
    let m52 = m42 & t15;
    let m61 = m42 & t1;
    let p0 = m52 ^ m61;
    let p16 = m57 ^ m61;
    let m60 = m37 & t20;
    let m51 = m37 & t17;
    let m33 = m27 ^ m25;
    let m38 = m32 ^ m33;
    let m43 = m37 ^ m38;
    let m49 = m43 & t16;
    let p6 = m49 ^ m60;
    let p13 = m49 ^ m51;
    let m58 = m43 & t3;
    let m50 = m38 & t9;
    let m59 = m38 & t22;
    let p1 = m58 ^ m59;
    let p7 = p0 ^ p1;
    let m34 = m21 & m22;
    let m35 = m24 & m34;
    let m40 = m35 ^ m36;
    let m41 = m38 ^ m40;
    let m45 = m42 ^ m41;
    let m53 = m45 & t27;
    let p8 = m50 ^ m53;
    let p23 = p7 ^ p8;
    let m62 = m45 & t4;
    let p14 = m49 ^ m62;
    let s6 = p14 ^ p23;
    let m54 = m41 & t10;
    let p2 = m54 ^ m62;
    let p22 = p2 ^ p7;
    let s0 = p13 ^ p22;
    let p17 = m58 ^ p2;
    let p15 = m54 ^ m59;
    let m63 = m41 & t2;
    let m44 = m39 ^ m40;
    let m46 = m44 & t6;
    let p5 = m46 ^ m51;
    let p18 = m63 ^ p5;
    let p24 = p5 ^ p7;
    let p12 = m46 ^ m48;
    let s3 = p12 ^ p22;
    let m55 = m44 & t13;
    let p9 = m55 ^ m63;
    let s7 = p9 ^ p16;
    let m47 = m40 & t8;
    let p3 = m47 ^ m50;
    let p19 = p2 ^ p3;
    let s5 = p19 ^ p24;
    let p11 = p0 ^ p3;
    let p26 = p9 ^ p11;
    let m56 = m40 & t23;
    let p4 = m48 ^ m56;
    let p20 = p4 ^ p6;
    let p29 = p15 ^ p20;
    let s1 = p26 ^ p29;
    let p10 = m57 ^ p4;
    let p27 = p10 ^ p18;
    let s4 = p23 ^ p27;
    let p25 = p6 ^ p10;
    let p28 = p11 ^ p25;
    let s2 = p17 ^ p28;
    if k == 0 { s7 } else if k == 1 { s6 } else if k == 2 { s5 } else if k == 3 { s4 }
    else if k == 4 { s3 } else if k == 5 { s2 } else if k == 6 { s1 } else { s0 }
}

/// The inverse S-box circuit on one byte position of each plane.
pub open spec fn inv_sub_bytes_cell(k: int, a0: u8, a1: u8, a2: u8, a3: u8, a4: u8, a5: u8, a6: u8, a7: u8) -> u8 {
    let u7 = a0;
    let u6 = a1;
    let u5 = a2;
    let u4 = a3;
    let u3 = a4;
    let u2 = a5;
    let u1 = a6;
    let u0 = a7;
    let t23 = u0 ^ u3;
    let t8 = u1 ^ t23;
    let m2 = t23 & t8;
    let t4 = u4 ^ t8;
    let t22 = u1 ^ u3;
    let t2 = u0 ^ u1;
    let t1 = u3 ^ u4;
    let t9 = u7 ^ t1;
    let m7 = t22 & t9;
    let t24 = u4 ^ u7;
    let t10 = t2 ^ t24;
    let m14 = t2 & t10;
    let r5 = u6 ^ u7;
    let t3 = t1 ^ r5;
    let t13 = t2 ^ r5;
    let t19 = t22 ^ r5;
    let t17 = u2 ^ t19;
    let t25 = u2 ^ t1;
    let r13 = u1 ^ u6;
    let t20 = t24 ^ r13;
    let m9 = t20 & t17;
    let r17 = u2 ^ u5;
    let t6 = t22 ^ r17;
    let m1 = t13 & t6;
    let y5 = u0 ^ r17;
    let m4 = t19 & y5;
    let m5 = m4 ^ m1;
    let m17 = m5 ^ t24;
    let r18 = u5 ^ u6;
    let t27 = t1 ^ r18;
    let t15 = t10 ^ t27;
    let m11 = t1 & t15;
    let m15 = m14 ^ m11;
    let m21 = m17 ^ m15;
    let m12 = t4 & t27;
    let m13 = m12 ^ m11;
    let t14 = t10 ^ r18;
    let m3 = t14 ^ m1;
    let m16 = m3 ^ m2;
    let m20 = m16 ^ m13;
    let r19 = u2 ^ u4;
    let t16 = r13 ^ r19;
    let t26 = t3 ^ t16;
    let m6 = t3 & t16;
    let m8 = t26 ^ m6;
    let m18 = m8 ^ m7;
    let m22 = m18 ^ m13;
    let m25 = m22 & m20;
    let m26 = m21 ^ m25;
    let m10 = m9 ^ m6;
    let m19 = m10 ^ m15;
    let m23 = m19 ^ t25;
    let m28 = m23 ^ m25;
    let m24 = m22 ^ m23;
    let m30 = m26 & m24;
    let m39 = m23 ^ m30;
    let m48 = m39 & y5;
    let m57 = m39 & t19;
    let m36 = m24 ^ m25;
    let m31 = m20 & m23;
    let m27 = m20 ^ m21;
    let m32 = m27 & m31;
    let m29 = m28 & m27;
    let m37 = m21 ^ m29;
    let m42 = m37 ^ m39;
    let m52 = m42 & t15;
    let m61 = m42 & t1;
    let p0 = m52 ^ m61;
    let p16 = m57 ^ m61;
    let m60 = m37 & t20;
    let m51 = m37 & t17;
    let m33 = m27 ^ m25;
    let m38 = m32 ^ m33;
    let m43 = m37 ^ m38;
    let m49 = m43 & t16;
    let p6 = m49 ^ m60;
    let p13 = m49 ^ m51;
    let m58 = m43 & t3;
    let m50 = m38 & t9;
    let m59 = m38 & t22;
    let p1 = m58 ^ m59;
    let p7 = p0 ^ p1;
    let m34 = m21 & m22;
    let m35 = m24 & m34;
    let m40 = m35 ^ m36;
    let m41 = m38 ^ m40;
    let m45 = m42 ^ m41;
    let m53 = m45 & t27;
    let p8 = m50 ^ m53;
    let p23 = p7 ^ p8;
    let m62 = m45 & t4;
    let p14 = m49 ^ m62;
    let s6 = p14 ^ p23;
    let m54 = m41 & t10;
    let p2 = m54 ^ m62;
    let p22 = p2 ^ p7;
    let s0 = p13 ^ p22;
    let p17 = m58 ^ p2;
    let p15 = m54 ^ m59;
    let m63 = m41 & t2;
    let m44 = m39 ^ m40;
    let m46 = m44 & t6;
    let p5 = m46 ^ m51;
    let p18 = m63 ^ p5;
    let p24 = p5 ^ p7;
    let p12 = m46 ^ m48;
    let s3 = p12 ^ p22;
    let m55 = m44 & t13;
    let p9 = m55 ^ m63;
    let s7 = p9 ^ p16;
    let m47 = m40 & t8;
    let p3 = m47 ^ m50;
    let p19 = p2 ^ p3;
    let s5 = p19 ^ p24;
    let p11 = p0 ^ p3;
    let p26 = p9 ^ p11;
    let m56 = m40 & t23;
    let p4 = m48 ^ m56;
    let p20 = p4 ^ p6;
    let p29 = p15 ^ p20;
    let s1 = p26 ^ p29;
    let p10 = m57 ^ p4;
    let p27 = p10 ^ p18;
    let s4 = p23 ^ p27;
    let p25 = p6 ^ p10;
    let p28 = p11 ^ p25;
    let s2 = p17 ^ p28;
    if k == 0 { s7 } else if k == 1 { s6 } else if k == 2 { s5 } else if k == 3 { s4 }
    else if k == 4 { s3 } else if k == 5 { s2 } else if k == 6 { s1 } else { s0 }
}

/// The inverse S-box circuit applied to an eight-plane state.
#[verifier::opaque]
pub open spec fn inv_sub_bytes_spec(s: Seq<Lane>) -> Seq<Lane> {
    Seq::new(8, |k: int| Lane(inv_sub_bytes_plane(k, s[0].0, s[1].0, s[2].0, s[3].0, s[4].0, s[5].0, s[6].0, s[7].0)))
}

/// Bitsliced AES S-box, with the four NOT gates moved to the key schedule.
pub fn sub_bytes(state: &mut [Lane])
    requires
        old(state)@.len() == 8,
    ensures
        final(state)@ == sub_bytes_spec(old(state)@),
        forall|p: u128| p < 128 ==> #[trigger] cell_of(final(state)@, p) == aes_sbox(cell_of(old(state)@, p)) ^ 0x63u8,
{
    proof {
        reveal(sub_bytes_spec);
    }
    let u7: u128 = state[0].0;
    let u6: u128 = state[1].0;
    let u5: u128 = state[2].0;
    let u4: u128 = state[3].0;
    let u3: u128 = state[4].0;
    let u2: u128 = state[5].0;
    let u1: u128 = state[6].0;
    let u0: u128 = state[7].0;
    let y14: u128 = u3 ^ u5;
    let y13: u128 = u0 ^ u6;
    let y12: u128 = y13 ^ y14;
    let t1: u128 = u4 ^ y12;
    let y15: u128 = t1 ^ u5;
    let t2: u128 = y12 & y15;
    let y6: u128 = y15 ^ u7;
    let y20: u128 = t1 ^ u1;
    let y9: u128 = u0 ^ u3;
    let y11: u128 = y20 ^ y9;
    let t12: u128 = y9 & y11;
    let y7: u128 = u7 ^ y11;
    let y8: u128 = u0 ^ u5;
    let t0: u128 = u1 ^ u2;
    let y10: u128 = y15 ^ t0;
    let y17: u128 = y10 ^ y11;
    let t13: u128 = y14 & y17;
    let t14: u128 = t13 ^ t12;
    let y19: u128 = y10 ^ y8;
    let t15: u128 = y8 & y10;
    let t16: u128 = t15 ^ t12;
    let y16: u128 = t0 ^ y11;
    let y21: u128 = y13 ^ y16;
    let t7: u128 = y13 & y16;
    let y18: u128 = u0 ^ y16;
    let y1: u128 = t0 ^ u7;
    let y4: u128 = y1 ^ u3;
    let t5: u128 = y4 & u7;
    let t6: u128 = t5 ^ t2;
    let t18: u128 = t6 ^ t16;
    let t22: u128 = t18 ^ y19;
    let y2: u128 = y1 ^ u0;
    let t10: u128 = y2 & y7;
    let t11: u128 = t10 ^ t7;
    let t20: u128 = t11 ^ t16;
    let t24: u128 = t20 ^ y18;
    let y5: u128 = y1 ^ u6;
    let t8: u128 = y5 & y1;
    let t9: u128 = t8 ^ t7;
    let t19: u128 = t9 ^ t14;
    let t23: u128 = t19 ^ y21;
    let y3: u128 = y5 ^ y8;
    let t3: u128 = y3 & y6;
    let t4: u128 = t3 ^ t2;
    let t17: u128 = t4 ^ y20;
    let t21: u128 = t17 ^ t14;
    let t26: u128 = t21 & t23;
    let t27: u128 = t24 ^ t26;
    let t31: u128 = t22 ^ t26;
    let t25: u128 = t21 ^ t22;
    let t28: u128 = t25 & t27;
    let t29: u128 = t28 ^ t22;
    let z14: u128 = t29 & y2;
    let z5: u128 = t29 & y7;
    let t30: u128 = t23 ^ t24;
    let t32: u128 = t31 & t30;
    let t33: u128 = t32 ^ t24;
    let t35: u128 = t27 ^ t33;
    let t36: u128 = t24 & t35;
    let t38: u128 = t27 ^ t36;
    let t39: u128 = t29 & t38;
    let t40: u128 = t25 ^ t39;
    let t43: u128 = t29 ^ t40;
    let z3: u128 = t43 & y16;
    let tc12: u128 = z3 ^ z5;
    let z12: u128 = t43 & y13;
    let z13: u128 = t40 & y5;
    let z4: u128 = t40 & y1;
    let tc6: u128 = z3 ^ z4;
    let t34: u128 = t23 ^ t33;
    let t37: u128 = t36 ^ t34;
    let t41: u128 = t40 ^ t37;
    let z8: u128 = t41 & y10;
    let z17: u128 = t41 & y8;
    let t44: u128 = t33 ^ t37;
    let z0: u128 = t44 & y15;
    let z9: u128 = t44 & y12;
    let z10: u128 = t37 & y3;
    let z1: u128 = t37 & y6;
    let tc5: u128 = z1 ^ z0;
    let tc11: u128 = tc6 ^ tc5;
    let z11: u128 = t33 & y4;
    let t42: u128 = t29 ^ t33;
    let t45: u128 = t42 ^ t41;
    let z7: u128 = t45 & y17;
    let tc8: u128 = z7 ^ tc6;
    let z16: u128 = t45 & y14;
    let z6: u128 = t42 & y11;
    let tc16: u128 = z6 ^ tc8;
    let z15: u128 = t42 & y9;
    let tc20: u128 = z15 ^ tc16;
    let tc1: u128 = z15 ^ z16;
    let tc2: u128 = z10 ^ tc1;
    let tc21: u128 = tc2 ^ z11;
    let tc3: u128 = z9 ^ tc2;
    let s0: u128 = tc3 ^ tc16;
    let s3: u128 = tc3 ^ tc11;
    let s1: u128 = s3 ^ tc16;
    let tc13: u128 = z13 ^ tc1;
    let z2: u128 = t33 & u7;
    let tc4: u128 = z0 ^ z2;
    let tc7: u128 = z12 ^ tc4;
    let tc9: u128 = z8 ^ tc7;
    let tc10: u128 = tc8 ^ tc9;
    let tc17: u128 = z14 ^ tc10;
    let s5: u128 = tc21 ^ tc17;
    let tc26: u128 = tc17 ^ tc20;
    let s2: u128 = tc26 ^ z17;
    let tc14: u128 = tc4 ^ tc12;
    let tc18: u128 = tc13 ^ tc14;
    let s6: u128 = tc10 ^ tc18;
    let s7: u128 = z12 ^ tc18;
    let s4: u128 = tc14 ^ s3;
    state[0] = Lane(s7);
    state[1] = Lane(s6);
    state[2] = Lane(s5);
    state[3] = Lane(s4);
    state[4] = Lane(s3);
    state[5] = Lane(s2);
    state[6] = Lane(s1);
    state[7] = Lane(s0);
    assert(state@ =~= sub_bytes_spec(old(state)@));
    assert forall|p: u128| p < 128 implies #[trigger] cell_of(state@, p) == aes_sbox(cell_of(old(state)@, p)) ^ 0x63u8 by {
        lemma_sub_bytes_sbox(old(state)@, p);
    }
}

/// Bitsliced inverse AES S-box; the NOT gates are accounted for, so that
/// this is a true inverse of `sub_bytes`.
pub fn inv_sub_bytes(state: &mut [Lane])
    requires
        old(state)@.len() == 8,
    ensures
        final(state)@ == inv_sub_bytes_spec(old(state)@),
        forall|p: u128| p < 128 ==> #[trigger] cell_of(final(state)@, p) == aes_inv_sbox(cell_of(old(state)@, p) ^ 0x63u8),
{
    proof {
        reveal(inv_sub_bytes_spec);
    }
    let u7: u128 = state[0].0;
    let u6: u128 = state[1].0;
    let u5: u128 = state[2].0;
    let u4: u128 = state[3].0;
    let u3: u128 = state[4].0;
    let u2: u128 = state[5].0;
    let u1: u128 = state[6].0;
    let u0: u128 = state[7].0;
    let t23: u128 = u0 ^ u3;
    let t8: u128 = u1 ^ t23;
    let m2: u128 = t23 & t8;
    let t4: u128 = u4 ^ t8;
    let t22: u128 = u1 ^ u3;
    let t2: u128 = u0 ^ u1;
    let t1: u128 = u3 ^ u4;
    let t9: u128 = u7 ^ t1;
    let m7: u128 = t22 & t9;
    let t24: u128 = u4 ^ u7;
    let t10: u128 = t2 ^ t24;
    let m14: u128 = t2 & t10;
    let r5: u128 = u6 ^ u7;
    let t3: u128 = t1 ^ r5;
    let t13: u128 = t2 ^ r5;
    let t19: u128 = t22 ^ r5;
    let t17: u128 = u2 ^ t19;
    let t25: u128 = u2 ^ t1;
    let r13: u128 = u1 ^ u6;
    let t20: u128 = t24 ^ r13;
    let m9: u128 = t20 & t17;
    let r17: u128 = u2 ^ u5;
    let t6: u128 = t22 ^ r17;
    let m1: u128 = t13 & t6;
    let y5: u128 = u0 ^ r17;
    let m4: u128 = t19 & y5;
    let m5: u128 = m4 ^ m1;
    let m17: u128 = m5 ^ t24;
    let r18: u128 = u5 ^ u6;
    let t27: u128 = t1 ^ r18;
    let t15: u128 = t10 ^ t27;
    let m11: u128 = t1 & t15;
    let m15: u128 = m14 ^ m11;
    let m21: u128 = m17 ^ m15;
    let m12: u128 = t4 & t27;
    let m13: u128 = m12 ^ m11;
    let t14: u128 = t10 ^ r18;
    let m3: u128 = t14 ^ m1;
    let m16: u128 = m3 ^ m2;
    let m20: u128 = m16 ^ m13;
    let r19: u128 = u2 ^ u4;
    let t16: u128 = r13 ^ r19;
    let t26: u128 = t3 ^ t16;
    let m6: u128 = t3 & t16;
    let m8: u128 = t26 ^ m6;
    let m18: u128 = m8 ^ m7;
    let m22: u128 = m18 ^ m13;
    let m25: u128 = m22 & m20;
    let m26: u128 = m21 ^ m25;
    let m10: u128 = m9 ^ m6;
    let m19: u128 = m10 ^ m15;
    let m23: u128 = m19 ^ t25;
    let m28: u128 = m23 ^ m25;
    let m24: u128 = m22 ^ m23;
    let m30: u128 = m26 & m24;
    let m39: u128 = m23 ^ m30;
    let m48: u128 = m39 & y5;
    let m57: u128 = m39 & t19;
    let m36: u128 = m24 ^ m25;
    let m31: u128 = m20 & m23;
    let m27: u128 = m20 ^ m21;
    let m32: u128 = m27 & m31;
    let m29: u128 = m28 & m27;
    let m37: u128 = m21 ^ m29;
    let m42: u128 = m37 ^ m39;
    let m52: u128 = m42 & t15;
    let m61: u128 = m42 & t1;
    let p0: u128 = m52 ^ m61;
    let p16: u128 = m57 ^ m61;
    let m60: u128 = m37 & t20;
    let m51: u128 = m37 & t17;
    let m33: u128 = m27 ^ m25;
    let m38: u128 = m32 ^ m33;
    let m43: u128 = m37 ^ m38;
    let m49: u128 = m43 & t16;
    let p6: u128 = m49 ^ m60;
    let p13: u128 = m49 ^ m51;
    let m58: u128 = m43 & t3;
    let m50: u128 = m38 & t9;
    let m59: u128 = m38 & t22;
    let p1: u128 = m58 ^ m59;
    let p7: u128 = p0 ^ p1;
    let m34: u128 = m21 & m22;
    let m35: u128 = m24 & m34;
    let m40: u128 = m35 ^ m36;
    let m41: u128 = m38 ^ m40;
    let m45: u128 = m42 ^ m41;
    let m53: u128 = m45 & t27;
    let p8: u128 = m50 ^ m53;
    let p23: u128 = p7 ^ p8;
    let m62: u128 = m45 & t4;
    let p14: u128 = m49 ^ m62;
    let s6: u128 = p14 ^ p23;
    let m54: u128 = m41 & t10;
    let p2: u128 = m54 ^ m62;
    let p22: u128 = p2 ^ p7;
    let s0: u128 = p13 ^ p22;
    let p17: u128 = m58 ^ p2;
    let p15: u128 = m54 ^ m59;
    let m63: u128 = m41 & t2;
    let m44: u128 = m39 ^ m40;
    let m46: u128 = m44 & t6;
    let p5: u128 = m46 ^ m51;
    let p18: u128 = m63 ^ p5;
    let p24: u128 = p5 ^ p7;
    let p12: u128 = m46 ^ m48;
    let s3: u128 = p12 ^ p22;
    let m55: u128 = m44 & t13;
    let p9: u128 = m55 ^ m63;
    let s7: u128 = p9 ^ p16;
    let m47: u128 = m40 & t8;
    let p3: u128 = m47 ^ m50;
    let p19: u128 = p2 ^ p3;
    let s5: u128 = p19 ^ p24;
    let p11: u128 = p0 ^ p3;
    let p26: u128 = p9 ^ p11;
    let m56: u128 = m40 & t23;
    let p4: u128 = m48 ^ m56;
    let p20: u128 = p4 ^ p6;
    let p29: u128 = p15 ^ p20;
    let s1: u128 = p26 ^ p29;
    let p10: u128 = m57 ^ p4;
    let p27: u128 = p10 ^ p18;
    let s4: u128 = p23 ^ p27;
    let p25: u128 = p6 ^ p10;
    let p28: u128 = p11 ^ p25;
    let s2: u128 = p17 ^ p28;
    state[0] = Lane(s7);
    state[1] = Lane(s6);
    state[2] = Lane(s5);
    state[3] = Lane(s4);
    state[4] = Lane(s3);
    state[5] = Lane(s2);
    state[6] = Lane(s1);
    state[7] = Lane(s0);
    assert(state@ =~= inv_sub_bytes_spec(old(state)@));
    assert forall|p: u128| p < 128 implies #[trigger] cell_of(state@, p) == aes_inv_sbox(cell_of(old(state)@, p) ^ 0x63u8) by {
        lemma_inv_sub_bytes_sbox(old(state)@, p);
    }
}

/// Each byte position of the planes goes through the circuit on its own.
proof fn lemma_sub_bytes_plane_bytes(a0: u128, a1: u128, a2: u128, a3: u128, a4: u128, a5: u128, a6: u128, a7: u128, s: u128)
    ensures
        forall|k: int| 0 <= k < 8 ==> byte_of(#[trigger] sub_bytes_plane(k, a0, a1, a2, a3, a4, a5, a6, a7), s) == sub_bytes_cell(k, byte_of(a0, s), byte_of(a1, s), byte_of(a2, s), byte_of(a3, s), byte_of(a4, s), byte_of(a5, s), byte_of(a6, s), byte_of(a7, s)),
{
    let w_y14: u128 = a4 ^ a2;
    let w_y13: u128 = a7 ^ a1;
    let w_y12: u128 = w_y13 ^ w_y14;
    let w_t1: u128 = a3 ^ w_y12;
    let w_y15: u128 = w_t1 ^ a2;
    let w_t2: u128 = w_y12 & w_y15;
    let w_y6: u128 = w_y15 ^ a0;
    let w_y20: u128 = w_t1 ^ a6;
    let w_y9: u128 = a7 ^ a4;
    let w_y11: u128 = w_y20 ^ w_y9;
    let w_t12: u128 = w_y9 & w_y11;
    let w_y7: u128 = a0 ^ w_y11;
    let w_y8: u128 = a7 ^ a2;
    let w_t0: u128 = a6 ^ a5;
    let w_y10: u128 = w_y15 ^ w_t0;
    let w_y17: u128 = w_y10 ^ w_y11;
    let w_t13: u128 = w_y14 & w_y17;
    let w_t14: u128 = w_t13 ^ w_t12;
    let w_y19: u128 = w_y10 ^ w_y8;
    let w_t15: u128 = w_y8 & w_y10;
    let w_t16: u128 = w_t15 ^ w_t12;
    let w_y16: u128 = w_t0 ^ w_y11;
    let w_y21: u128 = w_y13 ^ w_y16;
    let w_t7: u128 = w_y13 & w_y16;
    let w_y18: u128 = a7 ^ w_y16;
    let w_y1: u128 = w_t0 ^ a0;
    let w_y4: u128 = w_y1 ^ a4;
    let w_t5: u128 = w_y4 & a0;
    let w_t6: u128 = w_t5 ^ w_t2;
    let w_t18: u128 = w_t6 ^ w_t16;
    let w_t22: u128 = w_t18 ^ w_y19;
    let w_y2: u128 = w_y1 ^ a7;
    let w_t10: u128 = w_y2 & w_y7;
    let w_t11: u128 = w_t10 ^ w_t7;
    let w_t20: u128 = w_t11 ^ w_t16;
    let w_t24: u128 = w_t20 ^ w_y18;
    let w_y5: u128 = w_y1 ^ a1;
    let w_t8: u128 = w_y5 & w_y1;
    let w_t9: u128 = w_t8 ^ w_t7;
    let w_t19: u128 = w_t9 ^ w_t14;
    let w_t23: u128 = w_t19 ^ w_y21;
    let w_y3: u128 = w_y5 ^ w_y8;
    let w_t3: u128 = w_y3 & w_y6;
    let w_t4: u128 = w_t3 ^ w_t2;
    let w_t17: u128 = w_t4 ^ w_y20;
    let w_t21: u128 = w_t17 ^ w_t14;
    let w_t26: u128 = w_t21 & w_t23;
    let w_t27: u128 = w_t24 ^ w_t26;
    let w_t31: u128 = w_t22 ^ w_t26;
    let w_t25: u128 = w_t21 ^ w_t22;
    let w_t28: u128 = w_t25 & w_t27;
    let w_t29: u128 = w_t28 ^ w_t22;
    let w_z14: u128 = w_t29 & w_y2;
    let w_z5: u128 = w_t29 & w_y7;
    let w_t30: u128 = w_t23 ^ w_t24;
    let w_t32: u128 = w_t31 & w_t30;
    let w_t33: u128 = w_t32 ^ w_t24;
    let w_t35: u128 = w_t27 ^ w_t33;
    let w_t36: u128 = w_t24 & w_t35;
    let w_t38: u128 = w_t27 ^ w_t36;
    let w_t39: u128 = w_t29 & w_t38;
    let w_t40: u128 = w_t25 ^ w_t39;
    let w_t43: u128 = w_t29 ^ w_t40;
    let w_z3: u128 = w_t43 & w_y16;
    let w_tc12: u128 = w_z3 ^ w_z5;
    let w_z12: u128 = w_t43 & w_y13;
    let w_z13: u128 = w_t40 & w_y5;
    let w_z4: u128 = w_t40 & w_y1;
    let w_tc6: u128 = w_z3 ^ w_z4;
    let w_t34: u128 = w_t23 ^ w_t33;
    let w_t37: u128 = w_t36 ^ w_t34;
    let w_t41: u128 = w_t40 ^ w_t37;
    let w_z8: u128 = w_t41 & w_y10;
    let w_z17: u128 = w_t41 & w_y8;
    let w_t44: u128 = w_t33 ^ w_t37;
    let w_z0: u128 = w_t44 & w_y15;
    let w_z9: u128 = w_t44 & w_y12;
    let w_z10: u128 = w_t37 & w_y3;
    let w_z1: u128 = w_t37 & w_y6;
    let w_tc5: u128 = w_z1 ^ w_z0;
    let w_tc11: u128 = w_tc6 ^ w_tc5;
    let w_z11: u128 = w_t33 & w_y4;
    let w_t42: u128 = w_t29 ^ w_t33;
    let w_t45: u128 = w_t42 ^ w_t41;
    let w_z7: u128 = w_t45 & w_y17;
    let w_tc8: u128 = w_z7 ^ w_tc6;
    let w_z16: u128 = w_t45 & w_y14;
    let w_z6: u128 = w_t42 & w_y11;
    let w_tc16: u128 = w_z6 ^ w_tc8;
    let w_z15: u128 = w_t42 & w_y9;
    let w_tc20: u128 = w_z15 ^ w_tc16;
    let w_tc1: u128 = w_z15 ^ w_z16;
    let w_tc2: u128 = w_z10 ^ w_tc1;
    let w_tc21: u128 = w_tc2 ^ w_z11;
    let w_tc3: u128 = w_z9 ^ w_tc2;
    let w_s0: u128 = w_tc3 ^ w_tc16;
    let w_s3: u128 = w_tc3 ^ w_tc11;
    let w_s1: u128 = w_s3 ^ w_tc16;
    let w_tc13: u128 = w_z13 ^ w_tc1;
    let w_z2: u128 = w_t33 & a0;
    let w_tc4: u128 = w_z0 ^ w_z2;
    let w_tc7: u128 = w_z12 ^ w_tc4;
    let w_tc9: u128 = w_z8 ^ w_tc7;
    let w_tc10: u128 = w_tc8 ^ w_tc9;
    let w_tc17: u128 = w_z14 ^ w_tc10;
    let w_s5: u128 = w_tc21 ^ w_tc17;
    let w_tc26: u128 = w_tc17 ^ w_tc20;
    let w_s2: u128 = w_tc26 ^ w_z17;
    let w_tc14: u128 = w_tc4 ^ w_tc12;
    let w_tc18: u128 = w_tc13 ^ w_tc14;
    let w_s6: u128 = w_tc10 ^ w_tc18;
    let w_s7: u128 = w_z12 ^ w_tc18;
    let w_s4: u128 = w_tc14 ^ w_s3;
    lemma_byte_of_xor(a4, a2, s);
    lemma_byte_of_xor(a7, a1, s);
    lemma_byte_of_xor(w_y13, w_y14, s);
    lemma_byte_of_xor(a3, w_y12, s);
    lemma_byte_of_xor(w_t1, a2, s);
    lemma_byte_of_and(w_y12, w_y15, s);
    lemma_byte_of_xor(w_y15, a0, s);
    lemma_byte_of_xor(w_t1, a6, s);
    lemma_byte_of_xor(a7, a4, s);
    lemma_byte_of_xor(w_y20, w_y9, s);
    lemma_byte_of_and(w_y9, w_y11, s);
    lemma_byte_of_xor(a0, w_y11, s);
    lemma_byte_of_xor(a7, a2, s);
    lemma_byte_of_xor(a6, a5, s);
    lemma_byte_of_xor(w_y15, w_t0, s);
    lemma_byte_of_xor(w_y10, w_y11, s);
    lemma_byte_of_and(w_y14, w_y17, s);
    lemma_byte_of_xor(w_t13, w_t12, s);
    lemma_byte_of_xor(w_y10, w_y8, s);
    lemma_byte_of_and(w_y8, w_y10, s);
    lemma_byte_of_xor(w_t15, w_t12, s);
    lemma_byte_of_xor(w_t0, w_y11, s);
    lemma_byte_of_xor(w_y13, w_y16, s);
    lemma_byte_of_and(w_y13, w_y16, s);
    lemma_byte_of_xor(a7, w_y16, s);
    lemma_byte_of_xor(w_t0, a0, s);
    lemma_byte_of_xor(w_y1, a4, s);
    lemma_byte_of_and(w_y4, a0, s);
    lemma_byte_of_xor(w_t5, w_t2, s);
    lemma_byte_of_xor(w_t6, w_t16, s);
    lemma_byte_of_xor(w_t18, w_y19, s);
    lemma_byte_of_xor(w_y1, a7, s);
    lemma_byte_of_and(w_y2, w_y7, s);
    lemma_byte_of_xor(w_t10, w_t7, s);
    lemma_byte_of_xor(w_t11, w_t16, s);
    lemma_byte_of_xor(w_t20, w_y18, s);
    lemma_byte_of_xor(w_y1, a1, s);
    lemma_byte_of_and(w_y5, w_y1, s);
    lemma_byte_of_xor(w_t8, w_t7, s);
    lemma_byte_of_xor(w_t9, w_t14, s);
    lemma_byte_of_xor(w_t19, w_y21, s);
    lemma_byte_of_xor(w_y5, w_y8, s);
    lemma_byte_of_and(w_y3, w_y6, s);
    lemma_byte_of_xor(w_t3, w_t2, s);
    lemma_byte_of_xor(w_t4, w_y20, s);
    lemma_byte_of_xor(w_t17, w_t14, s);
    lemma_byte_of_and(w_t21, w_t23, s);
    lemma_byte_of_xor(w_t24, w_t26, s);
    lemma_byte_of_xor(w_t22, w_t26, s);
    lemma_byte_of_xor(w_t21, w_t22, s);
    lemma_byte_of_and(w_t25, w_t27, s);
    lemma_byte_of_xor(w_t28, w_t22, s);
    lemma_byte_of_and(w_t29, w_y2, s);
    lemma_byte_of_and(w_t29, w_y7, s);
    lemma_byte_of_xor(w_t23, w_t24, s);
    lemma_byte_of_and(w_t31, w_t30, s);
    lemma_byte_of_xor(w_t32, w_t24, s);
    lemma_byte_of_xor(w_t27, w_t33, s);
    lemma_byte_of_and(w_t24, w_t35, s);
    lemma_byte_of_xor(w_t27, w_t36, s);
    lemma_byte_of_and(w_t29, w_t38, s);
    lemma_byte_of_xor(w_t25, w_t39, s);
    lemma_byte_of_xor(w_t29, w_t40, s);
    lemma_byte_of_and(w_t43, w_y16, s);
    lemma_byte_of_xor(w_z3, w_z5, s);
    lemma_byte_of_and(w_t43, w_y13, s);
    lemma_byte_of_and(w_t40, w_y5, s);
    lemma_byte_of_and(w_t40, w_y1, s);
    lemma_byte_of_xor(w_z3, w_z4, s);
    lemma_byte_of_xor(w_t23, w_t33, s);
    lemma_byte_of_xor(w_t36, w_t34, s);
    lemma_byte_of_xor(w_t40, w_t37, s);
    lemma_byte_of_and(w_t41, w_y10, s);
    lemma_byte_of_and(w_t41, w_y8, s);
    lemma_byte_of_xor(w_t33, w_t37, s);
    lemma_byte_of_and(w_t44, w_y15, s);
    lemma_byte_of_and(w_t44, w_y12, s);
    lemma_byte_of_and(w_t37, w_y3, s);
    lemma_byte_of_and(w_t37, w_y6, s);
    lemma_byte_of_xor(w_z1, w_z0, s);
    lemma_byte_of_xor(w_tc6, w_tc5, s);
    lemma_byte_of_and(w_t33, w_y4, s);
    lemma_byte_of_xor(w_t29, w_t33, s);
    lemma_byte_of_xor(w_t42, w_t41, s);
    lemma_byte_of_and(w_t45, w_y17, s);
    lemma_byte_of_xor(w_z7, w_tc6, s);
    lemma_byte_of_and(w_t45, w_y14, s);
    lemma_byte_of_and(w_t42, w_y11, s);
    lemma_byte_of_xor(w_z6, w_tc8, s);
    lemma_byte_of_and(w_t42, w_y9, s);
    lemma_byte_of_xor(w_z15, w_tc16, s);
    lemma_byte_of_xor(w_z15, w_z16, s);
    lemma_byte_of_xor(w_z10, w_tc1, s);
    lemma_byte_of_xor(w_tc2, w_z11, s);
    lemma_byte_of_xor(w_z9, w_tc2, s);
    lemma_byte_of_xor(w_tc3, w_tc16, s);
    lemma_byte_of_xor(w_tc3, w_tc11, s);
    lemma_byte_of_xor(w_s3, w_tc16, s);
    lemma_byte_of_xor(w_z13, w_tc1, s);
    lemma_byte_of_and(w_t33, a0, s);
    lemma_byte_of_xor(w_z0, w_z2, s);
    lemma_byte_of_xor(w_z12, w_tc4, s);
    lemma_byte_of_xor(w_z8, w_tc7, s);
    lemma_byte_of_xor(w_tc8, w_tc9, s);
    lemma_byte_of_xor(w_z14, w_tc10, s);
    lemma_byte_of_xor(w_tc21, w_tc17, s);
    lemma_byte_of_xor(w_tc17, w_tc20, s);
    lemma_byte_of_xor(w_tc26, w_z17, s);
    lemma_byte_of_xor(w_tc4, w_tc12, s);
    lemma_byte_of_xor(w_tc13, w_tc14, s);
    lemma_byte_of_xor(w_tc10, w_tc18, s);
    lemma_byte_of_xor(w_z12, w_tc18, s);
    lemma_byte_of_xor(w_tc14, w_s3, s);
}

/// Each byte position of the planes goes through the inverse circuit on its own.
proof fn lemma_inv_sub_bytes_plane_bytes(a0: u128, a1: u128, a2: u128, a3: u128, a4: u128, a5: u128, a6: u128, a7: u128, s: u128)
    ensures
        forall|k: int| 0 <= k < 8 ==> byte_of(#[trigger] inv_sub_bytes_plane(k, a0, a1, a2, a3, a4, a5, a6, a7), s) == inv_sub_bytes_cell(k, byte_of(a0, s), byte_of(a1, s), byte_of(a2, s), byte_of(a3, s), byte_of(a4, s), byte_of(a5, s), byte_of(a6, s), byte_of(a7, s)),
{
    let w_t23: u128 = a7 ^ a4;
    let w_t8: u128 = a6 ^ w_t23;
    let w_m2: u128 = w_t23 & w_t8;
    let w_t4: u128 = a3 ^ w_t8;
    let w_t22: u128 = a6 ^ a4;
    let w_t2: u128 = a7 ^ a6;
    let w_t1: u128 = a4 ^ a3;
    let w_t9: u128 = a0 ^ w_t1;
    let w_m7: u128 = w_t22 & w_t9;
    let w_t24: u128 = a3 ^ a0;
    let w_t10: u128 = w_t2 ^ w_t24;
    let w_m14: u128 = w_t2 & w_t10;
    let w_r5: u128 = a1 ^ a0;
    let w_t3: u128 = w_t1 ^ w_r5;
    let w_t13: u128 = w_t2 ^ w_r5;
    let w_t19: u128 = w_t22 ^ w_r5;
    let w_t17: u128 = a5 ^ w_t19;
    let w_t25: u128 = a5 ^ w_t1;
    let w_r13: u128 = a6 ^ a1;
    let w_t20: u128 = w_t24 ^ w_r13;
    let w_m9: u128 = w_t20 & w_t17;
    let w_r17: u128 = a5 ^ a2;
    let w_t6: u128 = w_t22 ^ w_r17;
    let w_m1: u128 = w_t13 & w_t6;
    let w_y5: u128 = a7 ^ w_r17;
    let w_m4: u128 = w_t19 & w_y5;
    let w_m5: u128 = w_m4 ^ w_m1;
    let w_m17: u128 = w_m5 ^ w_t24;
    let w_r18: u128 = a2 ^ a1;
    let w_t27: u128 = w_t1 ^ w_r18;
    let w_t15: u128 = w_t10 ^ w_t27;
    let w_m11: u128 = w_t1 & w_t15;
    let w_m15: u128 = w_m14 ^ w_m11;
    let w_m21: u128 = w_m17 ^ w_m15;
    let w_m12: u128 = w_t4 & w_t27;
    let w_m13: u128 = w_m12 ^ w_m11;
    let w_t14: u128 = w_t10 ^ w_r18;
    let w_m3: u128 = w_t14 ^ w_m1;
    let w_m16: u128 = w_m3 ^ w_m2;
    let w_m20: u128 = w_m16 ^ w_m13;
    let w_r19: u128 = a5 ^ a3;
    let w_t16: u128 = w_r13 ^ w_r19;
    let w_t26: u128 = w_t3 ^ w_t16;
    let w_m6: u128 = w_t3 & w_t16;
    let w_m8: u128 = w_t26 ^ w_m6;
    let w_m18: u128 = w_m8 ^ w_m7;
    let w_m22: u128 = w_m18 ^ w_m13;
    let w_m25: u128 = w_m22 & w_m20;
    let w_m26: u128 = w_m21 ^ w_m25;
    let w_m10: u128 = w_m9 ^ w_m6;
    let w_m19: u128 = w_m10 ^ w_m15;
    let w_m23: u128 = w_m19 ^ w_t25;
    let w_m28: u128 = w_m23 ^ w_m25;
    let w_m24: u128 = w_m22 ^ w_m23;
    let w_m30: u128 = w_m26 & w_m24;
    let w_m39: u128 = w_m23 ^ w_m30;
    let w_m48: u128 = w_m39 & w_y5;
    let w_m57: u128 = w_m39 & w_t19;
    let w_m36: u128 = w_m24 ^ w_m25;
    let w_m31: u128 = w_m20 & w_m23;
    let w_m27: u128 = w_m20 ^ w_m21;
    let w_m32: u128 = w_m27 & w_m31;
    let w_m29: u128 = w_m28 & w_m27;
    let w_m37: u128 = w_m21 ^ w_m29;
    let w_m42: u128 = w_m37 ^ w_m39;
    let w_m52: u128 = w_m42 & w_t15;
    let w_m61: u128 = w_m42 & w_t1;
    let w_p0: u128 = w_m52 ^ w_m61;
    let w_p16: u128 = w_m57 ^ w_m61;
    let w_m60: u128 = w_m37 & w_t20;
    let w_m51: u128 = w_m37 & w_t17;
    let w_m33: u128 = w_m27 ^ w_m25;
    let w_m38: u128 = w_m32 ^ w_m33;
    let w_m43: u128 = w_m37 ^ w_m38;
    let w_m49: u128 = w_m43 & w_t16;
    let w_p6: u128 = w_m49 ^ w_m60;
    let w_p13: u128 = w_m49 ^ w_m51;
    let w_m58: u128 = w_m43 & w_t3;
    let w_m50: u128 = w_m38 & w_t9;
    let w_m59: u128 = w_m38 & w_t22;
    let w_p1: u128 = w_m58 ^ w_m59;
    let w_p7: u128 = w_p0 ^ w_p1;
    let w_m34: u128 = w_m21 & w_m22;
    let w_m35: u128 = w_m24 & w_m34;
    let w_m40: u128 = w_m35 ^ w_m36;
    let w_m41: u128 = w_m38 ^ w_m40;
    let w_m45: u128 = w_m42 ^ w_m41;
    let w_m53: u128 = w_m45 & w_t27;
    let w_p8: u128 = w_m50 ^ w_m53;
    let w_p23: u128 = w_p7 ^ w_p8;
    let w_m62: u128 = w_m45 & w_t4;
    let w_p14: u128 = w_m49 ^ w_m62;
    let w_s6: u128 = w_p14 ^ w_p23;
    let w_m54: u128 = w_m41 & w_t10;
    let w_p2: u128 = w_m54 ^ w_m62;
    let w_p22: u128 = w_p2 ^ w_p7;
    let w_s0: u128 = w_p13 ^ w_p22;
    let w_p17: u128 = w_m58 ^ w_p2;
    let w_p15: u128 = w_m54 ^ w_m59;
    let w_m63: u128 = w_m41 & w_t2;
    let w_m44: u128 = w_m39 ^ w_m40;
    let w_m46: u128 = w_m44 & w_t6;
    let w_p5: u128 = w_m46 ^ w_m51;
    let w_p18: u128 = w_m63 ^ w_p5;
    let w_p24: u128 = w_p5 ^ w_p7;
    let w_p12: u128 = w_m46 ^ w_m48;
    let w_s3: u128 = w_p12 ^ w_p22;
    let w_m55: u128 = w_m44 & w_t13;
    let w_p9: u128 = w_m55 ^ w_m63;
    let w_s7: u128 = w_p9 ^ w_p16;
    let w_m47: u128 = w_m40 & w_t8;
    let w_p3: u128 = w_m47 ^ w_m50;
    let w_p19: u128 = w_p2 ^ w_p3;
    let w_s5: u128 = w_p19 ^ w_p24;
    let w_p11: u128 = w_p0 ^ w_p3;
    let w_p26: u128 = w_p9 ^ w_p11;
    let w_m56: u128 = w_m40 & w_t23;
    let w_p4: u128 = w_m48 ^ w_m56;
    let w_p20: u128 = w_p4 ^ w_p6;
    let w_p29: u128 = w_p15 ^ w_p20;
    let w_s1: u128 = w_p26 ^ w_p29;
    let w_p10: u128 = w_m57 ^ w_p4;
    let w_p27: u128 = w_p10 ^ w_p18;
    let w_s4: u128 = w_p23 ^ w_p27;
    let w_p25: u128 = w_p6 ^ w_p10;
    let w_p28: u128 = w_p11 ^ w_p25;
    let w_s2: u128 = w_p17 ^ w_p28;
    lemma_byte_of_xor(a7, a4, s);
    lemma_byte_of_xor(a6, w_t23, s);
    lemma_byte_of_and(w_t23, w_t8, s);
    lemma_byte_of_xor(a3, w_t8, s);
    lemma_byte_of_xor(a6, a4, s);
    lemma_byte_of_xor(a7, a6, s);
    lemma_byte_of_xor(a4, a3, s);
    lemma_byte_of_xor(a0, w_t1, s);
    lemma_byte_of_and(w_t22, w_t9, s);
    lemma_byte_of_xor(a3, a0, s);
    lemma_byte_of_xor(w_t2, w_t24, s);
    lemma_byte_of_and(w_t2, w_t10, s);
    lemma_byte_of_xor(a1, a0, s);
    lemma_byte_of_xor(w_t1, w_r5, s);
    lemma_byte_of_xor(w_t2, w_r5, s);
    lemma_byte_of_xor(w_t22, w_r5, s);
    lemma_byte_of_xor(a5, w_t19, s);
    lemma_byte_of_xor(a5, w_t1, s);
    lemma_byte_of_xor(a6, a1, s);
    lemma_byte_of_xor(w_t24, w_r13, s);
    lemma_byte_of_and(w_t20, w_t17, s);
    lemma_byte_of_xor(a5, a2, s);
    lemma_byte_of_xor(w_t22, w_r17, s);
    lemma_byte_of_and(w_t13, w_t6, s);
    lemma_byte_of_xor(a7, w_r17, s);
    lemma_byte_of_and(w_t19, w_y5, s);
    lemma_byte_of_xor(w_m4, w_m1, s);
    lemma_byte_of_xor(w_m5, w_t24, s);
    lemma_byte_of_xor(a2, a1, s);
    lemma_byte_of_xor(w_t1, w_r18, s);
    lemma_byte_of_xor(w_t10, w_t27, s);
    lemma_byte_of_and(w_t1, w_t15, s);
    lemma_byte_of_xor(w_m14, w_m11, s);
    lemma_byte_of_xor(w_m17, w_m15, s);
    lemma_byte_of_and(w_t4, w_t27, s);
    lemma_byte_of_xor(w_m12, w_m11, s);
    lemma_byte_of_xor(w_t10, w_r18, s);
    lemma_byte_of_xor(w_t14, w_m1, s);
    lemma_byte_of_xor(w_m3, w_m2, s);
    lemma_byte_of_xor(w_m16, w_m13, s);
    lemma_byte_of_xor(a5, a3, s);
    lemma_byte_of_xor(w_r13, w_r19, s);
    lemma_byte_of_xor(w_t3, w_t16, s);
    lemma_byte_of_and(w_t3, w_t16, s);
    lemma_byte_of_xor(w_t26, w_m6, s);
    lemma_byte_of_xor(w_m8, w_m7, s);
    lemma_byte_of_xor(w_m18, w_m13, s);
    lemma_byte_of_and(w_m22, w_m20, s);
    lemma_byte_of_xor(w_m21, w_m25, s);
    lemma_byte_of_xor(w_m9, w_m6, s);
    lemma_byte_of_xor(w_m10, w_m15, s);
    lemma_byte_of_xor(w_m19, w_t25, s);
    lemma_byte_of_xor(w_m23, w_m25, s);
    lemma_byte_of_xor(w_m22, w_m23, s);
    lemma_byte_of_and(w_m26, w_m24, s);
    lemma_byte_of_xor(w_m23, w_m30, s);
    lemma_byte_of_and(w_m39, w_y5, s);
    lemma_byte_of_and(w_m39, w_t19, s);
    lemma_byte_of_xor(w_m24, w_m25, s);
    lemma_byte_of_and(w_m20, w_m23, s);
    lemma_byte_of_xor(w_m20, w_m21, s);
    lemma_byte_of_and(w_m27, w_m31, s);
    lemma_byte_of_and(w_m28, w_m27, s);
    lemma_byte_of_xor(w_m21, w_m29, s);
    lemma_byte_of_xor(w_m37, w_m39, s);
    lemma_byte_of_and(w_m42, w_t15, s);
    lemma_byte_of_and(w_m42, w_t1, s);
    lemma_byte_of_xor(w_m52, w_m61, s);
    lemma_byte_of_xor(w_m57, w_m61, s);
    lemma_byte_of_and(w_m37, w_t20, s);
    lemma_byte_of_and(w_m37, w_t17, s);
    lemma_byte_of_xor(w_m27, w_m25, s);
    lemma_byte_of_xor(w_m32, w_m33, s);
    lemma_byte_of_xor(w_m37, w_m38, s);
    lemma_byte_of_and(w_m43, w_t16, s);
    lemma_byte_of_xor(w_m49, w_m60, s);
    lemma_byte_of_xor(w_m49, w_m51, s);
    lemma_byte_of_and(w_m43, w_t3, s);
    lemma_byte_of_and(w_m38, w_t9, s);
    lemma_byte_of_and(w_m38, w_t22, s);
    lemma_byte_of_xor(w_m58, w_m59, s);
    lemma_byte_of_xor(w_p0, w_p1, s);
    lemma_byte_of_and(w_m21, w_m22, s);
    lemma_byte_of_and(w_m24, w_m34, s);
    lemma_byte_of_xor(w_m35, w_m36, s);
    lemma_byte_of_xor(w_m38, w_m40, s);
    lemma_byte_of_xor(w_m42, w_m41, s);
    lemma_byte_of_and(w_m45, w_t27, s);
    lemma_byte_of_xor(w_m50, w_m53, s);
    lemma_byte_of_xor(w_p7, w_p8, s);
    lemma_byte_of_and(w_m45, w_t4, s);
    lemma_byte_of_xor(w_m49, w_m62, s);
    lemma_byte_of_xor(w_p14, w_p23, s);
    lemma_byte_of_and(w_m41, w_t10, s);
    lemma_byte_of_xor(w_m54, w_m62, s);
    lemma_byte_of_xor(w_p2, w_p7, s);
    lemma_byte_of_xor(w_p13, w_p22, s);
    lemma_byte_of_xor(w_m58, w_p2, s);
    lemma_byte_of_xor(w_m54, w_m59, s);
    lemma_byte_of_and(w_m41, w_t2, s);
    lemma_byte_of_xor(w_m39, w_m40, s);
    lemma_byte_of_and(w_m44, w_t6, s);
    lemma_byte_of_xor(w_m46, w_m51, s);
    lemma_byte_of_xor(w_m63, w_p5, s);
    lemma_byte_of_xor(w_p5, w_p7, s);
    lemma_byte_of_xor(w_m46, w_m48, s);
    lemma_byte_of_xor(w_p12, w_p22, s);
    lemma_byte_of_and(w_m44, w_t13, s);
    lemma_byte_of_xor(w_m55, w_m63, s);
    lemma_byte_of_xor(w_p9, w_p16, s);
    lemma_byte_of_and(w_m40, w_t8, s);
    lemma_byte_of_xor(w_m47, w_m50, s);
    lemma_byte_of_xor(w_p2, w_p3, s);
    lemma_byte_of_xor(w_p19, w_p24, s);
    lemma_byte_of_xor(w_p0, w_p3, s);
    lemma_byte_of_xor(w_p9, w_p11, s);
    lemma_byte_of_and(w_m40, w_t23, s);
    lemma_byte_of_xor(w_m48, w_m56, s);
    lemma_byte_of_xor(w_p4, w_p6, s);
    lemma_byte_of_xor(w_p15, w_p20, s);
    lemma_byte_of_xor(w_p26, w_p29, s);
    lemma_byte_of_xor(w_m57, w_p4, s);
    lemma_byte_of_xor(w_p10, w_p18, s);
    lemma_byte_of_xor(w_p23, w_p27, s);
    lemma_byte_of_xor(w_p6, w_p10, s);
    lemma_byte_of_xor(w_p11, w_p25, s);
    lemma_byte_of_xor(w_p17, w_p28, s);
}

/// On one byte position, the inverse circuit undoes the forward one.
proof fn lemma_cell_inv_sub_sub(a0: u8, a1: u8, a2: u8, a3: u8, a4: u8, a5: u8, a6: u8, a7: u8)
    ensures
        inv_sub_bytes_cell(0, sub_bytes_cell(0, a0, a1, a2, a3, a4, a5, a6, a7), sub_bytes_cell(1, a0, a1, a2, a3, a4, a5, a6, a7), sub_bytes_cell(2, a0, a1, a2, a3, a4, a5, a6, a7), sub_bytes_cell(3, a0, a1, a2, a3, a4, a5, a6, a7), sub_bytes_cell(4, a0, a1, a2, a3, a4, a5, a6, a7), sub_bytes_cell(5, a0, a1, a2, a3, a4, a5, a6, a7), sub_bytes_cell(6, a0, a1, a2, a3, a4, a5, a6, a7), sub_bytes_cell(7, a0, a1, a2, a3, a4, a5, a6, a7)) == a0,
        inv_sub_bytes_cell(1, sub_bytes_cell(0, a0, a1, a2, a3, a4, a5, a6, a7), sub_bytes_cell(1, a0, a1, a2, a3, a4, a5, a6, a7), sub_bytes_cell(2, a0, a1, a2, a3, a4, a5, a6, a7), sub_bytes_cell(3, a0, a1, a2, a3, a4, a5, a6, a7), sub_bytes_cell(4, a0, a1, a2, a3, a4, a5, a6, a7), sub_bytes_cell(5, a0, a1, a2, a3, a4, a5, a6, a7), sub_bytes_cell(6, a0, a1, a2, a3, a4, a5, a6, a7), sub_bytes_cell(7, a0, a1, a2, a3, a4, a5, a6, a7)) == a1,
        inv_sub_bytes_cell(2, sub_bytes_cell(0, a0, a1, a2, a3, a4, a5, a6, a7), sub_bytes_cell(1, a0, a1, a2, a3, a4, a5, a6, a7), sub_bytes_cell(2, a0, a1, a2, a3, a4, a5, a6, a7), sub_bytes_cell(3, a0, a1, a2, a3, a4, a5, a6, a7), sub_bytes_cell(4, a0, a1, a2, a3, a4, a5, a6, a7), sub_bytes_cell(5, a0, a1, a2, a3, a4, a5, a6, a7), sub_bytes_cell(6, a0, a1, a2, a3, a4, a5, a6, a7), sub_bytes_cell(7, a0, a1, a2, a3, a4, a5, a6, a7)) == a2,
        inv_sub_bytes_cell(3, sub_bytes_cell(0, a0, a1, a2, a3, a4, a5, a6, a7), sub_bytes_cell(1, a0, a1, a2, a3, a4, a5, a6, a7), sub_bytes_cell(2, a0, a1, a2, a3, a4, a5, a6, a7), sub_bytes_cell(3, a0, a1, a2, a3, a4, a5, a6, a7), sub_bytes_cell(4, a0, a1, a2, a3, a4, a5, a6, a7), sub_bytes_cell(5, a0, a1, a2, a3, a4, a5, a6, a7), sub_bytes_cell(6, a0, a1, a2, a3, a4, a5, a6, a7), sub_bytes_cell(7, a0, a1, a2, a3, a4, a5, a6, a7)) == a3,
        inv_sub_bytes_cell(4, sub_bytes_cell(0, a0, a1, a2, a3, a4, a5, a6, a7), sub_bytes_cell(1, a0, a1, a2, a3, a4, a5, a6, a7), sub_bytes_cell(2, a0, a1, a2, a3, a4, a5, a6, a7), sub_bytes_cell(3, a0, a1, a2, a3, a4, a5, a6, a7), sub_bytes_cell(4, a0, a1, a2, a3, a4, a5, a6, a7), sub_bytes_cell(5, a0, a1, a2, a3, a4, a5, a6, a7), sub_bytes_cell(6, a0, a1, a2, a3, a4, a5, a6, a7), sub_bytes_cell(7, a0, a1, a2, a3, a4, a5, a6, a7)) == a4,
        inv_sub_bytes_cell(5, sub_bytes_cell(0, a0, a1, a2, a3, a4, a5, a6, a7), sub_bytes_cell(1, a0, a1, a2, a3, a4, a5, a6, a7), sub_bytes_cell(2, a0, a1, a2, a3, a4, a5, a6, a7), sub_bytes_cell(3, a0, a1, a2, a3, a4, a5, a6, a7), sub_bytes_cell(4, a0, a1, a2, a3, a4, a5, a6, a7), sub_bytes_cell(5, a0, a1, a2, a3, a4, a5, a6, a7), sub_bytes_cell(6, a0, a1, a2, a3, a4, a5, a6, a7), sub_bytes_cell(7, a0, a1, a2, a3, a4, a5, a6, a7)) == a5,
        inv_sub_bytes_cell(6, sub_bytes_cell(0, a0, a1, a2, a3, a4, a5, a6, a7), sub_bytes_cell(1, a0, a1, a2, a3, a4, a5, a6, a7), sub_bytes_cell(2, a0, a1, a2, a3, a4, a5, a6, a7), sub_bytes_cell(3, a0, a1, a2, a3, a4, a5, a6, a7), sub_bytes_cell(4, a0, a1, a2, a3, a4, a5, a6, a7), sub_bytes_cell(5, a0, a1, a2, a3, a4, a5, a6, a7), sub_bytes_cell(6, a0, a1, a2, a3, a4, a5, a6, a7), sub_bytes_cell(7, a0, a1, a2, a3, a4, a5, a6, a7)) == a6,
        inv_sub_bytes_cell(7, sub_bytes_cell(0, a0, a1, a2, a3, a4, a5, a6, a7), sub_bytes_cell(1, a0, a1, a2, a3, a4, a5, a6, a7), sub_bytes_cell(2, a0, a1, a2, a3, a4, a5, a6, a7), sub_bytes_cell(3, a0, a1, a2, a3, a4, a5, a6, a7), sub_bytes_cell(4, a0, a1, a2, a3, a4, a5, a6, a7), sub_bytes_cell(5, a0, a1, a2, a3, a4, a5, a6, a7), sub_bytes_cell(6, a0, a1, a2, a3, a4, a5, a6, a7), sub_bytes_cell(7, a0, a1, a2, a3, a4, a5, a6, a7)) == a7,
{
    let f_y14: u8 = a4 ^ a2;
    let f_y13: u8 = a7 ^ a1;
    let f_y12: u8 = f_y13 ^ f_y14;
    let f_t1: u8 = a3 ^ f_y12;
    let f_y15: u8 = f_t1 ^ a2;
    let f_t2: u8 = f_y12 & f_y15;
    let f_y6: u8 = f_y15 ^ a0;
    let f_y20: u8 = f_t1 ^ a6;
    let f_y9: u8 = a7 ^ a4;
    let f_y11: u8 = f_y20 ^ f_y9;
    let f_t12: u8 = f_y9 & f_y11;
    let f_y7: u8 = a0 ^ f_y11;
    let f_y8: u8 = a7 ^ a2;
    let f_t0: u8 = a6 ^ a5;
    let f_y10: u8 = f_y15 ^ f_t0;
    let f_y17: u8 = f_y10 ^ f_y11;
    let f_t13: u8 = f_y14 & f_y17;
    let f_t14: u8 = f_t13 ^ f_t12;
    let f_y19: u8 = f_y10 ^ f_y8;
    let f_t15: u8 = f_y8 & f_y10;
    let f_t16: u8 = f_t15 ^ f_t12;
    let f_y16: u8 = f_t0 ^ f_y11;
    let f_y21: u8 = f_y13 ^ f_y16;
    let f_t7: u8 = f_y13 & f_y16;
    let f_y18: u8 = a7 ^ f_y16;
    let f_y1: u8 = f_t0 ^ a0;
    let f_y4: u8 = f_y1 ^ a4;
    let f_t5: u8 = f_y4 & a0;
    let f_t6: u8 = f_t5 ^ f_t2;
    let f_t18: u8 = f_t6 ^ f_t16;
    let f_t22: u8 = f_t18 ^ f_y19;
    let f_y2: u8 = f_y1 ^ a7;
    let f_t10: u8 = f_y2 & f_y7;
    let f_t11: u8 = f_t10 ^ f_t7;
    let f_t20: u8 = f_t11 ^ f_t16;
    let f_t24: u8 = f_t20 ^ f_y18;
    let f_y5: u8 = f_y1 ^ a1;
    let f_t8: u8 = f_y5 & f_y1;
    let f_t9: u8 = f_t8 ^ f_t7;
    let f_t19: u8 = f_t9 ^ f_t14;
    let f_t23: u8 = f_t19 ^ f_y21;
    let f_y3: u8 = f_y5 ^ f_y8;
    let f_t3: u8 = f_y3 & f_y6;
    let f_t4: u8 = f_t3 ^ f_t2;
    let f_t17: u8 = f_t4 ^ f_y20;
    let f_t21: u8 = f_t17 ^ f_t14;
    let f_t26: u8 = f_t21 & f_t23;
    let f_t27: u8 = f_t24 ^ f_t26;
    let f_t31: u8 = f_t22 ^ f_t26;
    let f_t25: u8 = f_t21 ^ f_t22;
    let f_t28: u8 = f_t25 & f_t27;
    let f_t29: u8 = f_t28 ^ f_t22;
    let f_z14: u8 = f_t29 & f_y2;
    let f_z5: u8 = f_t29 & f_y7;
    let f_t30: u8 = f_t23 ^ f_t24;
    let f_t32: u8 = f_t31 & f_t30;
    let f_t33: u8 = f_t32 ^ f_t24;
    let f_t35: u8 = f_t27 ^ f_t33;
    let f_t36: u8 = f_t24 & f_t35;
    let f_t38: u8 = f_t27 ^ f_t36;
    let f_t39: u8 = f_t29 & f_t38;
    let f_t40: u8 = f_t25 ^ f_t39;
    let f_t43: u8 = f_t29 ^ f_t40;
    let f_z3: u8 = f_t43 & f_y16;
    let f_tc12: u8 = f_z3 ^ f_z5;
    let f_z12: u8 = f_t43 & f_y13;
    let f_z13: u8 = f_t40 & f_y5;
    let f_z4: u8 = f_t40 & f_y1;
    let f_tc6: u8 = f_z3 ^ f_z4;
    let f_t34: u8 = f_t23 ^ f_t33;
    let f_t37: u8 = f_t36 ^ f_t34;
    let f_t41: u8 = f_t40 ^ f_t37;
    let f_z8: u8 = f_t41 & f_y10;
    let f_z17: u8 = f_t41 & f_y8;
    let f_t44: u8 = f_t33 ^ f_t37;
    let f_z0: u8 = f_t44 & f_y15;
    let f_z9: u8 = f_t44 & f_y12;
    let f_z10: u8 = f_t37 & f_y3;
    let f_z1: u8 = f_t37 & f_y6;
    let f_tc5: u8 = f_z1 ^ f_z0;
    let f_tc11: u8 = f_tc6 ^ f_tc5;
    let f_z11: u8 = f_t33 & f_y4;
    let f_t42: u8 = f_t29 ^ f_t33;
    let f_t45: u8 = f_t42 ^ f_t41;
    let f_z7: u8 = f_t45 & f_y17;
    let f_tc8: u8 = f_z7 ^ f_tc6;
    let f_z16: u8 = f_t45 & f_y14;
    let f_z6: u8 = f_t42 & f_y11;
    let f_tc16: u8 = f_z6 ^ f_tc8;
    let f_z15: u8 = f_t42 & f_y9;
    let f_tc20: u8 = f_z15 ^ f_tc16;
    let f_tc1: u8 = f_z15 ^ f_z16;
    let f_tc2: u8 = f_z10 ^ f_tc1;
    let f_tc21: u8 = f_tc2 ^ f_z11;
    let f_tc3: u8 = f_z9 ^ f_tc2;
    let f_s0: u8 = f_tc3 ^ f_tc16;
    let f_s3: u8 = f_tc3 ^ f_tc11;
    let f_s1: u8 = f_s3 ^ f_tc16;
    let f_tc13: u8 = f_z13 ^ f_tc1;
    let f_z2: u8 = f_t33 & a0;
    let f_tc4: u8 = f_z0 ^ f_z2;
    let f_tc7: u8 = f_z12 ^ f_tc4;
    let f_tc9: u8 = f_z8 ^ f_tc7;
    let f_tc10: u8 = f_tc8 ^ f_tc9;
    let f_tc17: u8 = f_z14 ^ f_tc10;
    let f_s5: u8 = f_tc21 ^ f_tc17;
    let f_tc26: u8 = f_tc17 ^ f_tc20;
    let f_s2: u8 = f_tc26 ^ f_z17;
    let f_tc14: u8 = f_tc4 ^ f_tc12;
    let f_tc18: u8 = f_tc13 ^ f_tc14;
    let f_s6: u8 = f_tc10 ^ f_tc18;
    let f_s7: u8 = f_z12 ^ f_tc18;
    let f_s4: u8 = f_tc14 ^ f_s3;
    let g_t23: u8 = f_s0 ^ f_s3;
    let g_t8: u8 = f_s1 ^ g_t23;
    let g_m2: u8 = g_t23 & g_t8;
    let g_t4: u8 = f_s4 ^ g_t8;
    let g_t22: u8 = f_s1 ^ f_s3;
    let g_t2: u8 = f_s0 ^ f_s1;
    let g_t1: u8 = f_s3 ^ f_s4;
    let g_t9: u8 = f_s7 ^ g_t1;
    let g_m7: u8 = g_t22 & g_t9;
    let g_t24: u8 = f_s4 ^ f_s7;
    let g_t10: u8 = g_t2 ^ g_t24;
    let g_m14: u8 = g_t2 & g_t10;
    let g_r5: u8 = f_s6 ^ f_s7;
    let g_t3: u8 = g_t1 ^ g_r5;
    let g_t13: u8 = g_t2 ^ g_r5;
    let g_t19: u8 = g_t22 ^ g_r5;
    let g_t17: u8 = f_s2 ^ g_t19;
    let g_t25: u8 = f_s2 ^ g_t1;
    let g_r13: u8 = f_s1 ^ f_s6;
    let g_t20: u8 = g_t24 ^ g_r13;
    let g_m9: u8 = g_t20 & g_t17;
    let g_r17: u8 = f_s2 ^ f_s5;
    let g_t6: u8 = g_t22 ^ g_r17;
    let g_m1: u8 = g_t13 & g_t6;
    let g_y5: u8 = f_s0 ^ g_r17;
    let g_m4: u8 = g_t19 & g_y5;
    let g_m5: u8 = g_m4 ^ g_m1;
    let g_m17: u8 = g_m5 ^ g_t24;
    let g_r18: u8 = f_s5 ^ f_s6;
    let g_t27: u8 = g_t1 ^ g_r18;
    let g_t15: u8 = g_t10 ^ g_t27;
    let g_m11: u8 = g_t1 & g_t15;
    let g_m15: u8 = g_m14 ^ g_m11;
    let g_m21: u8 = g_m17 ^ g_m15;
    let g_m12: u8 = g_t4 & g_t27;
    let g_m13: u8 = g_m12 ^ g_m11;
    let g_t14: u8 = g_t10 ^ g_r18;
    let g_m3: u8 = g_t14 ^ g_m1;
    let g_m16: u8 = g_m3 ^ g_m2;
    let g_m20: u8 = g_m16 ^ g_m13;
    let g_r19: u8 = f_s2 ^ f_s4;
    let g_t16: u8 = g_r13 ^ g_r19;
    let g_t26: u8 = g_t3 ^ g_t16;
    let g_m6: u8 = g_t3 & g_t16;
    let g_m8: u8 = g_t26 ^ g_m6;
    let g_m18: u8 = g_m8 ^ g_m7;
    let g_m22: u8 = g_m18 ^ g_m13;
    let g_m25: u8 = g_m22 & g_m20;
    let g_m26: u8 = g_m21 ^ g_m25;
    let g_m10: u8 = g_m9 ^ g_m6;
    let g_m19: u8 = g_m10 ^ g_m15;
    let g_m23: u8 = g_m19 ^ g_t25;
    let g_m28: u8 = g_m23 ^ g_m25;
    let g_m24: u8 = g_m22 ^ g_m23;
    let g_m30: u8 = g_m26 & g_m24;
    let g_m39: u8 = g_m23 ^ g_m30;
    let g_m48: u8 = g_m39 & g_y5;
    let g_m57: u8 = g_m39 & g_t19;
    let g_m36: u8 = g_m24 ^ g_m25;
    let g_m31: u8 = g_m20 & g_m23;
    let g_m27: u8 = g_m20 ^ g_m21;
    let g_m32: u8 = g_m27 & g_m31;
    let g_m29: u8 = g_m28 & g_m27;
    let g_m37: u8 = g_m21 ^ g_m29;
    let g_m42: u8 = g_m37 ^ g_m39;
    let g_m52: u8 = g_m42 & g_t15;
    let g_m61: u8 = g_m42 & g_t1;
    let g_p0: u8 = g_m52 ^ g_m61;
    let g_p16: u8 = g_m57 ^ g_m61;
    let g_m60: u8 = g_m37 & g_t20;
    let g_m51: u8 = g_m37 & g_t17;
    let g_m33: u8 = g_m27 ^ g_m25;
    let g_m38: u8 = g_m32 ^ g_m33;
    let g_m43: u8 = g_m37 ^ g_m38;
    let g_m49: u8 = g_m43 & g_t16;
    let g_p6: u8 = g_m49 ^ g_m60;
    let g_p13: u8 = g_m49 ^ g_m51;
    let g_m58: u8 = g_m43 & g_t3;
    let g_m50: u8 = g_m38 & g_t9;
    let g_m59: u8 = g_m38 & g_t22;
    let g_p1: u8 = g_m58 ^ g_m59;
    let g_p7: u8 = g_p0 ^ g_p1;
    let g_m34: u8 = g_m21 & g_m22;
    let g_m35: u8 = g_m24 & g_m34;
    let g_m40: u8 = g_m35 ^ g_m36;
    let g_m41: u8 = g_m38 ^ g_m40;
    let g_m45: u8 = g_m42 ^ g_m41;
    let g_m53: u8 = g_m45 & g_t27;
    let g_p8: u8 = g_m50 ^ g_m53;
    let g_p23: u8 = g_p7 ^ g_p8;
    let g_m62: u8 = g_m45 & g_t4;
    let g_p14: u8 = g_m49 ^ g_m62;
    let g_s6: u8 = g_p14 ^ g_p23;
    let g_m54: u8 = g_m41 & g_t10;
    let g_p2: u8 = g_m54 ^ g_m62;
    let g_p22: u8 = g_p2 ^ g_p7;
    let g_s0: u8 = g_p13 ^ g_p22;
    let g_p17: u8 = g_m58 ^ g_p2;
    let g_p15: u8 = g_m54 ^ g_m59;
    let g_m63: u8 = g_m41 & g_t2;
    let g_m44: u8 = g_m39 ^ g_m40;
    let g_m46: u8 = g_m44 & g_t6;
    let g_p5: u8 = g_m46 ^ g_m51;
    let g_p18: u8 = g_m63 ^ g_p5;
    let g_p24: u8 = g_p5 ^ g_p7;
    let g_p12: u8 = g_m46 ^ g_m48;
    let g_s3: u8 = g_p12 ^ g_p22;
    let g_m55: u8 = g_m44 & g_t13;
    let g_p9: u8 = g_m55 ^ g_m63;
    let g_s7: u8 = g_p9 ^ g_p16;
    let g_m47: u8 = g_m40 & g_t8;
    let g_p3: u8 = g_m47 ^ g_m50;
    let g_p19: u8 = g_p2 ^ g_p3;
    let g_s5: u8 = g_p19 ^ g_p24;
    let g_p11: u8 = g_p0 ^ g_p3;
    let g_p26: u8 = g_p9 ^ g_p11;
    let g_m56: u8 = g_m40 & g_t23;
    let g_p4: u8 = g_m48 ^ g_m56;
    let g_p20: u8 = g_p4 ^ g_p6;
    let g_p29: u8 = g_p15 ^ g_p20;
    let g_s1: u8 = g_p26 ^ g_p29;
    let g_p10: u8 = g_m57 ^ g_p4;
    let g_p27: u8 = g_p10 ^ g_p18;
    let g_s4: u8 = g_p23 ^ g_p27;
    let g_p25: u8 = g_p6 ^ g_p10;
    let g_p28: u8 = g_p11 ^ g_p25;
    let g_s2: u8 = g_p17 ^ g_p28;
    assert(g_s7 == a0 && g_s6 == a1 && g_s5 == a2 && g_s4 == a3 && g_s3 == a4 && g_s2 == a5 && g_s1 == a6 && g_s0 == a7) by (bit_vector)
        requires
            f_y14 == a4 ^ a2,
            f_y13 == a7 ^ a1,
            f_y12 == f_y13 ^ f_y14,
            f_t1 == a3 ^ f_y12,
            f_y15 == f_t1 ^ a2,
            f_t2 == f_y12 & f_y15,
            f_y6 == f_y15 ^ a0,
            f_y20 == f_t1 ^ a6,
            f_y9 == a7 ^ a4,
            f_y11 == f_y20 ^ f_y9,
            f_t12 == f_y9 & f_y11,
            f_y7 == a0 ^ f_y11,
            f_y8 == a7 ^ a2,
            f_t0 == a6 ^ a5,
            f_y10 == f_y15 ^ f_t0,
            f_y17 == f_y10 ^ f_y11,
            f_t13 == f_y14 & f_y17,
            f_t14 == f_t13 ^ f_t12,
            f_y19 == f_y10 ^ f_y8,
            f_t15 == f_y8 & f_y10,
            f_t16 == f_t15 ^ f_t12,
            f_y16 == f_t0 ^ f_y11,
            f_y21 == f_y13 ^ f_y16,
            f_t7 == f_y13 & f_y16,
            f_y18 == a7 ^ f_y16,
            f_y1 == f_t0 ^ a0,
            f_y4 == f_y1 ^ a4,
            f_t5 == f_y4 & a0,
            f_t6 == f_t5 ^ f_t2,
            f_t18 == f_t6 ^ f_t16,
            f_t22 == f_t18 ^ f_y19,
            f_y2 == f_y1 ^ a7,
            f_t10 == f_y2 & f_y7,
            f_t11 == f_t10 ^ f_t7,
            f_t20 == f_t11 ^ f_t16,
            f_t24 == f_t20 ^ f_y18,
            f_y5 == f_y1 ^ a1,
            f_t8 == f_y5 & f_y1,
            f_t9 == f_t8 ^ f_t7,
            f_t19 == f_t9 ^ f_t14,
            f_t23 == f_t19 ^ f_y21,
            f_y3 == f_y5 ^ f_y8,
            f_t3 == f_y3 & f_y6,
            f_t4 == f_t3 ^ f_t2,
            f_t17 == f_t4 ^ f_y20,
            f_t21 == f_t17 ^ f_t14,
            f_t26 == f_t21 & f_t23,
            f_t27 == f_t24 ^ f_t26,
            f_t31 == f_t22 ^ f_t26,
            f_t25 == f_t21 ^ f_t22,
            f_t28 == f_t25 & f_t27,
            f_t29 == f_t28 ^ f_t22,
            f_z14 == f_t29 & f_y2,
            f_z5 == f_t29 & f_y7,
            f_t30 == f_t23 ^ f_t24,
            f_t32 == f_t31 & f_t30,
            f_t33 == f_t32 ^ f_t24,
            f_t35 == f_t27 ^ f_t33,
            f_t36 == f_t24 & f_t35,
            f_t38 == f_t27 ^ f_t36,
            f_t39 == f_t29 & f_t38,
            f_t40 == f_t25 ^ f_t39,
            f_t43 == f_t29 ^ f_t40,
            f_z3 == f_t43 & f_y16,
            f_tc12 == f_z3 ^ f_z5,
            f_z12 == f_t43 & f_y13,
            f_z13 == f_t40 & f_y5,
            f_z4 == f_t40 & f_y1,
            f_tc6 == f_z3 ^ f_z4,
            f_t34 == f_t23 ^ f_t33,
            f_t37 == f_t36 ^ f_t34,
            f_t41 == f_t40 ^ f_t37,
            f_z8 == f_t41 & f_y10,
            f_z17 == f_t41 & f_y8,
            f_t44 == f_t33 ^ f_t37,
            f_z0 == f_t44 & f_y15,
            f_z9 == f_t44 & f_y12,
            f_z10 == f_t37 & f_y3,
            f_z1 == f_t37 & f_y6,
            f_tc5 == f_z1 ^ f_z0,
            f_tc11 == f_tc6 ^ f_tc5,
            f_z11 == f_t33 & f_y4,
            f_t42 == f_t29 ^ f_t33,
            f_t45 == f_t42 ^ f_t41,
            f_z7 == f_t45 & f_y17,
            f_tc8 == f_z7 ^ f_tc6,
            f_z16 == f_t45 & f_y14,
            f_z6 == f_t42 & f_y11,
            f_tc16 == f_z6 ^ f_tc8,
            f_z15 == f_t42 & f_y9,
            f_tc20 == f_z15 ^ f_tc16,
            f_tc1 == f_z15 ^ f_z16,
            f_tc2 == f_z10 ^ f_tc1,
            f_tc21 == f_tc2 ^ f_z11,
            f_tc3 == f_z9 ^ f_tc2,
            f_s0 == f_tc3 ^ f_tc16,
            f_s3 == f_tc3 ^ f_tc11,
            f_s1 == f_s3 ^ f_tc16,
            f_tc13 == f_z13 ^ f_tc1,
            f_z2 == f_t33 & a0,
            f_tc4 == f_z0 ^ f_z2,
            f_tc7 == f_z12 ^ f_tc4,
            f_tc9 == f_z8 ^ f_tc7,
            f_tc10 == f_tc8 ^ f_tc9,
            f_tc17 == f_z14 ^ f_tc10,
            f_s5 == f_tc21 ^ f_tc17,
            f_tc26 == f_tc17 ^ f_tc20,
            f_s2 == f_tc26 ^ f_z17,
            f_tc14 == f_tc4 ^ f_tc12,
            f_tc18 == f_tc13 ^ f_tc14,
            f_s6 == f_tc10 ^ f_tc18,
            f_s7 == f_z12 ^ f_tc18,
            f_s4 == f_tc14 ^ f_s3,
            g_t23 == f_s0 ^ f_s3,
            g_t8 == f_s1 ^ g_t23,
            g_m2 == g_t23 & g_t8,
            g_t4 == f_s4 ^ g_t8,
            g_t22 == f_s1 ^ f_s3,
            g_t2 == f_s0 ^ f_s1,
            g_t1 == f_s3 ^ f_s4,
            g_t9 == f_s7 ^ g_t1,
            g_m7 == g_t22 & g_t9,
            g_t24 == f_s4 ^ f_s7,
            g_t10 == g_t2 ^ g_t24,
            g_m14 == g_t2 & g_t10,
            g_r5 == f_s6 ^ f_s7,
            g_t3 == g_t1 ^ g_r5,
            g_t13 == g_t2 ^ g_r5,
            g_t19 == g_t22 ^ g_r5,
            g_t17 == f_s2 ^ g_t19,
            g_t25 == f_s2 ^ g_t1,
            g_r13 == f_s1 ^ f_s6,
            g_t20 == g_t24 ^ g_r13,
            g_m9 == g_t20 & g_t17,
            g_r17 == f_s2 ^ f_s5,
            g_t6 == g_t22 ^ g_r17,
            g_m1 == g_t13 & g_t6,
            g_y5 == f_s0 ^ g_r17,
            g_m4 == g_t19 & g_y5,
            g_m5 == g_m4 ^ g_m1,
            g_m17 == g_m5 ^ g_t24,
            g_r18 == f_s5 ^ f_s6,
            g_t27 == g_t1 ^ g_r18,
            g_t15 == g_t10 ^ g_t27,
            g_m11 == g_t1 & g_t15,
            g_m15 == g_m14 ^ g_m11,
            g_m21 == g_m17 ^ g_m15,
            g_m12 == g_t4 & g_t27,
            g_m13 == g_m12 ^ g_m11,
            g_t14 == g_t10 ^ g_r18,
            g_m3 == g_t14 ^ g_m1,
            g_m16 == g_m3 ^ g_m2,
            g_m20 == g_m16 ^ g_m13,
            g_r19 == f_s2 ^ f_s4,
            g_t16 == g_r13 ^ g_r19,
            g_t26 == g_t3 ^ g_t16,
            g_m6 == g_t3 & g_t16,
            g_m8 == g_t26 ^ g_m6,
            g_m18 == g_m8 ^ g_m7,
            g_m22 == g_m18 ^ g_m13,
            g_m25 == g_m22 & g_m20,
            g_m26 == g_m21 ^ g_m25,
            g_m10 == g_m9 ^ g_m6,
            g_m19 == g_m10 ^ g_m15,
            g_m23 == g_m19 ^ g_t25,
            g_m28 == g_m23 ^ g_m25,
            g_m24 == g_m22 ^ g_m23,
            g_m30 == g_m26 & g_m24,
            g_m39 == g_m23 ^ g_m30,
            g_m48 == g_m39 & g_y5,
            g_m57 == g_m39 & g_t19,
            g_m36 == g_m24 ^ g_m25,
            g_m31 == g_m20 & g_m23,
            g_m27 == g_m20 ^ g_m21,
            g_m32 == g_m27 & g_m31,
            g_m29 == g_m28 & g_m27,
            g_m37 == g_m21 ^ g_m29,
            g_m42 == g_m37 ^ g_m39,
            g_m52 == g_m42 & g_t15,
            g_m61 == g_m42 & g_t1,
            g_p0 == g_m52 ^ g_m61,
            g_p16 == g_m57 ^ g_m61,
            g_m60 == g_m37 & g_t20,
            g_m51 == g_m37 & g_t17,
            g_m33 == g_m27 ^ g_m25,
            g_m38 == g_m32 ^ g_m33,
            g_m43 == g_m37 ^ g_m38,
            g_m49 == g_m43 & g_t16,
            g_p6 == g_m49 ^ g_m60,
            g_p13 == g_m49 ^ g_m51,
            g_m58 == g_m43 & g_t3,
            g_m50 == g_m38 & g_t9,
            g_m59 == g_m38 & g_t22,
            g_p1 == g_m58 ^ g_m59,
            g_p7 == g_p0 ^ g_p1,
            g_m34 == g_m21 & g_m22,
            g_m35 == g_m24 & g_m34,
            g_m40 == g_m35 ^ g_m36,
            g_m41 == g_m38 ^ g_m40,
            g_m45 == g_m42 ^ g_m41,
            g_m53 == g_m45 & g_t27,
            g_p8 == g_m50 ^ g_m53,
            g_p23 == g_p7 ^ g_p8,
            g_m62 == g_m45 & g_t4,
            g_p14 == g_m49 ^ g_m62,
            g_s6 == g_p14 ^ g_p23,
            g_m54 == g_m41 & g_t10,
            g_p2 == g_m54 ^ g_m62,
            g_p22 == g_p2 ^ g_p7,
            g_s0 == g_p13 ^ g_p22,
            g_p17 == g_m58 ^ g_p2,
            g_p15 == g_m54 ^ g_m59,
            g_m63 == g_m41 & g_t2,
            g_m44 == g_m39 ^ g_m40,
            g_m46 == g_m44 & g_t6,
            g_p5 == g_m46 ^ g_m51,
            g_p18 == g_m63 ^ g_p5,
            g_p24 == g_p5 ^ g_p7,
            g_p12 == g_m46 ^ g_m48,
            g_s3 == g_p12 ^ g_p22,
            g_m55 == g_m44 & g_t13,
            g_p9 == g_m55 ^ g_m63,
            g_s7 == g_p9 ^ g_p16,
            g_m47 == g_m40 & g_t8,
            g_p3 == g_m47 ^ g_m50,
            g_p19 == g_p2 ^ g_p3,
            g_s5 == g_p19 ^ g_p24,
            g_p11 == g_p0 ^ g_p3,
            g_p26 == g_p9 ^ g_p11,
            g_m56 == g_m40 & g_t23,
            g_p4 == g_m48 ^ g_m56,
            g_p20 == g_p4 ^ g_p6,
            g_p29 == g_p15 ^ g_p20,
            g_s1 == g_p26 ^ g_p29,
            g_p10 == g_m57 ^ g_p4,
            g_p27 == g_p10 ^ g_p18,
            g_s4 == g_p23 ^ g_p27,
            g_p25 == g_p6 ^ g_p10,
            g_p28 == g_p11 ^ g_p25,
            g_s2 == g_p17 ^ g_p28,
    ;
    assert(sub_bytes_cell(0, a0, a1, a2, a3, a4, a5, a6, a7) == f_s7);
    assert(sub_bytes_cell(1, a0, a1, a2, a3, a4, a5, a6, a7) == f_s6);
    assert(sub_bytes_cell(2, a0, a1, a2, a3, a4, a5, a6, a7) == f_s5);
    assert(sub_bytes_cell(3, a0, a1, a2, a3, a4, a5, a6, a7) == f_s4);
    assert(sub_bytes_cell(4, a0, a1, a2, a3, a4, a5, a6, a7) == f_s3);
    assert(sub_bytes_cell(5, a0, a1, a2, a3, a4, a5, a6, a7) == f_s2);
    assert(sub_bytes_cell(6, a0, a1, a2, a3, a4, a5, a6, a7) == f_s1);
    assert(sub_bytes_cell(7, a0, a1, a2, a3, a4, a5, a6, a7) == f_s0);
}

/// On one byte position, the forward circuit undoes the inverse one.
proof fn lemma_cell_sub_inv_sub(a0: u8, a1: u8, a2: u8, a3: u8, a4: u8, a5: u8, a6: u8, a7: u8)
    ensures
        sub_bytes_cell(0, inv_sub_bytes_cell(0, a0, a1, a2, a3, a4, a5, a6, a7), inv_sub_bytes_cell(1, a0, a1, a2, a3, a4, a5, a6, a7), inv_sub_bytes_cell(2, a0, a1, a2, a3, a4, a5, a6, a7), inv_sub_bytes_cell(3, a0, a1, a2, a3, a4, a5, a6, a7), inv_sub_bytes_cell(4, a0, a1, a2, a3, a4, a5, a6, a7), inv_sub_bytes_cell(5, a0, a1, a2, a3, a4, a5, a6, a7), inv_sub_bytes_cell(6, a0, a1, a2, a3, a4, a5, a6, a7), inv_sub_bytes_cell(7, a0, a1, a2, a3, a4, a5, a6, a7)) == a0,
        sub_bytes_cell(1, inv_sub_bytes_cell(0, a0, a1, a2, a3, a4, a5, a6, a7), inv_sub_bytes_cell(1, a0, a1, a2, a3, a4, a5, a6, a7), inv_sub_bytes_cell(2, a0, a1, a2, a3, a4, a5, a6, a7), inv_sub_bytes_cell(3, a0, a1, a2, a3, a4, a5, a6, a7), inv_sub_bytes_cell(4, a0, a1, a2, a3, a4, a5, a6, a7), inv_sub_bytes_cell(5, a0, a1, a2, a3, a4, a5, a6, a7), inv_sub_bytes_cell(6, a0, a1, a2, a3, a4, a5, a6, a7), inv_sub_bytes_cell(7, a0, a1, a2, a3, a4, a5, a6, a7)) == a1,
        sub_bytes_cell(2, inv_sub_bytes_cell(0, a0, a1, a2, a3, a4, a5, a6, a7), inv_sub_bytes_cell(1, a0, a1, a2, a3, a4, a5, a6, a7), inv_sub_bytes_cell(2, a0, a1, a2, a3, a4, a5, a6, a7), inv_sub_bytes_cell(3, a0, a1, a2, a3, a4, a5, a6, a7), inv_sub_bytes_cell(4, a0, a1, a2, a3, a4, a5, a6, a7), inv_sub_bytes_cell(5, a0, a1, a2, a3, a4, a5, a6, a7), inv_sub_bytes_cell(6, a0, a1, a2, a3, a4, a5, a6, a7), inv_sub_bytes_cell(7, a0, a1, a2, a3, a4, a5, a6, a7)) == a2,
        sub_bytes_cell(3, inv_sub_bytes_cell(0, a0, a1, a2, a3, a4, a5, a6, a7), inv_sub_bytes_cell(1, a0, a1, a2, a3, a4, a5, a6, a7), inv_sub_bytes_cell(2, a0, a1, a2, a3, a4, a5, a6, a7), inv_sub_bytes_cell(3, a0, a1, a2, a3, a4, a5, a6, a7), inv_sub_bytes_cell(4, a0, a1, a2, a3, a4, a5, a6, a7), inv_sub_bytes_cell(5, a0, a1, a2, a3, a4, a5, a6, a7), inv_sub_bytes_cell(6, a0, a1, a2, a3, a4, a5, a6, a7), inv_sub_bytes_cell(7, a0, a1, a2, a3, a4, a5, a6, a7)) == a3,
        sub_bytes_cell(4, inv_sub_bytes_cell(0, a0, a1, a2, a3, a4, a5, a6, a7), inv_sub_bytes_cell(1, a0, a1, a2, a3, a4, a5, a6, a7), inv_sub_bytes_cell(2, a0, a1, a2, a3, a4, a5, a6, a7), inv_sub_bytes_cell(3, a0, a1, a2, a3, a4, a5, a6, a7), inv_sub_bytes_cell(4, a0, a1, a2, a3, a4, a5, a6, a7), inv_sub_bytes_cell(5, a0, a1, a2, a3, a4, a5, a6, a7), inv_sub_bytes_cell(6, a0, a1, a2, a3, a4, a5, a6, a7), inv_sub_bytes_cell(7, a0, a1, a2, a3, a4, a5, a6, a7)) == a4,
        sub_bytes_cell(5, inv_sub_bytes_cell(0, a0, a1, a2, a3, a4, a5, a6, a7), inv_sub_bytes_cell(1, a0, a1, a2, a3, a4, a5, a6, a7), inv_sub_bytes_cell(2, a0, a1, a2, a3, a4, a5, a6, a7), inv_sub_bytes_cell(3, a0, a1, a2, a3, a4, a5, a6, a7), inv_sub_bytes_cell(4, a0, a1, a2, a3, a4, a5, a6, a7), inv_sub_bytes_cell(5, a0, a1, a2, a3, a4, a5, a6, a7), inv_sub_bytes_cell(6, a0, a1, a2, a3, a4, a5, a6, a7), inv_sub_bytes_cell(7, a0, a1, a2, a3, a4, a5, a6, a7)) == a5,
        sub_bytes_cell(6, inv_sub_bytes_cell(0, a0, a1, a2, a3, a4, a5, a6, a7), inv_sub_bytes_cell(1, a0, a1, a2, a3, a4, a5, a6, a7), inv_sub_bytes_cell(2, a0, a1, a2, a3, a4, a5, a6, a7), inv_sub_bytes_cell(3, a0, a1, a2, a3, a4, a5, a6, a7), inv_sub_bytes_cell(4, a0, a1, a2, a3, a4, a5, a6, a7), inv_sub_bytes_cell(5, a0, a1, a2, a3, a4, a5, a6, a7), inv_sub_bytes_cell(6, a0, a1, a2, a3, a4, a5, a6, a7), inv_sub_bytes_cell(7, a0, a1, a2, a3, a4, a5, a6, a7)) == a6,
        sub_bytes_cell(7, inv_sub_bytes_cell(0, a0, a1, a2, a3, a4, a5, a6, a7), inv_sub_bytes_cell(1, a0, a1, a2, a3, a4, a5, a6, a7), inv_sub_bytes_cell(2, a0, a1, a2, a3, a4, a5, a6, a7), inv_sub_bytes_cell(3, a0, a1, a2, a3, a4, a5, a6, a7), inv_sub_bytes_cell(4, a0, a1, a2, a3, a4, a5, a6, a7), inv_sub_bytes_cell(5, a0, a1, a2, a3, a4, a5, a6, a7), inv_sub_bytes_cell(6, a0, a1, a2, a3, a4, a5, a6, a7), inv_sub_bytes_cell(7, a0, a1, a2, a3, a4, a5, a6, a7)) == a7,
{
    let f_t23: u8 = a7 ^ a4;
    let f_t8: u8 = a6 ^ f_t23;
    let f_m2: u8 = f_t23 & f_t8;
    let f_t4: u8 = a3 ^ f_t8;
    let f_t22: u8 = a6 ^ a4;
    let f_t2: u8 = a7 ^ a6;
    let f_t1: u8 = a4 ^ a3;
    let f_t9: u8 = a0 ^ f_t1;
    let f_m7: u8 = f_t22 & f_t9;
    let f_t24: u8 = a3 ^ a0;
    let f_t10: u8 = f_t2 ^ f_t24;
    let f_m14: u8 = f_t2 & f_t10;
    let f_r5: u8 = a1 ^ a0;
    let f_t3: u8 = f_t1 ^ f_r5;
    let f_t13: u8 = f_t2 ^ f_r5;
    let f_t19: u8 = f_t22 ^ f_r5;
    let f_t17: u8 = a5 ^ f_t19;
    let f_t25: u8 = a5 ^ f_t1;
    let f_r13: u8 = a6 ^ a1;
    let f_t20: u8 = f_t24 ^ f_r13;
    let f_m9: u8 = f_t20 & f_t17;
    let f_r17: u8 = a5 ^ a2;
    let f_t6: u8 = f_t22 ^ f_r17;
    let f_m1: u8 = f_t13 & f_t6;
    let f_y5: u8 = a7 ^ f_r17;
    let f_m4: u8 = f_t19 & f_y5;
    let f_m5: u8 = f_m4 ^ f_m1;
    let f_m17: u8 = f_m5 ^ f_t24;
    let f_r18: u8 = a2 ^ a1;
    let f_t27: u8 = f_t1 ^ f_r18;
    let f_t15: u8 = f_t10 ^ f_t27;
    let f_m11: u8 = f_t1 & f_t15;
    let f_m15: u8 = f_m14 ^ f_m11;
    let f_m21: u8 = f_m17 ^ f_m15;
    let f_m12: u8 = f_t4 & f_t27;
    let f_m13: u8 = f_m12 ^ f_m11;
    let f_t14: u8 = f_t10 ^ f_r18;
    let f_m3: u8 = f_t14 ^ f_m1;
    let f_m16: u8 = f_m3 ^ f_m2;
    let f_m20: u8 = f_m16 ^ f_m13;
    let f_r19: u8 = a5 ^ a3;
    let f_t16: u8 = f_r13 ^ f_r19;
    let f_t26: u8 = f_t3 ^ f_t16;
    let f_m6: u8 = f_t3 & f_t16;
    let f_m8: u8 = f_t26 ^ f_m6;
    let f_m18: u8 = f_m8 ^ f_m7;
    let f_m22: u8 = f_m18 ^ f_m13;
    let f_m25: u8 = f_m22 & f_m20;
    let f_m26: u8 = f_m21 ^ f_m25;
    let f_m10: u8 = f_m9 ^ f_m6;
    let f_m19: u8 = f_m10 ^ f_m15;
    let f_m23: u8 = f_m19 ^ f_t25;
    let f_m28: u8 = f_m23 ^ f_m25;
    let f_m24: u8 = f_m22 ^ f_m23;
    let f_m30: u8 = f_m26 & f_m24;
    let f_m39: u8 = f_m23 ^ f_m30;
    let f_m48: u8 = f_m39 & f_y5;
    let f_m57: u8 = f_m39 & f_t19;
    let f_m36: u8 = f_m24 ^ f_m25;
    let f_m31: u8 = f_m20 & f_m23;
    let f_m27: u8 = f_m20 ^ f_m21;
    let f_m32: u8 = f_m27 & f_m31;
    let f_m29: u8 = f_m28 & f_m27;
    let f_m37: u8 = f_m21 ^ f_m29;
    let f_m42: u8 = f_m37 ^ f_m39;
    let f_m52: u8 = f_m42 & f_t15;
    let f_m61: u8 = f_m42 & f_t1;
    let f_p0: u8 = f_m52 ^ f_m61;
    let f_p16: u8 = f_m57 ^ f_m61;
    let f_m60: u8 = f_m37 & f_t20;
    let f_m51: u8 = f_m37 & f_t17;
    let f_m33: u8 = f_m27 ^ f_m25;
    let f_m38: u8 = f_m32 ^ f_m33;
    let f_m43: u8 = f_m37 ^ f_m38;
    let f_m49: u8 = f_m43 & f_t16;
    let f_p6: u8 = f_m49 ^ f_m60;
    let f_p13: u8 = f_m49 ^ f_m51;
    let f_m58: u8 = f_m43 & f_t3;
    let f_m50: u8 = f_m38 & f_t9;
    let f_m59: u8 = f_m38 & f_t22;
    let f_p1: u8 = f_m58 ^ f_m59;
    let f_p7: u8 = f_p0 ^ f_p1;
    let f_m34: u8 = f_m21 & f_m22;
    let f_m35: u8 = f_m24 & f_m34;
    let f_m40: u8 = f_m35 ^ f_m36;
    let f_m41: u8 = f_m38 ^ f_m40;
    let f_m45: u8 = f_m42 ^ f_m41;
    let f_m53: u8 = f_m45 & f_t27;
    let f_p8: u8 = f_m50 ^ f_m53;
    let f_p23: u8 = f_p7 ^ f_p8;
    let f_m62: u8 = f_m45 & f_t4;
    let f_p14: u8 = f_m49 ^ f_m62;
    let f_s6: u8 = f_p14 ^ f_p23;
    let f_m54: u8 = f_m41 & f_t10;
    let f_p2: u8 = f_m54 ^ f_m62;
    let f_p22: u8 = f_p2 ^ f_p7;
    let f_s0: u8 = f_p13 ^ f_p22;
    let f_p17: u8 = f_m58 ^ f_p2;
    let f_p15: u8 = f_m54 ^ f_m59;
    let f_m63: u8 = f_m41 & f_t2;
    let f_m44: u8 = f_m39 ^ f_m40;
    let f_m46: u8 = f_m44 & f_t6;
    let f_p5: u8 = f_m46 ^ f_m51;
    let f_p18: u8 = f_m63 ^ f_p5;
    let f_p24: u8 = f_p5 ^ f_p7;
    let f_p12: u8 = f_m46 ^ f_m48;
    let f_s3: u8 = f_p12 ^ f_p22;
    let f_m55: u8 = f_m44 & f_t13;
    let f_p9: u8 = f_m55 ^ f_m63;
    let f_s7: u8 = f_p9 ^ f_p16;
    let f_m47: u8 = f_m40 & f_t8;
    let f_p3: u8 = f_m47 ^ f_m50;
    let f_p19: u8 = f_p2 ^ f_p3;
    let f_s5: u8 = f_p19 ^ f_p24;
    let f_p11: u8 = f_p0 ^ f_p3;
    let f_p26: u8 = f_p9 ^ f_p11;
    let f_m56: u8 = f_m40 & f_t23;
    let f_p4: u8 = f_m48 ^ f_m56;
    let f_p20: u8 = f_p4 ^ f_p6;
    let f_p29: u8 = f_p15 ^ f_p20;
    let f_s1: u8 = f_p26 ^ f_p29;
    let f_p10: u8 = f_m57 ^ f_p4;
    let f_p27: u8 = f_p10 ^ f_p18;
    let f_s4: u8 = f_p23 ^ f_p27;
    let f_p25: u8 = f_p6 ^ f_p10;
    let f_p28: u8 = f_p11 ^ f_p25;
    let f_s2: u8 = f_p17 ^ f_p28;
    let g_y14: u8 = f_s3 ^ f_s5;
    let g_y13: u8 = f_s0 ^ f_s6;
    let g_y12: u8 = g_y13 ^ g_y14;
    let g_t1: u8 = f_s4 ^ g_y12;
    let g_y15: u8 = g_t1 ^ f_s5;
    let g_t2: u8 = g_y12 & g_y15;
    let g_y6: u8 = g_y15 ^ f_s7;
    let g_y20: u8 = g_t1 ^ f_s1;
    let g_y9: u8 = f_s0 ^ f_s3;
    let g_y11: u8 = g_y20 ^ g_y9;
    let g_t12: u8 = g_y9 & g_y11;
    let g_y7: u8 = f_s7 ^ g_y11;
    let g_y8: u8 = f_s0 ^ f_s5;
    let g_t0: u8 = f_s1 ^ f_s2;
    let g_y10: u8 = g_y15 ^ g_t0;
    let g_y17: u8 = g_y10 ^ g_y11;
    let g_t13: u8 = g_y14 & g_y17;
    let g_t14: u8 = g_t13 ^ g_t12;
    let g_y19: u8 = g_y10 ^ g_y8;
    let g_t15: u8 = g_y8 & g_y10;
    let g_t16: u8 = g_t15 ^ g_t12;
    let g_y16: u8 = g_t0 ^ g_y11;
    let g_y21: u8 = g_y13 ^ g_y16;
    let g_t7: u8 = g_y13 & g_y16;
    let g_y18: u8 = f_s0 ^ g_y16;
    let g_y1: u8 = g_t0 ^ f_s7;
    let g_y4: u8 = g_y1 ^ f_s3;
    let g_t5: u8 = g_y4 & f_s7;
    let g_t6: u8 = g_t5 ^ g_t2;
    let g_t18: u8 = g_t6 ^ g_t16;
    let g_t22: u8 = g_t18 ^ g_y19;
    let g_y2: u8 = g_y1 ^ f_s0;
    let g_t10: u8 = g_y2 & g_y7;
    let g_t11: u8 = g_t10 ^ g_t7;
    let g_t20: u8 = g_t11 ^ g_t16;
    let g_t24: u8 = g_t20 ^ g_y18;
    let g_y5: u8 = g_y1 ^ f_s6;
    let g_t8: u8 = g_y5 & g_y1;
    let g_t9: u8 = g_t8 ^ g_t7;
    let g_t19: u8 = g_t9 ^ g_t14;
    let g_t23: u8 = g_t19 ^ g_y21;
    let g_y3: u8 = g_y5 ^ g_y8;
    let g_t3: u8 = g_y3 & g_y6;
    let g_t4: u8 = g_t3 ^ g_t2;
    let g_t17: u8 = g_t4 ^ g_y20;
    let g_t21: u8 = g_t17 ^ g_t14;
    let g_t26: u8 = g_t21 & g_t23;
    let g_t27: u8 = g_t24 ^ g_t26;
    let g_t31: u8 = g_t22 ^ g_t26;
    let g_t25: u8 = g_t21 ^ g_t22;
    let g_t28: u8 = g_t25 & g_t27;
    let g_t29: u8 = g_t28 ^ g_t22;
    let g_z14: u8 = g_t29 & g_y2;
    let g_z5: u8 = g_t29 & g_y7;
    let g_t30: u8 = g_t23 ^ g_t24;
    let g_t32: u8 = g_t31 & g_t30;
    let g_t33: u8 = g_t32 ^ g_t24;
    let g_t35: u8 = g_t27 ^ g_t33;
    let g_t36: u8 = g_t24 & g_t35;
    let g_t38: u8 = g_t27 ^ g_t36;
    let g_t39: u8 = g_t29 & g_t38;
    let g_t40: u8 = g_t25 ^ g_t39;
    let g_t43: u8 = g_t29 ^ g_t40;
    let g_z3: u8 = g_t43 & g_y16;
    let g_tc12: u8 = g_z3 ^ g_z5;
    let g_z12: u8 = g_t43 & g_y13;
    let g_z13: u8 = g_t40 & g_y5;
    let g_z4: u8 = g_t40 & g_y1;
    let g_tc6: u8 = g_z3 ^ g_z4;
    let g_t34: u8 = g_t23 ^ g_t33;
    let g_t37: u8 = g_t36 ^ g_t34;
    let g_t41: u8 = g_t40 ^ g_t37;
    let g_z8: u8 = g_t41 & g_y10;
    let g_z17: u8 = g_t41 & g_y8;
    let g_t44: u8 = g_t33 ^ g_t37;
    let g_z0: u8 = g_t44 & g_y15;
    let g_z9: u8 = g_t44 & g_y12;
    let g_z10: u8 = g_t37 & g_y3;
    let g_z1: u8 = g_t37 & g_y6;
    let g_tc5: u8 = g_z1 ^ g_z0;
    let g_tc11: u8 = g_tc6 ^ g_tc5;
    let g_z11: u8 = g_t33 & g_y4;
    let g_t42: u8 = g_t29 ^ g_t33;
    let g_t45: u8 = g_t42 ^ g_t41;
    let g_z7: u8 = g_t45 & g_y17;
    let g_tc8: u8 = g_z7 ^ g_tc6;
    let g_z16: u8 = g_t45 & g_y14;
    let g_z6: u8 = g_t42 & g_y11;
    let g_tc16: u8 = g_z6 ^ g_tc8;
    let g_z15: u8 = g_t42 & g_y9;
    let g_tc20: u8 = g_z15 ^ g_tc16;
    let g_tc1: u8 = g_z15 ^ g_z16;
    let g_tc2: u8 = g_z10 ^ g_tc1;
    let g_tc21: u8 = g_tc2 ^ g_z11;
    let g_tc3: u8 = g_z9 ^ g_tc2;
    let g_s0: u8 = g_tc3 ^ g_tc16;
    let g_s3: u8 = g_tc3 ^ g_tc11;
    let g_s1: u8 = g_s3 ^ g_tc16;
    let g_tc13: u8 = g_z13 ^ g_tc1;
    let g_z2: u8 = g_t33 & f_s7;
    let g_tc4: u8 = g_z0 ^ g_z2;
    let g_tc7: u8 = g_z12 ^ g_tc4;
    let g_tc9: u8 = g_z8 ^ g_tc7;
    let g_tc10: u8 = g_tc8 ^ g_tc9;
    let g_tc17: u8 = g_z14 ^ g_tc10;
    let g_s5: u8 = g_tc21 ^ g_tc17;
    let g_tc26: u8 = g_tc17 ^ g_tc20;
    let g_s2: u8 = g_tc26 ^ g_z17;
    let g_tc14: u8 = g_tc4 ^ g_tc12;
    let g_tc18: u8 = g_tc13 ^ g_tc14;
    let g_s6: u8 = g_tc10 ^ g_tc18;
    let g_s7: u8 = g_z12 ^ g_tc18;
    let g_s4: u8 = g_tc14 ^ g_s3;
    assert(g_s7 == a0 && g_s6 == a1 && g_s5 == a2 && g_s4 == a3 && g_s3 == a4 && g_s2 == a5 && g_s1 == a6 && g_s0 == a7) by (bit_vector)
        requires
            f_t23 == a7 ^ a4,
            f_t8 == a6 ^ f_t23,
            f_m2 == f_t23 & f_t8,
            f_t4 == a3 ^ f_t8,
            f_t22 == a6 ^ a4,
            f_t2 == a7 ^ a6,
            f_t1 == a4 ^ a3,
            f_t9 == a0 ^ f_t1,
            f_m7 == f_t22 & f_t9,
            f_t24 == a3 ^ a0,
            f_t10 == f_t2 ^ f_t24,
            f_m14 == f_t2 & f_t10,
            f_r5 == a1 ^ a0,
            f_t3 == f_t1 ^ f_r5,
            f_t13 == f_t2 ^ f_r5,
            f_t19 == f_t22 ^ f_r5,
            f_t17 == a5 ^ f_t19,
            f_t25 == a5 ^ f_t1,
            f_r13 == a6 ^ a1,
            f_t20 == f_t24 ^ f_r13,
            f_m9 == f_t20 & f_t17,
            f_r17 == a5 ^ a2,
            f_t6 == f_t22 ^ f_r17,
            f_m1 == f_t13 & f_t6,
            f_y5 == a7 ^ f_r17,
            f_m4 == f_t19 & f_y5,
            f_m5 == f_m4 ^ f_m1,
            f_m17 == f_m5 ^ f_t24,
            f_r18 == a2 ^ a1,
            f_t27 == f_t1 ^ f_r18,
            f_t15 == f_t10 ^ f_t27,
            f_m11 == f_t1 & f_t15,
            f_m15 == f_m14 ^ f_m11,
            f_m21 == f_m17 ^ f_m15,
            f_m12 == f_t4 & f_t27,
            f_m13 == f_m12 ^ f_m11,
            f_t14 == f_t10 ^ f_r18,
            f_m3 == f_t14 ^ f_m1,
            f_m16 == f_m3 ^ f_m2,
            f_m20 == f_m16 ^ f_m13,
            f_r19 == a5 ^ a3,
            f_t16 == f_r13 ^ f_r19,
            f_t26 == f_t3 ^ f_t16,
            f_m6 == f_t3 & f_t16,
            f_m8 == f_t26 ^ f_m6,
            f_m18 == f_m8 ^ f_m7,
            f_m22 == f_m18 ^ f_m13,
            f_m25 == f_m22 & f_m20,
            f_m26 == f_m21 ^ f_m25,
            f_m10 == f_m9 ^ f_m6,
            f_m19 == f_m10 ^ f_m15,
            f_m23 == f_m19 ^ f_t25,
            f_m28 == f_m23 ^ f_m25,
            f_m24 == f_m22 ^ f_m23,
            f_m30 == f_m26 & f_m24,
            f_m39 == f_m23 ^ f_m30,
            f_m48 == f_m39 & f_y5,
            f_m57 == f_m39 & f_t19,
            f_m36 == f_m24 ^ f_m25,
            f_m31 == f_m20 & f_m23,
            f_m27 == f_m20 ^ f_m21,
            f_m32 == f_m27 & f_m31,
            f_m29 == f_m28 & f_m27,
            f_m37 == f_m21 ^ f_m29,
            f_m42 == f_m37 ^ f_m39,
            f_m52 == f_m42 & f_t15,
            f_m61 == f_m42 & f_t1,
            f_p0 == f_m52 ^ f_m61,
            f_p16 == f_m57 ^ f_m61,
            f_m60 == f_m37 & f_t20,
            f_m51 == f_m37 & f_t17,
            f_m33 == f_m27 ^ f_m25,
            f_m38 == f_m32 ^ f_m33,
            f_m43 == f_m37 ^ f_m38,
            f_m49 == f_m43 & f_t16,
            f_p6 == f_m49 ^ f_m60,
            f_p13 == f_m49 ^ f_m51,
            f_m58 == f_m43 & f_t3,
            f_m50 == f_m38 & f_t9,
            f_m59 == f_m38 & f_t22,
            f_p1 == f_m58 ^ f_m59,
            f_p7 == f_p0 ^ f_p1,
            f_m34 == f_m21 & f_m22,
            f_m35 == f_m24 & f_m34,
            f_m40 == f_m35 ^ f_m36,
            f_m41 == f_m38 ^ f_m40,
            f_m45 == f_m42 ^ f_m41,
            f_m53 == f_m45 & f_t27,
            f_p8 == f_m50 ^ f_m53,
            f_p23 == f_p7 ^ f_p8,
            f_m62 == f_m45 & f_t4,
            f_p14 == f_m49 ^ f_m62,
            f_s6 == f_p14 ^ f_p23,
            f_m54 == f_m41 & f_t10,
            f_p2 == f_m54 ^ f_m62,
            f_p22 == f_p2 ^ f_p7,
            f_s0 == f_p13 ^ f_p22,
            f_p17 == f_m58 ^ f_p2,
            f_p15 == f_m54 ^ f_m59,
            f_m63 == f_m41 & f_t2,
            f_m44 == f_m39 ^ f_m40,
            f_m46 == f_m44 & f_t6,
            f_p5 == f_m46 ^ f_m51,
            f_p18 == f_m63 ^ f_p5,
            f_p24 == f_p5 ^ f_p7,
            f_p12 == f_m46 ^ f_m48,
            f_s3 == f_p12 ^ f_p22,
            f_m55 == f_m44 & f_t13,
            f_p9 == f_m55 ^ f_m63,
            f_s7 == f_p9 ^ f_p16,
            f_m47 == f_m40 & f_t8,
            f_p3 == f_m47 ^ f_m50,
            f_p19 == f_p2 ^ f_p3,
            f_s5 == f_p19 ^ f_p24,
            f_p11 == f_p0 ^ f_p3,
            f_p26 == f_p9 ^ f_p11,
            f_m56 == f_m40 & f_t23,
            f_p4 == f_m48 ^ f_m56,
            f_p20 == f_p4 ^ f_p6,
            f_p29 == f_p15 ^ f_p20,
            f_s1 == f_p26 ^ f_p29,
            f_p10 == f_m57 ^ f_p4,
            f_p27 == f_p10 ^ f_p18,
            f_s4 == f_p23 ^ f_p27,
            f_p25 == f_p6 ^ f_p10,
            f_p28 == f_p11 ^ f_p25,
            f_s2 == f_p17 ^ f_p28,
            g_y14 == f_s3 ^ f_s5,
            g_y13 == f_s0 ^ f_s6,
            g_y12 == g_y13 ^ g_y14,
            g_t1 == f_s4 ^ g_y12,
            g_y15 == g_t1 ^ f_s5,
            g_t2 == g_y12 & g_y15,
            g_y6 == g_y15 ^ f_s7,
            g_y20 == g_t1 ^ f_s1,
            g_y9 == f_s0 ^ f_s3,
            g_y11 == g_y20 ^ g_y9,
            g_t12 == g_y9 & g_y11,
            g_y7 == f_s7 ^ g_y11,
            g_y8 == f_s0 ^ f_s5,
            g_t0 == f_s1 ^ f_s2,
            g_y10 == g_y15 ^ g_t0,
            g_y17 == g_y10 ^ g_y11,
            g_t13 == g_y14 & g_y17,
            g_t14 == g_t13 ^ g_t12,
            g_y19 == g_y10 ^ g_y8,
            g_t15 == g_y8 & g_y10,
            g_t16 == g_t15 ^ g_t12,
            g_y16 == g_t0 ^ g_y11,
            g_y21 == g_y13 ^ g_y16,
            g_t7 == g_y13 & g_y16,
            g_y18 == f_s0 ^ g_y16,
            g_y1 == g_t0 ^ f_s7,
            g_y4 == g_y1 ^ f_s3,
            g_t5 == g_y4 & f_s7,
            g_t6 == g_t5 ^ g_t2,
            g_t18 == g_t6 ^ g_t16,
            g_t22 == g_t18 ^ g_y19,
            g_y2 == g_y1 ^ f_s0,
            g_t10 == g_y2 & g_y7,
            g_t11 == g_t10 ^ g_t7,
            g_t20 == g_t11 ^ g_t16,
            g_t24 == g_t20 ^ g_y18,
            g_y5 == g_y1 ^ f_s6,
            g_t8 == g_y5 & g_y1,
            g_t9 == g_t8 ^ g_t7,
            g_t19 == g_t9 ^ g_t14,
            g_t23 == g_t19 ^ g_y21,
            g_y3 == g_y5 ^ g_y8,
            g_t3 == g_y3 & g_y6,
            g_t4 == g_t3 ^ g_t2,
            g_t17 == g_t4 ^ g_y20,
            g_t21 == g_t17 ^ g_t14,
            g_t26 == g_t21 & g_t23,
            g_t27 == g_t24 ^ g_t26,
            g_t31 == g_t22 ^ g_t26,
            g_t25 == g_t21 ^ g_t22,
            g_t28 == g_t25 & g_t27,
            g_t29 == g_t28 ^ g_t22,
            g_z14 == g_t29 & g_y2,
            g_z5 == g_t29 & g_y7,
            g_t30 == g_t23 ^ g_t24,
            g_t32 == g_t31 & g_t30,
            g_t33 == g_t32 ^ g_t24,
            g_t35 == g_t27 ^ g_t33,
            g_t36 == g_t24 & g_t35,
            g_t38 == g_t27 ^ g_t36,
            g_t39 == g_t29 & g_t38,
            g_t40 == g_t25 ^ g_t39,
            g_t43 == g_t29 ^ g_t40,
            g_z3 == g_t43 & g_y16,
            g_tc12 == g_z3 ^ g_z5,
            g_z12 == g_t43 & g_y13,
            g_z13 == g_t40 & g_y5,
            g_z4 == g_t40 & g_y1,
            g_tc6 == g_z3 ^ g_z4,
            g_t34 == g_t23 ^ g_t33,
            g_t37 == g_t36 ^ g_t34,
            g_t41 == g_t40 ^ g_t37,
            g_z8 == g_t41 & g_y10,
            g_z17 == g_t41 & g_y8,
            g_t44 == g_t33 ^ g_t37,
            g_z0 == g_t44 & g_y15,
            g_z9 == g_t44 & g_y12,
            g_z10 == g_t37 & g_y3,
            g_z1 == g_t37 & g_y6,
            g_tc5 == g_z1 ^ g_z0,
            g_tc11 == g_tc6 ^ g_tc5,
            g_z11 == g_t33 & g_y4,
            g_t42 == g_t29 ^ g_t33,
            g_t45 == g_t42 ^ g_t41,
            g_z7 == g_t45 & g_y17,
            g_tc8 == g_z7 ^ g_tc6,
            g_z16 == g_t45 & g_y14,
            g_z6 == g_t42 & g_y11,
            g_tc16 == g_z6 ^ g_tc8,
            g_z15 == g_t42 & g_y9,
            g_tc20 == g_z15 ^ g_tc16,
            g_tc1 == g_z15 ^ g_z16,
            g_tc2 == g_z10 ^ g_tc1,
            g_tc21 == g_tc2 ^ g_z11,
            g_tc3 == g_z9 ^ g_tc2,
            g_s0 == g_tc3 ^ g_tc16,
            g_s3 == g_tc3 ^ g_tc11,
            g_s1 == g_s3 ^ g_tc16,
            g_tc13 == g_z13 ^ g_tc1,
            g_z2 == g_t33 & f_s7,
            g_tc4 == g_z0 ^ g_z2,
            g_tc7 == g_z12 ^ g_tc4,
            g_tc9 == g_z8 ^ g_tc7,
            g_tc10 == g_tc8 ^ g_tc9,
            g_tc17 == g_z14 ^ g_tc10,
            g_s5 == g_tc21 ^ g_tc17,
            g_tc26 == g_tc17 ^ g_tc20,
            g_s2 == g_tc26 ^ g_z17,
            g_tc14 == g_tc4 ^ g_tc12,
            g_tc18 == g_tc13 ^ g_tc14,
            g_s6 == g_tc10 ^ g_tc18,
            g_s7 == g_z12 ^ g_tc18,
            g_s4 == g_tc14 ^ g_s3,
    ;
    assert(inv_sub_bytes_cell(0, a0, a1, a2, a3, a4, a5, a6, a7) == f_s7);
    assert(inv_sub_bytes_cell(1, a0, a1, a2, a3, a4, a5, a6, a7) == f_s6);
    assert(inv_sub_bytes_cell(2, a0, a1, a2, a3, a4, a5, a6, a7) == f_s5);
    assert(inv_sub_bytes_cell(3, a0, a1, a2, a3, a4, a5, a6, a7) == f_s4);
    assert(inv_sub_bytes_cell(4, a0, a1, a2, a3, a4, a5, a6, a7) == f_s3);
    assert(inv_sub_bytes_cell(5, a0, a1, a2, a3, a4, a5, a6, a7) == f_s2);
    assert(inv_sub_bytes_cell(6, a0, a1, a2, a3, a4, a5, a6, a7) == f_s1);
    assert(inv_sub_bytes_cell(7, a0, a1, a2, a3, a4, a5, a6, a7) == f_s0);
}

/// `inv_sub_bytes` undoes `sub_bytes`.
pub proof fn lemma_inv_sub_bytes_sub_bytes(s: Seq<Lane>)
    requires
        s.len() == 8,
    ensures
        inv_sub_bytes_spec(sub_bytes_spec(s)) == s,
{
    reveal(sub_bytes_spec);
    reveal(inv_sub_bytes_spec);
    let t = sub_bytes_spec(s);
    let r = inv_sub_bytes_spec(t);
    assert forall|i: int| 0 <= i < 8 implies r[i] == s[i] by {
        assert forall|sh: u128| byte_of(r[i].0, sh) == byte_of(s[i].0, sh) by {
            lemma_sub_bytes_plane_bytes(s[0].0, s[1].0, s[2].0, s[3].0, s[4].0, s[5].0, s[6].0, s[7].0, sh);
            lemma_inv_sub_bytes_plane_bytes(t[0].0, t[1].0, t[2].0, t[3].0, t[4].0, t[5].0, t[6].0, t[7].0, sh);
            lemma_cell_inv_sub_sub(byte_of(s[0].0, sh), byte_of(s[1].0, sh), byte_of(s[2].0, sh), byte_of(s[3].0, sh), byte_of(s[4].0, sh), byte_of(s[5].0, sh), byte_of(s[6].0, sh), byte_of(s[7].0, sh));
            assert(t[0].0 == sub_bytes_plane(0, s[0].0, s[1].0, s[2].0, s[3].0, s[4].0, s[5].0, s[6].0, s[7].0));
        }
        lemma_eq_by_bytes(r[i].0, s[i].0);
    }
    assert(r =~= s);
}

/// `sub_bytes` undoes `inv_sub_bytes`: the circuit is a bijection on planes.
pub proof fn lemma_sub_bytes_inv_sub_bytes(s: Seq<Lane>)
    requires
        s.len() == 8,
    ensures
        sub_bytes_spec(inv_sub_bytes_spec(s)) == s,
{
    reveal(sub_bytes_spec);
    reveal(inv_sub_bytes_spec);
    let t = inv_sub_bytes_spec(s);
    let r = sub_bytes_spec(t);
    assert forall|i: int| 0 <= i < 8 implies r[i] == s[i] by {
        assert forall|sh: u128| byte_of(r[i].0, sh) == byte_of(s[i].0, sh) by {
            lemma_inv_sub_bytes_plane_bytes(s[0].0, s[1].0, s[2].0, s[3].0, s[4].0, s[5].0, s[6].0, s[7].0, sh);
            lemma_sub_bytes_plane_bytes(t[0].0, t[1].0, t[2].0, t[3].0, t[4].0, t[5].0, t[6].0, t[7].0, sh);
            lemma_cell_sub_inv_sub(byte_of(s[0].0, sh), byte_of(s[1].0, sh), byte_of(s[2].0, sh), byte_of(s[3].0, sh), byte_of(s[4].0, sh), byte_of(s[5].0, sh), byte_of(s[6].0, sh), byte_of(s[7].0, sh));
            assert(t[0].0 == inv_sub_bytes_plane(0, s[0].0, s[1].0, s[2].0, s[3].0, s[4].0, s[5].0, s[6].0, s[7].0));
        }
        lemma_eq_by_bytes(r[i].0, s[i].0);
    }
    assert(r =~= s);
}

/// The four NOT gates that `sub_bytes` leaves out, on planes 0, 1, 5 and 6
/// (the bits of the constant 0x63).
pub open spec fn sub_bytes_nots_spec(s: Seq<Lane>) -> Seq<Lane> {
    Seq::new(
        s.len(),
        |i: int|
            if i == 0 || i == 1 || i == 5 || i == 6 {
                Lane(s[i].0 ^ u128::MAX)
            } else {
                s[i]
            },
    )
}

/// Applies the NOT gates that are omitted in `sub_bytes`.
pub fn sub_bytes_nots(state: &mut [Lane])
    requires
        old(state)@.len() == 8,
    ensures
        final(state)@ == sub_bytes_nots_spec(old(state)@),
{
    let ones = Lane::all_ones();
    state[0] = Lane(state[0].0 ^ ones.0);
    state[1] = Lane(state[1].0 ^ ones.0);
    state[5] = Lane(state[5].0 ^ ones.0);
    state[6] = Lane(state[6].0 ^ ones.0);
    assert(state@ =~= sub_bytes_nots_spec(old(state)@));
}

/// The NOT gates undo themselves.
pub proof fn lemma_sub_bytes_nots_involution(s: Seq<Lane>)
    ensures
        sub_bytes_nots_spec(sub_bytes_nots_spec(s)) == s,
{
    assert forall|i: int| 0 <= i < s.len() implies sub_bytes_nots_spec(sub_bytes_nots_spec(s))[i] == s[i] by {
        let x = s[i].0;
        assert(x ^ u128::MAX ^ u128::MAX == x) by (bit_vector);
    }
    assert(sub_bytes_nots_spec(sub_bytes_nots_spec(s)) =~= s);
}


/// Each bit position of the planes goes through the circuit on its own.
proof fn lemma_sub_bytes_plane_bits(a0: u128, a1: u128, a2: u128, a3: u128, a4: u128, a5: u128, a6: u128, a7: u128, p: u128)
    ensures
        forall|k: int| 0 <= k < 8 ==> bit_of(#[trigger] sub_bytes_plane(k, a0, a1, a2, a3, a4, a5, a6, a7), p) == sub_bytes_cell(k, bit_of(a0, p), bit_of(a1, p), bit_of(a2, p), bit_of(a3, p), bit_of(a4, p), bit_of(a5, p), bit_of(a6, p), bit_of(a7, p)),
{
    let w_y14: u128 = a4 ^ a2;
    let w_y13: u128 = a7 ^ a1;
    let w_y12: u128 = w_y13 ^ w_y14;
    let w_t1: u128 = a3 ^ w_y12;
    let w_y15: u128 = w_t1 ^ a2;
    let w_t2: u128 = w_y12 & w_y15;
    let w_y6: u128 = w_y15 ^ a0;
    let w_y20: u128 = w_t1 ^ a6;
    let w_y9: u128 = a7 ^ a4;
    let w_y11: u128 = w_y20 ^ w_y9;
    let w_t12: u128 = w_y9 & w_y11;
    let w_y7: u128 = a0 ^ w_y11;
    let w_y8: u128 = a7 ^ a2;
    let w_t0: u128 = a6 ^ a5;
    let w_y10: u128 = w_y15 ^ w_t0;
    let w_y17: u128 = w_y10 ^ w_y11;
    let w_t13: u128 = w_y14 & w_y17;
    let w_t14: u128 = w_t13 ^ w_t12;
    let w_y19: u128 = w_y10 ^ w_y8;
    let w_t15: u128 = w_y8 & w_y10;
    let w_t16: u128 = w_t15 ^ w_t12;
    let w_y16: u128 = w_t0 ^ w_y11;
    let w_y21: u128 = w_y13 ^ w_y16;
    let w_t7: u128 = w_y13 & w_y16;
    let w_y18: u128 = a7 ^ w_y16;
    let w_y1: u128 = w_t0 ^ a0;
    let w_y4: u128 = w_y1 ^ a4;
    let w_t5: u128 = w_y4 & a0;
    let w_t6: u128 = w_t5 ^ w_t2;
    let w_t18: u128 = w_t6 ^ w_t16;
    let w_t22: u128 = w_t18 ^ w_y19;
    let w_y2: u128 = w_y1 ^ a7;
    let w_t10: u128 = w_y2 & w_y7;
    let w_t11: u128 = w_t10 ^ w_t7;
    let w_t20: u128 = w_t11 ^ w_t16;
    let w_t24: u128 = w_t20 ^ w_y18;
    let w_y5: u128 = w_y1 ^ a1;
    let w_t8: u128 = w_y5 & w_y1;
    let w_t9: u128 = w_t8 ^ w_t7;
    let w_t19: u128 = w_t9 ^ w_t14;
    let w_t23: u128 = w_t19 ^ w_y21;
    let w_y3: u128 = w_y5 ^ w_y8;
    let w_t3: u128 = w_y3 & w_y6;
    let w_t4: u128 = w_t3 ^ w_t2;
    let w_t17: u128 = w_t4 ^ w_y20;
    let w_t21: u128 = w_t17 ^ w_t14;
    let w_t26: u128 = w_t21 & w_t23;
    let w_t27: u128 = w_t24 ^ w_t26;
    let w_t31: u128 = w_t22 ^ w_t26;
    let w_t25: u128 = w_t21 ^ w_t22;
    let w_t28: u128 = w_t25 & w_t27;
    let w_t29: u128 = w_t28 ^ w_t22;
    let w_z14: u128 = w_t29 & w_y2;
    let w_z5: u128 = w_t29 & w_y7;
    let w_t30: u128 = w_t23 ^ w_t24;
    let w_t32: u128 = w_t31 & w_t30;
    let w_t33: u128 = w_t32 ^ w_t24;
    let w_t35: u128 = w_t27 ^ w_t33;
    let w_t36: u128 = w_t24 & w_t35;
    let w_t38: u128 = w_t27 ^ w_t36;
    let w_t39: u128 = w_t29 & w_t38;
    let w_t40: u128 = w_t25 ^ w_t39;
    let w_t43: u128 = w_t29 ^ w_t40;
    let w_z3: u128 = w_t43 & w_y16;
    let w_tc12: u128 = w_z3 ^ w_z5;
    let w_z12: u128 = w_t43 & w_y13;
    let w_z13: u128 = w_t40 & w_y5;
    let w_z4: u128 = w_t40 & w_y1;
    let w_tc6: u128 = w_z3 ^ w_z4;
    let w_t34: u128 = w_t23 ^ w_t33;
    let w_t37: u128 = w_t36 ^ w_t34;
    let w_t41: u128 = w_t40 ^ w_t37;
    let w_z8: u128 = w_t41 & w_y10;
    let w_z17: u128 = w_t41 & w_y8;
    let w_t44: u128 = w_t33 ^ w_t37;
    let w_z0: u128 = w_t44 & w_y15;
    let w_z9: u128 = w_t44 & w_y12;
    let w_z10: u128 = w_t37 & w_y3;
    let w_z1: u128 = w_t37 & w_y6;
    let w_tc5: u128 = w_z1 ^ w_z0;
    let w_tc11: u128 = w_tc6 ^ w_tc5;
    let w_z11: u128 = w_t33 & w_y4;
    let w_t42: u128 = w_t29 ^ w_t33;
    let w_t45: u128 = w_t42 ^ w_t41;
    let w_z7: u128 = w_t45 & w_y17;
    let w_tc8: u128 = w_z7 ^ w_tc6;
    let w_z16: u128 = w_t45 & w_y14;
    let w_z6: u128 = w_t42 & w_y11;
    let w_tc16: u128 = w_z6 ^ w_tc8;
    let w_z15: u128 = w_t42 & w_y9;
    let w_tc20: u128 = w_z15 ^ w_tc16;
    let w_tc1: u128 = w_z15 ^ w_z16;
    let w_tc2: u128 = w_z10 ^ w_tc1;
    let w_tc21: u128 = w_tc2 ^ w_z11;
    let w_tc3: u128 = w_z9 ^ w_tc2;
    let w_s0: u128 = w_tc3 ^ w_tc16;
    let w_s3: u128 = w_tc3 ^ w_tc11;
    let w_s1: u128 = w_s3 ^ w_tc16;
    let w_tc13: u128 = w_z13 ^ w_tc1;
    let w_z2: u128 = w_t33 & a0;
    let w_tc4: u128 = w_z0 ^ w_z2;
    let w_tc7: u128 = w_z12 ^ w_tc4;
    let w_tc9: u128 = w_z8 ^ w_tc7;
    let w_tc10: u128 = w_tc8 ^ w_tc9;
    let w_tc17: u128 = w_z14 ^ w_tc10;
    let w_s5: u128 = w_tc21 ^ w_tc17;
    let w_tc26: u128 = w_tc17 ^ w_tc20;
    let w_s2: u128 = w_tc26 ^ w_z17;
    let w_tc14: u128 = w_tc4 ^ w_tc12;
    let w_tc18: u128 = w_tc13 ^ w_tc14;
    let w_s6: u128 = w_tc10 ^ w_tc18;
    let w_s7: u128 = w_z12 ^ w_tc18;
    let w_s4: u128 = w_tc14 ^ w_s3;
    lemma_bit_of_ops(a4, a2, p);
    lemma_bit_of_ops(a7, a1, p);
    lemma_bit_of_ops(w_y13, w_y14, p);
    lemma_bit_of_ops(a3, w_y12, p);
    lemma_bit_of_ops(w_t1, a2, p);
    lemma_bit_of_ops(w_y12, w_y15, p);
    lemma_bit_of_ops(w_y15, a0, p);
    lemma_bit_of_ops(w_t1, a6, p);
    lemma_bit_of_ops(a7, a4, p);
    lemma_bit_of_ops(w_y20, w_y9, p);
    lemma_bit_of_ops(w_y9, w_y11, p);
    lemma_bit_of_ops(a0, w_y11, p);
    lemma_bit_of_ops(a7, a2, p);
    lemma_bit_of_ops(a6, a5, p);
    lemma_bit_of_ops(w_y15, w_t0, p);
    lemma_bit_of_ops(w_y10, w_y11, p);
    lemma_bit_of_ops(w_y14, w_y17, p);
    lemma_bit_of_ops(w_t13, w_t12, p);
    lemma_bit_of_ops(w_y10, w_y8, p);
    lemma_bit_of_ops(w_y8, w_y10, p);
    lemma_bit_of_ops(w_t15, w_t12, p);
    lemma_bit_of_ops(w_t0, w_y11, p);
    lemma_bit_of_ops(w_y13, w_y16, p);
    lemma_bit_of_ops(w_y13, w_y16, p);
    lemma_bit_of_ops(a7, w_y16, p);
    lemma_bit_of_ops(w_t0, a0, p);
    lemma_bit_of_ops(w_y1, a4, p);
    lemma_bit_of_ops(w_y4, a0, p);
    lemma_bit_of_ops(w_t5, w_t2, p);
    lemma_bit_of_ops(w_t6, w_t16, p);
    lemma_bit_of_ops(w_t18, w_y19, p);
    lemma_bit_of_ops(w_y1, a7, p);
    lemma_bit_of_ops(w_y2, w_y7, p);
    lemma_bit_of_ops(w_t10, w_t7, p);
    lemma_bit_of_ops(w_t11, w_t16, p);
    lemma_bit_of_ops(w_t20, w_y18, p);
    lemma_bit_of_ops(w_y1, a1, p);
    lemma_bit_of_ops(w_y5, w_y1, p);
    lemma_bit_of_ops(w_t8, w_t7, p);
    lemma_bit_of_ops(w_t9, w_t14, p);
    lemma_bit_of_ops(w_t19, w_y21, p);
    lemma_bit_of_ops(w_y5, w_y8, p);
    lemma_bit_of_ops(w_y3, w_y6, p);
    lemma_bit_of_ops(w_t3, w_t2, p);
    lemma_bit_of_ops(w_t4, w_y20, p);
    lemma_bit_of_ops(w_t17, w_t14, p);
    lemma_bit_of_ops(w_t21, w_t23, p);
    lemma_bit_of_ops(w_t24, w_t26, p);
    lemma_bit_of_ops(w_t22, w_t26, p);
    lemma_bit_of_ops(w_t21, w_t22, p);
    lemma_bit_of_ops(w_t25, w_t27, p);
    lemma_bit_of_ops(w_t28, w_t22, p);
    lemma_bit_of_ops(w_t29, w_y2, p);
    lemma_bit_of_ops(w_t29, w_y7, p);
    lemma_bit_of_ops(w_t23, w_t24, p);
    lemma_bit_of_ops(w_t31, w_t30, p);
    lemma_bit_of_ops(w_t32, w_t24, p);
    lemma_bit_of_ops(w_t27, w_t33, p);
    lemma_bit_of_ops(w_t24, w_t35, p);
    lemma_bit_of_ops(w_t27, w_t36, p);
    lemma_bit_of_ops(w_t29, w_t38, p);
    lemma_bit_of_ops(w_t25, w_t39, p);
    lemma_bit_of_ops(w_t29, w_t40, p);
    lemma_bit_of_ops(w_t43, w_y16, p);
    lemma_bit_of_ops(w_z3, w_z5, p);
    lemma_bit_of_ops(w_t43, w_y13, p);
    lemma_bit_of_ops(w_t40, w_y5, p);
    lemma_bit_of_ops(w_t40, w_y1, p);
    lemma_bit_of_ops(w_z3, w_z4, p);
    lemma_bit_of_ops(w_t23, w_t33, p);
    lemma_bit_of_ops(w_t36, w_t34, p);
    lemma_bit_of_ops(w_t40, w_t37, p);
    lemma_bit_of_ops(w_t41, w_y10, p);
    lemma_bit_of_ops(w_t41, w_y8, p);
    lemma_bit_of_ops(w_t33, w_t37, p);
    lemma_bit_of_ops(w_t44, w_y15, p);
    lemma_bit_of_ops(w_t44, w_y12, p);
    lemma_bit_of_ops(w_t37, w_y3, p);
    lemma_bit_of_ops(w_t37, w_y6, p);
    lemma_bit_of_ops(w_z1, w_z0, p);
    lemma_bit_of_ops(w_tc6, w_tc5, p);
    lemma_bit_of_ops(w_t33, w_y4, p);
    lemma_bit_of_ops(w_t29, w_t33, p);
    lemma_bit_of_ops(w_t42, w_t41, p);
    lemma_bit_of_ops(w_t45, w_y17, p);
    lemma_bit_of_ops(w_z7, w_tc6, p);
    lemma_bit_of_ops(w_t45, w_y14, p);
    lemma_bit_of_ops(w_t42, w_y11, p);
    lemma_bit_of_ops(w_z6, w_tc8, p);
    lemma_bit_of_ops(w_t42, w_y9, p);
    lemma_bit_of_ops(w_z15, w_tc16, p);
    lemma_bit_of_ops(w_z15, w_z16, p);
    lemma_bit_of_ops(w_z10, w_tc1, p);
    lemma_bit_of_ops(w_tc2, w_z11, p);
    lemma_bit_of_ops(w_z9, w_tc2, p);
    lemma_bit_of_ops(w_tc3, w_tc16, p);
    lemma_bit_of_ops(w_tc3, w_tc11, p);
    lemma_bit_of_ops(w_s3, w_tc16, p);
    lemma_bit_of_ops(w_z13, w_tc1, p);
    lemma_bit_of_ops(w_t33, a0, p);
    lemma_bit_of_ops(w_z0, w_z2, p);
    lemma_bit_of_ops(w_z12, w_tc4, p);
    lemma_bit_of_ops(w_z8, w_tc7, p);
    lemma_bit_of_ops(w_tc8, w_tc9, p);
    lemma_bit_of_ops(w_z14, w_tc10, p);
    lemma_bit_of_ops(w_tc21, w_tc17, p);
    lemma_bit_of_ops(w_tc17, w_tc20, p);
    lemma_bit_of_ops(w_tc26, w_z17, p);
    lemma_bit_of_ops(w_tc4, w_tc12, p);
    lemma_bit_of_ops(w_tc13, w_tc14, p);
    lemma_bit_of_ops(w_tc10, w_tc18, p);
    lemma_bit_of_ops(w_z12, w_tc18, p);
    lemma_bit_of_ops(w_tc14, w_s3, p);
}

/// Each bit position of the planes goes through the inverse circuit on its own.
proof fn lemma_inv_sub_bytes_plane_bits(a0: u128, a1: u128, a2: u128, a3: u128, a4: u128, a5: u128, a6: u128, a7: u128, p: u128)
    ensures
        forall|k: int| 0 <= k < 8 ==> bit_of(#[trigger] inv_sub_bytes_plane(k, a0, a1, a2, a3, a4, a5, a6, a7), p) == inv_sub_bytes_cell(k, bit_of(a0, p), bit_of(a1, p), bit_of(a2, p), bit_of(a3, p), bit_of(a4, p), bit_of(a5, p), bit_of(a6, p), bit_of(a7, p)),
{
    let w_t23: u128 = a7 ^ a4;
    let w_t8: u128 = a6 ^ w_t23;
    let w_m2: u128 = w_t23 & w_t8;
    let w_t4: u128 = a3 ^ w_t8;
    let w_t22: u128 = a6 ^ a4;
    let w_t2: u128 = a7 ^ a6;
    let w_t1: u128 = a4 ^ a3;
    let w_t9: u128 = a0 ^ w_t1;
    let w_m7: u128 = w_t22 & w_t9;
    let w_t24: u128 = a3 ^ a0;
    let w_t10: u128 = w_t2 ^ w_t24;
    let w_m14: u128 = w_t2 & w_t10;
    let w_r5: u128 = a1 ^ a0;
    let w_t3: u128 = w_t1 ^ w_r5;
    let w_t13: u128 = w_t2 ^ w_r5;
    let w_t19: u128 = w_t22 ^ w_r5;
    let w_t17: u128 = a5 ^ w_t19;
    let w_t25: u128 = a5 ^ w_t1;
    let w_r13: u128 = a6 ^ a1;
    let w_t20: u128 = w_t24 ^ w_r13;
    let w_m9: u128 = w_t20 & w_t17;
    let w_r17: u128 = a5 ^ a2;
    let w_t6: u128 = w_t22 ^ w_r17;
    let w_m1: u128 = w_t13 & w_t6;
    let w_y5: u128 = a7 ^ w_r17;
    let w_m4: u128 = w_t19 & w_y5;
    let w_m5: u128 = w_m4 ^ w_m1;
    let w_m17: u128 = w_m5 ^ w_t24;
    let w_r18: u128 = a2 ^ a1;
    let w_t27: u128 = w_t1 ^ w_r18;
    let w_t15: u128 = w_t10 ^ w_t27;
    let w_m11: u128 = w_t1 & w_t15;
    let w_m15: u128 = w_m14 ^ w_m11;
    let w_m21: u128 = w_m17 ^ w_m15;
    let w_m12: u128 = w_t4 & w_t27;
    let w_m13: u128 = w_m12 ^ w_m11;
    let w_t14: u128 = w_t10 ^ w_r18;
    let w_m3: u128 = w_t14 ^ w_m1;
    let w_m16: u128 = w_m3 ^ w_m2;
    let w_m20: u128 = w_m16 ^ w_m13;
    let w_r19: u128 = a5 ^ a3;
    let w_t16: u128 = w_r13 ^ w_r19;
    let w_t26: u128 = w_t3 ^ w_t16;
    let w_m6: u128 = w_t3 & w_t16;
    let w_m8: u128 = w_t26 ^ w_m6;
    let w_m18: u128 = w_m8 ^ w_m7;
    let w_m22: u128 = w_m18 ^ w_m13;
    let w_m25: u128 = w_m22 & w_m20;
    let w_m26: u128 = w_m21 ^ w_m25;
    let w_m10: u128 = w_m9 ^ w_m6;
    let w_m19: u128 = w_m10 ^ w_m15;
    let w_m23: u128 = w_m19 ^ w_t25;
    let w_m28: u128 = w_m23 ^ w_m25;
    let w_m24: u128 = w_m22 ^ w_m23;
    let w_m30: u128 = w_m26 & w_m24;
    let w_m39: u128 = w_m23 ^ w_m30;
    let w_m48: u128 = w_m39 & w_y5;
    let w_m57: u128 = w_m39 & w_t19;
    let w_m36: u128 = w_m24 ^ w_m25;
    let w_m31: u128 = w_m20 & w_m23;
    let w_m27: u128 = w_m20 ^ w_m21;
    let w_m32: u128 = w_m27 & w_m31;
    let w_m29: u128 = w_m28 & w_m27;
    let w_m37: u128 = w_m21 ^ w_m29;
    let w_m42: u128 = w_m37 ^ w_m39;
    let w_m52: u128 = w_m42 & w_t15;
    let w_m61: u128 = w_m42 & w_t1;
    let w_p0: u128 = w_m52 ^ w_m61;
    let w_p16: u128 = w_m57 ^ w_m61;
    let w_m60: u128 = w_m37 & w_t20;
    let w_m51: u128 = w_m37 & w_t17;
    let w_m33: u128 = w_m27 ^ w_m25;
    let w_m38: u128 = w_m32 ^ w_m33;
    let w_m43: u128 = w_m37 ^ w_m38;
    let w_m49: u128 = w_m43 & w_t16;
    let w_p6: u128 = w_m49 ^ w_m60;
    let w_p13: u128 = w_m49 ^ w_m51;
    let w_m58: u128 = w_m43 & w_t3;
    let w_m50: u128 = w_m38 & w_t9;
    let w_m59: u128 = w_m38 & w_t22;
    let w_p1: u128 = w_m58 ^ w_m59;
    let w_p7: u128 = w_p0 ^ w_p1;
    let w_m34: u128 = w_m21 & w_m22;
    let w_m35: u128 = w_m24 & w_m34;
    let w_m40: u128 = w_m35 ^ w_m36;
    let w_m41: u128 = w_m38 ^ w_m40;
    let w_m45: u128 = w_m42 ^ w_m41;
    let w_m53: u128 = w_m45 & w_t27;
    let w_p8: u128 = w_m50 ^ w_m53;
    let w_p23: u128 = w_p7 ^ w_p8;
    let w_m62: u128 = w_m45 & w_t4;
    let w_p14: u128 = w_m49 ^ w_m62;
    let w_s6: u128 = w_p14 ^ w_p23;
    let w_m54: u128 = w_m41 & w_t10;
    let w_p2: u128 = w_m54 ^ w_m62;
    let w_p22: u128 = w_p2 ^ w_p7;
    let w_s0: u128 = w_p13 ^ w_p22;
    let w_p17: u128 = w_m58 ^ w_p2;
    let w_p15: u128 = w_m54 ^ w_m59;
    let w_m63: u128 = w_m41 & w_t2;
    let w_m44: u128 = w_m39 ^ w_m40;
    let w_m46: u128 = w_m44 & w_t6;
    let w_p5: u128 = w_m46 ^ w_m51;
    let w_p18: u128 = w_m63 ^ w_p5;
    let w_p24: u128 = w_p5 ^ w_p7;
    let w_p12: u128 = w_m46 ^ w_m48;
    let w_s3: u128 = w_p12 ^ w_p22;
    let w_m55: u128 = w_m44 & w_t13;
    let w_p9: u128 = w_m55 ^ w_m63;
    let w_s7: u128 = w_p9 ^ w_p16;
    let w_m47: u128 = w_m40 & w_t8;
    let w_p3: u128 = w_m47 ^ w_m50;
    let w_p19: u128 = w_p2 ^ w_p3;
    let w_s5: u128 = w_p19 ^ w_p24;
    let w_p11: u128 = w_p0 ^ w_p3;
    let w_p26: u128 = w_p9 ^ w_p11;
    let w_m56: u128 = w_m40 & w_t23;
    let w_p4: u128 = w_m48 ^ w_m56;
    let w_p20: u128 = w_p4 ^ w_p6;
    let w_p29: u128 = w_p15 ^ w_p20;
    let w_s1: u128 = w_p26 ^ w_p29;
    let w_p10: u128 = w_m57 ^ w_p4;
    let w_p27: u128 = w_p10 ^ w_p18;
    let w_s4: u128 = w_p23 ^ w_p27;
    let w_p25: u128 = w_p6 ^ w_p10;
    let w_p28: u128 = w_p11 ^ w_p25;
    let w_s2: u128 = w_p17 ^ w_p28;
    lemma_bit_of_ops(a7, a4, p);
    lemma_bit_of_ops(a6, w_t23, p);
    lemma_bit_of_ops(w_t23, w_t8, p);
    lemma_bit_of_ops(a3, w_t8, p);
    lemma_bit_of_ops(a6, a4, p);
    lemma_bit_of_ops(a7, a6, p);
    lemma_bit_of_ops(a4, a3, p);
    lemma_bit_of_ops(a0, w_t1, p);
    lemma_bit_of_ops(w_t22, w_t9, p);
    lemma_bit_of_ops(a3, a0, p);
    lemma_bit_of_ops(w_t2, w_t24, p);
    lemma_bit_of_ops(w_t2, w_t10, p);
    lemma_bit_of_ops(a1, a0, p);
    lemma_bit_of_ops(w_t1, w_r5, p);
    lemma_bit_of_ops(w_t2, w_r5, p);
    lemma_bit_of_ops(w_t22, w_r5, p);
    lemma_bit_of_ops(a5, w_t19, p);
    lemma_bit_of_ops(a5, w_t1, p);
    lemma_bit_of_ops(a6, a1, p);
    lemma_bit_of_ops(w_t24, w_r13, p);
    lemma_bit_of_ops(w_t20, w_t17, p);
    lemma_bit_of_ops(a5, a2, p);
    lemma_bit_of_ops(w_t22, w_r17, p);
    lemma_bit_of_ops(w_t13, w_t6, p);
    lemma_bit_of_ops(a7, w_r17, p);
    lemma_bit_of_ops(w_t19, w_y5, p);
    lemma_bit_of_ops(w_m4, w_m1, p);
    lemma_bit_of_ops(w_m5, w_t24, p);
    lemma_bit_of_ops(a2, a1, p);
    lemma_bit_of_ops(w_t1, w_r18, p);
    lemma_bit_of_ops(w_t10, w_t27, p);
    lemma_bit_of_ops(w_t1, w_t15, p);
    lemma_bit_of_ops(w_m14, w_m11, p);
    lemma_bit_of_ops(w_m17, w_m15, p);
    lemma_bit_of_ops(w_t4, w_t27, p);
    lemma_bit_of_ops(w_m12, w_m11, p);
    lemma_bit_of_ops(w_t10, w_r18, p);
    lemma_bit_of_ops(w_t14, w_m1, p);
    lemma_bit_of_ops(w_m3, w_m2, p);
    lemma_bit_of_ops(w_m16, w_m13, p);
    lemma_bit_of_ops(a5, a3, p);
    lemma_bit_of_ops(w_r13, w_r19, p);
    lemma_bit_of_ops(w_t3, w_t16, p);
    lemma_bit_of_ops(w_t3, w_t16, p);
    lemma_bit_of_ops(w_t26, w_m6, p);
    lemma_bit_of_ops(w_m8, w_m7, p);
    lemma_bit_of_ops(w_m18, w_m13, p);
    lemma_bit_of_ops(w_m22, w_m20, p);
    lemma_bit_of_ops(w_m21, w_m25, p);
    lemma_bit_of_ops(w_m9, w_m6, p);
    lemma_bit_of_ops(w_m10, w_m15, p);
    lemma_bit_of_ops(w_m19, w_t25, p);
    lemma_bit_of_ops(w_m23, w_m25, p);
    lemma_bit_of_ops(w_m22, w_m23, p);
    lemma_bit_of_ops(w_m26, w_m24, p);
    lemma_bit_of_ops(w_m23, w_m30, p);
    lemma_bit_of_ops(w_m39, w_y5, p);
    lemma_bit_of_ops(w_m39, w_t19, p);
    lemma_bit_of_ops(w_m24, w_m25, p);
    lemma_bit_of_ops(w_m20, w_m23, p);
    lemma_bit_of_ops(w_m20, w_m21, p);
    lemma_bit_of_ops(w_m27, w_m31, p);
    lemma_bit_of_ops(w_m28, w_m27, p);
    lemma_bit_of_ops(w_m21, w_m29, p);
    lemma_bit_of_ops(w_m37, w_m39, p);
    lemma_bit_of_ops(w_m42, w_t15, p);
    lemma_bit_of_ops(w_m42, w_t1, p);
    lemma_bit_of_ops(w_m52, w_m61, p);
    lemma_bit_of_ops(w_m57, w_m61, p);
    lemma_bit_of_ops(w_m37, w_t20, p);
    lemma_bit_of_ops(w_m37, w_t17, p);
    lemma_bit_of_ops(w_m27, w_m25, p);
    lemma_bit_of_ops(w_m32, w_m33, p);
    lemma_bit_of_ops(w_m37, w_m38, p);
    lemma_bit_of_ops(w_m43, w_t16, p);
    lemma_bit_of_ops(w_m49, w_m60, p);
    lemma_bit_of_ops(w_m49, w_m51, p);
    lemma_bit_of_ops(w_m43, w_t3, p);
    lemma_bit_of_ops(w_m38, w_t9, p);
    lemma_bit_of_ops(w_m38, w_t22, p);
    lemma_bit_of_ops(w_m58, w_m59, p);
    lemma_bit_of_ops(w_p0, w_p1, p);
    lemma_bit_of_ops(w_m21, w_m22, p);
    lemma_bit_of_ops(w_m24, w_m34, p);
    lemma_bit_of_ops(w_m35, w_m36, p);
    lemma_bit_of_ops(w_m38, w_m40, p);
    lemma_bit_of_ops(w_m42, w_m41, p);
    lemma_bit_of_ops(w_m45, w_t27, p);
    lemma_bit_of_ops(w_m50, w_m53, p);
    lemma_bit_of_ops(w_p7, w_p8, p);
    lemma_bit_of_ops(w_m45, w_t4, p);
    lemma_bit_of_ops(w_m49, w_m62, p);
    lemma_bit_of_ops(w_p14, w_p23, p);
    lemma_bit_of_ops(w_m41, w_t10, p);
    lemma_bit_of_ops(w_m54, w_m62, p);
    lemma_bit_of_ops(w_p2, w_p7, p);
    lemma_bit_of_ops(w_p13, w_p22, p);
    lemma_bit_of_ops(w_m58, w_p2, p);
    lemma_bit_of_ops(w_m54, w_m59, p);
    lemma_bit_of_ops(w_m41, w_t2, p);
    lemma_bit_of_ops(w_m39, w_m40, p);
    lemma_bit_of_ops(w_m44, w_t6, p);
    lemma_bit_of_ops(w_m46, w_m51, p);
    lemma_bit_of_ops(w_m63, w_p5, p);
    lemma_bit_of_ops(w_p5, w_p7, p);
    lemma_bit_of_ops(w_m46, w_m48, p);
    lemma_bit_of_ops(w_p12, w_p22, p);
    lemma_bit_of_ops(w_m44, w_t13, p);
    lemma_bit_of_ops(w_m55, w_m63, p);
    lemma_bit_of_ops(w_p9, w_p16, p);
    lemma_bit_of_ops(w_m40, w_t8, p);
    lemma_bit_of_ops(w_m47, w_m50, p);
    lemma_bit_of_ops(w_p2, w_p3, p);
    lemma_bit_of_ops(w_p19, w_p24, p);
    lemma_bit_of_ops(w_p0, w_p3, p);
    lemma_bit_of_ops(w_p9, w_p11, p);
    lemma_bit_of_ops(w_m40, w_t23, p);
    lemma_bit_of_ops(w_m48, w_m56, p);
    lemma_bit_of_ops(w_p4, w_p6, p);
    lemma_bit_of_ops(w_p15, w_p20, p);
    lemma_bit_of_ops(w_p26, w_p29, p);
    lemma_bit_of_ops(w_m57, w_p4, p);
    lemma_bit_of_ops(w_p10, w_p18, p);
    lemma_bit_of_ops(w_p23, w_p27, p);
    lemma_bit_of_ops(w_p6, w_p10, p);
    lemma_bit_of_ops(w_p11, w_p25, p);
    lemma_bit_of_ops(w_p17, w_p28, p);
}

/// On one bit position the forward circuit computes the AES S-box without
/// its constant 0x63.
#[verifier::rlimit(100)]
proof fn lemma_sub_bytes_cell_sbox(a0: u8, a1: u8, a2: u8, a3: u8, a4: u8, a5: u8, a6: u8, a7: u8)
    requires
        a0 <= 1,
        a1 <= 1,
        a2 <= 1,
        a3 <= 1,
        a4 <= 1,
        a5 <= 1,
        a6 <= 1,
        a7 <= 1,
    ensures
        ({
            let x = gather8(a0, a1, a2, a3, a4, a5, a6, a7);
            gather8(sub_bytes_cell(0, a0, a1, a2, a3, a4, a5, a6, a7), sub_bytes_cell(1, a0, a1, a2, a3, a4, a5, a6, a7), sub_bytes_cell(2, a0, a1, a2, a3, a4, a5, a6, a7), sub_bytes_cell(3, a0, a1, a2, a3, a4, a5, a6, a7), sub_bytes_cell(4, a0, a1, a2, a3, a4, a5, a6, a7), sub_bytes_cell(5, a0, a1, a2, a3, a4, a5, a6, a7), sub_bytes_cell(6, a0, a1, a2, a3, a4, a5, a6, a7), sub_bytes_cell(7, a0, a1, a2, a3, a4, a5, a6, a7)) == aes_sbox(x) ^ 0x63u8
        }),
{
    let x: u8 = gather8(a0, a1, a2, a3, a4, a5, a6, a7);
    let c_y14: u8 = a4 ^ a2;
    let c_y13: u8 = a7 ^ a1;
    let c_y12: u8 = c_y13 ^ c_y14;
    let c_t1: u8 = a3 ^ c_y12;
    let c_y15: u8 = c_t1 ^ a2;
    let c_t2: u8 = c_y12 & c_y15;
    let c_y6: u8 = c_y15 ^ a0;
    let c_y20: u8 = c_t1 ^ a6;
    let c_y9: u8 = a7 ^ a4;
    let c_y11: u8 = c_y20 ^ c_y9;
    let c_t12: u8 = c_y9 & c_y11;
    let c_y7: u8 = a0 ^ c_y11;
    let c_y8: u8 = a7 ^ a2;
    let c_t0: u8 = a6 ^ a5;
    let c_y10: u8 = c_y15 ^ c_t0;
    let c_y17: u8 = c_y10 ^ c_y11;
    let c_t13: u8 = c_y14 & c_y17;
    let c_t14: u8 = c_t13 ^ c_t12;
    let c_y19: u8 = c_y10 ^ c_y8;
    let c_t15: u8 = c_y8 & c_y10;
    let c_t16: u8 = c_t15 ^ c_t12;
    let c_y16: u8 = c_t0 ^ c_y11;
    let c_y21: u8 = c_y13 ^ c_y16;
    let c_t7: u8 = c_y13 & c_y16;
    let c_y18: u8 = a7 ^ c_y16;
    let c_y1: u8 = c_t0 ^ a0;
    let c_y4: u8 = c_y1 ^ a4;
    let c_t5: u8 = c_y4 & a0;
    let c_t6: u8 = c_t5 ^ c_t2;
    let c_t18: u8 = c_t6 ^ c_t16;
    let c_t22: u8 = c_t18 ^ c_y19;
    let c_y2: u8 = c_y1 ^ a7;
    let c_t10: u8 = c_y2 & c_y7;
    let c_t11: u8 = c_t10 ^ c_t7;
    let c_t20: u8 = c_t11 ^ c_t16;
    let c_t24: u8 = c_t20 ^ c_y18;
    let c_y5: u8 = c_y1 ^ a1;
    let c_t8: u8 = c_y5 & c_y1;
    let c_t9: u8 = c_t8 ^ c_t7;
    let c_t19: u8 = c_t9 ^ c_t14;
    let c_t23: u8 = c_t19 ^ c_y21;
    let c_y3: u8 = c_y5 ^ c_y8;
    let c_t3: u8 = c_y3 & c_y6;
    let c_t4: u8 = c_t3 ^ c_t2;
    let c_t17: u8 = c_t4 ^ c_y20;
    let c_t21: u8 = c_t17 ^ c_t14;
    let c_t26: u8 = c_t21 & c_t23;
    let c_t27: u8 = c_t24 ^ c_t26;
    let c_t31: u8 = c_t22 ^ c_t26;
    let c_t25: u8 = c_t21 ^ c_t22;
    let c_t28: u8 = c_t25 & c_t27;
    let c_t29: u8 = c_t28 ^ c_t22;
    let c_z14: u8 = c_t29 & c_y2;
    let c_z5: u8 = c_t29 & c_y7;
    let c_t30: u8 = c_t23 ^ c_t24;
    let c_t32: u8 = c_t31 & c_t30;
    let c_t33: u8 = c_t32 ^ c_t24;
    let c_t35: u8 = c_t27 ^ c_t33;
    let c_t36: u8 = c_t24 & c_t35;
    let c_t38: u8 = c_t27 ^ c_t36;
    let c_t39: u8 = c_t29 & c_t38;
    let c_t40: u8 = c_t25 ^ c_t39;
    let c_t43: u8 = c_t29 ^ c_t40;
    let c_z3: u8 = c_t43 & c_y16;
    let c_tc12: u8 = c_z3 ^ c_z5;
    let c_z12: u8 = c_t43 & c_y13;
    let c_z13: u8 = c_t40 & c_y5;
    let c_z4: u8 = c_t40 & c_y1;
    let c_tc6: u8 = c_z3 ^ c_z4;
    let c_t34: u8 = c_t23 ^ c_t33;
    let c_t37: u8 = c_t36 ^ c_t34;
    let c_t41: u8 = c_t40 ^ c_t37;
    let c_z8: u8 = c_t41 & c_y10;
    let c_z17: u8 = c_t41 & c_y8;
    let c_t44: u8 = c_t33 ^ c_t37;
    let c_z0: u8 = c_t44 & c_y15;
    let c_z9: u8 = c_t44 & c_y12;
    let c_z10: u8 = c_t37 & c_y3;
    let c_z1: u8 = c_t37 & c_y6;
    let c_tc5: u8 = c_z1 ^ c_z0;
    let c_tc11: u8 = c_tc6 ^ c_tc5;
    let c_z11: u8 = c_t33 & c_y4;
    let c_t42: u8 = c_t29 ^ c_t33;
    let c_t45: u8 = c_t42 ^ c_t41;
    let c_z7: u8 = c_t45 & c_y17;
    let c_tc8: u8 = c_z7 ^ c_tc6;
    let c_z16: u8 = c_t45 & c_y14;
    let c_z6: u8 = c_t42 & c_y11;
    let c_tc16: u8 = c_z6 ^ c_tc8;
    let c_z15: u8 = c_t42 & c_y9;
    let c_tc20: u8 = c_z15 ^ c_tc16;
    let c_tc1: u8 = c_z15 ^ c_z16;
    let c_tc2: u8 = c_z10 ^ c_tc1;
    let c_tc21: u8 = c_tc2 ^ c_z11;
    let c_tc3: u8 = c_z9 ^ c_tc2;
    let c_s0: u8 = c_tc3 ^ c_tc16;
    let c_s3: u8 = c_tc3 ^ c_tc11;
    let c_s1: u8 = c_s3 ^ c_tc16;
    let c_tc13: u8 = c_z13 ^ c_tc1;
    let c_z2: u8 = c_t33 & a0;
    let c_tc4: u8 = c_z0 ^ c_z2;
    let c_tc7: u8 = c_z12 ^ c_tc4;
    let c_tc9: u8 = c_z8 ^ c_tc7;
    let c_tc10: u8 = c_tc8 ^ c_tc9;
    let c_tc17: u8 = c_z14 ^ c_tc10;
    let c_s5: u8 = c_tc21 ^ c_tc17;
    let c_tc26: u8 = c_tc17 ^ c_tc20;
    let c_s2: u8 = c_tc26 ^ c_z17;
    let c_tc14: u8 = c_tc4 ^ c_tc12;
    let c_tc18: u8 = c_tc13 ^ c_tc14;
    let c_s6: u8 = c_tc10 ^ c_tc18;
    let c_s7: u8 = c_z12 ^ c_tc18;
    let c_s4: u8 = c_tc14 ^ c_s3;
    let g_x2_a1: u8 = xtime(x);
    let g_x2_a2: u8 = xtime(g_x2_a1);
    let g_x2_a3: u8 = xtime(g_x2_a2);
    let g_x2_a4: u8 = xtime(g_x2_a3);
    let g_x2_a5: u8 = xtime(g_x2_a4);
    let g_x2_a6: u8 = xtime(g_x2_a5);
    let g_x2_a7: u8 = xtime(g_x2_a6);
    let g_x2: u8 = mul_sum(x, x, g_x2_a1, g_x2_a2, g_x2_a3, g_x2_a4, g_x2_a5, g_x2_a6, g_x2_a7);
    let g_x4_a1: u8 = xtime(g_x2);
    let g_x4_a2: u8 = xtime(g_x4_a1);
    let g_x4_a3: u8 = xtime(g_x4_a2);
    let g_x4_a4: u8 = xtime(g_x4_a3);
    let g_x4_a5: u8 = xtime(g_x4_a4);
    let g_x4_a6: u8 = xtime(g_x4_a5);
    let g_x4_a7: u8 = xtime(g_x4_a6);
    let g_x4: u8 = mul_sum(g_x2, g_x2, g_x4_a1, g_x4_a2, g_x4_a3, g_x4_a4, g_x4_a5, g_x4_a6, g_x4_a7);
    let g_x8_a1: u8 = xtime(g_x4);
    let g_x8_a2: u8 = xtime(g_x8_a1);
    let g_x8_a3: u8 = xtime(g_x8_a2);
    let g_x8_a4: u8 = xtime(g_x8_a3);
    let g_x8_a5: u8 = xtime(g_x8_a4);
    let g_x8_a6: u8 = xtime(g_x8_a5);
    let g_x8_a7: u8 = xtime(g_x8_a6);
    let g_x8: u8 = mul_sum(g_x4, g_x4, g_x8_a1, g_x8_a2, g_x8_a3, g_x8_a4, g_x8_a5, g_x8_a6, g_x8_a7);
    let g_x16_a1: u8 = xtime(g_x8);
    let g_x16_a2: u8 = xtime(g_x16_a1);
    let g_x16_a3: u8 = xtime(g_x16_a2);
    let g_x16_a4: u8 = xtime(g_x16_a3);
    let g_x16_a5: u8 = xtime(g_x16_a4);
    let g_x16_a6: u8 = xtime(g_x16_a5);
    let g_x16_a7: u8 = xtime(g_x16_a6);
    let g_x16: u8 = mul_sum(g_x8, g_x8, g_x16_a1, g_x16_a2, g_x16_a3, g_x16_a4, g_x16_a5, g_x16_a6, g_x16_a7);
    let g_x32_a1: u8 = xtime(g_x16);
    let g_x32_a2: u8 = xtime(g_x32_a1);
    let g_x32_a3: u8 = xtime(g_x32_a2);
    let g_x32_a4: u8 = xtime(g_x32_a3);
    let g_x32_a5: u8 = xtime(g_x32_a4);
    let g_x32_a6: u8 = xtime(g_x32_a5);
    let g_x32_a7: u8 = xtime(g_x32_a6);
    let g_x32: u8 = mul_sum(g_x16, g_x16, g_x32_a1, g_x32_a2, g_x32_a3, g_x32_a4, g_x32_a5, g_x32_a6, g_x32_a7);
    let g_x64_a1: u8 = xtime(g_x32);
    let g_x64_a2: u8 = xtime(g_x64_a1);
    let g_x64_a3: u8 = xtime(g_x64_a2);
    let g_x64_a4: u8 = xtime(g_x64_a3);
    let g_x64_a5: u8 = xtime(g_x64_a4);
    let g_x64_a6: u8 = xtime(g_x64_a5);
    let g_x64_a7: u8 = xtime(g_x64_a6);
    let g_x64: u8 = mul_sum(g_x32, g_x32, g_x64_a1, g_x64_a2, g_x64_a3, g_x64_a4, g_x64_a5, g_x64_a6, g_x64_a7);
    let g_x128_a1: u8 = xtime(g_x64);
    let g_x128_a2: u8 = xtime(g_x128_a1);
    let g_x128_a3: u8 = xtime(g_x128_a2);
    let g_x128_a4: u8 = xtime(g_x128_a3);
    let g_x128_a5: u8 = xtime(g_x128_a4);
    let g_x128_a6: u8 = xtime(g_x128_a5);
    let g_x128_a7: u8 = xtime(g_x128_a6);
    let g_x128: u8 = mul_sum(g_x64, g_x64, g_x128_a1, g_x128_a2, g_x128_a3, g_x128_a4, g_x128_a5, g_x128_a6, g_x128_a7);
    let g_p1_a1: u8 = xtime(g_x2);
    let g_p1_a2: u8 = xtime(g_p1_a1);
    let g_p1_a3: u8 = xtime(g_p1_a2);
    let g_p1_a4: u8 = xtime(g_p1_a3);
    let g_p1_a5: u8 = xtime(g_p1_a4);
    let g_p1_a6: u8 = xtime(g_p1_a5);
    let g_p1_a7: u8 = xtime(g_p1_a6);
    let g_p1: u8 = mul_sum(g_x4, g_x2, g_p1_a1, g_p1_a2, g_p1_a3, g_p1_a4, g_p1_a5, g_p1_a6, g_p1_a7);
    let g_p2_a1: u8 = xtime(g_x8);
    let g_p2_a2: u8 = xtime(g_p2_a1);
    let g_p2_a3: u8 = xtime(g_p2_a2);
    let g_p2_a4: u8 = xtime(g_p2_a3);
    let g_p2_a5: u8 = xtime(g_p2_a4);
    let g_p2_a6: u8 = xtime(g_p2_a5);
    let g_p2_a7: u8 = xtime(g_p2_a6);
    let g_p2: u8 = mul_sum(g_x16, g_x8, g_p2_a1, g_p2_a2, g_p2_a3, g_p2_a4, g_p2_a5, g_p2_a6, g_p2_a7);
    let g_p3_a1: u8 = xtime(g_x32);
    let g_p3_a2: u8 = xtime(g_p3_a1);
    let g_p3_a3: u8 = xtime(g_p3_a2);
    let g_p3_a4: u8 = xtime(g_p3_a3);
    let g_p3_a5: u8 = xtime(g_p3_a4);
    let g_p3_a6: u8 = xtime(g_p3_a5);
    let g_p3_a7: u8 = xtime(g_p3_a6);
    let g_p3: u8 = mul_sum(g_x64, g_x32, g_p3_a1, g_p3_a2, g_p3_a3, g_p3_a4, g_p3_a5, g_p3_a6, g_p3_a7);
    let g_p4_a1: u8 = xtime(g_p1);
    let g_p4_a2: u8 = xtime(g_p4_a1);
    let g_p4_a3: u8 = xtime(g_p4_a2);
    let g_p4_a4: u8 = xtime(g_p4_a3);
    let g_p4_a5: u8 = xtime(g_p4_a4);
    let g_p4_a6: u8 = xtime(g_p4_a5);
    let g_p4_a7: u8 = xtime(g_p4_a6);
    let g_p4: u8 = mul_sum(g_p2, g_p1, g_p4_a1, g_p4_a2, g_p4_a3, g_p4_a4, g_p4_a5, g_p4_a6, g_p4_a7);
    let g_p5_a1: u8 = xtime(g_p3);
    let g_p5_a2: u8 = xtime(g_p5_a1);
    let g_p5_a3: u8 = xtime(g_p5_a2);
    let g_p5_a4: u8 = xtime(g_p5_a3);
    let g_p5_a5: u8 = xtime(g_p5_a4);
    let g_p5_a6: u8 = xtime(g_p5_a5);
    let g_p5_a7: u8 = xtime(g_p5_a6);
    let g_p5: u8 = mul_sum(g_x128, g_p3, g_p5_a1, g_p5_a2, g_p5_a3, g_p5_a4, g_p5_a5, g_p5_a6, g_p5_a7);
    let g_inv_a1: u8 = xtime(g_p4);
    let g_inv_a2: u8 = xtime(g_inv_a1);
    let g_inv_a3: u8 = xtime(g_inv_a2);
    let g_inv_a4: u8 = xtime(g_inv_a3);
    let g_inv_a5: u8 = xtime(g_inv_a4);
    let g_inv_a6: u8 = xtime(g_inv_a5);
    let g_inv_a7: u8 = xtime(g_inv_a6);
    let g_inv: u8 = mul_sum(g_p5, g_p4, g_inv_a1, g_inv_a2, g_inv_a3, g_inv_a4, g_inv_a5, g_inv_a6, g_inv_a7);
    assert(gather8(c_s7, c_s6, c_s5, c_s4, c_s3, c_s2, c_s1, c_s0) == (affine(g_inv) ^ 0x63u8) ^ 0x63u8) by (bit_vector)
        requires
            a0 <= 1,
            a1 <= 1,
            a2 <= 1,
            a3 <= 1,
            a4 <= 1,
            a5 <= 1,
            a6 <= 1,
            a7 <= 1,
            x == gather8(a0, a1, a2, a3, a4, a5, a6, a7),
            c_y14 == a4 ^ a2,
            c_y13 == a7 ^ a1,
            c_y12 == c_y13 ^ c_y14,
            c_t1 == a3 ^ c_y12,
            c_y15 == c_t1 ^ a2,
            c_t2 == c_y12 & c_y15,
            c_y6 == c_y15 ^ a0,
            c_y20 == c_t1 ^ a6,
            c_y9 == a7 ^ a4,
            c_y11 == c_y20 ^ c_y9,
            c_t12 == c_y9 & c_y11,
            c_y7 == a0 ^ c_y11,
            c_y8 == a7 ^ a2,
            c_t0 == a6 ^ a5,
            c_y10 == c_y15 ^ c_t0,
            c_y17 == c_y10 ^ c_y11,
            c_t13 == c_y14 & c_y17,
            c_t14 == c_t13 ^ c_t12,
            c_y19 == c_y10 ^ c_y8,
            c_t15 == c_y8 & c_y10,
            c_t16 == c_t15 ^ c_t12,
            c_y16 == c_t0 ^ c_y11,
            c_y21 == c_y13 ^ c_y16,
            c_t7 == c_y13 & c_y16,
            c_y18 == a7 ^ c_y16,
            c_y1 == c_t0 ^ a0,
            c_y4 == c_y1 ^ a4,
            c_t5 == c_y4 & a0,
            c_t6 == c_t5 ^ c_t2,
            c_t18 == c_t6 ^ c_t16,
            c_t22 == c_t18 ^ c_y19,
            c_y2 == c_y1 ^ a7,
            c_t10 == c_y2 & c_y7,
            c_t11 == c_t10 ^ c_t7,
            c_t20 == c_t11 ^ c_t16,
            c_t24 == c_t20 ^ c_y18,
            c_y5 == c_y1 ^ a1,
            c_t8 == c_y5 & c_y1,
            c_t9 == c_t8 ^ c_t7,
            c_t19 == c_t9 ^ c_t14,
            c_t23 == c_t19 ^ c_y21,
            c_y3 == c_y5 ^ c_y8,
            c_t3 == c_y3 & c_y6,
            c_t4 == c_t3 ^ c_t2,
            c_t17 == c_t4 ^ c_y20,
            c_t21 == c_t17 ^ c_t14,
            c_t26 == c_t21 & c_t23,
            c_t27 == c_t24 ^ c_t26,
            c_t31 == c_t22 ^ c_t26,
            c_t25 == c_t21 ^ c_t22,
            c_t28 == c_t25 & c_t27,
            c_t29 == c_t28 ^ c_t22,
            c_z14 == c_t29 & c_y2,
            c_z5 == c_t29 & c_y7,
            c_t30 == c_t23 ^ c_t24,
            c_t32 == c_t31 & c_t30,
            c_t33 == c_t32 ^ c_t24,
            c_t35 == c_t27 ^ c_t33,
            c_t36 == c_t24 & c_t35,
            c_t38 == c_t27 ^ c_t36,
            c_t39 == c_t29 & c_t38,
            c_t40 == c_t25 ^ c_t39,
            c_t43 == c_t29 ^ c_t40,
            c_z3 == c_t43 & c_y16,
            c_tc12 == c_z3 ^ c_z5,
            c_z12 == c_t43 & c_y13,
            c_z13 == c_t40 & c_y5,
            c_z4 == c_t40 & c_y1,
            c_tc6 == c_z3 ^ c_z4,
            c_t34 == c_t23 ^ c_t33,
            c_t37 == c_t36 ^ c_t34,
            c_t41 == c_t40 ^ c_t37,
            c_z8 == c_t41 & c_y10,
            c_z17 == c_t41 & c_y8,
            c_t44 == c_t33 ^ c_t37,
            c_z0 == c_t44 & c_y15,
            c_z9 == c_t44 & c_y12,
            c_z10 == c_t37 & c_y3,
            c_z1 == c_t37 & c_y6,
            c_tc5 == c_z1 ^ c_z0,
            c_tc11 == c_tc6 ^ c_tc5,
            c_z11 == c_t33 & c_y4,
            c_t42 == c_t29 ^ c_t33,
            c_t45 == c_t42 ^ c_t41,
            c_z7 == c_t45 & c_y17,
            c_tc8 == c_z7 ^ c_tc6,
            c_z16 == c_t45 & c_y14,
            c_z6 == c_t42 & c_y11,
            c_tc16 == c_z6 ^ c_tc8,
            c_z15 == c_t42 & c_y9,
            c_tc20 == c_z15 ^ c_tc16,
            c_tc1 == c_z15 ^ c_z16,
            c_tc2 == c_z10 ^ c_tc1,
            c_tc21 == c_tc2 ^ c_z11,
            c_tc3 == c_z9 ^ c_tc2,
            c_s0 == c_tc3 ^ c_tc16,
            c_s3 == c_tc3 ^ c_tc11,
            c_s1 == c_s3 ^ c_tc16,
            c_tc13 == c_z13 ^ c_tc1,
            c_z2 == c_t33 & a0,
            c_tc4 == c_z0 ^ c_z2,
            c_tc7 == c_z12 ^ c_tc4,
            c_tc9 == c_z8 ^ c_tc7,
            c_tc10 == c_tc8 ^ c_tc9,
            c_tc17 == c_z14 ^ c_tc10,
            c_s5 == c_tc21 ^ c_tc17,
            c_tc26 == c_tc17 ^ c_tc20,
            c_s2 == c_tc26 ^ c_z17,
            c_tc14 == c_tc4 ^ c_tc12,
            c_tc18 == c_tc13 ^ c_tc14,
            c_s6 == c_tc10 ^ c_tc18,
            c_s7 == c_z12 ^ c_tc18,
            c_s4 == c_tc14 ^ c_s3,
            g_x2_a1 == xtime(x),
            g_x2_a2 == xtime(g_x2_a1),
            g_x2_a3 == xtime(g_x2_a2),
            g_x2_a4 == xtime(g_x2_a3),
            g_x2_a5 == xtime(g_x2_a4),
            g_x2_a6 == xtime(g_x2_a5),
            g_x2_a7 == xtime(g_x2_a6),
            g_x2 == mul_sum(x, x, g_x2_a1, g_x2_a2, g_x2_a3, g_x2_a4, g_x2_a5, g_x2_a6, g_x2_a7),
            g_x4_a1 == xtime(g_x2),
            g_x4_a2 == xtime(g_x4_a1),
            g_x4_a3 == xtime(g_x4_a2),
            g_x4_a4 == xtime(g_x4_a3),
            g_x4_a5 == xtime(g_x4_a4),
            g_x4_a6 == xtime(g_x4_a5),
            g_x4_a7 == xtime(g_x4_a6),
            g_x4 == mul_sum(g_x2, g_x2, g_x4_a1, g_x4_a2, g_x4_a3, g_x4_a4, g_x4_a5, g_x4_a6, g_x4_a7),
            g_x8_a1 == xtime(g_x4),
            g_x8_a2 == xtime(g_x8_a1),
            g_x8_a3 == xtime(g_x8_a2),
            g_x8_a4 == xtime(g_x8_a3),
            g_x8_a5 == xtime(g_x8_a4),
            g_x8_a6 == xtime(g_x8_a5),
            g_x8_a7 == xtime(g_x8_a6),
            g_x8 == mul_sum(g_x4, g_x4, g_x8_a1, g_x8_a2, g_x8_a3, g_x8_a4, g_x8_a5, g_x8_a6, g_x8_a7),
            g_x16_a1 == xtime(g_x8),
            g_x16_a2 == xtime(g_x16_a1),
            g_x16_a3 == xtime(g_x16_a2),
            g_x16_a4 == xtime(g_x16_a3),
            g_x16_a5 == xtime(g_x16_a4),
            g_x16_a6 == xtime(g_x16_a5),
            g_x16_a7 == xtime(g_x16_a6),
            g_x16 == mul_sum(g_x8, g_x8, g_x16_a1, g_x16_a2, g_x16_a3, g_x16_a4, g_x16_a5, g_x16_a6, g_x16_a7),
            g_x32_a1 == xtime(g_x16),
            g_x32_a2 == xtime(g_x32_a1),
            g_x32_a3 == xtime(g_x32_a2),
            g_x32_a4 == xtime(g_x32_a3),
            g_x32_a5 == xtime(g_x32_a4),
            g_x32_a6 == xtime(g_x32_a5),
            g_x32_a7 == xtime(g_x32_a6),
            g_x32 == mul_sum(g_x16, g_x16, g_x32_a1, g_x32_a2, g_x32_a3, g_x32_a4, g_x32_a5, g_x32_a6, g_x32_a7),
            g_x64_a1 == xtime(g_x32),
            g_x64_a2 == xtime(g_x64_a1),
            g_x64_a3 == xtime(g_x64_a2),
            g_x64_a4 == xtime(g_x64_a3),
            g_x64_a5 == xtime(g_x64_a4),
            g_x64_a6 == xtime(g_x64_a5),
            g_x64_a7 == xtime(g_x64_a6),
            g_x64 == mul_sum(g_x32, g_x32, g_x64_a1, g_x64_a2, g_x64_a3, g_x64_a4, g_x64_a5, g_x64_a6, g_x64_a7),
            g_x128_a1 == xtime(g_x64),
            g_x128_a2 == xtime(g_x128_a1),
            g_x128_a3 == xtime(g_x128_a2),
            g_x128_a4 == xtime(g_x128_a3),
            g_x128_a5 == xtime(g_x128_a4),
            g_x128_a6 == xtime(g_x128_a5),
            g_x128_a7 == xtime(g_x128_a6),
            g_x128 == mul_sum(g_x64, g_x64, g_x128_a1, g_x128_a2, g_x128_a3, g_x128_a4, g_x128_a5, g_x128_a6, g_x128_a7),
            g_p1_a1 == xtime(g_x2),
            g_p1_a2 == xtime(g_p1_a1),
            g_p1_a3 == xtime(g_p1_a2),
            g_p1_a4 == xtime(g_p1_a3),
            g_p1_a5 == xtime(g_p1_a4),
            g_p1_a6 == xtime(g_p1_a5),
            g_p1_a7 == xtime(g_p1_a6),
            g_p1 == mul_sum(g_x4, g_x2, g_p1_a1, g_p1_a2, g_p1_a3, g_p1_a4, g_p1_a5, g_p1_a6, g_p1_a7),
            g_p2_a1 == xtime(g_x8),
            g_p2_a2 == xtime(g_p2_a1),
            g_p2_a3 == xtime(g_p2_a2),
            g_p2_a4 == xtime(g_p2_a3),
            g_p2_a5 == xtime(g_p2_a4),
            g_p2_a6 == xtime(g_p2_a5),
            g_p2_a7 == xtime(g_p2_a6),
            g_p2 == mul_sum(g_x16, g_x8, g_p2_a1, g_p2_a2, g_p2_a3, g_p2_a4, g_p2_a5, g_p2_a6, g_p2_a7),
            g_p3_a1 == xtime(g_x32),
            g_p3_a2 == xtime(g_p3_a1),
            g_p3_a3 == xtime(g_p3_a2),
            g_p3_a4 == xtime(g_p3_a3),
            g_p3_a5 == xtime(g_p3_a4),
            g_p3_a6 == xtime(g_p3_a5),
            g_p3_a7 == xtime(g_p3_a6),
            g_p3 == mul_sum(g_x64, g_x32, g_p3_a1, g_p3_a2, g_p3_a3, g_p3_a4, g_p3_a5, g_p3_a6, g_p3_a7),
            g_p4_a1 == xtime(g_p1),
            g_p4_a2 == xtime(g_p4_a1),
            g_p4_a3 == xtime(g_p4_a2),
            g_p4_a4 == xtime(g_p4_a3),
            g_p4_a5 == xtime(g_p4_a4),
            g_p4_a6 == xtime(g_p4_a5),
            g_p4_a7 == xtime(g_p4_a6),
            g_p4 == mul_sum(g_p2, g_p1, g_p4_a1, g_p4_a2, g_p4_a3, g_p4_a4, g_p4_a5, g_p4_a6, g_p4_a7),
            g_p5_a1 == xtime(g_p3),
            g_p5_a2 == xtime(g_p5_a1),
            g_p5_a3 == xtime(g_p5_a2),
            g_p5_a4 == xtime(g_p5_a3),
            g_p5_a5 == xtime(g_p5_a4),
            g_p5_a6 == xtime(g_p5_a5),
            g_p5_a7 == xtime(g_p5_a6),
            g_p5 == mul_sum(g_x128, g_p3, g_p5_a1, g_p5_a2, g_p5_a3, g_p5_a4, g_p5_a5, g_p5_a6, g_p5_a7),
            g_inv_a1 == xtime(g_p4),
            g_inv_a2 == xtime(g_inv_a1),
            g_inv_a3 == xtime(g_inv_a2),
            g_inv_a4 == xtime(g_inv_a3),
            g_inv_a5 == xtime(g_inv_a4),
            g_inv_a6 == xtime(g_inv_a5),
            g_inv_a7 == xtime(g_inv_a6),
            g_inv == mul_sum(g_p5, g_p4, g_inv_a1, g_inv_a2, g_inv_a3, g_inv_a4, g_inv_a5, g_inv_a6, g_inv_a7),
    ;
    assert(sub_bytes_cell(0, a0, a1, a2, a3, a4, a5, a6, a7) == c_s7);
    assert(sub_bytes_cell(1, a0, a1, a2, a3, a4, a5, a6, a7) == c_s6);
    assert(sub_bytes_cell(2, a0, a1, a2, a3, a4, a5, a6, a7) == c_s5);
    assert(sub_bytes_cell(3, a0, a1, a2, a3, a4, a5, a6, a7) == c_s4);
    assert(sub_bytes_cell(4, a0, a1, a2, a3, a4, a5, a6, a7) == c_s3);
    assert(sub_bytes_cell(5, a0, a1, a2, a3, a4, a5, a6, a7) == c_s2);
    assert(sub_bytes_cell(6, a0, a1, a2, a3, a4, a5, a6, a7) == c_s1);
    assert(sub_bytes_cell(7, a0, a1, a2, a3, a4, a5, a6, a7) == c_s0);
}

/// On one bit position the inverse circuit computes the inverse AES S-box
/// of its input with the constant 0x63 put back.
#[verifier::rlimit(100)]
proof fn lemma_inv_sub_bytes_cell_sbox(a0: u8, a1: u8, a2: u8, a3: u8, a4: u8, a5: u8, a6: u8, a7: u8)
    requires
        a0 <= 1,
        a1 <= 1,
        a2 <= 1,
        a3 <= 1,
        a4 <= 1,
        a5 <= 1,
        a6 <= 1,
        a7 <= 1,
    ensures
        ({
            let x = gather8(a0, a1, a2, a3, a4, a5, a6, a7);
            gather8(inv_sub_bytes_cell(0, a0, a1, a2, a3, a4, a5, a6, a7), inv_sub_bytes_cell(1, a0, a1, a2, a3, a4, a5, a6, a7), inv_sub_bytes_cell(2, a0, a1, a2, a3, a4, a5, a6, a7), inv_sub_bytes_cell(3, a0, a1, a2, a3, a4, a5, a6, a7), inv_sub_bytes_cell(4, a0, a1, a2, a3, a4, a5, a6, a7), inv_sub_bytes_cell(5, a0, a1, a2, a3, a4, a5, a6, a7), inv_sub_bytes_cell(6, a0, a1, a2, a3, a4, a5, a6, a7), inv_sub_bytes_cell(7, a0, a1, a2, a3, a4, a5, a6, a7)) == aes_inv_sbox(x ^ 0x63u8)
        }),
{
    let x: u8 = gather8(a0, a1, a2, a3, a4, a5, a6, a7);
    let z: u8 = inv_affine((x ^ 0x63u8) ^ 0x63u8);
    let c_t23: u8 = a7 ^ a4;
    let c_t8: u8 = a6 ^ c_t23;
    let c_m2: u8 = c_t23 & c_t8;
    let c_t4: u8 = a3 ^ c_t8;
    let c_t22: u8 = a6 ^ a4;
    let c_t2: u8 = a7 ^ a6;
    let c_t1: u8 = a4 ^ a3;
    let c_t9: u8 = a0 ^ c_t1;
    let c_m7: u8 = c_t22 & c_t9;
    let c_t24: u8 = a3 ^ a0;
    let c_t10: u8 = c_t2 ^ c_t24;
    let c_m14: u8 = c_t2 & c_t10;
    let c_r5: u8 = a1 ^ a0;
    let c_t3: u8 = c_t1 ^ c_r5;
    let c_t13: u8 = c_t2 ^ c_r5;
    let c_t19: u8 = c_t22 ^ c_r5;
    let c_t17: u8 = a5 ^ c_t19;
    let c_t25: u8 = a5 ^ c_t1;
    let c_r13: u8 = a6 ^ a1;
    let c_t20: u8 = c_t24 ^ c_r13;
    let c_m9: u8 = c_t20 & c_t17;
    let c_r17: u8 = a5 ^ a2;
    let c_t6: u8 = c_t22 ^ c_r17;
    let c_m1: u8 = c_t13 & c_t6;
    let c_y5: u8 = a7 ^ c_r17;
    let c_m4: u8 = c_t19 & c_y5;
    let c_m5: u8 = c_m4 ^ c_m1;
    let c_m17: u8 = c_m5 ^ c_t24;
    let c_r18: u8 = a2 ^ a1;
    let c_t27: u8 = c_t1 ^ c_r18;
    let c_t15: u8 = c_t10 ^ c_t27;
    let c_m11: u8 = c_t1 & c_t15;
    let c_m15: u8 = c_m14 ^ c_m11;
    let c_m21: u8 = c_m17 ^ c_m15;
    let c_m12: u8 = c_t4 & c_t27;
    let c_m13: u8 = c_m12 ^ c_m11;
    let c_t14: u8 = c_t10 ^ c_r18;
    let c_m3: u8 = c_t14 ^ c_m1;
    let c_m16: u8 = c_m3 ^ c_m2;
    let c_m20: u8 = c_m16 ^ c_m13;
    let c_r19: u8 = a5 ^ a3;
    let c_t16: u8 = c_r13 ^ c_r19;
    let c_t26: u8 = c_t3 ^ c_t16;
    let c_m6: u8 = c_t3 & c_t16;
    let c_m8: u8 = c_t26 ^ c_m6;
    let c_m18: u8 = c_m8 ^ c_m7;
    let c_m22: u8 = c_m18 ^ c_m13;
    let c_m25: u8 = c_m22 & c_m20;
    let c_m26: u8 = c_m21 ^ c_m25;
    let c_m10: u8 = c_m9 ^ c_m6;
    let c_m19: u8 = c_m10 ^ c_m15;
    let c_m23: u8 = c_m19 ^ c_t25;
    let c_m28: u8 = c_m23 ^ c_m25;
    let c_m24: u8 = c_m22 ^ c_m23;
    let c_m30: u8 = c_m26 & c_m24;
    let c_m39: u8 = c_m23 ^ c_m30;
    let c_m48: u8 = c_m39 & c_y5;
    let c_m57: u8 = c_m39 & c_t19;
    let c_m36: u8 = c_m24 ^ c_m25;
    let c_m31: u8 = c_m20 & c_m23;
    let c_m27: u8 = c_m20 ^ c_m21;
    let c_m32: u8 = c_m27 & c_m31;
    let c_m29: u8 = c_m28 & c_m27;
    let c_m37: u8 = c_m21 ^ c_m29;
    let c_m42: u8 = c_m37 ^ c_m39;
    let c_m52: u8 = c_m42 & c_t15;
    let c_m61: u8 = c_m42 & c_t1;
    let c_p0: u8 = c_m52 ^ c_m61;
    let c_p16: u8 = c_m57 ^ c_m61;
    let c_m60: u8 = c_m37 & c_t20;
    let c_m51: u8 = c_m37 & c_t17;
    let c_m33: u8 = c_m27 ^ c_m25;
    let c_m38: u8 = c_m32 ^ c_m33;
    let c_m43: u8 = c_m37 ^ c_m38;
    let c_m49: u8 = c_m43 & c_t16;
    let c_p6: u8 = c_m49 ^ c_m60;
    let c_p13: u8 = c_m49 ^ c_m51;
    let c_m58: u8 = c_m43 & c_t3;
    let c_m50: u8 = c_m38 & c_t9;
    let c_m59: u8 = c_m38 & c_t22;
    let c_p1: u8 = c_m58 ^ c_m59;
    let c_p7: u8 = c_p0 ^ c_p1;
    let c_m34: u8 = c_m21 & c_m22;
    let c_m35: u8 = c_m24 & c_m34;
    let c_m40: u8 = c_m35 ^ c_m36;
    let c_m41: u8 = c_m38 ^ c_m40;
    let c_m45: u8 = c_m42 ^ c_m41;
    let c_m53: u8 = c_m45 & c_t27;
    let c_p8: u8 = c_m50 ^ c_m53;
    let c_p23: u8 = c_p7 ^ c_p8;
    let c_m62: u8 = c_m45 & c_t4;
    let c_p14: u8 = c_m49 ^ c_m62;
    let c_s6: u8 = c_p14 ^ c_p23;
    let c_m54: u8 = c_m41 & c_t10;
    let c_p2: u8 = c_m54 ^ c_m62;
    let c_p22: u8 = c_p2 ^ c_p7;
    let c_s0: u8 = c_p13 ^ c_p22;
    let c_p17: u8 = c_m58 ^ c_p2;
    let c_p15: u8 = c_m54 ^ c_m59;
    let c_m63: u8 = c_m41 & c_t2;
    let c_m44: u8 = c_m39 ^ c_m40;
    let c_m46: u8 = c_m44 & c_t6;
    let c_p5: u8 = c_m46 ^ c_m51;
    let c_p18: u8 = c_m63 ^ c_p5;
    let c_p24: u8 = c_p5 ^ c_p7;
    let c_p12: u8 = c_m46 ^ c_m48;
    let c_s3: u8 = c_p12 ^ c_p22;
    let c_m55: u8 = c_m44 & c_t13;
    let c_p9: u8 = c_m55 ^ c_m63;
    let c_s7: u8 = c_p9 ^ c_p16;
    let c_m47: u8 = c_m40 & c_t8;
    let c_p3: u8 = c_m47 ^ c_m50;
    let c_p19: u8 = c_p2 ^ c_p3;
    let c_s5: u8 = c_p19 ^ c_p24;
    let c_p11: u8 = c_p0 ^ c_p3;
    let c_p26: u8 = c_p9 ^ c_p11;
    let c_m56: u8 = c_m40 & c_t23;
    let c_p4: u8 = c_m48 ^ c_m56;
    let c_p20: u8 = c_p4 ^ c_p6;
    let c_p29: u8 = c_p15 ^ c_p20;
    let c_s1: u8 = c_p26 ^ c_p29;
    let c_p10: u8 = c_m57 ^ c_p4;
    let c_p27: u8 = c_p10 ^ c_p18;
    let c_s4: u8 = c_p23 ^ c_p27;
    let c_p25: u8 = c_p6 ^ c_p10;
    let c_p28: u8 = c_p11 ^ c_p25;
    let c_s2: u8 = c_p17 ^ c_p28;
    let g_x2_a1: u8 = xtime(z);
    let g_x2_a2: u8 = xtime(g_x2_a1);
    let g_x2_a3: u8 = xtime(g_x2_a2);
    let g_x2_a4: u8 = xtime(g_x2_a3);
    let g_x2_a5: u8 = xtime(g_x2_a4);
    let g_x2_a6: u8 = xtime(g_x2_a5);
    let g_x2_a7: u8 = xtime(g_x2_a6);
    let g_x2: u8 = mul_sum(z, z, g_x2_a1, g_x2_a2, g_x2_a3, g_x2_a4, g_x2_a5, g_x2_a6, g_x2_a7);
    let g_x4_a1: u8 = xtime(g_x2);
    let g_x4_a2: u8 = xtime(g_x4_a1);
    let g_x4_a3: u8 = xtime(g_x4_a2);
    let g_x4_a4: u8 = xtime(g_x4_a3);
    let g_x4_a5: u8 = xtime(g_x4_a4);
    let g_x4_a6: u8 = xtime(g_x4_a5);
    let g_x4_a7: u8 = xtime(g_x4_a6);
    let g_x4: u8 = mul_sum(g_x2, g_x2, g_x4_a1, g_x4_a2, g_x4_a3, g_x4_a4, g_x4_a5, g_x4_a6, g_x4_a7);
    let g_x8_a1: u8 = xtime(g_x4);
    let g_x8_a2: u8 = xtime(g_x8_a1);
    let g_x8_a3: u8 = xtime(g_x8_a2);
    let g_x8_a4: u8 = xtime(g_x8_a3);
    let g_x8_a5: u8 = xtime(g_x8_a4);
    let g_x8_a6: u8 = xtime(g_x8_a5);
    let g_x8_a7: u8 = xtime(g_x8_a6);
    let g_x8: u8 = mul_sum(g_x4, g_x4, g_x8_a1, g_x8_a2, g_x8_a3, g_x8_a4, g_x8_a5, g_x8_a6, g_x8_a7);
    let g_x16_a1: u8 = xtime(g_x8);
    let g_x16_a2: u8 = xtime(g_x16_a1);
    let g_x16_a3: u8 = xtime(g_x16_a2);
    let g_x16_a4: u8 = xtime(g_x16_a3);
    let g_x16_a5: u8 = xtime(g_x16_a4);
    let g_x16_a6: u8 = xtime(g_x16_a5);
    let g_x16_a7: u8 = xtime(g_x16_a6);
    let g_x16: u8 = mul_sum(g_x8, g_x8, g_x16_a1, g_x16_a2, g_x16_a3, g_x16_a4, g_x16_a5, g_x16_a6, g_x16_a7);
    let g_x32_a1: u8 = xtime(g_x16);
    let g_x32_a2: u8 = xtime(g_x32_a1);
    let g_x32_a3: u8 = xtime(g_x32_a2);
    let g_x32_a4: u8 = xtime(g_x32_a3);
    let g_x32_a5: u8 = xtime(g_x32_a4);
    let g_x32_a6: u8 = xtime(g_x32_a5);
    let g_x32_a7: u8 = xtime(g_x32_a6);
    let g_x32: u8 = mul_sum(g_x16, g_x16, g_x32_a1, g_x32_a2, g_x32_a3, g_x32_a4, g_x32_a5, g_x32_a6, g_x32_a7);
    let g_x64_a1: u8 = xtime(g_x32);
    let g_x64_a2: u8 = xtime(g_x64_a1);
    let g_x64_a3: u8 = xtime(g_x64_a2);
    let g_x64_a4: u8 = xtime(g_x64_a3);
    let g_x64_a5: u8 = xtime(g_x64_a4);
    let g_x64_a6: u8 = xtime(g_x64_a5);
    let g_x64_a7: u8 = xtime(g_x64_a6);
    let g_x64: u8 = mul_sum(g_x32, g_x32, g_x64_a1, g_x64_a2, g_x64_a3, g_x64_a4, g_x64_a5, g_x64_a6, g_x64_a7);
    let g_x128_a1: u8 = xtime(g_x64);
    let g_x128_a2: u8 = xtime(g_x128_a1);
    let g_x128_a3: u8 = xtime(g_x128_a2);
    let g_x128_a4: u8 = xtime(g_x128_a3);
    let g_x128_a5: u8 = xtime(g_x128_a4);
    let g_x128_a6: u8 = xtime(g_x128_a5);
    let g_x128_a7: u8 = xtime(g_x128_a6);
    let g_x128: u8 = mul_sum(g_x64, g_x64, g_x128_a1, g_x128_a2, g_x128_a3, g_x128_a4, g_x128_a5, g_x128_a6, g_x128_a7);
    let g_p1_a1: u8 = xtime(g_x2);
    let g_p1_a2: u8 = xtime(g_p1_a1);
    let g_p1_a3: u8 = xtime(g_p1_a2);
    let g_p1_a4: u8 = xtime(g_p1_a3);
    let g_p1_a5: u8 = xtime(g_p1_a4);
    let g_p1_a6: u8 = xtime(g_p1_a5);
    let g_p1_a7: u8 = xtime(g_p1_a6);
    let g_p1: u8 = mul_sum(g_x4, g_x2, g_p1_a1, g_p1_a2, g_p1_a3, g_p1_a4, g_p1_a5, g_p1_a6, g_p1_a7);
    let g_p2_a1: u8 = xtime(g_x8);
    let g_p2_a2: u8 = xtime(g_p2_a1);
    let g_p2_a3: u8 = xtime(g_p2_a2);
    let g_p2_a4: u8 = xtime(g_p2_a3);
    let g_p2_a5: u8 = xtime(g_p2_a4);
    let g_p2_a6: u8 = xtime(g_p2_a5);
    let g_p2_a7: u8 = xtime(g_p2_a6);
    let g_p2: u8 = mul_sum(g_x16, g_x8, g_p2_a1, g_p2_a2, g_p2_a3, g_p2_a4, g_p2_a5, g_p2_a6, g_p2_a7);
    let g_p3_a1: u8 = xtime(g_x32);
    let g_p3_a2: u8 = xtime(g_p3_a1);
    let g_p3_a3: u8 = xtime(g_p3_a2);
    let g_p3_a4: u8 = xtime(g_p3_a3);
    let g_p3_a5: u8 = xtime(g_p3_a4);
    let g_p3_a6: u8 = xtime(g_p3_a5);
    let g_p3_a7: u8 = xtime(g_p3_a6);
    let g_p3: u8 = mul_sum(g_x64, g_x32, g_p3_a1, g_p3_a2, g_p3_a3, g_p3_a4, g_p3_a5, g_p3_a6, g_p3_a7);
    let g_p4_a1: u8 = xtime(g_p1);
    let g_p4_a2: u8 = xtime(g_p4_a1);
    let g_p4_a3: u8 = xtime(g_p4_a2);
    let g_p4_a4: u8 = xtime(g_p4_a3);
    let g_p4_a5: u8 = xtime(g_p4_a4);
    let g_p4_a6: u8 = xtime(g_p4_a5);
    let g_p4_a7: u8 = xtime(g_p4_a6);
    let g_p4: u8 = mul_sum(g_p2, g_p1, g_p4_a1, g_p4_a2, g_p4_a3, g_p4_a4, g_p4_a5, g_p4_a6, g_p4_a7);
    let g_p5_a1: u8 = xtime(g_p3);
    let g_p5_a2: u8 = xtime(g_p5_a1);
    let g_p5_a3: u8 = xtime(g_p5_a2);
    let g_p5_a4: u8 = xtime(g_p5_a3);
    let g_p5_a5: u8 = xtime(g_p5_a4);
    let g_p5_a6: u8 = xtime(g_p5_a5);
    let g_p5_a7: u8 = xtime(g_p5_a6);
    let g_p5: u8 = mul_sum(g_x128, g_p3, g_p5_a1, g_p5_a2, g_p5_a3, g_p5_a4, g_p5_a5, g_p5_a6, g_p5_a7);
    let g_inv_a1: u8 = xtime(g_p4);
    let g_inv_a2: u8 = xtime(g_inv_a1);
    let g_inv_a3: u8 = xtime(g_inv_a2);
    let g_inv_a4: u8 = xtime(g_inv_a3);
    let g_inv_a5: u8 = xtime(g_inv_a4);
    let g_inv_a6: u8 = xtime(g_inv_a5);
    let g_inv_a7: u8 = xtime(g_inv_a6);
    let g_inv: u8 = mul_sum(g_p5, g_p4, g_inv_a1, g_inv_a2, g_inv_a3, g_inv_a4, g_inv_a5, g_inv_a6, g_inv_a7);
    assert(gather8(c_s7, c_s6, c_s5, c_s4, c_s3, c_s2, c_s1, c_s0) == g_inv) by (bit_vector)
        requires
            a0 <= 1,
            a1 <= 1,
            a2 <= 1,
            a3 <= 1,
            a4 <= 1,
            a5 <= 1,
            a6 <= 1,
            a7 <= 1,
            x == gather8(a0, a1, a2, a3, a4, a5, a6, a7),
            z == inv_affine((x ^ 0x63u8) ^ 0x63u8),
            c_t23 == a7 ^ a4,
            c_t8 == a6 ^ c_t23,
            c_m2 == c_t23 & c_t8,
            c_t4 == a3 ^ c_t8,
            c_t22 == a6 ^ a4,
            c_t2 == a7 ^ a6,
            c_t1 == a4 ^ a3,
            c_t9 == a0 ^ c_t1,
            c_m7 == c_t22 & c_t9,
            c_t24 == a3 ^ a0,
            c_t10 == c_t2 ^ c_t24,
            c_m14 == c_t2 & c_t10,
            c_r5 == a1 ^ a0,
            c_t3 == c_t1 ^ c_r5,
            c_t13 == c_t2 ^ c_r5,
            c_t19 == c_t22 ^ c_r5,
            c_t17 == a5 ^ c_t19,
            c_t25 == a5 ^ c_t1,
            c_r13 == a6 ^ a1,
            c_t20 == c_t24 ^ c_r13,
            c_m9 == c_t20 & c_t17,
            c_r17 == a5 ^ a2,
            c_t6 == c_t22 ^ c_r17,
            c_m1 == c_t13 & c_t6,
            c_y5 == a7 ^ c_r17,
            c_m4 == c_t19 & c_y5,
            c_m5 == c_m4 ^ c_m1,
            c_m17 == c_m5 ^ c_t24,
            c_r18 == a2 ^ a1,
            c_t27 == c_t1 ^ c_r18,
            c_t15 == c_t10 ^ c_t27,
            c_m11 == c_t1 & c_t15,
            c_m15 == c_m14 ^ c_m11,
            c_m21 == c_m17 ^ c_m15,
            c_m12 == c_t4 & c_t27,
            c_m13 == c_m12 ^ c_m11,
            c_t14 == c_t10 ^ c_r18,
            c_m3 == c_t14 ^ c_m1,
            c_m16 == c_m3 ^ c_m2,
            c_m20 == c_m16 ^ c_m13,
            c_r19 == a5 ^ a3,
            c_t16 == c_r13 ^ c_r19,
            c_t26 == c_t3 ^ c_t16,
            c_m6 == c_t3 & c_t16,
            c_m8 == c_t26 ^ c_m6,
            c_m18 == c_m8 ^ c_m7,
            c_m22 == c_m18 ^ c_m13,
            c_m25 == c_m22 & c_m20,
            c_m26 == c_m21 ^ c_m25,
            c_m10 == c_m9 ^ c_m6,
            c_m19 == c_m10 ^ c_m15,
            c_m23 == c_m19 ^ c_t25,
            c_m28 == c_m23 ^ c_m25,
            c_m24 == c_m22 ^ c_m23,
            c_m30 == c_m26 & c_m24,
            c_m39 == c_m23 ^ c_m30,
            c_m48 == c_m39 & c_y5,
            c_m57 == c_m39 & c_t19,
            c_m36 == c_m24 ^ c_m25,
            c_m31 == c_m20 & c_m23,
            c_m27 == c_m20 ^ c_m21,
            c_m32 == c_m27 & c_m31,
            c_m29 == c_m28 & c_m27,
            c_m37 == c_m21 ^ c_m29,
            c_m42 == c_m37 ^ c_m39,
            c_m52 == c_m42 & c_t15,
            c_m61 == c_m42 & c_t1,
            c_p0 == c_m52 ^ c_m61,
            c_p16 == c_m57 ^ c_m61,
            c_m60 == c_m37 & c_t20,
            c_m51 == c_m37 & c_t17,
            c_m33 == c_m27 ^ c_m25,
            c_m38 == c_m32 ^ c_m33,
            c_m43 == c_m37 ^ c_m38,
            c_m49 == c_m43 & c_t16,
            c_p6 == c_m49 ^ c_m60,
            c_p13 == c_m49 ^ c_m51,
            c_m58 == c_m43 & c_t3,
            c_m50 == c_m38 & c_t9,
            c_m59 == c_m38 & c_t22,
            c_p1 == c_m58 ^ c_m59,
            c_p7 == c_p0 ^ c_p1,
            c_m34 == c_m21 & c_m22,
            c_m35 == c_m24 & c_m34,
            c_m40 == c_m35 ^ c_m36,
            c_m41 == c_m38 ^ c_m40,
            c_m45 == c_m42 ^ c_m41,
            c_m53 == c_m45 & c_t27,
            c_p8 == c_m50 ^ c_m53,
            c_p23 == c_p7 ^ c_p8,
            c_m62 == c_m45 & c_t4,
            c_p14 == c_m49 ^ c_m62,
            c_s6 == c_p14 ^ c_p23,
            c_m54 == c_m41 & c_t10,
            c_p2 == c_m54 ^ c_m62,
            c_p22 == c_p2 ^ c_p7,
            c_s0 == c_p13 ^ c_p22,
            c_p17 == c_m58 ^ c_p2,
            c_p15 == c_m54 ^ c_m59,
            c_m63 == c_m41 & c_t2,
            c_m44 == c_m39 ^ c_m40,
            c_m46 == c_m44 & c_t6,
            c_p5 == c_m46 ^ c_m51,
            c_p18 == c_m63 ^ c_p5,
            c_p24 == c_p5 ^ c_p7,
            c_p12 == c_m46 ^ c_m48,
            c_s3 == c_p12 ^ c_p22,
            c_m55 == c_m44 & c_t13,
            c_p9 == c_m55 ^ c_m63,
            c_s7 == c_p9 ^ c_p16,
            c_m47 == c_m40 & c_t8,
            c_p3 == c_m47 ^ c_m50,
            c_p19 == c_p2 ^ c_p3,
            c_s5 == c_p19 ^ c_p24,
            c_p11 == c_p0 ^ c_p3,
            c_p26 == c_p9 ^ c_p11,
            c_m56 == c_m40 & c_t23,
            c_p4 == c_m48 ^ c_m56,
            c_p20 == c_p4 ^ c_p6,
            c_p29 == c_p15 ^ c_p20,
            c_s1 == c_p26 ^ c_p29,
            c_p10 == c_m57 ^ c_p4,
            c_p27 == c_p10 ^ c_p18,
            c_s4 == c_p23 ^ c_p27,
            c_p25 == c_p6 ^ c_p10,
            c_p28 == c_p11 ^ c_p25,
            c_s2 == c_p17 ^ c_p28,
            g_x2_a1 == xtime(z),
            g_x2_a2 == xtime(g_x2_a1),
            g_x2_a3 == xtime(g_x2_a2),
            g_x2_a4 == xtime(g_x2_a3),
            g_x2_a5 == xtime(g_x2_a4),
            g_x2_a6 == xtime(g_x2_a5),
            g_x2_a7 == xtime(g_x2_a6),
            g_x2 == mul_sum(z, z, g_x2_a1, g_x2_a2, g_x2_a3, g_x2_a4, g_x2_a5, g_x2_a6, g_x2_a7),
            g_x4_a1 == xtime(g_x2),
            g_x4_a2 == xtime(g_x4_a1),
            g_x4_a3 == xtime(g_x4_a2),
            g_x4_a4 == xtime(g_x4_a3),
            g_x4_a5 == xtime(g_x4_a4),
            g_x4_a6 == xtime(g_x4_a5),
            g_x4_a7 == xtime(g_x4_a6),
            g_x4 == mul_sum(g_x2, g_x2, g_x4_a1, g_x4_a2, g_x4_a3, g_x4_a4, g_x4_a5, g_x4_a6, g_x4_a7),
            g_x8_a1 == xtime(g_x4),
            g_x8_a2 == xtime(g_x8_a1),
            g_x8_a3 == xtime(g_x8_a2),
            g_x8_a4 == xtime(g_x8_a3),
            g_x8_a5 == xtime(g_x8_a4),
            g_x8_a6 == xtime(g_x8_a5),
            g_x8_a7 == xtime(g_x8_a6),
            g_x8 == mul_sum(g_x4, g_x4, g_x8_a1, g_x8_a2, g_x8_a3, g_x8_a4, g_x8_a5, g_x8_a6, g_x8_a7),
            g_x16_a1 == xtime(g_x8),
            g_x16_a2 == xtime(g_x16_a1),
            g_x16_a3 == xtime(g_x16_a2),
            g_x16_a4 == xtime(g_x16_a3),
            g_x16_a5 == xtime(g_x16_a4),
            g_x16_a6 == xtime(g_x16_a5),
            g_x16_a7 == xtime(g_x16_a6),
            g_x16 == mul_sum(g_x8, g_x8, g_x16_a1, g_x16_a2, g_x16_a3, g_x16_a4, g_x16_a5, g_x16_a6, g_x16_a7),
            g_x32_a1 == xtime(g_x16),
            g_x32_a2 == xtime(g_x32_a1),
            g_x32_a3 == xtime(g_x32_a2),
            g_x32_a4 == xtime(g_x32_a3),
            g_x32_a5 == xtime(g_x32_a4),
            g_x32_a6 == xtime(g_x32_a5),
            g_x32_a7 == xtime(g_x32_a6),
            g_x32 == mul_sum(g_x16, g_x16, g_x32_a1, g_x32_a2, g_x32_a3, g_x32_a4, g_x32_a5, g_x32_a6, g_x32_a7),
            g_x64_a1 == xtime(g_x32),
            g_x64_a2 == xtime(g_x64_a1),
            g_x64_a3 == xtime(g_x64_a2),
            g_x64_a4 == xtime(g_x64_a3),
            g_x64_a5 == xtime(g_x64_a4),
            g_x64_a6 == xtime(g_x64_a5),
            g_x64_a7 == xtime(g_x64_a6),
            g_x64 == mul_sum(g_x32, g_x32, g_x64_a1, g_x64_a2, g_x64_a3, g_x64_a4, g_x64_a5, g_x64_a6, g_x64_a7),
            g_x128_a1 == xtime(g_x64),
            g_x128_a2 == xtime(g_x128_a1),
            g_x128_a3 == xtime(g_x128_a2),
            g_x128_a4 == xtime(g_x128_a3),
            g_x128_a5 == xtime(g_x128_a4),
            g_x128_a6 == xtime(g_x128_a5),
            g_x128_a7 == xtime(g_x128_a6),
            g_x128 == mul_sum(g_x64, g_x64, g_x128_a1, g_x128_a2, g_x128_a3, g_x128_a4, g_x128_a5, g_x128_a6, g_x128_a7),
            g_p1_a1 == xtime(g_x2),
            g_p1_a2 == xtime(g_p1_a1),
            g_p1_a3 == xtime(g_p1_a2),
            g_p1_a4 == xtime(g_p1_a3),
            g_p1_a5 == xtime(g_p1_a4),
            g_p1_a6 == xtime(g_p1_a5),
            g_p1_a7 == xtime(g_p1_a6),
            g_p1 == mul_sum(g_x4, g_x2, g_p1_a1, g_p1_a2, g_p1_a3, g_p1_a4, g_p1_a5, g_p1_a6, g_p1_a7),
            g_p2_a1 == xtime(g_x8),
            g_p2_a2 == xtime(g_p2_a1),
            g_p2_a3 == xtime(g_p2_a2),
            g_p2_a4 == xtime(g_p2_a3),
            g_p2_a5 == xtime(g_p2_a4),
            g_p2_a6 == xtime(g_p2_a5),
            g_p2_a7 == xtime(g_p2_a6),
            g_p2 == mul_sum(g_x16, g_x8, g_p2_a1, g_p2_a2, g_p2_a3, g_p2_a4, g_p2_a5, g_p2_a6, g_p2_a7),
            g_p3_a1 == xtime(g_x32),
            g_p3_a2 == xtime(g_p3_a1),
            g_p3_a3 == xtime(g_p3_a2),
            g_p3_a4 == xtime(g_p3_a3),
            g_p3_a5 == xtime(g_p3_a4),
            g_p3_a6 == xtime(g_p3_a5),
            g_p3_a7 == xtime(g_p3_a6),
            g_p3 == mul_sum(g_x64, g_x32, g_p3_a1, g_p3_a2, g_p3_a3, g_p3_a4, g_p3_a5, g_p3_a6, g_p3_a7),
            g_p4_a1 == xtime(g_p1),
            g_p4_a2 == xtime(g_p4_a1),
            g_p4_a3 == xtime(g_p4_a2),
            g_p4_a4 == xtime(g_p4_a3),
            g_p4_a5 == xtime(g_p4_a4),
            g_p4_a6 == xtime(g_p4_a5),
            g_p4_a7 == xtime(g_p4_a6),
            g_p4 == mul_sum(g_p2, g_p1, g_p4_a1, g_p4_a2, g_p4_a3, g_p4_a4, g_p4_a5, g_p4_a6, g_p4_a7),
            g_p5_a1 == xtime(g_p3),
            g_p5_a2 == xtime(g_p5_a1),
            g_p5_a3 == xtime(g_p5_a2),
            g_p5_a4 == xtime(g_p5_a3),
            g_p5_a5 == xtime(g_p5_a4),
            g_p5_a6 == xtime(g_p5_a5),
            g_p5_a7 == xtime(g_p5_a6),
            g_p5 == mul_sum(g_x128, g_p3, g_p5_a1, g_p5_a2, g_p5_a3, g_p5_a4, g_p5_a5, g_p5_a6, g_p5_a7),
            g_inv_a1 == xtime(g_p4),
            g_inv_a2 == xtime(g_inv_a1),
            g_inv_a3 == xtime(g_inv_a2),
            g_inv_a4 == xtime(g_inv_a3),
            g_inv_a5 == xtime(g_inv_a4),
            g_inv_a6 == xtime(g_inv_a5),
            g_inv_a7 == xtime(g_inv_a6),
            g_inv == mul_sum(g_p5, g_p4, g_inv_a1, g_inv_a2, g_inv_a3, g_inv_a4, g_inv_a5, g_inv_a6, g_inv_a7),
    ;
    assert(inv_sub_bytes_cell(0, a0, a1, a2, a3, a4, a5, a6, a7) == c_s7);
    assert(inv_sub_bytes_cell(1, a0, a1, a2, a3, a4, a5, a6, a7) == c_s6);
    assert(inv_sub_bytes_cell(2, a0, a1, a2, a3, a4, a5, a6, a7) == c_s5);
    assert(inv_sub_bytes_cell(3, a0, a1, a2, a3, a4, a5, a6, a7) == c_s4);
    assert(inv_sub_bytes_cell(4, a0, a1, a2, a3, a4, a5, a6, a7) == c_s3);
    assert(inv_sub_bytes_cell(5, a0, a1, a2, a3, a4, a5, a6, a7) == c_s2);
    assert(inv_sub_bytes_cell(6, a0, a1, a2, a3, a4, a5, a6, a7) == c_s1);
    assert(inv_sub_bytes_cell(7, a0, a1, a2, a3, a4, a5, a6, a7) == c_s0);
}

/// The cell at bit position `p` of a state: bit `i` of the cell is bit `p`
/// of plane `i`.
pub open spec fn cell_of(s: Seq<Lane>, p: u128) -> u8 {
    gather8(
        bit_of(s[0].0, p),
        bit_of(s[1].0, p),
        bit_of(s[2].0, p),
        bit_of(s[3].0, p),
        bit_of(s[4].0, p),
        bit_of(s[5].0, p),
        bit_of(s[6].0, p),
        bit_of(s[7].0, p),
    )
}

/// The forward circuit applies the AES S-box to every cell of the state,
/// leaving out the constant 0x63 (its four NOT gates).
pub proof fn lemma_sub_bytes_sbox(s: Seq<Lane>, p: u128)
    requires
        s.len() == 8,
    ensures
        cell_of(sub_bytes_spec(s), p) == aes_sbox(cell_of(s, p)) ^ 0x63u8,
{
    reveal(sub_bytes_spec);
    let t = sub_bytes_spec(s);
    lemma_sub_bytes_plane_bits(s[0].0, s[1].0, s[2].0, s[3].0, s[4].0, s[5].0, s[6].0, s[7].0, p);
    lemma_bit_of_ops(s[0].0, s[0].0, p);
    lemma_bit_of_ops(s[1].0, s[1].0, p);
    lemma_bit_of_ops(s[2].0, s[2].0, p);
    lemma_bit_of_ops(s[3].0, s[3].0, p);
    lemma_bit_of_ops(s[4].0, s[4].0, p);
    lemma_bit_of_ops(s[5].0, s[5].0, p);
    lemma_bit_of_ops(s[6].0, s[6].0, p);
    lemma_bit_of_ops(s[7].0, s[7].0, p);
    lemma_sub_bytes_cell_sbox(
        bit_of(s[0].0, p), bit_of(s[1].0, p), bit_of(s[2].0, p), bit_of(s[3].0, p),
        bit_of(s[4].0, p), bit_of(s[5].0, p), bit_of(s[6].0, p), bit_of(s[7].0, p),
    );
    assert(t[0].0 == sub_bytes_plane(0, s[0].0, s[1].0, s[2].0, s[3].0, s[4].0, s[5].0, s[6].0, s[7].0));
    assert(t[1].0 == sub_bytes_plane(1, s[0].0, s[1].0, s[2].0, s[3].0, s[4].0, s[5].0, s[6].0, s[7].0));
    assert(t[2].0 == sub_bytes_plane(2, s[0].0, s[1].0, s[2].0, s[3].0, s[4].0, s[5].0, s[6].0, s[7].0));
    assert(t[3].0 == sub_bytes_plane(3, s[0].0, s[1].0, s[2].0, s[3].0, s[4].0, s[5].0, s[6].0, s[7].0));
    assert(t[4].0 == sub_bytes_plane(4, s[0].0, s[1].0, s[2].0, s[3].0, s[4].0, s[5].0, s[6].0, s[7].0));
    assert(t[5].0 == sub_bytes_plane(5, s[0].0, s[1].0, s[2].0, s[3].0, s[4].0, s[5].0, s[6].0, s[7].0));
    assert(t[6].0 == sub_bytes_plane(6, s[0].0, s[1].0, s[2].0, s[3].0, s[4].0, s[5].0, s[6].0, s[7].0));
    assert(t[7].0 == sub_bytes_plane(7, s[0].0, s[1].0, s[2].0, s[3].0, s[4].0, s[5].0, s[6].0, s[7].0));
}

/// The inverse circuit applies the inverse AES S-box to every cell of the
/// state, after putting back the constant 0x63.
pub proof fn lemma_inv_sub_bytes_sbox(s: Seq<Lane>, p: u128)
    requires
        s.len() == 8,
    ensures
        cell_of(inv_sub_bytes_spec(s), p) == aes_inv_sbox(cell_of(s, p) ^ 0x63u8),
{
    reveal(inv_sub_bytes_spec);
    let t = inv_sub_bytes_spec(s);
    lemma_inv_sub_bytes_plane_bits(s[0].0, s[1].0, s[2].0, s[3].0, s[4].0, s[5].0, s[6].0, s[7].0, p);
    lemma_bit_of_ops(s[0].0, s[0].0, p);
    lemma_bit_of_ops(s[1].0, s[1].0, p);
    lemma_bit_of_ops(s[2].0, s[2].0, p);
    lemma_bit_of_ops(s[3].0, s[3].0, p);
    lemma_bit_of_ops(s[4].0, s[4].0, p);
    lemma_bit_of_ops(s[5].0, s[5].0, p);
    lemma_bit_of_ops(s[6].0, s[6].0, p);
    lemma_bit_of_ops(s[7].0, s[7].0, p);
    lemma_inv_sub_bytes_cell_sbox(
        bit_of(s[0].0, p), bit_of(s[1].0, p), bit_of(s[2].0, p), bit_of(s[3].0, p),
        bit_of(s[4].0, p), bit_of(s[5].0, p), bit_of(s[6].0, p), bit_of(s[7].0, p),
    );
    assert(t[0].0 == inv_sub_bytes_plane(0, s[0].0, s[1].0, s[2].0, s[3].0, s[4].0, s[5].0, s[6].0, s[7].0));
    assert(t[1].0 == inv_sub_bytes_plane(1, s[0].0, s[1].0, s[2].0, s[3].0, s[4].0, s[5].0, s[6].0, s[7].0));
    assert(t[2].0 == inv_sub_bytes_plane(2, s[0].0, s[1].0, s[2].0, s[3].0, s[4].0, s[5].0, s[6].0, s[7].0));
    assert(t[3].0 == inv_sub_bytes_plane(3, s[0].0, s[1].0, s[2].0, s[3].0, s[4].0, s[5].0, s[6].0, s[7].0));
    assert(t[4].0 == inv_sub_bytes_plane(4, s[0].0, s[1].0, s[2].0, s[3].0, s[4].0, s[5].0, s[6].0, s[7].0));
    assert(t[5].0 == inv_sub_bytes_plane(5, s[0].0, s[1].0, s[2].0, s[3].0, s[4].0, s[5].0, s[6].0, s[7].0));
    assert(t[6].0 == inv_sub_bytes_plane(6, s[0].0, s[1].0, s[2].0, s[3].0, s[4].0, s[5].0, s[6].0, s[7].0));
    assert(t[7].0 == inv_sub_bytes_plane(7, s[0].0, s[1].0, s[2].0, s[3].0, s[4].0, s[5].0, s[6].0, s[7].0));
}

} // verus!

//! The bit-sliced S-box circuit: the published low-multiplicative-depth
//! logic representation of the AES substitution, as a specification, and the
//! proof that it agrees with the table on all 256 bytes.
use vstd::prelude::*;

verus! {

use crate::model::bit;
use crate::model::byte_of_bits;
use crate::sbox::sbox;

/// The boolean S-box circuit applied to one byte, wire for wire.
///
/// The input bits `u0 .. u7` are taken from the byte most significant
/// first; the output bits `s0 .. s7`, also most significant first, are
/// reassembled into the result. XOR is written `!=`, XNOR `==`, AND `&&`.
pub open spec fn sbox_circuit(v: u8) -> u8 {
    let u0 = bit(v, 7);
    let u1 = bit(v, 6);
    let u2 = bit(v, 5);
    let u3 = bit(v, 4);
    let u4 = bit(v, 3);
    let u5 = bit(v, 2);
    let u6 = bit(v, 1);
    let u7 = bit(v, 0);
    let t1: bool = (u3 != u5);
    let t2: bool = (u0 != u6);
    let t3: bool = (u0 != u3);
    let t4: bool = (u0 != u5);
    let t5: bool = (u1 != u2);
    let t6: bool = (t5 != u7);
    let t7: bool = (t6 != u3);
    let t8: bool = (t2 != t1);
    let t9: bool = (t6 != u0);
    let t10: bool = (t6 != u6);
    let t11: bool = (t10 != t4);
    let t12: bool = (u4 != t8);
    let t13: bool = (t12 != u5);
    let t14: bool = (t12 != u1);
    let t15: bool = (t13 != u7);
    let t16: bool = (t13 != t5);
    let t17: bool = (t14 != t3);
    let t18: bool = (u7 != t17);
    let t19: bool = (t16 != t17);
    let t20: bool = (t16 != t4);
    let t21: bool = (t5 != t17);
    let t22: bool = (t2 != t21);
    let t23: bool = (u0 != t21);
    let t24: bool = (t8 && t13);
    let t25: bool = (t11 && t15);
    let t26: bool = (t25 != t24);
    let t27: bool = (t7 && u7);
    let t28: bool = (t27 != t24);
    let t29: bool = (t2 && t21);
    let t30: bool = (t10 && t6);
    let t31: bool = (t30 != t29);
    let t32: bool = (t9 && t18);
    let t33: bool = (t32 != t29);
    let t34: bool = (t3 && t17);
    let t35: bool = (t1 && t19);
    let t36: bool = (t35 != t34);
    let t37: bool = (t4 && t16);
    let t38: bool = (t37 != t34);
    let t39: bool = (t26 != t14);
    let t40: bool = (t28 != t38);
    let t41: bool = (t31 != t36);
    let t42: bool = (t33 != t38);
    let t43: bool = (t39 != t36);
    let t44: bool = (t40 != t20);
    let t45: bool = (t41 != t22);
    let t46: bool = (t42 != t23);
    let t47: bool = (t43 != t44);
    let t48: bool = (t43 && t45);
    let t49: bool = (t46 != t48);
    let t50: bool = (t47 && t49);
    let t51: bool = (t50 != t44);
    let t52: bool = (t45 != t46);
    let t53: bool = (t44 != t48);
    let t54: bool = (t53 && t52);
    let t55: bool = (t54 != t46);
    let t56: bool = (t45 != t55);
    let t57: bool = (t49 != t55);
    let t58: bool = (t46 && t57);
    let t59: bool = (t58 != t56);
    let t60: bool = (t49 != t58);
    let t61: bool = (t51 && t60);
    let t62: bool = (t47 != t61);
    let t63: bool = (t62 != t59);
    let t64: bool = (t51 != t55);
    let t65: bool = (t51 != t62);
    let t66: bool = (t55 != t59);
    let t67: bool = (t64 != t63);
    let t68: bool = (t66 && t13);
    let t69: bool = (t59 && t15);
    let t70: bool = (t55 && u7);
    let t71: bool = (t65 && t21);
    let t72: bool = (t62 && t6);
    let t73: bool = (t51 && t18);
    let t74: bool = (t64 && t17);
    let t75: bool = (t67 && t19);
    let t76: bool = (t63 && t16);
    let t77: bool = (t66 && t8);
    let t78: bool = (t59 && t11);
    let t79: bool = (t55 && t7);
    let t80: bool = (t65 && t2);
    let t81: bool = (t62 && t10);
    let t82: bool = (t51 && t9);
    let t83: bool = (t64 && t3);
    let t84: bool = (t67 && t1);
    let t85: bool = (t63 && t4);
    let t86: bool = (t83 != t84);
    let t87: bool = (t78 != t86);
    let t88: bool = (t77 != t87);
    let t89: bool = (t68 != t70);
    let t90: bool = (t69 != t68);
    let t91: bool = (t71 != t72);
    let t92: bool = (t80 != t89);
    let t93: bool = (t75 != t91);
    let t94: bool = (t76 != t92);
    let t95: bool = (t93 != t94);
    let t96: bool = (t91 != t90);
    let t97: bool = (t71 != t73);
    let t98: bool = (t81 != t86);
    let t99: bool = (t89 != t97);
    let s3: bool = (t88 != t96);
    let t100: bool = (t74 != t93);
    let t101: bool = (t82 != t95);
    let t102: bool = (t98 != t99);
    let s7: bool = (t80 == t102);
    let t103: bool = (t83 != t100);
    let t104: bool = (t87 != t79);
    let s0: bool = (t88 != t100);
    let s6: bool = (t95 == t102);
    let s4: bool = (t99 != s3);
    let s1: bool = (s3 == t100);
    let t105: bool = (t101 != t103);
    let s2: bool = (t105 == t85);
    let s5: bool = (t104 != t101);
    byte_of_bits(s7, s6, s5, s4, s3, s2, s1, s0)
}

/// S-box circuit exactness: on every one of the 256 byte values the boolean
/// circuit computes exactly the substitution table's entry.
#[verifier::rlimit(100)]
pub proof fn lemma_sbox_circuit_exact(v: u8)
    ensures
        sbox_circuit(v) == sbox(v),
{
    assert(sbox_circuit(v) == sbox(v)) by (bit_vector);
}

} // verus!

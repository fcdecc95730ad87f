//! Sign extension of two's-complement fields narrower than 16 bits.
use vstd::arithmetic::div_mod::{
    lemma_basic_div, lemma_div_by_multiple, lemma_fundamental_div_mod, lemma_mod_add_multiples_vanish,
    lemma_mod_bound, lemma_small_mod,
};
use vstd::arithmetic::mul::lemma_mul_strict_inequality;
use vstd::arithmetic::power2::{lemma2_to64, lemma_pow2_adds, lemma_pow2_pos, lemma_pow2_unfold, pow2};
use vstd::bits::lemma_u16_shl_is_mul;
use vstd::prelude::*;

use crate::bits::{bit_set, get_bit};

verus! {

/// The signed value of a `len`-bit two's-complement field whose bits are `bits`.
pub open spec fn field_value(bits: int, len: nat) -> int {
    if bits < pow2((len - 1) as nat) {
        bits
    } else {
        bits - pow2(len)
    }
}

/// In a field of `len` bits the sign bit is set exactly when the field's
/// unsigned value reaches half of its range.
pub proof fn lemma_sign_bit(bits: int, len: nat)
    requires
        1 <= len,
        0 <= bits < pow2(len),
    ensures
        bit_set(bits, (len - 1) as nat) <==> bits >= pow2((len - 1) as nat),
{
    let h = pow2((len - 1) as nat) as int;
    lemma_pow2_unfold(len);
    lemma_pow2_pos((len - 1) as nat);
    if bits < h {
        lemma_basic_div(bits, h);
    } else {
        lemma_fundamental_div_mod(bits, h);
        lemma_mod_bound(bits, h);
        let q = bits / h;
        let r = bits % h;
        assert(q == 1) by (nonlinear_arith)
            requires
                bits == h * q + r,
                0 <= r < h,
                h <= bits < 2 * h,
        ;
    }
}

/// Decodes a `len`-bit two's-complement field into a signed count.
///
/// When the sign bit (bit `len - 1`) is set, the field is shifted left by
/// `shift` so that its sign bit lands on bit 15, read as an `i16`, and divided
/// by `divisor` to remove the padding again; otherwise the field is already
/// the count.
pub fn bits_to_i16(bits: u16, len: usize, divisor: i16, shift: usize) -> (r: i16)
    requires
        1 <= len,
        len + shift == 16,
        divisor == pow2(shift as nat),
        bits < pow2(len as nat),
    ensures
        r == field_value(bits as int, len as nat),
        !bit_set(bits as int, (len - 1) as nat) ==> r == bits,
{
    let ghost p = pow2(shift as nat) as int;
    let ghost l = pow2(len as nat) as int;
    let ghost h = pow2((len - 1) as nat) as int;
    proof {
        lemma2_to64();
        lemma_pow2_pos(shift as nat);
        lemma_pow2_unfold(len as nat);
        lemma_pow2_adds(len as nat, shift as nat);
        lemma_pow2_adds((len - 1) as nat, shift as nat);
        lemma_sign_bit(bits as int, len as nat);
        assert(h * p == 32768);
        assert(h <= 32768) by (nonlinear_arith)
            requires
                h * p == 32768,
                p >= 1,
        ;
    }
    let negative = get_bit(bits, len - 1);
    if negative {
        proof {
            lemma_mul_strict_inequality(bits as int, l, p);
            lemma_u16_shl_is_mul(bits, shift as u16);
        }
        let shifted = bits << shift;
        proof {
            assert(shifted == bits * p);
            assert(h * p <= bits * p) by (nonlinear_arith)
                requires
                    h <= bits,
                    p >= 1,
            ;
            assert(shifted >= 32768 ==> (shifted as i16) as int == shifted as int - 65536)
                by (bit_vector);
            assert(65536 - shifted == (l - bits) * p) by (nonlinear_arith)
                requires
                    l * p == 65536,
                    shifted == bits * p,
            ;
            lemma_div_by_multiple(l - bits, p);
        }
        (shifted as i16) / divisor
    } else {
        bits as i16
    }
}

/// The bits of a `len`-bit field that encode the signed value `v`: `v` is
/// scaled up by the padding of the field (`2^(16 - len)`), wrapped to 16 bits
/// and scaled back down.
pub open spec fn reencode(v: int, len: nat) -> int {
    let scale = pow2((16 - len) as nat) as int;
    ((v * scale) % pow2(16) as int) / scale
}

/// Decoding a `len`-bit two's-complement field and encoding the result again
/// gives back the field, and the decoded value lies in the field's signed
/// range.
pub proof fn lemma_decode_reencode(bits: int, len: nat)
    requires
        1 <= len <= 16,
        0 <= bits < pow2(len),
    ensures
        reencode(field_value(bits, len), len) == bits,
        -pow2((len - 1) as nat) <= field_value(bits, len) < pow2((len - 1) as nat),
{
    let s = pow2((16 - len) as nat) as int;
    let l = pow2(len) as int;
    let v = field_value(bits, len);
    lemma2_to64();
    lemma_pow2_pos((16 - len) as nat);
    lemma_pow2_unfold(len);
    lemma_pow2_adds(len, (16 - len) as nat);
    assert(l * s == 65536);
    assert(0 <= bits * s < 65536) by (nonlinear_arith)
        requires
            0 <= bits < l,
            s > 0,
            l * s == 65536,
    ;
    if bits < pow2((len - 1) as nat) {
        lemma_small_mod((bits * s) as nat, 65536);
    } else {
        assert(v * s + 65536 == bits * s) by (nonlinear_arith)
            requires
                v == bits - l,
                l * s == 65536,
        ;
        lemma_mod_add_multiples_vanish(v * s, 65536);
        lemma_small_mod((bits * s) as nat, 65536);
    }
    lemma_div_by_multiple(bits, s);
}

} // verus!

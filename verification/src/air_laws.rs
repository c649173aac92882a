//! Laws of the carry-propagation constraints, over the base field.
//!
//! Three facts tie the field formulas of [`crate::constraints`] to 32-bit
//! machine arithmetic:
//!
//! - on a row whose limb groups decompose two words and their wrapping sum,
//!   the two carries the AIR formula computes are 0 or 1
//!   ([`lemma_carry_bits_binary`]);
//! - on such a row both gated carry constraints evaluate to zero
//!   ([`lemma_add_constraints_hold`]);
//! - conversely, on any row with 8-bit-bounded limbs whose two carries are
//!   bits, the limb-composed sum of the operands equals the limb-composed
//!   result modulo 2^32 ([`lemma_carry_constraints_sound`]).

use vstd::arithmetic::div_mod::{
    lemma_mod_multiples_vanish, lemma_mul_mod_noop_left, lemma_small_mod,
};
use vstd::arithmetic::mul::lemma_mul_is_associative;
use vstd::prelude::*;

use crate::constraints::{
    spec_bit_term, spec_carry_one, spec_carry_zero, spec_flag_sum, spec_limb_pair,
    CarryBitConstraint,
};
use crate::field::{FieldOps, Fp, FIELD_MODULUS, INV_65536};

verus! {

/// The 8-bit limb `j` of a word, low limbs first.
pub open spec fn spec_limb(x: u32, j: u32) -> u32 {
    (x >> (8 * j)) & 0xFF
}

/// Whether the four columns at `start` hold the 8-bit limbs of `x`, low
/// first.
pub open spec fn row_has_word_limbs(row: Seq<Fp>, start: int, x: u32) -> bool {
    &&& 0 <= start
    &&& start + 4 <= row.len()
    &&& row[start] == Fp::spec_from_u64(spec_limb(x, 0) as u64)
    &&& row[start + 1] == Fp::spec_from_u64(spec_limb(x, 1) as u64)
    &&& row[start + 2] == Fp::spec_from_u64(spec_limb(x, 2) as u64)
    &&& row[start + 3] == Fp::spec_from_u64(spec_limb(x, 3) as u64)
}

/// Whether the four columns at `start` hold 8-bit-bounded values.
pub open spec fn row_limbs_bounded(row: Seq<Fp>, start: int) -> bool {
    &&& 0 <= start
    &&& start + 4 <= row.len()
    &&& 0 <= row[start].as_int() < 256
    &&& 0 <= row[start + 1].as_int() < 256
    &&& 0 <= row[start + 2].as_int() < 256
    &&& 0 <= row[start + 3].as_int() < 256
}

/// The integer a limb group composes to:
/// `l0 + 256*l1 + 65536*l2 + 16777216*l3`.
pub open spec fn limbs_value(row: Seq<Fp>, start: int) -> int {
    row[start].as_int() + 256 * row[start + 1].as_int() + 65536 * row[start + 2].as_int()
        + 16777216 * row[start + 3].as_int()
}

/// Under 8-bit-bounded limbs the two composed limb pairs at `start` are the
/// plain integers `l0 + 256*l1` and `l2 + 256*l3`, both below 65536.
proof fn lemma_pair_decompose(row: Seq<Fp>, start: int)
    requires
        row_limbs_bounded(row, start),
    ensures
        spec_limb_pair(row, start).as_int() == row[start].as_int() + 256 * row[start
            + 1].as_int(),
        spec_limb_pair(row, start + 2).as_int() == row[start + 2].as_int() + 256 * row[start
            + 3].as_int(),
        0 <= spec_limb_pair(row, start).as_int() < 65536,
        0 <= spec_limb_pair(row, start + 2).as_int() < 65536,
{
    let p = FIELD_MODULUS as int;
    lemma_small_mod(256, p as nat);
    lemma_small_mod((256 * row[start + 1].as_int()) as nat, p as nat);
    lemma_small_mod((256 * row[start + 3].as_int()) as nat, p as nat);
    lemma_small_mod((row[start].as_int() + 256 * row[start + 1].as_int()) as nat, p as nat);
    lemma_small_mod((row[start + 2].as_int() + 256 * row[start + 3].as_int()) as nat, p as nat);
}

/// On a row holding the limbs of `x`, the two composed 16-bit limb pairs are
/// the low and the high half-word of `x`.
proof fn lemma_pair_value(row: Seq<Fp>, start: int, x: u32)
    requires
        row_has_word_limbs(row, start, x),
    ensures
        row_limbs_bounded(row, start),
        spec_limb_pair(row, start).as_int() == x & 0xFFFF,
        spec_limb_pair(row, start + 2).as_int() == (x >> 16) & 0xFFFF,
        x & 0xFFFF < 65536,
        (x >> 16) & 0xFFFF < 65536,
{
    assert(spec_limb(x, 0) < 256 && spec_limb(x, 1) < 256 && spec_limb(x, 2) < 256 && spec_limb(
        x,
        3,
    ) < 256 && spec_limb(x, 0) + 256 * spec_limb(x, 1) == (x & 0xFFFF) && spec_limb(x, 2) + 256
        * spec_limb(x, 3) == ((x >> 16) & 0xFFFF)) by (bit_vector);
    let p = FIELD_MODULUS as int;
    lemma_small_mod(spec_limb(x, 0) as nat, p as nat);
    lemma_small_mod(spec_limb(x, 1) as nat, p as nat);
    lemma_small_mod(spec_limb(x, 2) as nat, p as nat);
    lemma_small_mod(spec_limb(x, 3) as nat, p as nat);
    lemma_pair_decompose(row, start);
}

/// `65536 * INV_65536` is one more than a multiple of the field modulus.
proof fn lemma_inv_cancels()
    ensures
        65536 * (INV_65536 as int) == 65535 * (FIELD_MODULUS as int) + 1,
{
    assert(65536 * 2013235201int == 65535 * 2013265921int + 1) by (nonlinear_arith);
}

/// Multiplying a field value that is 0 or 65536 by the inverse of 65536
/// yields 0 or 1 accordingly.
proof fn lemma_mul_by_inverse(d: u64)
    requires
        d == 0 || d == 65536,
    ensures
        d == 0 ==> Fp::spec_mul(Fp { value: d }, Fp::spec_from_u64(INV_65536))
            == Fp::spec_zero(),
        d == 65536 ==> Fp::spec_mul(Fp { value: d }, Fp::spec_from_u64(INV_65536))
            == Fp::spec_one(),
{
    let p = FIELD_MODULUS as int;
    lemma_small_mod(INV_65536 as nat, p as nat);
    if d == 0 {
        lemma_small_mod(0, p as nat);
    } else {
        lemma_inv_cancels();
        assert((65536 * (INV_65536 as int)) % p == (65535 * p + 1) % p);
        lemma_mod_multiples_vanish(65535, 1, p);
        lemma_small_mod(1, p as nat);
    }
}

/// The field value of the carry formula's numerator at the low limb pairs:
/// `(lhs0 + rhs0) - res0` computed in the field, as a plain integer, given
/// pair values below 65536.
proof fn lemma_sub_of_pairs(x: int, y: int, z: int, d: int)
    requires
        0 <= x < 65536,
        0 <= y < 65536,
        0 <= z < 65536,
        d == x + y - z || (x + y - z < 0 && d == x + y - z + FIELD_MODULUS),
        0 <= d < FIELD_MODULUS,
    ensures
        ((((x + y) % (FIELD_MODULUS as int)) + FIELD_MODULUS - z) % (FIELD_MODULUS as int)) == d,
{
    let p = FIELD_MODULUS as int;
    lemma_small_mod((x + y) as nat, p as nat);
    if x + y - z >= 0 {
        assert(x + y + p - z == d + p);
        lemma_mod_multiples_vanish(1, d, p);
        lemma_small_mod(d as nat, p as nat);
    } else {
        assert(x + y + p - z == d);
        lemma_small_mod(d as nat, p as nat);
    }
}

/// On a row whose three limb groups hold two words and their wrapping sum,
/// the carries the AIR formula computes are 0 or 1: this holds for all valid
/// 32-bit operand pairs.
#[verifier::rlimit(100)]
pub proof fn lemma_carry_bits_binary(row: Seq<Fp>, lhs: int, rhs: int, res: int, a: u32, b: u32)
    requires
        row_has_word_limbs(row, lhs, a),
        row_has_word_limbs(row, rhs, b),
        row_has_word_limbs(row, res, a.wrapping_add(b)),
    ensures
        spec_carry_zero(row, lhs, rhs, res) == Fp::spec_zero() || spec_carry_zero(
            row,
            lhs,
            rhs,
            res,
        ) == Fp::spec_one(),
        spec_carry_one(row, lhs, rhs, res) == Fp::spec_zero() || spec_carry_one(row, lhs, rhs, res)
            == Fp::spec_one(),
{
    let s = a.wrapping_add(b);
    lemma_pair_value(row, lhs, a);
    lemma_pair_value(row, rhs, b);
    lemma_pair_value(row, res, s);
    let p = FIELD_MODULUS as int;
    let la = (a & 0xFFFF) as int;
    let lb = (b & 0xFFFF) as int;
    let ls = (s & 0xFFFF) as int;
    let ha = ((a >> 16) & 0xFFFF) as int;
    let hb = ((b >> 16) & 0xFFFF) as int;
    let hs = ((s >> 16) & 0xFFFF) as int;
    assert((a & 0xFFFF) + (b & 0xFFFF) == (s & 0xFFFF) || (a & 0xFFFF) + (b & 0xFFFF) == (s
        & 0xFFFF) + 65536) by (bit_vector)
        requires
            a + b == s || a + b == s + 0x100000000,
    ;
    assert(((a & 0xFFFF) + (b & 0xFFFF) == (s & 0xFFFF)) ==> (((a >> 16) & 0xFFFF) + ((b >> 16)
        & 0xFFFF) == ((s >> 16) & 0xFFFF) || ((a >> 16) & 0xFFFF) + ((b >> 16) & 0xFFFF) == ((s
        >> 16) & 0xFFFF) + 65536)) by (bit_vector)
        requires
            a + b == s || a + b == s + 0x100000000,
    ;
    assert(((a & 0xFFFF) + (b & 0xFFFF) == (s & 0xFFFF) + 65536) ==> (((a >> 16) & 0xFFFF) + ((b
        >> 16) & 0xFFFF) + 1 == ((s >> 16) & 0xFFFF) || ((a >> 16) & 0xFFFF) + ((b >> 16)
        & 0xFFFF) + 1 == ((s >> 16) & 0xFFFF) + 65536)) by (bit_vector)
        requires
            a + b == s || a + b == s + 0x100000000,
    ;
    // The low carry: the field numerator is 0 or 65536, so multiplying by
    // the inverse of 65536 gives 0 or 1.
    let c0int: int = if la + lb == ls {
        0
    } else {
        1
    };
    lemma_sub_of_pairs(la, lb, ls, 65536 * c0int);
    assert(Fp::spec_sub(
        Fp::spec_add(spec_limb_pair(row, lhs), spec_limb_pair(row, rhs)),
        spec_limb_pair(row, res),
    ).value == 65536 * c0int);
    lemma_mul_by_inverse((65536 * c0int) as u64);
    let c0 = spec_carry_zero(row, lhs, rhs, res);
    assert(c0.as_int() == c0int);
    // The high carry: after adding the low carry, the field numerator is
    // again 0 or 65536.
    let c1int: int = if ha + hb + c0int == hs {
        0
    } else {
        1
    };
    assert(ha + hb + c0int - hs == 65536 * c1int);
    let e = ha + hb - hs;
    let d1: int = if e >= 0 {
        e
    } else {
        e + p
    };
    lemma_sub_of_pairs(ha, hb, hs, d1);
    // Adding the low carry to the inner difference lands on 0 or 65536.
    assert(((d1 + c0int) % p) == 65536 * c1int) by {
        if e >= 0 {
            lemma_small_mod((e + c0int) as nat, p as nat);
        } else {
            assert(e == -1 && c0int == 1);
            lemma_mod_multiples_vanish(1, 0, p);
        }
    }
    lemma_mul_by_inverse((65536 * c1int) as u64);
    assert(spec_carry_one(row, lhs, rhs, res) == Fp::spec_mul(
        Fp { value: (65536 * c1int) as u64 },
        Fp::spec_from_u64(INV_65536),
    ));
}

/// On a row whose limb groups witness a wrapping 32-bit sum, both carry
/// constraints evaluate to zero, whatever the flag columns hold.
pub proof fn lemma_add_constraints_hold(row: Seq<Fp>, c: CarryBitConstraint, a: u32, b: u32)
    requires
        row_has_word_limbs(row, c.lhs_start_idx as int, a),
        row_has_word_limbs(row, c.rhs_start_idx as int, b),
        row_has_word_limbs(row, c.res_start_idx as int, a.wrapping_add(b)),
    ensures
        c.spec_eval(row) == Fp::spec_zero(),
{
    lemma_carry_bits_binary(
        row,
        c.lhs_start_idx as int,
        c.rhs_start_idx as int,
        c.res_start_idx as int,
        a,
        b,
    );
    let p = FIELD_MODULUS as int;
    let carry = c.spec_carry(row);
    let flag = spec_flag_sum::<Fp>(row, c.flags_idx@);
    assert(carry == Fp::spec_zero() || carry == Fp::spec_one());
    if carry == Fp::spec_zero() {
        assert(Fp::spec_mul(flag, carry).value == 0) by {
            lemma_small_mod(0, p as nat);
        }
        assert(c.spec_eval(row).value == 0) by {
            lemma_small_mod(0, p as nat);
        }
    } else {
        assert(Fp::spec_sub(carry, Fp::spec_one()).value == 0) by {
            lemma_mod_multiples_vanish(1, 0, p);
        }
        assert(c.spec_eval(row).value == 0) by {
            lemma_small_mod(0, p as nat);
        }
    }
}

/// The flag sum over columns that all hold zero is zero.
proof fn lemma_flag_sum_all_zero(row: Seq<Fp>, flags: Seq<usize>)
    requires
        forall|i: int|
            0 <= i < flags.len() ==> row[(#[trigger] flags[i]) as int] == Fp::spec_zero(),
    ensures
        spec_flag_sum::<Fp>(row, flags) == Fp::spec_zero(),
    decreases flags.len(),
{
    lemma_small_mod(0, FIELD_MODULUS as nat);
    if flags.len() > 0 {
        lemma_flag_sum_all_zero(row, flags.drop_last());
    }
}

/// Where the flag columns hold bits of which at most one is set — the one-hot
/// invariant of the trace — their sum is 0 or 1, so a gated carry constraint
/// is enforced at full strength or not at all.
pub proof fn lemma_flag_sum_at_most_one(row: Seq<Fp>, flags: Seq<usize>)
    requires
        forall|i: int|
            0 <= i < flags.len() ==> row[(#[trigger] flags[i]) as int] == Fp::spec_zero()
                || row[flags[i] as int] == Fp::spec_one(),
        forall|i: int, j: int|
            #![trigger flags[i], flags[j]]
            0 <= i < flags.len() && 0 <= j < flags.len() && i != j ==> row[flags[i] as int]
                == Fp::spec_zero() || row[flags[j] as int] == Fp::spec_zero(),
    ensures
        spec_flag_sum::<Fp>(row, flags) == Fp::spec_zero() || spec_flag_sum::<Fp>(row, flags)
            == Fp::spec_one(),
    decreases flags.len(),
{
    lemma_small_mod(0, FIELD_MODULUS as nat);
    lemma_small_mod(1, FIELD_MODULUS as nat);
    if flags.len() > 0 {
        let rest = flags.drop_last();
        if row[flags.last() as int] == Fp::spec_one() {
            assert forall|i: int|
                0 <= i < rest.len() implies row[(#[trigger] rest[i]) as int]
                == Fp::spec_zero() by {
                assert(flags[i] == rest[i] && flags[flags.len() - 1] == flags.last());
            }
            lemma_flag_sum_all_zero(row, rest);
        } else {
            lemma_flag_sum_at_most_one(row, rest);
        }
    }
}

/// A bit constraint's polynomial vanishes on any value that is 0 or 1.
pub proof fn lemma_bit_constraint_holds(x: Fp)
    requires
        x == Fp::spec_zero() || x == Fp::spec_one(),
    ensures
        spec_bit_term::<Fp>(x) == Fp::spec_zero(),
{
    let p = FIELD_MODULUS as int;
    if x == Fp::spec_zero() {
        assert(spec_bit_term::<Fp>(x).value == 0) by {
            lemma_small_mod(0, p as nat);
        }
    } else {
        assert(Fp::spec_sub(x, Fp::spec_one()).value == 0) by {
            lemma_mod_multiples_vanish(1, 0, p);
        }
        assert(spec_bit_term::<Fp>(x).value == 0) by {
            lemma_small_mod(0, p as nat);
        }
    }
}

/// If multiplying a field value below the modulus by the inverse of 65536
/// yields the bit `c`, the value is `65536 * c`.
proof fn lemma_product_is_inverse_image(d: u64, c: int)
    requires
        d < FIELD_MODULUS,
        Fp::spec_mul(Fp { value: d }, Fp::spec_from_u64(INV_65536)).as_int() == c,
        c == 0 || c == 1,
    ensures
        d == 65536 * c,
{
    let p = FIELD_MODULUS as int;
    let inv = INV_65536 as int;
    lemma_small_mod(INV_65536 as nat, p as nat);
    assert((d * inv) % p == c);
    lemma_mul_mod_noop_left(d as int * inv, 65536, p);
    assert(((d * inv) % p * 65536) % p == (d * inv * 65536) % p);
    assert((c * 65536) % p == c * 65536) by {
        lemma_small_mod((c * 65536) as nat, p as nat);
    }
    lemma_inv_cancels();
    lemma_mul_is_associative(d as int, inv, 65536);
    assert(inv * 65536 == 65535 * p + 1);
    assert(d * inv * 65536 == d * (65535 * p + 1)) by {
        assert(d * (inv * 65536) == d * (65535 * p + 1));
    }
    assert(d * (65535 * p + 1) == d * 65535 * p + d) by (nonlinear_arith);
    assert((d * 65535 * p + d) % p == (d as int) % p) by {
        lemma_mod_multiples_vanish(d as int * 65535, d as int, p);
        lemma_mul_is_associative(d as int, 65535, p);
    }
    lemma_small_mod(d as nat, p as nat);
    assert(65536 * c == (d * inv * 65536) % p);
}

/// Soundness of the carry constraints: on any row whose three limb groups
/// are 8-bit bounded (the range checks are a co-AIR's responsibility) and
/// whose two carries are bits — which the constraints enforce on rows with an
/// active flag — the limb-composed operands and result satisfy
/// `lhs + rhs = res` modulo 2^32.
#[verifier::rlimit(60)]
pub proof fn lemma_carry_constraints_sound(row: Seq<Fp>, lhs: int, rhs: int, res: int)
    requires
        row_limbs_bounded(row, lhs),
        row_limbs_bounded(row, rhs),
        row_limbs_bounded(row, res),
        spec_carry_zero(row, lhs, rhs, res) == Fp::spec_zero() || spec_carry_zero(
            row,
            lhs,
            rhs,
            res,
        ) == Fp::spec_one(),
        spec_carry_one(row, lhs, rhs, res) == Fp::spec_zero() || spec_carry_one(row, lhs, rhs, res)
            == Fp::spec_one(),
    ensures
        (limbs_value(row, lhs) + limbs_value(row, rhs)) % 0x100000000 == limbs_value(row, res),
{
    let p = FIELD_MODULUS as int;
    lemma_pair_decompose(row, lhs);
    lemma_pair_decompose(row, rhs);
    lemma_pair_decompose(row, res);
    let l0 = spec_limb_pair(row, lhs).as_int();
    let r0 = spec_limb_pair(row, rhs).as_int();
    let s0 = spec_limb_pair(row, res).as_int();
    let l1 = spec_limb_pair(row, lhs + 2).as_int();
    let r1 = spec_limb_pair(row, rhs + 2).as_int();
    let s1 = spec_limb_pair(row, res + 2).as_int();

    // The low carry is a bit, so the field numerator is 0 or 65536, so the
    // plain difference of the low pairs is too.
    let c0v = spec_carry_zero(row, lhs, rhs, res).as_int();
    assert(c0v == 0 || c0v == 1) by {
        lemma_small_mod(0, p as nat);
        lemma_small_mod(1, p as nat);
    }
    let e0 = l0 + r0 - s0;
    let d0: int = if e0 >= 0 {
        e0
    } else {
        e0 + p
    };
    lemma_sub_of_pairs(l0, r0, s0, d0);
    lemma_product_is_inverse_image(d0 as u64, c0v);
    assert(e0 == 65536 * c0v);

    // Likewise for the high carry, whose numerator includes the low carry.
    let c1v = spec_carry_one(row, lhs, rhs, res).as_int();
    assert(c1v == 0 || c1v == 1) by {
        lemma_small_mod(0, p as nat);
        lemma_small_mod(1, p as nat);
    }
    let e1 = l1 + r1 - s1;
    let d1: int = if e1 >= 0 {
        e1
    } else {
        e1 + p
    };
    lemma_sub_of_pairs(l1, r1, s1, d1);
    let d2 = (d1 + c0v) % p;
    assert(spec_carry_one(row, lhs, rhs, res) == Fp::spec_mul(
        Fp { value: d2 as u64 },
        Fp::spec_from_u64(INV_65536),
    ));
    assert(0 <= d2 < p);
    lemma_product_is_inverse_image(d2 as u64, c1v);
    assert(e1 + c0v == 65536 * c1v) by {
        if e1 >= 0 {
            lemma_small_mod((e1 + c0v) as nat, p as nat);
        } else {
            lemma_mod_multiples_vanish(1, e1 + c0v, p);
            if e1 + c0v >= 0 {
                lemma_small_mod((e1 + c0v) as nat, p as nat);
            } else {
                // A numerator of -1 cannot multiply with the inverse to a
                // bit: d2 would be p - 1, far above 65536.
                assert(d2 == e1 + c0v + p);
            }
        }
    }

    // Compose: res = lhs + rhs - 2^32 * c1.
    assert(limbs_value(row, lhs) == l0 + 65536 * l1 && limbs_value(row, rhs) == r0 + 65536 * r1
        && limbs_value(row, res) == s0 + 65536 * s1);
    assert(s0 + 65536 * s1 == (l0 + 65536 * l1) + (r0 + 65536 * r1) - 0x100000000 * c1v);
    lemma_mod_multiples_vanish(c1v, limbs_value(row, res), 0x100000000);
    lemma_small_mod(limbs_value(row, res) as nat, 0x100000000);
}

} // verus!

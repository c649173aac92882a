//! The transition constraints of the CPU AIR.
//!
//! Two families, stated over a field through [`FieldOps`] so that the same
//! formulas serve the prover (base field) and the verifier (extension field):
//!
//! - **Bit constraints**: `x * (x - 1)`, zero exactly when the column value
//!   `x` is 0 or 1.
//! - **Carry-propagation constraints** for 32-bit addition over 8-bit limbs:
//!   with `lhs0`, `rhs0`, `res0` the low 16-bit words composed from two limbs
//!   each, `carry0 = (lhs0 + rhs0 - res0) / 65536` must be a bit, and with
//!   the high words likewise `carry1 = (lhs1 + rhs1 - res1 + carry0) / 65536`
//!   must be a bit; both are gated by the sum of the selected one-hot
//!   instruction flags.
//!
//! Each constraint writes its evaluation at its own index into an output
//! slice, as the enclosing STARK framework expects.

use vstd::prelude::*;

use crate::field::{FieldOps, Fp, FIELD_MODULUS, INV_65536};

verus! {

/// Whether every entry of a row (or of any column slice) is a well-formed
/// field element.
pub open spec fn row_wf<F: FieldOps>(row: Seq<F>) -> bool {
    forall|i: int| 0 <= i < row.len() ==> (#[trigger] row[i]).wf()
}

/// The bit-constraint polynomial `x * (x - 1)`.
pub open spec fn spec_bit_term<F: FieldOps>(x: F) -> F {
    F::spec_mul(x, F::spec_sub(x, F::spec_one()))
}

/// Enforces that a trace column holds only binary values: for the column's
/// value `x` at the row, the transition polynomial is `x * (x - 1)`.
/// Degree 2. No row exemptions.
#[derive(Clone, Copy, Debug, PartialEq, Eq, Structural)]
pub struct BitConstraint {
    pub column_idx: usize,
    pub constraint_idx: usize,
}

impl BitConstraint {
    /// A binary constraint for column `column_idx`, written at constraint
    /// slot `constraint_idx`.
    pub fn new(column_idx: usize, constraint_idx: usize) -> (r: BitConstraint)
        ensures
            r == (BitConstraint { column_idx, constraint_idx }),
    {
        BitConstraint { column_idx, constraint_idx }
    }

    /// The constraint's value on a row.
    pub open spec fn spec_eval<F: FieldOps>(self, row: Seq<F>) -> F {
        spec_bit_term(row[self.column_idx as int])
    }

    /// Evaluates `x * (x - 1)` on the row's column and writes it at the
    /// constraint's index.
    pub fn evaluate<F: FieldOps>(&self, row: &Vec<F>, transition_evaluations: &mut Vec<F>)
        requires
            self.column_idx < row.len(),
            self.constraint_idx < old(transition_evaluations).len(),
            row_wf(row@),
        ensures
            final(transition_evaluations)@ == old(transition_evaluations)@.update(
                self.constraint_idx as int,
                self.spec_eval(row@),
            ),
            self.spec_eval::<F>(row@).wf(),
    {
        let flag = row[self.column_idx];
        let one = F::one();
        let bit_constraint = F::mul(flag, F::sub(flag, one));
        transition_evaluations[self.constraint_idx] = bit_constraint;
    }
}

/// Identifies which carry bit of a two-word addition a constraint enforces:
/// the carry out of the low 16-bit word, or the carry out of the high one
/// (which takes the low carry as input).
#[derive(Clone, Copy, Debug, PartialEq, Eq, Structural)]
pub enum CarryIndex {
    Zero,
    One,
}

/// The sum of the flag columns named by `flags`, read from the row.
pub open spec fn spec_flag_sum<F: FieldOps>(row: Seq<F>, flags: Seq<usize>) -> F
    decreases flags.len(),
{
    if flags.len() == 0 {
        F::spec_zero()
    } else {
        F::spec_add(spec_flag_sum(row, flags.drop_last()), row[flags.last() as int])
    }
}

/// The 16-bit word composed of the two 8-bit limbs at `start`:
/// `row[start] + 256 * row[start + 1]`.
pub open spec fn spec_limb_pair<F: FieldOps>(row: Seq<F>, start: int) -> F {
    F::spec_add(row[start], F::spec_mul(F::spec_from_u64(256), row[start + 1]))
}

/// The low carry of the addition: `(lhs0 + rhs0 - res0) * 65536^-1`.
pub open spec fn spec_carry_zero<F: FieldOps>(row: Seq<F>, lhs: int, rhs: int, res: int) -> F {
    F::spec_mul(
        F::spec_sub(
            F::spec_add(spec_limb_pair(row, lhs), spec_limb_pair(row, rhs)),
            spec_limb_pair(row, res),
        ),
        F::spec_from_u64(INV_65536),
    )
}

/// The high carry of the addition:
/// `(lhs1 + rhs1 - res1 + carry0) * 65536^-1`, over the high limb pairs.
pub open spec fn spec_carry_one<F: FieldOps>(row: Seq<F>, lhs: int, rhs: int, res: int) -> F {
    F::spec_mul(
        F::spec_add(
            F::spec_sub(
                F::spec_add(spec_limb_pair(row, lhs + 2), spec_limb_pair(row, rhs + 2)),
                spec_limb_pair(row, res + 2),
            ),
            spec_carry_zero(row, lhs, rhs, res),
        ),
        F::spec_from_u64(INV_65536),
    )
}

/// Enforces a binary carry in a limb-decomposed 32-bit addition
/// `lhs + rhs = res`: the transition polynomial is
/// `flag * carry * (carry - 1)` with `flag` the sum of the activation flag
/// columns. Degree 3. The constraint is vacuous on rows where no flag is
/// active, and the one-hot invariant keeps `flag` at most 1.
#[derive(Clone, Debug)]
pub struct CarryBitConstraint {
    pub carry_idx: CarryIndex,
    pub flags_idx: Vec<usize>,
    pub lhs_start_idx: usize,
    pub rhs_start_idx: usize,
    pub res_start_idx: usize,
    pub constraint_idx: usize,
}

impl CarryBitConstraint {
    /// A carry constraint over the three limb groups, gated by the given
    /// flag columns, written at constraint slot `constraint_idx`.
    fn new(
        carry_idx: CarryIndex,
        flags_idx: Vec<usize>,
        lhs_start_idx: usize,
        rhs_start_idx: usize,
        res_start_idx: usize,
        constraint_idx: usize,
    ) -> (r: CarryBitConstraint)
        ensures
            r == (CarryBitConstraint {
                carry_idx,
                flags_idx,
                lhs_start_idx,
                rhs_start_idx,
                res_start_idx,
                constraint_idx,
            }),
    {
        CarryBitConstraint {
            carry_idx,
            flags_idx,
            lhs_start_idx,
            rhs_start_idx,
            res_start_idx,
            constraint_idx,
        }
    }

    /// Whether the row is wide enough for every column the constraint reads.
    pub open spec fn fits(self, row_len: int) -> bool {
        &&& self.lhs_start_idx + 4 <= row_len
        &&& self.rhs_start_idx + 4 <= row_len
        &&& self.res_start_idx + 4 <= row_len
        &&& forall|i: int|
            0 <= i < self.flags_idx@.len() ==> (#[trigger] self.flags_idx@[i]) < row_len
    }

    /// The carry this constraint enforces, computed from the row.
    pub open spec fn spec_carry<F: FieldOps>(self, row: Seq<F>) -> F {
        match self.carry_idx {
            CarryIndex::Zero => spec_carry_zero(
                row,
                self.lhs_start_idx as int,
                self.rhs_start_idx as int,
                self.res_start_idx as int,
            ),
            CarryIndex::One => spec_carry_one(
                row,
                self.lhs_start_idx as int,
                self.rhs_start_idx as int,
                self.res_start_idx as int,
            ),
        }
    }

    /// The constraint's value on a row: `flag * carry * (carry - 1)`.
    pub open spec fn spec_eval<F: FieldOps>(self, row: Seq<F>) -> F {
        let flag = spec_flag_sum(row, self.flags_idx@);
        let carry = self.spec_carry(row);
        F::spec_mul(F::spec_mul(flag, carry), F::spec_sub(carry, F::spec_one()))
    }

    /// Evaluates `flag * carry * (carry - 1)` on the row and writes it at
    /// the constraint's index.
    #[verifier::loop_isolation(false)]
    pub fn evaluate<F: FieldOps>(&self, row: &Vec<F>, transition_evaluations: &mut Vec<F>)
        requires
            self.fits(row.len() as int),
            self.constraint_idx < old(transition_evaluations).len(),
            row_wf(row@),
        ensures
            final(transition_evaluations)@ == old(transition_evaluations)@.update(
                self.constraint_idx as int,
                self.spec_eval(row@),
            ),
            self.spec_eval::<F>(row@).wf(),
    {
        let two_fifty_six = F::from_u64(256);
        let inverse = F::from_u64(INV_65536);
        let one = F::one();

        // Sum all activation flags.
        let mut flag = F::zero();
        let mut fi: usize = 0;
        while fi < self.flags_idx.len()
            invariant
                fi <= self.flags_idx.len(),
                flag == spec_flag_sum(row@, self.flags_idx@.take(fi as int)),
                flag.wf(),
            decreases self.flags_idx.len() - fi,
        {
            proof {
                assert(self.flags_idx@[fi as int] < row@.len());
            }
            flag = F::add(flag, row[self.flags_idx[fi]]);
            fi = fi + 1;
            proof {
                assert(self.flags_idx@.take(fi as int).drop_last() == self.flags_idx@.take(
                    fi as int - 1,
                ));
            }
        }
        proof {
            assert(self.flags_idx@.take(self.flags_idx@.len() as int) == self.flags_idx@);
        }

        // Compose the low 16-bit words from the first two limbs of each
        // operand.
        let lhs_0 = F::add(
            row[self.lhs_start_idx],
            F::mul(two_fifty_six, row[self.lhs_start_idx + 1]),
        );
        let rhs_0 = F::add(
            row[self.rhs_start_idx],
            F::mul(two_fifty_six, row[self.rhs_start_idx + 1]),
        );
        let res_0 = F::add(
            row[self.res_start_idx],
            F::mul(two_fifty_six, row[self.res_start_idx + 1]),
        );
        let carry_0 = F::mul(F::sub(F::add(lhs_0, rhs_0), res_0), inverse);

        let carry = match self.carry_idx {
            CarryIndex::Zero => carry_0,
            CarryIndex::One => {
                // Compose the high 16-bit words from the last two limbs.
                let lhs_1 = F::add(
                    row[self.lhs_start_idx + 2],
                    F::mul(two_fifty_six, row[self.lhs_start_idx + 3]),
                );
                let rhs_1 = F::add(
                    row[self.rhs_start_idx + 2],
                    F::mul(two_fifty_six, row[self.rhs_start_idx + 3]),
                );
                let res_1 = F::add(
                    row[self.res_start_idx + 2],
                    F::mul(two_fifty_six, row[self.res_start_idx + 3]),
                );
                F::mul(F::add(F::sub(F::add(lhs_1, rhs_1), res_1), carry_0), inverse)
            },
        };
        let bit_constraint = F::mul(F::mul(flag, carry), F::sub(carry, one));
        transition_evaluations[self.constraint_idx] = bit_constraint;
    }
}

/// A transition constraint of the CPU AIR, as a tagged variant.
#[derive(Clone, Debug)]
pub enum Constraint {
    Bit(BitConstraint),
    Carry(CarryBitConstraint),
}

impl Constraint {
    /// The constraint slot this constraint writes.
    pub open spec fn spec_constraint_idx(self) -> usize {
        match self {
            Constraint::Bit(c) => c.constraint_idx,
            Constraint::Carry(c) => c.constraint_idx,
        }
    }

    /// Whether the row is wide enough for every column the constraint reads.
    pub open spec fn fits(self, row_len: int) -> bool {
        match self {
            Constraint::Bit(c) => c.column_idx < row_len,
            Constraint::Carry(c) => c.fits(row_len),
        }
    }

    /// The constraint's value on a row.
    pub open spec fn spec_eval<F: FieldOps>(self, row: Seq<F>) -> F {
        match self {
            Constraint::Bit(c) => c.spec_eval(row),
            Constraint::Carry(c) => c.spec_eval(row),
        }
    }

    /// The constraint slot this constraint writes.
    pub fn constraint_idx(&self) -> (r: usize)
        ensures
            r == self.spec_constraint_idx(),
    {
        match self {
            Constraint::Bit(c) => c.constraint_idx,
            Constraint::Carry(c) => c.constraint_idx,
        }
    }

    /// The degree of the constraint polynomial.
    pub fn degree(&self) -> (r: usize)
        ensures
            r == match *self {
                Constraint::Bit(_) => 2usize,
                Constraint::Carry(_) => 3usize,
            },
    {
        match self {
            Constraint::Bit(_) => 2,
            Constraint::Carry(_) => 3,
        }
    }

    /// Constraints hold on every row: there is no exemption period.
    pub fn exemptions_period(&self) -> (r: Option<usize>)
        ensures
            r is None,
    {
        None
    }

    /// No periodic exemptions, so no offset either.
    pub fn periodic_exemptions_offset(&self) -> (r: Option<usize>)
        ensures
            r is None,
    {
        None
    }

    /// No rows at the end of the trace are exempt.
    pub fn end_exemptions(&self) -> (r: usize)
        ensures
            r == 0,
    {
        0
    }

    /// Evaluates the constraint on the row and writes the result at the
    /// constraint's index.
    pub fn evaluate<F: FieldOps>(&self, row: &Vec<F>, transition_evaluations: &mut Vec<F>)
        requires
            self.fits(row.len() as int),
            self.spec_constraint_idx() < old(transition_evaluations).len(),
            row_wf(row@),
        ensures
            final(transition_evaluations)@ == old(transition_evaluations)@.update(
                self.spec_constraint_idx() as int,
                self.spec_eval(row@),
            ),
            self.spec_eval::<F>(row@).wf(),
    {
        match self {
            Constraint::Bit(c) => c.evaluate(row, transition_evaluations),
            Constraint::Carry(c) => c.evaluate(row, transition_evaluations),
        }
    }
}

/// Bit constraints for the given columns, numbered sequentially from
/// `constraint_idx_start`.
pub fn new_bit_constraints(column_idx: &Vec<usize>, constraint_idx_start: usize) -> (r: Vec<
    Constraint,
>)
    requires
        constraint_idx_start + column_idx.len() <= usize::MAX,
    ensures
        r@.len() == column_idx@.len(),
        forall|i: int|
            0 <= i < r@.len() ==> #[trigger] r@[i] == Constraint::Bit(
                BitConstraint {
                    column_idx: column_idx@[i],
                    constraint_idx: (constraint_idx_start + i) as usize,
                },
            ),
{
    let mut constraints: Vec<Constraint> = Vec::new();
    let mut i: usize = 0;
    while i < column_idx.len()
        invariant
            i <= column_idx.len(),
            constraint_idx_start + column_idx.len() <= usize::MAX,
            constraints@.len() == i,
            forall|j: int|
                0 <= j < i ==> #[trigger] constraints@[j] == Constraint::Bit(
                    BitConstraint {
                        column_idx: column_idx@[j],
                        constraint_idx: (constraint_idx_start + j) as usize,
                    },
                ),
        decreases column_idx.len() - i,
    {
        constraints.push(
            Constraint::Bit(BitConstraint::new(column_idx[i], constraint_idx_start + i)),
        );
        i = i + 1;
    }
    constraints
}

/// The pair of carry constraints for a complete 32-bit addition
/// `lhs + rhs = res` over 8-bit limb groups: the low carry at
/// `constraint_idx_start`, the high carry right after it.
pub fn new_add_constraint(
    flags_idx: Vec<usize>,
    lhs_start_idx: usize,
    rhs_start_idx: usize,
    res_start_idx: usize,
    constraint_idx_start: usize,
) -> (r: Vec<Constraint>)
    requires
        constraint_idx_start + 1 <= usize::MAX,
    ensures
        r@.len() == 2,
        (r@[0] matches Constraint::Carry(c) && c.carry_idx == CarryIndex::Zero && c.flags_idx@
            == flags_idx@ && c.lhs_start_idx == lhs_start_idx && c.rhs_start_idx == rhs_start_idx
            && c.res_start_idx == res_start_idx && c.constraint_idx == constraint_idx_start),
        (r@[1] matches Constraint::Carry(c) && c.carry_idx == CarryIndex::One && c.flags_idx@
            == flags_idx@ && c.lhs_start_idx == lhs_start_idx && c.rhs_start_idx == rhs_start_idx
            && c.res_start_idx == res_start_idx && c.constraint_idx == (constraint_idx_start
            + 1) as usize),
{
    let flags_clone = clone_usize_vec(&flags_idx);
    let mut constraints: Vec<Constraint> = Vec::new();
    constraints.push(
        Constraint::Carry(
            CarryBitConstraint::new(
                CarryIndex::Zero,
                flags_clone,
                lhs_start_idx,
                rhs_start_idx,
                res_start_idx,
                constraint_idx_start,
            ),
        ),
    );
    constraints.push(
        Constraint::Carry(
            CarryBitConstraint::new(
                CarryIndex::One,
                flags_idx,
                lhs_start_idx,
                rhs_start_idx,
                res_start_idx,
                constraint_idx_start + 1,
            ),
        ),
    );
    constraints
}

/// The pair of carry constraints for a 32-bit subtraction
/// `lhs - rhs = res`: a wrapping difference is exactly a wrapping sum
/// `res + rhs = lhs`, so the same carry formulas apply with the result
/// limb group as the left addend and the original left operand as the sum.
pub fn new_sub_constraint(
    flags_idx: Vec<usize>,
    lhs_start_idx: usize,
    rhs_start_idx: usize,
    res_start_idx: usize,
    constraint_idx_start: usize,
) -> (r: Vec<Constraint>)
    requires
        constraint_idx_start + 1 <= usize::MAX,
    ensures
        r@.len() == 2,
        (r@[0] matches Constraint::Carry(c) && c.carry_idx == CarryIndex::Zero && c.flags_idx@
            == flags_idx@ && c.lhs_start_idx == res_start_idx && c.rhs_start_idx == rhs_start_idx
            && c.res_start_idx == lhs_start_idx && c.constraint_idx == constraint_idx_start),
        (r@[1] matches Constraint::Carry(c) && c.carry_idx == CarryIndex::One && c.flags_idx@
            == flags_idx@ && c.lhs_start_idx == res_start_idx && c.rhs_start_idx == rhs_start_idx
            && c.res_start_idx == lhs_start_idx && c.constraint_idx == (constraint_idx_start
            + 1) as usize),
{
    new_add_constraint(
        flags_idx,
        res_start_idx,
        rhs_start_idx,
        lhs_start_idx,
        constraint_idx_start,
    )
}

/// Evaluates a list of constraints, each numbered by its position, writing
/// every evaluation at its constraint's slot and leaving the slots past the
/// list unchanged.
#[verifier::loop_isolation(false)]
pub fn evaluate_all<F: FieldOps>(
    constraints: &Vec<Constraint>,
    row: &Vec<F>,
    transition_evaluations: &mut Vec<F>,
)
    requires
        forall|i: int|
            0 <= i < constraints@.len() ==> (#[trigger] constraints@[i]).fits(row@.len() as int),
        forall|i: int|
            0 <= i < constraints@.len() ==> (#[trigger] constraints@[i]).spec_constraint_idx()
                == i,
        constraints@.len() <= old(transition_evaluations).len(),
        row_wf(row@),
    ensures
        final(transition_evaluations)@.len() == old(transition_evaluations)@.len(),
        forall|i: int|
            0 <= i < constraints@.len() ==> final(transition_evaluations)@[i]
                == (#[trigger] constraints@[i]).spec_eval(row@),
        forall|i: int|
            constraints@.len() <= i < old(transition_evaluations)@.len()
                ==> final(transition_evaluations)@[i] == old(transition_evaluations)@[i],
{
    let mut i: usize = 0;
    while i < constraints.len()
        invariant
            i <= constraints@.len(),
            transition_evaluations@.len() == old(transition_evaluations)@.len(),
            forall|j: int|
                0 <= j < i ==> transition_evaluations@[j] == (#[trigger] constraints@[j]).spec_eval(
                    row@,
                ),
            forall|j: int|
                i <= j < old(transition_evaluations)@.len() ==> transition_evaluations@[j] == old(
                    transition_evaluations,
                )@[j],
        decreases constraints@.len() - i,
    {
        let c = &constraints[i];
        c.evaluate(row, transition_evaluations);
        i = i + 1;
    }
}

/// Copies a vector of column indices.
fn clone_usize_vec(v: &Vec<usize>) -> (r: Vec<usize>)
    ensures
        r@ == v@,
{
    let mut r: Vec<usize> = Vec::new();
    let mut i: usize = 0;
    while i < v.len()
        invariant
            i <= v.len(),
            r@ == v@.take(i as int),
        decreases v.len() - i,
    {
        r.push(v[i]);
        i = i + 1;
    }
    proof {
        assert(v@.take(v@.len() as int) == v@);
    }
    r
}

} // verus!

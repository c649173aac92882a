//! The CPU AIR: the fixed trace layout and its transition-constraint list.
//!
//! The trace is 54 main columns wide with no auxiliary columns; every
//! constraint reads a single row (transition offset 0), and the composition
//! polynomial degree bound reported to the proving framework is twice the
//! trace length.
//!
//! The constraint list holds, in this order and numbered by position:
//! bit constraints for the six decode flag columns and the seventeen one-hot
//! instruction flag columns; the two carry constraints of the 32-bit addition
//! `rv1 + arg2 = res`, gated by the ADD, LOAD and STORE flags; and the two
//! carry constraints of the 32-bit subtraction `rv1 - arg2 = res`, gated by
//! the SUB and BEQ flags.

use vstd::prelude::*;

use crate::constraints::{
    evaluate_all, new_add_constraint, new_bit_constraints, new_sub_constraint, row_wf,
    BitConstraint, CarryBitConstraint, CarryIndex, Constraint,
};
use crate::field::FieldOps;

verus! {

// CPU trace column indices.
pub const WRITE_REGISTER: usize = 7;
pub const MEMORY_2BYTES: usize = 8;
pub const MEMORY_4BYTES: usize = 9;
pub const SIGNED: usize = 12;
pub const MP_SELECTOR: usize = 13;
pub const MULDIV_SELECTOR: usize = 14;
pub const ADD: usize = 15;
pub const SUB: usize = 16;
pub const SLT: usize = 17;
pub const AND: usize = 18;
pub const OR: usize = 19;
pub const XOR: usize = 20;
pub const SL: usize = 21;
pub const SR: usize = 22;
pub const JALR: usize = 23;
pub const BEQ: usize = 24;
pub const BLT: usize = 25;
pub const LOAD: usize = 26;
pub const STORE: usize = 27;
pub const MUL: usize = 28;
pub const DIVREM: usize = 29;
pub const ECALL: usize = 30;
pub const EBREAK: usize = 31;
pub const RV_ONE: usize = 34;
pub const ARG_TWO: usize = 44;
pub const RES: usize = 48;

/// The number of main trace columns.
pub const TRACE_WIDTH: usize = 54;

/// Every constraint reads a single row: the step size the AIR reports.
pub const STEP_SIZE: usize = 1;

/// The number of transition constraints of the CPU AIR.
pub const NUM_TRANSITION_CONSTRAINTS: usize = 27;

/// The columns that must hold bits: the decode flags and the one-hot
/// instruction flags, in column order.
pub open spec fn spec_bit_columns() -> Seq<usize> {
    seq![
        WRITE_REGISTER,
        MEMORY_2BYTES,
        MEMORY_4BYTES,
        SIGNED,
        MP_SELECTOR,
        MULDIV_SELECTOR,
        ADD,
        SUB,
        SLT,
        AND,
        OR,
        XOR,
        SL,
        SR,
        JALR,
        BEQ,
        BLT,
        LOAD,
        STORE,
        MUL,
        DIVREM,
        ECALL,
        EBREAK,
    ]
}

/// Whether `c` is the bit constraint for column `col` at slot `idx`.
pub open spec fn spec_is_bit(c: Constraint, col: usize, idx: usize) -> bool {
    c == Constraint::Bit(BitConstraint { column_idx: col, constraint_idx: idx })
}

/// Whether `c` is the carry constraint `which` over the given flag columns
/// and limb groups, at slot `idx`.
pub open spec fn spec_is_carry(
    c: Constraint,
    which: CarryIndex,
    flags: Seq<usize>,
    lhs: usize,
    rhs: usize,
    res: usize,
    idx: usize,
) -> bool {
    c matches Constraint::Carry(cc) && cc.carry_idx == which && cc.flags_idx@ == flags
        && cc.lhs_start_idx == lhs && cc.rhs_start_idx == rhs && cc.res_start_idx == res
        && cc.constraint_idx == idx
}

/// What the CPU AIR's constraint list holds: 23 bit constraints, the add
/// carry pair over `rv1 + arg2 = res`, and the sub carry pair over
/// `rv1 - arg2 = res` (checked as `res + arg2 = rv1`), each constraint
/// numbered by its position.
pub open spec fn spec_cpu_constraint_list(cs: Seq<Constraint>) -> bool {
    &&& cs.len() == NUM_TRANSITION_CONSTRAINTS
    &&& forall|i: int| 0 <= i < 23 ==> spec_is_bit(#[trigger] cs[i], spec_bit_columns()[i], i as usize)
    &&& spec_is_carry(cs[23], CarryIndex::Zero, seq![ADD, LOAD, STORE], RV_ONE, ARG_TWO, RES, 23)
    &&& spec_is_carry(cs[24], CarryIndex::One, seq![ADD, LOAD, STORE], RV_ONE, ARG_TWO, RES, 24)
    &&& spec_is_carry(cs[25], CarryIndex::Zero, seq![SUB, BEQ], RES, ARG_TWO, RV_ONE, 25)
    &&& spec_is_carry(cs[26], CarryIndex::One, seq![SUB, BEQ], RES, ARG_TWO, RV_ONE, 26)
}

/// Every constraint of such a list reads only columns below the trace width
/// and is numbered by its position.
pub proof fn lemma_cpu_constraint_list_fits(cs: Seq<Constraint>)
    requires
        spec_cpu_constraint_list(cs),
    ensures
        forall|i: int| 0 <= i < cs.len() ==> (#[trigger] cs[i]).fits(TRACE_WIDTH as int),
        forall|i: int| 0 <= i < cs.len() ==> (#[trigger] cs[i]).spec_constraint_idx() == i,
{
    assert forall|i: int| 0 <= i < cs.len() implies (#[trigger] cs[i]).fits(TRACE_WIDTH as int)
        && cs[i].spec_constraint_idx() == i by {
        if i < 23 {
            assert(spec_is_bit(cs[i], spec_bit_columns()[i], i as usize));
        }
    }
}

/// Builds the CPU AIR's transition-constraint list.
pub fn cpu_transition_constraints() -> (r: Vec<Constraint>)
    ensures
        spec_cpu_constraint_list(r@),
{
    let bit_columns_index_to_constraint: Vec<usize> = vec![
        WRITE_REGISTER,
        MEMORY_2BYTES,
        MEMORY_4BYTES,
        SIGNED,
        MP_SELECTOR,
        MULDIV_SELECTOR,
        ADD,
        SUB,
        SLT,
        AND,
        OR,
        XOR,
        SL,
        SR,
        JALR,
        BEQ,
        BLT,
        LOAD,
        STORE,
        MUL,
        DIVREM,
        ECALL,
        EBREAK,
    ];
    proof {
        assert(bit_columns_index_to_constraint@ =~= spec_bit_columns());
    }
    let mut constraints = new_bit_constraints(&bit_columns_index_to_constraint, 0);

    // The 32-bit addition constraint: rv1 + arg2 = res, on rows executing
    // ADD, LOAD or STORE.
    let add_flags: Vec<usize> = vec![ADD, LOAD, STORE];
    let mut add_constraints = new_add_constraint(add_flags, RV_ONE, ARG_TWO, RES, 23);
    let add_one = add_constraints.pop().unwrap();
    let add_zero = add_constraints.pop().unwrap();
    constraints.push(add_zero);
    constraints.push(add_one);

    // The 32-bit subtraction constraint: rv1 - arg2 = res, on rows executing
    // SUB or BEQ.
    let sub_flags: Vec<usize> = vec![SUB, BEQ];
    let mut sub_constraints = new_sub_constraint(sub_flags, RV_ONE, ARG_TWO, RES, 25);
    let sub_one = sub_constraints.pop().unwrap();
    let sub_zero = sub_constraints.pop().unwrap();
    constraints.push(sub_zero);
    constraints.push(sub_one);

    constraints
}

/// The CPU AIR as presented to a STARK proving framework: the trace layout,
/// the transition-constraint list, and the degree bound of the composition
/// polynomial.
pub struct CPUTableAIR {
    pub trace_length: usize,
    pub constraints: Vec<Constraint>,
}

impl CPUTableAIR {
    /// The AIR for a trace of `trace_length` rows (a power of two, as the
    /// framework requires; the constraints do not depend on it).
    pub fn new(trace_length: usize) -> (r: CPUTableAIR)
        ensures
            r.trace_length == trace_length,
            spec_cpu_constraint_list(r.constraints@),
    {
        CPUTableAIR { trace_length, constraints: cpu_transition_constraints() }
    }

    /// The transition constraints, each numbered by its position.
    pub fn transition_constraints(&self) -> (r: &Vec<Constraint>)
        ensures
            r@ == self.constraints@,
    {
        &self.constraints
    }

    /// The degree bound of the composition polynomial: twice the trace
    /// length.
    pub fn composition_poly_degree_bound(&self) -> (r: usize)
        requires
            self.trace_length <= usize::MAX / 2,
        ensures
            r == self.trace_length * 2,
    {
        self.trace_length * 2
    }

    /// The trace length the AIR was built for.
    pub fn trace_length(&self) -> (r: usize)
        ensures
            r == self.trace_length,
    {
        self.trace_length
    }

    /// Evaluates every transition constraint on one row of the trace,
    /// writing each constraint's value at its slot — what the enclosing
    /// framework asks of the AIR for the prover's rows (base field) and the
    /// verifier's (extension field) alike.
    pub fn evaluate_transitions<F: FieldOps>(
        &self,
        row: &Vec<F>,
        transition_evaluations: &mut Vec<F>,
    )
        requires
            spec_cpu_constraint_list(self.constraints@),
            row@.len() == TRACE_WIDTH,
            old(transition_evaluations).len() >= NUM_TRANSITION_CONSTRAINTS,
            row_wf(row@),
        ensures
            final(transition_evaluations)@.len() == old(transition_evaluations)@.len(),
            forall|i: int|
                0 <= i < NUM_TRANSITION_CONSTRAINTS ==> final(transition_evaluations)@[i]
                    == (#[trigger] self.constraints@[i]).spec_eval(row@),
            forall|i: int|
                NUM_TRANSITION_CONSTRAINTS <= i < old(transition_evaluations)@.len()
                    ==> final(transition_evaluations)@[i] == old(transition_evaluations)@[i],
    {
        proof {
            lemma_cpu_constraint_list_fits(self.constraints@);
        }
        evaluate_all(&self.constraints, row, transition_evaluations);
    }

    /// The trace layout: 54 main columns, no auxiliary columns.
    pub fn trace_layout(&self) -> (r: (usize, usize))
        ensures
            r == (TRACE_WIDTH, 0usize),
    {
        (TRACE_WIDTH, 0)
    }
}

} // verus!

//! The CPU trace builder: populates the 54-column table from executed
//! instructions.
//!
//! Each executed instruction becomes one row, laid out as the CPU AIR
//! expects: 16-bit limb pairs (low first) for the timestamp, the program
//! counter, the immediate, the next program counter and the written-back
//! value; 8-bit limb groups (low first) for the two register values, the ALU
//! right operand and the ALU result; single one-hot and decode flag columns
//! elsewhere. [`spec_row_column`] gives every cell's value; [`lemma_one_hot`]
//! shows that each row sets exactly one instruction flag.

use vstd::prelude::*;

use crate::air_laws::{
    lemma_add_constraints_hold, lemma_flag_sum_at_most_one, row_has_word_limbs, spec_limb,
};
use crate::constraints::{spec_flag_sum, CarryBitConstraint};
use crate::cpu_air::{ADD as ADD_COL, BEQ as BEQ_COL, LOAD as LOAD_COL, MUL as MUL_COL,
    OR as OR_COL, STORE as STORE_COL, SUB as SUB_COL, TRACE_WIDTH};
use crate::field::{FieldOps, Fp, FIELD_MODULUS};

verus! {

/// The instructions the builder lays out.
#[derive(Debug, Clone, Copy, PartialEq, Eq, Structural)]
pub enum SimpleOpcode {
    ADD,
    MUL,
    OR,
    STORE,
}

/// One executed instruction, with the values the trace records: the program
/// counter, the register indices it read and wrote, the register values, the
/// ALU result, the written-back value (the result when absent) and the next
/// program counter (the following word when absent).
#[derive(Debug, Clone, Copy, PartialEq, Eq, Structural)]
pub struct CPUInstruction {
    pub pc: u32,
    pub opcode: SimpleOpcode,
    pub rs1: Option<u8>,
    pub rs2: Option<u8>,
    pub rd: Option<u8>,
    pub imm: Option<u32>,
    pub rv1_value: u32,
    pub rv2_value: u32,
    pub result_value: u32,
    pub rvd_value: Option<u32>,
    pub next_pc: Option<u32>,
}

/// Builds the 54 column vectors of a CPU trace from a sequence of executed
/// instructions. The caller pads the instruction sequence to a power of two
/// where the enclosing framework requires it.
pub struct CPUTableBuilder {
    pub instructions: Vec<CPUInstruction>,
}

/// The low 16-bit limb of a word.
pub open spec fn spec_lo16(x: u32) -> u32 {
    x & 0xFFFF
}

/// The high 16-bit limb of a word.
pub open spec fn spec_hi16(x: u32) -> u32 {
    x >> 16
}

/// A register index column's value: the index, or 0 when the instruction has
/// none.
pub open spec fn spec_reg_index(r: Option<u8>) -> u32 {
    match r {
        Some(i) => i as u32,
        None => 0,
    }
}

/// The immediate the row records: 0 when the instruction has none.
pub open spec fn spec_imm_value(inst: CPUInstruction) -> u32 {
    match inst.imm {
        Some(v) => v,
        None => 0,
    }
}

/// The written-back value: the ALU result when none is given.
pub open spec fn spec_rvd_value(inst: CPUInstruction) -> u32 {
    match inst.rvd_value {
        Some(v) => v,
        None => inst.result_value,
    }
}

/// The next program counter: the following word when none is given.
pub open spec fn spec_next_pc_value(inst: CPUInstruction) -> u32 {
    match inst.next_pc {
        Some(v) => v,
        None => inst.pc.wrapping_add(4),
    }
}

/// The ALU right operand: the immediate for a store, the second register
/// value otherwise.
pub open spec fn spec_arg2_value(inst: CPUInstruction) -> u32 {
    match inst.opcode {
        SimpleOpcode::STORE => spec_imm_value(inst),
        _ => inst.rv2_value,
    }
}

/// Whether the instruction writes a register: it names a destination other
/// than register 0.
pub open spec fn spec_writes_register(inst: CPUInstruction) -> bool {
    match inst.rd {
        Some(i) => i != 0,
        None => false,
    }
}

/// The one-hot flag column of an opcode.
pub open spec fn spec_flag_column(op: SimpleOpcode) -> int {
    match op {
        SimpleOpcode::ADD => ADD_COL as int,
        SimpleOpcode::MUL => MUL_COL as int,
        SimpleOpcode::OR => OR_COL as int,
        SimpleOpcode::STORE => STORE_COL as int,
    }
}

/// The timestamp of row `i`: the fourth multiples, starting at 4.
pub open spec fn spec_timestamp(i: int) -> u32 {
    (4 * (i + 1)) as u32
}

/// The plain value of the cell at column `col` of the row for instruction
/// `inst` at row index `i`.
pub open spec fn spec_cell_value(inst: CPUInstruction, i: int, col: int) -> u32 {
    if col == 0 {
        spec_lo16(spec_timestamp(i))
    } else if col == 1 {
        spec_hi16(spec_timestamp(i))
    } else if col == 2 {
        spec_lo16(inst.pc)
    } else if col == 3 {
        spec_hi16(inst.pc)
    } else if col == 4 {
        spec_reg_index(inst.rs1)
    } else if col == 5 {
        spec_reg_index(inst.rs2)
    } else if col == 6 {
        spec_reg_index(inst.rd)
    } else if col == 7 {
        if spec_writes_register(inst) {
            1
        } else {
            0
        }
    } else if col == 10 {
        spec_lo16(spec_imm_value(inst))
    } else if col == 11 {
        spec_hi16(spec_imm_value(inst))
    } else if 15 <= col < 32 {
        if col == spec_flag_column(inst.opcode) {
            1
        } else {
            0
        }
    } else if col == 32 {
        spec_lo16(spec_next_pc_value(inst))
    } else if col == 33 {
        spec_hi16(spec_next_pc_value(inst))
    } else if 34 <= col < 38 {
        spec_limb(inst.rv1_value, (col - 34) as u32)
    } else if 38 <= col < 42 {
        spec_limb(inst.rv2_value, (col - 38) as u32)
    } else if col == 42 {
        spec_lo16(spec_rvd_value(inst))
    } else if col == 43 {
        spec_hi16(spec_rvd_value(inst))
    } else if 44 <= col < 48 {
        spec_limb(spec_arg2_value(inst), (col - 44) as u32)
    } else if 48 <= col < 52 {
        spec_limb(inst.result_value, (col - 48) as u32)
    } else if col == 52 {
        if inst.rv1_value == spec_arg2_value(inst) {
            1
        } else {
            0
        }
    } else {
        // Columns 8, 9 (memory-width flags), 12, 13, 14 (signed and selector
        // flags) and 53 (branch taken) are zero for the instructions this
        // builder lays out.
        0
    }
}

/// The field element at column `col` of the row for `inst` at row index `i`.
pub open spec fn spec_row_column(inst: CPUInstruction, i: int, col: int) -> Fp {
    Fp::spec_from_u64(spec_cell_value(inst, i, col) as u32 as u64)
}

/// The full row for `inst` at row index `i`, as the constraints read it.
pub open spec fn spec_row(inst: CPUInstruction, i: int) -> Seq<Fp> {
    Seq::new(TRACE_WIDTH as nat, |col: int| spec_row_column(inst, i, col))
}

/// One cell of the trace.
fn row_column(inst: &CPUInstruction, i: usize, col: usize) -> (r: Fp)
    requires
        i <= 0x3FFFFFFE,
        col < TRACE_WIDTH,
    ensures
        r == spec_row_column(*inst, i as int, col as int),
        r.wf(),
{
    let v: u32 = if col == 0 {
        (4 * (i as u32 + 1)) & 0xFFFF
    } else if col == 1 {
        (4 * (i as u32 + 1)) >> 16
    } else if col == 2 {
        inst.pc & 0xFFFF
    } else if col == 3 {
        inst.pc >> 16
    } else if col == 4 {
        match inst.rs1 {
            Some(r) => r as u32,
            None => 0,
        }
    } else if col == 5 {
        match inst.rs2 {
            Some(r) => r as u32,
            None => 0,
        }
    } else if col == 6 {
        match inst.rd {
            Some(r) => r as u32,
            None => 0,
        }
    } else if col == 7 {
        match inst.rd {
            Some(r) => if r != 0 {
                1
            } else {
                0
            },
            None => 0,
        }
    } else if col == 10 {
        imm_value(inst) & 0xFFFF
    } else if col == 11 {
        imm_value(inst) >> 16
    } else if 15 <= col && col < 32 {
        let flag_col: usize = match inst.opcode {
            SimpleOpcode::ADD => ADD_COL,
            SimpleOpcode::MUL => MUL_COL,
            SimpleOpcode::OR => OR_COL,
            SimpleOpcode::STORE => STORE_COL,
        };
        if col == flag_col {
            1
        } else {
            0
        }
    } else if col == 32 {
        next_pc_value(inst) & 0xFFFF
    } else if col == 33 {
        next_pc_value(inst) >> 16
    } else if 34 <= col && col < 38 {
        (inst.rv1_value >> (8 * ((col - 34) as u32))) & 0xFF
    } else if 38 <= col && col < 42 {
        (inst.rv2_value >> (8 * ((col - 38) as u32))) & 0xFF
    } else if col == 42 {
        rvd_value(inst) & 0xFFFF
    } else if col == 43 {
        rvd_value(inst) >> 16
    } else if 44 <= col && col < 48 {
        (arg2_value(inst) >> (8 * ((col - 44) as u32))) & 0xFF
    } else if 48 <= col && col < 52 {
        (inst.result_value >> (8 * ((col - 48) as u32))) & 0xFF
    } else if col == 52 {
        if inst.rv1_value == arg2_value(inst) {
            1
        } else {
            0
        }
    } else {
        0
    };
    Fp::from_u64(v as u64)
}

/// The immediate the row records.
fn imm_value(inst: &CPUInstruction) -> (r: u32)
    ensures
        r == spec_imm_value(*inst),
{
    match inst.imm {
        Some(v) => v,
        None => 0,
    }
}

/// The written-back value.
fn rvd_value(inst: &CPUInstruction) -> (r: u32)
    ensures
        r == spec_rvd_value(*inst),
{
    match inst.rvd_value {
        Some(v) => v,
        None => inst.result_value,
    }
}

/// The next program counter.
fn next_pc_value(inst: &CPUInstruction) -> (r: u32)
    ensures
        r == spec_next_pc_value(*inst),
{
    match inst.next_pc {
        Some(v) => v,
        None => inst.pc.wrapping_add(4),
    }
}

/// The ALU right operand.
fn arg2_value(inst: &CPUInstruction) -> (r: u32)
    ensures
        r == spec_arg2_value(*inst),
{
    match inst.opcode {
        SimpleOpcode::STORE => imm_value(inst),
        _ => inst.rv2_value,
    }
}

impl CPUTableBuilder {
    /// An empty builder.
    pub fn new() -> (r: CPUTableBuilder)
        ensures
            r.instructions@ == Seq::<CPUInstruction>::empty(),
    {
        CPUTableBuilder { instructions: Vec::new() }
    }

    /// Appends an executed instruction as the next trace row.
    pub fn add_instruction(&mut self, inst: CPUInstruction) -> (r: &mut CPUTableBuilder)
        ensures
            r.instructions@ == old(self).instructions@.push(inst),
            final(self).instructions@ == final(r).instructions@,
    {
        self.instructions.push(inst);
        self
    }

    /// Builds the 54 column vectors, each as long as the instruction
    /// sequence; the cell at column `c`, row `i` is
    /// `spec_row_column(instructions[i], i, c)`. The timestamp column limits
    /// the row count to what keeps `4 * (i + 1)` inside 32 bits.
    #[verifier::loop_isolation(false)]
    pub fn build(&self) -> (r: Vec<Vec<Fp>>)
        requires
            self.instructions@.len() <= 0x3FFFFFFE,
        ensures
            r@.len() == TRACE_WIDTH,
            forall|c: int|
                0 <= c < TRACE_WIDTH ==> (#[trigger] r@[c])@.len() == self.instructions@.len(),
            forall|c: int, i: int|
                0 <= c < TRACE_WIDTH && 0 <= i < self.instructions@.len() ==> r@[c]@[i]
                    == spec_row_column(self.instructions@[i], i, c),
    {
        let num_rows = self.instructions.len();
        let mut columns: Vec<Vec<Fp>> = Vec::new();
        let mut c: usize = 0;
        while c < TRACE_WIDTH
            invariant
                c <= TRACE_WIDTH,
                columns@.len() == c,
                forall|j: int| 0 <= j < c ==> (#[trigger] columns@[j])@.len() == num_rows,
                forall|j: int, i: int|
                    0 <= j < c && 0 <= i < num_rows ==> columns@[j]@[i] == spec_row_column(
                        self.instructions@[i],
                        i,
                        j,
                    ),
            decreases TRACE_WIDTH - c,
        {
            let mut column: Vec<Fp> = Vec::new();
            let mut i: usize = 0;
            while i < num_rows
                invariant
                    i <= num_rows,
                    column@.len() == i,
                    c < TRACE_WIDTH,
                    forall|k: int|
                        0 <= k < i ==> column@[k] == spec_row_column(
                            self.instructions@[k],
                            k,
                            c as int,
                        ),
                decreases num_rows - i,
            {
                column.push(row_column(&self.instructions[i], i, c));
                i = i + 1;
            }
            columns.push(column);
            c = c + 1;
        }
        columns
    }
}

impl Default for CPUTableBuilder {
    /// The same as [`CPUTableBuilder::new`]: an empty builder.
    fn default() -> (r: CPUTableBuilder)
        ensures
            r.instructions@ == Seq::<CPUInstruction>::empty(),
    {
        CPUTableBuilder::new()
    }
}

/// Every built row sets exactly one one-hot instruction flag: the flag column
/// of its opcode holds one, every other flag column holds zero.
pub proof fn lemma_one_hot(inst: CPUInstruction, i: int)
    ensures
        spec_row_column(inst, i, spec_flag_column(inst.opcode)) == Fp::spec_one(),
        forall|c: int|
            15 <= c < 32 && c != spec_flag_column(inst.opcode) ==> spec_row_column(inst, i, c)
                == Fp::spec_zero(),
{
    vstd::arithmetic::div_mod::lemma_small_mod(1, FIELD_MODULUS as nat);
    vstd::arithmetic::div_mod::lemma_small_mod(0, FIELD_MODULUS as nat);
}

/// A built row holds the 8-bit limbs of the first register value, the ALU
/// right operand and the ALU result at their column groups, as the carry
/// constraints of the CPU AIR read them.
pub proof fn lemma_built_row_limbs(inst: CPUInstruction, i: int)
    ensures
        row_has_word_limbs(spec_row(inst, i), 34, inst.rv1_value),
        row_has_word_limbs(spec_row(inst, i), 44, spec_arg2_value(inst)),
        row_has_word_limbs(spec_row(inst, i), 48, inst.result_value),
{
}

/// On a built row the gating flag sum of either of the CPU AIR's carry
/// constraint families — ADD, LOAD and STORE for the addition, SUB and BEQ
/// for the subtraction — is 0 or 1, since the row is one-hot.
pub proof fn lemma_built_row_flag_sums(inst: CPUInstruction, i: int)
    ensures
        spec_flag_sum::<Fp>(spec_row(inst, i), seq![ADD_COL, LOAD_COL, STORE_COL])
            == Fp::spec_zero() || spec_flag_sum::<Fp>(
            spec_row(inst, i),
            seq![ADD_COL, LOAD_COL, STORE_COL],
        ) == Fp::spec_one(),
        spec_flag_sum::<Fp>(spec_row(inst, i), seq![SUB_COL, BEQ_COL]) == Fp::spec_zero()
            || spec_flag_sum::<Fp>(spec_row(inst, i), seq![SUB_COL, BEQ_COL]) == Fp::spec_one(),
{
    lemma_one_hot(inst, i);
    lemma_flag_sum_at_most_one(spec_row(inst, i), seq![ADD_COL, LOAD_COL, STORE_COL]);
    lemma_flag_sum_at_most_one(spec_row(inst, i), seq![SUB_COL, BEQ_COL]);
}

/// On a built row whose ALU result is the wrapping 32-bit sum of the first
/// register value and the ALU right operand — as on every honestly executed
/// addition — any carry constraint over the row's limb groups evaluates to
/// zero.
pub proof fn lemma_built_row_add_constraints_hold(
    inst: CPUInstruction,
    i: int,
    c: CarryBitConstraint,
)
    requires
        inst.result_value == inst.rv1_value.wrapping_add(spec_arg2_value(inst)),
        c.lhs_start_idx == 34,
        c.rhs_start_idx == 44,
        c.res_start_idx == 48,
    ensures
        c.spec_eval(spec_row(inst, i)) == Fp::spec_zero(),
{
    lemma_built_row_limbs(inst, i);
    lemma_add_constraints_hold(spec_row(inst, i), c, inst.rv1_value, spec_arg2_value(inst));
}

} // verus!

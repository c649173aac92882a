//! CPU AIR scenarios on one-row traces, the trace builder, and agreement of
//! the field model with the outside field implementation.

use lambdaworks_math::field::element::FieldElement;
use lambdaworks_math::field::fields::fft_friendly::babybear_u32::Babybear31PrimeField;
use lambdaworks_math::field::fields::fft_friendly::quartic_babybear_u32::Degree4BabyBearU32ExtensionField;

use null_vm::cpu_air::{CPUTableAIR, ADD, NUM_TRANSITION_CONSTRAINTS, RES, RV_ONE, TRACE_WIDTH};
use null_vm::cpu_table_builder::{CPUInstruction, CPUTableBuilder, SimpleOpcode};
use null_vm::field::{FieldOps, Fp, Fp4, FIELD_MODULUS, INV_65536};

type FE = FieldElement<Babybear31PrimeField>;
type FE4 = FieldElement<Degree4BabyBearU32ExtensionField>;

fn zero_row() -> Vec<Fp> {
    vec![Fp::from_u64(0); TRACE_WIDTH]
}

fn evaluate(row: &Vec<Fp>) -> Vec<Fp> {
    let air = CPUTableAIR::new(1);
    let mut out = vec![Fp::from_u64(0); NUM_TRANSITION_CONSTRAINTS];
    air.evaluate_transitions(row, &mut out);
    out
}

#[test]
fn test_all_zero_row_satisfies_every_constraint() {
    // All flag columns zero, all limb columns zero: every constraint
    // evaluates to 0.
    let out = evaluate(&zero_row());
    for v in out {
        assert_eq!(v.raw(), 0);
    }
}

/// Writes the four 8-bit limbs of `x`, low first, at columns
/// `start..start + 4`.
fn set_limbs(row: &mut Vec<Fp>, start: usize, x: u32) {
    for j in 0..4 {
        row[start + j] = Fp::from_u64(((x >> (8 * j)) & 0xFF) as u64);
    }
}

fn add_row(lhs: u32, rhs: u32, res: u32) -> Vec<Fp> {
    let mut row = zero_row();
    row[ADD] = Fp::from_u64(1);
    set_limbs(&mut row, RV_ONE, lhs);
    set_limbs(&mut row, 44, rhs);
    set_limbs(&mut row, RES, res);
    row
}

#[test]
fn test_add_row_with_low_carry_satisfies_constraints() {
    // ADD flag set, lhs = 0x0000_FFFF, rhs = 0x0000_0001, res = 0x0001_0000:
    // carry0 = 1, carry1 = 0, and both carry constraints are satisfied.
    let out = evaluate(&add_row(0x0000_FFFF, 0x0000_0001, 0x0001_0000));
    for v in &out {
        assert_eq!(v.raw(), 0);
    }
    // The carries themselves, recomputed with the field operations.
    let inv = Fp::from_u64(INV_65536);
    let carry0 = Fp::mul(
        Fp::sub(Fp::add(Fp::from_u64(0xFFFF), Fp::from_u64(1)), Fp::from_u64(0)),
        inv,
    );
    assert_eq!(carry0.raw(), 1);
    let carry1 = Fp::mul(
        Fp::add(Fp::sub(Fp::add(Fp::from_u64(0), Fp::from_u64(0)), Fp::from_u64(1)), carry0),
        inv,
    );
    assert_eq!(carry1.raw(), 0);
}

#[test]
fn test_add_row_with_wrong_result_fails_a_carry_constraint() {
    // ADD flag set with res deliberately wrong by 1: at least one carry-bit
    // constraint evaluates to non-zero.
    let out = evaluate(&add_row(0x0000_FFFF, 0x0000_0001, 0x0001_0001));
    assert!(out[23].raw() != 0 || out[24].raw() != 0);
}

#[test]
fn test_sub_row_satisfies_constraints() {
    // SUB flag set with res the wrapping difference: both sub carry
    // constraints are satisfied.
    let (lhs, rhs) = (5u32, 7u32);
    let res = lhs.wrapping_sub(rhs);
    let mut row = zero_row();
    row[16] = Fp::from_u64(1);
    set_limbs(&mut row, RV_ONE, lhs);
    set_limbs(&mut row, 44, rhs);
    set_limbs(&mut row, RES, res);
    let out = evaluate(&row);
    for v in out {
        assert_eq!(v.raw(), 0);
    }
}

#[test]
fn test_nonbinary_flag_fails_its_bit_constraint() {
    let mut row = zero_row();
    row[ADD] = Fp::from_u64(2);
    let out = evaluate(&row);
    // The ADD flag's bit constraint sits at slot 6 of the 23 bit constraints
    // (columns 7, 8, 9, 12, 13, 14, then 15).
    assert!(out[6].raw() != 0);
}

#[test]
fn test_air_reports_layout() {
    let air = CPUTableAIR::new(8);
    assert_eq!(air.trace_layout(), (54, 0));
    assert_eq!(air.trace_length(), 8);
    assert_eq!(air.composition_poly_degree_bound(), 16);
    assert_eq!(air.transition_constraints().len(), 27);
    for (i, c) in air.transition_constraints().iter().enumerate() {
        assert_eq!(c.constraint_idx(), i);
        assert_eq!(c.degree(), if i < 23 { 2 } else { 3 });
    }
}

#[test]
fn test_constraints_evaluate_in_the_extension_field() {
    // The verifier's side evaluates the same formulas over the quartic
    // extension; on an embedded base-field row the evaluations embed too.
    let air = CPUTableAIR::new(1);
    let base_row = add_row(0x0000_FFFF, 0x0000_0001, 0x0001_0001);
    let row: Vec<Fp4> = base_row.iter().map(|&x| Fp4::from_base(x)).collect();
    let mut out = vec![Fp4::from_u64(0); NUM_TRANSITION_CONSTRAINTS];
    air.evaluate_transitions(&row, &mut out);
    let base_out = evaluate(&base_row);
    for i in 0..NUM_TRANSITION_CONSTRAINTS {
        assert_eq!(out[i], Fp4::from_base(base_out[i]));
    }
}

#[test]
fn test_prove_cpu_table_with_builder() {
    let mut builder = CPUTableBuilder::new();

    // Row 0: ADD r9, r1, r5 with rv1 = 10, rv2 = 10, result 20.
    builder.add_instruction(CPUInstruction {
        pc: 0,
        opcode: SimpleOpcode::ADD,
        rs1: Some(1),
        rs2: Some(5),
        rd: Some(9),
        imm: None,
        rv1_value: 10,
        rv2_value: 10,
        result_value: 20,
        rvd_value: Some(15),
        next_pc: Some(4),
    });

    // Row 1: MUL with rv1 = 20, rv2 = 20, result 400.
    builder.add_instruction(CPUInstruction {
        pc: 1,
        opcode: SimpleOpcode::MUL,
        rs1: Some(2),
        rs2: Some(6),
        rd: Some(10),
        imm: None,
        rv1_value: 20,
        rv2_value: 20,
        result_value: 400,
        rvd_value: Some(400),
        next_pc: Some(5),
    });

    // Row 2: OR with rv1 = 30, rv2 = 30, result 30.
    builder.add_instruction(CPUInstruction {
        pc: 2,
        opcode: SimpleOpcode::OR,
        rs1: Some(3),
        rs2: Some(7),
        rd: Some(11),
        imm: None,
        rv1_value: 30,
        rv2_value: 30,
        result_value: 30,
        rvd_value: Some(30),
        next_pc: Some(6),
    });

    // Row 3: STORE with rv1 = 40, rv2 = 40, imm 0, result 40.
    builder.add_instruction(CPUInstruction {
        pc: 3,
        opcode: SimpleOpcode::STORE,
        rs1: Some(4),
        rs2: Some(8),
        rd: None,
        imm: Some(0),
        rv1_value: 40,
        rv2_value: 40,
        result_value: 40,
        rvd_value: None,
        next_pc: Some(7),
    });

    let columns = builder.build();

    assert_eq!(columns.len(), 54);

    let num_rows = columns[0].len();
    assert_eq!(num_rows, 4);
    for col in &columns {
        assert_eq!(col.len(), num_rows);
    }

    // Each row sets exactly one one-hot instruction flag.
    let flags = [15usize, 28, 19, 27];
    for (row, &flag) in flags.iter().enumerate() {
        for col in 15..32 {
            let expected = if col == flag { 1 } else { 0 };
            assert_eq!(columns[col][row].raw(), expected);
        }
    }

    // The write-register flag follows the destination register.
    assert_eq!(columns[7][0].raw(), 1);
    assert_eq!(columns[7][3].raw(), 0);

    // The timestamp column counts fourth multiples in its low limb.
    assert_eq!(columns[0][0].raw(), 4);
    assert_eq!(columns[0][3].raw(), 16);
    assert_eq!(columns[1][0].raw(), 0);

    // Limb columns decompose the recorded values, low limbs first.
    assert_eq!(columns[34][1].raw(), 20);
    assert_eq!(columns[48][1].raw(), 400 & 0xFF);
    assert_eq!(columns[49][1].raw(), 400 >> 8);

    // The ADD row's constraint evaluations are all zero: its result is the
    // true 32-bit sum.
    let air = CPUTableAIR::new(4);
    let row0: Vec<Fp> = (0..54).map(|c| columns[c][0]).collect();
    let mut out = vec![Fp::from_u64(0); NUM_TRANSITION_CONSTRAINTS];
    air.evaluate_transitions(&row0, &mut out);
    for v in out {
        assert_eq!(v.raw(), 0);
    }
}

#[test]
fn test_empty_builder_builds_empty_columns() {
    let builder = CPUTableBuilder::new();
    let columns = builder.build();
    assert_eq!(columns.len(), 54);
    for col in &columns {
        assert!(col.is_empty());
    }
}

#[test]
fn test_extension_field_model_agrees_with_outside_field() {
    // The verified quartic extension computes the same products as the
    // outside implementation over x^4 + 11.
    let xs: [[u64; 4]; 3] = [
        [1, 2, 3, 4],
        [0, 0, 0, 1],
        [FIELD_MODULUS - 1, 65536, 11, 999_999_937],
    ];
    let fe4 = |a: [u64; 4]| {
        FE4::new([FE::from(a[0]), FE::from(a[1]), FE::from(a[2]), FE::from(a[3])])
    };
    let fp4 = |a: [u64; 4]| Fp4 {
        c0: Fp::from_u64(a[0]),
        c1: Fp::from_u64(a[1]),
        c2: Fp::from_u64(a[2]),
        c3: Fp::from_u64(a[3]),
    };
    let coords = |x: Fp4| [x.c0.raw(), x.c1.raw(), x.c2.raw(), x.c3.raw()];
    let fe_coords = |x: FE4| {
        let v = x.value().clone();
        [
            v[0].representative() as u64,
            v[1].representative() as u64,
            v[2].representative() as u64,
            v[3].representative() as u64,
        ]
    };
    for &a in &xs {
        for &b in &xs {
            assert_eq!(coords(Fp4::mul(fp4(a), fp4(b))), fe_coords(fe4(a) * fe4(b)));
            assert_eq!(coords(Fp4::add(fp4(a), fp4(b))), fe_coords(fe4(a) + fe4(b)));
            assert_eq!(coords(Fp4::sub(fp4(a), fp4(b))), fe_coords(fe4(a) - fe4(b)));
        }
    }
}

#[test]
fn test_field_model_agrees_with_outside_field() {
    // The verified BabyBear model computes the same sums, differences and
    // products as the outside field implementation.
    let samples: [u64; 6] = [0, 1, 65536, INV_65536, FIELD_MODULUS - 1, 123_456_789];
    for &a in &samples {
        for &b in &samples {
            let fa = Fp::from_u64(a);
            let fb = Fp::from_u64(b);
            let ea = FE::from(a);
            let eb = FE::from(b);
            assert_eq!(Fp::add(fa, fb).raw(), (ea + eb).representative() as u64);
            assert_eq!(Fp::sub(fa, fb).raw(), (ea - eb).representative() as u64);
            assert_eq!(Fp::mul(fa, fb).raw(), (ea * eb).representative() as u64);
        }
    }
    // The inverse constant: 65536 * INV_65536 is one in both.
    assert_eq!(Fp::mul(Fp::from_u64(65536), Fp::from_u64(INV_65536)).raw(), 1);
    assert_eq!((FE::from(65536u64) * FE::from(INV_65536)).representative(), 1);
}

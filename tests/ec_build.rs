use ec_casm::casm::{BinOp, BranchName, Expr, Instr, Operand};
use ec_casm::ec::{build, EcConcreteLibfunc};
use ec_casm::field::Felt;
use ec_casm::invocation::InvocationError;
use ec_casm::u248::{self, U248ConcreteLibfunc, U248FromFelt252Trait, U248Type};

const BETA_HI: u128 = 9232311042199003909135703136030664901;
const BETA_LO: u128 = 128409769180966887688445229832571100809;

fn beta() -> Felt {
    Felt { hi: BETA_HI, lo: BETA_LO }
}

#[test]
fn zero_emits_constant_pair() {
    let c = build(&EcConcreteLibfunc::Zero, &vec![]).unwrap();
    assert!(c.instrs.is_empty());
    assert_eq!(c.branches.len(), 1);
    assert_eq!(c.branches[0].name, BranchName::Fallthrough);
    let zero = Operand::Imm(Felt { hi: 0, lo: 0 });
    assert_eq!(c.branches[0].outputs, vec![zero, zero]);
}

#[test]
fn try_new_checks_curve_equation() {
    let c = build(&EcConcreteLibfunc::TryNew, &vec![1, 1]).unwrap();
    assert_eq!(c.instrs.len(), 9);
    assert_eq!(
        c.instrs[0],
        Instr::Assert { dst: 2, expr: Expr::Op(Operand::Cell(1), BinOp::Mul, Operand::Cell(1)) }
    );
    assert_eq!(
        c.instrs[3],
        Instr::Assert { dst: 6, expr: Expr::Op(Operand::Cell(0), BinOp::Add, Operand::Imm(beta())) }
    );
    assert_eq!(c.instrs[6], Instr::JumpNz { cond: 7, target: 8 });
    assert_eq!(c.branches[0].name, BranchName::Fallthrough);
    assert_eq!(c.branches[1].name, BranchName::NotOnCurve);
    assert!(c.branches[1].outputs.is_empty());
}

#[test]
fn point_from_x_picks_root_below_half() {
    let c = build(&EcConcreteLibfunc::PointFromX, &vec![1, 1]).unwrap();
    assert_eq!(c.range_check, Some(0));
    assert_eq!(c.instrs[4], Instr::HintSqrt { val: 2, dst: 6 });
    assert_eq!(
        c.instrs[9],
        Instr::Assert { dst: 7, expr: Expr::Op(Operand::Cell(2), BinOp::Mul, Operand::Imm(Felt { hi: 0, lo: 3 })) }
    );
    let half = Felt { hi: 5316911983139663648412552867652567040, lo: 1 };
    assert_eq!(c.instrs[11], Instr::RangeCheck { value: 6, bound: half });
    assert_eq!(
        c.branches[0].outputs,
        vec![Operand::Cursor(0), Operand::Cell(1), Operand::Cell(6)]
    );
    assert_eq!(c.branches[1].name, BranchName::NotOnCurve);
    assert_eq!(c.branches[1].outputs, vec![Operand::Cursor(0)]);
}

#[test]
fn point_from_x_is_the_same_each_time() {
    let a = build(&EcConcreteLibfunc::PointFromX, &vec![1, 1]).unwrap();
    let b = build(&EcConcreteLibfunc::PointFromX, &vec![1, 1]).unwrap();
    assert_eq!(a.instrs, b.instrs);
    assert_eq!(a.branches[0].outputs, b.branches[0].outputs);
}

#[test]
fn point_from_x_of_one_uses_curve_constant() {
    // x = 1: rhs = 1 + 1 + beta is computed from x and beta alone.
    let c = build(&EcConcreteLibfunc::PointFromX, &vec![1, 1]).unwrap();
    assert_eq!(
        c.instrs[2],
        Instr::Assert { dst: 5, expr: Expr::Op(Operand::Cell(1), BinOp::Add, Operand::Imm(beta())) }
    );
    assert_eq!(
        c.instrs[3],
        Instr::Assert { dst: 2, expr: Expr::Op(Operand::Cell(4), BinOp::Add, Operand::Cell(5)) }
    );
}

#[test]
fn unwrap_splits_point() {
    let c = build(&EcConcreteLibfunc::UnwrapPoint, &vec![2]).unwrap();
    assert!(c.instrs.is_empty());
    assert_eq!(c.branches[0].outputs, vec![Operand::Cell(0), Operand::Cell(1)]);
}

#[test]
fn is_zero_branches_on_y() {
    let c = build(&EcConcreteLibfunc::IsZero, &vec![2]).unwrap();
    assert_eq!(c.instrs[0], Instr::JumpNz { cond: 1, target: 2 });
    assert_eq!(c.branches[0].name, BranchName::Fallthrough);
    assert!(c.branches[0].outputs.is_empty());
    assert_eq!(c.branches[1].name, BranchName::Target);
    assert_eq!(c.branches[1].outputs, vec![Operand::Cell(0), Operand::Cell(1)]);
}

#[test]
fn neg_multiplies_y_by_minus_one() {
    let c = build(&EcConcreteLibfunc::Neg, &vec![2]).unwrap();
    let minus_one = Felt { hi: 10633823966279327296825105735305134080, lo: 0 };
    assert_eq!(
        c.instrs,
        vec![Instr::Assert { dst: 2, expr: Expr::Op(Operand::Cell(1), BinOp::Mul, Operand::Imm(minus_one)) }]
    );
    assert_eq!(c.branches[0].outputs, vec![Operand::Cell(0), Operand::Cell(2)]);
}

#[test]
fn state_init_points_at_blinding_point() {
    let c = build(&EcConcreteLibfunc::StateInit, &vec![]).unwrap();
    assert!(c.instrs.is_empty());
    assert_eq!(
        c.branches[0].outputs,
        vec![Operand::Blind(0), Operand::Blind(1), Operand::Blind(2)]
    );
}

#[test]
fn state_add_fails_on_same_x() {
    let c = build(&EcConcreteLibfunc::StateAdd, &vec![3, 2]).unwrap();
    assert_eq!(
        c.instrs[0],
        Instr::Assert { dst: 5, expr: Expr::Op(Operand::Cell(3), BinOp::Sub, Operand::Cell(0)) }
    );
    assert_eq!(c.instrs[1], Instr::JumpNz { cond: 5, target: 3 });
    assert_eq!(c.instrs[2], Instr::Fail);
    assert_eq!(c.instrs.len(), 11);
    assert_eq!(c.branches.len(), 1);
    assert_eq!(
        c.branches[0].outputs,
        vec![Operand::Cell(10), Operand::Cell(13), Operand::Cell(2)]
    );
}

#[test]
fn state_finalize_subtracts_blinding_point() {
    let c = build(&EcConcreteLibfunc::StateFinalize, &vec![3]).unwrap();
    assert_eq!(c.instrs[0], Instr::Assert { dst: 3, expr: Expr::Copy(Operand::Blind(0)) });
    assert_eq!(c.instrs[4], Instr::Assert { dst: 1, expr: Expr::Copy(Operand::Cell(4)) });
    assert_eq!(c.instrs[5], Instr::Exit { branch: 1 });
    assert_eq!(
        c.instrs[6],
        Instr::Assert { dst: 6, expr: Expr::Op(Operand::Cell(1), BinOp::Add, Operand::Cell(4)) }
    );
    assert_eq!(c.branches[1].name, BranchName::SumIsInfinity);
    assert_eq!(c.branches[0].outputs, vec![Operand::Cell(10), Operand::Cell(13)]);
}

#[test]
fn state_add_mul_feeds_builtin() {
    let c = build(&EcConcreteLibfunc::StateAddMul, &vec![1, 3, 1, 2]).unwrap();
    assert_eq!(c.instrs.len(), 7);
    assert_eq!(c.instrs[4], Instr::BuiltinWrite { src: Operand::Cell(4) });
    assert_eq!(c.instrs[6], Instr::BuiltinRead { dst: 8 });
    assert_eq!(
        c.branches[0].outputs,
        vec![Operand::Cursor(0), Operand::Cell(7), Operand::Cell(8), Operand::Cell(3)]
    );
}

#[test]
fn wrong_argument_count_is_rejected() {
    let r = build(&EcConcreteLibfunc::TryNew, &vec![1]);
    assert_eq!(r.err(), Some(InvocationError::WrongNumberOfArguments { expected: 2, actual: 1 }));
}

#[test]
fn wrong_cell_count_is_rejected() {
    let r = build(&EcConcreteLibfunc::StateAdd, &vec![3, 3]);
    assert_eq!(r.err(), Some(InvocationError::InvalidReferenceExpressionForArgument));
}

#[test]
fn u248_conversion_checks_both_ranges() {
    let c = u248::build(&U248ConcreteLibfunc::TryFromFelt252, &vec![1, 1]).unwrap();
    let limit = Felt { hi: 1u128 << 120, lo: 0 };
    assert_eq!(c.instrs[5], Instr::RangeCheck { value: 1, bound: limit });
    assert_eq!(c.branches[1].name, BranchName::Failure);
    assert_eq!(c.range_check, Some(0));
    assert!(u248::build_u248_try_from_felt252(&vec![2]).is_err());
}

#[test]
fn u248_names() {
    assert_eq!(U248Type::id(), "u248");
    assert_eq!(U248FromFelt252Trait::str_id(), "u248_try_from_felt252");
    let _ = U248Type::default();
}

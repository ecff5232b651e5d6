use vstd::prelude::*;

use crate::casm::{branch_view, Branch, BranchName, Compiled, CompiledView, Expr, BinOp, Instr, Operand};
use crate::field::Felt;
use crate::invocation::{check_shape, shape_error, InvocationError};

verus! {

/// The type of integers in `[0, 2^248)`.
#[derive(Clone, Copy, Debug, Default, PartialEq, Eq, Structural)]
pub struct U248Type {}

impl U248Type {
    pub fn id() -> (r: &'static str)
        ensures
            r@ == "u248"@,
    {
        "u248"
    }
}

/// The operation that tries to convert a field element into a u248.
#[derive(Clone, Copy, Debug, Default, PartialEq, Eq, Structural)]
pub struct U248FromFelt252Trait {}

impl U248FromFelt252Trait {
    pub fn str_id() -> (r: &'static str)
        ensures
            r@ == "u248_try_from_felt252"@,
    {
        "u248_try_from_felt252"
    }
}

/// The u248 operations of the IR.
#[derive(Clone, Copy, Debug, PartialEq, Eq, Structural)]
pub enum U248ConcreteLibfunc {
    TryFromFelt252,
}

/// `2^248` as a field constant.
pub open spec fn u248_limit_const() -> Felt {
    Felt { hi: 0x100_0000_0000_0000_0000_0000_0000_0000, lo: 0 }
}

/// `P - 2^248`, the bound on `value - 2^248` for values at or above the limit.
pub open spec fn u248_above_const() -> Felt {
    Felt { hi: 9304595970494411423921298675024789504, lo: 1 }
}

/// Inputs: the range-check cursor in cell 0, the value in cell 1.
pub open spec fn try_from_felt252_compiled() -> CompiledView {
    (
        seq![
            Instr::HintLessThan { value: 1, bound: u248_limit_const(), dst: 2 },
            Instr::JumpNz { cond: 2, target: 5 },
            Instr::Assert {
                dst: 3,
                expr: Expr::Op(Operand::Cell(1), BinOp::Sub, Operand::Imm(u248_limit_const())),
            },
            Instr::RangeCheck { value: 3, bound: u248_above_const() },
            Instr::Exit { branch: 1 },
            Instr::RangeCheck { value: 1, bound: u248_limit_const() },
        ],
        seq![
            (BranchName::Fallthrough, seq![Operand::Cursor(0), Operand::Cell(1)]),
            (BranchName::Failure, seq![Operand::Cursor(0)]),
        ],
        Some(0),
    )
}

/// Compiles the conversion of a field element into a u248: the value comes out through
/// `Fallthrough` when it is below `2^248`, and through `Failure` otherwise. One range
/// check is spent on either path.
pub fn build_u248_try_from_felt252(refs: &Vec<usize>) -> (r: Result<Compiled, InvocationError>)
    ensures
        r is Ok <==> shape_error(refs@, seq![1usize, 1usize]) is None,
        r matches Err(e) ==> shape_error(refs@, seq![1usize, 1usize]) == Some(e),
        r matches Ok(c) ==> c@ == try_from_felt252_compiled(),
{
    let mut expected: Vec<usize> = Vec::new();
    expected.push(1);
    expected.push(1);
    assert(expected@ =~= seq![1usize, 1usize]);
    if let Err(e) = check_shape(refs, &expected) {
        return Err(e);
    }
    let range_check: usize = 0;
    let value: usize = 1;
    let is_valid_value: usize = 2;
    let shifted_value: usize = 3;
    let limit = Felt { hi: 0x100_0000_0000_0000_0000_0000_0000_0000, lo: 0 };
    let mut code: Vec<Instr> = Vec::new();
    code.push(Instr::HintLessThan { value, bound: limit, dst: is_valid_value });
    code.push(Instr::JumpNz { cond: is_valid_value, target: 5 });
    code.push(
        Instr::Assert {
            dst: shifted_value,
            expr: Expr::Op(Operand::Cell(value), BinOp::Sub, Operand::Imm(limit)),
        },
    );
    code.push(
        Instr::RangeCheck {
            value: shifted_value,
            bound: Felt { hi: 9304595970494411423921298675024789504, lo: 1 },
        },
    );
    code.push(Instr::Exit { branch: 1 });
    code.push(Instr::RangeCheck { value, bound: limit });
    let mut ok_out: Vec<Operand> = Vec::new();
    ok_out.push(Operand::Cursor(range_check));
    ok_out.push(Operand::Cell(value));
    let mut fail_out: Vec<Operand> = Vec::new();
    fail_out.push(Operand::Cursor(range_check));
    assert(ok_out@ =~= seq![Operand::Cursor(0), Operand::Cell(1)]);
    assert(fail_out@ =~= seq![Operand::Cursor(0)]);
    let mut branches: Vec<Branch> = Vec::new();
    branches.push(Branch { name: BranchName::Fallthrough, outputs: ok_out });
    branches.push(Branch { name: BranchName::Failure, outputs: fail_out });
    let r = Compiled { instrs: code, branches, range_check: Some(range_check) };
    assert(r@.0 =~= try_from_felt252_compiled().0);
    assert(r@.1 =~= try_from_felt252_compiled().1);
    Ok(r)
}

/// Compiles a u248 operation.
pub fn build(libfunc: &U248ConcreteLibfunc, refs: &Vec<usize>) -> (r: Result<Compiled, InvocationError>)
    ensures
        r is Ok <==> shape_error(refs@, seq![1usize, 1usize]) is None,
        r matches Err(e) ==> shape_error(refs@, seq![1usize, 1usize]) == Some(e),
        r matches Ok(c) ==> c@ == try_from_felt252_compiled(),
{
    match libfunc {
        U248ConcreteLibfunc::TryFromFelt252 => build_u248_try_from_felt252(refs),
    }
}

} // verus!

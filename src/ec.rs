use vstd::prelude::*;

use crate::casm::{branch_view, BinOp, Branch, BranchName, Compiled, CompiledView, Expr, Instr, Operand};
use crate::field::{
    beta_const, beta_felt, half_const, half_felt, minus_one_const, minus_one_felt, Felt,
};
use crate::invocation::{check_shape, shape_error, InvocationError};

verus! {

/// The elliptic-curve operations of the IR.
#[derive(Clone, Copy, Debug, PartialEq, Eq, Structural)]
pub enum EcConcreteLibfunc {
    IsZero,
    Neg,
    StateAdd,
    TryNew,
    StateFinalize,
    StateInit,
    StateAddMul,
    PointFromX,
    UnwrapPoint,
    Zero,
}

pub open spec fn cell(c: usize) -> Operand {
    Operand::Cell(c)
}

pub open spec fn op(dst: usize, a: Operand, o: BinOp, b: Operand) -> Instr {
    Instr::Assert { dst, expr: Expr::Op(a, o, b) }
}

/// `dst = y * y`.
pub open spec fn lhs_code(y: usize, dst: usize) -> Seq<Instr> {
    seq![op(dst, cell(y), BinOp::Mul, cell(y))]
}

/// `dst = x^3 + (x + beta)`, through the temporary cells `t`, `t + 1`, `t + 2`.
pub open spec fn rhs_code(x: usize, dst: usize, t: usize) -> Seq<Instr> {
    seq![
        op(t, cell(x), BinOp::Mul, cell(x)),
        op((t + 1) as usize, cell(t), BinOp::Mul, cell(x)),
        op((t + 2) as usize, cell(x), BinOp::Add, Operand::Imm(beta_const())),
        op(dst, cell((t + 1) as usize), BinOp::Add, cell((t + 2) as usize)),
    ]
}

/// The chord formula for `(x0, y0) + (x1, _)` given its numerator and denominator,
/// through the temporary cells `t .. t + 7`; the result lands in `t + 3` and `t + 6`.
pub open spec fn add_code(x0: usize, y0: usize, x1: usize, num: usize, den: usize, t: usize) -> Seq<Instr> {
    seq![
        op(t, cell(num), BinOp::Div, cell(den)),
        op((t + 1) as usize, cell(t), BinOp::Mul, cell(t)),
        op((t + 2) as usize, cell(x0), BinOp::Add, cell(x1)),
        op((t + 3) as usize, cell((t + 1) as usize), BinOp::Sub, cell((t + 2) as usize)),
        op((t + 4) as usize, cell(x0), BinOp::Sub, cell((t + 3) as usize)),
        op((t + 5) as usize, cell(t), BinOp::Mul, cell((t + 4) as usize)),
        op((t + 6) as usize, cell((t + 5) as usize), BinOp::Sub, cell(y0)),
    ]
}

/// Appends `y * y` into `dst`.
fn compute_lhs(code: &mut Vec<Instr>, y: usize, dst: usize)
    ensures
        final(code)@ == old(code)@ + lhs_code(y, dst),
{
    code.push(Instr::Assert { dst, expr: Expr::Op(Operand::Cell(y), BinOp::Mul, Operand::Cell(y)) });
    assert(final(code)@ =~= old(code)@ + lhs_code(y, dst));
}

/// Appends `x^3 + x + beta` into `dst`, using three temporary cells from `t`.
fn compute_rhs(code: &mut Vec<Instr>, x: usize, dst: usize, t: usize)
    requires
        t + 3 <= usize::MAX,
    ensures
        final(code)@ == old(code)@ + rhs_code(x, dst, t),
{
    let beta = beta_felt();
    code.push(Instr::Assert { dst: t, expr: Expr::Op(Operand::Cell(x), BinOp::Mul, Operand::Cell(x)) });
    code.push(
        Instr::Assert { dst: t + 1, expr: Expr::Op(Operand::Cell(t), BinOp::Mul, Operand::Cell(x)) },
    );
    code.push(
        Instr::Assert { dst: t + 2, expr: Expr::Op(Operand::Cell(x), BinOp::Add, Operand::Imm(beta)) },
    );
    code.push(
        Instr::Assert {
            dst,
            expr: Expr::Op(Operand::Cell(t + 1), BinOp::Add, Operand::Cell(t + 2)),
        },
    );
    assert(final(code)@ =~= old(code)@ + rhs_code(x, dst, t));
}

/// Appends the computation of `y^2` into `lhs` and of `x^3 + x + beta` into `rhs`.
fn compute_ec_equation(code: &mut Vec<Instr>, x: usize, y: usize, lhs: usize, rhs: usize, t: usize)
    requires
        t + 3 <= usize::MAX,
    ensures
        final(code)@ == old(code)@ + lhs_code(y, lhs) + rhs_code(x, rhs, t),
{
    compute_lhs(code, y, lhs);
    compute_rhs(code, x, rhs, t);
}

/// Appends the sum (or difference) of `(x0, y0)` and a point with x coordinate `x1`,
/// given `numerator` and a non-zero `denominator = x0 - x1`. Returns the result's cells.
fn add_ec_points_inner(
    code: &mut Vec<Instr>,
    x0: usize,
    y0: usize,
    x1: usize,
    numerator: usize,
    denominator: usize,
    t: usize,
) -> (r: (usize, usize))
    requires
        t + 7 <= usize::MAX,
    ensures
        final(code)@ == old(code)@ + add_code(x0, y0, x1, numerator, denominator, t),
        r == ((t + 3) as usize, (t + 6) as usize),
{
    let slope = t;
    let slope2 = t + 1;
    let sum_x = t + 2;
    let result_x = t + 3;
    let x_diff = t + 4;
    let slope_times_x_change = t + 5;
    let result_y = t + 6;
    code.push(
        Instr::Assert {
            dst: slope,
            expr: Expr::Op(Operand::Cell(numerator), BinOp::Div, Operand::Cell(denominator)),
        },
    );
    code.push(
        Instr::Assert {
            dst: slope2,
            expr: Expr::Op(Operand::Cell(slope), BinOp::Mul, Operand::Cell(slope)),
        },
    );
    code.push(
        Instr::Assert { dst: sum_x, expr: Expr::Op(Operand::Cell(x0), BinOp::Add, Operand::Cell(x1)) },
    );
    code.push(
        Instr::Assert {
            dst: result_x,
            expr: Expr::Op(Operand::Cell(slope2), BinOp::Sub, Operand::Cell(sum_x)),
        },
    );
    code.push(
        Instr::Assert {
            dst: x_diff,
            expr: Expr::Op(Operand::Cell(x0), BinOp::Sub, Operand::Cell(result_x)),
        },
    );
    code.push(
        Instr::Assert {
            dst: slope_times_x_change,
            expr: Expr::Op(Operand::Cell(slope), BinOp::Mul, Operand::Cell(x_diff)),
        },
    );
    code.push(
        Instr::Assert {
            dst: result_y,
            expr: Expr::Op(Operand::Cell(slope_times_x_change), BinOp::Sub, Operand::Cell(y0)),
        },
    );
    assert(final(code)@ =~= old(code)@ + add_code(x0, y0, x1, numerator, denominator, t));
    (result_x, result_y)
}

} // verus!

verus! {

/// The cell counts of each operation's arguments.
pub open spec fn ec_shape(libfunc: EcConcreteLibfunc) -> Seq<usize> {
    match libfunc {
        EcConcreteLibfunc::IsZero | EcConcreteLibfunc::Neg | EcConcreteLibfunc::UnwrapPoint => seq![
            2usize,
        ],
        EcConcreteLibfunc::TryNew | EcConcreteLibfunc::PointFromX => seq![1usize, 1usize],
        EcConcreteLibfunc::StateAdd => seq![3usize, 2usize],
        EcConcreteLibfunc::StateFinalize => seq![3usize],
        EcConcreteLibfunc::StateAddMul => seq![1usize, 3usize, 1usize, 2usize],
        EcConcreteLibfunc::StateInit | EcConcreteLibfunc::Zero => seq![],
    }
}

fn shape(libfunc: &EcConcreteLibfunc) -> (r: Vec<usize>)
    ensures
        r@ == ec_shape(*libfunc),
{
    let mut v: Vec<usize> = Vec::new();
    match libfunc {
        EcConcreteLibfunc::IsZero | EcConcreteLibfunc::Neg | EcConcreteLibfunc::UnwrapPoint => {
            v.push(2);
        },
        EcConcreteLibfunc::TryNew | EcConcreteLibfunc::PointFromX => {
            v.push(1);
            v.push(1);
        },
        EcConcreteLibfunc::StateAdd => {
            v.push(3);
            v.push(2);
        },
        EcConcreteLibfunc::StateFinalize => {
            v.push(3);
        },
        EcConcreteLibfunc::StateAddMul => {
            v.push(1);
            v.push(3);
            v.push(1);
            v.push(2);
        },
        EcConcreteLibfunc::StateInit | EcConcreteLibfunc::Zero => {},
    }
    assert(v@ =~= ec_shape(*libfunc));
    v
}

/// Inputs: none. Output: the constant pair `(0, 0)`.
pub open spec fn zero_compiled() -> CompiledView {
    (
        seq![],
        seq![(BranchName::Fallthrough, seq![Operand::Imm(Felt::small_spec(0)), Operand::Imm(Felt::small_spec(0))])],
        None,
    )
}

/// Inputs: `x` in cell 0, `y` in cell 1.
pub open spec fn try_new_compiled() -> CompiledView {
    (
        lhs_code(1, 2) + rhs_code(0, 3, 4) + seq![
            op(7, cell(2), BinOp::Sub, cell(3)),
            Instr::JumpNz { cond: 7, target: 8 },
            Instr::Exit { branch: 0 },
            Instr::Exit { branch: 1 },
        ],
        seq![(BranchName::Fallthrough, seq![cell(0), cell(1)]), (BranchName::NotOnCurve, seq![])],
        None,
    )
}

/// Inputs: the range-check cursor in cell 0, `x` in cell 1; `y` is guessed into cell 6.
pub open spec fn point_from_x_compiled() -> CompiledView {
    (
        rhs_code(1, 2, 3) + seq![Instr::HintSqrt { val: 2, dst: 6 }] + lhs_code(6, 7) + seq![
            op(8, cell(7), BinOp::Sub, cell(2)),
            Instr::JumpNz { cond: 8, target: 9 },
            Instr::Jump { target: 11 },
            op(7, cell(2), BinOp::Mul, Operand::Imm(Felt::small_spec(3))),
            Instr::Exit { branch: 1 },
            Instr::RangeCheck { value: 6, bound: half_const() },
        ],
        seq![
            (BranchName::Fallthrough, seq![Operand::Cursor(0), cell(1), cell(6)]),
            (BranchName::NotOnCurve, seq![Operand::Cursor(0)]),
        ],
        Some(0),
    )
}

/// Inputs: `x` in cell 0, `y` in cell 1.
pub open spec fn unwrap_compiled() -> CompiledView {
    (seq![], seq![(BranchName::Fallthrough, seq![cell(0), cell(1)])], None)
}

/// Inputs: `x` in cell 0, `y` in cell 1.
pub open spec fn is_zero_compiled() -> CompiledView {
    (
        seq![
            Instr::JumpNz { cond: 1, target: 2 },
            Instr::Exit { branch: 0 },
            Instr::Exit { branch: 1 },
        ],
        seq![(BranchName::Fallthrough, seq![]), (BranchName::Target, seq![cell(0), cell(1)])],
        None,
    )
}

/// Inputs: `x` in cell 0, `y` in cell 1; `-y` lands in cell 2.
pub open spec fn neg_compiled() -> CompiledView {
    (
        seq![op(2, cell(1), BinOp::Mul, Operand::Imm(minus_one_const()))],
        seq![(BranchName::Fallthrough, seq![cell(0), cell(2)])],
        None,
    )
}

/// Inputs: none. Output: the state `(blind.x, blind.y, blind pointer)`.
pub open spec fn state_init_compiled() -> CompiledView {
    (
        seq![],
        seq![(BranchName::Fallthrough, seq![Operand::Blind(0), Operand::Blind(1), Operand::Blind(2)])],
        None,
    )
}

/// Inputs: the state `(sx, sy, ptr)` in cells 0 to 2, the point `(px, py)` in cells 3, 4.
pub open spec fn state_add_compiled() -> CompiledView {
    (
        seq![
            op(5, cell(3), BinOp::Sub, cell(0)),
            Instr::JumpNz { cond: 5, target: 3 },
            Instr::Fail,
            op(6, cell(4), BinOp::Sub, cell(1)),
        ] + add_code(3, 4, 0, 6, 5, 7),
        seq![(BranchName::Fallthrough, seq![cell(10), cell(13), cell(2)])],
        None,
    )
}

/// Inputs: the state `(x, y, ptr)` in cells 0 to 2.
pub open spec fn state_finalize_compiled() -> CompiledView {
    (
        seq![
            Instr::Assert { dst: 3, expr: Expr::Copy(Operand::Blind(0)) },
            Instr::Assert { dst: 4, expr: Expr::Copy(Operand::Blind(1)) },
            op(5, cell(0), BinOp::Sub, cell(3)),
            Instr::JumpNz { cond: 5, target: 6 },
            Instr::Assert { dst: 1, expr: Expr::Copy(cell(4)) },
            Instr::Exit { branch: 1 },
            op(6, cell(1), BinOp::Add, cell(4)),
        ] + add_code(0, 1, 3, 6, 5, 7),
        seq![(BranchName::Fallthrough, seq![cell(10), cell(13)]), (BranchName::SumIsInfinity, seq![])],
        None,
    )
}

/// Inputs: the builtin cursor in cell 0, the state `(sx, sy, ptr)` in cells 1 to 3, the
/// scalar `m` in cell 4, the point `(px, py)` in cells 5, 6.
pub open spec fn state_add_mul_compiled() -> CompiledView {
    (
        seq![
            Instr::BuiltinWrite { src: cell(1) },
            Instr::BuiltinWrite { src: cell(2) },
            Instr::BuiltinWrite { src: cell(5) },
            Instr::BuiltinWrite { src: cell(6) },
            Instr::BuiltinWrite { src: cell(4) },
            Instr::BuiltinRead { dst: 7 },
            Instr::BuiltinRead { dst: 8 },
        ],
        seq![(BranchName::Fallthrough, seq![Operand::Cursor(0), cell(7), cell(8), cell(3)])],
        None,
    )
}

pub open spec fn ec_compiled(libfunc: EcConcreteLibfunc) -> CompiledView {
    match libfunc {
        EcConcreteLibfunc::IsZero => is_zero_compiled(),
        EcConcreteLibfunc::Neg => neg_compiled(),
        EcConcreteLibfunc::StateAdd => state_add_compiled(),
        EcConcreteLibfunc::TryNew => try_new_compiled(),
        EcConcreteLibfunc::StateFinalize => state_finalize_compiled(),
        EcConcreteLibfunc::StateInit => state_init_compiled(),
        EcConcreteLibfunc::StateAddMul => state_add_mul_compiled(),
        EcConcreteLibfunc::PointFromX => point_from_x_compiled(),
        EcConcreteLibfunc::UnwrapPoint => unwrap_compiled(),
        EcConcreteLibfunc::Zero => zero_compiled(),
    }
}

fn one_branch(name: BranchName, outputs: Vec<Operand>) -> (r: Vec<Branch>)
    ensures
        r@.map_values(|b: Branch| branch_view(b)) =~= seq![(name, outputs@)],
{
    let mut v: Vec<Branch> = Vec::new();
    v.push(Branch { name, outputs });
    v
}

fn two_branches(n0: BranchName, o0: Vec<Operand>, n1: BranchName, o1: Vec<Operand>) -> (r: Vec<Branch>)
    ensures
        r@.map_values(|b: Branch| branch_view(b)) =~= seq![(n0, o0@), (n1, o1@)],
{
    let mut v: Vec<Branch> = Vec::new();
    v.push(Branch { name: n0, outputs: o0 });
    v.push(Branch { name: n1, outputs: o1 });
    v
}

fn operands1(a: Operand) -> (r: Vec<Operand>)
    ensures
        r@ == seq![a],
{
    let mut v: Vec<Operand> = Vec::new();
    v.push(a);
    assert(v@ =~= seq![a]);
    v
}

fn operands2(a: Operand, b: Operand) -> (r: Vec<Operand>)
    ensures
        r@ == seq![a, b],
{
    let mut v: Vec<Operand> = Vec::new();
    v.push(a);
    v.push(b);
    assert(v@ =~= seq![a, b]);
    v
}

fn operands3(a: Operand, b: Operand, c: Operand) -> (r: Vec<Operand>)
    ensures
        r@ == seq![a, b, c],
{
    let mut v = operands2(a, b);
    v.push(c);
    assert(v@ =~= seq![a, b, c]);
    v
}

/// Generates the constant zero point.
fn build_ec_zero() -> (r: Compiled)
    ensures
        r@ == zero_compiled(),
{
    let zero = Operand::Imm(Felt::small(0));
    let r = Compiled {
        instrs: Vec::new(),
        branches: one_branch(BranchName::Fallthrough, operands2(zero, zero)),
        range_check: None,
    };
    assert(r@.0 =~= zero_compiled().0);
    r
}

/// Checks that `(x, y)` is on the curve, leaving through `NotOnCurve` when it is not.
fn build_ec_point_try_new_nz() -> (r: Compiled)
    ensures
        r@ == try_new_compiled(),
{
    let x: usize = 0;
    let y: usize = 1;
    let y2: usize = 2;
    let expected_y2: usize = 3;
    let diff: usize = 7;
    let mut code: Vec<Instr> = Vec::new();
    compute_ec_equation(&mut code, x, y, y2, expected_y2, 4);
    code.push(
        Instr::Assert {
            dst: diff,
            expr: Expr::Op(Operand::Cell(y2), BinOp::Sub, Operand::Cell(expected_y2)),
        },
    );
    code.push(Instr::JumpNz { cond: diff, target: 8 });
    code.push(Instr::Exit { branch: 0 });
    code.push(Instr::Exit { branch: 1 });
    let r = Compiled {
        instrs: code,
        branches: two_branches(
            BranchName::Fallthrough,
            operands2(Operand::Cell(x), Operand::Cell(y)),
            BranchName::NotOnCurve,
            Vec::new(),
        ),
        range_check: None,
    };
    assert(r@.0 =~= try_new_compiled().0);
    assert(r@.1 =~= try_new_compiled().1);
    r
}

} // verus!

verus! {

/// Derives the point with the given x coordinate from a prover-supplied square root,
/// leaving through `NotOnCurve` when `x^3 + x + beta` has none.
fn build_ec_point_from_x_nz() -> (r: Compiled)
    ensures
        r@ == point_from_x_compiled(),
{
    let range_check: usize = 0;
    let x: usize = 1;
    let rhs: usize = 2;
    let y: usize = 6;
    let lhs: usize = 7;
    let diff: usize = 8;
    let mut code: Vec<Instr> = Vec::new();
    compute_rhs(&mut code, x, rhs, 3);
    // Guess y, a square root of either `rhs` or `3 * rhs`.
    code.push(Instr::HintSqrt { val: rhs, dst: y });
    compute_lhs(&mut code, y, lhs);
    code.push(Instr::Assert { dst: diff, expr: Expr::Op(Operand::Cell(lhs), BinOp::Sub, Operand::Cell(rhs)) });
    code.push(Instr::JumpNz { cond: diff, target: 9 });
    code.push(Instr::Jump { target: 11 });
    // Not on the curve: `y^2 = 3 * rhs`, and 3 is not a square, so neither is `rhs`.
    code.push(
        Instr::Assert {
            dst: lhs,
            expr: Expr::Op(Operand::Cell(rhs), BinOp::Mul, Operand::Imm(Felt::small(3))),
        },
    );
    code.push(Instr::Exit { branch: 1 });
    // On the curve: `y < P / 2` picks one of the two roots.
    code.push(Instr::RangeCheck { value: y, bound: half_felt() });
    let r = Compiled {
        instrs: code,
        branches: two_branches(
            BranchName::Fallthrough,
            operands3(Operand::Cursor(range_check), Operand::Cell(x), Operand::Cell(y)),
            BranchName::NotOnCurve,
            operands1(Operand::Cursor(range_check)),
        ),
        range_check: Some(range_check),
    };
    assert(r@.0 =~= point_from_x_compiled().0);
    assert(r@.1 =~= point_from_x_compiled().1);
    r
}

/// Splits a point into its two coordinates.
fn build_ec_point_unwrap() -> (r: Compiled)
    ensures
        r@ == unwrap_compiled(),
{
    let r = Compiled {
        instrs: Vec::new(),
        branches: one_branch(BranchName::Fallthrough, operands2(Operand::Cell(0), Operand::Cell(1))),
        range_check: None,
    };
    assert(r@.0 =~= unwrap_compiled().0);
    r
}

/// Tells the zero point apart from the others by its y coordinate, since no point on
/// the curve has `y = 0`.
fn build_is_zero() -> (r: Compiled)
    ensures
        r@ == is_zero_compiled(),
{
    let mut code: Vec<Instr> = Vec::new();
    code.push(Instr::JumpNz { cond: 1, target: 2 });
    code.push(Instr::Exit { branch: 0 });
    code.push(Instr::Exit { branch: 1 });
    let r = Compiled {
        instrs: code,
        branches: two_branches(
            BranchName::Fallthrough,
            Vec::new(),
            BranchName::Target,
            operands2(Operand::Cell(0), Operand::Cell(1)),
        ),
        range_check: None,
    };
    assert(r@.0 =~= is_zero_compiled().0);
    assert(r@.1 =~= is_zero_compiled().1);
    r
}

/// Negates the y coordinate.
fn build_ec_neg() -> (r: Compiled)
    ensures
        r@ == neg_compiled(),
{
    let mut code: Vec<Instr> = Vec::new();
    code.push(
        Instr::Assert {
            dst: 2,
            expr: Expr::Op(Operand::Cell(1), BinOp::Mul, Operand::Imm(minus_one_felt())),
        },
    );
    let r = Compiled {
        instrs: code,
        branches: one_branch(BranchName::Fallthrough, operands2(Operand::Cell(0), Operand::Cell(2))),
        range_check: None,
    };
    assert(r@.0 =~= neg_compiled().0);
    r
}

/// Starts a sum at the blinding point, read through its pointer.
fn build_ec_state_init() -> (r: Compiled)
    ensures
        r@ == state_init_compiled(),
{
    let r = Compiled {
        instrs: Vec::new(),
        branches: one_branch(
            BranchName::Fallthrough,
            operands3(Operand::Blind(0), Operand::Blind(1), Operand::Blind(2)),
        ),
        range_check: None,
    };
    assert(r@.0 =~= state_init_compiled().0);
    r
}

/// Adds a point to a state; points with the state's x coordinate leave no valid trace.
fn build_ec_state_add() -> (r: Compiled)
    ensures
        r@ == state_add_compiled(),
{
    let sx: usize = 0;
    let sy: usize = 1;
    let random_ptr: usize = 2;
    let px: usize = 3;
    let py: usize = 4;
    let denominator: usize = 5;
    let numerator: usize = 6;
    let mut code: Vec<Instr> = Vec::new();
    code.push(
        Instr::Assert {
            dst: denominator,
            expr: Expr::Op(Operand::Cell(px), BinOp::Sub, Operand::Cell(sx)),
        },
    );
    code.push(Instr::JumpNz { cond: denominator, target: 3 });
    // Same x: the points are equal or opposite, and neither sum is allowed here.
    code.push(Instr::Fail);
    code.push(
        Instr::Assert { dst: numerator, expr: Expr::Op(Operand::Cell(py), BinOp::Sub, Operand::Cell(sy)) },
    );
    let (result_x, result_y) = add_ec_points_inner(&mut code, px, py, sx, numerator, denominator, 7);
    let r = Compiled {
        instrs: code,
        branches: one_branch(
            BranchName::Fallthrough,
            operands3(Operand::Cell(result_x), Operand::Cell(result_y), Operand::Cell(random_ptr)),
        ),
        range_check: None,
    };
    assert(r@.0 =~= state_add_compiled().0);
    r
}

/// Subtracts the blinding point from a state, leaving through `SumIsInfinity` when the
/// sum is the point at infinity.
fn build_ec_state_finalize() -> (r: Compiled)
    ensures
        r@ == state_finalize_compiled(),
{
    let x: usize = 0;
    let y: usize = 1;
    let random_x: usize = 3;
    let random_y: usize = 4;
    let denominator: usize = 5;
    let numerator: usize = 6;
    let mut code: Vec<Instr> = Vec::new();
    code.push(Instr::Assert { dst: random_x, expr: Expr::Copy(Operand::Blind(0)) });
    code.push(Instr::Assert { dst: random_y, expr: Expr::Copy(Operand::Blind(1)) });
    code.push(
        Instr::Assert { dst: denominator, expr: Expr::Op(Operand::Cell(x), BinOp::Sub, Operand::Cell(random_x)) },
    );
    code.push(Instr::JumpNz { cond: denominator, target: 6 });
    // Same x: only the sum at infinity is allowed, not a doubling.
    code.push(Instr::Assert { dst: y, expr: Expr::Copy(Operand::Cell(random_y)) });
    code.push(Instr::Exit { branch: 1 });
    // The negated blinding point has y coordinate `-random_y`.
    code.push(
        Instr::Assert { dst: numerator, expr: Expr::Op(Operand::Cell(y), BinOp::Add, Operand::Cell(random_y)) },
    );
    let (result_x, result_y) = add_ec_points_inner(&mut code, x, y, random_x, numerator, denominator, 7);
    let r = Compiled {
        instrs: code,
        branches: two_branches(
            BranchName::Fallthrough,
            operands2(Operand::Cell(result_x), Operand::Cell(result_y)),
            BranchName::SumIsInfinity,
            Vec::new(),
        ),
        range_check: None,
    };
    assert(r@.0 =~= state_finalize_compiled().0);
    assert(r@.1 =~= state_finalize_compiled().1);
    r
}

/// Computes `S + m * Q` on the accelerator builtin: five cells in, two cells out.
fn build_ec_state_add_mul() -> (r: Compiled)
    ensures
        r@ == state_add_mul_compiled(),
{
    let ec_builtin: usize = 0;
    let mut code: Vec<Instr> = Vec::new();
    code.push(Instr::BuiltinWrite { src: Operand::Cell(1) });
    code.push(Instr::BuiltinWrite { src: Operand::Cell(2) });
    code.push(Instr::BuiltinWrite { src: Operand::Cell(5) });
    code.push(Instr::BuiltinWrite { src: Operand::Cell(6) });
    code.push(Instr::BuiltinWrite { src: Operand::Cell(4) });
    code.push(Instr::BuiltinRead { dst: 7 });
    code.push(Instr::BuiltinRead { dst: 8 });
    let mut outputs = operands3(Operand::Cursor(ec_builtin), Operand::Cell(7), Operand::Cell(8));
    outputs.push(Operand::Cell(3));
    assert(outputs@ =~= seq![Operand::Cursor(0), Operand::Cell(7), Operand::Cell(8), Operand::Cell(3)]);
    let r = Compiled {
        instrs: code,
        branches: one_branch(BranchName::Fallthrough, outputs),
        range_check: None,
    };
    assert(r@.0 =~= state_add_mul_compiled().0);
    assert(r@.1 =~= state_add_mul_compiled().1);
    r
}

/// Compiles an EC operation whose arguments have `refs[i]` cells each, the i-th
/// argument's cells coming after those of the arguments before it.
pub fn build(libfunc: &EcConcreteLibfunc, refs: &Vec<usize>) -> (r: Result<Compiled, InvocationError>)
    ensures
        r is Ok <==> shape_error(refs@, ec_shape(*libfunc)) is None,
        r matches Err(e) ==> shape_error(refs@, ec_shape(*libfunc)) == Some(e),
        r matches Ok(c) ==> c@ == ec_compiled(*libfunc),
{
    let expected = shape(libfunc);
    match check_shape(refs, &expected) {
        Err(e) => Err(e),
        Ok(()) => Ok(
            match libfunc {
                EcConcreteLibfunc::IsZero => build_is_zero(),
                EcConcreteLibfunc::Neg => build_ec_neg(),
                EcConcreteLibfunc::StateAdd => build_ec_state_add(),
                EcConcreteLibfunc::TryNew => build_ec_point_try_new_nz(),
                EcConcreteLibfunc::StateFinalize => build_ec_state_finalize(),
                EcConcreteLibfunc::StateInit => build_ec_state_init(),
                EcConcreteLibfunc::StateAddMul => build_ec_state_add_mul(),
                EcConcreteLibfunc::PointFromX => build_ec_point_from_x_nz(),
                EcConcreteLibfunc::UnwrapPoint => build_ec_point_unwrap(),
                EcConcreteLibfunc::Zero => build_ec_zero(),
            },
        ),
    }
}

} // verus!

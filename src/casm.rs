use vstd::prelude::*;

use crate::field::{fmod, fdiv, prime, Felt};

verus! {

/// A value that an instruction reads.
#[derive(Clone, Copy, Debug, PartialEq, Eq, Structural)]
pub enum Operand {
    /// A cell of the operation's frame; inputs occupy the first cells, in order.
    Cell(usize),
    /// A field constant.
    Imm(Felt),
    /// A coordinate of the program-embedded blinding point (0 for x, 1 for y), or,
    /// for 2, the pointer to it.
    Blind(usize),
    /// The builtin cursor held in the given cell, advanced past the slots used so far.
    Cursor(usize),
}

#[derive(Clone, Copy, Debug, PartialEq, Eq, Structural)]
pub enum BinOp {
    Add,
    Sub,
    Mul,
    Div,
}

/// The right-hand side of an assertion.
#[derive(Clone, Copy, Debug, PartialEq, Eq, Structural)]
pub enum Expr {
    Copy(Operand),
    Op(Operand, BinOp, Operand),
}

/// One instruction of a compiled fragment. Jump targets are instruction indices.
#[derive(Clone, Copy, Debug, PartialEq, Eq, Structural)]
pub enum Instr {
    /// `dst = expr`: binds a fresh cell, or asserts the equality for a bound one.
    Assert { dst: usize, expr: Expr },
    /// Asks the prover for a square root of `val` (or of `3 * val`) into `dst`.
    HintSqrt { val: usize, dst: usize },
    /// Asks the prover whether `value < bound`, into `dst`.
    HintLessThan { value: usize, bound: Felt, dst: usize },
    /// Jumps to `target` when the cell `cond` is not zero.
    JumpNz { cond: usize, target: usize },
    /// Jumps to `target`.
    Jump { target: usize },
    /// Leaves the fragment towards the branch with the given index.
    Exit { branch: usize },
    /// An instruction that no trace satisfies.
    Fail,
    /// Consumes one range-check slot and asserts `0 <= value < bound`.
    RangeCheck { value: usize, bound: Felt },
    /// Writes an input cell of the accelerator builtin and advances its cursor.
    BuiltinWrite { src: Operand },
    /// Binds `dst` to the next output cell of the accelerator builtin.
    BuiltinRead { dst: usize },
}

/// The names of the successors of a compiled operation.
#[derive(Clone, Copy, Debug, PartialEq, Eq, Structural)]
pub enum BranchName {
    Fallthrough,
    NotOnCurve,
    Target,
    SumIsInfinity,
    Failure,
}

/// A successor: its name and the values it carries.
#[derive(Clone, Debug)]
pub struct Branch {
    pub name: BranchName,
    pub outputs: Vec<Operand>,
}

/// A compiled operation: its instructions, its successors (the first is reached by
/// running past the last instruction), and the cell of the range-check cursor whose
/// slots it consumes, if any.
#[derive(Clone, Debug)]
pub struct Compiled {
    pub instrs: Vec<Instr>,
    pub branches: Vec<Branch>,
    pub range_check: Option<usize>,
}

/// What a branch looks like to a contract.
pub open spec fn branch_view(b: Branch) -> (BranchName, Seq<Operand>) {
    (b.name, b.outputs@)
}

/// A compiled operation as contracts see it: instructions, successors with their
/// outputs, and the range-check cursor cell.
pub type CompiledView = (Seq<Instr>, Seq<(BranchName, Seq<Operand>)>, Option<usize>);

impl View for Compiled {
    type V = CompiledView;

    open spec fn view(&self) -> CompiledView {
        (self.instrs@, self.branches@.map_values(|b: Branch| branch_view(b)), self.range_check)
    }
}

/// The state of a run: bound cells, hints consumed, builtin slots used.
pub struct Machine {
    pub mem: Map<nat, int>,
    pub hint: nat,
    pub used: nat,
}

/// How a run ends: at a branch with its final state, or with no valid trace.
pub enum Run {
    Exit { branch: nat, m: Machine },
    Failed,
}

/// The frame that holds the inputs in its first cells.
pub open spec fn initial(args: Seq<int>) -> Machine {
    Machine {
        mem: Map::new(|k: nat| k < args.len(), |k: nat| args[k as int]),
        hint: 0,
        used: 0,
    }
}

/// The `i`-th value supplied by the prover or the builtin, as a field element.
pub open spec fn advice(hints: Seq<int>, i: nat) -> int {
    if i < hints.len() {
        fmod(hints[i as int])
    } else {
        0
    }
}

pub open spec fn operand_value(o: Operand, m: Machine, blind: (int, int)) -> Option<int> {
    match o {
        Operand::Cell(c) => if m.mem.contains_key(c as nat) {
            Some(m.mem[c as nat])
        } else {
            None
        },
        Operand::Imm(f) => Some(fmod(f@)),
        Operand::Blind(i) => if i == 0 {
            Some(blind.0)
        } else if i == 1 {
            Some(blind.1)
        } else {
            Some(0)
        },
        Operand::Cursor(c) => if m.mem.contains_key(c as nat) {
            Some(m.mem[c as nat] + m.used)
        } else {
            None
        },
    }
}

pub open spec fn apply(op: BinOp, a: int, b: int) -> Option<int> {
    match op {
        BinOp::Add => Some(fmod(a + b)),
        BinOp::Sub => Some(fmod(a - b)),
        BinOp::Mul => Some(fmod(a * b)),
        BinOp::Div => if fmod(b) == 0 {
            None
        } else {
            Some(fdiv(a, b))
        },
    }
}

pub open spec fn expr_value(e: Expr, m: Machine, blind: (int, int)) -> Option<int> {
    match e {
        Expr::Copy(o) => operand_value(o, m, blind),
        Expr::Op(a, op, b) => match (operand_value(a, m, blind), operand_value(b, m, blind)) {
            (Some(va), Some(vb)) => apply(op, va, vb),
            _ => None,
        },
    }
}

/// Binds `dst` to `v`, or checks it against the value already bound.
pub open spec fn assign(m: Machine, dst: usize, v: int) -> Option<Machine> {
    if m.mem.contains_key(dst as nat) {
        if m.mem[dst as nat] == v {
            Some(m)
        } else {
            None
        }
    } else {
        Some(Machine { mem: m.mem.insert(dst as nat, v), ..m })
    }
}

/// Runs `prog` from `pc` with the given advice and blinding point.
pub open spec fn run(prog: Seq<Instr>, pc: nat, m: Machine, hints: Seq<int>, blind: (int, int)) -> Run
    decreases prog.len() - pc,
{
    if pc >= prog.len() {
        Run::Exit { branch: 0, m }
    } else {
        match prog[pc as int] {
            Instr::Assert { dst, expr } => match expr_value(expr, m, blind) {
                Some(v) => match assign(m, dst, v) {
                    Some(m2) => run(prog, pc + 1, m2, hints, blind),
                    None => Run::Failed,
                },
                None => Run::Failed,
            },
            Instr::HintSqrt { val, dst } => if m.mem.contains_key(val as nat) {
                match assign(m, dst, advice(hints, m.hint)) {
                    Some(m2) => run(prog, pc + 1, Machine { hint: m2.hint + 1, ..m2 }, hints, blind),
                    None => Run::Failed,
                }
            } else {
                Run::Failed
            },
            Instr::HintLessThan { value, bound, dst } => if m.mem.contains_key(value as nat) {
                match assign(m, dst, advice(hints, m.hint)) {
                    Some(m2) => run(prog, pc + 1, Machine { hint: m2.hint + 1, ..m2 }, hints, blind),
                    None => Run::Failed,
                }
            } else {
                Run::Failed
            },
            Instr::JumpNz { cond, target } => if !m.mem.contains_key(cond as nat) {
                Run::Failed
            } else if m.mem[cond as nat] == 0 {
                run(prog, pc + 1, m, hints, blind)
            } else if pc < target <= prog.len() {
                run(prog, target as nat, m, hints, blind)
            } else {
                Run::Failed
            },
            Instr::Jump { target } => if pc < target <= prog.len() {
                run(prog, target as nat, m, hints, blind)
            } else {
                Run::Failed
            },
            Instr::Exit { branch } => Run::Exit { branch: branch as nat, m },
            Instr::Fail => Run::Failed,
            Instr::RangeCheck { value, bound } => if m.mem.contains_key(value as nat) && 0
                <= m.mem[value as nat] < bound@ {
                run(prog, pc + 1, Machine { used: m.used + 1, ..m }, hints, blind)
            } else {
                Run::Failed
            },
            Instr::BuiltinWrite { src } => match operand_value(src, m, blind) {
                Some(_) => run(prog, pc + 1, Machine { used: m.used + 1, ..m }, hints, blind),
                None => Run::Failed,
            },
            Instr::BuiltinRead { dst } => match assign(m, dst, advice(hints, m.hint)) {
                Some(m2) => run(
                    prog,
                    pc + 1,
                    Machine { hint: m2.hint + 1, used: m2.used + 1, ..m2 },
                    hints,
                    blind,
                ),
                None => Run::Failed,
            },
        }
    }
}

/// Runs a compiled fragment on input values.
pub open spec fn execute(prog: Seq<Instr>, args: Seq<int>, hints: Seq<int>, blind: (int, int)) -> Run {
    run(prog, 0, initial(args), hints, blind)
}

/// The values a branch carries at the end of a run.
pub open spec fn output_values(outs: Seq<Operand>, m: Machine, blind: (int, int)) -> Seq<Option<int>> {
    outs.map_values(|o: Operand| operand_value(o, m, blind))
}

} // verus!

verus! {

/// The branch a run of `c` leaves through and the values it carries, or `None` when
/// no valid trace exists.
pub open spec fn branch_outputs(c: CompiledView, args: Seq<int>, hints: Seq<int>, blind: (int, int)) -> Option<(nat, Seq<Option<int>>)> {
    match execute(c.0, args, hints, blind) {
        Run::Exit { branch, m } => if branch < c.1.len() {
            Some((branch, output_values(c.1[branch as int].1, m, blind)))
        } else {
            None
        },
        Run::Failed => None,
    }
}

} // verus!

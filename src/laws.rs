use vstd::prelude::*;

use crate::casm::{branch_outputs, execute, initial, run, Run};
use crate::ec::{
    is_zero_compiled, neg_compiled, state_add_compiled, state_finalize_compiled, state_init_compiled,
};
use crate::field::{fmod, prime};

verus! {

/// A value of the field in canonical form.
pub open spec fn is_felt(v: int) -> bool {
    0 <= v < prime()
}

/// IsZero leaves through the zero branch exactly when `y = 0`, and otherwise hands the
/// point on through `Target`. So `(0, 0)` is zero, and no point of the curve with a
/// non-zero `y` is.
#[verifier::spinoff_prover]
#[verifier::rlimit(50)]
pub proof fn lemma_is_zero_branches(x: int, y: int, hints: Seq<int>, blind: (int, int))
    requires
        is_felt(x),
        is_felt(y),
    ensures
        y == 0 ==> branch_outputs(is_zero_compiled(), seq![x, y], hints, blind) == Some(
            (0nat, Seq::<Option<int>>::empty()),
        ),
        y != 0 ==> branch_outputs(is_zero_compiled(), seq![x, y], hints, blind) == Some(
            (1nat, seq![Some(x), Some(y)]),
        ),
{
    reveal_with_fuel(run, 4);
    let args = seq![x, y];
    assert(initial(args).mem.contains_key(0) && initial(args).mem[0] == x);
    assert(initial(args).mem.contains_key(1) && initial(args).mem[1] == y);
    let r = branch_outputs(is_zero_compiled(), args, hints, blind);
    if y == 0 {
        assert(r.unwrap().1 =~= Seq::<Option<int>>::empty());
    } else {
        assert(r.unwrap().1 =~= seq![Some(x), Some(y)]);
    }
}

/// Adding to a state a point with the state's own x coordinate (a doubling, or a sum
/// at infinity) leaves no valid trace, whatever the prover supplies.
#[verifier::spinoff_prover]
#[verifier::rlimit(50)]
pub proof fn lemma_state_add_same_x_fails(
    sx: int,
    sy: int,
    ptr: int,
    py: int,
    hints: Seq<int>,
    blind: (int, int),
)
    requires
        is_felt(sx),
        is_felt(sy),
        is_felt(py),
    ensures
        execute(state_add_compiled().0, seq![sx, sy, ptr, sx, py], hints, blind) == Run::Failed,
        branch_outputs(state_add_compiled(), seq![sx, sy, ptr, sx, py], hints, blind) is None,
{
    reveal_with_fuel(run, 4);
    let args = seq![sx, sy, ptr, sx, py];
    assert(initial(args).mem.contains_key(0) && initial(args).mem[0] == sx);
    assert(initial(args).mem.contains_key(3) && initial(args).mem[3] == sx);
    assert(!initial(args).mem.contains_key(5));
    assert(fmod(sx - sx) == 0) by {
        reveal(fmod);
        vstd::arithmetic::div_mod::lemma_small_mod(0, prime() as nat);
    }
}

/// A state that is finalized right after its initialization holds no point: it leaves
/// through `SumIsInfinity`.
#[verifier::spinoff_prover]
#[verifier::rlimit(50)]
pub proof fn lemma_init_then_finalize_is_infinity(hints: Seq<int>, blind: (int, int))
    requires
        is_felt(blind.0),
        is_felt(blind.1),
    ensures
        branch_outputs(state_init_compiled(), seq![], hints, blind) == Some(
            (0nat, seq![Some(blind.0), Some(blind.1), Some(0int)]),
        ),
        branch_outputs(state_finalize_compiled(), seq![blind.0, blind.1, 0], hints, blind) == Some(
            (1nat, Seq::<Option<int>>::empty()),
        ),
{
    reveal_with_fuel(run, 7);
    let init = branch_outputs(state_init_compiled(), seq![], hints, blind);
    assert(init.unwrap().1 =~= seq![Some(blind.0), Some(blind.1), Some(0int)]);
    let args = seq![blind.0, blind.1, 0];
    assert(initial(args).mem.contains_key(0) && initial(args).mem[0] == blind.0);
    assert(initial(args).mem.contains_key(1) && initial(args).mem[1] == blind.1);
    assert(!initial(args).mem.contains_key(3));
    assert(fmod(blind.0 - blind.0) == 0) by {
        reveal(fmod);
        vstd::arithmetic::div_mod::lemma_small_mod(0, prime() as nat);
    }
    let fin = branch_outputs(state_finalize_compiled(), args, hints, blind);
    assert(fin.unwrap().1 =~= Seq::<Option<int>>::empty());
}

/// Multiplying by the field's `-1` negates.
proof fn lemma_times_minus_one(y: int)
    ensures
        fmod(y * (prime() - 1)) == fmod(-y),
{
    reveal(fmod);
    assert(y * (prime() - 1) == prime() * y + (-y)) by (nonlinear_arith);
    vstd::arithmetic::div_mod::lemma_mod_multiples_vanish(y, -y, prime());
}

/// Negation in the field undoes itself.
proof fn lemma_neg_neg_value(y: int)
    requires
        is_felt(y),
    ensures
        is_felt(fmod(-y)),
        fmod(-fmod(-y)) == y,
{
    reveal(fmod);
    if y == 0 {
        vstd::arithmetic::div_mod::lemma_small_mod(0, prime() as nat);
        assert(fmod(-y) == 0);
    } else {
        vstd::arithmetic::div_mod::lemma_mod_multiples_vanish(1, -y, prime());
        vstd::arithmetic::div_mod::lemma_small_mod((prime() - y) as nat, prime() as nat);
        assert(fmod(-y) == prime() - y);
        vstd::arithmetic::div_mod::lemma_mod_multiples_vanish(-1, y, prime());
        vstd::arithmetic::div_mod::lemma_small_mod(y as nat, prime() as nat);
    }
}

/// Neg maps `(x, y)` to `(x, -y)`.
#[verifier::spinoff_prover]
#[verifier::rlimit(50)]
pub proof fn lemma_neg_value(x: int, y: int, hints: Seq<int>, blind: (int, int))
    requires
        is_felt(x),
        is_felt(y),
    ensures
        branch_outputs(neg_compiled(), seq![x, y], hints, blind) == Some(
            (0nat, seq![Some(x), Some(fmod(-y))]),
        ),
{
    reveal_with_fuel(run, 2);
    let args = seq![x, y];
    assert(initial(args).mem.contains_key(0) && initial(args).mem[0] == x);
    assert(initial(args).mem.contains_key(1) && initial(args).mem[1] == y);
    assert(!initial(args).mem.contains_key(2));
    assert(fmod(prime() - 1) == prime() - 1) by {
        reveal(fmod);
        vstd::arithmetic::div_mod::lemma_small_mod((prime() - 1) as nat, prime() as nat);
    }
    lemma_times_minus_one(y);
    let r = branch_outputs(neg_compiled(), args, hints, blind);
    assert(r.unwrap().1 =~= seq![Some(x), Some(fmod(-y))]);
}

/// Negating a point twice gives it back, the zero point included.
pub proof fn lemma_neg_neg(x: int, y: int, hints: Seq<int>, blind: (int, int))
    requires
        is_felt(x),
        is_felt(y),
    ensures
        ({
            let once = branch_outputs(neg_compiled(), seq![x, y], hints, blind).unwrap().1;
            branch_outputs(neg_compiled(), seq![once[0].unwrap(), once[1].unwrap()], hints, blind)
                == Some((0nat, seq![Some(x), Some(y)]))
        }),
{
    lemma_neg_value(x, y, hints, blind);
    lemma_neg_neg_value(y);
    lemma_neg_value(x, fmod(-y), hints, blind);
}

} // verus!

use vstd::prelude::*;

verus! {

/// The order of the base field of the Stark curve: `2^251 + 17 * 2^192 + 1`.
pub open spec fn prime() -> int {
    10633823966279327296825105735305134080 * limb_base() + 1
}

/// Two's-power `2^128`, the weight of the high limb of a [`Felt`].
pub open spec fn limb_base() -> int {
    18446744073709551616int * 18446744073709551616int
}

/// A field constant held as two 128-bit limbs.
#[derive(Clone, Copy, Debug, PartialEq, Eq, Structural)]
pub struct Felt {
    pub hi: u128,
    pub lo: u128,
}

impl View for Felt {
    type V = int;

    open spec fn view(&self) -> int {
        self.hi as int * limb_base() + self.lo as int
    }
}

impl Felt {
    pub open spec fn wf(&self) -> bool {
        self@ < prime()
    }

    pub open spec fn small_spec(v: u128) -> Felt {
        Felt { hi: 0, lo: v }
    }

    pub fn small(v: u128) -> (r: Felt)
        ensures
            r == Felt::small_spec(v),
            r@ == v as int,
            r.wf(),
    {
        Felt { hi: 0, lo: v }
    }
}

/// `beta`, the free coefficient of the curve `y^2 = x^3 + x + beta`.
pub open spec fn beta() -> int {
    9232311042199003909135703136030664901 * limb_base() + 128409769180966887688445229832571100809
}

/// `beta` as a field constant.
pub open spec fn beta_const() -> Felt {
    Felt { hi: 9232311042199003909135703136030664901, lo: 128409769180966887688445229832571100809 }
}

pub fn beta_felt() -> (r: Felt)
    ensures
        r == beta_const(),
        r@ == beta(),
        r.wf(),
{
    let r = Felt { hi: 9232311042199003909135703136030664901, lo: 128409769180966887688445229832571100809 };
    assert(r@ == beta());
    r
}

/// Reduction into the canonical range `[0, P)`.
#[verifier::opaque]
pub open spec fn fmod(a: int) -> int {
    a % prime()
}

/// A multiplicative inverse of `b`, when it has one.
pub open spec fn finv(b: int) -> int {
    choose|i: int| 0 <= i < prime() && #[trigger] fmod(i * b) == 1
}

/// Field division `a / b`.
pub open spec fn fdiv(a: int, b: int) -> int {
    fmod(a * finv(b))
}

/// The constant `1/2` of the field, which equals `(P + 1) / 2`.
pub open spec fn half() -> int {
    5316911983139663648412552867652567040int * limb_base() + 1
}

/// `1/2` as a field constant.
pub open spec fn half_const() -> Felt {
    Felt { hi: 5316911983139663648412552867652567040, lo: 1 }
}

pub fn half_felt() -> (r: Felt)
    ensures
        r == half_const(),
        r@ == half(),
        r.wf(),
        fmod(2 * r@) == 1,
{
    let r = Felt { hi: 5316911983139663648412552867652567040, lo: 1 };
    assert(2 * half() == prime() + 1);
    proof {
        reveal(fmod);
        vstd::arithmetic::div_mod::lemma_fundamental_div_mod_converse(prime() + 1, prime(), 1int, 1int);
    }
    r
}

/// The field's `-1`, i.e. `P - 1`.
pub open spec fn minus_one_const() -> Felt {
    Felt { hi: 10633823966279327296825105735305134080, lo: 0 }
}

pub fn minus_one_felt() -> (r: Felt)
    ensures
        r == minus_one_const(),
        r@ == prime() - 1,
        r.wf(),
{
    Felt { hi: 10633823966279327296825105735305134080, lo: 0 }
}

} // verus!

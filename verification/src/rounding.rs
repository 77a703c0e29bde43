//! Rounding a size up to the allocation granularity.

use vstd::arithmetic::div_mod::lemma_fundamental_div_mod;
use vstd::arithmetic::div_mod::lemma_fundamental_div_mod_converse;
use vstd::prelude::*;

verus! {

/// Whether `value` is a whole number of units of `alignment`.
pub open spec fn is_multiple(value: nat, alignment: nat) -> bool {
    value % alignment == 0
}

/// `size` rounded up to the next multiple of `alignment`.
///
/// Meaningful for `alignment > 0`.
pub open spec fn round_up(size: nat, alignment: nat) -> nat {
    (((size + alignment - 1) / (alignment as int)) * alignment) as nat
}

/// What has to be added to `size` to reach the next multiple of `alignment`.
pub open spec fn padding(size: nat, alignment: nat) -> nat {
    if size % alignment == 0 {
        0
    } else {
        (alignment - size % alignment) as nat
    }
}

/// Rounding up adds the padding and nothing else.
pub proof fn lemma_round_up_adds_padding(size: nat, alignment: nat)
    requires
        alignment > 0,
    ensures
        round_up(size, alignment) == size + padding(size, alignment),
{
    let a = alignment as int;
    let q = size as int / a;
    let r = size as int % a;
    lemma_fundamental_div_mod(size as int, a);
    assert(a * q == q * a) by (nonlinear_arith);
    if r == 0 {
        lemma_fundamental_div_mod_converse(size + a - 1, a, q, a - 1);
    } else {
        assert((q + 1) * a + (r - 1) == size + a - 1) by (nonlinear_arith)
            requires
                size == q * a + r,
        ;
        lemma_fundamental_div_mod_converse(size + a - 1, a, q + 1, r - 1);
        assert((q + 1) * a == q * a + a) by (nonlinear_arith);
    }
}

/// The rounded size is the least multiple of `alignment` that is not below
/// `size`: it is a multiple, it is at least `size`, and no multiple lies
/// strictly between the two.
pub proof fn lemma_round_up_is_least_multiple(size: nat, alignment: nat)
    requires
        alignment > 0,
    ensures
        is_multiple(round_up(size, alignment), alignment),
        size <= round_up(size, alignment) < size + alignment,
        forall|m: nat| #[trigger]
            is_multiple(m, alignment) && size <= m ==> round_up(size, alignment) <= m,
{
    let a = alignment as int;
    let up = round_up(size, alignment) as int;
    let units = (size + a - 1) / a;
    lemma_round_up_adds_padding(size, alignment);
    assert(0 <= units) by {
        lemma_fundamental_div_mod(size + a - 1, a);
        assert(a * units >= 0 ==> units >= 0) by (nonlinear_arith)
            requires
                a > 0,
        ;
        if units < 0 {
            assert(a * units <= -a) by (nonlinear_arith)
                requires
                    a > 0,
                    units <= -1,
            ;
        }
    }
    assert(up == units * a);
    lemma_fundamental_div_mod_converse(up, a, units, 0);
    assert forall|m: nat| #[trigger] is_multiple(m, alignment) && size <= m implies up <= m by {
        let k = m as int / a;
        lemma_fundamental_div_mod(m as int, a);
        assert(m == a * k);
        if m < up {
            // Two multiples of `a` that differ by less than `a` are equal.
            assert(units * a == a * units) by (nonlinear_arith);
            assert(a * (units - k) == a * units - a * k) by (nonlinear_arith);
            assert(units - k >= 1) by (nonlinear_arith)
                requires
                    a * (units - k) > 0,
                    a > 0,
            ;
            assert(a * (units - k) >= a) by (nonlinear_arith)
                requires
                    units - k >= 1,
                    a > 0,
            ;
        }
    }
}

/// Rounds `size` up to the next multiple of `alignment`, or says that the
/// rounded size does not fit the machine word.
pub fn checked_round_up(size: usize, alignment: usize) -> (rounded: Option<usize>)
    requires
        alignment > 0,
    ensures
        rounded == if round_up(size as nat, alignment as nat) <= usize::MAX {
            Some(round_up(size as nat, alignment as nat) as usize)
        } else {
            None
        },
{
    proof {
        lemma_round_up_adds_padding(size as nat, alignment as nat);
    }
    let rest: usize = size % alignment;
    if rest == 0 {
        Some(size)
    } else {
        size.checked_add(alignment - rest)
    }
}

} // verus!

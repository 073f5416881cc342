//! What the written forms of an identifier say of it: two identifiers that
//! are written alike are one.

use vstd::prelude::*;
use vstd::arithmetic::div_mod::{lemma_basic_div, lemma_div_denominator, lemma_fundamental_div_mod};
use vstd::arithmetic::power::{lemma_pow0, lemma_pow1, lemma_pow_adds, lemma_pow_positive, pow};
use crate::outside::{hyphenated_text, lower_digits, nibble};

verus! {

/// What the first `m` four-bit groups of `id` stand for.
pub open spec fn leading(id: u128, m: int) -> int {
    id as int / pow(16, (32 - m) as nat)
}

/// Where the `k`-th hexadecimal digit stands in the hyphenated form.
pub open spec fn place(k: int) -> int {
    k + (if k >= 8 { 1int } else { 0 }) + (if k >= 12 { 1int } else { 0 }) + (if k >= 16 { 1int } else { 0 })
        + (if k >= 20 { 1int } else { 0 })
}

/// One group more stands for sixteen times as much and the group itself.
pub proof fn lemma_leading_step(id: u128, m: int)
    requires
        0 <= m < 32,
    ensures
        leading(id, m + 1) == leading(id, m) * 16 + nibble(id, m),
{
    let low = pow(16, (31 - m) as nat);
    lemma_pow_positive(16, (31 - m) as nat);
    lemma_pow_adds(16, (31 - m) as nat, 1);
    lemma_pow1(16);
    lemma_div_denominator(id as int, low, 16);
    lemma_fundamental_div_mod(id as int / low, 16);
}

/// Two identifiers with the same four-bit groups stand for the same as far as the groups go.
pub proof fn lemma_same_groups_same_leading(a: u128, b: u128, m: int)
    requires
        0 <= m <= 32,
        forall|k: int| 0 <= k < 32 ==> nibble(a, k) == nibble(b, k),
    ensures
        leading(a, m) == leading(b, m),
    decreases m,
{
    if m == 0 {
        lemma_pow_adds(16, 16, 16);
        lemma_pow_adds(16, 8, 8);
        lemma_pow_adds(16, 4, 4);
        lemma_pow_adds(16, 2, 2);
        lemma_pow_adds(16, 1, 1);
        lemma_pow1(16);
        assert(pow(16, 4) == 0x1_0000) by {
            assert(0x100 * 0x100 == 0x1_0000) by (nonlinear_arith);
        }
        assert(pow(16, 8) == 0x1_0000_0000) by {
            assert(0x1_0000 * 0x1_0000 == 0x1_0000_0000) by (nonlinear_arith);
        }
        assert(pow(16, 16) == 0x1_0000_0000_0000_0000) by {
            assert(0x1_0000_0000 * 0x1_0000_0000 == 0x1_0000_0000_0000_0000) by (nonlinear_arith);
        }
        assert(pow(16, 32) == 0x1_0000_0000_0000_0000_0000_0000_0000_0000) by {
            assert(0x1_0000_0000_0000_0000 * 0x1_0000_0000_0000_0000 == 0x1_0000_0000_0000_0000_0000_0000_0000_0000)
                by (nonlinear_arith);
        }
        lemma_basic_div(a as int, pow(16, 32));
        lemma_basic_div(b as int, pow(16, 32));
    } else {
        lemma_same_groups_same_leading(a, b, m - 1);
        lemma_leading_step(a, m - 1);
        lemma_leading_step(b, m - 1);
    }
}

/// Two identifiers that are written alike in the hyphenated form are one.
pub proof fn lemma_hyphenated_text_is_one_to_one(a: u128, b: u128)
    requires
        hyphenated_text(a) == hyphenated_text(b),
    ensures
        a == b,
{
    assert forall|k: int| 0 <= k < 32 implies nibble(a, k) == nibble(b, k) by {
        assert(hyphenated_text(a)[place(k)] == lower_digits()[nibble(a, k)]);
        assert(hyphenated_text(b)[place(k)] == lower_digits()[nibble(b, k)]);
        lemma_digits_differ(nibble(a, k), nibble(b, k));
    }
    lemma_same_groups_same_leading(a, b, 32);
    lemma_pow0(16);
}

/// No two of the sixteen hexadecimal digits are alike.
pub proof fn lemma_digits_differ(x: int, y: int)
    requires
        0 <= x < 16,
        0 <= y < 16,
        lower_digits()[x] == lower_digits()[y],
    ensures
        x == y,
{
}

} // verus!

use vstd::prelude::*;
use vstd::arithmetic::div_mod::{lemma_fundamental_div_mod, lemma_fundamental_div_mod_converse, lemma_mod_multiples_vanish};
use vstd::arithmetic::mul::lemma_mul_is_distributive_sub;
use vstd::arithmetic::mul::{lemma_mul_is_commutative, lemma_mul_is_distributive_add_other_way};

verus! {

/// Stepping one forward modulo `n` wraps from `n - 1` to `0`.
pub proof fn lemma_mod_step_up(a: int, n: int)
    requires
        n > 0,
    ensures
        (a + 1) % n == if a % n + 1 == n { 0 } else { a % n + 1 },
{
    let q = a / n;
    let r = a % n;
    lemma_fundamental_div_mod(a, n);
    lemma_mul_is_commutative(n, q);
    if r + 1 < n {
        lemma_fundamental_div_mod_converse(a + 1, n, q, r + 1);
    } else {
        lemma_mul_is_distributive_add_other_way(n, q, 1);
        lemma_fundamental_div_mod_converse(a + 1, n, q + 1, 0);
    }
}

/// Stepping one backward modulo `n` wraps from `0` to `n - 1`.
pub proof fn lemma_mod_step_down(a: int, n: int)
    requires
        n > 0,
    ensures
        (a - 1) % n == if a % n == 0 { n - 1 } else { a % n - 1 },
{
    let q = a / n;
    let r = a % n;
    lemma_fundamental_div_mod(a, n);
    lemma_mul_is_commutative(n, q);
    if r > 0 {
        lemma_fundamental_div_mod_converse(a - 1, n, q, r - 1);
    } else {
        lemma_mul_is_distributive_add_other_way(n, q - 1, 1);
        lemma_fundamental_div_mod_converse(a - 1, n, q - 1, n - 1);
    }
}

/// Counting `k + 1` steps on from `n - v % n` lands where counting back
/// `r % n` from `n` does, when `v == r + k + 1`.
pub proof fn lemma_mod_count_back(n: int, v: int, k: int, r: int)
    requires
        n > 0,
        v >= 0,
        r >= 0,
        v == r + k + 1,
    ensures
        (n - v % n + k + 1) % n == (n - r % n) % n,
{
    lemma_fundamental_div_mod(v, n);
    lemma_fundamental_div_mod(r, n);
    let y = n - r % n;
    let m = v / n - r / n;
    lemma_mul_is_distributive_sub(n, v / n, r / n);
    assert(n - v % n + k + 1 == n * m + y);
    lemma_mod_multiples_vanish(m, y, n);
}

} // verus!

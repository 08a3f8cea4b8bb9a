//! Properties of session numbering that span many sessions.

use vstd::prelude::*;
use vstd::arithmetic::div_mod::{lemma_fundamental_div_mod, lemma_fundamental_div_mod_converse_mod};
use crate::remote_session::next_counter;

verus! {

/// The counter of a host that started at `n`, after `k` sessions.
pub open spec fn advance(n: u64, k: nat) -> u64
    decreases k,
{
    if k == 0 {
        n
    } else {
        next_counter(advance(n, (k - 1) as nat))
    }
}

/// The number of values of a 64-bit counter.
pub open spec fn counter_range() -> int {
    0x1_0000_0000_0000_0000
}

/// After `k` sessions, a counter that started at `n` holds `n + k` modulo
/// 2^64.
pub proof fn lemma_advance_closed_form(n: u64, k: nat)
    ensures
        advance(n, k) as int == (n + k) % counter_range(),
    decreases k,
{
    let m = counter_range();
    if k == 0 {
        lemma_fundamental_div_mod_converse_mod(n as int, m, 0, n as int);
    } else {
        lemma_advance_closed_form(n, (k - 1) as nat);
        let x = n + k - 1;
        let a = advance(n, (k - 1) as nat);
        lemma_fundamental_div_mod(x, m);
        let q = x / m;
        assert(x == m * q + a);
        assert(m * q == q * m);
        if a == u64::MAX {
            assert(n + k == (q + 1) * m + 0);
            lemma_fundamental_div_mod_converse_mod(n + k, m, q + 1, 0);
        } else {
            assert(n + k == q * m + (a + 1));
            lemma_fundamental_div_mod_converse_mod(n + k, m, q, a + 1);
        }
    }
}

/// The sessions that one host numbers get distinct numbers, as long as there
/// are at most 2^64 of them: the `i`-th and the `j`-th differ.
pub proof fn law_session_numbers_are_distinct(n: u64, i: nat, j: nat)
    requires
        i < j < counter_range(),
    ensures
        advance(n, i) != advance(n, j),
{
    let m = counter_range();
    lemma_advance_closed_form(n, i);
    lemma_advance_closed_form(n, j);
    if n + i < m {
        lemma_fundamental_div_mod_converse_mod(n + i, m, 0, n + i);
    } else {
        lemma_fundamental_div_mod_converse_mod(n + i, m, 1, n + i - m);
    }
    if n + j < m {
        lemma_fundamental_div_mod_converse_mod(n + j, m, 0, n + j);
    } else {
        lemma_fundamental_div_mod_converse_mod(n + j, m, 1, n + j - m);
    }
}

} // verus!

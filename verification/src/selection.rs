//! Cursors that move round a list: the selection of a list screen and the
//! focus of a form.

use vstd::prelude::*;
use vstd::arithmetic::div_mod::{lemma_add_mod_noop, lemma_small_mod};

verus! {

/// The position after `i` in a round of `n` positions: the first follows
/// the last.
pub open spec fn wrap_next(i: nat, n: nat) -> nat
    recommends
        n > 0,
{
    (i + 1) % n
}

/// The position before `i` in a round of `n` positions: the last precedes
/// the first.
pub open spec fn wrap_prev(i: nat, n: nat) -> nat
    recommends
        n > 0,
{
    if i == 0 {
        (n - 1) as nat
    } else {
        (i - 1) as nat
    }
}

/// The position reached from `i` by `k` steps forward.
pub open spec fn wrap_forward(i: nat, n: nat, k: nat) -> nat
    recommends
        n > 0,
    decreases k,
{
    if k == 0 {
        i
    } else {
        wrap_next(wrap_forward(i, n, (k - 1) as nat), n)
    }
}

/// A position that is valid for a list of `n` items: `i` where the list is
/// empty or holds an item at `i`, the first position otherwise.
pub open spec fn settled(i: nat, n: nat) -> nat {
    if n == 0 || i < n {
        i
    } else {
        0
    }
}

/// From a position inside a round of `n`, a step either way ends inside it.
pub proof fn lemma_steps_stay_inside(i: nat, n: nat)
    ensures
        i < n ==> wrap_next(i, n) < n && wrap_prev(i, n) < n,
{
    if i < n {
        vstd::arithmetic::div_mod::lemma_mod_bound((i + 1) as int, n as int);
    }
}

/// One step forward in a round of `n` positions.
pub fn step_next(i: usize, n: usize) -> (r: usize)
    requires
        n > 0,
    ensures
        r == wrap_next(i as nat, n as nat),
        r < n,
{
    proof {
        lemma_add_mod_noop(i as int, 1, n as int);
        if n > 1 {
            lemma_small_mod(1, n as nat);
        }
    }
    (i % n + 1 % n) % n
}

/// One step back in a round of `n` positions.
pub fn step_prev(i: usize, n: usize) -> (r: usize)
    requires
        n > 0,
    ensures
        r == wrap_prev(i as nat, n as nat),
        i < n ==> r < n,
{
    if i == 0 {
        n - 1
    } else {
        i - 1
    }
}

/// `i` where it is valid for a list of `n` items, the first position where
/// it is not.
pub fn settle(i: usize, n: usize) -> (r: usize)
    ensures
        r == settled(i as nat, n as nat),
        n == 0 || r < n,
{
    if n == 0 || i < n {
        i
    } else {
        0
    }
}

} // verus!

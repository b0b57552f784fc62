//! Moving a selection through a catalog of a given length.
//!
//! A selection is `None` or an index below the catalog's length. Stepping
//! forward or backward wraps around; on an empty catalog nothing moves.

use vstd::prelude::*;
use vstd::arithmetic::div_mod::lemma_add_mod_noop_right;
use vstd::arithmetic::div_mod::lemma_mod_add_multiples_vanish;
use vstd::arithmetic::div_mod::lemma_small_mod;

verus! {

/// A selection is valid for a catalog of `n` tracks when it is absent or
/// points below `n`.
pub open spec fn valid_selection(sel: Option<usize>, n: nat) -> bool {
    sel matches Some(i) ==> i < n
}

/// The selection one step forward: the first track when nothing is selected,
/// else the following track, the first one after the last.
pub open spec fn next_of(sel: Option<usize>, n: nat) -> Option<usize> {
    if n == 0 {
        sel
    } else {
        match sel {
            Some(i) => Some(((i + 1) % (n as int)) as usize),
            None => Some(0),
        }
    }
}

/// The selection one step backward: the first track when nothing is selected,
/// else the preceding track, the last one before the first.
pub open spec fn previous_of(sel: Option<usize>, n: nat) -> Option<usize> {
    if n == 0 {
        sel
    } else {
        match sel {
            Some(i) => Some(((i + n - 1) % (n as int)) as usize),
            None => Some(0),
        }
    }
}

/// The selection after `k` steps forward.
pub open spec fn next_times(sel: Option<usize>, n: nat, k: nat) -> Option<usize>
    decreases k,
{
    if k == 0 {
        sel
    } else {
        next_of(next_times(sel, n, (k - 1) as nat), n)
    }
}

/// Computes the selection one step forward.
pub fn step_forward(sel: Option<usize>, n: usize) -> (r: Option<usize>)
    requires
        valid_selection(sel, n as nat),
    ensures
        r == next_of(sel, n as nat),
        valid_selection(r, n as nat),
{
    if n == 0 {
        sel
    } else {
        match sel {
            Some(i) => {
                if i + 1 == n {
                    proof {
                        lemma_mod_add_multiples_vanish(0, n as int);
                    }
                    Some(0)
                } else {
                    proof {
                        lemma_small_mod((i + 1) as nat, n as nat);
                    }
                    Some(i + 1)
                }
            },
            None => Some(0),
        }
    }
}

/// Computes the selection one step backward.
pub fn step_backward(sel: Option<usize>, n: usize) -> (r: Option<usize>)
    requires
        valid_selection(sel, n as nat),
    ensures
        r == previous_of(sel, n as nat),
        valid_selection(r, n as nat),
{
    if n == 0 {
        sel
    } else {
        match sel {
            Some(i) => {
                if i == 0 {
                    proof {
                        lemma_small_mod((n - 1) as nat, n as nat);
                    }
                    Some(n - 1)
                } else {
                    proof {
                        lemma_mod_add_multiples_vanish(i - 1, n as int);
                        lemma_small_mod((i - 1) as nat, n as nat);
                    }
                    Some(i - 1)
                }
            },
            None => Some(0),
        }
    }
}

/// Stepping keeps a valid selection valid.
pub proof fn lemma_steps_stay_valid(sel: Option<usize>, n: nat)
    requires
        valid_selection(sel, n),
        n <= usize::MAX,
    ensures
        valid_selection(next_of(sel, n), n),
        valid_selection(previous_of(sel, n), n),
{
    if n > 0 {
        if let Some(i) = sel {
            assert(0 <= (i + 1) % (n as int) < n) by (nonlinear_arith)
                requires
                    0 < n,
                    0 <= i,
            ;
            assert(0 <= (i + n - 1) % (n as int) < n) by (nonlinear_arith)
                requires
                    0 < n,
                    0 <= i,
            ;
        }
    }
}

/// From a selected track, `k` steps forward lead to the track `k` places on,
/// counted cyclically.
pub proof fn lemma_next_times(i: usize, n: nat, k: nat)
    requires
        i < n <= usize::MAX,
    ensures
        next_times(Some(i), n, k) == Some(((i + k) % (n as int)) as usize),
    decreases k,
{
    if k == 0 {
        lemma_small_mod(i as nat, n);
    } else {
        lemma_next_times(i, n, (k - 1) as nat);
        lemma_add_mod_noop_right(1, i + k - 1, n as int);
    }
}

/// On a catalog of `n` tracks, `n` steps forward from a selected track come
/// back to that track.
pub proof fn lemma_next_cycle(i: usize, n: nat)
    requires
        i < n <= usize::MAX,
    ensures
        next_times(Some(i), n, n) == Some(i),
{
    lemma_next_times(i, n, n);
    lemma_mod_add_multiples_vanish(i as int, n as int);
    lemma_small_mod(i as nat, n);
}

/// A step backward undoes a step forward, and a step forward undoes a step
/// backward, wherever a track is selected or the catalog is empty.
pub proof fn lemma_steps_inverse(sel: Option<usize>, n: nat)
    requires
        valid_selection(sel, n),
        n <= usize::MAX,
        sel is Some || n == 0,
    ensures
        previous_of(next_of(sel, n), n) == sel,
        next_of(previous_of(sel, n), n) == sel,
{
    if n > 0 {
        let i = sel.unwrap();
        let m = n as int;
        lemma_small_mod(i as nat, n);
        // Backward after forward: ((i + 1) % n + n - 1) % n == (n + i) % n == i.
        lemma_add_mod_noop_right(n - 1, i + 1, m);
        lemma_mod_add_multiples_vanish(i as int, m);
        // Forward after backward: ((i + n - 1) % n + 1) % n == (n + i) % n == i.
        lemma_add_mod_noop_right(1, i + n - 1, m);
    }
}

/// On an empty catalog a step in either direction leaves the selection as it
/// is, so a valid selection stays absent.
pub proof fn lemma_empty_catalog_steps(sel: Option<usize>)
    requires
        valid_selection(sel, 0),
    ensures
        sel is None,
        next_of(sel, 0) is None,
        previous_of(sel, 0) is None,
{
}

} // verus!

//! Navigation over an ordered list with a possibly-absent current index.
//!
//! Every operation is a pure function of the current index and the list
//! length. Results are always inside `[0, n-1]`, or `None` when the list is
//! empty, even when the incoming index is stale because the list shrank
//! since it was chosen: a selection must never reference a removed element.

use vstd::prelude::*;

verus! {

use vstd::arithmetic::div_mod::{
    lemma_add_mod_noop,
    lemma_mod_add_multiples_vanish,
    lemma_small_mod,
};

/// The index an `Option<usize>` selection stands for.
pub open spec fn index_view(o: Option<usize>) -> Option<int> {
    match o {
        None => None,
        Some(i) => Some(i as int),
    }
}

/// Cyclic successor: `None` on an empty list, the head when nothing is
/// selected, otherwise one step forward with wrap-around.
pub open spec fn sel_next(cur: Option<int>, n: int) -> Option<int> {
    if n <= 0 {
        None
    } else {
        match cur {
            None => Some(0int),
            Some(i) => Some((i + 1) % n),
        }
    }
}

/// Cyclic predecessor: `None` on an empty list, the tail when nothing is
/// selected, otherwise one step backward with wrap-around.
pub open spec fn sel_previous(cur: Option<int>, n: int) -> Option<int> {
    if n <= 0 {
        None
    } else {
        match cur {
            None => Some(n - 1),
            Some(i) => Some((i + n - 1) % n),
        }
    }
}

/// The first index, or `None` on an empty list.
pub open spec fn sel_first(n: int) -> Option<int> {
    if n <= 0 {
        None
    } else {
        Some(0int)
    }
}

/// The last index, or `None` on an empty list.
pub open spec fn sel_last(n: int) -> Option<int> {
    if n <= 0 {
        None
    } else {
        Some(n - 1)
    }
}

/// The middle index `ceil((n-1)/2)`, which equals `n / 2`, or `None` on an
/// empty list.
pub open spec fn sel_middle(n: int) -> Option<int> {
    if n <= 0 {
        None
    } else {
        Some(n / 2)
    }
}

/// Clamp a possibly stale selection into `[0, n-1]`, or `None` on an empty
/// list. An absent selection stays absent.
pub open spec fn sel_clamp(cur: Option<int>, n: int) -> Option<int> {
    if n <= 0 {
        None
    } else {
        match cur {
            None => None,
            Some(i) => Some(if i < n { i } else { n - 1 }),
        }
    }
}

pub fn select_next(current: Option<usize>, len: usize) -> (r: Option<usize>)
    ensures
        index_view(r) == sel_next(index_view(current), len as int),
{
    if len == 0 {
        None
    } else {
        match current {
            None => Some(0),
            Some(i) => {
                let j: usize = i % len;
                proof {
                    lemma_add_mod_noop(i as int, 1int, len as int);
                    if len > 1 {
                        lemma_small_mod(1nat, len as nat);
                    } else {
                        lemma_small_mod(0nat, 1nat);
                    }
                    if j + 1 < len {
                        lemma_small_mod((j + 1) as nat, len as nat);
                    } else {
                        lemma_mod_add_multiples_vanish(0int, len as int);
                    }
                }
                if j == len - 1 {
                    Some(0)
                } else {
                    Some(j + 1)
                }
            },
        }
    }
}

pub fn select_previous(current: Option<usize>, len: usize) -> (r: Option<usize>)
    ensures
        index_view(r) == sel_previous(index_view(current), len as int),
{
    if len == 0 {
        None
    } else {
        match current {
            None => Some(len - 1),
            Some(i) => {
                let j: usize = i % len;
                proof {
                    lemma_add_mod_noop(i as int, len - 1, len as int);
                    lemma_small_mod((len - 1) as nat, len as nat);
                    if j == 0 {
                        lemma_small_mod((len - 1) as nat, len as nat);
                    } else {
                        lemma_mod_add_multiples_vanish(j - 1, len as int);
                        lemma_small_mod((j - 1) as nat, len as nat);
                    }
                }
                if j == 0 {
                    Some(len - 1)
                } else {
                    Some(j - 1)
                }
            },
        }
    }
}

pub fn select_first(len: usize) -> (r: Option<usize>)
    ensures
        index_view(r) == sel_first(len as int),
{
    if len == 0 {
        None
    } else {
        Some(0)
    }
}

pub fn select_last(len: usize) -> (r: Option<usize>)
    ensures
        index_view(r) == sel_last(len as int),
{
    if len == 0 {
        None
    } else {
        Some(len - 1)
    }
}

pub fn select_middle(len: usize) -> (r: Option<usize>)
    ensures
        index_view(r) == sel_middle(len as int),
{
    if len == 0 {
        None
    } else {
        Some(len / 2)
    }
}

pub fn select_clamp(current: Option<usize>, len: usize) -> (r: Option<usize>)
    ensures
        index_view(r) == sel_clamp(index_view(current), len as int),
{
    if len == 0 {
        None
    } else {
        match current {
            None => None,
            Some(i) => {
                if i < len {
                    Some(i)
                } else {
                    Some(len - 1)
                }
            },
        }
    }
}

/// Every navigation operation lands inside `[0, n-1]`, and returns `None`
/// exactly when the list is empty.
pub proof fn lemma_navigation_in_range(cur: Option<int>, n: int)
    requires
        n >= 0,
        cur matches Some(i) ==> 0 <= i < n,
    ensures
        sel_next(cur, n) is None <==> n == 0,
        sel_previous(cur, n) is None <==> n == 0,
        sel_first(n) is None <==> n == 0,
        sel_last(n) is None <==> n == 0,
        sel_middle(n) is None <==> n == 0,
        sel_next(cur, n) matches Some(i) ==> 0 <= i < n,
        sel_previous(cur, n) matches Some(i) ==> 0 <= i < n,
        sel_first(n) matches Some(i) ==> 0 <= i < n,
        sel_last(n) matches Some(i) ==> 0 <= i < n,
        sel_middle(n) matches Some(i) ==> 0 <= i < n,
{
}

/// Clamping also lands inside `[0, n-1]` (or stays absent), for any
/// incoming index, stale or not.
pub proof fn lemma_clamp_in_range(cur: Option<int>, n: int)
    requires
        n >= 0,
        cur matches Some(i) ==> 0 <= i,
    ensures
        n == 0 ==> sel_clamp(cur, n) is None,
        sel_clamp(cur, n) matches Some(i) ==> 0 <= i < n,
{
}

/// `cur` advanced `k` times.
pub open spec fn iterate_next(cur: Option<int>, n: int, k: nat) -> Option<int>
    decreases k,
{
    if k == 0 {
        cur
    } else {
        sel_next(iterate_next(cur, n, (k - 1) as nat), n)
    }
}

proof fn lemma_iterate_next_formula(i: int, n: int, k: nat)
    requires
        0 <= i < n,
    ensures
        iterate_next(Some(i), n, k) == Some((i + k) % n),
    decreases k,
{
    if k == 0 {
        lemma_small_mod(i as nat, n as nat);
    } else {
        lemma_iterate_next_formula(i, n, (k - 1) as nat);
        lemma_add_mod_noop(i + k - 1, 1int, n);
        if n > 1 {
            lemma_small_mod(1nat, n as nat);
        } else {
            lemma_small_mod(0nat, 1nat);
        }
        let m: int = (i + k - 1) % n;
        if m + 1 < n {
            lemma_small_mod((m + 1) as nat, n as nat);
        } else {
            lemma_mod_add_multiples_vanish(0int, n);
        }
    }
}

/// Navigation is cyclic: advancing exactly `n` times returns to the
/// starting index. On an empty list there is nothing to advance and the
/// (absent) selection trivially stays put.
pub proof fn lemma_next_cyclic(cur: Option<int>, n: int)
    requires
        n >= 0,
        n == 0 || (cur matches Some(i) && 0 <= i < n),
    ensures
        iterate_next(cur, n, n as nat) == cur,
{
    if n > 0 {
        let i = cur->Some_0;
        lemma_iterate_next_formula(i, n, n as nat);
        lemma_mod_add_multiples_vanish(i, n);
        lemma_small_mod(i as nat, n as nat);
    }
}

} // verus!

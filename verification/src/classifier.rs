use vstd::prelude::*;

use crate::complex::{c_div, c_dup, c_eq, c_is_nan, c_sub, c_zero, dist_lt};
use crate::polynomial::Polynom;

verus! {

/// The view of a comparison table: row `i`, column `j` says whether the
/// point is strictly closer to root `i` than to root `j`.
pub open spec fn table_view(m: Seq<Vec<bool>>) -> Seq<Seq<bool>> {
    m.map_values(|row: Vec<bool>| row@)
}

/// The index that a left-to-right minimum scan over the first `k` roots
/// settles on: it starts at root `0` and moves to root `i` only when the
/// table says root `i` is strictly closer than the best root seen so far.
pub open spec fn scan_best(m: Seq<Seq<bool>>, k: int) -> int
    decreases k,
{
    if k <= 1 {
        0
    } else {
        let prev = scan_best(m, k - 1);
        if m[k - 1][prev] {
            k - 1
        } else {
            prev
        }
    }
}

/// The scan never leaves the range of the roots it has looked at.
pub proof fn lemma_scan_best_in_range(m: Seq<Seq<bool>>, k: int)
    requires
        k >= 1,
    ensures
        0 <= scan_best(m, k) < k,
    decreases k,
{
    if k > 1 {
        lemma_scan_best_in_range(m, k - 1);
    }
}

/// Tie-break determinism: when no root is ever strictly closer than the
/// current best one — in particular when all roots are equidistant from the
/// point, so that every strict comparison is false — the scan keeps the
/// first root, index `0`.
pub proof fn lemma_no_closer_keeps_first(m: Seq<Seq<bool>>, k: int)
    requires
        k >= 1,
        forall|i: int, j: int| 0 <= i < k && 0 <= j < k ==> !m[i][j],
    ensures
        scan_best(m, k) == 0,
    decreases k,
{
    if k > 1 {
        lemma_no_closer_keeps_first(m, k - 1);
    }
}

/// The index of the first `true` entry, if any: the root that an
/// exact-equality scan settles on.
pub fn match_index(eqs: &Vec<bool>) -> (r: Option<usize>)
    ensures
        match r {
            Some(i) => i < eqs@.len() && eqs@[i as int] && forall|j: int| 0 <= j < i ==> !eqs@[j],
            None => forall|j: int| 0 <= j < eqs@.len() ==> !eqs@[j],
        },
{
    for i in 0..eqs.len()
        invariant
            forall|j: int| 0 <= j < i ==> !eqs@[j],
    {
        if eqs[i] {
            return Some(i);
        }
    }
    None
}

/// Runs the minimum scan over a full comparison table: returns exactly the
/// index that `scan_best` names, always a valid row of the table.
pub fn nearest_index(m: &Vec<Vec<bool>>) -> (r: usize)
    requires
        m@.len() >= 1,
        forall|i: int| 0 <= i < m@.len() ==> #[trigger] m@[i]@.len() == m@.len(),
    ensures
        r < m@.len(),
        r == scan_best(table_view(m@), m@.len() as int),
{
    let n = m.len();
    let mut best: usize = 0;
    for i in 1..n
        invariant
            n == m@.len(),
            forall|t: int| 0 <= t < n ==> #[trigger] m@[t]@.len() == n,
            best < i,
            best == scan_best(table_view(m@), i as int),
    {
        if m[i][best] {
            best = i;
        }
        assert(table_view(m@)[i as int] == m@[i as int]@);
    }
    best
}

/// Decides which root a sample point belongs to under Newton's method.
///
/// Up to `max_steps` times: evaluate the polynomial and its derivative at
/// the running point; stop early on a stalled iteration (a derivative equal
/// to exact complex zero, or a NaN point); otherwise take the Newton step,
/// and return immediately the index of the first root that the new point
/// equals exactly, bit for bit. If no step matched exactly, fall back to the
/// root nearest by Euclidean distance to the final point, earliest root
/// winning ties. The result is always a valid index into the root list.
#[verifier::loop_isolation(false)]
pub fn classify(
    pol: &Polynom,
    der: &Polynom,
    roots: &Vec<num::complex::Complex32>,
    start: &num::complex::Complex32,
    max_steps: u32,
) -> (r: usize)
    requires
        roots@.len() >= 1,
        pol.cs@.len() <= u32::MAX,
        der.cs@.len() <= u32::MAX,
    ensures
        r < roots@.len(),
{
    let mut c = c_dup(start);
    let mut step: u32 = 0;
    while step < max_steps
        decreases max_steps - step,
    {
        let yp = pol.at(&c);
        let yd = der.at(&c);
        if c_eq(&yd, &c_zero()) || c_is_nan(&c) {
            break;
        }
        c = c_sub(&c, &c_div(&yp, &yd));
        let mut eqs: Vec<bool> = Vec::new();
        for i in 0..roots.len()
            invariant
                eqs@.len() == i,
        {
            eqs.push(c_eq(&roots[i], &c));
        }
        if let Some(i) = match_index(&eqs) {
            return i;
        }
        step = step + 1;
    }
    let n = roots.len();
    let mut m: Vec<Vec<bool>> = Vec::new();
    for i in 0..n
        invariant
            m@.len() == i,
            forall|t: int| 0 <= t < i ==> #[trigger] m@[t]@.len() == n,
    {
        let mut row: Vec<bool> = Vec::new();
        for j in 0..n
            invariant
                row@.len() == j,
        {
            row.push(dist_lt(&c, &roots[i], &roots[j]));
        }
        m.push(row);
    }
    nearest_index(&m)
}

} // verus!

use vstd::prelude::*;

use crate::complex::{c_add, c_from_u32, c_mul, c_neg, c_one, c_powu, c_zero};

verus! {

/// A polynomial over complex coefficients, indexed by ascending power:
/// `cs[k]` multiplies the `k`-th power of the variable. A well-formed
/// polynomial has at least one coefficient; its degree is `cs.len() - 1`.
pub struct Polynom {
    pub cs: Vec<num::complex::Complex32>,
}

impl Polynom {
    /// A polynomial must carry at least a constant coefficient.
    pub open spec fn wf(&self) -> bool {
        self.cs.len() >= 1
    }

    /// The convolution product of two polynomials: the result has
    /// degree `deg(a) + deg(b)`, and its coefficient at power `k`
    /// accumulates `a[i] * b[k - i]` in ascending order of `i`.
    pub fn multiply(a: &Polynom, b: &Polynom) -> (r: Polynom)
        requires
            a.wf(),
            b.wf(),
            a.cs@.len() + b.cs@.len() - 1 <= usize::MAX,
        ensures
            r.cs@.len() == a.cs@.len() + b.cs@.len() - 1,
            r.wf(),
    {
        let n = a.cs.len();
        let m = b.cs.len();
        let len = n - 1 + m - 1 + 1;
        let mut cs: Vec<num::complex::Complex32> = Vec::new();
        for k in 0..len
            invariant
                cs@.len() == k,
                n == a.cs@.len(),
                m == b.cs@.len(),
                len == n + m - 1,
                n >= 1,
                m >= 1,
        {
            let mut acc = c_zero();
            let lo = if k + 1 > m { k + 1 - m } else { 0 };
            let hi = if k + 1 < n { k + 1 } else { n };
            for i in lo..hi
                invariant
                    n == a.cs@.len(),
                    m == b.cs@.len(),
                    lo <= hi <= n,
                    k < len == n + m - 1,
                    lo >= k + 1 - m,
                    hi <= k + 1,
            {
                acc = c_add(&acc, &c_mul(&a.cs[i], &b.cs[k - i]));
            }
            cs.push(acc);
        }
        Polynom { cs }
    }

    /// Builds the monic polynomial whose roots are exactly the given list:
    /// the product of the linear factors `(x - root)`, starting from the
    /// constant polynomial `1`. The degree equals the number of roots.
    pub fn from_roots(roots: &Vec<num::complex::Complex32>) -> (r: Polynom)
        requires
            roots@.len() + 2 <= usize::MAX,
        ensures
            r.cs@.len() == roots@.len() + 1,
            r.wf(),
    {
        let mut pol = Polynom { cs: vec![c_one()] };
        for idx in 0..roots.len()
            invariant
                pol.cs@.len() == idx + 1,
                roots@.len() + 2 <= usize::MAX,
        {
            let factor = Polynom { cs: vec![c_neg(&roots[idx]), c_one()] };
            pol = Polynom::multiply(&pol, &factor);
        }
        pol
    }

    /// The formal derivative: one degree lower, with the coefficient at
    /// power `i` equal to `(i + 1)` times the coefficient at power `i + 1`.
    /// A constant polynomial has no derivative here; callers keep it out.
    pub fn derivative(&self) -> (r: Polynom)
        requires
            self.cs@.len() >= 2,
            self.cs@.len() <= u32::MAX,
        ensures
            r.cs@.len() == self.cs@.len() - 1,
            r.wf(),
    {
        let mut cs: Vec<num::complex::Complex32> = Vec::new();
        let end = self.cs.len() - 1;
        for i in 0..end
            invariant
                cs@.len() == i,
                end == self.cs@.len() - 1,
                self.cs@.len() <= u32::MAX,
        {
            cs.push(c_mul(&c_from_u32((i as u32) + 1), &self.cs[i + 1]));
        }
        Polynom { cs }
    }

    /// Evaluates the polynomial at a point as the sum, in ascending power
    /// order, of each coefficient times the matching integer power of the
    /// point. The value is a complex number and stays opaque here.
    pub fn at(&self, coord: &num::complex::Complex32) -> num::complex::Complex32
        requires
            self.cs@.len() <= u32::MAX,
    {
        let mut res = c_zero();
        for i in 0..self.cs.len()
            invariant
                self.cs@.len() <= u32::MAX,
        {
            res = c_add(&res, &c_mul(&self.cs[i], &c_powu(coord, i as u32)));
        }
        res
    }
}

} // verus!

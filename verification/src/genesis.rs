//! The genesis package table.
//!
//! The framework packages and their compiled modules are fixed at network
//! birth. Rather than a lazily initialized process-wide cache, the table is
//! an explicitly constructed immutable value, passed by reference to
//! whoever needs it at startup; the entries are opaque handles to the
//! objects and modules the surrounding process loaded.

use vstd::prelude::*;

verus! {

/// The objects wrapping the genesis packages, and their compiled modules,
/// one module list per package.
pub struct Genesis {
    pub objects: Vec<u64>,
    pub modules: Vec<Vec<u64>>,
}

impl Genesis {
    pub fn new(objects: Vec<u64>, modules: Vec<Vec<u64>>) -> (g: Genesis)
        ensures
            g.objects@ == objects@,
            g.modules@ == modules@,
    {
        Genesis { objects, modules }
    }

    /// A copy of the genesis package objects.
    pub fn clone_genesis_packages(&self) -> (r: Vec<u64>)
        ensures
            r@ == self.objects@,
    {
        let n = self.objects.len();
        let mut out: Vec<u64> = Vec::new();
        let mut i: usize = 0;
        while i < n
            invariant
                i <= n,
                n == self.objects@.len(),
                out@ == self.objects@.subrange(0, i as int),
            decreases n - i,
        {
            out.push(self.objects[i]);
            i = i + 1;
        }
        out
    }

    /// A copy of the compiled modules of every genesis package.
    pub fn clone_genesis_compiled_modules(&self) -> (r: Vec<Vec<u64>>)
        ensures
            r@.len() == self.modules@.len(),
            forall|i: int| 0 <= i < r@.len() ==> #[trigger] r@[i]@ == self.modules@[i]@,
    {
        let n = self.modules.len();
        let mut out: Vec<Vec<u64>> = Vec::new();
        let mut i: usize = 0;
        while i < n
            invariant
                i <= n,
                n == self.modules@.len(),
                out@.len() == i,
                forall|j: int| 0 <= j < i ==> #[trigger] out@[j]@ == self.modules@[j]@,
            decreases n - i,
        {
            let inner = &self.modules[i];
            let m = inner.len();
            let mut copy: Vec<u64> = Vec::new();
            let mut k: usize = 0;
            while k < m
                invariant
                    k <= m,
                    m == inner@.len(),
                    copy@ == inner@.subrange(0, k as int),
                decreases m - k,
            {
                copy.push(inner[k]);
                k = k + 1;
            }
            out.push(copy);
            i = i + 1;
        }
        out
    }
}

} // verus!

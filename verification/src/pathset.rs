//! A caller-supplied model of the filesystem.
//!
//! Toolchain resolution decides between candidate directories by whether
//! they exist on disk. The resolver itself performs no I/O: the caller
//! probes the filesystem and records every path found to exist in a
//! [`PathSet`], which the resolver then consults. The view of a `PathSet`
//! is the mathematical set of recorded paths.

use vstd::prelude::*;

verus! {

/// A finite set of paths known to exist, recorded as plain strings.
pub struct PathSet {
    entries: Vec<String>,
}

impl View for PathSet {
    type V = Set<Seq<char>>;

    closed spec fn view(&self) -> Set<Seq<char>> {
        Set::new(
            |x: Seq<char>|
                exists|i: int| 0 <= i < self.entries@.len() && self.entries@[i]@ == x,
        )
    }
}

impl PathSet {
    /// The empty model: no path is known to exist.
    pub fn new() -> (r: PathSet)
        ensures
            r@ == Set::<Seq<char>>::empty(),
    {
        let r = PathSet { entries: Vec::new() };
        proof {
            assert(r@ =~= Set::<Seq<char>>::empty());
        }
        r
    }

    /// Records that `p` exists.
    pub fn insert(&mut self, p: String)
        ensures
            final(self)@ == old(self)@.insert(p@),
    {
        let ghost old_entries = self.entries@;
        self.entries.push(p);
        proof {
            assert forall|x: Seq<char>| #[trigger] old(self)@.insert(p@).contains(x)
                implies self@.contains(x) by {
                if old(self)@.contains(x) {
                    let i = choose|i: int| 0 <= i < old_entries.len() && old_entries[i]@ == x;
                    assert(self.entries@[i]@ == x);
                } else {
                    assert(self.entries@[old_entries.len() as int]@ == x);
                }
            }
            assert(self@ =~= old(self)@.insert(p@));
        }
    }

    /// Whether `p` is recorded as existing.
    pub fn contains(&self, p: &String) -> (r: bool)
        ensures
            r == self@.contains(p@),
    {
        let n = self.entries.len();
        let mut i: usize = 0;
        while i < n
            invariant
                i <= n,
                n == self.entries@.len(),
                forall|k: int| 0 <= k < i ==> self.entries@[k]@ != p@,
            decreases n - i,
        {
            if self.entries[i].eq(p) {
                return true;
            }
            i += 1;
        }
        false
    }
}

} // verus!

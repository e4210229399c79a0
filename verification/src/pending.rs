//! The startup hand-off store.
//!
//! File paths discovered before the UI layer is ready to receive them are
//! held in a process-wide ordered store, append-only until drained. Draining
//! returns all pending paths at once and empties the store, so each path is
//! delivered at most once and never replayed. The process wires the store
//! behind a mutual-exclusion lock; the store itself is plain sequential data.

use vstd::prelude::*;

verus! {

/// Store pending file paths for when the app is launched via file association.
pub struct PendingFiles {
    paths: Vec<String>,
}

impl View for PendingFiles {
    type V = Seq<Seq<char>>;

    closed spec fn view(&self) -> Seq<Seq<char>> {
        self.paths.deep_view()
    }
}

impl PendingFiles {
    /// A store with nothing pending.
    pub fn new() -> (r: PendingFiles)
        ensures
            r@ == Seq::<Seq<char>>::empty(),
    {
        let r = PendingFiles { paths: Vec::new() };
        proof {
            assert(r@ =~= Seq::<Seq<char>>::empty());
        }
        r
    }

    /// How many paths are pending.
    pub fn len(&self) -> (n: usize)
        ensures
            n == self@.len(),
    {
        self.paths.len()
    }

    /// Appends one path at the end of the store; every path already pending
    /// stays, in its place.
    pub fn append(&mut self, path: String)
        ensures
            final(self)@ == old(self)@.push(path@),
    {
        let ghost before = self.paths.deep_view();
        let ghost p = path@;
        self.paths.push(path);
        proof {
            assert(self.paths.deep_view() =~= before.push(p));
        }
    }

    /// Atomically takes all pending paths, in the order they were appended,
    /// and leaves the store empty: a second immediate drain returns nothing.
    pub fn drain(&mut self) -> (r: Vec<String>)
        ensures
            r.deep_view() == old(self)@,
            final(self)@ == Seq::<Seq<char>>::empty(),
    {
        let mut taken: Vec<String> = Vec::new();
        core::mem::swap(&mut taken, &mut self.paths);
        proof {
            assert(self@ =~= Seq::<Seq<char>>::empty());
        }
        taken
    }
}

/// The contents of a store that received `paths` one by one, oldest first,
/// on top of the contents `init` it already held.
pub open spec fn after_appends(init: Seq<Seq<char>>, paths: Seq<Seq<char>>) -> Seq<Seq<char>>
    decreases paths.len(),
{
    if paths.len() == 0 {
        init
    } else {
        after_appends(init, paths.drop_last()).push(paths.last())
    }
}

/// Law: appending is lossless and order-preserving. A store that receives
/// any sequence of paths one by one holds what it held before, followed by
/// exactly those paths in append order — so a store that starts empty and is
/// then drained returns the appended paths, in order, and nothing else.
pub proof fn lemma_appends_lossless(init: Seq<Seq<char>>, paths: Seq<Seq<char>>)
    ensures
        after_appends(init, paths) == init + paths,
    decreases paths.len(),
{
    if paths.len() == 0 {
        assert(after_appends(init, paths) =~= init + paths);
    } else {
        lemma_appends_lossless(init, paths.drop_last());
        assert((init + paths.drop_last()).push(paths.last()) =~= init + paths);
    }
}

} // verus!

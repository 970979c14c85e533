use vstd::prelude::*;

use crate::item_pointer::{tid_key, ItemPointer};
use crate::sorted_keys::{contains_key, has_key, insert_key, strictly_sorted};

verus! {

/// A bitmap of tuple identifiers, as the bitmap index scans of other indexes
/// produce it.
///
/// It holds single tuples exactly, and whole pages (a page of which only the
/// block is known, as a lossy bitmap keeps it). A tuple is a member when it
/// was added itself or when its page was.
pub struct TidBitmap {
    /// Keys (see `tid_key`) of the tuples added one by one, ascending.
    tuples: Vec<u64>,
    /// Block numbers of the pages added whole, ascending.
    pages: Vec<u64>,
}

impl TidBitmap {
    #[verifier::type_invariant]
    spec fn keys_sorted(self) -> bool {
        &&& strictly_sorted(self.tuples@)
        &&& strictly_sorted(self.pages@)
    }

    /// The tuple identifiers that are members of the bitmap.
    pub closed spec fn members(self) -> Set<ItemPointer> {
        Set::new(
            |t: ItemPointer|
                has_key(self.tuples@, tid_key(t)) || has_key(self.pages@, t.block_number as int),
        )
    }

    /// An empty bitmap.
    pub fn new() -> (tbm: TidBitmap)
        ensures
            tbm.members() == Set::<ItemPointer>::empty(),
    {
        TidBitmap { tuples: Vec::new(), pages: Vec::new() }
    }

    /// Adds the given tuples to the bitmap; what was a member stays one.
    pub fn add_tuples(&mut self, tids: &[ItemPointer])
        ensures
            final(self).members() == old(self).members().union(tids@.to_set()),
            old(self).members().subset_of(final(self).members()),
    {
        let ghost before = self.members();
        let mut i: usize = 0;
        while i < tids.len()
            invariant
                i <= tids.len(),
                forall|t: ItemPointer|
                    #[trigger] self.members().contains(t) <==> (before.contains(t) || exists|j: int|
                        0 <= j < i && tids@[j] == t),
            decreases tids.len() - i,
        {
            let tid = tids[i];
            let k = tid.key();
            proof {
                use_type_invariant(&*self);
            }
            let ghost mid = self.members();
            let ghost old_tuples = self.tuples@;
            let mut tuples: Vec<u64> = Vec::new();
            std::mem::swap(&mut tuples, &mut self.tuples);
            insert_key(&mut tuples, k);
            self.tuples = tuples;
            proof {
                assert forall|t: ItemPointer|
                    #[trigger] self.members().contains(t) <==> (mid.contains(t) || tid_key(t) == k) by {
                    assert(has_key(self.tuples@, tid_key(t)) <==> (has_key(old_tuples, tid_key(t))
                        || tid_key(t) == k));
                }
                assert forall|t: ItemPointer|
                    #[trigger] self.members().contains(t) <==> (before.contains(t) || exists|j: int|
                        0 <= j < i + 1 && tids@[j] == t) by {
                    if t == tid {
                        assert(tids@[i as int] == t);
                    }
                    if tid_key(t) == k {
                        crate::item_pointer::lemma_tid_key_injective(t, tid);
                    }
                    if exists|j: int| 0 <= j < i + 1 && tids@[j] == t {
                        let j = choose|j: int| 0 <= j < i + 1 && tids@[j] == t;
                        if j < i {
                            assert(exists|j: int| 0 <= j < i && tids@[j] == t);
                        }
                    }
                }
            }
            i = i + 1;
        }
        proof {
            assert forall|t: ItemPointer|
                #[trigger] self.members().contains(t) <==> before.union(tids@.to_set()).contains(t) by {
                if tids@.contains(t) {
                    let j = choose|j: int| 0 <= j < tids@.len() && tids@[j] == t;
                    assert(exists|j: int| 0 <= j < i && tids@[j] == t);
                }
            }
            assert(self.members() =~= before.union(tids@.to_set()));
        }
    }

    /// Adds a whole page: every tuple of block `page` becomes a member, and
    /// what was a member stays one.
    pub fn add_page(&mut self, page: u32)
        ensures
            final(self).members() == old(self).members().union(
                Set::new(|t: ItemPointer| t.block_number == page),
            ),
            old(self).members().subset_of(final(self).members()),
    {
        proof {
            use_type_invariant(&*self);
        }
        let ghost before = self.members();
        let mut pages: Vec<u64> = Vec::new();
        std::mem::swap(&mut pages, &mut self.pages);
        insert_key(&mut pages, page as u64);
        self.pages = pages;
        assert(self.members() =~= before.union(Set::new(|t: ItemPointer| t.block_number == page)));
    }

    /// Whether the tuple `tid` is a member of the bitmap.
    pub fn is_member(&self, tid: &ItemPointer) -> (member: bool)
        ensures
            member == self.members().contains(*tid),
    {
        proof {
            use_type_invariant(self);
        }
        if contains_key(&self.pages, tid.block_number as u64) {
            true
        } else {
            contains_key(&self.tuples, tid.key())
        }
    }
}

} // verus!

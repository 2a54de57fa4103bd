use vstd::prelude::*;

use crate::entry::{appended, ids_of, lemma_ids_of_push, lemma_push_fresh, EntryKind, ResultEntry};

verus! {

/// The ordered results of one search, with the set of ids already listed.
/// Entries are only ever appended; order of insertion is relevance order.
pub struct ResultList {
    entries: Vec<ResultEntry>,
    found: Vec<i64>,
}

impl View for ResultList {
    type V = Seq<ResultEntry>;

    closed spec fn view(&self) -> Seq<ResultEntry> {
        self.entries@
    }
}

impl ResultList {
    /// The found ids are exactly the ids of the entries, each listed once.
    pub closed spec fn wf(&self) -> bool {
        &&& self.found@ == ids_of(self.entries@)
        &&& ids_of(self.entries@).no_duplicates()
    }

    pub fn new() -> (r: ResultList)
        ensures
            r.wf(),
            r@ == Seq::<ResultEntry>::empty(),
    {
        let r = ResultList { entries: Vec::new(), found: Vec::new() };
        assert(ids_of(r.entries@) =~= Seq::<i64>::empty());
        r
    }

    pub fn size(&self) -> (r: usize)
        ensures
            r == self@.len(),
    {
        self.entries.len()
    }

    /// Empties the list, for a new search.
    pub fn clear(&mut self)
        ensures
            final(self).wf(),
            final(self)@ == Seq::<ResultEntry>::empty(),
    {
        self.entries.clear();
        self.found.clear();
        assert(ids_of(self.entries@) =~= Seq::<i64>::empty());
    }

    /// The entry at `position`, if there is one.
    pub fn get(&self, position: usize) -> (r: Option<ResultEntry>)
        ensures
            r == if position < self@.len() {
                Some(self@[position as int])
            } else {
                None::<ResultEntry>
            },
    {
        if position < self.entries.len() {
            Some(self.entries[position])
        } else {
            None
        }
    }

    /// Whether an entry with this id is listed.
    pub fn contains_id(&self, id: i64) -> (r: bool)
        requires
            self.wf(),
        ensures
            r == ids_of(self@).contains(id),
    {
        let mut i: usize = 0;
        while i < self.found.len()
            invariant
                self.wf(),
                i <= self.found@.len(),
                forall|j: int| 0 <= j < i ==> self.found@[j] != id,
            decreases self.found@.len() - i,
        {
            if self.found[i] == id {
                assert(ids_of(self@)[i as int] == id);
                return true;
            }
            i += 1;
        }
        false
    }

    /// Appends one entry of `kind` for each id of `ids` that is not listed
    /// yet, in order. Returns the new size when the list changed: that is the
    /// change notification.
    pub fn append(&mut self, ids: &Vec<i64>, kind: EntryKind) -> (changed: Option<usize>)
        requires
            old(self).wf(),
        ensures
            final(self).wf(),
            final(self)@ == appended(old(self)@, ids@, kind),
            changed == if final(self)@.len() == old(self)@.len() {
                None::<usize>
            } else {
                Some(final(self)@.len() as usize)
            },
    {
        let ghost start = self.entries@;
        let before: usize = self.entries.len();
        let mut i: usize = 0;
        while i < ids.len()
            invariant
                self.wf(),
                i <= ids@.len(),
                self@ == appended(start, ids@.take(i as int), kind),
                self@.len() >= start.len(),
            decreases ids@.len() - i,
        {
            let id = ids[i];
            assert(ids@.take(i + 1).drop_last() =~= ids@.take(i as int));
            if !self.contains_id(id) {
                let e = kind.entry(id);
                proof {
                    lemma_ids_of_push(self.entries@, e);
                    lemma_push_fresh(ids_of(self.entries@), id);
                }
                self.entries.push(e);
                self.found.push(id);
            }
            i += 1;
        }
        assert(ids@.take(ids@.len() as int) =~= ids@);
        if self.entries.len() == before {
            None
        } else {
            Some(self.entries.len())
        }
    }
}

} // verus!

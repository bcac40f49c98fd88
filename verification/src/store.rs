//! The workspace settings store: transactional get / put / delete / list of
//! records keyed by an opaque workspace identifier. Writers on one key
//! serialize; each operation here is one such atomic step on the owned
//! state, so read-modify-write sequences built on it see no partial update.

use vstd::prelude::*;
use crate::model::{ChatCompletionSettings, SettingsView};

verus! {

/// The number of identifiers a page starting at `offset` with room for
/// `limit` holds, out of `total` stored ones.
pub open spec fn spec_page_len(total: int, offset: int, limit: int) -> int {
    if offset >= total {
        0
    } else if offset + limit <= total {
        limit
    } else {
        total - offset
    }
}

/// The store: every workspace identifier maps to at most one record.
pub struct ChatSettingsDb {
    entries: Vec<(String, ChatCompletionSettings)>,
}

impl ChatSettingsDb {
    /// The stored workspace identifiers, oldest first.
    pub closed spec fn key_seq(&self) -> Seq<Seq<char>> {
        Seq::new(self.entries@.len(), |i: int| self.entries@[i].0@)
    }

    /// Identifiers are pairwise distinct: uniqueness is the store's duty.
    pub closed spec fn wf(&self) -> bool {
        forall|i: int, j: int|
            0 <= i < j < self.entries@.len()
                ==> (#[trigger] self.entries@[i].0@) != (#[trigger] self.entries@[j].0@)
    }

    /// The stored contents, as a map from identifier to record view.
    pub closed spec fn contents(&self) -> Map<Seq<char>, SettingsView> {
        Map::new(
            |k: Seq<char>| self.key_seq().contains(k),
            |k: Seq<char>| self.entries@[choose|i: int|
                0 <= i < self.entries@.len() && (#[trigger] self.entries@[i].0@) == k].1@,
        )
    }

    proof fn lemma_contents_at(&self, i: int)
        requires
            self.wf(),
            0 <= i < self.entries@.len(),
        ensures
            self.contents().contains_key(self.entries@[i].0@),
            self.contents()[self.entries@[i].0@] == self.entries@[i].1@,
    {
        let k = self.entries@[i].0@;
        assert(self.key_seq()[i] == k);
        assert(self.key_seq().contains(k));
        let j = choose|x: int| 0 <= x < self.entries@.len() && (#[trigger] self.entries@[x].0@) == k;
        assert(j == i);
    }

    proof fn lemma_absent(&self, k: Seq<char>)
        requires
            forall|i: int| 0 <= i < self.entries@.len() ==> (#[trigger] self.entries@[i].0@) != k,
        ensures
            !self.contents().contains_key(k),
    {
        if self.key_seq().contains(k) {
            let i = choose|i: int| 0 <= i < self.key_seq().len() && self.key_seq()[i] == k;
            assert(self.entries@[i].0@ == k);
        }
    }

    /// A fresh store holds nothing.
    pub fn new() -> (r: Self)
        ensures
            r.wf(),
            r.contents() == Map::<Seq<char>, SettingsView>::empty(),
            r.key_seq() == Seq::<Seq<char>>::empty(),
    {
        let r = ChatSettingsDb { entries: Vec::new() };
        proof {
            assert(r.key_seq() =~= Seq::<Seq<char>>::empty());
            assert(r.contents() =~= Map::<Seq<char>, SettingsView>::empty());
        }
        r
    }

    fn index_of(&self, workspace_uid: &String) -> (r: Option<usize>)
        ensures
            match r {
                Some(i) => i < self.entries@.len() && self.entries@[i as int].0@ == workspace_uid@,
                None => forall|i: int|
                    0 <= i < self.entries@.len() ==> (#[trigger] self.entries@[i].0@) != workspace_uid@,
            },
    {
        let mut i: usize = 0;
        while i < self.entries.len()
            invariant
                i <= self.entries@.len(),
                forall|j: int| 0 <= j < i ==> (#[trigger] self.entries@[j].0@) != workspace_uid@,
            decreases self.entries@.len() - i,
        {
            if self.entries[i].0 == *workspace_uid {
                return Some(i);
            }
            i += 1;
        }
        None
    }

    /// Look a record up. `None` when the identifier has none.
    pub fn chat_settings(&self, workspace_uid: &String) -> (r: Option<&ChatCompletionSettings>)
        requires
            self.wf(),
        ensures
            match r {
                Some(settings) => self.contents().contains_key(workspace_uid@)
                    && settings@ == self.contents()[workspace_uid@],
                None => !self.contents().contains_key(workspace_uid@),
            },
    {
        match self.index_of(workspace_uid) {
            Some(i) => {
                proof {
                    self.lemma_contents_at(i as int);
                }
                Some(&self.entries[i].1)
            },
            None => {
                proof {
                    self.lemma_absent(workspace_uid@);
                }
                None
            },
        }
    }

    /// Store a record under an identifier, replacing any previous one.
    /// A replaced identifier keeps its place in the listing order; a new
    /// one goes last.
    pub fn put_chat_settings(&mut self, workspace_uid: &String, settings: &ChatCompletionSettings)
        requires
            old(self).wf(),
        ensures
            final(self).wf(),
            final(self).contents() == old(self).contents().insert(workspace_uid@, settings@),
            final(self).key_seq() == if old(self).contents().contains_key(workspace_uid@) {
                old(self).key_seq()
            } else {
                old(self).key_seq().push(workspace_uid@)
            },
    {
        let entry = (workspace_uid.clone(), settings.clone());
        match self.index_of(workspace_uid) {
            Some(i) => {
                proof {
                    old(self).lemma_contents_at(i as int);
                }
                self.entries[i] = entry;
                proof {
                    self.lemma_put_replace(*old(self), i as int, settings@);
                }
            },
            None => {
                proof {
                    old(self).lemma_absent(workspace_uid@);
                }
                self.entries.push(entry);
                proof {
                    self.lemma_put_append(*old(self), workspace_uid@, settings@);
                }
            },
        }
    }

    proof fn lemma_put_replace(&self, prev: Self, i: int, v: SettingsView)
        requires
            prev.wf(),
            0 <= i < prev.entries@.len(),
            self.entries@.len() == prev.entries@.len(),
            self.entries@[i].0@ == prev.entries@[i].0@,
            self.entries@[i].1@ == v,
            forall|x: int| 0 <= x < prev.entries@.len() && x != i
                ==> #[trigger] self.entries@[x] == prev.entries@[x],
        ensures
            self.wf(),
            self.key_seq() == prev.key_seq(),
            self.contents() == prev.contents().insert(prev.entries@[i].0@, v),
    {
        let k = prev.entries@[i].0@;
        assert(self.key_seq() =~= prev.key_seq());
        assert forall|x: int, y: int| 0 <= x < y < self.entries@.len()
            implies (#[trigger] self.entries@[x].0@) != (#[trigger] self.entries@[y].0@) by {
            assert(self.entries@[x].0@ == prev.entries@[x].0@);
            assert(self.entries@[y].0@ == prev.entries@[y].0@);
        }
        prev.lemma_contents_at(i);
        self.lemma_contents_at(i);
        let m1 = self.contents();
        let m2 = prev.contents().insert(k, v);
        assert forall|q: Seq<char>| m1.contains_key(q) == m2.contains_key(q) by {
            assert(m1.contains_key(q) <==> self.key_seq().contains(q));
            assert(prev.contents().contains_key(q) <==> prev.key_seq().contains(q));
            assert(self.key_seq().contains(k));
        }
        assert forall|q: Seq<char>| m1.contains_key(q) && q != k implies m1[q] == m2[q] by {
            let x = choose|x: int| 0 <= x < self.entries@.len() && (#[trigger] self.entries@[x].0@) == q;
            assert(x != i);
            assert(prev.entries@[x].0@ == q);
            self.lemma_contents_at(x);
            prev.lemma_contents_at(x);
        }
        assert(m1 =~= m2);
    }

    proof fn lemma_put_append(&self, prev: Self, k: Seq<char>, v: SettingsView)
        requires
            prev.wf(),
            forall|x: int| 0 <= x < prev.entries@.len() ==> (#[trigger] prev.entries@[x].0@) != k,
            self.entries@.len() == prev.entries@.len() + 1,
            self.entries@[prev.entries@.len() as int].0@ == k,
            self.entries@[prev.entries@.len() as int].1@ == v,
            forall|x: int| 0 <= x < prev.entries@.len()
                ==> #[trigger] self.entries@[x] == prev.entries@[x],
        ensures
            self.wf(),
            self.key_seq() == prev.key_seq().push(k),
            self.contents() == prev.contents().insert(k, v),
    {
        let n = prev.entries@.len() as int;
        assert(self.key_seq() =~= prev.key_seq().push(k));
        assert forall|x: int, y: int| 0 <= x < y < self.entries@.len()
            implies (#[trigger] self.entries@[x].0@) != (#[trigger] self.entries@[y].0@) by {
            if y < n {
                assert(self.entries@[x].0@ == prev.entries@[x].0@);
                assert(self.entries@[y].0@ == prev.entries@[y].0@);
            } else {
                assert(self.entries@[x].0@ == prev.entries@[x].0@);
                assert(self.entries@[y].0@ == k);
            }
        }
        prev.lemma_absent(k);
        self.lemma_contents_at(n);
        let m1 = self.contents();
        let m2 = prev.contents().insert(k, v);
        assert forall|q: Seq<char>| m1.contains_key(q) == m2.contains_key(q) by {
            assert(m1.contains_key(q) <==> self.key_seq().contains(q));
            assert(prev.contents().contains_key(q) <==> prev.key_seq().contains(q));
            if q == k {
                assert(self.key_seq()[n] == k);
                assert(self.key_seq().contains(k));
            } else {
                if self.key_seq().contains(q) {
                    let x = choose|x: int|
                        0 <= x < self.entries@.len() && (#[trigger] self.entries@[x].0@) == q;
                    assert(x != n);
                    assert(prev.entries@[x].0@ == q);
                    assert(prev.key_seq()[x] == q);
                    assert(prev.key_seq().contains(q));
                }
                if prev.key_seq().contains(q) {
                    let x = choose|x: int|
                        0 <= x < prev.entries@.len() && (#[trigger] prev.entries@[x].0@) == q;
                    assert(self.entries@[x].0@ == q);
                    assert(self.key_seq()[x] == q);
                    assert(self.key_seq().contains(q));
                }
            }
        }
        assert forall|q: Seq<char>| m1.contains_key(q) && q != k implies m1[q] == m2[q] by {
            let x = choose|x: int| 0 <= x < self.entries@.len() && (#[trigger] self.entries@[x].0@) == q;
            assert(x != n);
            assert(prev.entries@[x].0@ == q);
            self.lemma_contents_at(x);
            prev.lemma_contents_at(x);
        }
        assert(m1 =~= m2);
    }

    /// Remove a record. Returns whether one existed; when none did, the
    /// store is left exactly as it was, so the caller need not commit a
    /// spurious write.
    pub fn delete_chat_settings(&mut self, workspace_uid: &String) -> (r: bool)
        requires
            old(self).wf(),
        ensures
            final(self).wf(),
            r == old(self).contents().contains_key(workspace_uid@),
            final(self).contents() == old(self).contents().remove(workspace_uid@),
            !r ==> *final(self) == *old(self),
    {
        match self.index_of(workspace_uid) {
            Some(i) => {
                proof {
                    old(self).lemma_contents_at(i as int);
                }
                self.entries.remove(i);
                proof {
                    self.lemma_delete_at(*old(self), i as int, workspace_uid@);
                }
                true
            },
            None => {
                proof {
                    old(self).lemma_absent(workspace_uid@);
                    assert(self.contents() =~= self.contents().remove(workspace_uid@));
                }
                false
            },
        }
    }

    proof fn lemma_delete_at(&self, prev: Self, i: int, k: Seq<char>)
        requires
            prev.wf(),
            0 <= i < prev.entries@.len(),
            prev.entries@[i].0@ == k,
            self.entries@ == prev.entries@.remove(i),
        ensures
            self.wf(),
            self.contents() == prev.contents().remove(k),
    {
        let n = prev.entries@.len() as int;
        assert(self.entries@.len() == n - 1);
        assert forall|x: int| 0 <= x < n - 1
            implies #[trigger] self.entries@[x] == (if x < i { prev.entries@[x] } else { prev.entries@[x + 1] }) by {
        }
        assert forall|x: int, y: int| 0 <= x < y < self.entries@.len()
            implies (#[trigger] self.entries@[x].0@) != (#[trigger] self.entries@[y].0@) by {
            let px = if x < i { x } else { x + 1 };
            let py = if y < i { y } else { y + 1 };
            assert(self.entries@[x].0@ == prev.entries@[px].0@);
            assert(self.entries@[y].0@ == prev.entries@[py].0@);
        }
        let m1 = self.contents();
        let m2 = prev.contents().remove(k);
        assert forall|q: Seq<char>| m1.contains_key(q) == m2.contains_key(q) by {
            assert(m1.contains_key(q) <==> self.key_seq().contains(q));
            assert(prev.contents().contains_key(q) <==> prev.key_seq().contains(q));
            if q == k {
                if self.key_seq().contains(q) {
                    let x = choose|x: int|
                        0 <= x < self.entries@.len() && (#[trigger] self.entries@[x].0@) == q;
                    let px = if x < i { x } else { x + 1 };
                    assert(prev.entries@[px].0@ == q);
                    assert(px != i ==> prev.entries@[px].0@ != prev.entries@[i].0@);
                }
            } else {
                if self.key_seq().contains(q) {
                    let x = choose|x: int|
                        0 <= x < self.entries@.len() && (#[trigger] self.entries@[x].0@) == q;
                    let px = if x < i { x } else { x + 1 };
                    assert(prev.entries@[px].0@ == q);
                    assert(prev.key_seq()[px] == q);
                    assert(prev.key_seq().contains(q));
                }
                if prev.key_seq().contains(q) {
                    let px = choose|x: int|
                        0 <= x < prev.entries@.len() && (#[trigger] prev.entries@[x].0@) == q;
                    assert(px != i);
                    let x = if px < i { px } else { px - 1 };
                    assert(self.entries@[x].0@ == q);
                    assert(self.key_seq()[x] == q);
                    assert(self.key_seq().contains(q));
                }
            }
        }
        assert forall|q: Seq<char>| m1.contains_key(q) && q != k implies m1[q] == m2[q] by {
            let x = choose|x: int| 0 <= x < self.entries@.len() && (#[trigger] self.entries@[x].0@) == q;
            let px = if x < i { x } else { x + 1 };
            assert(prev.entries@[px].0@ == q);
            self.lemma_contents_at(x);
            prev.lemma_contents_at(px);
            assert(self.entries@[x].1@ == prev.entries@[px].1@);
        }
        assert(m1 =~= m2);
    }

    /// One listing page: the total number of stored workspaces, and the
    /// identifiers from `offset` on, at most `limit` of them, in store
    /// order.
    pub fn paginated_chat_workspace_uids(&self, offset: usize, limit: usize) -> (r: (usize, Vec<String>))
        ensures
            r.0 == self.key_seq().len(),
            r.1@.len() == spec_page_len(self.key_seq().len() as int, offset as int, limit as int),
            forall|j: int| 0 <= j < r.1@.len() ==> (#[trigger] r.1@[j])@ == self.key_seq()[offset + j],
    {
        let total = self.entries.len();
        let start = if offset > total {
            total
        } else {
            offset
        };
        let mut uids: Vec<String> = Vec::new();
        let mut i = start;
        while i < total && uids.len() < limit
            invariant
                total == self.entries@.len(),
                start <= i <= total,
                uids@.len() == i - start,
                uids@.len() <= limit,
                forall|j: int| 0 <= j < uids@.len()
                    ==> (#[trigger] uids@[j])@ == self.key_seq()[start + j],
            decreases total - i,
        {
            uids.push(self.entries[i].0.clone());
            i += 1;
        }
        (total, uids)
    }
}

} // verus!

//! A flattened directory: which content stands under which path.

use vstd::prelude::*;

verus! {

/// One file of a flattened directory.
pub struct FileEntry {
    pub path: String,
    pub content: String,
}

/// A flattened directory: a mapping from paths to contents that holds each
/// path once, in the order in which the paths were first inserted.
pub struct Listing {
    entries: Vec<FileEntry>,
}

spec fn has_path(entries: Seq<FileEntry>, path: Seq<char>) -> bool {
    exists|i: int| 0 <= i < entries.len() && (#[trigger] entries[i]).path@ == path
}

spec fn index_of(entries: Seq<FileEntry>, path: Seq<char>) -> int {
    choose|i: int| 0 <= i < entries.len() && (#[trigger] entries[i]).path@ == path
}

spec fn distinct(entries: Seq<FileEntry>) -> bool {
    forall|i: int, j: int|
        0 <= i < j < entries.len() ==> (#[trigger] entries[i]).path@ != (#[trigger] entries[j]).path@
}

impl Clone for Listing {
    fn clone(&self) -> (r: Self)
        ensures
            r@ == self@,
            r.keys() == self.keys(),
    {
        proof {
            use_type_invariant(self);
        }
        let mut entries: Vec<FileEntry> = Vec::new();
        let mut i: usize = 0;
        while i < self.entries.len()
            invariant
                i <= self.entries@.len(),
                entries@ == self.entries@.take(i as int),
            decreases self.entries@.len() - i,
        {
            entries.push(
                FileEntry {
                    path: self.entries[i].path.clone(),
                    content: self.entries[i].content.clone(),
                },
            );
            i += 1;
            assert(entries@ =~= self.entries@.take(i as int));
        }
        assert(self.entries@.take(self.entries@.len() as int) =~= self.entries@);
        Listing { entries }
    }
}

impl Listing {
    #[verifier::type_invariant]
    spec fn well_formed(&self) -> bool {
        distinct(self.entries@)
    }

    /// The mapping from paths to contents.
    pub closed spec fn view(&self) -> Map<Seq<char>, Seq<char>> {
        Map::new(
            |path: Seq<char>| has_path(self.entries@, path),
            |path: Seq<char>| self.entries@[index_of(self.entries@, path)].content@,
        )
    }

    /// The paths, in the order in which they were first inserted.
    pub closed spec fn keys(&self) -> Seq<Seq<char>> {
        Seq::new(self.entries@.len(), |i: int| self.entries@[i].path@)
    }

    /// A listing without files.
    pub fn new() -> (r: Listing)
        ensures
            r@ == Map::<Seq<char>, Seq<char>>::empty(),
            r.keys() == Seq::<Seq<char>>::empty(),
    {
        let r = Listing { entries: Vec::new() };
        assert(r@ =~= Map::<Seq<char>, Seq<char>>::empty());
        assert(r.keys() =~= Seq::<Seq<char>>::empty());
        r
    }

    /// Number of files.
    pub fn len(&self) -> (n: usize)
        ensures
            n == self.keys().len(),
            n == self@.dom().len(),
            self@.dom().finite(),
    {
        proof {
            use_type_invariant(self);
            self.lemma_keys();
        }
        self.entries.len()
    }

    /// The paths are the domain of the mapping, each once.
    proof fn lemma_keys(&self)
        requires
            distinct(self.entries@),
        ensures
            self.keys().no_duplicates(),
            self.keys().to_set() == self@.dom(),
            self@.dom().finite(),
            self@.dom().len() == self.keys().len(),
            forall|i: int|
                0 <= i < self.entries@.len() ==> self@[(#[trigger] self.entries@[i]).path@]
                    == self.entries@[i].content@,
    {
        let keys = self.keys();
        assert forall|i: int, j: int| 0 <= i < keys.len() && 0 <= j < keys.len() && i != j implies keys[i]
            != keys[j] by {
            if i < j {
                assert(self.entries@[i].path@ != self.entries@[j].path@);
            } else {
                assert(self.entries@[j].path@ != self.entries@[i].path@);
            }
        }
        assert forall|path: Seq<char>| keys.to_set().contains(path) <==> self@.dom().contains(
            path,
        ) by {
            if keys.to_set().contains(path) {
                let i = choose|i: int| 0 <= i < keys.len() && keys[i] == path;
                assert(self.entries@[i].path@ == path);
            }
            if self@.dom().contains(path) {
                let i = index_of(self.entries@, path);
                assert(keys[i] == path);
            }
        }
        assert(keys.to_set() =~= self@.dom());
        keys.unique_seq_to_set();
        assert forall|i: int| 0 <= i < self.entries@.len() implies self@[(
        #[trigger] self.entries@[i]).path@] == self.entries@[i].content@ by {
            let k = index_of(self.entries@, self.entries@[i].path@);
            if k < i {
                assert(self.entries@[k].path@ != self.entries@[i].path@);
            } else if i < k {
                assert(self.entries@[i].path@ != self.entries@[k].path@);
            }
        }
    }

    /// Puts `content` under `path`, in place of what stood there.
    pub fn insert(&mut self, path: String, content: String)
        ensures
            final(self)@ == old(self)@.insert(path@, content@),
            final(self).keys() == if old(self)@.contains_key(path@) {
                old(self).keys()
            } else {
                old(self).keys().push(path@)
            },
    {
        proof {
            use_type_invariant(&*self);
            self.lemma_keys();
        }
        let ghost before = *self;
        let mut entries: Vec<FileEntry> = Vec::new();
        core::mem::swap(&mut self.entries, &mut entries);
        let ghost old_entries = entries@;
        let ghost key = path@;
        let ghost value = content@;
        let n: usize = entries.len();
        let mut found: Option<usize> = None;
        let mut i: usize = 0;
        while i < n && found.is_none()
            invariant
                i <= n,
                n == entries@.len(),
                entries@ == old_entries,
                found is None ==> forall|j: int|
                    0 <= j < i ==> (#[trigger] entries@[j]).path@ != path@,
                found matches Some(k) ==> k < n && entries@[k as int].path@ == path@,
            decreases n - i + if found is None { 1int } else { 0int },
        {
            if entries[i].path == path {
                found = Some(i);
            } else {
                i += 1;
            }
        }
        match found {
            Some(k) => {
                entries.set(k, FileEntry { path, content });
                proof {
                    let new_entries = entries@;
                    assert forall|a: int, b: int| 0 <= a < b < new_entries.len() implies (
                    #[trigger] new_entries[a]).path@ != (#[trigger] new_entries[b]).path@ by {
                        assert(old_entries[a].path@ != old_entries[b].path@);
                    }
                }
                self.entries = entries;
                proof {
                    let new_entries = self.entries@;
                    self.lemma_keys();
                    assert forall|q: Seq<char>| has_path(new_entries, q) <==> has_path(
                        old_entries,
                        q,
                    ) by {
                        if has_path(new_entries, q) {
                            let m = index_of(new_entries, q);
                            assert(old_entries[m].path@ == q);
                        }
                        if has_path(old_entries, q) {
                            let m = index_of(old_entries, q);
                            assert(new_entries[m].path@ == q);
                        }
                    }
                    assert(old_entries[k as int].path@ == key);
                    assert forall|q: Seq<char>| has_path(new_entries, q) implies self@[q]
                        == before@.insert(key, value)[q] by {
                        let m = index_of(new_entries, q);
                        assert(new_entries[m].path@ == q);
                        assert(old_entries[m].path@ == q);
                    }
                    assert(self@ =~= before@.insert(key, value));
                    assert(self.keys() =~= before.keys());
                }
            },
            None => {
                entries.push(FileEntry { path, content });
                proof {
                    let new_entries = entries@;
                    assert forall|a: int, b: int| 0 <= a < b < new_entries.len() implies (
                    #[trigger] new_entries[a]).path@ != (#[trigger] new_entries[b]).path@ by {
                        if b < old_entries.len() {
                            assert(old_entries[a].path@ != old_entries[b].path@);
                        } else {
                            assert(old_entries[a].path@ != key);
                        }
                    }
                }
                self.entries = entries;
                proof {
                    let new_entries = self.entries@;
                    assert(!has_path(old_entries, key));
                    self.lemma_keys();
                    assert(new_entries[n as int].path@ == key);
                    assert forall|q: Seq<char>| has_path(new_entries, q) <==> (has_path(
                        old_entries,
                        q,
                    ) || q == key) by {
                        if has_path(new_entries, q) {
                            let m = index_of(new_entries, q);
                            if m < n {
                                assert(old_entries[m].path@ == q);
                            }
                        }
                        if has_path(old_entries, q) {
                            let m = index_of(old_entries, q);
                            assert(new_entries[m].path@ == q);
                        }
                    }
                    assert forall|q: Seq<char>| has_path(new_entries, q) implies self@[q]
                        == before@.insert(key, value)[q] by {
                        let m = index_of(new_entries, q);
                        assert(new_entries[m].path@ == q);
                        if m < n {
                            assert(old_entries[m].path@ == q);
                        }
                    }
                    assert(self@ =~= before@.insert(key, value));
                    assert(self.keys() =~= before.keys().push(key));
                }
            },
        }
    }

    /// The paths, each once, in the order in which they were first inserted.
    pub fn paths(&self) -> (r: Vec<String>)
        ensures
            r.deep_view() == self.keys(),
            r.deep_view().no_duplicates(),
            r.deep_view().to_set() == self@.dom(),
    {
        proof {
            use_type_invariant(self);
            self.lemma_keys();
        }
        let mut r: Vec<String> = Vec::new();
        let mut i: usize = 0;
        while i < self.entries.len()
            invariant
                i <= self.entries@.len(),
                r@.len() == i,
                forall|j: int| 0 <= j < i ==> (#[trigger] r@[j])@ == self.entries@[j].path@,
            decreases self.entries@.len() - i,
        {
            r.push(self.entries[i].path.clone());
            i += 1;
        }
        assert(r.deep_view() =~= self.keys());
        r
    }

    /// The content that stands under `path`, if any does.
    pub fn get(&self, path: &str) -> (r: Option<&String>)
        ensures
            match r {
                Some(content) => self@.contains_key(path@) && content@ == self@[path@],
                None => !self@.contains_key(path@),
            },
    {
        let wanted = path.to_owned();
        let mut i: usize = 0;
        while i < self.entries.len()
            invariant
                i <= self.entries@.len(),
                wanted@ == path@,
                forall|j: int| 0 <= j < i ==> (#[trigger] self.entries@[j]).path@ != path@,
            decreases self.entries@.len() - i,
        {
            if self.entries[i].path == wanted {
                proof {
                    use_type_invariant(self);
                    self.lemma_keys();
                }
                return Some(&self.entries[i].content);
            }
            i += 1;
        }
        None
    }

    /// The file at place `index` in the order of `keys`: its path and its
    /// content.
    pub fn entry(&self, index: usize) -> (r: Option<&FileEntry>)
        ensures
            r is Some <==> index < self.keys().len(),
            r matches Some(e) ==> e.path@ == self.keys()[index as int] && self@.contains_key(
                e.path@,
            ) && e.content@ == self@[e.path@],
    {
        proof {
            use_type_invariant(self);
            self.lemma_keys();
        }
        if index < self.entries.len() {
            Some(&self.entries[index])
        } else {
            None
        }
    }
}

} // verus!

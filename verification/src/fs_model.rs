//! A synthetic filesystem.
//!
//! The installer's decisions depend only on which files and directories exist
//! and on the bytes of a few files. [`FsTree`] captures exactly that state as
//! a value: a map from path to file bytes plus a set of directory paths. The
//! probes and transactions of this library are verified functions over this
//! model; the unverified binary mirrors each transaction's steps onto the
//! real filesystem.
//!
//! Paths are plain strings and are treated as opaque keys: the model never
//! splits or normalises them, so `a/b` and `a//b` are distinct keys.

use vstd::prelude::*;
use crate::text::str_eq;

verus! {

/// True when no two entries share a key.
pub open spec fn keys_unique(s: Seq<(String, Vec<u8>)>) -> bool {
    forall|i: int, j: int| 0 <= i < j < s.len() ==> s[i].0@ != s[j].0@
}

/// Some entry has key `k`.
pub open spec fn has_key(s: Seq<(String, Vec<u8>)>, k: Seq<char>) -> bool {
    exists|i: int| 0 <= i < s.len() && s[i].0@ == k
}

/// The index of the entry with key `k`.
pub open spec fn key_index(s: Seq<(String, Vec<u8>)>, k: Seq<char>) -> int {
    choose|i: int| 0 <= i < s.len() && s[i].0@ == k
}

/// The entries, read as a map from key to value.
pub open spec fn file_map(s: Seq<(String, Vec<u8>)>) -> Map<Seq<char>, Seq<u8>> {
    Map::new(|k: Seq<char>| has_key(s, k), |k: Seq<char>| s[key_index(s, k)].1@)
}

/// With unique keys, any entry whose key is `k` stands at `key_index`.
proof fn lemma_key_index(s: Seq<(String, Vec<u8>)>, k: Seq<char>, i: int)
    requires
        keys_unique(s),
        0 <= i < s.len(),
        s[i].0@ == k,
    ensures
        key_index(s, k) == i,
        file_map(s)[k] == s[i].1@,
{
    assert(has_key(s, k));
    let j = key_index(s, k);
    assert(0 <= j < s.len() && s[j].0@ == k);
    if i != j {
        if i < j {
            assert(s[i].0@ != s[j].0@);
        } else {
            assert(s[j].0@ != s[i].0@);
        }
    }
}

/// Appending an entry with a fresh key inserts it into the map view.
proof fn lemma_push_map(s: Seq<(String, Vec<u8>)>, p: (String, Vec<u8>))
    requires
        keys_unique(s),
        !has_key(s, p.0@),
    ensures
        keys_unique(s.push(p)),
        file_map(s.push(p)) == file_map(s).insert(p.0@, p.1@),
{
    let t = s.push(p);
    assert forall|i: int, j: int| 0 <= i < j < t.len() implies t[i].0@ != t[j].0@ by {
        if j < s.len() {
            assert(s[i].0@ != s[j].0@);
        } else {
            assert(t[j] == p);
            assert(t[i] == s[i]);
            if s[i].0@ == p.0@ {
                assert(has_key(s, p.0@));
            }
        }
    }
    assert(file_map(t) =~= file_map(s).insert(p.0@, p.1@)) by {
        assert(t[s.len() as int].0@ == p.0@);
        assert(has_key(t, p.0@));
        assert forall|k: Seq<char>| #[trigger] has_key(t, k) && k != p.0@ implies has_key(s, k)
            && file_map(t)[k] == file_map(s)[k] by {
            let i = choose|i: int| 0 <= i < t.len() && t[i].0@ == k;
            assert(i < s.len());
            assert(s[i].0@ == k);
            lemma_key_index(s, k, i);
            lemma_key_index(t, k, i);
        }
        assert forall|k: Seq<char>| #[trigger] has_key(s, k) implies has_key(t, k) by {
            let i = choose|i: int| 0 <= i < s.len() && s[i].0@ == k;
            assert(t[i].0@ == k);
        }
        lemma_key_index(t, p.0@, s.len() as int);
    }
}

/// Removing the entry with key `k` removes it from the map view.
proof fn lemma_remove_map(s: Seq<(String, Vec<u8>)>, i: int)
    requires
        keys_unique(s),
        0 <= i < s.len(),
    ensures
        keys_unique(s.remove(i)),
        file_map(s.remove(i)) == file_map(s).remove(s[i].0@),
{
    let k = s[i].0@;
    let t = s.remove(i);
    assert forall|p: int, q: int| 0 <= p < q < t.len() implies t[p].0@ != t[q].0@ by {
        let sp: int = if p < i {
            p
        } else {
            p + 1
        };
        let sq: int = if q < i {
            q
        } else {
            q + 1
        };
        assert(t[p] == s[sp]);
        assert(t[q] == s[sq]);
        assert(s[sp].0@ != s[sq].0@);
    }
    assert(file_map(t) =~= file_map(s).remove(k)) by {
        assert forall|x: Seq<char>| #[trigger] has_key(t, x) implies has_key(s, x) && x != k
            && file_map(t)[x] == file_map(s)[x] by {
            let j = choose|j: int| 0 <= j < t.len() && t[j].0@ == x;
            let sj: int = if j < i {
                j
            } else {
                j + 1
            };
            assert(t[j] == s[sj]);
            if sj < i {
                assert(s[sj].0@ != s[i].0@);
            } else if sj > i {
                assert(s[i].0@ != s[sj].0@);
            }
            lemma_key_index(s, x, sj);
            lemma_key_index(t, x, j);
        }
        assert forall|x: Seq<char>| #[trigger] has_key(s, x) && x != k implies has_key(t, x) by {
            let j = choose|j: int| 0 <= j < s.len() && s[j].0@ == x;
            if j != i {
                let tj: int = if j < i {
                    j
                } else {
                    j - 1
                };
                assert(t[tj] == s[j]);
            }
        }
    }
}

/// A synthetic filesystem: file contents keyed by path, and a set of
/// directory paths. The order in which directories were created is kept, so
/// scans that enumerate them are deterministic.
pub struct FsTree {
    files: Vec<(String, Vec<u8>)>,
    dirs: Vec<String>,
}

impl FsTree {
    /// The files: a map from path to content bytes.
    pub closed spec fn files(&self) -> Map<Seq<char>, Seq<u8>> {
        file_map(self.files@)
    }

    /// The directory paths, in creation order.
    pub closed spec fn dir_list(&self) -> Seq<Seq<char>> {
        self.dirs@.map_values(|d: String| d@)
    }

    /// The directory paths, as a set.
    pub open spec fn dirs(&self) -> Set<Seq<char>> {
        Set::new(|k: Seq<char>| self.dir_list().contains(k))
    }

    /// Well-formedness: no file path and no directory path occurs twice.
    /// Constructors establish it and every operation keeps it.
    pub closed spec fn wf(&self) -> bool {
        &&& keys_unique(self.files@)
        &&& forall|i: int, j: int|
            0 <= i < j < self.dirs@.len() ==> self.dirs@[i]@ != self.dirs@[j]@
    }

    /// An empty filesystem.
    pub fn new() -> (t: FsTree)
        ensures
            t.wf(),
            t.files() == Map::<Seq<char>, Seq<u8>>::empty(),
            t.dir_list() == Seq::<Seq<char>>::empty(),
    {
        let t = FsTree { files: Vec::new(), dirs: Vec::new() };
        proof {
            assert(t.files() =~= Map::<Seq<char>, Seq<u8>>::empty());
            assert(t.dir_list() =~= Seq::<Seq<char>>::empty());
        }
        t
    }

    /// The position of the file entry for `path`, when there is one.
    fn find_file(&self, path: &str) -> (r: Option<usize>)
        ensures
            match r {
                Some(i) => i < self.files@.len() && self.files@[i as int].0@ == path@,
                None => !has_key(self.files@, path@),
            },
    {
        let mut i: usize = 0;
        while i < self.files.len()
            invariant
                i <= self.files@.len(),
                forall|j: int| 0 <= j < i ==> self.files@[j].0@ != path@,
            decreases self.files@.len() - i,
        {
            if str_eq(self.files[i].0.as_str(), path) {
                return Some(i);
            }
            i = i + 1;
        }
        None
    }

    /// Does a file exist at `path`?
    pub fn has_file(&self, path: &str) -> (r: bool)
        ensures
            r == self.files().dom().contains(path@),
    {
        match self.find_file(path) {
            Some(i) => {
                proof {
                    assert(has_key(self.files@, path@));
                }
                true
            },
            None => false,
        }
    }

    /// The content of the file at `path`, when there is one.
    pub fn read_file(&self, path: &str) -> (r: Option<&Vec<u8>>)
        requires
            self.wf(),
        ensures
            match r {
                Some(data) => self.files().dom().contains(path@) && data@ == self.files()[path@],
                None => !self.files().dom().contains(path@),
            },
    {
        match self.find_file(path) {
            Some(i) => {
                proof {
                    lemma_key_index(self.files@, path@, i as int);
                }
                Some(&self.files[i].1)
            },
            None => None,
        }
    }

    /// Creates the file at `path` with the given content, replacing any file
    /// already there.
    pub fn write_file(&mut self, path: &str, data: Vec<u8>)
        requires
            old(self).wf(),
        ensures
            final(self).wf(),
            final(self).files() == old(self).files().insert(path@, data@),
            final(self).dir_list() == old(self).dir_list(),
    {
        let ghost orig = self.files@;
        match self.find_file(path) {
            Some(i) => {
                let _ = self.files.remove(i);
                proof {
                    lemma_remove_map(orig, i as int);
                }
                let ghost removed = self.files@;
                let mut name = String::new();
                name.append(path);
                self.files.push((name, data));
                proof {
                    lemma_push_map(removed, (name, data));
                    assert(file_map(self.files@) =~= file_map(orig).insert(path@, data@));
                }
            },
            None => {
                let mut name = String::new();
                name.append(path);
                self.files.push((name, data));
                proof {
                    lemma_push_map(orig, (name, data));
                }
            },
        }
    }

    /// Deletes the file at `path`. Returns whether it existed.
    pub fn remove_file(&mut self, path: &str) -> (r: bool)
        requires
            old(self).wf(),
        ensures
            final(self).wf(),
            r == old(self).files().dom().contains(path@),
            final(self).files() == old(self).files().remove(path@),
            final(self).dir_list() == old(self).dir_list(),
    {
        let ghost orig = self.files@;
        match self.find_file(path) {
            Some(i) => {
                let _ = self.files.remove(i);
                proof {
                    lemma_remove_map(orig, i as int);
                }
                true
            },
            None => {
                proof {
                    assert(self.files() =~= self.files().remove(path@));
                }
                false
            },
        }
    }

    /// Moves the file at `from` to `to`, replacing any file at `to`, as a
    /// filesystem rename does. Returns `false`, changing nothing, when there
    /// is no file at `from`.
    pub fn rename_file(&mut self, from: &str, to: &str) -> (r: bool)
        requires
            old(self).wf(),
        ensures
            final(self).wf(),
            r == old(self).files().dom().contains(from@),
            final(self).files() == if old(self).files().dom().contains(from@) {
                old(self).files().remove(from@).insert(to@, old(self).files()[from@])
            } else {
                old(self).files()
            },
            final(self).dir_list() == old(self).dir_list(),
    {
        let ghost orig = self.files@;
        match self.find_file(from) {
            Some(i) => {
                let (_, data) = self.files.remove(i);
                proof {
                    lemma_remove_map(orig, i as int);
                    lemma_key_index(orig, from@, i as int);
                }
                self.write_file(to, data);
                true
            },
            None => false,
        }
    }

    /// Does a directory exist at `path`?
    pub fn has_dir(&self, path: &str) -> (r: bool)
        ensures
            r == self.dirs().contains(path@),
    {
        let mut i: usize = 0;
        while i < self.dirs.len()
            invariant
                i <= self.dirs@.len(),
                forall|j: int| 0 <= j < i ==> self.dirs@[j]@ != path@,
            decreases self.dirs@.len() - i,
        {
            if str_eq(self.dirs[i].as_str(), path) {
                proof {
                    assert(self.dir_list()[i as int] == path@);
                    assert(self.dir_list().contains(path@));
                }
                return true;
            }
            i = i + 1;
        }
        proof {
            assert forall|k: int| 0 <= k < self.dir_list().len() implies self.dir_list()[k]
                != path@ by {
                assert(self.dir_list()[k] == self.dirs@[k]@);
            }
        }
        false
    }

    /// Creates the directory at `path`. Creating an existing directory
    /// changes nothing.
    pub fn mkdir(&mut self, path: &str)
        requires
            old(self).wf(),
        ensures
            final(self).wf(),
            final(self).files() == old(self).files(),
            final(self).dir_list() == if old(self).dirs().contains(path@) {
                old(self).dir_list()
            } else {
                old(self).dir_list().push(path@)
            },
    {
        if !self.has_dir(path) {
            let mut name = String::new();
            name.append(path);
            self.dirs.push(name);
            proof {
                assert(final(self).dir_list() =~= old(self).dir_list().push(path@));
                assert forall|i: int, j: int|
                    0 <= i < j < self.dirs@.len() implies self.dirs@[i]@ != self.dirs@[j]@ by {
                    if j == self.dirs@.len() - 1 {
                        assert(old(self).dir_list()[i] == old(self).dirs@[i]@);
                        assert(!old(self).dir_list().contains(path@));
                    }
                }
            }
        }
    }

    /// How many directories the tree holds.
    pub fn dir_count(&self) -> (n: usize)
        ensures
            n == self.dir_list().len(),
    {
        self.dirs.len()
    }

    /// The directory path at position `i` of the creation order.
    pub fn dir_at(&self, i: usize) -> (r: &String)
        requires
            i < self.dir_list().len(),
        ensures
            r@ == self.dir_list()[i as int],
    {
        &self.dirs[i]
    }
}

} // verus!

//! The model of a node's file store that the upload, pull and
//! reconciliation contracts are stated against: a record of writes, where
//! the latest write to a path is what a read returns.  The callers that
//! touch a real disk do so outside this crate and mirror these
//! semantics.

use vstd::prelude::*;

use crate::text::str_eq;

verus! {

/// One recorded write: the bytes now at `path`, and when they were
/// written (unix seconds).
pub struct FileEntry {
    pub path: String,
    pub data: Vec<u8>,
    pub modified: u64,
}

/// Ghost view of a write record.
pub ghost struct FileEntryV {
    pub path: Seq<char>,
    pub data: Seq<u8>,
    pub modified: u64,
}

impl View for FileEntry {
    type V = FileEntryV;

    open spec fn view(&self) -> FileEntryV {
        FileEntryV { path: self.path@, data: self.data@, modified: self.modified }
    }
}

/// The views of a store's records.
pub open spec fn fe_views(s: Seq<FileEntry>) -> Seq<FileEntryV> {
    s.map_values(|e: FileEntry| e@)
}

/// What a read of `path` returns: the latest record for it, if any.
pub open spec fn read_spec(s: Seq<FileEntryV>, path: Seq<char>) -> Option<FileEntryV>
    decreases s.len(),
{
    if s.len() == 0 {
        None
    } else if s.last().path == path {
        Some(s.last())
    } else {
        read_spec(s.drop_last(), path)
    }
}

/// An in-memory file store: a record of writes, latest write wins.
pub struct FileStore {
    pub entries: Vec<FileEntry>,
}

impl FileStore {
    /// An empty store.
    pub fn new() -> (r: FileStore)
        ensures
            r.entries@.len() == 0,
    {
        FileStore { entries: Vec::new() }
    }

    /// Writes `data` to `path` at time `now`.  A later read of `path`
    /// returns exactly these bytes, and other paths are unaffected.
    pub fn write(&mut self, path: String, data: Vec<u8>, now: u64)
        ensures
            fe_views(final(self).entries@) == fe_views(old(self).entries@).push(
                FileEntryV { path: path@, data: data@, modified: now },
            ),
            read_spec(fe_views(final(self).entries@), path@) == Some(FileEntryV {
                path: path@,
                data: data@,
                modified: now,
            }),
            forall|q: Seq<char>|
                q != path@ ==> #[trigger] read_spec(fe_views(final(self).entries@), q) == read_spec(
                    fe_views(old(self).entries@),
                    q,
                ),
    {
        let ghost before = fe_views(self.entries@);
        self.entries.push(FileEntry { path, data, modified: now });
        proof {
            let entry = FileEntryV { path: path@, data: data@, modified: now };
            assert(fe_views(self.entries@) =~= before.push(entry));
            assert(fe_views(self.entries@).drop_last() =~= before);
        }
    }

    /// Reads the bytes last written to `path`, if any.
    pub fn read(&self, path: &str) -> (r: Option<Vec<u8>>)
        ensures
            match r {
                Some(data) => read_spec(fe_views(self.entries@), path@) matches Some(e) && e.data
                    == data@,
                None => read_spec(fe_views(self.entries@), path@) is None,
            },
    {
        let n = self.entries.len();
        let mut i: usize = n;
        proof {
            assert(fe_views(self.entries@).take(n as int) =~= fe_views(self.entries@));
        }
        while i > 0
            invariant
                i <= n,
                n == self.entries@.len(),
                read_spec(fe_views(self.entries@), path@) == read_spec(
                    fe_views(self.entries@).take(i as int),
                    path@,
                ),
            decreases i,
        {
            i = i - 1;
            proof {
                assert(fe_views(self.entries@).take(i as int + 1).drop_last() =~= fe_views(
                    self.entries@,
                ).take(i as int));
                assert(fe_views(self.entries@).take(i as int + 1).last() == fe_views(
                    self.entries@,
                )[i as int]);
            }
            if str_eq(self.entries[i].path.as_str(), path) {
                return Some(clone_bytes(&self.entries[i].data));
            }
        }
        proof {
            assert(fe_views(self.entries@).take(0) =~= Seq::<FileEntryV>::empty());
        }
        None
    }

    /// The time `path` was last written, if it was.
    pub fn mtime_of(&self, path: &str) -> (r: Option<u64>)
        ensures
            match r {
                Some(t) => read_spec(fe_views(self.entries@), path@) matches Some(e) && e.modified
                    == t,
                None => read_spec(fe_views(self.entries@), path@) is None,
            },
    {
        let n = self.entries.len();
        let mut i: usize = n;
        proof {
            assert(fe_views(self.entries@).take(n as int) =~= fe_views(self.entries@));
        }
        while i > 0
            invariant
                i <= n,
                n == self.entries@.len(),
                read_spec(fe_views(self.entries@), path@) == read_spec(
                    fe_views(self.entries@).take(i as int),
                    path@,
                ),
            decreases i,
        {
            i = i - 1;
            proof {
                assert(fe_views(self.entries@).take(i as int + 1).drop_last() =~= fe_views(
                    self.entries@,
                ).take(i as int));
                assert(fe_views(self.entries@).take(i as int + 1).last() == fe_views(
                    self.entries@,
                )[i as int]);
            }
            if str_eq(self.entries[i].path.as_str(), path) {
                return Some(self.entries[i].modified);
            }
        }
        proof {
            assert(fe_views(self.entries@).take(0) =~= Seq::<FileEntryV>::empty());
        }
        None
    }
}

/// An element-wise copy of a byte vector.
pub fn clone_bytes(v: &Vec<u8>) -> (r: Vec<u8>)
    ensures
        r@ == v@,
{
    let n = v.len();
    let mut out: Vec<u8> = Vec::new();
    let mut i: usize = 0;
    while i < n
        invariant
            i <= n,
            n == v@.len(),
            out@ == v@.take(i as int),
        decreases n - i,
    {
        out.push(v[i]);
        proof {
            assert(out@ =~= v@.take(i as int + 1));
        }
        i = i + 1;
    }
    proof {
        assert(v@.take(n as int) =~= v@);
    }
    out
}

/// Round trip: for every store, path and byte string, a write followed
/// by a read of the same path returns exactly the bytes written.
pub proof fn lemma_write_then_read(s: Seq<FileEntryV>, path: Seq<char>, data: Seq<u8>, now: u64)
    ensures
        read_spec(s.push(FileEntryV { path, data, modified: now }), path) == Some(FileEntryV {
            path,
            data,
            modified: now,
        }),
{
    assert(s.push(FileEntryV { path, data, modified: now }).drop_last() =~= s);
}

/// A write leaves every other path's contents as they were.
pub proof fn lemma_write_other_path(
    s: Seq<FileEntryV>,
    path: Seq<char>,
    data: Seq<u8>,
    now: u64,
    other: Seq<char>,
)
    requires
        other != path,
    ensures
        read_spec(s.push(FileEntryV { path, data, modified: now }), other) == read_spec(s, other),
{
    assert(s.push(FileEntryV { path, data, modified: now }).drop_last() =~= s);
}

} // verus!

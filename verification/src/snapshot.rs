//! A snapshot of the filesystem facts the resolver cares about: which paths
//! exist, and whether each is readable or writable by the current process.
//!
//! Permission checks against a live filesystem are inherently racy, so the
//! resolver's decisions are stated against a snapshot taken at probe time:
//! every judgement (readable, writable, creatable, nearest existing
//! ancestor) is a proved function of the snapshot, and a later check of the
//! real filesystem may disagree with an earlier one without making any
//! judgement wrong about its snapshot.

use vstd::prelude::*;

use crate::path::FsPath;

verus! {

/// What one snapshot entry records about an existing path.
pub ghost struct FsEntryV {
    pub path: Seq<Seq<char>>,
    pub readable: bool,
    pub writable: bool,
}

/// One path that exists, with its permission facts.  A path with no entry in
/// a snapshot is taken not to exist.
#[derive(Debug)]
pub struct FsEntry {
    pub path: FsPath,
    pub readable: bool,
    pub writable: bool,
}

impl View for FsEntry {
    type V = FsEntryV;

    open spec fn view(&self) -> FsEntryV {
        FsEntryV { path: self.path@, readable: self.readable, writable: self.writable }
    }
}

/// The facts about every path the resolver probed, in probe order.
#[derive(Debug)]
pub struct FsSnapshot {
    pub entries: Vec<FsEntry>,
}

impl View for FsSnapshot {
    type V = Seq<FsEntryV>;

    open spec fn view(&self) -> Seq<FsEntryV> {
        self.entries@.map_values(|e: FsEntry| e@)
    }
}

/// The first entry recorded for `p`, if any.
pub open spec fn spec_find(fs: Seq<FsEntryV>, p: Seq<Seq<char>>) -> Option<FsEntryV>
    decreases fs.len(),
{
    if fs.len() == 0 {
        None
    } else if fs[0].path == p {
        Some(fs[0])
    } else {
        spec_find(fs.drop_first(), p)
    }
}

/// Whether the snapshot says `p` exists.
pub open spec fn spec_exists_at(fs: Seq<FsEntryV>, p: Seq<Seq<char>>) -> bool {
    spec_find(fs, p) is Some
}

/// Whether the snapshot says `p` exists and is readable.
pub open spec fn spec_readable_at(fs: Seq<FsEntryV>, p: Seq<Seq<char>>) -> bool {
    match spec_find(fs, p) {
        Some(e) => e.readable,
        None => false,
    }
}

/// Whether the snapshot says `p` exists and is writable.
pub open spec fn spec_writable_at(fs: Seq<FsEntryV>, p: Seq<Seq<char>>) -> bool {
    match spec_find(fs, p) {
        Some(e) => e.writable,
        None => false,
    }
}

/// The longest prefix of `p` (including `p` itself) that exists in the
/// snapshot: the nearest existing ancestor.
pub open spec fn spec_largest_existing_ancestor(fs: Seq<FsEntryV>, p: Seq<Seq<char>>) -> Option<
    Seq<Seq<char>>,
>
    decreases p.len(),
{
    if spec_exists_at(fs, p) {
        Some(p)
    } else if p.len() == 0 {
        None
    } else {
        spec_largest_existing_ancestor(fs, p.drop_last())
    }
}

/// Readable: the path exists and can be opened for reading.
pub open spec fn spec_is_readable(fs: Seq<FsEntryV>, p: Seq<Seq<char>>) -> bool {
    spec_readable_at(fs, p)
}

/// Writable: the path exists and is writable, or it does not exist yet and
/// its nearest existing ancestor is writable.
pub open spec fn spec_is_writable(fs: Seq<FsEntryV>, p: Seq<Seq<char>>) -> bool {
    match spec_largest_existing_ancestor(fs, p) {
        Some(a) => spec_writable_at(fs, a),
        None => false,
    }
}

/// Creatable: the path does not exist yet, but could be created, because its
/// nearest existing ancestor is writable.
pub open spec fn spec_is_creatable(fs: Seq<FsEntryV>, p: Seq<Seq<char>>) -> bool {
    !spec_exists_at(fs, p) && match spec_largest_existing_ancestor(fs, p) {
        Some(a) => spec_writable_at(fs, a),
        None => false,
    }
}

impl FsSnapshot {
    /// A snapshot with no entries: nothing exists.
    pub fn new() -> (r: FsSnapshot)
        ensures
            r@ == Seq::<FsEntryV>::empty(),
    {
        let r = FsSnapshot { entries: Vec::new() };
        proof {
            assert(r@ =~= Seq::<FsEntryV>::empty());
        }
        r
    }

    /// Records that `path` exists with the given permission facts.  The
    /// first entry for a path wins, so recording a path again changes
    /// nothing that is judged about it.
    pub fn record(&mut self, path: FsPath, readable: bool, writable: bool)
        ensures
            final(self)@ == old(self)@.push(FsEntryV { path: path@, readable, writable }),
    {
        let ghost old_view = self@;
        let ghost entry_view = FsEntryV { path: path@, readable, writable };
        self.entries.push(FsEntry { path, readable, writable });
        proof {
            assert(self@ =~= old_view.push(entry_view));
        }
    }

    /// The recorded facts for `path`: whether it is readable and writable,
    /// or nothing when the snapshot says it does not exist.
    pub fn lookup(&self, path: &FsPath) -> (r: Option<(bool, bool)>)
        ensures
            match r {
                Some(flags) => spec_find(self@, path@) matches Some(e) && e.readable == flags.0
                    && e.writable == flags.1,
                None => spec_find(self@, path@) is None,
            },
    {
        let n = self.entries.len();
        let mut i: usize = 0;
        proof {
            assert(self@.subrange(0, n as int) =~= self@);
        }
        while i < n
            invariant
                n == self.entries.len(),
                i <= n,
                self@.len() == n,
                spec_find(self@, path@) == spec_find(self@.subrange(i as int, n as int), path@),
            decreases n - i,
        {
            proof {
                assert(self@.subrange(i as int, n as int)[0] == self@[i as int]);
            }
            if self.entries[i].path.same_path(path) {
                return Some((self.entries[i].readable, self.entries[i].writable));
            }
            proof {
                assert(self@.subrange(i as int, n as int).drop_first() =~= self@.subrange(
                    i + 1,
                    n as int,
                ));
            }
            i = i + 1;
        }
        proof {
            assert(self@.subrange(n as int, n as int) =~= Seq::<FsEntryV>::empty());
        }
        None
    }

    /// Whether the snapshot says `path` exists.
    pub fn contains_path(&self, path: &FsPath) -> (r: bool)
        ensures
            r == spec_exists_at(self@, path@),
    {
        self.lookup(path).is_some()
    }

    /// Walks from `path` upward through its ancestors until one exists in
    /// the snapshot, and returns it; nothing if no ancestor exists at all.
    pub fn largest_existing_ancestor(&self, path: &FsPath) -> (r: Option<FsPath>)
        ensures
            match r {
                Some(a) => spec_largest_existing_ancestor(self@, path@) == Some(a@),
                None => spec_largest_existing_ancestor(self@, path@) is None,
            },
    {
        let mut n = path.components.len();
        proof {
            assert(path@.subrange(0, n as int) =~= path@);
        }
        loop
            invariant
                n <= path.components.len(),
                path@.len() == path.components.len(),
                spec_largest_existing_ancestor(self@, path@) == spec_largest_existing_ancestor(
                    self@,
                    path@.subrange(0, n as int),
                ),
            decreases n,
        {
            let pre = path.prefix(n);
            if self.contains_path(&pre) {
                return Some(pre);
            }
            if n == 0 {
                return None;
            }
            proof {
                assert(path@.subrange(0, n as int).drop_last() =~= path@.subrange(0, n - 1));
            }
            n = n - 1;
        }
    }
}

} // verus!

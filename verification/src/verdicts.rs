//! Path verdicts over a snapshot: the `Permissions` judgement for one path,
//! and the `ValidPaths` filtering of an ordered candidate list.
//!
//! Candidate lists are significant in order — highest priority first — and
//! are never re-sorted; filtering keeps the original order.

use vstd::prelude::*;

use crate::path::FsPath;
use crate::snapshot::{
    spec_exists_at, spec_is_creatable, spec_is_readable, spec_is_writable,
    spec_largest_existing_ancestor, FsEntryV, FsSnapshot,
};

verus! {

/// Which judgement a candidate list is filtered by.
#[derive(Copy, Clone, Debug, PartialEq, Eq, Structural)]
pub enum PathCheck {
    Readable,
    Writable,
    Creatable,
}

/// The judgement for one optional path: an absent path fails every check.
pub open spec fn spec_verdict(
    fs: Seq<FsEntryV>,
    target: Option<Seq<Seq<char>>>,
    check: PathCheck,
) -> bool {
    match target {
        None => false,
        Some(p) => match check {
            PathCheck::Readable => spec_is_readable(fs, p),
            PathCheck::Writable => spec_is_writable(fs, p),
            PathCheck::Creatable => spec_is_creatable(fs, p),
        },
    }
}

/// The first target in `ts` that passes the check, if any.
pub open spec fn spec_first_valid(
    ts: Seq<Option<Seq<Seq<char>>>>,
    fs: Seq<FsEntryV>,
    check: PathCheck,
) -> Option<Seq<Seq<char>>>
    decreases ts.len(),
{
    if ts.len() == 0 {
        None
    } else if spec_verdict(fs, ts[0], check) {
        ts[0]
    } else {
        spec_first_valid(ts.drop_first(), fs, check)
    }
}

/// The subsequence of targets in `ts` that pass the check, in order.
pub open spec fn spec_all_valid(
    ts: Seq<Option<Seq<Seq<char>>>>,
    fs: Seq<FsEntryV>,
    check: PathCheck,
) -> Seq<Seq<Seq<char>>>
    decreases ts.len(),
{
    if ts.len() == 0 {
        Seq::empty()
    } else {
        spec_all_valid(ts.drop_last(), fs, check) + if spec_verdict(fs, ts.last(), check) {
            seq![ts.last().unwrap()]
        } else {
            Seq::empty()
        }
    }
}

/// A nearest existing ancestor indeed exists in the snapshot.
pub proof fn lemma_ancestor_exists(fs: Seq<FsEntryV>, p: Seq<Seq<char>>)
    ensures
        spec_largest_existing_ancestor(fs, p) matches Some(a) ==> spec_exists_at(fs, a),
    decreases p.len(),
{
    if !spec_exists_at(fs, p) && p.len() > 0 {
        lemma_ancestor_exists(fs, p.drop_last());
    }
}

/// The permission judgements for one candidate, stated against a snapshot.
pub trait Permissions {
    /// The path this candidate stands for, if any.
    spec fn spec_target(&self) -> Option<Seq<Seq<char>>>;

    /// Whether the candidate exists and can be opened for reading.  A
    /// missing path or a failed permission check yields `false`, never an
    /// error.
    fn is_readable(&self, fs: &FsSnapshot) -> (r: bool)
        ensures
            r == spec_verdict(fs@, self.spec_target(), PathCheck::Readable),
    ;

    /// Whether the candidate exists and is writable, or does not exist yet
    /// while its nearest existing ancestor is writable.
    fn is_writable(&self, fs: &FsSnapshot) -> (r: bool)
        ensures
            r == spec_verdict(fs@, self.spec_target(), PathCheck::Writable),
    ;

    /// Whether the candidate does not exist yet but could be created: its
    /// nearest existing ancestor is writable.
    fn is_creatable(&self, fs: &FsSnapshot) -> (r: bool)
        ensures
            r == spec_verdict(fs@, self.spec_target(), PathCheck::Creatable),
    ;

    /// The longest prefix of the candidate that exists in the snapshot.
    fn largest_valid_subset(&self, fs: &FsSnapshot) -> (r: Option<FsPath>)
        ensures
            match self.spec_target() {
                Some(p) => match r {
                    Some(a) => spec_largest_existing_ancestor(fs@, p) == Some(a@),
                    None => spec_largest_existing_ancestor(fs@, p) is None,
                },
                None => r is None,
            },
    ;
}

impl Permissions for FsPath {
    open spec fn spec_target(&self) -> Option<Seq<Seq<char>>> {
        Some(self@)
    }

    fn is_readable(&self, fs: &FsSnapshot) -> (r: bool) {
        match fs.lookup(self) {
            Some(flags) => flags.0,
            None => false,
        }
    }

    fn is_writable(&self, fs: &FsSnapshot) -> (r: bool) {
        match fs.largest_existing_ancestor(self) {
            Some(ancestor) => match fs.lookup(&ancestor) {
                Some(flags) => flags.1,
                None => {
                    proof {
                        lemma_ancestor_exists(fs@, self@);
                    }
                    false
                },
            },
            None => false,
        }
    }

    fn is_creatable(&self, fs: &FsSnapshot) -> (r: bool) {
        if fs.contains_path(self) {
            false
        } else {
            self.is_writable(fs)
        }
    }

    fn largest_valid_subset(&self, fs: &FsSnapshot) -> (r: Option<FsPath>) {
        fs.largest_existing_ancestor(self)
    }
}

impl Permissions for Option<FsPath> {
    open spec fn spec_target(&self) -> Option<Seq<Seq<char>>> {
        match self {
            Some(p) => Some(p@),
            None => None,
        }
    }

    fn is_readable(&self, fs: &FsSnapshot) -> (r: bool) {
        match self {
            Some(p) => p.is_readable(fs),
            None => false,
        }
    }

    fn is_writable(&self, fs: &FsSnapshot) -> (r: bool) {
        match self {
            Some(p) => p.is_writable(fs),
            None => false,
        }
    }

    fn is_creatable(&self, fs: &FsSnapshot) -> (r: bool) {
        match self {
            Some(p) => p.is_creatable(fs),
            None => false,
        }
    }

    fn largest_valid_subset(&self, fs: &FsSnapshot) -> (r: Option<FsPath>) {
        match self {
            Some(p) => p.largest_valid_subset(fs),
            None => None,
        }
    }
}

/// Filtering an ordered candidate list by a permission judgement.  The
/// order of the list is the priority order; it is kept as given.
pub trait ValidPaths {
    /// The candidates, in order, each as the path it stands for (if any).
    spec fn spec_targets(&self) -> Seq<Option<Seq<Seq<char>>>>;

    /// The highest-priority candidate that passes the check.
    fn first_valid_path(&self, fs: &FsSnapshot, check: PathCheck) -> (r: Option<FsPath>)
        ensures
            match r {
                Some(p) => spec_first_valid(self.spec_targets(), fs@, check) == Some(p@),
                None => spec_first_valid(self.spec_targets(), fs@, check) is None,
            },
    ;

    /// Every candidate that passes the check, in priority order.
    fn all_valid_paths(&self, fs: &FsSnapshot, check: PathCheck) -> (r: Vec<FsPath>)
        ensures
            r.deep_view() == spec_all_valid(self.spec_targets(), fs@, check),
    ;

    /// The highest-priority readable candidate.
    fn first_readable_path(&self, fs: &FsSnapshot) -> (r: Option<FsPath>)
        ensures
            match r {
                Some(p) => spec_first_valid(self.spec_targets(), fs@, PathCheck::Readable) == Some(
                    p@,
                ),
                None => spec_first_valid(self.spec_targets(), fs@, PathCheck::Readable) is None,
            },
    ;

    /// The highest-priority writable candidate.
    fn first_writable_path(&self, fs: &FsSnapshot) -> (r: Option<FsPath>)
        ensures
            match r {
                Some(p) => spec_first_valid(self.spec_targets(), fs@, PathCheck::Writable) == Some(
                    p@,
                ),
                None => spec_first_valid(self.spec_targets(), fs@, PathCheck::Writable) is None,
            },
    ;

    /// The highest-priority creatable candidate.
    fn first_creatable_path(&self, fs: &FsSnapshot) -> (r: Option<FsPath>)
        ensures
            match r {
                Some(p) => spec_first_valid(self.spec_targets(), fs@, PathCheck::Creatable)
                    == Some(p@),
                None => spec_first_valid(self.spec_targets(), fs@, PathCheck::Creatable) is None,
            },
    ;

    /// Every readable candidate, in priority order.
    fn all_readable_paths(&self, fs: &FsSnapshot) -> (r: Vec<FsPath>)
        ensures
            r.deep_view() == spec_all_valid(self.spec_targets(), fs@, PathCheck::Readable),
    ;

    /// Every writable candidate, in priority order.
    fn all_writable_paths(&self, fs: &FsSnapshot) -> (r: Vec<FsPath>)
        ensures
            r.deep_view() == spec_all_valid(self.spec_targets(), fs@, PathCheck::Writable),
    ;

    /// Every creatable candidate, in priority order.
    fn all_creatable_paths(&self, fs: &FsSnapshot) -> (r: Vec<FsPath>)
        ensures
            r.deep_view() == spec_all_valid(self.spec_targets(), fs@, PathCheck::Creatable),
    ;
}

/// The judgement for one path against a snapshot, as an executable check.
fn check_path(fs: &FsSnapshot, p: &FsPath, check: PathCheck) -> (r: bool)
    ensures
        r == spec_verdict(fs@, Some(p@), check),
{
    match check {
        PathCheck::Readable => p.is_readable(fs),
        PathCheck::Writable => p.is_writable(fs),
        PathCheck::Creatable => p.is_creatable(fs),
    }
}

impl ValidPaths for Vec<FsPath> {
    open spec fn spec_targets(&self) -> Seq<Option<Seq<Seq<char>>>> {
        self@.map_values(|p: FsPath| Some(p@))
    }

    fn first_valid_path(&self, fs: &FsSnapshot, check: PathCheck) -> (r: Option<FsPath>) {
        let n = self.len();
        let ghost ts = self.spec_targets();
        let mut i: usize = 0;
        proof {
            assert(ts.subrange(0, n as int) =~= ts);
        }
        while i < n
            invariant
                n == self.len(),
                i <= n,
                ts == self.spec_targets(),
                ts.len() == n,
                spec_first_valid(ts, fs@, check) == spec_first_valid(
                    ts.subrange(i as int, n as int),
                    fs@,
                    check,
                ),
            decreases n - i,
        {
            proof {
                assert(ts.subrange(i as int, n as int)[0] == ts[i as int]);
            }
            if check_path(fs, &self[i], check) {
                return Some(self[i].clone());
            }
            proof {
                assert(ts.subrange(i as int, n as int).drop_first() =~= ts.subrange(
                    i + 1,
                    n as int,
                ));
            }
            i = i + 1;
        }
        proof {
            assert(ts.subrange(n as int, n as int) =~= Seq::<Option<Seq<Seq<char>>>>::empty());
        }
        None
    }

    fn all_valid_paths(&self, fs: &FsSnapshot, check: PathCheck) -> (r: Vec<FsPath>) {
        let n = self.len();
        let ghost ts = self.spec_targets();
        let mut out: Vec<FsPath> = Vec::new();
        let mut i: usize = 0;
        proof {
            assert(ts.subrange(0, 0) =~= Seq::<Option<Seq<Seq<char>>>>::empty());
            assert(out.deep_view() =~= spec_all_valid(ts.subrange(0, 0), fs@, check));
        }
        while i < n
            invariant
                n == self.len(),
                i <= n,
                ts == self.spec_targets(),
                ts.len() == n,
                out.deep_view() == spec_all_valid(ts.subrange(0, i as int), fs@, check),
            decreases n - i,
        {
            let ghost old_out = out.deep_view();
            proof {
                assert(ts.subrange(0, i + 1).drop_last() =~= ts.subrange(0, i as int));
                assert(ts.subrange(0, i + 1).last() == ts[i as int]);
            }
            if check_path(fs, &self[i], check) {
                out.push(self[i].clone());
                proof {
                    assert(out.deep_view() =~= old_out.push(self@[i as int]@));
                    assert(out.deep_view() =~= spec_all_valid(ts.subrange(0, i + 1), fs@, check));
                }
            } else {
                proof {
                    assert(out.deep_view() =~= spec_all_valid(ts.subrange(0, i + 1), fs@, check));
                }
            }
            i = i + 1;
        }
        proof {
            assert(ts.subrange(0, n as int) =~= ts);
        }
        out
    }

    fn first_readable_path(&self, fs: &FsSnapshot) -> (r: Option<FsPath>) {
        self.first_valid_path(fs, PathCheck::Readable)
    }

    fn first_writable_path(&self, fs: &FsSnapshot) -> (r: Option<FsPath>) {
        self.first_valid_path(fs, PathCheck::Writable)
    }

    fn first_creatable_path(&self, fs: &FsSnapshot) -> (r: Option<FsPath>) {
        self.first_valid_path(fs, PathCheck::Creatable)
    }

    fn all_readable_paths(&self, fs: &FsSnapshot) -> (r: Vec<FsPath>) {
        self.all_valid_paths(fs, PathCheck::Readable)
    }

    fn all_writable_paths(&self, fs: &FsSnapshot) -> (r: Vec<FsPath>) {
        self.all_valid_paths(fs, PathCheck::Writable)
    }

    fn all_creatable_paths(&self, fs: &FsSnapshot) -> (r: Vec<FsPath>) {
        self.all_valid_paths(fs, PathCheck::Creatable)
    }
}

impl ValidPaths for Vec<Option<FsPath>> {
    open spec fn spec_targets(&self) -> Seq<Option<Seq<Seq<char>>>> {
        self@.map_values(
            |o: Option<FsPath>|
                match o {
                    Some(p) => Some(p@),
                    None => None,
                },
        )
    }

    fn first_valid_path(&self, fs: &FsSnapshot, check: PathCheck) -> (r: Option<FsPath>) {
        let n = self.len();
        let ghost ts = self.spec_targets();
        let mut i: usize = 0;
        proof {
            assert(ts.subrange(0, n as int) =~= ts);
        }
        while i < n
            invariant
                n == self.len(),
                i <= n,
                ts == self.spec_targets(),
                ts.len() == n,
                spec_first_valid(ts, fs@, check) == spec_first_valid(
                    ts.subrange(i as int, n as int),
                    fs@,
                    check,
                ),
            decreases n - i,
        {
            proof {
                assert(ts.subrange(i as int, n as int)[0] == ts[i as int]);
            }
            match &self[i] {
                Some(p) => {
                    if check_path(fs, p, check) {
                        return Some(p.clone());
                    }
                },
                None => {},
            }
            proof {
                assert(ts.subrange(i as int, n as int).drop_first() =~= ts.subrange(
                    i + 1,
                    n as int,
                ));
            }
            i = i + 1;
        }
        proof {
            assert(ts.subrange(n as int, n as int) =~= Seq::<Option<Seq<Seq<char>>>>::empty());
        }
        None
    }

    fn all_valid_paths(&self, fs: &FsSnapshot, check: PathCheck) -> (r: Vec<FsPath>) {
        let n = self.len();
        let ghost ts = self.spec_targets();
        let mut out: Vec<FsPath> = Vec::new();
        let mut i: usize = 0;
        proof {
            assert(ts.subrange(0, 0) =~= Seq::<Option<Seq<Seq<char>>>>::empty());
            assert(out.deep_view() =~= spec_all_valid(ts.subrange(0, 0), fs@, check));
        }
        while i < n
            invariant
                n == self.len(),
                i <= n,
                ts == self.spec_targets(),
                ts.len() == n,
                out.deep_view() == spec_all_valid(ts.subrange(0, i as int), fs@, check),
            decreases n - i,
        {
            let ghost old_out = out.deep_view();
            proof {
                assert(ts.subrange(0, i + 1).drop_last() =~= ts.subrange(0, i as int));
                assert(ts.subrange(0, i + 1).last() == ts[i as int]);
            }
            let mut pushed = false;
            match &self[i] {
                Some(p) => {
                    if check_path(fs, p, check) {
                        out.push(p.clone());
                        pushed = true;
                        proof {
                            assert(out.deep_view() =~= old_out.push(ts[i as int].unwrap()));
                        }
                    }
                },
                None => {},
            }
            proof {
                if !pushed {
                    assert(out.deep_view() == old_out);
                }
                assert(out.deep_view() =~= spec_all_valid(ts.subrange(0, i + 1), fs@, check));
            }
            i = i + 1;
        }
        proof {
            assert(ts.subrange(0, n as int) =~= ts);
        }
        out
    }

    fn first_readable_path(&self, fs: &FsSnapshot) -> (r: Option<FsPath>) {
        self.first_valid_path(fs, PathCheck::Readable)
    }

    fn first_writable_path(&self, fs: &FsSnapshot) -> (r: Option<FsPath>) {
        self.first_valid_path(fs, PathCheck::Writable)
    }

    fn first_creatable_path(&self, fs: &FsSnapshot) -> (r: Option<FsPath>) {
        self.first_valid_path(fs, PathCheck::Creatable)
    }

    fn all_readable_paths(&self, fs: &FsSnapshot) -> (r: Vec<FsPath>) {
        self.all_valid_paths(fs, PathCheck::Readable)
    }

    fn all_writable_paths(&self, fs: &FsSnapshot) -> (r: Vec<FsPath>) {
        self.all_valid_paths(fs, PathCheck::Writable)
    }

    fn all_creatable_paths(&self, fs: &FsSnapshot) -> (r: Vec<FsPath>) {
        self.all_valid_paths(fs, PathCheck::Creatable)
    }
}

} // verus!

//! Live probing: asking the operating system what a snapshot should hold.
//!
//! Each probe depends on the state of the disk at the moment of the check,
//! so nothing is promised about the answers themselves; everything the
//! resolver then decides is proved over the snapshot that was recorded,
//! whatever the answers were.  Permission-check failures collapse to
//! "not permitted", never to an error.

use vstd::prelude::*;

use crate::path::FsPath;
use crate::snapshot::FsSnapshot;
use crate::text::{nul_free, spec_nul_free};

verus! {

/// Relies on `std::path::Path::exists`: whether the path refers to an
/// existing filesystem entity at the moment of the check.  A NUL-free
/// path is demanded for uniformity with the `access` checks below.
#[verifier::external_body]
fn os_path_exists(path: &str) -> bool
    requires
        spec_nul_free(path@),
{
    std::path::Path::new(path).exists()
}

/// Relies on `permissions::is_readable` (an `access` check): whether the
/// current process may read the path; a failed check counts as not
/// readable.  The check turns the path into a C string and panics on an
/// interior NUL byte, so a NUL-free path is demanded.
#[verifier::external_body]
fn os_is_readable(path: &str) -> bool
    requires
        spec_nul_free(path@),
{
    permissions::is_readable(path).unwrap_or(false)
}

/// Relies on `permissions::is_writable` (an `access` check): whether the
/// current process may write the path; a failed check counts as not
/// writable.  The check turns the path into a C string and panics on an
/// interior NUL byte, so a NUL-free path is demanded.
#[verifier::external_body]
fn os_is_writable(path: &str) -> bool
    requires
        spec_nul_free(path@),
{
    permissions::is_writable(path).unwrap_or(false)
}

/// The path is a prefix — the path itself, or an ancestor — of one of the
/// paths in `ps`.
pub open spec fn spec_prefix_of_some(p: Seq<Seq<char>>, ps: Seq<Seq<Seq<char>>>) -> bool {
    exists|k: int, m: int|
        0 <= k < ps.len() && 0 <= m <= ps[k].len() && p == ps[k].subrange(0, m)
}

/// Probes the ancestor of `paths[k]` made of its first `m` components,
/// and records what the operating system said when it existed.
fn probe_one_prefix(snapshot: &mut FsSnapshot, paths: &Vec<FsPath>, k: usize, m: usize)
    requires
        k < paths@.len(),
        m <= paths@[k as int].components@.len(),
        forall|j: int|
            0 <= j < old(snapshot)@.len() ==> spec_prefix_of_some(
                old(snapshot)@[j].path,
                paths.deep_view(),
            ),
    ensures
        forall|j: int|
            0 <= j < final(snapshot)@.len() ==> spec_prefix_of_some(
                final(snapshot)@[j].path,
                paths.deep_view(),
            ),
{
    let prefix = paths[k].prefix(m);
    let rendered = prefix.render();
    if !nul_free(rendered.as_str()) {
        // A path with a NUL character cannot exist on disk, and the
        // operating-system checks must not be handed one: nothing is
        // recorded for it.
        return ;
    }
    if os_path_exists(rendered.as_str()) {
        let readable = os_is_readable(rendered.as_str());
        let writable = os_is_writable(rendered.as_str());
        proof {
            assert(paths.deep_view()[k as int] == paths@[k as int]@);
            assert(spec_prefix_of_some(prefix@, paths.deep_view()));
        }
        snapshot.record(prefix, readable, writable);
    }
}

/// Probes every given path and each of its ancestors once, and records
/// what the operating system said into a snapshot: an entry, with its
/// readable and writable facts, for every probed prefix that existed.
/// The answers are the disk's at probe time; the snapshot only fixes them
/// so the resolver's decisions are functions of one consistent record.
pub fn probe_paths(paths: &Vec<FsPath>) -> (r: FsSnapshot)
    ensures
        forall|j: int|
            0 <= j < r@.len() ==> spec_prefix_of_some(r@[j].path, paths.deep_view()),
{
    let mut snapshot = FsSnapshot::new();
    let n = paths.len();
    let mut k: usize = 0;
    while k < n
        invariant
            n == paths.len(),
            k <= n,
            forall|j: int|
                0 <= j < snapshot@.len() ==> spec_prefix_of_some(
                    snapshot@[j].path,
                    paths.deep_view(),
                ),
        decreases n - k,
    {
        let len = paths[k].components.len();
        let mut m: usize = 0;
        while m < len
            invariant
                n == paths.len(),
                k < n,
                len == paths@[k as int].components@.len(),
                m <= len,
                forall|j: int|
                    0 <= j < snapshot@.len() ==> spec_prefix_of_some(
                        snapshot@[j].path,
                        paths.deep_view(),
                    ),
            decreases len - m,
        {
            probe_one_prefix(&mut snapshot, paths, k, m);
            m = m + 1;
        }
        probe_one_prefix(&mut snapshot, paths, k, len);
        k = k + 1;
    }
    snapshot
}

} // verus!

//! The end-to-end resolution: one effective configuration value from an
//! explicit caller value, the environment, and an ordered candidate file
//! list.
//!
//! The order is fixed at call time: the explicit value is merged first and
//! so wins over everything, then the environment, then each candidate file
//! in priority order.  A candidate that is missing or unreadable is
//! skipped; one that is readable but malformed halts resolution at that
//! point, with no later source consulted.  If, after all sources, nothing
//! was loaded, the hard default value replaces the accumulator wholesale.
//! The resolution is sequential by design: each merge depends on the
//! accumulator the previous step produced.

use vstd::prelude::*;

use crate::config::{
    spec_default_config, spec_empty_config, spec_ensure_loaded, spec_env_config, spec_merge,
    Config, ConfigV, EnvReading, EnvReadingV,
};
use crate::error::Error;
use crate::path::FsPath;
use crate::snapshot::{spec_is_writable, spec_readable_at, FsEntryV, FsSnapshot};
use crate::source::{spec_is_format_err, FileOutcome, FileOutcomeV};
use crate::verdicts::{spec_all_valid, PathCheck, Permissions, ValidPaths};

verus! {

/// The abstract value of one candidate file source.
pub ghost struct CandidateV {
    pub path: Seq<Seq<char>>,
    pub outcome: FileOutcomeV,
}

/// One candidate file source: its path, in priority position, and what
/// came of reading and decoding it.
#[derive(Debug)]
pub struct FileCandidate {
    pub path: FsPath,
    pub outcome: FileOutcome,
}

impl View for FileCandidate {
    type V = CandidateV;

    open spec fn view(&self) -> CandidateV {
        CandidateV { path: self.path@, outcome: self.outcome@ }
    }
}

impl DeepView for FileCandidate {
    type V = CandidateV;

    open spec fn deep_view(&self) -> CandidateV {
        self.view()
    }
}

/// The accumulator before any file source: the empty accumulator, the
/// explicit caller value merged first (so it wins over everything), then
/// what the environment contributes.
pub open spec fn spec_base(explicit: Option<ConfigV>, env: EnvReadingV) -> ConfigV {
    spec_merge(
        match explicit {
            Some(v) => spec_merge(spec_empty_config(), v),
            None => spec_empty_config(),
        },
        spec_env_config(env),
    )
}

/// The fold of the candidate file sources into the accumulator, in order:
/// a readable, decoded candidate merges; a missing, unreadable or
/// vanished one is skipped; the first readable but malformed candidate
/// halts the fold with its path and the decoder's diagnostic.
pub open spec fn spec_resolve_sources(
    acc: ConfigV,
    cs: Seq<CandidateV>,
    fs: Seq<FsEntryV>,
) -> Result<ConfigV, (Seq<Seq<char>>, Seq<char>)>
    decreases cs.len(),
{
    if cs.len() == 0 {
        Ok(acc)
    } else if spec_readable_at(fs, cs[0].path) {
        match cs[0].outcome {
            FileOutcomeV::Absent(_) => spec_resolve_sources(acc, cs.drop_first(), fs),
            FileOutcomeV::Decoded(v) => spec_resolve_sources(spec_merge(acc, v), cs.drop_first(), fs),
            FileOutcomeV::Malformed(m) => Err((cs[0].path, m)),
        }
    } else {
        spec_resolve_sources(acc, cs.drop_first(), fs)
    }
}

/// The candidates as an ordered target list, for filtering.
pub open spec fn spec_candidate_targets(cs: Seq<CandidateV>) -> Seq<Option<Seq<Seq<char>>>> {
    cs.map_values(|c: CandidateV| Some(c.path))
}

/// The resolution succeeded: the value is the finalized accumulator `a`,
/// and the consulted paths are exactly the readable candidates, in
/// priority order.
pub open spec fn spec_resolved_ok(
    r: Result<(Config, Vec<FsPath>), Error>,
    a: ConfigV,
    cs: Seq<CandidateV>,
    fs: Seq<FsEntryV>,
) -> bool {
    r matches Ok(pair) && pair.0@ == spec_ensure_loaded(a) && pair.1.deep_view() == spec_all_valid(
        spec_candidate_targets(cs),
        fs,
        PathCheck::Readable,
    )
}

/// Resolves one effective configuration value: the explicit value first,
/// then the environment, then each candidate file in priority order, then
/// the all-or-nothing default.  Returns the value together with the
/// candidate paths that were readable, in priority order; or the hard
/// error of the first readable but malformed candidate.
#[verifier::loop_isolation(false)]
pub fn resolve(
    explicit: Option<Config>,
    env: &EnvReading,
    candidates: Vec<FileCandidate>,
    fs: &FsSnapshot,
) -> (r: Result<(Config, Vec<FsPath>), Error>)
    ensures
        spec_resolve_sources(
            spec_base(explicit.deep_view(), env@),
            candidates.deep_view(),
            fs@,
        ) matches Ok(a) ==> spec_resolved_ok(r, a, candidates.deep_view(), fs@),
        spec_resolve_sources(
            spec_base(explicit.deep_view(), env@),
            candidates.deep_view(),
            fs@,
        ) matches Err(halt) ==> spec_is_format_err(r, halt.0, halt.1),
{
    let ghost cands_v = candidates.deep_view();
    let n = candidates.len();

    let mut acc = Config::new();
    acc.optional_config(explicit);
    acc.env(env);
    let ghost acc0 = acc@;
    proof {
        assert(acc0 == spec_base(explicit.deep_view(), env@));
    }

    let mut pathlist: Vec<FsPath> = Vec::new();
    let mut i: usize = 0;
    while i < n
        invariant
            n == candidates.len(),
            i <= n,
            pathlist@.len() == i,
            forall|j: int| 0 <= j < i ==> pathlist@[j]@ == candidates@[j].path@,
        decreases n - i,
    {
        pathlist.push(candidates[i].path.clone());
        i = i + 1;
    }
    proof {
        assert(pathlist.spec_targets() =~= spec_candidate_targets(cands_v));
    }

    let mut i: usize = 0;
    proof {
        assert(cands_v.subrange(0, n as int) =~= cands_v);
        assert(cands_v.len() == n);
    }
    while i < n
        invariant
            n == candidates.len(),
            i <= n,
            cands_v == candidates.deep_view(),
            cands_v.len() == n,
            spec_resolve_sources(acc0, cands_v, fs@) == spec_resolve_sources(
                acc@,
                cands_v.subrange(i as int, n as int),
                fs@,
            ),
        decreases n - i,
    {
        let ghost sub = cands_v.subrange(i as int, n as int);
        let ghost c = cands_v[i as int];
        let ghost acc_pre = acc@;
        proof {
            assert(sub[0] == c);
            assert(sub.drop_first() =~= cands_v.subrange(i + 1, n as int));
            assert(c.path == candidates@[i as int].path@);
        }
        let outcome = candidates[i].outcome.duplicate();
        proof {
            assert(outcome@ == c.outcome);
        }
        let res = acc.filepath(&candidates[i].path, fs, outcome);
        proof {
            assert(crate::source::spec_filepath_post(acc_pre, acc@, c.path, fs@, c.outcome, res));
        }
        match res {
            Ok(_) => {
                proof {
                    if spec_readable_at(fs@, c.path) {
                        match c.outcome {
                            FileOutcomeV::Absent(_) => {
                                assert(acc@ == acc_pre);
                            },
                            FileOutcomeV::Decoded(v) => {
                                assert(acc@ == spec_merge(acc_pre, v));
                            },
                            FileOutcomeV::Malformed(_) => {
                                assert(false);
                            },
                        }
                    } else {
                        assert(acc@ == acc_pre);
                    }
                    assert(spec_resolve_sources(acc_pre, sub, fs@) == spec_resolve_sources(
                        acc@,
                        sub.drop_first(),
                        fs@,
                    ));
                }
            },
            Err(e) => {
                proof {
                    match c.outcome {
                        FileOutcomeV::Malformed(m) => {
                            assert(spec_readable_at(fs@, c.path));
                            assert(spec_is_format_err(res, c.path, m));
                            assert(spec_resolve_sources(acc_pre, sub, fs@) == Err::<
                                ConfigV,
                                (Seq<Seq<char>>, Seq<char>),
                            >((c.path, m)));
                            assert(spec_resolve_sources(acc0, cands_v, fs@) == Err::<
                                ConfigV,
                                (Seq<Seq<char>>, Seq<char>),
                            >((c.path, m)));
                        },
                        _ => {
                            assert(false);
                        },
                    }
                }
                return Err(e);
            },
        }
        i = i + 1;
    }
    proof {
        assert(cands_v.subrange(n as int, n as int) =~= Seq::<CandidateV>::empty());
    }

    acc.ensure_loaded();
    let consulted = pathlist.all_readable_paths(fs);
    Ok((acc, consulted))
}

/// The configuration-loading core shared by the front ends: no explicit
/// value, then the environment, then the candidate files in priority
/// order, then the all-or-nothing default.  The shells parse arguments,
/// probe, read and decode files, and run the logging sinks around it.
pub fn run_gui(env: &EnvReading, candidates: Vec<FileCandidate>, fs: &FsSnapshot) -> (r: Result<
    (Config, Vec<FsPath>),
    Error,
>)
    ensures
        spec_resolve_sources(
            spec_base(None, env@),
            candidates.deep_view(),
            fs@,
        ) matches Ok(a) ==> spec_resolved_ok(r, a, candidates.deep_view(), fs@),
        spec_resolve_sources(
            spec_base(None, env@),
            candidates.deep_view(),
            fs@,
        ) matches Err(halt) ==> spec_is_format_err(r, halt.0, halt.1),
{
    resolve(None, env, candidates, fs)
}

/// Picks the directory the log files go to: the preferred directory when
/// one was configured and is writable, otherwise the given fallback.
pub fn choose_log_dirpath(preferred: Option<FsPath>, fallback: FsPath, fs: &FsSnapshot) -> (r:
    FsPath)
    ensures
        preferred matches Some(p) ==> (spec_is_writable(fs@, p@) ==> r@ == p@) && (
        !spec_is_writable(fs@, p@) ==> r@ == fallback@),
        preferred is None ==> r@ == fallback@,
{
    match preferred {
        Some(p) => {
            if p.is_writable(fs) {
                p
            } else {
                fallback
            }
        },
        None => fallback,
    }
}

/// Whether an accumulator's loaded flag agrees with its fields: built up
/// from the empty accumulator by merges alone, it is loaded exactly when
/// some field is set.
pub open spec fn spec_contribution_tracked(c: ConfigV) -> bool {
    c.loaded <==> (c.log_dirpath is Some || c.log_level_filter is Some || c.no_color is Some)
}

/// Merging preserves the agreement between the loaded flag and the fields,
/// whatever the incoming partial value is.
pub proof fn lemma_merge_tracks_contribution(acc: ConfigV, other: ConfigV)
    requires
        spec_contribution_tracked(acc),
    ensures
        spec_contribution_tracked(spec_merge(acc, other)),
{
}

/// The fold over the candidate sources preserves the agreement between the
/// loaded flag and the fields.
pub proof fn lemma_fold_tracks_contribution(acc: ConfigV, cs: Seq<CandidateV>, fs: Seq<FsEntryV>)
    requires
        spec_contribution_tracked(acc),
    ensures
        spec_resolve_sources(acc, cs, fs) matches Ok(a) ==> spec_contribution_tracked(a),
    decreases cs.len(),
{
    if cs.len() > 0 {
        if spec_readable_at(fs, cs[0].path) {
            match cs[0].outcome {
                FileOutcomeV::Absent(_) => lemma_fold_tracks_contribution(acc, cs.drop_first(), fs),
                FileOutcomeV::Decoded(v) => {
                    lemma_merge_tracks_contribution(acc, v);
                    lemma_fold_tracks_contribution(spec_merge(acc, v), cs.drop_first(), fs);
                },
                FileOutcomeV::Malformed(_) => {},
            }
        } else {
            lemma_fold_tracks_contribution(acc, cs.drop_first(), fs);
        }
    }
}

/// Defaulting is all-or-nothing: when the fold succeeds and no source
/// contributed any field, the finalized value is exactly the hard default;
/// when even one field was contributed, the accumulator is kept exactly as
/// it stands and the default is not substituted.
pub proof fn lemma_defaulting_all_or_nothing(
    explicit: Option<ConfigV>,
    env: EnvReadingV,
    cs: Seq<CandidateV>,
    fs: Seq<FsEntryV>,
)
    ensures
        spec_resolve_sources(spec_base(explicit, env), cs, fs) matches Ok(a) ==> {
            &&& (a.log_dirpath is None && a.log_level_filter is None && a.no_color is None)
                ==> spec_ensure_loaded(a) == spec_default_config()
            &&& (a.log_dirpath is Some || a.log_level_filter is Some || a.no_color is Some)
                ==> spec_ensure_loaded(a) == a
        },
{
    assert(spec_contribution_tracked(spec_empty_config()));
    match explicit {
        Some(v) => lemma_merge_tracks_contribution(spec_empty_config(), v),
        None => {},
    }
    lemma_merge_tracks_contribution(
        match explicit {
            Some(v) => spec_merge(spec_empty_config(), v),
            None => spec_empty_config(),
        },
        spec_env_config(env),
    );
    lemma_fold_tracks_contribution(spec_base(explicit, env), cs, fs);
}

/// Merging is associative: layering `b` then `c` onto an accumulator is
/// the same as layering their own combination onto it.
pub proof fn lemma_merge_associative(a: ConfigV, b: ConfigV, c: ConfigV)
    ensures
        spec_merge(spec_merge(a, b), c) == spec_merge(a, spec_merge(b, c)),
{
}

/// What the candidate file sources contribute on their own: each readable,
/// decoded candidate layered over the ones after it, so that the earlier
/// — higher-priority — candidate keeps every field it sets.
pub open spec fn spec_sources_contribution(cs: Seq<CandidateV>, fs: Seq<FsEntryV>) -> ConfigV
    decreases cs.len(),
{
    if cs.len() == 0 {
        spec_empty_config()
    } else {
        let rest = spec_sources_contribution(cs.drop_first(), fs);
        if spec_readable_at(fs, cs[0].path) {
            match cs[0].outcome {
                FileOutcomeV::Decoded(v) => spec_merge(v, rest),
                _ => rest,
            }
        } else {
            rest
        }
    }
}

/// The whole pipeline is one merge: when the fold succeeds, the resulting
/// accumulator is the starting accumulator with the candidates' combined
/// contribution layered on once.  In particular a field the starting
/// accumulator holds is never changed by any candidate, and a field it
/// lacks is taken from the highest-priority candidate that sets it.
pub proof fn lemma_resolve_combines(acc: ConfigV, cs: Seq<CandidateV>, fs: Seq<FsEntryV>)
    ensures
        spec_resolve_sources(acc, cs, fs) matches Ok(a) ==> a == spec_merge(
            acc,
            spec_sources_contribution(cs, fs),
        ),
    decreases cs.len(),
{
    if cs.len() == 0 {
        assert(spec_merge(acc, spec_empty_config()) == acc);
    } else {
        let rest = cs.drop_first();
        if spec_readable_at(fs, cs[0].path) {
            match cs[0].outcome {
                FileOutcomeV::Absent(_) => lemma_resolve_combines(acc, rest, fs),
                FileOutcomeV::Decoded(v) => {
                    lemma_resolve_combines(spec_merge(acc, v), rest, fs);
                    lemma_merge_associative(acc, v, spec_sources_contribution(rest, fs));
                },
                FileOutcomeV::Malformed(_) => {},
            }
        } else {
            lemma_resolve_combines(acc, rest, fs);
        }
    }
}

/// A malformed candidate halts resolution: when candidate `j` is readable
/// and malformed, and no earlier candidate is, the fold fails with
/// candidate `j`'s path and diagnostic, and nothing after `j` is consulted
/// — the result is the same as if the list ended at `j`.
pub proof fn lemma_malformed_halts(
    acc: ConfigV,
    cs: Seq<CandidateV>,
    fs: Seq<FsEntryV>,
    j: int,
)
    requires
        0 <= j < cs.len(),
        spec_readable_at(fs, cs[j].path),
        cs[j].outcome is Malformed,
        forall|k: int|
            0 <= k < j ==> !(spec_readable_at(fs, cs[k].path) && cs[k].outcome is Malformed),
    ensures
        spec_resolve_sources(acc, cs, fs) == spec_resolve_sources(acc, cs.subrange(0, j + 1), fs),
        spec_resolve_sources(acc, cs, fs) matches Err(halt) && halt.0 == cs[j].path,
    decreases j,
{
    if j == 0 {
        assert(cs.subrange(0, 1)[0] == cs[0]);
    } else {
        let rest = cs.drop_first();
        assert(forall|k: int|
            0 <= k < j - 1 ==> !(spec_readable_at(fs, rest[k].path) && rest[k].outcome
                is Malformed));
        assert(rest[j - 1] == cs[j]);
        if spec_readable_at(fs, cs[0].path) {
            match cs[0].outcome {
                FileOutcomeV::Absent(_) => {
                    lemma_malformed_halts(acc, rest, fs, j - 1);
                },
                FileOutcomeV::Decoded(v) => {
                    lemma_malformed_halts(spec_merge(acc, v), rest, fs, j - 1);
                },
                FileOutcomeV::Malformed(_) => {
                    assert(false);
                },
            }
        } else {
            lemma_malformed_halts(acc, rest, fs, j - 1);
        }
        assert(cs.subrange(0, j + 1).drop_first() =~= rest.subrange(0, j));
    }
}

} // verus!

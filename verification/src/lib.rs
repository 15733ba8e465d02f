//! A library for reading the declarative files of a data-pipeline repository:
//! per-artifact descriptor files, multi-stage pipeline manifests, and their
//! lock files, assembled into a queryable tree of stages and outputs.
use vstd::prelude::*;

pub mod interpolate;
pub mod pipeline;
pub mod render;
pub mod stage;
pub mod paths;
pub mod schemas;
pub mod text;
pub mod walk;
pub mod yaml;

verus! {

use vstd::string::StringExecFns;
use crate::paths::{RelPath, rel_of, relative_between, relativize_str, relative_str, parent_of,
    join_norm, lock_path_spec, normalized_of};
use crate::stage::{DVCFile, DVCFileV, dvcfiles_view};
use crate::pipeline::{PipelineFile, PipelineFileV, pipeline_files_view};
use crate::schemas::lockfile::{LockState, LockStateV};
use crate::schemas::out::{OutFile, OutFileV, out_files_view};
use crate::schemas::pipeline::{PipelineV, PipelineStageV};
use crate::walk::{Src, SrcV};
use crate::render::{expand_entries, spec_expand, expanded_stages_view, entries_templates_clean};
use crate::text::str_eq;

/// Errors surfaced while scanning or interpreting a repository tree.
pub enum DVCError {
    /// A filesystem read failed; carries a description of the cause.
    IOFailure(String),
    /// A recognized file could not be decoded; carries a description.
    DecodeFailure(String),
    /// An artifact mapping held zero keys or more than one key.
    InvalidArtifactEntry,
    /// A filesystem path could not be expressed relative to the scan root.
    BadPath,
    /// A template referenced a variable absent from its context.
    UndefinedVariable(String),
}

/// Implementation of a scanned repository tree.
pub struct DVCTree {
    pub root: String,
    pub dvcfiles: Vec<DVCFile>,
    pub pipelines: Vec<PipelineFile>,
}

/// The mathematical view of a [`DVCTree`].
pub struct DVCTreeV {
    pub root: Seq<char>,
    pub dvcfiles: Seq<DVCFileV>,
    pub pipelines: Seq<PipelineFileV>,
}

impl View for DVCTree {
    type V = DVCTreeV;

    open spec fn view(&self) -> DVCTreeV {
        DVCTreeV {
            root: self.root@,
            dvcfiles: dvcfiles_view(self.dvcfiles@),
            pipelines: pipeline_files_view(self.pipelines@),
        }
    }
}

/// A single managed output file, resolved to a repository-relative path.
///
/// Outputs include files that are merely tracked, not produced: they appear
/// among the outputs of their descriptor files.
pub struct DVCOutput {
    pub path: RelPath,
    pub cache: bool,
    pub md5: Option<String>,
    pub size: Option<usize>,
}

/// The mathematical view of a [`DVCOutput`].
pub struct DVCOutputV {
    pub path: Seq<char>,
    pub cache: bool,
    pub md5: Option<Seq<char>>,
    pub size: Option<usize>,
}

impl View for DVCOutput {
    type V = DVCOutputV;

    open spec fn view(&self) -> DVCOutputV {
        DVCOutputV {
            path: self.path@,
            cache: self.cache,
            md5: match self.md5 {
                Some(s) => Some(s@),
                None => None,
            },
            size: self.size,
        }
    }
}

/// The views of a sequence of resolved outputs.
pub open spec fn outputs_view(s: Seq<DVCOutput>) -> Seq<DVCOutputV> {
    Seq::new(s.len(), |i: int| s[i]@)
}

/// The views of a sequence of scanned (path, record) pairs.
pub open spec fn sources_view(s: Seq<(String, Src)>) -> Seq<(Seq<char>, SrcV)> {
    Seq::new(s.len(), |i: int| (s[i].0@, s[i].1@))
}

/// Every scanned path, and the root itself, can be expressed as a relative
/// path.
pub open spec fn all_paths_relative(root: Seq<char>, srcs: Seq<(Seq<char>, SrcV)>) -> bool {
    rel_of(root) is Some && (forall|i: int|
        0 <= i < srcs.len() ==> rel_of((#[trigger] srcs[i]).0) is Some)
}

/// Each scanned path re-expressed relative to the scan root.
pub open spec fn spec_rels(root: Seq<char>, srcs: Seq<(Seq<char>, SrcV)>) -> Seq<
    (Seq<char>, SrcV),
> {
    Seq::new(
        srcs.len(),
        |i: int| (relative_between(rel_of(root)->0, rel_of(srcs[i].0)->0), srcs[i].1),
    )
}

/// The descriptor files among the scan results, in scan order.
pub open spec fn spec_singles(rs: Seq<(Seq<char>, SrcV)>) -> Seq<DVCFileV>
    decreases rs,
{
    if rs.len() == 0 {
        Seq::empty()
    } else {
        let pref = spec_singles(rs.drop_last());
        match rs.last().1 {
            SrcV::Single(st) => pref.push(DVCFileV { path: rs.last().0, stage: st }),
            _ => pref,
        }
    }
}

/// The pipeline manifests among the scan results, in scan order.
pub open spec fn spec_pipes(rs: Seq<(Seq<char>, SrcV)>) -> Seq<(Seq<char>, PipelineV)>
    decreases rs,
{
    if rs.len() == 0 {
        Seq::empty()
    } else {
        let pref = spec_pipes(rs.drop_last());
        match rs.last().1 {
            SrcV::Pipe(p) => pref.push((rs.last().0, p)),
            _ => pref,
        }
    }
}

/// The lock files among the scan results, in scan order.
pub open spec fn spec_locks(rs: Seq<(Seq<char>, SrcV)>) -> Seq<(Seq<char>, LockStateV)>
    decreases rs,
{
    if rs.len() == 0 {
        Seq::empty()
    } else {
        let pref = spec_locks(rs.drop_last());
        match rs.last().1 {
            SrcV::Lock(l) => pref.push((rs.last().0, l)),
            _ => pref,
        }
    }
}

/// The lock scanned under a path; when several were, the last one scanned
/// wins.
pub open spec fn spec_find_lock(locks: Seq<(Seq<char>, LockStateV)>, p: Seq<char>) -> Option<
    LockStateV,
>
    decreases locks,
{
    if locks.len() == 0 {
        None
    } else if locks.last().0 == p {
        Some(locks.last().1)
    } else {
        spec_find_lock(locks.drop_last(), p)
    }
}

/// Each pipeline manifest paired with the lock scanned under its expected
/// lock path, when one was; a missing lock is no error.
pub open spec fn spec_pipe_files(
    pipes: Seq<(Seq<char>, PipelineV)>,
    locks: Seq<(Seq<char>, LockStateV)>,
) -> Seq<PipelineFileV> {
    Seq::new(
        pipes.len(),
        |i: int|
            PipelineFileV {
                path: pipes[i].0,
                manifest: pipes[i].1,
                lock: match lock_path_spec(pipes[i].0) {
                    Some(lp) => spec_find_lock(locks, lp),
                    None => None,
                },
            },
    )
}

/// The stored form of one scanned path: its own normalized form, never
/// absolute; and, when the root's relative form is empty, the normalized
/// original path, which joining the root back onto leaves unchanged — so
/// the stored path locates the original file.
pub open spec fn stored_path_located(root_rel: Seq<char>, orig: Seq<char>) -> bool {
    let stored = relative_between(root_rel, orig);
    normalized_of(stored) == stored && (stored.len() > 0 ==> stored[0] != '/') && (root_rel
        == Seq::<char>::empty() ==> stored == normalized_of(orig) && join_norm(root_rel, stored)
        == stored)
}

/// The tree that assembling relativized scan results yields.
pub open spec fn spec_assemble(root: Seq<char>, srcs: Seq<(Seq<char>, SrcV)>) -> DVCTreeV {
    let rs = spec_rels(root, srcs);
    DVCTreeV {
        root: root,
        dvcfiles: spec_singles(rs),
        pipelines: spec_pipe_files(spec_pipes(rs), spec_locks(rs)),
    }
}

/// Law: the lock found under a path is present exactly when some scanned
/// lock carries that path, and it then equals one such lock's parsed
/// content.
pub proof fn lemma_find_lock_characterized(locks: Seq<(Seq<char>, LockStateV)>, p: Seq<char>)
    ensures
        spec_find_lock(locks, p) is Some <==> exists|j: int|
            0 <= j < locks.len() && (#[trigger] locks[j]).0 == p,
        spec_find_lock(locks, p) matches Some(l) ==> exists|j: int|
            0 <= j < locks.len() && #[trigger] locks[j] == (p, l),
    decreases locks,
{
    if locks.len() > 0 {
        if locks.last().0 == p {
            assert(locks[locks.len() - 1].0 == p);
        } else {
            lemma_find_lock_characterized(locks.drop_last(), p);
            let t = locks.drop_last();
            if spec_find_lock(locks, p) is Some {
                let l = spec_find_lock(t, p)->0;
                let j = choose|j: int| 0 <= j < t.len() && #[trigger] t[j] == (p, l);
                assert(locks[j] == t[j]);
            }
            if exists|j: int| 0 <= j < locks.len() && (#[trigger] locks[j]).0 == p {
                let j = choose|j: int| 0 <= j < locks.len() && (#[trigger] locks[j]).0 == p;
                assert(j < locks.len() - 1);
                assert(t[j].0 == p);
            }
        }
    }
}

/// The views of the held lock list.
pub open spec fn lock_pairs_view(s: Seq<(RelPath, LockState)>) -> Seq<(Seq<char>, LockStateV)> {
    Seq::new(s.len(), |i: int| (s[i].0@, s[i].1@))
}

/// The path/manifest pairs of pipeline files not yet carrying a lock.
pub open spec fn pipe_pairs_view(s: Seq<PipelineFile>) -> Seq<(Seq<char>, PipelineV)> {
    Seq::new(s.len(), |i: int| (s[i].path@, s[i].manifest@))
}

/// Find the lock scanned under a path, scanning from the most recent one
/// back, and hand out a copy of it.
fn find_lock(locks: &Vec<(RelPath, LockState)>, p: &RelPath) -> (r: Option<LockState>)
    ensures
        r is Some <==> spec_find_lock(lock_pairs_view(locks@), p@) is Some,
        r matches Some(l) ==> Some(l@) == spec_find_lock(lock_pairs_view(locks@), p@),
{
    let ghost lv = lock_pairs_view(locks@);
    let n = locks.len();
    let mut i: usize = n;
    proof {
        assert(lv.take(n as int) =~= lv);
    }
    while i > 0
        invariant
            n == locks@.len(),
            i <= n,
            lv == lock_pairs_view(locks@),
            lv.len() == n,
            spec_find_lock(lv, p@) == spec_find_lock(lv.take(i as int), p@),
        decreases i,
    {
        i = i - 1;
        proof {
            assert(lv.take(i + 1).drop_last() =~= lv.take(i as int));
            assert(lv.take(i + 1).last() == lv[i as int]);
        }
        if str_eq(locks[i].0.as_str(), p.as_str()) {
            return Some(locks[i].1.clone());
        }
    }
    proof {
        assert(lv.take(0) =~= Seq::<(Seq<char>, LockStateV)>::empty());
    }
    None
}

impl DVCTree {
    /// Assemble a tree from scan results: express every scanned path
    /// relative to the scan root, partition the parsed records, and attach
    /// to each pipeline manifest the lock scanned under its expected lock
    /// path, when one was. A path that cannot be made relative fails the
    /// whole assembly; a missing lock file does not.
    pub fn assemble(root: &str, sources: Vec<(String, Src)>) -> (r: Result<DVCTree, DVCError>)
        ensures
            r is Ok <==> all_paths_relative(root@, sources_view(sources@)),
            r matches Ok(t) ==> t@ == spec_assemble(root@, sources_view(sources@)),
            r is Ok ==> forall|j: int|
                0 <= j < sources_view(sources@).len() ==> stored_path_located(
                    rel_of(root@)->0,
                    rel_of((#[trigger] sources_view(sources@)[j]).0)->0,
                ),
            r matches Err(e) ==> e is BadPath,
    {
        let ghost sv = sources_view(sources@);
        let ghost rl = spec_rels(root@, sv);
        let root_rel: String = match relativize_str(root) {
            Some(s) => s,
            None => {
                return Err(DVCError::BadPath);
            },
        };
        let mut dvcfiles: Vec<DVCFile> = Vec::new();
        let mut pipelines: Vec<PipelineFile> = Vec::new();
        let mut lockfiles: Vec<(RelPath, LockState)> = Vec::new();
        let mut rest = sources;
        let ghost mut i: int = 0;
        proof {
            assert(rl.take(0) =~= Seq::<(Seq<char>, SrcV)>::empty());
            assert(dvcfiles_view(dvcfiles@) =~= Seq::<DVCFileV>::empty());
            assert(pipe_pairs_view(pipelines@) =~= Seq::<(Seq<char>, PipelineV)>::empty());
            assert(lock_pairs_view(lockfiles@) =~= Seq::<(Seq<char>, LockStateV)>::empty());
        }
        while rest.len() > 0
            invariant
                0 <= i,
                sv == sources_view(sources@),
                i + rest@.len() == sv.len(),
                rel_of(root@) is Some,
                root_rel@ == rel_of(root@)->0,
                rl == spec_rels(root@, sv),
                rl.len() == sv.len(),
                forall|k: int|
                    0 <= k < rest@.len() ==> ((#[trigger] rest@[k]).0@, rest@[k].1@) == sv[i + k],
                forall|j: int| 0 <= j < i ==> rel_of((#[trigger] sv[j]).0) is Some,
                forall|j: int|
                    0 <= j < i ==> stored_path_located(
                        rel_of(root@)->0,
                        rel_of((#[trigger] sv[j]).0)->0,
                    ),
                dvcfiles_view(dvcfiles@) == spec_singles(rl.take(i)),
                pipe_pairs_view(pipelines@) == spec_pipes(rl.take(i)),
                forall|k: int|
                    0 <= k < pipelines@.len() ==> (#[trigger] pipelines@[k].lock) is None,
                lock_pairs_view(lockfiles@) == spec_locks(rl.take(i)),
            decreases rest@.len(),
        {
            let ghost old_rest = rest@;
            proof {
                assert(0 <= i < sv.len());
            }
            let (sfp, src) = rest.remove(0);
            let ghost srcv = src@;
            proof {
                assert(old_rest[0] == (sfp, src));
                assert(rest@ =~= old_rest.skip(1));
                assert((sfp@, srcv) == sv[i]);
                assert(rl[i] == (
                    relative_between(rel_of(root@)->0, rel_of(sv[i].0)->0),
                    sv[i].1,
                ));
                assert(rl.take(i + 1).drop_last() =~= rl.take(i));
                assert(rl.take(i + 1).last() == rl[i]);
            }
            let p_r: String = match relativize_str(sfp.as_str()) {
                Some(s) => s,
                None => {
                    proof {
                        assert(rel_of(sv[i].0) is None);
                    }
                    return Err(DVCError::BadPath);
                },
            };
            let rel = relative_str(root_rel.as_str(), p_r.as_str());
            proof {
                assert(stored_path_located(rel_of(root@)->0, rel_of(sv[i].0)->0));
            }
            match src {
                Src::Single(stage) => {
                    let ghost prev = dvcfiles@;
                    dvcfiles.push(DVCFile { path: RelPath::new(rel), stage });
                    proof {
                        assert(dvcfiles_view(dvcfiles@) =~= dvcfiles_view(prev).push(
                            DVCFileV { path: rl[i].0, stage: srcv->Single_0 },
                        ));
                    }
                },
                Src::Pipe(manifest) => {
                    let ghost prev = pipelines@;
                    pipelines.push(PipelineFile { path: RelPath::new(rel), manifest, lock: None });
                    proof {
                        assert(pipe_pairs_view(pipelines@) =~= pipe_pairs_view(prev).push(
                            (rl[i].0, srcv->Pipe_0),
                        ));
                    }
                },
                Src::Lock(lf) => {
                    let ghost prev = lockfiles@;
                    lockfiles.push((RelPath::new(rel), lf));
                    proof {
                        assert(lock_pairs_view(lockfiles@) =~= lock_pairs_view(prev).push(
                            (rl[i].0, srcv->Lock_0),
                        ));
                    }
                },
            }
            proof {
                i = i + 1;
            }
        }
        proof {
            assert(rl.take(i) =~= rl);
        }
        let ghost pipes_v = spec_pipes(rl);
        let ghost locks_v = spec_locks(rl);
        let mut with_locks: Vec<PipelineFile> = Vec::new();
        let mut rest_p = pipelines;
        let ghost mut k: int = 0;
        proof {
            assert(pipeline_files_view(with_locks@) =~= Seq::<PipelineFileV>::empty());
            assert(spec_pipe_files(pipes_v, locks_v).take(0) =~= Seq::<PipelineFileV>::empty());
        }
        while rest_p.len() > 0
            invariant
                0 <= k,
                k + rest_p@.len() == pipes_v.len(),
                locks_v == lock_pairs_view(lockfiles@),
                forall|j: int|
                    0 <= j < rest_p@.len() ==> ((#[trigger] rest_p@[j]).path@,
                    rest_p@[j].manifest@) == pipes_v[k + j] && rest_p@[j].lock is None,
                pipeline_files_view(with_locks@) == spec_pipe_files(pipes_v, locks_v).take(k),
            decreases rest_p@.len(),
        {
            let ghost old_rest = rest_p@;
            let pf = rest_p.remove(0);
            proof {
                assert(old_rest[0] == pf);
                assert(rest_p@ =~= old_rest.skip(1));
                assert((pf.path@, pf.manifest@) == pipes_v[k]);
            }
            let lock: Option<LockState> = match pf.path.expected_lock_path() {
                Some(lp) => find_lock(&lockfiles, &lp),
                None => None,
            };
            let ghost prev = with_locks@;
            with_locks.push(PipelineFile { path: pf.path, manifest: pf.manifest, lock });
            proof {
                assert(spec_pipe_files(pipes_v, locks_v)[k] == (PipelineFileV {
                    path: pipes_v[k].0,
                    manifest: pipes_v[k].1,
                    lock: match lock_path_spec(pipes_v[k].0) {
                        Some(lp) => spec_find_lock(locks_v, lp),
                        None => None,
                    },
                }));
                assert(pipeline_files_view(with_locks@) =~= pipeline_files_view(prev).push(
                    spec_pipe_files(pipes_v, locks_v)[k],
                ));
                assert(spec_pipe_files(pipes_v, locks_v).take(k + 1) =~= spec_pipe_files(
                    pipes_v,
                    locks_v,
                ).take(k).push(spec_pipe_files(pipes_v, locks_v)[k]));
            }
            proof {
                k = k + 1;
            }
        }
        proof {
            assert(spec_pipe_files(pipes_v, locks_v).take(k) =~= spec_pipe_files(
                pipes_v,
                locks_v,
            ));
        }
        let tree = DVCTree { root: String::from_str(root), dvcfiles, pipelines: with_locks };
        proof {
            assert(tree@ == spec_assemble(root@, sv));
        }
        Ok(tree)
    }
}

/// The directory a record's relative paths hang from: the path without its
/// final component, or the current directory for a path without one.
pub open spec fn base_dir(p: Seq<char>) -> Seq<char> {
    match parent_of(p) {
        Some(q) => q,
        None => "."@,
    }
}

/// One declared output resolved under a working directory. The size is
/// left unset: it is not computed by this layer.
pub open spec fn out_record(wdir: Seq<char>, o: OutFileV) -> DVCOutputV {
    DVCOutputV { path: join_norm(wdir, o.path), cache: o.cache, md5: o.md5, size: None }
}

/// A whole output list resolved under a working directory, in order.
pub open spec fn outs_under(wdir: Seq<char>, outs: Seq<OutFileV>) -> Seq<DVCOutputV> {
    Seq::new(outs.len(), |i: int| out_record(wdir, outs[i]))
}

/// The effective working directory of a descriptor file: its own `wdir`,
/// if declared, joined onto the directory the file sits in.
pub open spec fn spec_file_wdir(f: DVCFileV) -> Seq<char> {
    match f.stage.wdir {
        Some(d) => join_norm(base_dir(f.path), d),
        None => base_dir(f.path),
    }
}

/// The resolved outputs a descriptor file declares.
pub open spec fn dvcfile_outputs(f: DVCFileV) -> Seq<DVCOutputV> {
    outs_under(spec_file_wdir(f), f.stage.outs)
}

/// The resolved outputs of all descriptor files, in scan order.
pub open spec fn singles_outputs(fs: Seq<DVCFileV>) -> Seq<DVCOutputV>
    decreases fs,
{
    if fs.len() == 0 {
        Seq::empty()
    } else {
        singles_outputs(fs.drop_last()) + dvcfile_outputs(fs.last())
    }
}

/// The effective working directory of an expanded stage: its own `wdir`,
/// if declared, joined onto the pipeline's directory.
pub open spec fn spec_stage_wdir(pipedir: Seq<char>, st: PipelineStageV) -> Seq<char> {
    match st.wdir {
        Some(d) => join_norm(pipedir, d),
        None => pipedir,
    }
}

/// The resolved outputs one expanded stage declares.
pub open spec fn stage_outputs(pipedir: Seq<char>, st: PipelineStageV) -> Seq<DVCOutputV> {
    outs_under(spec_stage_wdir(pipedir, st), st.outs)
}

/// The resolved outputs of all expanded stages of one pipeline, in
/// expansion order.
pub open spec fn stages_outputs(
    pipedir: Seq<char>,
    stages: Seq<(Seq<char>, PipelineStageV)>,
) -> Seq<DVCOutputV>
    decreases stages,
{
    if stages.len() == 0 {
        Seq::empty()
    } else {
        stages_outputs(pipedir, stages.drop_last()) + stage_outputs(pipedir, stages.last().1)
    }
}

/// The resolved outputs one pipeline manifest declares: its stages are
/// expanded first, and an expansion failure fails the whole resolution.
pub open spec fn pipeline_outputs(pf: PipelineFileV) -> Option<Seq<DVCOutputV>> {
    match spec_expand(pf.manifest.stages) {
        Some(stages) => Some(stages_outputs(base_dir(pf.path), stages)),
        None => None,
    }
}

/// The resolved outputs of all pipeline manifests, in scan order.
pub open spec fn pipelines_outputs(ps: Seq<PipelineFileV>) -> Option<Seq<DVCOutputV>>
    decreases ps,
{
    if ps.len() == 0 {
        Some(Seq::empty())
    } else {
        match pipelines_outputs(ps.drop_last()) {
            Some(acc) => match pipeline_outputs(ps.last()) {
                Some(po) => Some(acc + po),
                None => None,
            },
            None => None,
        }
    }
}

/// Every output the tree declares, resolved to a root-relative path:
/// descriptor files first, then the pipelines, each in scan order. An
/// expansion failure yields nothing: no partial list.
pub open spec fn spec_outputs(t: DVCTreeV) -> Option<Seq<DVCOutputV>> {
    match pipelines_outputs(t.pipelines) {
        Some(po) => Some(singles_outputs(t.dvcfiles) + po),
        None => None,
    }
}

/// Every templated string of a pipeline manifest has only ASCII
/// whitespace at its placeholder edges.
pub open spec fn pipe_templates_clean(pf: PipelineFileV) -> bool {
    entries_templates_clean(pf.manifest.stages)
}

/// Every templated string of every pipeline of the tree has only ASCII
/// whitespace at its placeholder edges.
pub open spec fn tree_templates_clean(t: DVCTreeV) -> bool {
    forall|i: int| 0 <= i < t.pipelines.len() ==> pipe_templates_clean(#[trigger] t.pipelines[i])
}

/// Once one pipeline of the list fails to expand, the whole resolution
/// fails.
proof fn lemma_pipes_prefix_none(ps: Seq<PipelineFileV>, j: int)
    requires
        0 <= j <= ps.len(),
        pipelines_outputs(ps.take(j)) is None,
    ensures
        pipelines_outputs(ps) is None,
    decreases ps.len(),
{
    if j < ps.len() {
        assert(ps.drop_last().take(j) =~= ps.take(j));
        lemma_pipes_prefix_none(ps.drop_last(), j);
    } else {
        assert(ps.take(j) =~= ps);
    }
}

/// Resolve a whole output list under a working directory and append the
/// records.
fn push_outputs(outs: &mut Vec<DVCOutput>, wdir: &RelPath, arts: &Vec<OutFile>)
    ensures
        outputs_view(final(outs)@) == outputs_view(old(outs)@) + outs_under(
            wdir@,
            out_files_view(arts@),
        ),
{
    let ghost base0 = outputs_view(outs@);
    let ghost av = out_files_view(arts@);
    proof {
        assert(outs_under(wdir@, av).take(0) =~= Seq::<DVCOutputV>::empty());
        assert(base0 + outs_under(wdir@, av).take(0) =~= base0);
    }
    let n = arts.len();
    let mut j: usize = 0;
    while j < n
        invariant
            n == arts@.len(),
            j <= n,
            av == out_files_view(arts@),
            av.len() == n,
            base0 == outputs_view(old(outs)@),
            outputs_view(outs@) == base0 + outs_under(wdir@, av).take(j as int),
        decreases n - j,
    {
        let o = &arts[j];
        let ghost prev = outs@;
        outs.push(
            DVCOutput {
                path: wdir.join_normalized(o.path.as_str()),
                cache: o.cache,
                md5: match &o.md5 {
                    Some(s) => Some(s.clone()),
                    None => None,
                },
                size: None,
            },
        );
        proof {
            assert(av[j as int] == arts@[j as int]@);
            assert(outputs_view(outs@) =~= outputs_view(prev).push(
                out_record(wdir@, av[j as int]),
            ));
            assert(base0 + outs_under(wdir@, av).take(j + 1) =~= (base0 + outs_under(
                wdir@,
                av,
            ).take(j as int)).push(out_record(wdir@, av[j as int])));
        }
        j = j + 1;
    }
    proof {
        assert(outs_under(wdir@, av).take(n as int) =~= outs_under(wdir@, av));
    }
}

impl DVCTree {
    /// Extract every managed output of the tree, resolved relative to the
    /// scan root: the descriptor files' outputs first, then each
    /// pipeline's, with stage expansion run first; an undefined template
    /// variable fails the whole resolution with no partial list.
    pub fn outputs(&self) -> (r: Result<Vec<DVCOutput>, DVCError>)
        ensures
            r is Ok <==> spec_outputs(self@) is Some,
            r matches Ok(v) ==> Some(outputs_view(v@)) == spec_outputs(self@),
            r matches Err(e) ==> (e is UndefinedVariable || e is DecodeFailure) && (
            tree_templates_clean(self@) ==> e is UndefinedVariable),
    {
        let ghost dv = dvcfiles_view(self.dvcfiles@);
        let mut outs: Vec<DVCOutput> = Vec::new();
        proof {
            assert(dv.take(0) =~= Seq::<DVCFileV>::empty());
            assert(outputs_view(outs@) =~= Seq::<DVCOutputV>::empty());
        }
        let n = self.dvcfiles.len();
        let mut i: usize = 0;
        while i < n
            invariant
                n == self.dvcfiles@.len(),
                i <= n,
                dv == dvcfiles_view(self.dvcfiles@),
                dv.len() == n,
                outputs_view(outs@) == singles_outputs(dv.take(i as int)),
            decreases n - i,
        {
            proof {
                assert(dv[i as int] == self.dvcfiles@[i as int]@);
                assert(dv.take(i + 1).drop_last() =~= dv.take(i as int));
                assert(dv.take(i + 1).last() == dv[i as int]);
            }
            let file = &self.dvcfiles[i];
            let base: RelPath = match file.path.parent() {
                Some(p) => p,
                None => RelPath::new(String::from_str(".")),
            };
            proof {
                assert(base@ == base_dir(dv[i as int].path));
            }
            let wdir: RelPath = match &file.stage.wdir {
                Some(d) => base.join_normalized(d.as_str()),
                None => base,
            };
            proof {
                assert(wdir@ == spec_file_wdir(dv[i as int]));
            }
            push_outputs(&mut outs, &wdir, &file.stage.outs);
            i = i + 1;
        }
        proof {
            assert(dv.take(n as int) =~= dv);
        }
        let ghost singles_total = outputs_view(outs@);
        let ghost pv = pipeline_files_view(self.pipelines@);
        let ghost mut pipe_acc: Seq<DVCOutputV> = Seq::empty();
        proof {
            assert(pv.take(0) =~= Seq::<PipelineFileV>::empty());
            assert(pipelines_outputs(pv.take(0)) == Some(pipe_acc));
            assert(outputs_view(outs@) =~= singles_total + pipe_acc);
        }
        let m = self.pipelines.len();
        let mut t: usize = 0;
        while t < m
            invariant
                m == self.pipelines@.len(),
                t <= m,
                dv == dvcfiles_view(self.dvcfiles@),
                pv == pipeline_files_view(self.pipelines@),
                pv.len() == m,
                singles_total == singles_outputs(dv),
                pipelines_outputs(pv.take(t as int)) == Some(pipe_acc),
                outputs_view(outs@) == singles_total + pipe_acc,
            decreases m - t,
        {
            proof {
                assert(pv[t as int] == self.pipelines@[t as int]@);
                assert(pv.take(t + 1).drop_last() =~= pv.take(t as int));
                assert(pv.take(t + 1).last() == pv[t as int]);
            }
            let pipe = &self.pipelines[t];
            let stages = match expand_entries(&pipe.manifest.stages) {
                Ok(v) => v,
                Err(e) => {
                    proof {
                        assert(tree_templates_clean(self@) ==> entries_templates_clean(
                            pv[t as int].manifest.stages,
                        )) by {
                            if tree_templates_clean(self@) {
                                assert(pipe_templates_clean(self@.pipelines[t as int]));
                            }
                        }
                        assert(spec_expand(pv[t as int].manifest.stages) is None);
                        assert(pipelines_outputs(pv.take(t + 1)) is None);
                        lemma_pipes_prefix_none(pv, t + 1);
                    }
                    return Err(e);
                },
            };
            let ghost sgv = expanded_stages_view(stages@);
            let pipedir: RelPath = match pipe.path.parent() {
                Some(p) => p,
                None => RelPath::new(String::from_str(".")),
            };
            proof {
                assert(pipedir@ == base_dir(pv[t as int].path));
            }
            let ghost mut stage_acc: Seq<DVCOutputV> = Seq::empty();
            proof {
                assert(sgv.take(0) =~= Seq::<(Seq<char>, PipelineStageV)>::empty());
                assert(stages_outputs(pipedir@, sgv.take(0)) =~= Seq::<DVCOutputV>::empty());
                assert(outputs_view(outs@) =~= singles_total + pipe_acc + stage_acc);
            }
            let sn = stages.len();
            let mut u: usize = 0;
            while u < sn
                invariant
                    sn == stages@.len(),
                    u <= sn,
                    sgv == expanded_stages_view(stages@),
                    sgv.len() == sn,
                    stage_acc == stages_outputs(pipedir@, sgv.take(u as int)),
                    outputs_view(outs@) == singles_total + pipe_acc + stage_acc,
                decreases sn - u,
            {
                proof {
                    assert(sgv[u as int] == (stages@[u as int].0@, stages@[u as int].1@));
                    assert(sgv.take(u + 1).drop_last() =~= sgv.take(u as int));
                    assert(sgv.take(u + 1).last() == sgv[u as int]);
                }
                let st = &stages[u].1;
                let wdir: RelPath = match &st.wdir {
                    Some(d) => pipedir.join_normalized(d.as_str()),
                    None => pipedir.clone(),
                };
                proof {
                    assert(wdir@ == spec_stage_wdir(pipedir@, sgv[u as int].1));
                }
                push_outputs(&mut outs, &wdir, &st.outs);
                proof {
                    stage_acc = stages_outputs(pipedir@, sgv.take(u + 1));
                    assert(outputs_view(outs@) =~= singles_total + pipe_acc + stage_acc);
                }
                u = u + 1;
            }
            proof {
                assert(sgv.take(sn as int) =~= sgv);
                assert(stage_acc == stages_outputs(pipedir@, sgv));
                pipe_acc = pipe_acc + stage_acc;
                assert(pipelines_outputs(pv.take(t + 1)) == Some(pipe_acc));
                assert(outputs_view(outs@) =~= singles_total + pipe_acc);
            }
            t = t + 1;
        }
        proof {
            assert(pv.take(m as int) =~= pv);
        }
        Ok(outs)
    }
}

} // verus!

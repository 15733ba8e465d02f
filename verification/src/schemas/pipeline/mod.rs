//! Schema of a multi-stage pipeline manifest.
//!
//! A manifest maps stage names to entries. An entry is probed structurally:
//! a mapping with a `foreach` key is a repeated stage (a list of labels and
//! one templated definition under `do`); any other mapping is a plain stage
//! definition.
//!
//! Stage names are unique within one parsed manifest, because the YAML
//! parser rejects a mapping that writes the same key twice; last-write-wins
//! applies only to the keys that stage expansion builds (see the rendering
//! module).
use vstd::prelude::*;
use vstd::string::StringExecFns;
use crate::DVCError;
use crate::interpolate::{InterpContext, spec_render};
use crate::yaml::{Yaml, YamlV, dict_get, dict_lookup, yaml_dict_view, yaml_list_view, yaml_view,
    lemma_yaml_dict_view, lemma_yaml_list_view};
use super::{DecErr, err_matches};
use super::out::{OutFile, OutFileV, out_files_view, clone_out_vec, spec_interp_out,
    out_paths_clean};
use super::dep::{DepFile, DepFileV, dep_files_view, clone_dep_vec, spec_interp_dep,
    dep_paths_clean};

pub mod filelist;

use filelist::{spec_out_list, decode_out_list, spec_dep_list, decode_dep_list};

verus! {

/// The views of a sequence of strings.
pub open spec fn strings_view(s: Seq<String>) -> Seq<Seq<char>> {
    Seq::new(s.len(), |i: int| s[i]@)
}

/// One concrete stage of a pipeline: a command, an optional working
/// directory, and its dependency, output and metric artifacts.
pub struct PipelineStage {
    pub cmd: String,
    pub wdir: Option<String>,
    pub deps: Vec<DepFile>,
    pub outs: Vec<OutFile>,
    pub metrics: Vec<OutFile>,
}

/// The mathematical view of a [`PipelineStage`].
pub struct PipelineStageV {
    pub cmd: Seq<char>,
    pub wdir: Option<Seq<char>>,
    pub deps: Seq<DepFileV>,
    pub outs: Seq<OutFileV>,
    pub metrics: Seq<OutFileV>,
}

impl View for PipelineStage {
    type V = PipelineStageV;

    open spec fn view(&self) -> PipelineStageV {
        PipelineStageV {
            cmd: self.cmd@,
            wdir: match self.wdir {
                Some(s) => Some(s@),
                None => None,
            },
            deps: dep_files_view(self.deps@),
            outs: out_files_view(self.outs@),
            metrics: out_files_view(self.metrics@),
        }
    }
}

impl Clone for PipelineStage {
    fn clone(&self) -> (r: Self)
        ensures
            r@ == self@,
    {
        PipelineStage {
            cmd: self.cmd.clone(),
            wdir: match &self.wdir {
                Some(s) => Some(s.clone()),
                None => None,
            },
            deps: clone_dep_vec(&self.deps),
            outs: clone_out_vec(&self.outs),
            metrics: clone_out_vec(&self.metrics),
        }
    }
}

/// One entry of the stage mapping: a plain stage, or a repeated stage
/// instantiated once per label.
pub enum StageEntry {
    /// A single concrete stage definition.
    SingleStage(PipelineStage),
    /// A repeated stage: labels and a templated definition.
    MultiStage { foreach: Vec<String>, stage: PipelineStage },
}

/// The mathematical view of a [`StageEntry`].
pub enum StageEntryV {
    SingleStage(PipelineStageV),
    MultiStage { foreach: Seq<Seq<char>>, stage: PipelineStageV },
}

impl View for StageEntry {
    type V = StageEntryV;

    open spec fn view(&self) -> StageEntryV {
        match self {
            StageEntry::SingleStage(st) => StageEntryV::SingleStage(st@),
            StageEntry::MultiStage { foreach, stage } => StageEntryV::MultiStage {
                foreach: strings_view(foreach@),
                stage: stage@,
            },
        }
    }
}

/// The views of a sequence of named stage entries.
pub open spec fn stage_entries_view(s: Seq<(String, StageEntry)>) -> Seq<(Seq<char>, StageEntryV)> {
    Seq::new(s.len(), |i: int| (s[i].0@, s[i].1@))
}

/// Representation of a pipeline manifest: its named stage entries, in
/// document order.
pub struct Pipeline {
    pub stages: Vec<(String, StageEntry)>,
}

/// The mathematical view of a [`Pipeline`].
pub struct PipelineV {
    pub stages: Seq<(Seq<char>, StageEntryV)>,
}

impl View for Pipeline {
    type V = PipelineV;

    open spec fn view(&self) -> PipelineV {
        PipelineV { stages: stage_entries_view(self.stages@) }
    }
}

/// What a list of labels decodes to: each entry a string, in order.
pub open spec fn spec_labels(items: Seq<YamlV>) -> Result<Seq<Seq<char>>, DecErr>
    decreases items,
{
    if items.len() == 0 {
        Ok(Seq::empty())
    } else {
        match spec_labels(items.drop_last()) {
            Ok(pref) => match items.last() {
                YamlV::Str(s) => Ok(pref.push(s)),
                _ => Err(DecErr::Structure),
            },
            Err(e) => Err(e),
        }
    }
}

/// Once a prefix of the label list fails to decode, the whole list fails
/// the same way.
proof fn lemma_labels_prefix_err(items: Seq<YamlV>, j: int)
    requires
        0 <= j <= items.len(),
        spec_labels(items.take(j)) is Err,
    ensures
        spec_labels(items) == spec_labels(items.take(j)),
    decreases items.len(),
{
    if j < items.len() {
        assert(items.drop_last().take(j) =~= items.take(j));
        lemma_labels_prefix_err(items.drop_last(), j);
    } else {
        assert(items.take(j) =~= items);
    }
}

/// Decode a list of labels.
pub fn decode_labels(items: &Vec<Yaml>) -> (r: Result<Vec<String>, DVCError>)
    ensures
        r is Ok <==> spec_labels(yaml_list_view(items@)) is Ok,
        r matches Ok(v) ==> Ok::<Seq<Seq<char>>, DecErr>(strings_view(v@)) == spec_labels(
            yaml_list_view(items@),
        ),
        r matches Err(e) ==> err_matches(e, spec_labels(yaml_list_view(items@))->Err_0),
{
    let ghost lv = yaml_list_view(items@);
    proof {
        lemma_yaml_list_view(items@);
        assert(lv.take(0) =~= Seq::<YamlV>::empty());
    }
    let mut labels: Vec<String> = Vec::new();
    proof {
        assert(strings_view(labels@) =~= Seq::<Seq<char>>::empty());
    }
    let n = items.len();
    let mut i: usize = 0;
    while i < n
        invariant
            n == items@.len(),
            i <= n,
            lv == yaml_list_view(items@),
            lv.len() == n,
            forall|k: int| 0 <= k < n ==> lv[k] == yaml_view(items@[k]),
            spec_labels(lv.take(i as int)) == Ok::<Seq<Seq<char>>, DecErr>(strings_view(labels@)),
        decreases n - i,
    {
        proof {
            assert(lv.take(i + 1).drop_last() =~= lv.take(i as int));
            assert(lv.take(i + 1).last() == lv[i as int]);
        }
        match &items[i] {
            Yaml::Str(s) => {
                let ghost prev = labels@;
                labels.push(s.clone());
                proof {
                    assert(strings_view(labels@) =~= strings_view(prev).push(s@));
                }
            },
            _ => {
                proof {
                    assert(!(yaml_view(items@[i as int]) is Str));
                    lemma_labels_prefix_err(lv, i + 1);
                }
                return Err(DVCError::DecodeFailure(String::from_str("a label must be a string")));
            },
        }
        i = i + 1;
    }
    proof {
        assert(lv.take(n as int) =~= lv);
    }
    Ok(labels)
}

/// What one stage definition decodes to: a mapping with a required `cmd`
/// string, an optional `wdir` string, and optional `deps`, `outs` and
/// `metrics` artifact lists, any other key ignored.
pub open spec fn spec_pipeline_stage(yv: YamlV) -> Result<PipelineStageV, DecErr> {
    match yv {
        YamlV::Dict(entries) => {
            let c = dict_get(entries, "cmd"@);
            let w = dict_get(entries, "wdir"@);
            if !(match c {
                Some(y) => y is Str,
                None => false,
            }) || (match w {
                Some(y) => !(y is Str),
                None => false,
            }) {
                Err(DecErr::Structure)
            } else {
                let deps_r = match dict_get(entries, "deps"@) {
                    Some(y) => match y {
                        YamlV::List(items) => spec_dep_list(items),
                        _ => Err(DecErr::Structure),
                    },
                    None => Ok(Seq::empty()),
                };
                let outs_r = match dict_get(entries, "outs"@) {
                    Some(y) => match y {
                        YamlV::List(items) => spec_out_list(items),
                        _ => Err(DecErr::Structure),
                    },
                    None => Ok(Seq::empty()),
                };
                let mets_r = match dict_get(entries, "metrics"@) {
                    Some(y) => match y {
                        YamlV::List(items) => spec_out_list(items),
                        _ => Err(DecErr::Structure),
                    },
                    None => Ok(Seq::empty()),
                };
                match (deps_r, outs_r, mets_r) {
                    (Ok(deps), Ok(outs), Ok(metrics)) => Ok(
                        PipelineStageV {
                            cmd: c->Some_0->Str_0,
                            wdir: match w {
                                Some(y) => Some(y->Str_0),
                                None => None,
                            },
                            deps,
                            outs,
                            metrics,
                        },
                    ),
                    (Err(e), _, _) => Err(e),
                    (_, Err(e), _) => Err(e),
                    (_, _, Err(e)) => Err(e),
                }
            }
        },
        _ => Err(DecErr::Structure),
    }
}

/// Decode one stage definition from its parsed node.
pub fn decode_pipeline_stage(y: &Yaml) -> (r: Result<PipelineStage, DVCError>)
    ensures
        r is Ok <==> spec_pipeline_stage(y@) is Ok,
        r matches Ok(s) ==> Ok::<PipelineStageV, DecErr>(s@) == spec_pipeline_stage(y@),
        r matches Err(e) ==> err_matches(e, spec_pipeline_stage(y@)->Err_0),
{
    let entries = match y {
        Yaml::Dict(entries) => entries,
        _ => {
            return Err(
                DVCError::DecodeFailure(String::from_str("a stage definition holds a mapping")),
            );
        },
    };
    let cmd: String = match dict_lookup(entries, "cmd") {
        Some(Yaml::Str(s)) => s.clone(),
        _ => {
            return Err(
                DVCError::DecodeFailure(
                    String::from_str("a stage definition needs a command string"),
                ),
            );
        },
    };
    let wdir: Option<String> = match dict_lookup(entries, "wdir") {
        Some(Yaml::Str(s)) => Some(s.clone()),
        Some(_) => {
            return Err(
                DVCError::DecodeFailure(String::from_str("expected a string working directory")),
            );
        },
        None => None,
    };
    let deps: Vec<DepFile> = match dict_lookup(entries, "deps") {
        Some(Yaml::List(items)) => match decode_dep_list(items) {
            Ok(v) => v,
            Err(e) => {
                return Err(e);
            },
        },
        Some(_) => {
            return Err(
                DVCError::DecodeFailure(String::from_str("expected a list of dependencies")),
            );
        },
        None => Vec::new(),
    };
    let outs: Vec<OutFile> = match dict_lookup(entries, "outs") {
        Some(Yaml::List(items)) => match decode_out_list(items) {
            Ok(v) => v,
            Err(e) => {
                return Err(e);
            },
        },
        Some(_) => {
            return Err(DVCError::DecodeFailure(String::from_str("expected a list of outputs")));
        },
        None => Vec::new(),
    };
    let metrics: Vec<OutFile> = match dict_lookup(entries, "metrics") {
        Some(Yaml::List(items)) => match decode_out_list(items) {
            Ok(v) => v,
            Err(e) => {
                return Err(e);
            },
        },
        Some(_) => {
            return Err(DVCError::DecodeFailure(String::from_str("expected a list of metrics")));
        },
        None => Vec::new(),
    };
    proof {
        assert(out_files_view(Seq::<OutFile>::empty()) =~= Seq::<OutFileV>::empty());
        assert(dep_files_view(Seq::<DepFile>::empty()) =~= Seq::<DepFileV>::empty());
    }
    Ok(PipelineStage { cmd, wdir, deps, outs, metrics })
}

/// What one stage entry decodes to: a mapping with a `foreach` key is a
/// repeated stage (labels plus a templated definition under `do`); any
/// other mapping is a plain stage definition.
pub open spec fn spec_stage_entry(yv: YamlV) -> Result<StageEntryV, DecErr> {
    match yv {
        YamlV::Dict(entries) => match dict_get(entries, "foreach"@) {
            Some(f) => match f {
                YamlV::List(items) => match spec_labels(items) {
                    Ok(labels) => match dict_get(entries, "do"@) {
                        Some(d) => match spec_pipeline_stage(d) {
                            Ok(st) => Ok(StageEntryV::MultiStage { foreach: labels, stage: st }),
                            Err(e) => Err(e),
                        },
                        None => Err(DecErr::Structure),
                    },
                    Err(e) => Err(e),
                },
                _ => Err(DecErr::Structure),
            },
            None => match spec_pipeline_stage(yv) {
                Ok(st) => Ok(StageEntryV::SingleStage(st)),
                Err(e) => Err(e),
            },
        },
        _ => Err(DecErr::Structure),
    }
}

/// Decode one stage entry, probing for the `foreach` key.
pub fn decode_stage_entry(y: &Yaml) -> (r: Result<StageEntry, DVCError>)
    ensures
        r is Ok <==> spec_stage_entry(y@) is Ok,
        r matches Ok(s) ==> Ok::<StageEntryV, DecErr>(s@) == spec_stage_entry(y@),
        r matches Err(e) ==> err_matches(e, spec_stage_entry(y@)->Err_0),
{
    let entries = match y {
        Yaml::Dict(entries) => entries,
        _ => {
            return Err(DVCError::DecodeFailure(String::from_str("a stage entry holds a mapping")));
        },
    };
    match dict_lookup(entries, "foreach") {
        Some(Yaml::List(items)) => {
            let labels = match decode_labels(items) {
                Ok(v) => v,
                Err(e) => {
                    return Err(e);
                },
            };
            match dict_lookup(entries, "do") {
                Some(d) => match decode_pipeline_stage(d) {
                    Ok(st) => Ok(StageEntry::MultiStage { foreach: labels, stage: st }),
                    Err(e) => Err(e),
                },
                None => Err(
                    DVCError::DecodeFailure(
                        String::from_str("a repeated stage needs a definition under do"),
                    ),
                ),
            }
        },
        Some(_) => Err(DVCError::DecodeFailure(String::from_str("foreach must be a list"))),
        None => match decode_pipeline_stage(y) {
            Ok(st) => Ok(StageEntry::SingleStage(st)),
            Err(e) => Err(e),
        },
    }
}

/// What the `stages` mapping decodes to: each entry in document order, its
/// key a string, stopping at the first failing entry.
pub open spec fn spec_stage_entries(entries: Seq<(YamlV, YamlV)>) -> Result<
    Seq<(Seq<char>, StageEntryV)>,
    DecErr,
>
    decreases entries,
{
    if entries.len() == 0 {
        Ok(Seq::empty())
    } else {
        match spec_stage_entries(entries.drop_last()) {
            Ok(pref) => match entries.last().0 {
                YamlV::Str(name) => match spec_stage_entry(entries.last().1) {
                    Ok(st) => Ok(pref.push((name, st))),
                    Err(e) => Err(e),
                },
                _ => Err(DecErr::Structure),
            },
            Err(e) => Err(e),
        }
    }
}

/// Once a prefix of the stage mapping fails to decode, the whole mapping
/// fails the same way.
proof fn lemma_stage_entries_prefix_err(entries: Seq<(YamlV, YamlV)>, j: int)
    requires
        0 <= j <= entries.len(),
        spec_stage_entries(entries.take(j)) is Err,
    ensures
        spec_stage_entries(entries) == spec_stage_entries(entries.take(j)),
    decreases entries.len(),
{
    if j < entries.len() {
        assert(entries.drop_last().take(j) =~= entries.take(j));
        lemma_stage_entries_prefix_err(entries.drop_last(), j);
    } else {
        assert(entries.take(j) =~= entries);
    }
}

/// What a pipeline manifest decodes to: a mapping with a required `stages`
/// mapping.
pub open spec fn spec_pipeline(yv: YamlV) -> Result<PipelineV, DecErr> {
    match yv {
        YamlV::Dict(entries) => match dict_get(entries, "stages"@) {
            Some(y) => match y {
                YamlV::Dict(stage_entries) => match spec_stage_entries(stage_entries) {
                    Ok(stages) => Ok(PipelineV { stages }),
                    Err(e) => Err(e),
                },
                _ => Err(DecErr::Structure),
            },
            None => Err(DecErr::Structure),
        },
        _ => Err(DecErr::Structure),
    }
}

/// Decode a pipeline manifest from its parsed document.
pub fn decode_pipeline(y: &Yaml) -> (r: Result<Pipeline, DVCError>)
    ensures
        r is Ok <==> spec_pipeline(y@) is Ok,
        r matches Ok(p) ==> Ok::<PipelineV, DecErr>(p@) == spec_pipeline(y@),
        r matches Err(e) ==> err_matches(e, spec_pipeline(y@)->Err_0),
{
    let entries = match y {
        Yaml::Dict(entries) => entries,
        _ => {
            return Err(
                DVCError::DecodeFailure(String::from_str("a pipeline manifest holds a mapping")),
            );
        },
    };
    let stage_entries = match dict_lookup(entries, "stages") {
        Some(Yaml::Dict(stage_entries)) => stage_entries,
        _ => {
            return Err(
                DVCError::DecodeFailure(
                    String::from_str("a pipeline manifest needs a stages mapping"),
                ),
            );
        },
    };
    let ghost sv = yaml_dict_view(stage_entries@);
    proof {
        lemma_yaml_dict_view(stage_entries@);
        assert(sv.take(0) =~= Seq::<(YamlV, YamlV)>::empty());
    }
    let mut stages: Vec<(String, StageEntry)> = Vec::new();
    proof {
        assert(stage_entries_view(stages@) =~= Seq::<(Seq<char>, StageEntryV)>::empty());
    }
    let n = stage_entries.len();
    let mut i: usize = 0;
    while i < n
        invariant
            n == stage_entries@.len(),
            i <= n,
            y@ == YamlV::Dict(yaml_dict_view(entries@)),
            dict_get(yaml_dict_view(entries@), "stages"@) == Some(YamlV::Dict(sv)),
            sv == yaml_dict_view(stage_entries@),
            sv.len() == n,
            forall|k: int|
                0 <= k < n ==> sv[k] == (
                yaml_view(stage_entries@[k].0),
                yaml_view(stage_entries@[k].1),
                ),
            spec_stage_entries(sv.take(i as int)) == Ok::<Seq<(Seq<char>, StageEntryV)>, DecErr>(
                stage_entries_view(stages@),
            ),
        decreases n - i,
    {
        proof {
            assert(sv.take(i + 1).drop_last() =~= sv.take(i as int));
            assert(sv.take(i + 1).last() == sv[i as int]);
        }
        let name: String = match &stage_entries[i].0 {
            Yaml::Str(s) => s.clone(),
            _ => {
                proof {
                    assert(!(yaml_view(stage_entries@[i as int].0) is Str));
                    lemma_stage_entries_prefix_err(sv, i + 1);
                }
                return Err(
                    DVCError::DecodeFailure(String::from_str("a stage name must be a string")),
                );
            },
        };
        match decode_stage_entry(&stage_entries[i].1) {
            Ok(st) => {
                let ghost prev = stages@;
                stages.push((name, st));
                proof {
                    assert(stage_entries_view(stages@) =~= stage_entries_view(prev).push(
                        (name@, st@),
                    ));
                }
            },
            Err(e) => {
                proof {
                    lemma_stage_entries_prefix_err(sv, i + 1);
                }
                return Err(e);
            },
        }
        i = i + 1;
    }
    proof {
        assert(sv.take(n as int) =~= sv);
    }
    Ok(Pipeline { stages })
}

/// What interpolating a dependency list yields: every path rendered, in
/// order; nothing when any path references an undefined variable.
pub open spec fn spec_interp_deps(ds: Seq<DepFileV>, vars: Map<Seq<char>, Seq<char>>) -> Option<
    Seq<DepFileV>,
>
    decreases ds,
{
    if ds.len() == 0 {
        Some(Seq::empty())
    } else {
        match spec_interp_deps(ds.drop_last(), vars) {
            Some(pref) => match spec_interp_dep(ds.last(), vars) {
                Some(d) => Some(pref.push(d)),
                None => None,
            },
            None => None,
        }
    }
}

/// What interpolating an output list yields: every path rendered, in
/// order; nothing when any path references an undefined variable.
pub open spec fn spec_interp_outs(os: Seq<OutFileV>, vars: Map<Seq<char>, Seq<char>>) -> Option<
    Seq<OutFileV>,
>
    decreases os,
{
    if os.len() == 0 {
        Some(Seq::empty())
    } else {
        match spec_interp_outs(os.drop_last(), vars) {
            Some(pref) => match spec_interp_out(os.last(), vars) {
                Some(o) => Some(pref.push(o)),
                None => None,
            },
            None => None,
        }
    }
}

/// Once one record of the list fails to render, the whole list fails.
proof fn lemma_interp_deps_prefix_none(ds: Seq<DepFileV>, vars: Map<Seq<char>, Seq<char>>, j: int)
    requires
        0 <= j <= ds.len(),
        spec_interp_deps(ds.take(j), vars) is None,
    ensures
        spec_interp_deps(ds, vars) is None,
    decreases ds.len(),
{
    if j < ds.len() {
        assert(ds.drop_last().take(j) =~= ds.take(j));
        lemma_interp_deps_prefix_none(ds.drop_last(), vars, j);
    } else {
        assert(ds.take(j) =~= ds);
    }
}

/// Once one record of the list fails to render, the whole list fails.
proof fn lemma_interp_outs_prefix_none(os: Seq<OutFileV>, vars: Map<Seq<char>, Seq<char>>, j: int)
    requires
        0 <= j <= os.len(),
        spec_interp_outs(os.take(j), vars) is None,
    ensures
        spec_interp_outs(os, vars) is None,
    decreases os.len(),
{
    if j < os.len() {
        assert(os.drop_last().take(j) =~= os.take(j));
        lemma_interp_outs_prefix_none(os.drop_last(), vars, j);
    } else {
        assert(os.take(j) =~= os);
    }
}

/// Every templated string of the stage definition has only ASCII
/// whitespace at its placeholder edges.
pub open spec fn stage_templates_clean(st: PipelineStageV) -> bool {
    crate::interpolate::template_edges_clean(st.cmd) && (match st.wdir {
        Some(w) => crate::interpolate::template_edges_clean(w),
        None => true,
    }) && dep_paths_clean(st.deps) && out_paths_clean(st.outs) && out_paths_clean(st.metrics)
}

/// What interpolating a whole stage definition yields: the command, the
/// working directory (if any) and every artifact path rendered against the
/// variables; nothing when any field references an undefined variable or
/// holds non-ASCII whitespace at a placeholder's edges.
pub open spec fn spec_interp_stage(st: PipelineStageV, vars: Map<Seq<char>, Seq<char>>) -> Option<
    PipelineStageV,
> {
    let c = spec_render(st.cmd, vars);
    let w = match st.wdir {
        Some(w0) => match spec_render(w0, vars) {
            Some(w1) => Some(Some(w1)),
            None => None,
        },
        None => Some(None),
    };
    let ds = spec_interp_deps(st.deps, vars);
    let os = spec_interp_outs(st.outs, vars);
    let ms = spec_interp_outs(st.metrics, vars);
    if c is Some && w is Some && ds is Some && os is Some && ms is Some {
        Some(
            PipelineStageV {
                cmd: c->0,
                wdir: w->0,
                deps: ds->0,
                outs: os->0,
                metrics: ms->0,
            },
        )
    } else {
        None
    }
}

/// Interpolate a dependency list against a context, record by record.
fn interp_dep_vec(ds: &Vec<DepFile>, context: &InterpContext) -> (r: Result<Vec<DepFile>, DVCError>)
    ensures
        r is Ok <==> spec_interp_deps(dep_files_view(ds@), context.vars_map()) is Some,
        r matches Ok(v) ==> Some(dep_files_view(v@)) == spec_interp_deps(
            dep_files_view(ds@),
            context.vars_map(),
        ),
        r matches Err(e) ==> (e is UndefinedVariable || e is DecodeFailure) && (dep_paths_clean(
            dep_files_view(ds@),
        ) ==> e is UndefinedVariable),
{
    let ghost dv = dep_files_view(ds@);
    let ghost vars = context.vars_map();
    proof {
        assert(dv.take(0) =~= Seq::<DepFileV>::empty());
    }
    let mut acc: Vec<DepFile> = Vec::new();
    proof {
        assert(dep_files_view(acc@) =~= Seq::<DepFileV>::empty());
    }
    let n = ds.len();
    let mut i: usize = 0;
    while i < n
        invariant
            n == ds@.len(),
            i <= n,
            dv == dep_files_view(ds@),
            dv.len() == n,
            vars == context.vars_map(),
            spec_interp_deps(dv.take(i as int), vars) == Some(dep_files_view(acc@)),
        decreases n - i,
    {
        proof {
            assert(dv.take(i + 1).drop_last() =~= dv.take(i as int));
            assert(dv.take(i + 1).last() == dv[i as int]);
            assert(dv[i as int] == ds@[i as int]@);
        }
        match ds[i].interpolate(context) {
            Ok(d) => {
                let ghost prev = acc@;
                acc.push(d);
                proof {
                    assert(dep_files_view(acc@) =~= dep_files_view(prev).push(d@));
                }
            },
            Err(e) => {
                proof {
                    lemma_interp_deps_prefix_none(dv, vars, i + 1);
                    assert(dep_paths_clean(dv) ==> crate::interpolate::template_edges_clean(
                        dv[i as int].path,
                    ));
                }
                return Err(e);
            },
        }
        i = i + 1;
    }
    proof {
        assert(dv.take(n as int) =~= dv);
    }
    Ok(acc)
}

/// Interpolate an output list against a context, record by record.
fn interp_out_vec(os: &Vec<OutFile>, context: &InterpContext) -> (r: Result<Vec<OutFile>, DVCError>)
    ensures
        r is Ok <==> spec_interp_outs(out_files_view(os@), context.vars_map()) is Some,
        r matches Ok(v) ==> Some(out_files_view(v@)) == spec_interp_outs(
            out_files_view(os@),
            context.vars_map(),
        ),
        r matches Err(e) ==> (e is UndefinedVariable || e is DecodeFailure) && (out_paths_clean(
            out_files_view(os@),
        ) ==> e is UndefinedVariable),
{
    let ghost ov = out_files_view(os@);
    let ghost vars = context.vars_map();
    proof {
        assert(ov.take(0) =~= Seq::<OutFileV>::empty());
    }
    let mut acc: Vec<OutFile> = Vec::new();
    proof {
        assert(out_files_view(acc@) =~= Seq::<OutFileV>::empty());
    }
    let n = os.len();
    let mut i: usize = 0;
    while i < n
        invariant
            n == os@.len(),
            i <= n,
            ov == out_files_view(os@),
            ov.len() == n,
            vars == context.vars_map(),
            spec_interp_outs(ov.take(i as int), vars) == Some(out_files_view(acc@)),
        decreases n - i,
    {
        proof {
            assert(ov.take(i + 1).drop_last() =~= ov.take(i as int));
            assert(ov.take(i + 1).last() == ov[i as int]);
            assert(ov[i as int] == os@[i as int]@);
        }
        match os[i].interpolate(context) {
            Ok(o) => {
                let ghost prev = acc@;
                acc.push(o);
                proof {
                    assert(out_files_view(acc@) =~= out_files_view(prev).push(o@));
                }
            },
            Err(e) => {
                proof {
                    lemma_interp_outs_prefix_none(ov, vars, i + 1);
                    assert(out_paths_clean(ov) ==> crate::interpolate::template_edges_clean(
                        ov[i as int].path,
                    ));
                }
                return Err(e);
            },
        }
        i = i + 1;
    }
    proof {
        assert(ov.take(n as int) =~= ov);
    }
    Ok(acc)
}

impl PipelineStage {
    /// Interpolate this stage definition field by field against a context,
    /// producing a new definition; any single field failure aborts the
    /// whole stage's interpolation.
    pub fn interpolate(&self, context: &InterpContext) -> (r: Result<PipelineStage, DVCError>)
        ensures
            r is Ok <==> spec_interp_stage(self@, context.vars_map()) is Some,
            r matches Ok(st) ==> Some(st@) == spec_interp_stage(self@, context.vars_map()),
            r matches Err(e) ==> (e is UndefinedVariable || e is DecodeFailure) && (
            stage_templates_clean(self@) ==> e is UndefinedVariable),
    {
        let cmd: String = match context.interpolate(self.cmd.as_str()) {
            Ok(c) => c,
            Err(e) => {
                return Err(e);
            },
        };
        let wdir: Option<String> = match &self.wdir {
            Some(w) => match context.interpolate(w.as_str()) {
                Ok(w1) => Some(w1),
                Err(e) => {
                    return Err(e);
                },
            },
            None => None,
        };
        let deps = match interp_dep_vec(&self.deps, context) {
            Ok(v) => v,
            Err(e) => {
                return Err(e);
            },
        };
        let outs = match interp_out_vec(&self.outs, context) {
            Ok(v) => v,
            Err(e) => {
                return Err(e);
            },
        };
        let metrics = match interp_out_vec(&self.metrics, context) {
            Ok(v) => v,
            Err(e) => {
                return Err(e);
            },
        };
        Ok(PipelineStage { cmd, wdir, deps, outs, metrics })
    }
}

} // verus!

//! Schema of a lock (resolved-state) file.
use vstd::prelude::*;
use vstd::string::StringExecFns;
use crate::DVCError;
use crate::yaml::{Yaml, YamlV, dict_get, dict_lookup, yaml_dict_view, lemma_yaml_dict_view};
use super::{DecErr, err_matches};
use super::out::{OutFile, OutFileV, out_files_view, clone_out_vec};
use super::dep::{DepFile, DepFileV, dep_files_view, clone_dep_vec};
use super::pipeline::filelist::{spec_out_list, decode_out_list, spec_dep_list, decode_dep_list};

verus! {

/// A single stage of a lock file: a command and its resolved dependency and
/// output artifacts.
pub struct LockStage {
    pub cmd: String,
    pub deps: Vec<DepFile>,
    pub outs: Vec<OutFile>,
}

/// The mathematical view of a [`LockStage`].
pub struct LockStageV {
    pub cmd: Seq<char>,
    pub deps: Seq<DepFileV>,
    pub outs: Seq<OutFileV>,
}

impl View for LockStage {
    type V = LockStageV;

    open spec fn view(&self) -> LockStageV {
        LockStageV {
            cmd: self.cmd@,
            deps: dep_files_view(self.deps@),
            outs: out_files_view(self.outs@),
        }
    }
}

impl Clone for LockStage {
    fn clone(&self) -> (r: Self)
        ensures
            r@ == self@,
    {
        LockStage {
            cmd: self.cmd.clone(),
            deps: clone_dep_vec(&self.deps),
            outs: clone_out_vec(&self.outs),
        }
    }
}

/// The resolved state recorded for a pipeline: a schema-version string and
/// the named stages, in document order.
pub struct LockState {
    pub schema: String,
    pub stages: Vec<(String, LockStage)>,
}

/// The mathematical view of a [`LockState`].
pub struct LockStateV {
    pub schema: Seq<char>,
    pub stages: Seq<(Seq<char>, LockStageV)>,
}

/// The views of a sequence of named lock stages.
pub open spec fn lock_stages_view(s: Seq<(String, LockStage)>) -> Seq<(Seq<char>, LockStageV)> {
    Seq::new(s.len(), |i: int| (s[i].0@, s[i].1@))
}

impl View for LockState {
    type V = LockStateV;

    open spec fn view(&self) -> LockStateV {
        LockStateV { schema: self.schema@, stages: lock_stages_view(self.stages@) }
    }
}

impl Clone for LockState {
    fn clone(&self) -> (r: Self)
        ensures
            r@ == self@,
    {
        let mut stages: Vec<(String, LockStage)> = Vec::new();
        let n = self.stages.len();
        let mut i: usize = 0;
        while i < n
            invariant
                n == self.stages@.len(),
                i <= n,
                stages@.len() == i,
                forall|k: int|
                    0 <= k < i ==> stages@[k].0@ == self.stages@[k].0@ && stages@[k].1@
                        == self.stages@[k].1@,
            decreases n - i,
        {
            stages.push((self.stages[i].0.clone(), self.stages[i].1.clone()));
            i = i + 1;
        }
        proof {
            assert(lock_stages_view(stages@) =~= lock_stages_view(self.stages@));
        }
        LockState { schema: self.schema.clone(), stages }
    }
}

/// What one lock stage decodes to: a mapping with a required `cmd` string
/// and optional `deps` and `outs` artifact lists.
pub open spec fn spec_lock_stage(yv: YamlV) -> Result<LockStageV, DecErr> {
    match yv {
        YamlV::Dict(entries) => {
            let c = dict_get(entries, "cmd"@);
            if !(match c {
                Some(y) => y is Str,
                None => false,
            }) {
                Err(DecErr::Structure)
            } else {
                let deps_r = match dict_get(entries, "deps"@) {
                    Some(y) => match y {
                        YamlV::List(items) => spec_dep_list(items),
                        _ => Err(DecErr::Structure),
                    },
                    None => Ok(Seq::empty()),
                };
                let outs_r = match dict_get(entries, "outs"@) {
                    Some(y) => match y {
                        YamlV::List(items) => spec_out_list(items),
                        _ => Err(DecErr::Structure),
                    },
                    None => Ok(Seq::empty()),
                };
                match (deps_r, outs_r) {
                    (Ok(deps), Ok(outs)) => Ok(LockStageV { cmd: c->Some_0->Str_0, deps, outs }),
                    (Err(e), _) => Err(e),
                    (_, Err(e)) => Err(e),
                }
            }
        },
        _ => Err(DecErr::Structure),
    }
}

/// What the `stages` mapping of a lock file decodes to: each entry in
/// document order, its key a string, stopping at the first failing entry.
pub open spec fn spec_lock_stages(entries: Seq<(YamlV, YamlV)>) -> Result<
    Seq<(Seq<char>, LockStageV)>,
    DecErr,
>
    decreases entries,
{
    if entries.len() == 0 {
        Ok(Seq::empty())
    } else {
        match spec_lock_stages(entries.drop_last()) {
            Ok(pref) => match entries.last().0 {
                YamlV::Str(name) => match spec_lock_stage(entries.last().1) {
                    Ok(st) => Ok(pref.push((name, st))),
                    Err(e) => Err(e),
                },
                _ => Err(DecErr::Structure),
            },
            Err(e) => Err(e),
        }
    }
}

/// What a lock file decodes to: a mapping with a required `schema` string
/// and a required `stages` mapping.
pub open spec fn spec_lock_state(yv: YamlV) -> Result<LockStateV, DecErr> {
    match yv {
        YamlV::Dict(entries) => {
            let s = dict_get(entries, "schema"@);
            let st = dict_get(entries, "stages"@);
            if !(match s {
                Some(y) => y is Str,
                None => false,
            }) {
                Err(DecErr::Structure)
            } else {
                match st {
                    Some(y) => match y {
                        YamlV::Dict(stage_entries) => match spec_lock_stages(stage_entries) {
                            Ok(stages) => Ok(
                                LockStateV { schema: s->Some_0->Str_0, stages },
                            ),
                            Err(e) => Err(e),
                        },
                        _ => Err(DecErr::Structure),
                    },
                    None => Err(DecErr::Structure),
                }
            }
        },
        _ => Err(DecErr::Structure),
    }
}

/// Once a prefix of the stage mapping fails to decode, the whole mapping
/// fails the same way.
proof fn lemma_lock_stages_prefix_err(entries: Seq<(YamlV, YamlV)>, j: int)
    requires
        0 <= j <= entries.len(),
        spec_lock_stages(entries.take(j)) is Err,
    ensures
        spec_lock_stages(entries) == spec_lock_stages(entries.take(j)),
    decreases entries.len(),
{
    if j < entries.len() {
        assert(entries.drop_last().take(j) =~= entries.take(j));
        lemma_lock_stages_prefix_err(entries.drop_last(), j);
    } else {
        assert(entries.take(j) =~= entries);
    }
}

/// Decode one lock stage from its parsed node.
pub fn decode_lock_stage(y: &Yaml) -> (r: Result<LockStage, DVCError>)
    ensures
        r is Ok <==> spec_lock_stage(y@) is Ok,
        r matches Ok(s) ==> Ok::<LockStageV, DecErr>(s@) == spec_lock_stage(y@),
        r matches Err(e) ==> err_matches(e, spec_lock_stage(y@)->Err_0),
{
    let entries = match y {
        Yaml::Dict(entries) => entries,
        _ => {
            return Err(DVCError::DecodeFailure(String::from_str("a lock stage holds a mapping")));
        },
    };
    let cmd: String = match dict_lookup(entries, "cmd") {
        Some(Yaml::Str(s)) => s.clone(),
        _ => {
            return Err(
                DVCError::DecodeFailure(String::from_str("a lock stage needs a command string")),
            );
        },
    };
    let deps: Vec<DepFile> = match dict_lookup(entries, "deps") {
        Some(Yaml::List(items)) => match decode_dep_list(items) {
            Ok(v) => v,
            Err(e) => {
                return Err(e);
            },
        },
        Some(_) => {
            return Err(
                DVCError::DecodeFailure(String::from_str("expected a list of dependencies")),
            );
        },
        None => Vec::new(),
    };
    let outs: Vec<OutFile> = match dict_lookup(entries, "outs") {
        Some(Yaml::List(items)) => match decode_out_list(items) {
            Ok(v) => v,
            Err(e) => {
                return Err(e);
            },
        },
        Some(_) => {
            return Err(DVCError::DecodeFailure(String::from_str("expected a list of outputs")));
        },
        None => Vec::new(),
    };
    proof {
        assert(out_files_view(Seq::<OutFile>::empty()) =~= Seq::<OutFileV>::empty());
        assert(dep_files_view(Seq::<DepFile>::empty()) =~= Seq::<DepFileV>::empty());
    }
    Ok(LockStage { cmd, deps, outs })
}

/// Decode a lock file from its parsed document.
pub fn decode_lock_state(y: &Yaml) -> (r: Result<LockState, DVCError>)
    ensures
        r is Ok <==> spec_lock_state(y@) is Ok,
        r matches Ok(l) ==> Ok::<LockStateV, DecErr>(l@) == spec_lock_state(y@),
        r matches Err(e) ==> err_matches(e, spec_lock_state(y@)->Err_0),
{
    let entries = match y {
        Yaml::Dict(entries) => entries,
        _ => {
            return Err(DVCError::DecodeFailure(String::from_str("a lock file holds a mapping")));
        },
    };
    let schema: String = match dict_lookup(entries, "schema") {
        Some(Yaml::Str(s)) => s.clone(),
        _ => {
            return Err(
                DVCError::DecodeFailure(String::from_str("a lock file needs a schema string")),
            );
        },
    };
    let stage_entries = match dict_lookup(entries, "stages") {
        Some(Yaml::Dict(stage_entries)) => stage_entries,
        _ => {
            return Err(
                DVCError::DecodeFailure(String::from_str("a lock file needs a stages mapping")),
            );
        },
    };
    let ghost sv = yaml_dict_view(stage_entries@);
    proof {
        lemma_yaml_dict_view(stage_entries@);
        assert(sv.take(0) =~= Seq::<(YamlV, YamlV)>::empty());
    }
    let mut stages: Vec<(String, LockStage)> = Vec::new();
    proof {
        assert(lock_stages_view(stages@) =~= Seq::<(Seq<char>, LockStageV)>::empty());
    }
    let n = stage_entries.len();
    let mut i: usize = 0;
    while i < n
        invariant
            n == stage_entries@.len(),
            i <= n,
            y@ == YamlV::Dict(yaml_dict_view(entries@)),
            dict_get(yaml_dict_view(entries@), "stages"@) == Some(YamlV::Dict(sv)),
            (match dict_get(yaml_dict_view(entries@), "schema"@) {
                Some(yy) => yy is Str,
                None => false,
            }),
            sv == yaml_dict_view(stage_entries@),
            sv.len() == n,
            forall|k: int|
                0 <= k < n ==> sv[k] == (
                crate::yaml::yaml_view(stage_entries@[k].0),
                crate::yaml::yaml_view(stage_entries@[k].1),
                ),
            spec_lock_stages(sv.take(i as int)) == Ok::<Seq<(Seq<char>, LockStageV)>, DecErr>(
                lock_stages_view(stages@),
            ),
        decreases n - i,
    {
        proof {
            assert(sv.take(i + 1).drop_last() =~= sv.take(i as int));
            assert(sv.take(i + 1).last() == sv[i as int]);
        }
        let name: String = match &stage_entries[i].0 {
            Yaml::Str(s) => s.clone(),
            _ => {
                proof {
                    assert(!(crate::yaml::yaml_view(stage_entries@[i as int].0) is Str));
                    assert(spec_lock_stages(sv.take(i + 1)) is Err);
                    lemma_lock_stages_prefix_err(sv, i + 1);
                }
                return Err(
                    DVCError::DecodeFailure(String::from_str("a stage name must be a string")),
                );
            },
        };
        match decode_lock_stage(&stage_entries[i].1) {
            Ok(st) => {
                let ghost prev = stages@;
                stages.push((name, st));
                proof {
                    assert(lock_stages_view(stages@) =~= lock_stages_view(prev).push(
                        (name@, st@),
                    ));
                }
            },
            Err(e) => {
                proof {
                    lemma_lock_stages_prefix_err(sv, i + 1);
                }
                return Err(e);
            },
        }
        i = i + 1;
    }
    proof {
        assert(sv.take(n as int) =~= sv);
    }
    Ok(LockState { schema, stages })
}

} // verus!

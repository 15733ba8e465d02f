//! Schema of a single-artifact descriptor file.
use vstd::prelude::*;
use vstd::string::StringExecFns;
use crate::DVCError;
use crate::paths::RelPath;
use crate::yaml::{Yaml, YamlV, dict_get, dict_lookup};
use super::{DecErr, err_matches};
use super::out::{OutFile, OutFileV, out_files_view};
use super::dep::{DepFile, DepFileV, dep_files_view};
use super::pipeline::filelist::{spec_out_list, decode_out_list, spec_dep_list, decode_dep_list};

verus! {

/// A descriptor file holding one stage: an optional working directory, an
/// optional top-level checksum, a list of outputs and a list of
/// dependencies.
pub struct SingleStage {
    pub wdir: Option<RelPath>,
    pub md5: Option<String>,
    pub outs: Vec<OutFile>,
    pub deps: Vec<DepFile>,
}

/// The mathematical view of a [`SingleStage`].
pub struct SingleStageV {
    pub wdir: Option<Seq<char>>,
    pub md5: Option<Seq<char>>,
    pub outs: Seq<OutFileV>,
    pub deps: Seq<DepFileV>,
}

impl View for SingleStage {
    type V = SingleStageV;

    open spec fn view(&self) -> SingleStageV {
        SingleStageV {
            wdir: match self.wdir {
                Some(p) => Some(p@),
                None => None,
            },
            md5: match self.md5 {
                Some(s) => Some(s@),
                None => None,
            },
            outs: out_files_view(self.outs@),
            deps: dep_files_view(self.deps@),
        }
    }
}

/// What a single-artifact file decodes to: a mapping with optional `wdir`
/// and `md5` strings and optional `outs` and `deps` artifact lists, any
/// other key ignored.
pub open spec fn spec_single(yv: YamlV) -> Result<SingleStageV, DecErr> {
    match yv {
        YamlV::Dict(entries) => {
            let w = dict_get(entries, "wdir"@);
            let m = dict_get(entries, "md5"@);
            let o = dict_get(entries, "outs"@);
            let d = dict_get(entries, "deps"@);
            if (match w {
                Some(y) => !(y is Str),
                None => false,
            }) || (match m {
                Some(y) => !(y is Str),
                None => false,
            }) {
                Err(DecErr::Structure)
            } else {
                let outs_r = match o {
                    Some(y) => match y {
                        YamlV::List(items) => spec_out_list(items),
                        _ => Err(DecErr::Structure),
                    },
                    None => Ok(Seq::empty()),
                };
                let deps_r = match d {
                    Some(y) => match y {
                        YamlV::List(items) => spec_dep_list(items),
                        _ => Err(DecErr::Structure),
                    },
                    None => Ok(Seq::empty()),
                };
                match (outs_r, deps_r) {
                    (Ok(outs), Ok(deps)) => Ok(
                        SingleStageV {
                            wdir: match w {
                                Some(y) => Some(y->Str_0),
                                None => None,
                            },
                            md5: match m {
                                Some(y) => Some(y->Str_0),
                                None => None,
                            },
                            outs,
                            deps,
                        },
                    ),
                    (Err(e), _) => Err(e),
                    (_, Err(e)) => Err(e),
                }
            }
        },
        _ => Err(DecErr::Structure),
    }
}

/// Decode a single-artifact descriptor file from its parsed document.
pub fn decode_single(y: &Yaml) -> (r: Result<SingleStage, DVCError>)
    ensures
        r is Ok <==> spec_single(y@) is Ok,
        r matches Ok(s) ==> Ok::<SingleStageV, DecErr>(s@) == spec_single(y@),
        r matches Err(e) ==> err_matches(e, spec_single(y@)->Err_0),
{
    let entries = match y {
        Yaml::Dict(entries) => entries,
        _ => {
            return Err(
                DVCError::DecodeFailure(String::from_str("a descriptor file holds a mapping")),
            );
        },
    };
    let wdir: Option<RelPath> = match dict_lookup(entries, "wdir") {
        Some(Yaml::Str(s)) => Some(RelPath::new(s.clone())),
        Some(_) => {
            return Err(
                DVCError::DecodeFailure(String::from_str("expected a string working directory")),
            );
        },
        None => None,
    };
    let md5: Option<String> = match dict_lookup(entries, "md5") {
        Some(Yaml::Str(s)) => Some(s.clone()),
        Some(_) => {
            return Err(DVCError::DecodeFailure(String::from_str("expected a string checksum")));
        },
        None => None,
    };
    let outs: Vec<OutFile> = match dict_lookup(entries, "outs") {
        Some(Yaml::List(items)) => match decode_out_list(items) {
            Ok(v) => v,
            Err(e) => {
                return Err(e);
            },
        },
        Some(_) => {
            return Err(DVCError::DecodeFailure(String::from_str("expected a list of outputs")));
        },
        None => Vec::new(),
    };
    let deps: Vec<DepFile> = match dict_lookup(entries, "deps") {
        Some(Yaml::List(items)) => match decode_dep_list(items) {
            Ok(v) => v,
            Err(e) => {
                return Err(e);
            },
        },
        Some(_) => {
            return Err(
                DVCError::DecodeFailure(String::from_str("expected a list of dependencies")),
            );
        },
        None => Vec::new(),
    };
    proof {
        assert(out_files_view(Seq::<OutFile>::empty()) =~= Seq::<OutFileV>::empty());
        assert(dep_files_view(Seq::<DepFile>::empty()) =~= Seq::<DepFileV>::empty());
    }
    Ok(SingleStage { wdir, md5, outs, deps })
}

} // verus!

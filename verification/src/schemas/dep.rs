//! The record shape of a declared dependency artifact.
use vstd::prelude::*;
use vstd::string::StringExecFns;
use crate::DVCError;
use crate::paths::RelPath;
use crate::yaml::{dict_get, YamlV};
use super::{Artifact, DecErr, err_matches};

verus! {

/// Representation of a dependency record: a path, an optional working
/// directory, an optional checksum and an optional size.
pub struct DepFile {
    pub path: RelPath,
    pub wdir: Option<String>,
    pub md5: Option<String>,
    pub size: Option<usize>,
}

/// The mathematical view of a [`DepFile`].
pub struct DepFileV {
    pub path: Seq<char>,
    pub wdir: Option<Seq<char>>,
    pub md5: Option<Seq<char>>,
    pub size: Option<usize>,
}

impl View for DepFile {
    type V = DepFileV;

    open spec fn view(&self) -> DepFileV {
        DepFileV {
            path: self.path@,
            wdir: match self.wdir {
                Some(s) => Some(s@),
                None => None,
            },
            md5: match self.md5 {
                Some(s) => Some(s@),
                None => None,
            },
            size: self.size,
        }
    }
}

/// The views of a sequence of dependency records.
pub open spec fn dep_files_view(s: Seq<DepFile>) -> Seq<DepFileV> {
    Seq::new(s.len(), |i: int| s[i]@)
}

impl Clone for DepFile {
    fn clone(&self) -> (r: Self)
        ensures
            r@ == self@,
    {
        DepFile {
            path: self.path.clone(),
            wdir: match &self.wdir {
                Some(s) => Some(s.clone()),
                None => None,
            },
            md5: match &self.md5 {
                Some(s) => Some(s.clone()),
                None => None,
            },
            size: self.size,
        }
    }
}

/// The view of the record [`Default::default`] yields: an empty path and
/// no other attribute.
pub open spec fn dep_default_view() -> DepFileV {
    DepFileV { path: Seq::empty(), wdir: None, md5: None, size: None }
}

impl Default for DepFile {
    fn default() -> (r: Self)
        ensures
            r@ == dep_default_view(),
    {
        DepFile { path: RelPath::new(String::new()), wdir: None, md5: None, size: None }
    }
}

impl Artifact for DepFile {
    open spec fn spec_path(&self) -> Seq<char> {
        self.path@
    }

    open spec fn spec_md5(&self) -> Option<Seq<char>> {
        self@.md5
    }

    fn path(&self) -> (r: &RelPath) {
        &self.path
    }

    fn set_path(&mut self, path: &RelPath)
        ensures
            final(self)@ == (DepFileV { path: path@, ..old(self)@ }),
    {
        self.path = path.clone();
    }

    fn md5(&self) -> (r: Option<&String>) {
        match &self.md5 {
            Some(s) => Some(s),
            None => None,
        }
    }
}

/// The attribute record a dependency's detailed form decodes to: optional
/// `wdir` (string), `md5` (string) and `size` (integer) keys, any other key
/// ignored, the path left at its default.
pub open spec fn spec_dep_attrs(entries: Seq<(YamlV, YamlV)>) -> Result<DepFileV, DecErr> {
    let w = dict_get(entries, "wdir"@);
    let m = dict_get(entries, "md5"@);
    let z = dict_get(entries, "size"@);
    if (match w {
        Some(y) => !(y is Str),
        None => false,
    }) || (match m {
        Some(y) => !(y is Str),
        None => false,
    }) || (match z {
        Some(y) => !(y matches YamlV::Int(u) && u <= usize::MAX),
        None => false,
    }) {
        Err(DecErr::Structure)
    } else {
        Ok(
            DepFileV {
                path: Seq::empty(),
                wdir: match w {
                    Some(y) => Some(y->Str_0),
                    None => None,
                },
                md5: match m {
                    Some(y) => Some(y->Str_0),
                    None => None,
                },
                size: match z {
                    Some(y) => Some(y->Int_0 as usize),
                    None => None,
                },
            },
        )
    }
}

/// Decode the detailed-form attribute mapping of a dependency record.
pub fn decode_dep_attrs(entries: &Vec<(crate::yaml::Yaml, crate::yaml::Yaml)>) -> (r: Result<
    DepFile,
    DVCError,
>)
    ensures
        r is Ok <==> spec_dep_attrs(crate::yaml::yaml_dict_view(entries@)) is Ok,
        r matches Ok(d) ==> Ok::<DepFileV, DecErr>(d@) == spec_dep_attrs(crate::yaml::yaml_dict_view(entries@)),
        r matches Err(e) ==> err_matches(
            e,
            spec_dep_attrs(crate::yaml::yaml_dict_view(entries@))->Err_0,
        ),
{
    let wdir: Option<String> = match crate::yaml::dict_lookup(entries, "wdir") {
        Some(crate::yaml::Yaml::Str(s)) => Some(s.clone()),
        Some(_) => {
            return Err(
                DVCError::DecodeFailure(String::from_str("expected a string working directory")),
            );
        },
        None => None,
    };
    let md5: Option<String> = match crate::yaml::dict_lookup(entries, "md5") {
        Some(crate::yaml::Yaml::Str(s)) => Some(s.clone()),
        Some(_) => {
            return Err(DVCError::DecodeFailure(String::from_str("expected a string checksum")));
        },
        None => None,
    };
    let size: Option<usize> = match crate::yaml::dict_lookup(entries, "size") {
        Some(crate::yaml::Yaml::Int(u)) => {
            if *u > usize::MAX as u64 {
                return Err(
                    DVCError::DecodeFailure(String::from_str("size does not fit the machine")),
                );
            }
            Some(*u as usize)
        },
        Some(_) => {
            return Err(DVCError::DecodeFailure(String::from_str("expected an integer size")));
        },
        None => None,
    };
    Ok(DepFile { path: RelPath::new(String::new()), wdir, md5, size })
}

/// Clone a whole list of dependency records.
pub fn clone_dep_vec(v: &Vec<DepFile>) -> (r: Vec<DepFile>)
    ensures
        dep_files_view(r@) == dep_files_view(v@),
{
    let mut r: Vec<DepFile> = Vec::new();
    let n = v.len();
    let mut i: usize = 0;
    while i < n
        invariant
            n == v@.len(),
            i <= n,
            r@.len() == i,
            forall|k: int| 0 <= k < i ==> r@[k]@ == v@[k]@,
        decreases n - i,
    {
        r.push(v[i].clone());
        i = i + 1;
    }
    proof {
        assert(dep_files_view(r@) =~= dep_files_view(v@));
    }
    r
}

/// What interpolating one dependency record yields: the same record with
/// its path rendered against the variables; nothing when the path
/// references an undefined variable or holds non-ASCII whitespace at a
/// placeholder's edges.
pub open spec fn spec_interp_dep(d: DepFileV, vars: Map<Seq<char>, Seq<char>>) -> Option<
    DepFileV,
> {
    match crate::interpolate::spec_render(d.path, vars) {
        Some(p) => Some(DepFileV { path: p, ..d }),
        None => None,
    }
}

/// Every path of the list has only ASCII whitespace at its placeholder
/// edges.
pub open spec fn dep_paths_clean(ds: Seq<DepFileV>) -> bool {
    forall|i: int| 0 <= i < ds.len() ==> crate::interpolate::template_edges_clean((#[trigger] ds[i]).path)
}

impl DepFile {
    /// Interpolate the record's path against a context, leaving every other
    /// field as it is.
    pub fn interpolate(&self, context: &crate::interpolate::InterpContext) -> (r: Result<
        DepFile,
        DVCError,
    >)
        ensures
            r is Ok <==> spec_interp_dep(self@, context.vars_map()) is Some,
            r matches Ok(d) ==> Some(d@) == spec_interp_dep(self@, context.vars_map()),
            r matches Err(e) ==> (if crate::interpolate::template_edges_clean(self@.path) {
                e is UndefinedVariable
            } else {
                e is DecodeFailure
            }),
    {
        let mut out = self.clone();
        match self.path.interpolate(context) {
            Ok(p) => {
                out.path = p;
                Ok(out)
            },
            Err(e) => Err(e),
        }
    }
}

} // verus!

//! The record shape of a declared output artifact.
use vstd::prelude::*;
use vstd::string::StringExecFns;
use crate::DVCError;
use crate::paths::RelPath;
use crate::yaml::{dict_get, YamlV};
use super::{Artifact, DecErr, err_matches};

verus! {

/// Representation of an output record: a path, a cache flag (true unless
/// declared otherwise), an optional checksum and an optional size.
pub struct OutFile {
    pub path: RelPath,
    pub cache: bool,
    pub md5: Option<String>,
    pub size: Option<usize>,
}

/// The mathematical view of an [`OutFile`].
pub struct OutFileV {
    pub path: Seq<char>,
    pub cache: bool,
    pub md5: Option<Seq<char>>,
    pub size: Option<usize>,
}

impl View for OutFile {
    type V = OutFileV;

    open spec fn view(&self) -> OutFileV {
        OutFileV {
            path: self.path@,
            cache: self.cache,
            md5: match self.md5 {
                Some(s) => Some(s@),
                None => None,
            },
            size: self.size,
        }
    }
}

/// The views of a sequence of output records.
pub open spec fn out_files_view(s: Seq<OutFile>) -> Seq<OutFileV> {
    Seq::new(s.len(), |i: int| s[i]@)
}

impl Clone for OutFile {
    fn clone(&self) -> (r: Self)
        ensures
            r@ == self@,
    {
        OutFile {
            path: self.path.clone(),
            cache: self.cache,
            md5: match &self.md5 {
                Some(s) => Some(s.clone()),
                None => None,
            },
            size: self.size,
        }
    }
}

/// The view of the record [`Default::default`] yields: an empty path, the
/// cache flag on, no checksum, no size.
pub open spec fn out_default_view() -> OutFileV {
    OutFileV { path: Seq::empty(), cache: true, md5: None, size: None }
}

impl Default for OutFile {
    fn default() -> (r: Self)
        ensures
            r@ == out_default_view(),
    {
        OutFile { path: RelPath::new(String::new()), cache: true, md5: None, size: None }
    }
}

impl Artifact for OutFile {
    open spec fn spec_path(&self) -> Seq<char> {
        self.path@
    }

    open spec fn spec_md5(&self) -> Option<Seq<char>> {
        self@.md5
    }

    fn path(&self) -> (r: &RelPath) {
        &self.path
    }

    fn set_path(&mut self, path: &RelPath)
        ensures
            final(self)@ == (OutFileV { path: path@, ..old(self)@ }),
    {
        self.path = path.clone();
    }

    fn md5(&self) -> (r: Option<&String>) {
        match &self.md5 {
            Some(s) => Some(s),
            None => None,
        }
    }
}

/// The attribute record an output's detailed form decodes to: optional
/// `cache` (boolean), `md5` (string) and `size` (integer) keys, any other
/// key ignored, the path left at its default.
pub open spec fn spec_out_attrs(entries: Seq<(YamlV, YamlV)>) -> Result<OutFileV, DecErr> {
    let c = dict_get(entries, "cache"@);
    let m = dict_get(entries, "md5"@);
    let z = dict_get(entries, "size"@);
    if (match c {
        Some(y) => !(y is Bool),
        None => false,
    }) || (match m {
        Some(y) => !(y is Str),
        None => false,
    }) || (match z {
        Some(y) => !(y matches YamlV::Int(u) && u <= usize::MAX),
        None => false,
    }) {
        Err(DecErr::Structure)
    } else {
        Ok(
            OutFileV {
                path: Seq::empty(),
                cache: match c {
                    Some(y) => y->Bool_0,
                    None => true,
                },
                md5: match m {
                    Some(y) => Some(y->Str_0),
                    None => None,
                },
                size: match z {
                    Some(y) => Some(y->Int_0 as usize),
                    None => None,
                },
            },
        )
    }
}

/// Decode the detailed-form attribute mapping of an output record.
pub fn decode_out_attrs(entries: &Vec<(crate::yaml::Yaml, crate::yaml::Yaml)>) -> (r: Result<
    OutFile,
    DVCError,
>)
    ensures
        r is Ok <==> spec_out_attrs(crate::yaml::yaml_dict_view(entries@)) is Ok,
        r matches Ok(o) ==> Ok::<OutFileV, DecErr>(o@) == spec_out_attrs(crate::yaml::yaml_dict_view(entries@)),
        r matches Err(e) ==> err_matches(
            e,
            spec_out_attrs(crate::yaml::yaml_dict_view(entries@))->Err_0,
        ),
{
    let cache: bool = match crate::yaml::dict_lookup(entries, "cache") {
        Some(crate::yaml::Yaml::Bool(b)) => *b,
        Some(_) => {
            return Err(DVCError::DecodeFailure(String::from_str("expected a boolean cache flag")));
        },
        None => true,
    };
    let md5: Option<String> = match crate::yaml::dict_lookup(entries, "md5") {
        Some(crate::yaml::Yaml::Str(s)) => Some(s.clone()),
        Some(_) => {
            return Err(DVCError::DecodeFailure(String::from_str("expected a string checksum")));
        },
        None => None,
    };
    let size: Option<usize> = match crate::yaml::dict_lookup(entries, "size") {
        Some(crate::yaml::Yaml::Int(u)) => {
            if *u > usize::MAX as u64 {
                return Err(
                    DVCError::DecodeFailure(String::from_str("size does not fit the machine")),
                );
            }
            Some(*u as usize)
        },
        Some(_) => {
            return Err(DVCError::DecodeFailure(String::from_str("expected an integer size")));
        },
        None => None,
    };
    Ok(OutFile { path: RelPath::new(String::new()), cache, md5, size })
}

/// Clone a whole list of output records.
pub fn clone_out_vec(v: &Vec<OutFile>) -> (r: Vec<OutFile>)
    ensures
        out_files_view(r@) == out_files_view(v@),
{
    let mut r: Vec<OutFile> = Vec::new();
    let n = v.len();
    let mut i: usize = 0;
    while i < n
        invariant
            n == v@.len(),
            i <= n,
            r@.len() == i,
            forall|k: int| 0 <= k < i ==> r@[k]@ == v@[k]@,
        decreases n - i,
    {
        r.push(v[i].clone());
        i = i + 1;
    }
    proof {
        assert(out_files_view(r@) =~= out_files_view(v@));
    }
    r
}

/// What interpolating one output record yields: the same record with its
/// path rendered against the variables; nothing when the path references an
/// undefined variable or holds non-ASCII whitespace at a placeholder's
/// edges.
pub open spec fn spec_interp_out(o: OutFileV, vars: Map<Seq<char>, Seq<char>>) -> Option<
    OutFileV,
> {
    match crate::interpolate::spec_render(o.path, vars) {
        Some(p) => Some(OutFileV { path: p, ..o }),
        None => None,
    }
}

/// Every path of the list has only ASCII whitespace at its placeholder
/// edges.
pub open spec fn out_paths_clean(os: Seq<OutFileV>) -> bool {
    forall|i: int| 0 <= i < os.len() ==> crate::interpolate::template_edges_clean((#[trigger] os[i]).path)
}

impl OutFile {
    /// Interpolate the record's path against a context, leaving every other
    /// field as it is.
    pub fn interpolate(&self, context: &crate::interpolate::InterpContext) -> (r: Result<
        OutFile,
        DVCError,
    >)
        ensures
            r is Ok <==> spec_interp_out(self@, context.vars_map()) is Some,
            r matches Ok(o) ==> Some(o@) == spec_interp_out(self@, context.vars_map()),
            r matches Err(e) ==> (if crate::interpolate::template_edges_clean(self@.path) {
                e is UndefinedVariable
            } else {
                e is DecodeFailure
            }),
    {
        let mut out = self.clone();
        match self.path.interpolate(context) {
            Ok(p) => {
                out.path = p;
                Ok(out)
            },
            Err(e) => Err(e),
        }
    }
}

} // verus!

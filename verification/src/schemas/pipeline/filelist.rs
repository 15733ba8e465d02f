//! The two-shape rule for artifact lists.
//!
//! An entry of an artifact list is either a bare path string, or a mapping
//! with exactly one key, where the key is the path and the value holds the
//! remaining attributes. A mapping with zero keys or more than one key is
//! rejected with its own error, because the key is the path and a second
//! key has no defined meaning.
use vstd::prelude::*;
use vstd::string::StringExecFns;
use crate::DVCError;
use crate::paths::RelPath;
use crate::yaml::{Yaml, YamlV, yaml_view, yaml_list_view, lemma_yaml_list_view,
    lemma_yaml_dict_view};
use crate::schemas::{Artifact, DecErr, err_matches};
use crate::schemas::out::{OutFile, OutFileV, out_files_view, out_default_view, spec_out_attrs,
    decode_out_attrs};
use crate::schemas::dep::{DepFile, DepFileV, dep_files_view, dep_default_view, spec_dep_attrs,
    decode_dep_attrs};

verus! {

/// An entry in an artifact list.
pub enum FLEntry<A> {
    /// An entry may be a bare path.
    Bare(RelPath),
    /// An entry may be a mapping from a path to attribute data.
    Mapped(A),
}

impl FLEntry<OutFile> {
    /// Turn the entry into its output record.
    pub fn to_artifact(self) -> (r: OutFile)
        ensures
            self matches FLEntry::Bare(p) ==> r@ == (OutFileV { path: p@, ..out_default_view() }),
            self matches FLEntry::Mapped(a) ==> r == a,
    {
        match self {
            FLEntry::Bare(path) => {
                let mut art = OutFile::default();
                art.set_path(&path);
                art
            },
            FLEntry::Mapped(a) => a,
        }
    }
}

impl FLEntry<DepFile> {
    /// Turn the entry into its dependency record.
    pub fn to_artifact(self) -> (r: DepFile)
        ensures
            self matches FLEntry::Bare(p) ==> r@ == (DepFileV { path: p@, ..dep_default_view() }),
            self matches FLEntry::Mapped(a) ==> r == a,
    {
        match self {
            FLEntry::Bare(path) => {
                let mut art = DepFile::default();
                art.set_path(&path);
                art
            },
            FLEntry::Mapped(a) => a,
        }
    }
}

/// What one output entry decodes to under the two-shape rule.
pub open spec fn spec_out_entry(yv: YamlV) -> Result<OutFileV, DecErr> {
    match yv {
        YamlV::Str(s) => Ok(OutFileV { path: s, cache: true, md5: None, size: None }),
        YamlV::Dict(entries) => if entries.len() != 1 {
            Err(DecErr::ArtifactEntry)
        } else {
            match (entries[0].0, entries[0].1) {
                (YamlV::Str(name), YamlV::Dict(attrs)) => match spec_out_attrs(attrs) {
                    Ok(o) => Ok(OutFileV { path: name, ..o }),
                    Err(e) => Err(e),
                },
                _ => Err(DecErr::Structure),
            }
        },
        _ => Err(DecErr::Structure),
    }
}

/// What one dependency entry decodes to under the two-shape rule.
pub open spec fn spec_dep_entry(yv: YamlV) -> Result<DepFileV, DecErr> {
    match yv {
        YamlV::Str(s) => Ok(DepFileV { path: s, wdir: None, md5: None, size: None }),
        YamlV::Dict(entries) => if entries.len() != 1 {
            Err(DecErr::ArtifactEntry)
        } else {
            match (entries[0].0, entries[0].1) {
                (YamlV::Str(name), YamlV::Dict(attrs)) => match spec_dep_attrs(attrs) {
                    Ok(d) => Ok(DepFileV { path: name, ..d }),
                    Err(e) => Err(e),
                },
                _ => Err(DecErr::Structure),
            }
        },
        _ => Err(DecErr::Structure),
    }
}

/// Decode one output entry.
pub fn decode_out_entry(y: &Yaml) -> (r: Result<OutFile, DVCError>)
    ensures
        r is Ok <==> spec_out_entry(y@) is Ok,
        r matches Ok(o) ==> Ok::<OutFileV, DecErr>(o@) == spec_out_entry(y@),
        r matches Err(e) ==> err_matches(e, spec_out_entry(y@)->Err_0),
{
    match y {
        Yaml::Str(s) => {
            let entry: FLEntry<OutFile> = FLEntry::Bare(RelPath::new(s.clone()));
            Ok(entry.to_artifact())
        },
        Yaml::Dict(entries) => {
            proof {
                lemma_yaml_dict_view(entries@);
            }
            if entries.len() != 1 {
                return Err(DVCError::InvalidArtifactEntry);
            }
            match (&entries[0].0, &entries[0].1) {
                (Yaml::Str(name), Yaml::Dict(attrs)) => match decode_out_attrs(attrs) {
                    Ok(mut art) => {
                        art.set_path(&RelPath::new(name.clone()));
                        let entry: FLEntry<OutFile> = FLEntry::Mapped(art);
                        Ok(entry.to_artifact())
                    },
                    Err(e) => Err(e),
                },
                _ => Err(
                    DVCError::DecodeFailure(
                        String::from_str("an artifact mapping needs a string key and attributes"),
                    ),
                ),
            }
        },
        _ => Err(
            DVCError::DecodeFailure(String::from_str("an artifact entry is a string or a mapping")),
        ),
    }
}

/// Decode one dependency entry.
pub fn decode_dep_entry(y: &Yaml) -> (r: Result<DepFile, DVCError>)
    ensures
        r is Ok <==> spec_dep_entry(y@) is Ok,
        r matches Ok(d) ==> Ok::<DepFileV, DecErr>(d@) == spec_dep_entry(y@),
        r matches Err(e) ==> err_matches(e, spec_dep_entry(y@)->Err_0),
{
    match y {
        Yaml::Str(s) => {
            let entry: FLEntry<DepFile> = FLEntry::Bare(RelPath::new(s.clone()));
            Ok(entry.to_artifact())
        },
        Yaml::Dict(entries) => {
            proof {
                lemma_yaml_dict_view(entries@);
            }
            if entries.len() != 1 {
                return Err(DVCError::InvalidArtifactEntry);
            }
            match (&entries[0].0, &entries[0].1) {
                (Yaml::Str(name), Yaml::Dict(attrs)) => match decode_dep_attrs(attrs) {
                    Ok(mut art) => {
                        art.set_path(&RelPath::new(name.clone()));
                        let entry: FLEntry<DepFile> = FLEntry::Mapped(art);
                        Ok(entry.to_artifact())
                    },
                    Err(e) => Err(e),
                },
                _ => Err(
                    DVCError::DecodeFailure(
                        String::from_str("an artifact mapping needs a string key and attributes"),
                    ),
                ),
            }
        },
        _ => Err(
            DVCError::DecodeFailure(String::from_str("an artifact entry is a string or a mapping")),
        ),
    }
}

/// What a whole output list decodes to: each entry in order, stopping at
/// the first failing entry.
pub open spec fn spec_out_list(items: Seq<YamlV>) -> Result<Seq<OutFileV>, DecErr>
    decreases items,
{
    if items.len() == 0 {
        Ok(Seq::empty())
    } else {
        match spec_out_list(items.drop_last()) {
            Ok(pref) => match spec_out_entry(items.last()) {
                Ok(o) => Ok(pref.push(o)),
                Err(e) => Err(e),
            },
            Err(e) => Err(e),
        }
    }
}

/// What a whole dependency list decodes to: each entry in order, stopping
/// at the first failing entry.
pub open spec fn spec_dep_list(items: Seq<YamlV>) -> Result<Seq<DepFileV>, DecErr>
    decreases items,
{
    if items.len() == 0 {
        Ok(Seq::empty())
    } else {
        match spec_dep_list(items.drop_last()) {
            Ok(pref) => match spec_dep_entry(items.last()) {
                Ok(d) => Ok(pref.push(d)),
                Err(e) => Err(e),
            },
            Err(e) => Err(e),
        }
    }
}

/// Once a prefix of the list fails to decode, the whole list fails the
/// same way.
proof fn lemma_out_list_prefix_err(items: Seq<YamlV>, j: int)
    requires
        0 <= j <= items.len(),
        spec_out_list(items.take(j)) is Err,
    ensures
        spec_out_list(items) == spec_out_list(items.take(j)),
    decreases items.len(),
{
    if j < items.len() {
        assert(items.drop_last().take(j) =~= items.take(j));
        lemma_out_list_prefix_err(items.drop_last(), j);
    } else {
        assert(items.take(j) =~= items);
    }
}

/// Once a prefix of the list fails to decode, the whole list fails the
/// same way.
proof fn lemma_dep_list_prefix_err(items: Seq<YamlV>, j: int)
    requires
        0 <= j <= items.len(),
        spec_dep_list(items.take(j)) is Err,
    ensures
        spec_dep_list(items) == spec_dep_list(items.take(j)),
    decreases items.len(),
{
    if j < items.len() {
        assert(items.drop_last().take(j) =~= items.take(j));
        lemma_dep_list_prefix_err(items.drop_last(), j);
    } else {
        assert(items.take(j) =~= items);
    }
}

/// Decode an output list, entry by entry, in order.
pub fn decode_out_list(items: &Vec<Yaml>) -> (r: Result<Vec<OutFile>, DVCError>)
    ensures
        r is Ok <==> spec_out_list(yaml_list_view(items@)) is Ok,
        r matches Ok(v) ==> Ok::<Seq<OutFileV>, DecErr>(out_files_view(v@)) == spec_out_list(
            yaml_list_view(items@),
        ),
        r matches Err(e) ==> err_matches(e, spec_out_list(yaml_list_view(items@))->Err_0),
{
    let ghost lv = yaml_list_view(items@);
    proof {
        lemma_yaml_list_view(items@);
    }
    let mut out: Vec<OutFile> = Vec::new();
    proof {
        assert(lv.take(0) =~= Seq::<YamlV>::empty());
        assert(out_files_view(out@) =~= Seq::<OutFileV>::empty());
    }
    let n = items.len();
    let mut i: usize = 0;
    while i < n
        invariant
            n == items@.len(),
            i <= n,
            lv == yaml_list_view(items@),
            lv.len() == n,
            forall|k: int| 0 <= k < n ==> lv[k] == yaml_view(items@[k]),
            spec_out_list(lv.take(i as int)) == Ok::<Seq<OutFileV>, DecErr>(out_files_view(out@)),
        decreases n - i,
    {
        proof {
            assert(lv.take(i + 1).drop_last() =~= lv.take(i as int));
            assert(lv.take(i + 1).last() == lv[i as int]);
        }
        match decode_out_entry(&items[i]) {
            Ok(o) => {
                let ghost prev = out@;
                out.push(o);
                proof {
                    assert(out_files_view(out@) =~= out_files_view(prev).push(o@));
                }
            },
            Err(e) => {
                proof {
                    lemma_out_list_prefix_err(lv, i + 1);
                }
                return Err(e);
            },
        }
        i = i + 1;
    }
    proof {
        assert(lv.take(n as int) =~= lv);
    }
    Ok(out)
}

/// Decode a dependency list, entry by entry, in order.
pub fn decode_dep_list(items: &Vec<Yaml>) -> (r: Result<Vec<DepFile>, DVCError>)
    ensures
        r is Ok <==> spec_dep_list(yaml_list_view(items@)) is Ok,
        r matches Ok(v) ==> Ok::<Seq<DepFileV>, DecErr>(dep_files_view(v@)) == spec_dep_list(
            yaml_list_view(items@),
        ),
        r matches Err(e) ==> err_matches(e, spec_dep_list(yaml_list_view(items@))->Err_0),
{
    let ghost lv = yaml_list_view(items@);
    proof {
        lemma_yaml_list_view(items@);
    }
    let mut out: Vec<DepFile> = Vec::new();
    proof {
        assert(lv.take(0) =~= Seq::<YamlV>::empty());
        assert(dep_files_view(out@) =~= Seq::<DepFileV>::empty());
    }
    let n = items.len();
    let mut i: usize = 0;
    while i < n
        invariant
            n == items@.len(),
            i <= n,
            lv == yaml_list_view(items@),
            lv.len() == n,
            forall|k: int| 0 <= k < n ==> lv[k] == yaml_view(items@[k]),
            spec_dep_list(lv.take(i as int)) == Ok::<Seq<DepFileV>, DecErr>(dep_files_view(out@)),
        decreases n - i,
    {
        proof {
            assert(lv.take(i + 1).drop_last() =~= lv.take(i as int));
            assert(lv.take(i + 1).last() == lv[i as int]);
        }
        match decode_dep_entry(&items[i]) {
            Ok(d) => {
                let ghost prev = out@;
                out.push(d);
                proof {
                    assert(dep_files_view(out@) =~= dep_files_view(prev).push(d@));
                }
            },
            Err(e) => {
                proof {
                    lemma_dep_list_prefix_err(lv, i + 1);
                }
                return Err(e);
            },
        }
        i = i + 1;
    }
    proof {
        assert(lv.take(n as int) =~= lv);
    }
    Ok(out)
}

/// Law: a list of bare-string entries decodes to output records carrying
/// the given paths in the given order, with the cache flag at its default
/// `true`, no checksum and no size.
pub proof fn lemma_bare_out_list(items: Seq<YamlV>)
    requires
        forall|i: int| 0 <= i < items.len() ==> items[i] is Str,
    ensures
        spec_out_list(items) is Ok,
        spec_out_list(items)->Ok_0.len() == items.len(),
        forall|i: int|
            0 <= i < items.len() ==> spec_out_list(items)->Ok_0[i] == (OutFileV {
                path: items[i]->Str_0,
                cache: true,
                md5: None,
                size: None,
            }),
    decreases items,
{
    if items.len() > 0 {
        lemma_bare_out_list(items.drop_last());
    }
}

} // verus!

//! Classification of scanned files and parsing into typed records.
//!
//! The directory walk itself is filesystem work and lives with the host
//! application; it hands each regular file's name here to learn whether the
//! file is recognized, reads the recognized ones, and hands their text back
//! to be parsed.
use vstd::prelude::*;
use crate::DVCError;
use crate::text::{has_suffix, str_eq, str_ends_with};
use crate::yaml::{parse_yaml_text, yaml_doc, YamlV};
use crate::schemas::{DecErr, err_matches};
use crate::schemas::dvcfile::{SingleStage, SingleStageV, spec_single, decode_single};
use crate::schemas::lockfile::{LockState, LockStateV, spec_lock_state, decode_lock_state};
use crate::schemas::pipeline::{Pipeline, PipelineV, spec_pipeline, decode_pipeline};

verus! {

/// The kind a recognized file name classifies to.
#[derive(PartialEq, Eq, Structural, Clone, Copy)]
pub enum FileKind {
    /// The exact name `dvc.yaml`: a pipeline manifest.
    Pipeline,
    /// The exact name `dvc.lock`: a lock file.
    Lock,
    /// Any other name ending in `.dvc`: a single-artifact descriptor.
    Single,
}

/// How a file name classifies: `dvc.yaml` and `dvc.lock` exactly, then any
/// name ending in `.dvc`; every other name is ignored.
pub open spec fn classify_spec(name: Seq<char>) -> Option<FileKind> {
    if name == "dvc.yaml"@ {
        Some(FileKind::Pipeline)
    } else if name == "dvc.lock"@ {
        Some(FileKind::Lock)
    } else if has_suffix(name, ".dvc"@) {
        Some(FileKind::Single)
    } else {
        None
    }
}

/// Classify a file by its name; an unrecognized name is no error.
pub fn classify(name: &str) -> (r: Option<FileKind>)
    ensures
        r == classify_spec(name@),
{
    if str_eq(name, "dvc.yaml") {
        Some(FileKind::Pipeline)
    } else if str_eq(name, "dvc.lock") {
        Some(FileKind::Lock)
    } else if str_ends_with(name, ".dvc") {
        Some(FileKind::Single)
    } else {
        None
    }
}

/// One scanned source: the typed record a recognized file parsed to.
pub enum Src {
    /// A single-artifact descriptor file.
    Single(SingleStage),
    /// A pipeline manifest.
    Pipe(Pipeline),
    /// A lock file.
    Lock(LockState),
}

/// The mathematical view of a [`Src`].
pub enum SrcV {
    Single(SingleStageV),
    Pipe(PipelineV),
    Lock(LockStateV),
}

impl View for Src {
    type V = SrcV;

    open spec fn view(&self) -> SrcV {
        match self {
            Src::Single(s) => SrcV::Single(s@),
            Src::Pipe(p) => SrcV::Pipe(p@),
            Src::Lock(l) => SrcV::Lock(l@),
        }
    }
}

/// What a recognized file's document decodes to, by its kind.
pub open spec fn spec_parse_source(kind: FileKind, doc: YamlV) -> Result<SrcV, DecErr> {
    match kind {
        FileKind::Pipeline => match spec_pipeline(doc) {
            Ok(p) => Ok(SrcV::Pipe(p)),
            Err(e) => Err(e),
        },
        FileKind::Lock => match spec_lock_state(doc) {
            Ok(l) => Ok(SrcV::Lock(l)),
            Err(e) => Err(e),
        },
        FileKind::Single => match spec_single(doc) {
            Ok(s) => Ok(SrcV::Single(s)),
            Err(e) => Err(e),
        },
    }
}

/// Parse the text of a recognized file into its typed record.
pub fn parse_source(kind: FileKind, text: &str) -> (r: Result<Src, DVCError>)
    ensures
        r is Ok <==> (yaml_doc(text@) is Some && spec_parse_source(kind, yaml_doc(text@)->0)
            is Ok),
        r matches Ok(s) ==> Ok::<SrcV, DecErr>(s@) == spec_parse_source(
            kind,
            yaml_doc(text@)->0,
        ),
        r matches Err(e) ==> (if yaml_doc(text@) is None {
            e is DecodeFailure
        } else {
            err_matches(e, spec_parse_source(kind, yaml_doc(text@)->0)->Err_0)
        }),
{
    let y = match parse_yaml_text(text) {
        Ok(y) => y,
        Err(msg) => {
            return Err(DVCError::DecodeFailure(msg));
        },
    };
    match kind {
        FileKind::Pipeline => match decode_pipeline(&y) {
            Ok(p) => Ok(Src::Pipe(p)),
            Err(e) => Err(e),
        },
        FileKind::Lock => match decode_lock_state(&y) {
            Ok(l) => Ok(Src::Lock(l)),
            Err(e) => Err(e),
        },
        FileKind::Single => match decode_single(&y) {
            Ok(s) => Ok(Src::Single(s)),
            Err(e) => Err(e),
        },
    }
}

} // verus!

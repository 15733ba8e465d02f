//! A scanned pipeline manifest together with its path and, when one was
//! found, its lock state.
use vstd::prelude::*;
use crate::paths::RelPath;
use crate::schemas::pipeline::{Pipeline, PipelineV};
use crate::schemas::lockfile::{LockState, LockStateV};

verus! {

/// A pipeline, with its lock state (if available).
pub struct PipelineFile {
    pub path: RelPath,
    pub manifest: Pipeline,
    pub lock: Option<LockState>,
}

/// The mathematical view of a [`PipelineFile`].
pub struct PipelineFileV {
    pub path: Seq<char>,
    pub manifest: PipelineV,
    pub lock: Option<LockStateV>,
}

impl View for PipelineFile {
    type V = PipelineFileV;

    open spec fn view(&self) -> PipelineFileV {
        PipelineFileV {
            path: self.path@,
            manifest: self.manifest@,
            lock: match self.lock {
                Some(l) => Some(l@),
                None => None,
            },
        }
    }
}

/// The views of a sequence of scanned pipeline manifests.
pub open spec fn pipeline_files_view(s: Seq<PipelineFile>) -> Seq<PipelineFileV> {
    Seq::new(s.len(), |i: int| s[i]@)
}

} // verus!

//! A scanned single-stage descriptor file together with its path.
use vstd::prelude::*;
use crate::paths::RelPath;
use crate::schemas::dvcfile::{SingleStage, SingleStageV};

verus! {

/// A file containing a single stage.
pub struct DVCFile {
    pub path: RelPath,
    pub stage: SingleStage,
}

/// The mathematical view of a [`DVCFile`].
pub struct DVCFileV {
    pub path: Seq<char>,
    pub stage: SingleStageV,
}

impl View for DVCFile {
    type V = DVCFileV;

    open spec fn view(&self) -> DVCFileV {
        DVCFileV { path: self.path@, stage: self.stage@ }
    }
}

/// The views of a sequence of scanned descriptor files.
pub open spec fn dvcfiles_view(s: Seq<DVCFile>) -> Seq<DVCFileV> {
    Seq::new(s.len(), |i: int| s[i]@)
}

} // verus!

//! Data structures representing the schemas of the recognized files.
use vstd::prelude::*;
use crate::DVCError;
use crate::paths::RelPath;

pub mod dep;
pub mod dvcfile;
pub mod lockfile;
pub mod out;
pub mod pipeline;

pub use dep::DepFile;
pub use dvcfile::SingleStage;
pub use lockfile::LockState;
pub use out::OutFile;
pub use pipeline::Pipeline;

verus! {

/// The kind of failure a decoding step reports, at the specification level.
pub enum DecErr {
    /// The node does not have the shape the schema asks for.
    Structure,
    /// An artifact mapping held zero keys or more than one key.
    ArtifactEntry,
}

/// Whether a reported error carries the kind a decoding specification names.
pub open spec fn err_matches(e: DVCError, k: DecErr) -> bool {
    match k {
        DecErr::Structure => e is DecodeFailure,
        DecErr::ArtifactEntry => e is InvalidArtifactEntry,
    }
}

/// Operations shared by every artifact record.
pub trait Artifact: Sized {
    /// The stored path of the artifact.
    spec fn spec_path(&self) -> Seq<char>;

    /// The stored checksum of the artifact.
    spec fn spec_md5(&self) -> Option<Seq<char>>;

    /// Get the path of this artifact (as stored).
    fn path(&self) -> (r: &RelPath)
        ensures
            r@ == self.spec_path(),
    ;

    /// Set the path of the artifact.
    fn set_path(&mut self, path: &RelPath)
        ensures
            final(self).spec_path() == path@,
            final(self).spec_md5() == old(self).spec_md5(),
    ;

    /// Get the checksum of the artifact.
    fn md5(&self) -> (r: Option<&String>)
        ensures
            r is Some <==> self.spec_md5() is Some,
            r matches Some(s) ==> Some(s@) == self.spec_md5(),
    ;
}

} // verus!

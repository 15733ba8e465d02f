//! Repository-relative paths.
//!
//! A [`RelPath`] holds the textual form of a path relative to the scan root.
//! The structural operations (parent, normalized join, relativization) are
//! delegated to the `relative-path` crate behind trusted wrappers; their
//! results are pinned by the named spec functions below.
use vstd::prelude::*;
use vstd::string::StrSliceExecFns;
use vstd::string::StringExecFns;
use crate::text::has_suffix;

verus! {

/// What `relative_path::RelativePath::join_normalized` returns: the
/// right-hand path joined onto the left one, with `.` and `..` segments
/// normalized away.
pub uninterp spec fn join_norm(base: Seq<char>, rel: Seq<char>) -> Seq<char>;

/// What `relative_path::RelativePath::parent` returns: the path without its
/// final component, or nothing for the empty path.
pub uninterp spec fn parent_of(p: Seq<char>) -> Option<Seq<char>>;

/// What `relative_path::RelativePathBuf::from_path` returns: the
/// relative-path form of a filesystem path, or nothing when the path is
/// absolute or has a non-representable prefix.
pub uninterp spec fn rel_of(s: Seq<char>) -> Option<Seq<char>>;

/// What `relative_path::RelativePath::relative` returns: a path that leads
/// from the first path to the second.
pub uninterp spec fn relative_between(from: Seq<char>, to: Seq<char>) -> Seq<char>;

/// What `relative_path::RelativePath::normalize` returns: the path with
/// `.` and `..` segments folded away, parent components kept only at the
/// front.
pub uninterp spec fn normalized_of(p: Seq<char>) -> Seq<char>;

/// Relies on `relative_path::RelativePath::join_normalized` to compose two
/// relative paths, normalizing `.` and `..` segments.
#[verifier::external_body]
pub(crate) fn join_normalized_str(base: &str, rel: &str) -> (r: String)
    ensures
        r@ == join_norm(base@, rel@),
{
    relative_path::RelativePath::new(base).join_normalized(rel).into_string()
}

/// Relies on `relative_path::RelativePath::parent`, which returns the path
/// without its final component and returns nothing exactly for the empty
/// path.
#[verifier::external_body]
pub(crate) fn parent_str(p: &str) -> (r: Option<String>)
    ensures
        r is Some <==> parent_of(p@) is Some,
        r is Some <==> p@.len() != 0,
        r matches Some(q) ==> q@ == parent_of(p@)->0,
{
    relative_path::RelativePath::new(p).parent().map(|q| q.as_str().to_owned())
}

/// Relies on `relative_path::RelativePathBuf::from_path`, which accepts a
/// filesystem path with no root or prefix component and rejects any other.
#[verifier::external_body]
pub(crate) fn relativize_str(s: &str) -> (r: Option<String>)
    ensures
        r is Some <==> rel_of(s@) is Some,
        r matches Some(q) ==> q@ == rel_of(s@)->0,
{
    relative_path::RelativePathBuf::from_path(s).ok().map(
        relative_path::RelativePathBuf::into_string,
    )
}

/// Relies on `relative_path::RelativePath::relative` to compute the path
/// leading from the first path to the second. Its source builds the result
/// from already-normalized components and never puts a separator first, so
/// the result is its own normalized form and is not absolute; computed from
/// the empty path, the result is the target's normalized form, and joining
/// the empty path back onto it returns it unchanged.
#[verifier::external_body]
pub(crate) fn relative_str(from: &str, to: &str) -> (r: String)
    ensures
        r@ == relative_between(from@, to@),
        normalized_of(r@) == r@,
        r@.len() > 0 ==> r@[0] != '/',
        from@ == Seq::<char>::empty() ==> r@ == normalized_of(to@) && join_norm(from@, r@) == r@,
{
    relative_path::RelativePath::new(from).relative(relative_path::RelativePath::new(to))
        .into_string()
}

/// A path expressed relative to the scan root, stored textually.
pub struct RelPath {
    inner: String,
}

impl View for RelPath {
    type V = Seq<char>;

    closed spec fn view(&self) -> Seq<char> {
        self.inner@
    }
}

impl Clone for RelPath {
    fn clone(&self) -> (r: Self)
        ensures
            r == *self,
    {
        RelPath { inner: self.inner.clone() }
    }
}

/// The expected lock-file path of a pipeline manifest path: the `.yaml`
/// extension replaced by `.lock`; nothing for a path without that extension.
pub open spec fn lock_path_spec(p: Seq<char>) -> Option<Seq<char>> {
    if has_suffix(p, ".yaml"@) {
        Some(p.subrange(0, p.len() - 5) + ".lock"@)
    } else {
        None
    }
}

impl RelPath {
    /// Wrap an already-relative textual path.
    pub fn new(s: String) -> (r: RelPath)
        ensures
            r@ == s@,
    {
        RelPath { inner: s }
    }

    /// Read the textual form.
    pub fn as_str(&self) -> (r: &str)
        ensures
            r@ == self@,
    {
        self.inner.as_str()
    }

    /// The path without its final component; nothing for the empty path.
    pub fn parent(&self) -> (r: Option<RelPath>)
        ensures
            r is Some <==> parent_of(self@) is Some,
            r is Some <==> self@.len() != 0,
            r matches Some(q) ==> q@ == parent_of(self@)->0,
    {
        match parent_str(self.inner.as_str()) {
            Some(q) => Some(RelPath { inner: q }),
            None => None,
        }
    }

    /// Join a path onto this one, normalizing `.` and `..` segments.
    pub fn join_normalized(&self, rel: &str) -> (r: RelPath)
        ensures
            r@ == join_norm(self@, rel@),
    {
        RelPath { inner: join_normalized_str(self.inner.as_str(), rel) }
    }

    /// The sibling path under which this pipeline manifest's lock file is
    /// expected: the `.yaml` extension replaced by `.lock`.
    pub fn expected_lock_path(&self) -> (r: Option<RelPath>)
        ensures
            r is Some <==> lock_path_spec(self@) is Some,
            r matches Some(q) ==> q@ == lock_path_spec(self@)->0,
    {
        proof {
            reveal_strlit(".yaml");
            reveal_strlit(".lock");
        }
        let s = self.inner.as_str();
        if !crate::text::str_ends_with(s, ".yaml") {
            return None;
        }
        let n = s.unicode_len();
        let stem = s.substring_char(0, n - 5);
        let mut out = stem.to_owned();
        out.append(".lock");
        Some(RelPath { inner: out })
    }
}

} // verus!

//! Fully-qualified definition paths and exact, segment-wise path matching.

use vstd::prelude::*;

verus! {

/// A fully-qualified definition path: an ordered sequence of name segments,
/// such as `["snafu", "ResultExt", "context"]`.  Its view is the sequence of
/// the segments' character sequences.  Equality of paths is segment-wise,
/// order-sensitive and length-sensitive: a path never matches a mere prefix
/// or suffix of another.
#[derive(Clone)]
pub struct QualifiedPath {
    pub segments: Vec<String>,
}

impl View for QualifiedPath {
    type V = Seq<Seq<char>>;

    open spec fn view(&self) -> Seq<Seq<char>> {
        Seq::new(self.segments@.len(), |i: int| self.segments@[i]@)
    }
}

impl QualifiedPath {
    /// True exactly when the two paths have the same segments in the same
    /// order: no wildcard, prefix or substring matching.
    pub fn matches(&self, other: &QualifiedPath) -> (r: bool)
        ensures
            r == (self@ == other@),
    {
        if self.segments.len() != other.segments.len() {
            assert(self@.len() != other@.len());
            return false;
        }
        let n = self.segments.len();
        let mut i: usize = 0;
        while i < n
            invariant
                n == self.segments@.len(),
                n == other.segments@.len(),
                i <= n,
                forall|j: int| 0 <= j < i ==> self@[j] == other@[j],
            decreases n - i,
        {
            if !(self.segments[i] == other.segments[i]) {
                assert(self@[i as int] != other@[i as int]);
                return false;
            }
            i = i + 1;
        }
        assert(self@ =~= other@);
        true
    }
}

/// A collection of qualified paths, used both for the context-attachment
/// forms and for the allow-list.  Membership is exact path equality with
/// some member.
pub struct PathSet {
    pub paths: Vec<QualifiedPath>,
}

impl View for PathSet {
    type V = Seq<Seq<Seq<char>>>;

    open spec fn view(&self) -> Seq<Seq<Seq<char>>> {
        Seq::new(self.paths@.len(), |i: int| self.paths@[i]@)
    }
}

impl PathSet {
    /// True exactly when `resolved` is segment-wise equal to some member.
    pub fn contains_path(&self, resolved: &QualifiedPath) -> (r: bool)
        ensures
            r == self@.contains(resolved@),
    {
        let n = self.paths.len();
        let mut i: usize = 0;
        while i < n
            invariant
                n == self.paths@.len(),
                i <= n,
                forall|j: int| 0 <= j < i ==> self@[j] != resolved@,
            decreases n - i,
        {
            if self.paths[i].matches(resolved) {
                assert(self@[i as int] == resolved@);
                return true;
            }
            i = i + 1;
        }
        assert(!self@.contains(resolved@));
        false
    }
}

} // verus!

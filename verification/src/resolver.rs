//! Path resolution: from a decoded request path to a file beneath the root.
//!
//! The filesystem itself is consulted elsewhere; this module decides which
//! name to look up and whether the canonical answer may be served.

use vstd::prelude::*;
use vstd::string::StrSliceExecFns;
use vstd::string::StringExecFns;

verus! {

/// A canonical absolute path, held as its components in order from the
/// filesystem root. Each component is the exact byte string of one path
/// element, so distinct paths never share a representation.
#[derive(Clone, Debug, PartialEq, Eq)]
pub struct CanonicalPath {
    pub components: Vec<Vec<u8>>,
}

impl View for CanonicalPath {
    type V = Seq<Seq<u8>>;

    open spec fn view(&self) -> Seq<Seq<u8>> {
        Seq::new(self.components@.len(), |i: int| self.components@[i]@)
    }
}

/// Containment: `path` is `root` itself or one of its descendants. The
/// comparison is by whole components, so a sibling whose name merely begins
/// with the root's name is not contained.
pub open spec fn is_within(root: Seq<Seq<u8>>, path: Seq<Seq<u8>>) -> bool {
    root.is_prefix_of(path)
}

impl CanonicalPath {
    /// Whether `base` is a component-wise prefix of this path.
    pub fn starts_with(&self, base: &CanonicalPath) -> (within: bool)
        ensures
            within == is_within(base@, self@),
    {
        if base.components.len() > self.components.len() {
            return false;
        }
        let mut i: usize = 0;
        while i < base.components.len()
            invariant
                i <= base.components.len() <= self.components.len(),
                forall|j: int| 0 <= j < i ==> base@[j] == self@[j],
            decreases base.components.len() - i,
        {
            if !(base.components[i] == self.components[i]) {
                assert(base@[i as int] != self@[i as int]);
                assert(self@.subrange(0, base@.len() as int)[i as int] == self@[i as int]);
                return false;
            }
            i += 1;
        }
        assert(base@ =~= self@.subrange(0, base@.len() as int));
        true
    }
}

/// The name, beneath the root, of the page that answers a request for
/// nothing that may be served.
pub const FALLBACK_PAGE: &'static str = "404.html";

/// What canonicalizing a target reported.
#[derive(Clone, Debug, PartialEq, Eq)]
pub enum Resolution {
    /// The target exists; this is its canonical absolute path.
    Canonical(CanonicalPath),
    /// The target does not exist.
    Missing,
    /// The lookup failed for a reason other than absence.
    Fault,
}

/// The mathematical content of a [`Resolution`].
pub enum ResolutionView {
    Canonical(Seq<Seq<u8>>),
    Missing,
    Fault,
}

impl View for Resolution {
    type V = ResolutionView;

    open spec fn view(&self) -> ResolutionView {
        match self {
            Resolution::Canonical(path) => ResolutionView::Canonical(path@),
            Resolution::Missing => ResolutionView::Missing,
            Resolution::Fault => ResolutionView::Fault,
        }
    }
}

/// A classified resolution. Absence and escape from the root share the one
/// variant `NotFound`, so nothing downstream can tell them apart.
#[derive(Clone, Debug, PartialEq, Eq)]
pub enum Outcome {
    /// The target exists beneath the root, at this canonical path.
    Found(CanonicalPath),
    /// There is nothing to serve.
    NotFound,
    /// The lookup itself failed.
    Fault,
}

/// The mathematical content of an [`Outcome`].
pub enum OutcomeView {
    Found(Seq<Seq<u8>>),
    NotFound,
    Fault,
}

impl View for Outcome {
    type V = OutcomeView;

    open spec fn view(&self) -> OutcomeView {
        match self {
            Outcome::Found(path) => OutcomeView::Found(path@),
            Outcome::NotFound => OutcomeView::NotFound,
            Outcome::Fault => OutcomeView::Fault,
        }
    }
}

/// The name to look up beneath the root for a decoded request path: the
/// index page for `/`, otherwise the path without one leading slash,
/// followed by the suffix.
pub open spec fn target_of(decoded_path: Seq<char>, suffix: Seq<char>) -> Seq<char> {
    if decoded_path == "/"@ {
        "index.html"@
    } else if decoded_path.len() > 0 && decoded_path[0] == '/' {
        decoded_path.drop_first() + suffix
    } else {
        decoded_path + suffix
    }
}

/// The classification of a resolution against a root.
pub open spec fn classified(resolution: ResolutionView, root: Seq<Seq<u8>>) -> OutcomeView {
    match resolution {
        ResolutionView::Canonical(path) => if is_within(root, path) {
            OutcomeView::Found(path)
        } else {
            OutcomeView::NotFound
        },
        ResolutionView::Missing => OutcomeView::NotFound,
        ResolutionView::Fault => OutcomeView::Fault,
    }
}

/// Computes the name to look up beneath the root.
pub fn target_path(decoded_path: &str, suffix: &str) -> (target: String)
    ensures
        target@ == target_of(decoded_path@, suffix@),
{
    proof {
        reveal_strlit("/");
    }
    let len = decoded_path.unicode_len();
    if len == 1 && decoded_path.get_char(0) == '/' {
        assert(decoded_path@ =~= "/"@);
        "index.html".to_owned()
    } else if len > 0 && decoded_path.get_char(0) == '/' {
        let mut target = decoded_path.substring_char(1, len).to_owned();
        target.append(suffix);
        target
    } else {
        let mut target = decoded_path.to_owned();
        target.append(suffix);
        target
    }
}

/// Classifies what the filesystem reported: only a canonical path within the
/// root is `Found`; a path outside it is `NotFound`, as a missing one is.
pub fn classify(resolution: Resolution, root: &CanonicalPath) -> (outcome: Outcome)
    ensures
        outcome@ == classified(resolution@, root@),
{
    match resolution {
        Resolution::Canonical(path) => {
            if path.starts_with(root) {
                Outcome::Found(path)
            } else {
                Outcome::NotFound
            }
        },
        Resolution::Missing => Outcome::NotFound,
        Resolution::Fault => Outcome::Fault,
    }
}

} // verus!

//! Source kinds: how the URL of a source is to be taken, and for a git
//! repository which reference of it is meant.

use std::cmp::Ordering;
use vstd::prelude::*;
use vstd::std_specs::cmp::PartialEqSpecImpl;
use vstd::std_specs::cmp::PartialOrdSpecImpl;
use vstd::string::StringExecFns;
use crate::order::{compare_text, text_order};
use crate::source_url::{form_encode, form_encoded, pairs_view};
use crate::text::{opt_view, text_eq};

verus! {

/// What of a git repository is meant.
///
/// References are ordered as their variants stand here, then by their texts.
#[derive(Debug, Eq, Hash, Ord)]
pub enum GitReference {
    /// The tag of this name.
    Tag(String),
    /// The branch of this name.
    Branch(String),
    /// This revision.
    Rev(String),
    /// The default branch of the repository.
    DefaultBranch,
}

/// What a `GitReference` holds.
pub enum GitReferenceView {
    Tag(Seq<char>),
    Branch(Seq<char>),
    Rev(Seq<char>),
    DefaultBranch,
}

impl View for GitReference {
    type V = GitReferenceView;

    open spec fn view(&self) -> GitReferenceView {
        match self {
            GitReference::Tag(s) => GitReferenceView::Tag(s@),
            GitReference::Branch(s) => GitReferenceView::Branch(s@),
            GitReference::Rev(s) => GitReferenceView::Rev(s@),
            GitReference::DefaultBranch => GitReferenceView::DefaultBranch,
        }
    }
}

/// How the URL of a source is to be taken.
///
/// Kinds are ordered as their variants stand here, a path first and a git
/// repository last, and git repositories by their references.
#[derive(Debug, Eq, Hash, Ord)]
pub enum SourceKind {
    /// A directory on this machine.
    Path,
    /// A registry with an index in a git repository.
    Registry,
    /// A registry read over HTTP, file by file.
    SparseRegistry,
    /// A git repository.
    Git(GitReference),
}

/// What a `SourceKind` holds.
pub enum SourceKindView {
    Path,
    Registry,
    SparseRegistry,
    Git(GitReferenceView),
}

impl View for SourceKind {
    type V = SourceKindView;

    open spec fn view(&self) -> SourceKindView {
        match self {
            SourceKind::Path => SourceKindView::Path,
            SourceKind::Registry => SourceKindView::Registry,
            SourceKind::SparseRegistry => SourceKindView::SparseRegistry,
            SourceKind::Git(r) => SourceKindView::Git(r@),
        }
    }
}

/// The reference after one more pair of a query: `branch` and `ref` name a
/// branch, `rev` a revision, `tag` a tag, and any other name changes nothing.
pub open spec fn reference_step(before: GitReferenceView, pair: (Seq<char>, Seq<char>)) -> GitReferenceView {
    if pair.0 == "branch"@ || pair.0 == "ref"@ {
        GitReferenceView::Branch(pair.1)
    } else if pair.0 == "rev"@ {
        GitReferenceView::Rev(pair.1)
    } else if pair.0 == "tag"@ {
        GitReferenceView::Tag(pair.1)
    } else {
        before
    }
}

/// The reference that the pairs of a query select: the last pair that names
/// one decides, and with none the default branch is meant.
pub open spec fn reference_of(pairs: Seq<(Seq<char>, Seq<char>)>) -> GitReferenceView
    decreases pairs.len(),
{
    if pairs.len() == 0 {
        GitReferenceView::DefaultBranch
    } else {
        reference_step(reference_of(pairs.drop_last()), pairs.last())
    }
}

/// The query that selects `reference`: its name, `=`, and its value as
/// `encoded` gives it. The default branch needs none.
pub open spec fn reference_query(reference: GitReferenceView, encoded: bool) -> Option<Seq<char>> {
    match reference {
        GitReferenceView::Branch(s) => Some("branch="@ + query_value(s, encoded)),
        GitReferenceView::Tag(s) => Some("tag="@ + query_value(s, encoded)),
        GitReferenceView::Rev(s) => Some("rev="@ + query_value(s, encoded)),
        GitReferenceView::DefaultBranch => None,
    }
}

/// `value` as it stands in a query: encoded, or as it is.
pub open spec fn query_value(value: Seq<char>, encoded: bool) -> Seq<char> {
    if encoded {
        form_encoded(value)
    } else {
        value
    }
}

/// The prefix that marks `kind` before a URL. A sparse registry has none: its
/// URL carries the mark itself.
pub open spec fn protocol_of(kind: SourceKindView) -> Option<Seq<char>> {
    match kind {
        SourceKindView::Path => Some("path"@),
        SourceKindView::Git(_) => Some("git"@),
        SourceKindView::Registry => Some("registry"@),
        SourceKindView::SparseRegistry => None,
    }
}

/// `name` followed by `value`.
fn query_pair(name: &str, value: &str) -> (r: String)
    ensures
        r@ == name@ + value@,
{
    let mut out = String::from_str(name);
    out.append(value);
    out
}

impl PartialEq for GitReference {
    fn eq(&self, other: &GitReference) -> (r: bool) {
        match (self, other) {
            (GitReference::Tag(a), GitReference::Tag(b)) => *a == *b,
            (GitReference::Branch(a), GitReference::Branch(b)) => *a == *b,
            (GitReference::Rev(a), GitReference::Rev(b)) => *a == *b,
            (GitReference::DefaultBranch, GitReference::DefaultBranch) => true,
            _ => false,
        }
    }
}

impl PartialEqSpecImpl for GitReference {
    open spec fn obeys_eq_spec() -> bool {
        true
    }

    open spec fn eq_spec(&self, other: &GitReference) -> bool {
        self@ == other@
    }
}

impl PartialEq for SourceKind {
    fn eq(&self, other: &SourceKind) -> (r: bool) {
        match (self, other) {
            (SourceKind::Path, SourceKind::Path) => true,
            (SourceKind::Registry, SourceKind::Registry) => true,
            (SourceKind::SparseRegistry, SourceKind::SparseRegistry) => true,
            (SourceKind::Git(a), SourceKind::Git(b)) => *a == *b,
            _ => false,
        }
    }
}

impl PartialEqSpecImpl for SourceKind {
    open spec fn obeys_eq_spec() -> bool {
        true
    }

    open spec fn eq_spec(&self, other: &SourceKind) -> bool {
        self@ == other@
    }
}

/// The order of two references: that of their variants, and within one
/// variant that of their texts.
pub open spec fn reference_order(a: GitReferenceView, b: GitReferenceView) -> Ordering {
    match (a, b) {
        (GitReferenceView::Tag(x), GitReferenceView::Tag(y)) => text_order(x, y),
        (GitReferenceView::Tag(_), _) => Ordering::Less,
        (_, GitReferenceView::Tag(_)) => Ordering::Greater,
        (GitReferenceView::Branch(x), GitReferenceView::Branch(y)) => text_order(x, y),
        (GitReferenceView::Branch(_), _) => Ordering::Less,
        (_, GitReferenceView::Branch(_)) => Ordering::Greater,
        (GitReferenceView::Rev(x), GitReferenceView::Rev(y)) => text_order(x, y),
        (GitReferenceView::Rev(_), _) => Ordering::Less,
        (_, GitReferenceView::Rev(_)) => Ordering::Greater,
        (GitReferenceView::DefaultBranch, GitReferenceView::DefaultBranch) => Ordering::Equal,
    }
}

/// The order of two kinds: that of their variants, and for two git
/// repositories that of their references.
pub open spec fn kind_order(a: SourceKindView, b: SourceKindView) -> Ordering {
    match (a, b) {
        (SourceKindView::Path, SourceKindView::Path) => Ordering::Equal,
        (SourceKindView::Path, _) => Ordering::Less,
        (_, SourceKindView::Path) => Ordering::Greater,
        (SourceKindView::Registry, SourceKindView::Registry) => Ordering::Equal,
        (SourceKindView::Registry, _) => Ordering::Less,
        (_, SourceKindView::Registry) => Ordering::Greater,
        (SourceKindView::SparseRegistry, SourceKindView::SparseRegistry) => Ordering::Equal,
        (SourceKindView::SparseRegistry, _) => Ordering::Less,
        (_, SourceKindView::SparseRegistry) => Ordering::Greater,
        (SourceKindView::Git(x), SourceKindView::Git(y)) => reference_order(x, y),
    }
}

/// The order of two optional kinds: none comes first.
pub open spec fn option_kind_order(a: Option<SourceKindView>, b: Option<SourceKindView>) -> Ordering {
    match (a, b) {
        (None, None) => Ordering::Equal,
        (None, Some(_)) => Ordering::Less,
        (Some(_), None) => Ordering::Greater,
        (Some(x), Some(y)) => kind_order(x, y),
    }
}

impl PartialOrd for GitReference {
    fn partial_cmp(&self, other: &GitReference) -> (r: Option<Ordering>) {
        Some(
            match (self, other) {
                (GitReference::Tag(x), GitReference::Tag(y)) => compare_text(x.as_str(), y.as_str()),
                (GitReference::Tag(_), _) => Ordering::Less,
                (_, GitReference::Tag(_)) => Ordering::Greater,
                (GitReference::Branch(x), GitReference::Branch(y)) => compare_text(
                    x.as_str(),
                    y.as_str(),
                ),
                (GitReference::Branch(_), _) => Ordering::Less,
                (_, GitReference::Branch(_)) => Ordering::Greater,
                (GitReference::Rev(x), GitReference::Rev(y)) => compare_text(x.as_str(), y.as_str()),
                (GitReference::Rev(_), _) => Ordering::Less,
                (_, GitReference::Rev(_)) => Ordering::Greater,
                (GitReference::DefaultBranch, GitReference::DefaultBranch) => Ordering::Equal,
            },
        )
    }
}

impl PartialOrdSpecImpl for GitReference {
    open spec fn obeys_partial_cmp_spec() -> bool {
        true
    }

    open spec fn partial_cmp_spec(&self, other: &GitReference) -> Option<Ordering> {
        Some(reference_order(self@, other@))
    }
}

impl PartialOrd for SourceKind {
    fn partial_cmp(&self, other: &SourceKind) -> (r: Option<Ordering>) {
        match (self, other) {
            (SourceKind::Path, SourceKind::Path) => Some(Ordering::Equal),
            (SourceKind::Path, _) => Some(Ordering::Less),
            (_, SourceKind::Path) => Some(Ordering::Greater),
            (SourceKind::Registry, SourceKind::Registry) => Some(Ordering::Equal),
            (SourceKind::Registry, _) => Some(Ordering::Less),
            (_, SourceKind::Registry) => Some(Ordering::Greater),
            (SourceKind::SparseRegistry, SourceKind::SparseRegistry) => Some(Ordering::Equal),
            (SourceKind::SparseRegistry, _) => Some(Ordering::Less),
            (_, SourceKind::SparseRegistry) => Some(Ordering::Greater),
            (SourceKind::Git(x), SourceKind::Git(y)) => x.partial_cmp(y),
        }
    }
}

impl PartialOrdSpecImpl for SourceKind {
    open spec fn obeys_partial_cmp_spec() -> bool {
        true
    }

    open spec fn partial_cmp_spec(&self, other: &SourceKind) -> Option<Ordering> {
        Some(kind_order(self@, other@))
    }
}

impl Clone for GitReference {
    fn clone(&self) -> (r: GitReference)
        ensures
            r@ == self@,
    {
        match self {
            GitReference::Tag(s) => GitReference::Tag(s.clone()),
            GitReference::Branch(s) => GitReference::Branch(s.clone()),
            GitReference::Rev(s) => GitReference::Rev(s.clone()),
            GitReference::DefaultBranch => GitReference::DefaultBranch,
        }
    }
}

impl Clone for SourceKind {
    fn clone(&self) -> (r: SourceKind)
        ensures
            r@ == self@,
    {
        match self {
            SourceKind::Path => SourceKind::Path,
            SourceKind::Registry => SourceKind::Registry,
            SourceKind::SparseRegistry => SourceKind::SparseRegistry,
            SourceKind::Git(reference) => SourceKind::Git(reference.clone()),
        }
    }
}

impl GitReference {
    /// The reference that the pairs of a query select.
    pub fn from_query(pairs: &Vec<(String, String)>) -> (r: GitReference)
        ensures
            r@ == reference_of(pairs_view(pairs@)),
    {
        let ghost all = pairs_view(pairs@);
        let mut reference = GitReference::DefaultBranch;
        let mut i: usize = 0;
        while i < pairs.len()
            invariant
                i <= pairs.len(),
                all == pairs_view(pairs@),
                reference@ == reference_of(all.take(i as int)),
            decreases pairs.len() - i,
        {
            let key = pairs[i].0.as_str();
            let value = pairs[i].1.as_str();
            proof {
                assert(all.take(i + 1).drop_last() == all.take(i as int));
                assert(all.take(i + 1).last() == (key@, value@));
            }
            if text_eq(key, "branch") || text_eq(key, "ref") {
                reference = GitReference::Branch(String::from_str(value));
            } else if text_eq(key, "rev") {
                reference = GitReference::Rev(String::from_str(value));
            } else if text_eq(key, "tag") {
                reference = GitReference::Tag(String::from_str(value));
            }
            i += 1;
        }
        assert(all.take(i as int) == all);
        reference
    }

    /// The query that selects this reference, with its value encoded for a
    /// query where `url_encoded` is set. The default branch needs none.
    pub fn pretty_ref(&self, url_encoded: bool) -> (r: Option<String>)
        ensures
            opt_view(r) == reference_query(self@, url_encoded),
    {
        match self {
            GitReference::DefaultBranch => None,
            GitReference::Branch(s) => Some(GitReference::pair_for("branch=", s, url_encoded)),
            GitReference::Tag(s) => Some(GitReference::pair_for("tag=", s, url_encoded)),
            GitReference::Rev(s) => Some(GitReference::pair_for("rev=", s, url_encoded)),
        }
    }

    /// `name` followed by `value`, encoded for a query where `url_encoded` is
    /// set.
    fn pair_for(name: &str, value: &String, url_encoded: bool) -> (r: String)
        ensures
            r@ == name@ + query_value(value@, url_encoded),
    {
        if url_encoded {
            let encoded = form_encode(value.as_str());
            query_pair(name, encoded.as_str())
        } else {
            query_pair(name, value.as_str())
        }
    }
}

impl SourceKind {
    /// The prefix that marks this kind before a URL, if it has one.
    pub fn protocol(&self) -> (r: Option<&'static str>)
        ensures
            match r {
                Some(p) => protocol_of(self@) == Some(p@),
                None => protocol_of(self@) is None,
            },
    {
        match self {
            SourceKind::Path => Some("path"),
            SourceKind::Git(_) => Some("git"),
            SourceKind::Registry => Some("registry"),
            SourceKind::SparseRegistry => None,
        }
    }
}

} // verus!

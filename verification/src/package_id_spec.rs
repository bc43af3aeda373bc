//! Package identifier specifications.
//!
//! A specification names a package and may say more: a version, given in
//! part or in full, the URL of its source, and how that URL is to be taken.
//! It is read from a short token, either `name`, `name:version` or
//! `name@version`, or a URL with an optional kind before its scheme, a query
//! and a fragment. It is written back in one canonical form.

use std::cmp::Ordering;
use vstd::prelude::*;
use vstd::std_specs::cmp::PartialEqSpecImpl;
use vstd::std_specs::cmp::PartialOrdSpecImpl;
use vstd::string::StringExecFns;
use crate::error::{ParseError, ParseErrorView};
use crate::fragment::{fragment_shape, fragment_shape_spec, resolve_shape, resolve_shape_spec};
use crate::name::{name_error, validate_package_name};
use crate::order::{chain, chain_orders, compare_text, option_text_order, text_order};
use crate::render::{render_parts, render_parts_spec};
use crate::scheme::{
    classify_scheme, classify_spec, cleared_spec, kind_of_class, located_spec,
    strip_protocol_spec, strip_url_protocol, SchemeClass,
};
use crate::source_kind::{
    option_kind_order, protocol_of, reference_of, reference_query, GitReference, SourceKind,
    SourceKindView,
};
use crate::source_url::{
    url_fragment, url_parsed, url_path_segments, url_query, url_query_pairs, url_scheme,
    url_without_fragment, SourceUrl,
};
use crate::text::{
    contains_char, contains_seq, contains_text, opt_view, result_view, split_once,
    split_once_spec,
};
use crate::version::{
    option_version_order, partial_of_version, partial_version_spec, version_of_partial,
    version_text, PartialVersion, PartialVersionView, Version,
};

verus! {

/// Some or all of what identifies a package: its name, and where they are
/// given its version, the URL of its source and the kind of that source.
///
/// A kind is never held without a URL.
///
/// Specifications are ordered by name, version, URL and kind in turn, an
/// absent field first. The order keeps collections stable and means nothing
/// more.
#[derive(Debug, Eq, Hash, Ord)]
pub struct PackageIdSpec {
    name: String,
    version: Option<PartialVersion>,
    url: Option<SourceUrl>,
    kind: Option<SourceKind>,
}

/// What a `PackageIdSpec` holds.
pub struct PackageIdSpecView {
    pub name: Seq<char>,
    pub version: Option<PartialVersionView>,
    pub url: Option<Seq<char>>,
    pub kind: Option<SourceKindView>,
}

impl View for PackageIdSpec {
    type V = PackageIdSpecView;

    closed spec fn view(&self) -> PackageIdSpecView {
        PackageIdSpecView {
            name: self.name@,
            version: opt_view(self.version),
            url: opt_view(self.url),
            kind: opt_view(self.kind),
        }
    }
}

/// Where a package comes from: the URL of its source and the kind of it.
#[derive(Debug, PartialEq, Eq, Hash)]
pub struct SourceId {
    pub url: SourceUrl,
    pub kind: SourceKind,
}

/// One package of one source, in one version.
#[derive(Debug, PartialEq, Eq, Hash)]
pub struct PackageId {
    pub name: String,
    pub version: Version,
    pub source_id: SourceId,
}

/// What the caller found on disk under a token that looks like a path.
#[derive(Debug, PartialEq, Eq)]
pub enum PathProbe {
    /// Nothing is there, or nobody looked.
    NotFound,
    /// Something is there. `suggestion` is what to write in place of the
    /// token: a `file://` URL, or words to that effect.
    Found { suggestion: String },
}

/// What a `PathProbe` holds.
pub enum PathProbeView {
    NotFound,
    Found { suggestion: Seq<char> },
}

impl View for PathProbe {
    type V = PathProbeView;

    open spec fn view(&self) -> PathProbeView {
        match self {
            PathProbe::NotFound => PathProbeView::NotFound,
            PathProbe::Found { suggestion } => PathProbeView::Found { suggestion: suggestion@ },
        }
    }
}

/// The specification with these parts, where the name is a package name.
pub open spec fn checked_spec(
    name: Seq<char>,
    version: Option<PartialVersionView>,
    url: Option<Seq<char>>,
    kind: Option<SourceKindView>,
) -> Result<PackageIdSpecView, ParseErrorView> {
    match name_error(name) {
        Some(reason) => Err(ParseErrorView::InvalidName { name, reason }),
        None => Ok(PackageIdSpecView { name, version, url, kind }),
    }
}

/// The specification that the URL `located`, of kind `kind`, stands for. Its
/// fragment leaves the URL and gives the name and the version; the last
/// segment of its path gives the name where the fragment gives none.
pub open spec fn assemble_spec(located: Seq<char>, kind: Option<SourceKindView>) -> Result<
    PackageIdSpecView,
    ParseErrorView,
> {
    let base = url_without_fragment(located);
    match url_path_segments(base) {
        None => Err(ParseErrorView::MissingUrlPath { url: base }),
        Some(segments) => if segments.len() == 0 {
            Err(ParseErrorView::MissingPathComponent { url: base })
        } else {
            match resolve_shape_spec(fragment_shape_spec(url_fragment(located)), segments.last()) {
                Err(e) => Err(ParseErrorView::Version(e)),
                Ok((name, version)) => checked_spec(name, version, Some(base), kind),
            }
        },
    }
}

/// The specification that the URL `url` stands for.
pub open spec fn from_url_spec(url: Seq<char>) -> Result<PackageIdSpecView, ParseErrorView> {
    match classify_spec(url_scheme(url), url_query(url) is Some, url) {
        Err(e) => Err(e),
        Ok(class) => match located_spec(url, class) {
            None => Err(ParseErrorView::InvalidSourceUrl { url: cleared_spec(url, class) }),
            Some(located) => assemble_spec(
                located,
                kind_of_class(class, reference_of(url_query_pairs(url))),
            ),
        },
    }
}

/// The specification that a token which is no URL stands for: a name, then
/// after the first `:` or `@`, if there is one, a version.
pub open spec fn parse_plain_spec(token: Seq<char>) -> Result<PackageIdSpecView, ParseErrorView> {
    match split_once_spec(token, ':', '@') {
        Some((name, text)) => match partial_version_spec(text) {
            Err(e) => Err(ParseErrorView::Version(e)),
            Ok(v) => checked_spec(name, Some(v), None, None),
        },
        None => checked_spec(token, None, None, None),
    }
}

/// The specification that `token` stands for. A token with `://` in it that
/// is a URL is read as one, any other as a name and a version.
pub open spec fn parse_spec(token: Seq<char>) -> Result<PackageIdSpecView, ParseErrorView> {
    if contains_seq(token, "://"@) {
        match url_parsed(token) {
            Some(url) => from_url_spec(url),
            None => parse_plain_spec(token),
        }
    } else {
        parse_plain_spec(token)
    }
}

/// `token` may be the path of a file: it is no URL and has a `/` or a `\`.
pub open spec fn looks_like_path_spec(token: Seq<char>) -> bool {
    !contains_seq(token, "://"@) && (token.contains('/') || token.contains('\\'))
}

/// The specification that `token` stands for, given what was found on disk
/// under it: a token that looks like a path and is one is refused.
pub open spec fn parse_probed_spec(token: Seq<char>, probe: PathProbeView) -> Result<
    PackageIdSpecView,
    ParseErrorView,
> {
    match probe {
        PathProbeView::Found { suggestion } => if looks_like_path_spec(token) {
            Err(ParseErrorView::LooksLikePath { spec: token, suggestion })
        } else {
            parse_spec(token)
        },
        PathProbeView::NotFound => parse_spec(token),
    }
}

/// The last segment of the path of `url`, if its path has segments.
pub open spec fn last_segment_spec(url: Seq<char>) -> Option<Seq<char>> {
    match url_path_segments(url) {
        Some(segments) => if segments.len() > 0 {
            Some(segments.last())
        } else {
            None
        },
        None => None,
    }
}

/// The protocol that marks the kind of `s` before its URL.
pub open spec fn protocol_part(s: PackageIdSpecView) -> Option<Seq<char>> {
    match s.kind {
        Some(k) => protocol_of(k),
        None => None,
    }
}

/// The query that selects the reference of `s`, where it is a git repository
/// and not its default branch.
pub open spec fn query_part(s: PackageIdSpecView) -> Option<Seq<char>> {
    match s.kind {
        Some(SourceKindView::Git(reference)) => reference_query(reference, true),
        _ => None,
    }
}

/// The text of the version of `s`, where it has one.
pub open spec fn version_part(s: PackageIdSpecView) -> Option<Seq<char>> {
    match s.version {
        Some(v) => Some(version_text(v)),
        None => None,
    }
}

/// The last segment of the path of the URL of `s`.
pub open spec fn segment_part(s: PackageIdSpecView) -> Option<Seq<char>> {
    match s.url {
        Some(u) => last_segment_spec(u),
        None => None,
    }
}

/// The canonical text of `s`.
pub open spec fn render_spec(s: PackageIdSpecView) -> Seq<char> {
    render_parts_spec(
        s.name,
        version_part(s),
        s.url,
        protocol_part(s),
        query_part(s),
        segment_part(s),
    )
}

impl PartialEq for PackageIdSpec {
    fn eq(&self, other: &PackageIdSpec) -> (r: bool) {
        self.name == other.name && (match (&self.version, &other.version) {
            (Some(a), Some(b)) => *a == *b,
            (None, None) => true,
            _ => false,
        }) && (match (&self.url, &other.url) {
            (Some(a), Some(b)) => *a == *b,
            (None, None) => true,
            _ => false,
        }) && (match (&self.kind, &other.kind) {
            (Some(a), Some(b)) => *a == *b,
            (None, None) => true,
            _ => false,
        })
    }
}

impl PartialEqSpecImpl for PackageIdSpec {
    open spec fn obeys_eq_spec() -> bool {
        true
    }

    open spec fn eq_spec(&self, other: &PackageIdSpec) -> bool {
        self@ == other@
    }
}

/// The order of two specifications: that of their names, then of their
/// versions, their URLs and their kinds.
pub open spec fn package_order(a: PackageIdSpecView, b: PackageIdSpecView) -> Ordering {
    chain(
        text_order(a.name, b.name),
        chain(
            option_version_order(a.version, b.version),
            chain(option_text_order(a.url, b.url), option_kind_order(a.kind, b.kind)),
        ),
    )
}

impl PartialOrd for PackageIdSpec {
    fn partial_cmp(&self, other: &PackageIdSpec) -> (r: Option<Ordering>) {
        let by_name = compare_text(self.name.as_str(), other.name.as_str());
        let by_version = match (&self.version, &other.version) {
            (None, None) => Some(Ordering::Equal),
            (None, Some(_)) => Some(Ordering::Less),
            (Some(_), None) => Some(Ordering::Greater),
            (Some(x), Some(y)) => x.partial_cmp(y),
        };
        let by_url = match (&self.url, &other.url) {
            (None, None) => Some(Ordering::Equal),
            (None, Some(_)) => Some(Ordering::Less),
            (Some(_), None) => Some(Ordering::Greater),
            (Some(x), Some(y)) => x.partial_cmp(y),
        };
        let by_kind = match (&self.kind, &other.kind) {
            (None, None) => Some(Ordering::Equal),
            (None, Some(_)) => Some(Ordering::Less),
            (Some(_), None) => Some(Ordering::Greater),
            (Some(x), Some(y)) => x.partial_cmp(y),
        };
        match (by_version, by_url, by_kind) {
            (Some(version), Some(url), Some(kind)) => Some(
                chain_orders(by_name, chain_orders(version, chain_orders(url, kind))),
            ),
            _ => None,
        }
    }
}

impl PartialOrdSpecImpl for PackageIdSpec {
    open spec fn obeys_partial_cmp_spec() -> bool {
        true
    }

    open spec fn partial_cmp_spec(&self, other: &PackageIdSpec) -> Option<Ordering> {
        Some(package_order(self@, other@))
    }
}

impl Clone for PackageIdSpec {
    fn clone(&self) -> (r: PackageIdSpec)
        ensures
            r@ == self@,
    {
        proof {
            use_type_invariant(self);
        }
        PackageIdSpec {
            name: self.name.clone(),
            version: match &self.version {
                Some(v) => Some(v.clone()),
                None => None,
            },
            url: match &self.url {
                Some(u) => Some(u.clone()),
                None => None,
            },
            kind: match &self.kind {
                Some(k) => Some(k.clone()),
                None => None,
            },
        }
    }
}

impl PackageIdSpec {
    /// A kind is never held without a URL.
    #[verifier::type_invariant]
    spec fn kind_has_url(self) -> bool {
        self.kind is Some ==> self.url is Some
    }

    /// The specification that asks for the name `name` and nothing else.
    pub fn new(name: String) -> (r: PackageIdSpec)
        ensures
            r@ == (PackageIdSpecView { name: name@, version: None, url: None, kind: None }),
    {
        PackageIdSpec { name, version: None, url: None, kind: None }
    }

    /// This specification, asking for the version `version`.
    pub fn with_version(self, version: PartialVersion) -> (r: PackageIdSpec)
        ensures
            r@ == (PackageIdSpecView { version: Some(version@), ..self@ }),
    {
        proof {
            use_type_invariant(&self);
        }
        PackageIdSpec { name: self.name, version: Some(version), url: self.url, kind: self.kind }
    }

    /// This specification, asking for the source at `url`.
    pub fn with_url(self, url: SourceUrl) -> (r: PackageIdSpec)
        ensures
            r@ == (PackageIdSpecView { url: Some(url@), ..self@ }),
    {
        PackageIdSpec { name: self.name, version: self.version, url: Some(url), kind: self.kind }
    }

    /// This specification, asking for a source of kind `kind`. It must ask
    /// for a URL already: a kind is never held without one.
    pub fn with_kind(self, kind: SourceKind) -> (r: PackageIdSpec)
        requires
            self@.url is Some,
        ensures
            r@ == (PackageIdSpecView { kind: Some(kind@), ..self@ }),
    {
        PackageIdSpec { name: self.name, version: self.version, url: self.url, kind: Some(kind) }
    }

    /// The specification with these parts, where `name` is a package name.
    fn checked(
        name: String,
        version: Option<PartialVersion>,
        url: Option<SourceUrl>,
        kind: Option<SourceKind>,
    ) -> (r: Result<PackageIdSpec, ParseError>)
        requires
            kind is Some ==> url is Some,
        ensures
            result_view(r) == checked_spec(name@, opt_view(version), opt_view(url), opt_view(kind)),
    {
        match validate_package_name(name.as_str()) {
            Err(reason) => Err(ParseError::InvalidName { name, reason }),
            Ok(()) => Ok(PackageIdSpec { name, version, url, kind }),
        }
    }

    /// Reads a token that is no URL: a name, then after the first `:` or `@`,
    /// if there is one, a version.
    pub fn parse_plain(token: &str) -> (r: Result<PackageIdSpec, ParseError>)
        ensures
            result_view(r) == parse_plain_spec(token@),
    {
        match split_once(token, ':', '@') {
            Some((name, text)) => {
                match PartialVersion::parse(text.as_str()) {
                    Err(e) => Err(ParseError::Version(e)),
                    Ok(v) => PackageIdSpec::checked(name, Some(v), None, None),
                }
            },
            None => PackageIdSpec::checked(String::from_str(token), None, None, None),
        }
    }

    /// The specification that the URL `located`, of kind `kind`, stands for.
    fn assemble(located: SourceUrl, kind: Option<SourceKind>) -> (r: Result<
        PackageIdSpec,
        ParseError,
    >)
        ensures
            result_view(r) == assemble_spec(located@, opt_view(kind)),
    {
        let fragment = located.fragment();
        let base = located.without_fragment();
        let mut segments = match base.path_segments() {
            Some(segments) => segments,
            None => {
                return Err(ParseError::MissingUrlPath { url: String::from_str(base.as_str()) });
            },
        };
        let ghost all = segments@;
        let path_name = match segments.pop() {
            Some(last) => last,
            None => {
                return Err(
                    ParseError::MissingPathComponent { url: String::from_str(base.as_str()) },
                );
            },
        };
        assert(all.map_values(|s: String| s@).last() == path_name@);
        match resolve_shape(fragment_shape(fragment), path_name) {
            Err(e) => Err(ParseError::Version(e)),
            Ok((name, version)) => PackageIdSpec::checked(name, version, Some(base), kind),
        }
    }

    /// Reads a URL as a specification. A kind before the scheme, as in
    /// `git+https`, gives the kind of the source and leaves the URL, but for
    /// `sparse+`, which stays. The query of a git repository selects the
    /// reference and leaves the URL; any other query is refused. The fragment
    /// gives the name and the version and leaves the URL.
    pub fn from_url(url: SourceUrl) -> (r: Result<PackageIdSpec, ParseError>)
        ensures
            result_view(r) == from_url_spec(url@),
    {
        let scheme = url.scheme();
        let query = url.query();
        let class = match classify_scheme(scheme.as_str(), query.is_some(), url.as_str()) {
            Ok(class) => class,
            Err(e) => {
                return Err(e);
            },
        };
        match class {
            SchemeClass::Plain => PackageIdSpec::assemble(url, None),
            SchemeClass::Sparse => PackageIdSpec::assemble(url, Some(SourceKind::SparseRegistry)),
            SchemeClass::Registry => PackageIdSpec::assemble_stripped(
                url,
                SourceKind::Registry,
            ),
            SchemeClass::Path => PackageIdSpec::assemble_stripped(url, SourceKind::Path),
            SchemeClass::Git => {
                let reference = GitReference::from_query(&url.query_pairs());
                PackageIdSpec::assemble_stripped(url.without_query(), SourceKind::Git(reference))
            },
        }
    }

    /// The specification that `cleared` stands for once the mark of its kind
    /// has left it.
    fn assemble_stripped(cleared: SourceUrl, kind: SourceKind) -> (r: Result<
        PackageIdSpec,
        ParseError,
    >)
        ensures
            result_view(r) == (match strip_protocol_spec(cleared@) {
                None => Err(ParseErrorView::InvalidSourceUrl { url: cleared@ }),
                Some(located) => assemble_spec(located, Some(kind@)),
            }),
    {
        match strip_url_protocol(&cleared) {
            None => Err(ParseError::InvalidSourceUrl { url: String::from_str(cleared.as_str()) }),
            Some(located) => PackageIdSpec::assemble(located, Some(kind)),
        }
    }

    /// Reads a token as a specification.
    ///
    /// A token with `://` in it that is a URL is read as one; any other is a
    /// name, then after the first `:` or `@`, if there is one, a version.
    pub fn parse(spec: &str) -> (r: Result<PackageIdSpec, ParseError>)
        ensures
            result_view(r) == parse_spec(spec@),
    {
        if contains_text(spec, "://") {
            match SourceUrl::parse(spec) {
                Some(url) => {
                    return PackageIdSpec::from_url(url);
                },
                None => {},
            }
        }
        PackageIdSpec::parse_plain(spec)
    }

    /// Whether `spec` may be the path of a file, so that a caller who can
    /// should look for it on disk before reading it as a specification.
    pub fn looks_like_path(spec: &str) -> (r: bool)
        ensures
            r == looks_like_path_spec(spec@),
    {
        !contains_text(spec, "://") && (contains_char(spec, '/') || contains_char(spec, '\\'))
    }

    /// Reads a token as a specification, given what the caller found on disk
    /// under it. A token that looks like a path and is one is refused, with
    /// the suggestion that the caller made.
    pub fn parse_probed(spec: &str, probe: PathProbe) -> (r: Result<PackageIdSpec, ParseError>)
        ensures
            result_view(r) == parse_probed_spec(spec@, probe@),
    {
        match probe {
            PathProbe::Found { suggestion } => {
                if PackageIdSpec::looks_like_path(spec) {
                    return Err(
                        ParseError::LooksLikePath { spec: String::from_str(spec), suggestion },
                    );
                }
            },
            PathProbe::NotFound => {},
        }
        PackageIdSpec::parse(spec)
    }

    /// The specification that selects the package `package_id` and no other:
    /// its name, its version in full, and its source.
    pub fn from_package_id(package_id: PackageId) -> (r: PackageIdSpec)
        ensures
            r@ == (PackageIdSpecView {
                name: package_id.name@,
                version: Some(partial_of_version(package_id.version@)),
                url: Some(package_id.source_id.url@),
                kind: Some(package_id.source_id.kind@),
            }),
    {
        PackageIdSpec {
            name: package_id.name,
            version: Some(PartialVersion::from_version(package_id.version)),
            url: Some(package_id.source_id.url),
            kind: Some(package_id.source_id.kind),
        }
    }

    /// The name asked for.
    pub fn name(&self) -> (r: &str)
        ensures
            r@ == self@.name,
    {
        self.name.as_str()
    }

    /// The version asked for, where it is given in full.
    pub fn version(&self) -> (r: Option<Version>)
        ensures
            opt_view(r) == (match self@.version {
                Some(v) => version_of_partial(v),
                None => None,
            }),
    {
        match &self.version {
            Some(v) => v.to_version(),
            None => None,
        }
    }

    /// The version asked for, as far as it is given.
    pub fn partial_version(&self) -> (r: Option<&PartialVersion>)
        ensures
            opt_view(r) == self@.version,
    {
        self.version.as_ref()
    }

    /// The URL of the source asked for.
    pub fn url(&self) -> (r: Option<&SourceUrl>)
        ensures
            opt_view(r) == self@.url,
    {
        self.url.as_ref()
    }

    /// Asks for the source at `url`.
    pub fn set_url(&mut self, url: SourceUrl)
        ensures
            final(self)@ == (PackageIdSpecView { url: Some(url@), ..old(self)@ }),
    {
        self.url = Some(url);
    }

    /// The kind of the source asked for. Where there is one, there is a URL.
    pub fn kind(&self) -> (r: Option<&SourceKind>)
        ensures
            opt_view(r) == self@.kind,
            r is Some ==> self@.url is Some,
    {
        proof {
            use_type_invariant(self);
        }
        self.kind.as_ref()
    }

    /// Asks for a source of kind `kind`. The specification must ask for a
    /// URL already: a kind is never held without one.
    pub fn set_kind(&mut self, kind: SourceKind)
        requires
            old(self)@.url is Some,
        ensures
            final(self)@ == (PackageIdSpecView { kind: Some(kind@), ..old(self)@ }),
    {
        self.kind = Some(kind);
    }

    /// The canonical text of this specification: with a URL, the kind before
    /// the URL, the git reference as its query, and as its fragment the name,
    /// unless the path of the URL ends in it, and the version; without one,
    /// the name, then `@` and the version.
    ///
    /// The text is made to be read back: `laws` says how far that is proved.
    pub fn render(&self) -> (r: String)
        ensures
            r@ == render_spec(self@),
    {
        let version = match &self.version {
            Some(v) => Some(v.render()),
            None => None,
        };
        let protocol = match &self.kind {
            Some(k) => k.protocol(),
            None => None,
        };
        let query = match &self.kind {
            Some(SourceKind::Git(reference)) => reference.pretty_ref(true),
            _ => None,
        };
        let last_segment = match &self.url {
            Some(u) => PackageIdSpec::last_segment(u),
            None => None,
        };
        render_parts(
            self.name.as_str(),
            PackageIdSpec::borrowed(&version),
            match &self.url {
                Some(u) => Some(u.as_str()),
                None => None,
            },
            protocol,
            PackageIdSpec::borrowed(&query),
            PackageIdSpec::borrowed(&last_segment),
        )
    }

    /// The text that `text` holds, borrowed.
    fn borrowed(text: &Option<String>) -> (r: Option<&str>)
        ensures
            opt_view(r) == opt_view(*text),
    {
        match text {
            Some(t) => Some(t.as_str()),
            None => None,
        }
    }

    /// The last segment of the path of `url`, if its path has segments.
    pub fn last_segment(url: &SourceUrl) -> (r: Option<String>)
        ensures
            opt_view(r) == last_segment_spec(url@),
    {
        match url.path_segments() {
            Some(mut segments) => {
                let ghost all = segments@;
                let last = segments.pop();
                proof {
                    if all.len() > 0 {
                        assert(all.map_values(|s: String| s@).last() == last->0@);
                    }
                }
                last
            },
            None => None,
        }
    }
}

} // verus!

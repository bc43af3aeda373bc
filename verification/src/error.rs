//! Why a token is refused, and the words for it.

use vstd::prelude::*;
use vstd::string::StringExecFns;
use crate::name::{name_error_text, NameError};
use crate::version::{version_error_text, VersionError};

verus! {

/// Why a token is no package identifier specification.
#[derive(Debug, PartialEq, Eq)]
pub enum ParseError {
    /// The token names a file or directory that exists. `suggestion` is what
    /// to write in its place.
    LooksLikePath { spec: String, suggestion: String },
    /// The URL has a query, and is not the URL of a git repository.
    UnexpectedQueryString { url: String },
    /// The scheme of the URL opens with a kind that is not known.
    UnsupportedProtocol { protocol: String },
    /// The URL is marked as a path, and its scheme is not `file`.
    UnsupportedPathPlusScheme { scheme: String },
    /// What is left of the URL without the mark of its kind is no URL.
    InvalidSourceUrl { url: String },
    /// The path of the URL has no segments.
    MissingUrlPath { url: String },
    /// The path of the URL has not even one segment to name the package.
    MissingPathComponent { url: String },
    /// The version cannot be read.
    Version(VersionError),
    /// The name is no package name.
    InvalidName { name: String, reason: NameError },
}

/// What a `ParseError` holds.
pub enum ParseErrorView {
    LooksLikePath { spec: Seq<char>, suggestion: Seq<char> },
    UnexpectedQueryString { url: Seq<char> },
    UnsupportedProtocol { protocol: Seq<char> },
    UnsupportedPathPlusScheme { scheme: Seq<char> },
    InvalidSourceUrl { url: Seq<char> },
    MissingUrlPath { url: Seq<char> },
    MissingPathComponent { url: Seq<char> },
    Version(VersionError),
    InvalidName { name: Seq<char>, reason: NameError },
}

impl View for ParseError {
    type V = ParseErrorView;

    open spec fn view(&self) -> ParseErrorView {
        match self {
            ParseError::LooksLikePath { spec, suggestion } => ParseErrorView::LooksLikePath {
                spec: spec@,
                suggestion: suggestion@,
            },
            ParseError::UnexpectedQueryString { url } => ParseErrorView::UnexpectedQueryString {
                url: url@,
            },
            ParseError::UnsupportedProtocol { protocol } => ParseErrorView::UnsupportedProtocol {
                protocol: protocol@,
            },
            ParseError::UnsupportedPathPlusScheme { scheme } => ParseErrorView::UnsupportedPathPlusScheme {
                scheme: scheme@,
            },
            ParseError::InvalidSourceUrl { url } => ParseErrorView::InvalidSourceUrl { url: url@ },
            ParseError::MissingUrlPath { url } => ParseErrorView::MissingUrlPath { url: url@ },
            ParseError::MissingPathComponent { url } => ParseErrorView::MissingPathComponent {
                url: url@,
            },
            ParseError::Version(e) => ParseErrorView::Version(*e),
            ParseError::InvalidName { name, reason } => ParseErrorView::InvalidName {
                name: name@,
                reason: *reason,
            },
        }
    }
}

/// The words for a parse error.
pub open spec fn parse_error_text(e: ParseErrorView) -> Seq<char> {
    match e {
        ParseErrorView::LooksLikePath { spec, suggestion } => "package ID specification `"@ + spec
            + "` looks like a file path, maybe try "@ + suggestion,
        ParseErrorView::UnexpectedQueryString { url } => "cannot have a query string in a pkgid: "@
            + url,
        ParseErrorView::UnsupportedProtocol { protocol } => "unsupported source protocol: "@
            + protocol,
        ParseErrorView::UnsupportedPathPlusScheme { scheme } => "`path+"@ + scheme
            + "` is unsupported; `path+file` and `file` schemes are supported"@,
        ParseErrorView::InvalidSourceUrl { url } => "invalid url `"@ + url
            + "`: no URL is left without the source protocol"@,
        ParseErrorView::MissingUrlPath { url } => "pkgid urls must have a path: "@ + url,
        ParseErrorView::MissingPathComponent { url } => "pkgid urls must have at least one path component: "@
            + url,
        ParseErrorView::Version(e) => version_error_text(e),
        ParseErrorView::InvalidName { name, reason } => name_error_text(reason, name, "pkgid"@),
    }
}

impl ParseError {
    /// What went wrong, in words.
    pub fn message(&self) -> (r: String)
        ensures
            r@ == parse_error_text(self@),
    {
        let mut out = String::new();
        match self {
            ParseError::LooksLikePath { spec, suggestion } => {
                out.append("package ID specification `");
                out.append(spec.as_str());
                out.append("` looks like a file path, maybe try ");
                out.append(suggestion.as_str());
            },
            ParseError::UnexpectedQueryString { url } => {
                out.append("cannot have a query string in a pkgid: ");
                out.append(url.as_str());
            },
            ParseError::UnsupportedProtocol { protocol } => {
                out.append("unsupported source protocol: ");
                out.append(protocol.as_str());
            },
            ParseError::UnsupportedPathPlusScheme { scheme } => {
                out.append("`path+");
                out.append(scheme.as_str());
                out.append("` is unsupported; `path+file` and `file` schemes are supported");
            },
            ParseError::InvalidSourceUrl { url } => {
                out.append("invalid url `");
                out.append(url.as_str());
                out.append("`: no URL is left without the source protocol");
            },
            ParseError::MissingUrlPath { url } => {
                out.append("pkgid urls must have a path: ");
                out.append(url.as_str());
            },
            ParseError::MissingPathComponent { url } => {
                out.append("pkgid urls must have at least one path component: ");
                out.append(url.as_str());
            },
            ParseError::Version(e) => {
                out.append(e.message());
            },
            ParseError::InvalidName { name, reason } => {
                return reason.message(name.as_str(), "pkgid");
            },
        }
        assert(out@ =~= parse_error_text(self@));
        out
    }
}

} // verus!

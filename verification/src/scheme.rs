//! The scheme of a URL and the kind of source that it marks.
//!
//! A scheme such as `git+https` opens with a kind, up to its first `+`. The
//! kind says how the URL is to be taken. Once read it leaves the URL, except
//! `sparse`, which stays part of it.

use vstd::prelude::*;
use vstd::string::StringExecFns;
use crate::error::{ParseError, ParseErrorView};
use crate::source_kind::{GitReferenceView, SourceKindView};
use crate::source_url::{url_parsed, url_without_query, SourceUrl};
use crate::text::{opt_view, result_view, split_once, split_once_spec, text_eq};

verus! {

/// What the scheme of a URL says of the kind of its source.
#[derive(Clone, Copy, Debug, PartialEq, Eq)]
pub enum SchemeClass {
    /// The scheme has no kind before it.
    Plain,
    /// `git+`: a git repository.
    Git,
    /// `registry+`: a registry.
    Registry,
    /// `sparse+`: a sparse registry.
    Sparse,
    /// `path+`: a directory.
    Path,
}

impl View for SchemeClass {
    type V = SchemeClass;

    open spec fn view(&self) -> SchemeClass {
        *self
    }
}

/// The kind that the scheme `scheme` of the URL `url` stands for, or why the
/// URL is refused. The scheme is cut at its first `+`. Only a git repository
/// may have a query, and a path must be a `file`.
pub open spec fn classify_spec(scheme: Seq<char>, has_query: bool, url: Seq<char>) -> Result<
    SchemeClass,
    ParseErrorView,
> {
    match split_once_spec(scheme, '+', '+') {
        None => if has_query {
            Err(ParseErrorView::UnexpectedQueryString { url })
        } else {
            Ok(SchemeClass::Plain)
        },
        Some((kind, transport)) => if kind == "git"@ {
            Ok(SchemeClass::Git)
        } else if kind == "registry"@ {
            if has_query {
                Err(ParseErrorView::UnexpectedQueryString { url })
            } else {
                Ok(SchemeClass::Registry)
            }
        } else if kind == "sparse"@ {
            if has_query {
                Err(ParseErrorView::UnexpectedQueryString { url })
            } else {
                Ok(SchemeClass::Sparse)
            }
        } else if kind == "path"@ {
            if has_query {
                Err(ParseErrorView::UnexpectedQueryString { url })
            } else if transport != "file"@ {
                Err(ParseErrorView::UnsupportedPathPlusScheme { scheme: transport })
            } else {
                Ok(SchemeClass::Path)
            }
        } else {
            Err(ParseErrorView::UnsupportedProtocol { protocol: kind })
        },
    }
}

/// The source kind of a URL of class `class`, whose query selects `reference`.
pub open spec fn kind_of_class(class: SchemeClass, reference: GitReferenceView) -> Option<SourceKindView> {
    match class {
        SchemeClass::Plain => None,
        SchemeClass::Git => Some(SourceKindView::Git(reference)),
        SchemeClass::Registry => Some(SourceKindView::Registry),
        SchemeClass::Sparse => Some(SourceKindView::SparseRegistry),
        SchemeClass::Path => Some(SourceKindView::Path),
    }
}

/// Whether the mark of the kind leaves the URL of a source of class `class`.
/// That of a sparse registry stays.
pub open spec fn strips_protocol(class: SchemeClass) -> bool {
    class == SchemeClass::Git || class == SchemeClass::Registry || class == SchemeClass::Path
}

/// The URL written in `text` after its first `+`, if that is one.
pub open spec fn strip_protocol_spec(text: Seq<char>) -> Option<Seq<char>> {
    match split_once_spec(text, '+', '+') {
        Some((_, rest)) => url_parsed(rest),
        None => None,
    }
}

/// The URL `url`, of class `class`, once its query has selected the
/// reference: without the query for a git repository, as it is for any other.
pub open spec fn cleared_spec(url: Seq<char>, class: SchemeClass) -> Seq<char> {
    if class == SchemeClass::Git {
        url_without_query(url)
    } else {
        url
    }
}

/// The URL that locates the source of `url`, of class `class`: `url` without
/// the query that selected a reference and without the mark of its kind,
/// where that is still a URL.
pub open spec fn located_spec(url: Seq<char>, class: SchemeClass) -> Option<Seq<char>> {
    if strips_protocol(class) {
        strip_protocol_spec(cleared_spec(url, class))
    } else {
        Some(cleared_spec(url, class))
    }
}

/// The scheme of `url` cut at its first `+`, and what the cut says of the
/// kind of the source. `has_query` says whether the URL has a query.
pub fn classify_scheme(scheme: &str, has_query: bool, url: &str) -> (r: Result<
    SchemeClass,
    ParseError,
>)
    ensures
        result_view(r) == classify_spec(scheme@, has_query, url@),
{
    match split_once(scheme, '+', '+') {
        None => {
            if has_query {
                Err(ParseError::UnexpectedQueryString { url: String::from_str(url) })
            } else {
                Ok(SchemeClass::Plain)
            }
        },
        Some((kind, transport)) => {
            if text_eq(kind.as_str(), "git") {
                Ok(SchemeClass::Git)
            } else if text_eq(kind.as_str(), "registry") {
                if has_query {
                    Err(ParseError::UnexpectedQueryString { url: String::from_str(url) })
                } else {
                    Ok(SchemeClass::Registry)
                }
            } else if text_eq(kind.as_str(), "sparse") {
                if has_query {
                    Err(ParseError::UnexpectedQueryString { url: String::from_str(url) })
                } else {
                    Ok(SchemeClass::Sparse)
                }
            } else if text_eq(kind.as_str(), "path") {
                if has_query {
                    Err(ParseError::UnexpectedQueryString { url: String::from_str(url) })
                } else if !text_eq(transport.as_str(), "file") {
                    Err(ParseError::UnsupportedPathPlusScheme { scheme: transport })
                } else {
                    Ok(SchemeClass::Path)
                }
            } else {
                Err(ParseError::UnsupportedProtocol { protocol: kind })
            }
        },
    }
}

/// The URL written in the text of `url` after its first `+`.
pub fn strip_url_protocol(url: &SourceUrl) -> (r: Option<SourceUrl>)
    ensures
        opt_view(r) == strip_protocol_spec(url@),
{
    match split_once(url.as_str(), '+', '+') {
        Some((_, rest)) => SourceUrl::parse(rest.as_str()),
        None => None,
    }
}

} // verus!

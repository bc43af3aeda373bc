//! The fragment of a URL: a name, a version, or both.
//!
//! A bare fragment may be either. One that opens with a letter is taken for a
//! name, any other for a version.

use vstd::prelude::*;
use crate::text::{first_char, is_alphabetic, is_letter, opt_view, split_once, split_once_spec};
use crate::version::{partial_version_spec, PartialVersion, PartialVersionView, VersionError};

verus! {

/// What the fragment of a URL gives: nothing, a name, a name and the text of
/// a version, or the text of a version alone.
#[derive(Debug, PartialEq, Eq)]
pub enum FragmentShape {
    Absent,
    Name(String),
    NameAndVersion(String, String),
    Version(String),
}

/// What a `FragmentShape` holds.
pub enum FragmentShapeView {
    Absent,
    Name(Seq<char>),
    NameAndVersion(Seq<char>, Seq<char>),
    Version(Seq<char>),
}

impl View for FragmentShape {
    type V = FragmentShapeView;

    open spec fn view(&self) -> FragmentShapeView {
        match self {
            FragmentShape::Absent => FragmentShapeView::Absent,
            FragmentShape::Name(n) => FragmentShapeView::Name(n@),
            FragmentShape::NameAndVersion(n, v) => FragmentShapeView::NameAndVersion(n@, v@),
            FragmentShape::Version(v) => FragmentShapeView::Version(v@),
        }
    }
}

/// What a fragment gives. One that is empty gives nothing. One with `:` or
/// `@` is a name and a version, cut at the first of them. Any other is a name
/// where it opens with a letter, else a version.
pub open spec fn fragment_shape_spec(fragment: Option<Seq<char>>) -> FragmentShapeView {
    match fragment {
        None => FragmentShapeView::Absent,
        Some(f) => if f.len() == 0 {
            FragmentShapeView::Absent
        } else {
            match split_once_spec(f, ':', '@') {
                Some((name, version)) => FragmentShapeView::NameAndVersion(name, version),
                None => if is_letter(f[0]) {
                    FragmentShapeView::Name(f)
                } else {
                    FragmentShapeView::Version(f)
                },
            }
        },
    }
}

/// The name and the version that a fragment of shape `shape` gives to a URL
/// whose path ends in `path_name`: the name is that of the fragment, else
/// `path_name`; the version is that of the fragment, which must be one.
pub open spec fn resolve_shape_spec(shape: FragmentShapeView, path_name: Seq<char>) -> Result<
    (Seq<char>, Option<PartialVersionView>),
    VersionError,
> {
    match shape {
        FragmentShapeView::Absent => Ok((path_name, None)),
        FragmentShapeView::Name(name) => Ok((name, None)),
        FragmentShapeView::NameAndVersion(name, text) => match partial_version_spec(text) {
            Ok(v) => Ok((name, Some(v))),
            Err(e) => Err(e),
        },
        FragmentShapeView::Version(text) => match partial_version_spec(text) {
            Ok(v) => Ok((path_name, Some(v))),
            Err(e) => Err(e),
        },
    }
}

/// What `fragment` gives: nothing, a name, a name and a version, or a version.
pub fn fragment_shape(fragment: Option<String>) -> (r: FragmentShape)
    ensures
        r@ == fragment_shape_spec(opt_view(fragment)),
{
    match fragment {
        None => FragmentShape::Absent,
        Some(f) => {
            match first_char(f.as_str()) {
                None => FragmentShape::Absent,
                Some(first) => {
                    match split_once(f.as_str(), ':', '@') {
                        Some((name, version)) => FragmentShape::NameAndVersion(name, version),
                        None => {
                            if is_alphabetic(first) {
                                FragmentShape::Name(f)
                            } else {
                                FragmentShape::Version(f)
                            }
                        },
                    }
                },
            }
        },
    }
}

/// The name and the version that a fragment of shape `shape` gives to a URL
/// whose path ends in `path_name`.
pub fn resolve_shape(shape: FragmentShape, path_name: String) -> (r: Result<
    (String, Option<PartialVersion>),
    VersionError,
>)
    ensures
        match r {
            Ok((name, version)) => resolve_shape_spec(shape@, path_name@) == Ok::<
                (Seq<char>, Option<PartialVersionView>),
                VersionError,
            >((name@, opt_view(version))),
            Err(e) => resolve_shape_spec(shape@, path_name@) == Err::<
                (Seq<char>, Option<PartialVersionView>),
                VersionError,
            >(e),
        },
{
    match shape {
        FragmentShape::Absent => Ok((path_name, None)),
        FragmentShape::Name(name) => Ok((name, None)),
        FragmentShape::NameAndVersion(name, text) => {
            match PartialVersion::parse(text.as_str()) {
                Ok(v) => Ok((name, Some(v))),
                Err(e) => Err(e),
            }
        },
        FragmentShape::Version(text) => {
            match PartialVersion::parse(text.as_str()) {
                Ok(v) => Ok((path_name, Some(v))),
                Err(e) => Err(e),
            }
        },
    }
}

} // verus!

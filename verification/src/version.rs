//! Versions: full semantic versions, and partial ones that give only a major
//! number, a major and a minor number, or all three.
//!
//! The grammar of version numbers is the `semver` crate's. This module reads
//! its results and decides what a partial version is.

use std::cmp::Ordering;
use vstd::prelude::*;
use vstd::std_specs::cmp::PartialEqSpecImpl;
use vstd::std_specs::cmp::PartialOrdSpecImpl;
use vstd::std_specs::convert::FromSpecImpl;
use vstd::string::StringExecFns;
use crate::order::{
    chain, chain_orders, compare_numbers, compare_option_numbers, compare_option_text,
    number_order, option_number_order, option_text_order,
};
use crate::text::{
    clone_text, contains_char, decimal, first_char, first_char_spec, opt_view, push_decimal,
    same_text,
};

verus! {

/// A full semantic version. `pre` and `build` are empty where the version has
/// no pre-release or no build metadata.
#[derive(Debug, Eq, Hash)]
pub struct Version {
    pub major: u64,
    pub minor: u64,
    pub patch: u64,
    pub pre: String,
    pub build: String,
}

/// What a `Version` holds.
pub struct VersionView {
    pub major: u64,
    pub minor: u64,
    pub patch: u64,
    pub pre: Seq<char>,
    pub build: Seq<char>,
}

impl View for Version {
    type V = VersionView;

    open spec fn view(&self) -> VersionView {
        VersionView {
            major: self.major,
            minor: self.minor,
            patch: self.patch,
            pre: self.pre@,
            build: self.build@,
        }
    }
}

/// A version given to major, major.minor or full precision. `pre` and `build`
/// are absent where the text gave none.
///
/// Partial versions are ordered by their fields in turn, an absent field
/// first, the pre-release and the build metadata as texts. The order keeps
/// collections stable and says nothing of version precedence.
#[derive(Debug, Eq, Hash, Ord)]
pub struct PartialVersion {
    pub major: u64,
    pub minor: Option<u64>,
    pub patch: Option<u64>,
    pub pre: Option<String>,
    pub build: Option<String>,
}

/// What a `PartialVersion` holds.
pub struct PartialVersionView {
    pub major: u64,
    pub minor: Option<u64>,
    pub patch: Option<u64>,
    pub pre: Option<Seq<char>>,
    pub build: Option<Seq<char>>,
}

impl View for PartialVersion {
    type V = PartialVersionView;

    open spec fn view(&self) -> PartialVersionView {
        PartialVersionView {
            major: self.major,
            minor: self.minor,
            patch: self.patch,
            pre: opt_view(self.pre),
            build: opt_view(self.build),
        }
    }
}

/// The operator of a comparator in a version requirement.
#[derive(Clone, Copy, Debug, PartialEq, Eq)]
pub enum Operator {
    Exact,
    Greater,
    GreaterEq,
    Less,
    LessEq,
    Tilde,
    Caret,
    Wildcard,
    /// An operator that this library has no name for.
    Other,
}

/// One comparator of a version requirement: an operator and a partial version.
#[derive(Debug, PartialEq, Eq)]
pub struct Comparator {
    pub op: Operator,
    pub major: u64,
    pub minor: Option<u64>,
    pub patch: Option<u64>,
    pub pre: String,
}

/// What a `Comparator` holds.
pub struct ComparatorView {
    pub op: Operator,
    pub major: u64,
    pub minor: Option<u64>,
    pub patch: Option<u64>,
    pub pre: Seq<char>,
}

impl View for Comparator {
    type V = ComparatorView;

    open spec fn view(&self) -> ComparatorView {
        ComparatorView {
            op: self.op,
            major: self.major,
            minor: self.minor,
            patch: self.patch,
            pre: self.pre@,
        }
    }
}

/// Why a text is no partial version.
#[derive(Clone, Copy, Debug, PartialEq, Eq)]
pub enum VersionError {
    /// The text is a version requirement, such as `^1.0` or `1.*`.
    VersionReq,
    /// The text has a pre-release part that cannot be read.
    Prerelease,
    /// The text has build metadata that cannot be read.
    BuildMetadata,
    /// The text is nothing like a version.
    Unexpected,
}

/// The words for a version error.
pub open spec fn version_error_text(e: VersionError) -> Seq<char> {
    match e {
        VersionError::VersionReq => "unexpected version requirement, expected a version like \"1.32\""@,
        VersionError::Prerelease => "unexpected prerelease field, expected a version like \"1.32\""@,
        VersionError::BuildMetadata => "unexpected build field, expected a version like \"1.32\""@,
        VersionError::Unexpected => "expected a version like \"1.32\""@,
    }
}

impl VersionError {
    /// What went wrong, in words.
    pub fn message(&self) -> (r: &'static str)
        ensures
            r@ == version_error_text(*self),
    {
        match self {
            VersionError::VersionReq => "unexpected version requirement, expected a version like \"1.32\"",
            VersionError::Prerelease => "unexpected prerelease field, expected a version like \"1.32\"",
            VersionError::BuildMetadata => "unexpected build field, expected a version like \"1.32\"",
            VersionError::Unexpected => "expected a version like \"1.32\"",
        }
    }
}

impl View for VersionError {
    type V = VersionError;

    open spec fn view(&self) -> VersionError {
        *self
    }
}

/// The full version that the `semver` crate reads in `text`, if it reads one.
pub uninterp spec fn semver_version(text: Seq<char>) -> Option<VersionView>;

/// The comparators of the version requirement that the `semver` crate reads in
/// `text`, if it reads one.
pub uninterp spec fn semver_requirement(text: Seq<char>) -> Option<Seq<ComparatorView>>;

/// The views of the comparators of `r`.
pub open spec fn comparators_view(r: Option<Vec<Comparator>>) -> Option<Seq<ComparatorView>> {
    match r {
        Some(v) => Some(v@.map_values(|c: Comparator| c@)),
        None => None,
    }
}

/// Calls `semver::Version::parse`. Trusted: the result is the crate's reading
/// of `text`, field by field, with the pre-release and the build metadata as
/// the text that the crate holds for them; `None` where the crate returns an
/// error.
#[verifier::external_body]
fn read_version(text: &str) -> (r: Option<Version>)
    ensures
        opt_view(r) == semver_version(text@),
{
    match semver::Version::parse(text) {
        Ok(v) => Some(Version {
            major: v.major,
            minor: v.minor,
            patch: v.patch,
            pre: v.pre.as_str().to_owned(),
            build: v.build.as_str().to_owned(),
        }),
        Err(_) => None,
    }
}

/// Calls `semver::VersionReq::parse`. Trusted: the result holds the crate's
/// comparators in their order, each field by field; `None` where the crate
/// returns an error.
#[verifier::external_body]
fn read_requirement(text: &str) -> (r: Option<Vec<Comparator>>)
    ensures
        comparators_view(r) == semver_requirement(text@),
{
    let req = semver::VersionReq::parse(text).ok()?;
    Some(req.comparators.into_iter().map(|c| Comparator {
        op: match c.op {
            semver::Op::Exact => Operator::Exact, semver::Op::Greater => Operator::Greater,
            semver::Op::GreaterEq => Operator::GreaterEq, semver::Op::Less => Operator::Less,
            semver::Op::LessEq => Operator::LessEq, semver::Op::Tilde => Operator::Tilde,
            semver::Op::Caret => Operator::Caret, semver::Op::Wildcard => Operator::Wildcard,
            _ => Operator::Other,
        },
        major: c.major, minor: c.minor, patch: c.patch, pre: c.pre.as_str().to_owned(),
    }).collect())
}

/// `c` opens a version requirement: one of `<`, `>`, `=`, `^`, `~`.
pub open spec fn is_operator_char(c: char) -> bool {
    c == '<' || c == '>' || c == '=' || c == '^' || c == '~'
}

/// `value` is written as a version requirement: it opens with an operator, or
/// holds a wildcard or a comma.
pub open spec fn is_requirement(value: Seq<char>) -> bool {
    ||| (first_char_spec(value) matches Some(c) && is_operator_char(c))
    ||| value.contains('*')
    ||| value.contains(',')
}

/// `text`, or nothing where it is empty.
pub open spec fn non_empty(text: Seq<char>) -> Option<Seq<char>> {
    if text.len() == 0 {
        None
    } else {
        Some(text)
    }
}

/// The partial version that says as much as the full version `v`.
pub open spec fn partial_of_version(v: VersionView) -> PartialVersionView {
    PartialVersionView {
        major: v.major,
        minor: Some(v.minor),
        patch: Some(v.patch),
        pre: non_empty(v.pre),
        build: non_empty(v.build),
    }
}

/// The full version that `p` stands for, where it gives all three numbers.
pub open spec fn version_of_partial(p: PartialVersionView) -> Option<VersionView> {
    if p.minor is Some && p.patch is Some {
        Some(
            VersionView {
                major: p.major,
                minor: p.minor->0,
                patch: p.patch->0,
                pre: match p.pre {
                    Some(t) => t,
                    None => Seq::empty(),
                },
                build: match p.build {
                    Some(t) => t,
                    None => Seq::empty(),
                },
            },
        )
    } else {
        None
    }
}

/// What a text that is no full version is, given the requirement read in it:
/// a partial version where the requirement is one comparator with the
/// operator that a bare version implies, an error otherwise.
pub open spec fn partial_of_requirement(
    value: Seq<char>,
    requirement: Option<Seq<ComparatorView>>,
) -> Result<PartialVersionView, VersionError> {
    match requirement {
        None => if value.contains('-') {
            Err(VersionError::Prerelease)
        } else if value.contains('+') {
            Err(VersionError::BuildMetadata)
        } else {
            Err(VersionError::Unexpected)
        },
        Some(comparators) => if comparators.len() != 1 {
            Err(VersionError::VersionReq)
        } else if comparators[0].op != Operator::Caret {
            Err(VersionError::VersionReq)
        } else if first_char_spec(value) == Some('^') {
            Err(VersionError::VersionReq)
        } else {
            Ok(
                PartialVersionView {
                    major: comparators[0].major,
                    minor: comparators[0].minor,
                    patch: comparators[0].patch,
                    pre: non_empty(comparators[0].pre),
                    build: None,
                },
            )
        },
    }
}

/// What `value` is as a partial version: a requirement is refused, a full
/// version is taken whole, and anything else is read as a requirement made of
/// one bare partial version.
pub open spec fn partial_version_spec(value: Seq<char>) -> Result<PartialVersionView, VersionError> {
    if is_requirement(value) {
        Err(VersionError::VersionReq)
    } else {
        match semver_version(value) {
            Some(v) => Ok(partial_of_version(v)),
            None => partial_of_requirement(value, semver_requirement(value)),
        }
    }
}

/// The text of a partial version: the numbers that it gives, joined by dots,
/// then `-` and the pre-release, then `+` and the build metadata.
pub open spec fn version_text(p: PartialVersionView) -> Seq<char> {
    decimal(p.major as nat) + (match p.minor {
        Some(n) => seq!['.'] + decimal(n as nat),
        None => Seq::empty(),
    }) + (match p.patch {
        Some(n) => seq!['.'] + decimal(n as nat),
        None => Seq::empty(),
    }) + (match p.pre {
        Some(t) => seq!['-'] + t,
        None => Seq::empty(),
    }) + (match p.build {
        Some(t) => seq!['+'] + t,
        None => Seq::empty(),
    })
}

/// `text` as an owned value, or nothing where it is empty.
fn keep_non_empty(text: String) -> (r: Option<String>)
    ensures
        opt_view(r) == non_empty(text@),
        r == (if text@.len() == 0 {
            None
        } else {
            Some(text)
        }),
{
    if text.as_str().is_empty() {
        None
    } else {
        Some(text)
    }
}

impl PartialEq for Version {
    fn eq(&self, other: &Version) -> (r: bool) {
        self.major == other.major && self.minor == other.minor && self.patch == other.patch
            && self.pre == other.pre && self.build == other.build
    }
}

impl PartialEqSpecImpl for Version {
    open spec fn obeys_eq_spec() -> bool {
        true
    }

    open spec fn eq_spec(&self, other: &Version) -> bool {
        self@ == other@
    }
}

impl PartialEq for PartialVersion {
    fn eq(&self, other: &PartialVersion) -> (r: bool) {
        self.major == other.major && self.minor == other.minor && self.patch == other.patch
            && same_text(&self.pre, &other.pre) && same_text(&self.build, &other.build)
    }
}

impl PartialEqSpecImpl for PartialVersion {
    open spec fn obeys_eq_spec() -> bool {
        true
    }

    open spec fn eq_spec(&self, other: &PartialVersion) -> bool {
        self@ == other@
    }
}

/// The order of two partial versions: that of their fields in turn.
pub open spec fn version_order(a: PartialVersionView, b: PartialVersionView) -> Ordering {
    chain(
        number_order(a.major, b.major),
        chain(
            option_number_order(a.minor, b.minor),
            chain(
                option_number_order(a.patch, b.patch),
                chain(option_text_order(a.pre, b.pre), option_text_order(a.build, b.build)),
            ),
        ),
    )
}

/// The order of two optional partial versions: none comes first.
pub open spec fn option_version_order(
    a: Option<PartialVersionView>,
    b: Option<PartialVersionView>,
) -> Ordering {
    match (a, b) {
        (None, None) => Ordering::Equal,
        (None, Some(_)) => Ordering::Less,
        (Some(_), None) => Ordering::Greater,
        (Some(x), Some(y)) => version_order(x, y),
    }
}

impl PartialOrd for PartialVersion {
    fn partial_cmp(&self, other: &PartialVersion) -> (r: Option<Ordering>) {
        Some(
            chain_orders(
                compare_numbers(self.major, other.major),
                chain_orders(
                    compare_option_numbers(self.minor, other.minor),
                    chain_orders(
                        compare_option_numbers(self.patch, other.patch),
                        chain_orders(
                            compare_option_text(&self.pre, &other.pre),
                            compare_option_text(&self.build, &other.build),
                        ),
                    ),
                ),
            ),
        )
    }
}

impl PartialOrdSpecImpl for PartialVersion {
    open spec fn obeys_partial_cmp_spec() -> bool {
        true
    }

    open spec fn partial_cmp_spec(&self, other: &PartialVersion) -> Option<Ordering> {
        Some(version_order(self@, other@))
    }
}

impl Clone for Version {
    fn clone(&self) -> (r: Version)
        ensures
            r@ == self@,
    {
        Version {
            major: self.major,
            minor: self.minor,
            patch: self.patch,
            pre: self.pre.clone(),
            build: self.build.clone(),
        }
    }
}

impl Clone for PartialVersion {
    fn clone(&self) -> (r: PartialVersion)
        ensures
            r@ == self@,
    {
        PartialVersion {
            major: self.major,
            minor: self.minor,
            patch: self.patch,
            pre: clone_text(&self.pre),
            build: clone_text(&self.build),
        }
    }
}

/// The partial version made of the parts of the full version `v`.
pub open spec fn widened(v: Version) -> PartialVersion {
    PartialVersion {
        major: v.major,
        minor: Some(v.minor),
        patch: Some(v.patch),
        pre: if v.pre@.len() == 0 {
            None
        } else {
            Some(v.pre)
        },
        build: if v.build@.len() == 0 {
            None
        } else {
            Some(v.build)
        },
    }
}

impl From<Version> for PartialVersion {
    fn from(v: Version) -> (r: PartialVersion) {
        PartialVersion::from_version(v)
    }
}

impl FromSpecImpl<Version> for PartialVersion {
    open spec fn obeys_from_spec() -> bool {
        true
    }

    open spec fn from_spec(v: Version) -> PartialVersion {
        widened(v)
    }
}

impl PartialVersion {
    /// The partial version that says as much as the full version `v`.
    pub fn from_version(v: Version) -> (r: PartialVersion)
        ensures
            r@ == partial_of_version(v@),
            r == widened(v),
    {
        PartialVersion {
            major: v.major,
            minor: Some(v.minor),
            patch: Some(v.patch),
            pre: keep_non_empty(v.pre),
            build: keep_non_empty(v.build),
        }
    }

    /// Whether `value` is written as a version requirement.
    pub fn is_req(value: &str) -> (r: bool)
        ensures
            r == is_requirement(value@),
    {
        let opens = match first_char(value) {
            Some(c) => c == '<' || c == '>' || c == '=' || c == '^' || c == '~',
            None => false,
        };
        opens || contains_char(value, '*') || contains_char(value, ',')
    }

    /// Decides what `value`, which is no full version, is: `requirement` is
    /// what was read in it as a version requirement.
    pub fn from_requirement(value: &str, requirement: Option<Vec<Comparator>>) -> (r: Result<
        PartialVersion,
        VersionError,
    >)
        ensures
            match r {
                Ok(p) => partial_of_requirement(value@, comparators_view(requirement)) == Ok::<
                    PartialVersionView,
                    VersionError,
                >(p@),
                Err(e) => partial_of_requirement(value@, comparators_view(requirement)) == Err::<
                    PartialVersionView,
                    VersionError,
                >(e),
            },
    {
        match requirement {
            None => {
                if contains_char(value, '-') {
                    Err(VersionError::Prerelease)
                } else if contains_char(value, '+') {
                    Err(VersionError::BuildMetadata)
                } else {
                    Err(VersionError::Unexpected)
                }
            },
            Some(mut comparators) => {
                if comparators.len() != 1 {
                    return Err(VersionError::VersionReq);
                }
                let ghost all = comparators@;
                let c = comparators.pop().unwrap();
                assert(all.map_values(|c: Comparator| c@)[0] == c@);
                match c.op {
                    Operator::Caret => {},
                    _ => {
                        return Err(VersionError::VersionReq);
                    },
                }
                match first_char(value) {
                    Some('^') => {
                        return Err(VersionError::VersionReq);
                    },
                    _ => {},
                }
                Ok(
                    PartialVersion {
                        major: c.major,
                        minor: c.minor,
                        patch: c.patch,
                        pre: keep_non_empty(c.pre),
                        build: None,
                    },
                )
            },
        }
    }

    /// Reads `value` as a partial version.
    pub fn parse(value: &str) -> (r: Result<PartialVersion, VersionError>)
        ensures
            match r {
                Ok(p) => partial_version_spec(value@) == Ok::<PartialVersionView, VersionError>(p@),
                Err(e) => partial_version_spec(value@) == Err::<PartialVersionView, VersionError>(
                    e,
                ),
            },
    {
        if PartialVersion::is_req(value) {
            return Err(VersionError::VersionReq);
        }
        match read_version(value) {
            Some(v) => Ok(PartialVersion::from_version(v)),
            None => PartialVersion::from_requirement(value, read_requirement(value)),
        }
    }

    /// The full version that this one stands for, where it gives all three
    /// numbers.
    pub fn to_version(&self) -> (r: Option<Version>)
        ensures
            opt_view(r) == version_of_partial(self@),
    {
        match (self.minor, self.patch) {
            (Some(minor), Some(patch)) => Some(
                Version {
                    major: self.major,
                    minor,
                    patch,
                    pre: match &self.pre {
                        Some(t) => t.clone(),
                        None => String::new(),
                    },
                    build: match &self.build {
                        Some(t) => t.clone(),
                        None => String::new(),
                    },
                },
            ),
            _ => None,
        }
    }

    /// The text of this version.
    pub fn render(&self) -> (r: String)
        ensures
            r@ == version_text(self@),
    {
        proof {
            reveal_strlit(".");
            reveal_strlit("-");
            reveal_strlit("+");
        }
        let mut out = String::new();
        push_decimal(&mut out, self.major);
        if let Some(n) = self.minor {
            out.append(".");
            push_decimal(&mut out, n);
        }
        if let Some(n) = self.patch {
            out.append(".");
            push_decimal(&mut out, n);
        }
        if let Some(t) = &self.pre {
            out.append("-");
            out.append(t.as_str());
        }
        if let Some(t) = &self.build {
            out.append("+");
            out.append(t.as_str());
        }
        assert(out@ =~= version_text(self@));
        out
    }
}

} // verus!

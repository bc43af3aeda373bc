//! Source locations: URLs as the `url` crate reads them.
//!
//! A `SourceUrl` holds the text that the `url` crate gives a URL. Whatever
//! this library needs of a URL (its scheme, its query, its fragment, the
//! segments of its path) it asks of that crate, on that text. The answers
//! have names here, so that contracts can speak of them.

use std::cmp::Ordering;
use vstd::prelude::*;
use vstd::std_specs::cmp::PartialEqSpecImpl;
use vstd::std_specs::cmp::PartialOrdSpecImpl;
use crate::order::{compare_text, text_order};
use crate::text::opt_view;

verus! {

/// A URL, held as the text that the `url` crate serialises it to.
///
/// Two values are equal, and ordered, as their texts are.
#[derive(Debug, Eq, Hash, Ord)]
pub struct SourceUrl {
    text: String,
}

impl View for SourceUrl {
    type V = Seq<char>;

    closed spec fn view(&self) -> Seq<char> {
        self.text@
    }
}

/// The serialisation of the URL that the `url` crate reads in `input`, if it
/// reads one.
pub uninterp spec fn url_parsed(input: Seq<char>) -> Option<Seq<char>>;

/// The scheme of the URL read in `text`; empty where none is read.
pub uninterp spec fn url_scheme(text: Seq<char>) -> Seq<char>;

/// The query of the URL read in `text`, if one is read and it has a query.
pub uninterp spec fn url_query(text: Seq<char>) -> Option<Seq<char>>;

/// The pairs of names and values, percent-decoded, in the query of the URL
/// read in `text`; none where no URL is read.
pub uninterp spec fn url_query_pairs(text: Seq<char>) -> Seq<(Seq<char>, Seq<char>)>;

/// The fragment of the URL read in `text`, if one is read and it has a
/// fragment.
pub uninterp spec fn url_fragment(text: Seq<char>) -> Option<Seq<char>>;

/// The segments of the path of the URL read in `text`, if one is read and its
/// path has segments.
pub uninterp spec fn url_path_segments(text: Seq<char>) -> Option<Seq<Seq<char>>>;

/// The serialisation of the URL read in `text` once its query is removed;
/// `text` itself where no URL is read.
pub uninterp spec fn url_without_query(text: Seq<char>) -> Seq<char>;

/// The serialisation of the URL read in `text` once its fragment is removed;
/// `text` itself where no URL is read.
pub uninterp spec fn url_without_fragment(text: Seq<char>) -> Seq<char>;

/// `value` in the `application/x-www-form-urlencoded` byte serialisation.
pub uninterp spec fn form_encoded(value: Seq<char>) -> Seq<char>;

/// The views of a list of pairs of texts.
pub open spec fn pairs_view(pairs: Seq<(String, String)>) -> Seq<(Seq<char>, Seq<char>)> {
    pairs.map_values(|p: (String, String)| (p.0@, p.1@))
}

/// The views of an optional list of texts.
pub open spec fn segments_view(segments: Option<Vec<String>>) -> Option<Seq<Seq<char>>> {
    match segments {
        Some(v) => Some(v@.map_values(|s: String| s@)),
        None => None,
    }
}

/// Calls `url::Url::parse`. Trusted: the result is the serialisation of the
/// URL that the crate returns, and `None` where it returns an error.
#[verifier::external_body]
fn read_url(input: &str) -> (r: Option<String>)
    ensures
        opt_view(r) == url_parsed(input@),
{
    match url::Url::parse(input) {
        Ok(u) => Some(String::from(u)),
        Err(_) => None,
    }
}

/// Calls `url::Url::scheme` on the URL read in `text`. Trusted: the result is
/// what the crate returns, and empty where the crate reads no URL.
#[verifier::external_body]
fn read_scheme(text: &str) -> (r: String)
    ensures
        r@ == url_scheme(text@),
{
    match url::Url::parse(text) {
        Ok(u) => u.scheme().to_owned(),
        Err(_) => String::new(),
    }
}

/// Calls `url::Url::query` on the URL read in `text`. Trusted: the result is
/// what the crate returns, and `None` where the crate reads no URL.
#[verifier::external_body]
fn read_query(text: &str) -> (r: Option<String>)
    ensures
        opt_view(r) == url_query(text@),
{
    match url::Url::parse(text) {
        Ok(u) => u.query().map(str::to_owned),
        Err(_) => None,
    }
}

/// Calls `url::Url::query_pairs` on the URL read in `text`. Trusted: the
/// result holds the pairs that the crate yields, in their order, and is empty
/// where the crate reads no URL.
#[verifier::external_body]
fn read_query_pairs(text: &str) -> (r: Vec<(String, String)>)
    ensures
        pairs_view(r@) == url_query_pairs(text@),
{
    match url::Url::parse(text) {
        Ok(u) => u.query_pairs().into_owned().collect(),
        Err(_) => Vec::new(),
    }
}

/// Calls `url::Url::fragment` on the URL read in `text`. Trusted: the result
/// is what the crate returns, and `None` where the crate reads no URL.
#[verifier::external_body]
fn read_fragment(text: &str) -> (r: Option<String>)
    ensures
        opt_view(r) == url_fragment(text@),
{
    match url::Url::parse(text) {
        Ok(u) => u.fragment().map(str::to_owned),
        Err(_) => None,
    }
}

/// Calls `url::Url::path_segments` on the URL read in `text`. Trusted: the
/// result holds the segments that the crate yields, in their order, and is
/// `None` where the crate returns none or reads no URL.
#[verifier::external_body]
fn read_path_segments(text: &str) -> (r: Option<Vec<String>>)
    ensures
        segments_view(r) == url_path_segments(text@),
{
    match url::Url::parse(text) {
        Ok(u) => u.path_segments().map(|segments| segments.map(str::to_owned).collect()),
        Err(_) => None,
    }
}

/// Calls `url::Url::set_query` with `None` on the URL read in `text`. Trusted:
/// the result is the serialisation of the URL after the call, and `text`
/// where the crate reads no URL.
#[verifier::external_body]
fn clear_query(text: &str) -> (r: String)
    ensures
        r@ == url_without_query(text@),
{
    match url::Url::parse(text) {
        Ok(mut u) => {
            u.set_query(None);
            String::from(u)
        },
        Err(_) => text.to_owned(),
    }
}

/// Calls `url::Url::set_fragment` with `None` on the URL read in `text`.
/// Trusted: the result is the serialisation of the URL after the call, and
/// `text` where the crate reads no URL.
#[verifier::external_body]
fn clear_fragment(text: &str) -> (r: String)
    ensures
        r@ == url_without_fragment(text@),
{
    match url::Url::parse(text) {
        Ok(mut u) => {
            u.set_fragment(None);
            String::from(u)
        },
        Err(_) => text.to_owned(),
    }
}

/// Calls `url::form_urlencoded::byte_serialize` on the bytes of `value`.
/// Trusted: the result is the pieces that the crate yields, joined.
#[verifier::external_body]
pub(crate) fn form_encode(value: &str) -> (r: String)
    ensures
        r@ == form_encoded(value@),
{
    url::form_urlencoded::byte_serialize(value.as_bytes()).collect()
}

impl PartialEq for SourceUrl {
    fn eq(&self, other: &SourceUrl) -> (r: bool) {
        self.text == other.text
    }
}

impl PartialEqSpecImpl for SourceUrl {
    open spec fn obeys_eq_spec() -> bool {
        true
    }

    open spec fn eq_spec(&self, other: &SourceUrl) -> bool {
        self@ == other@
    }
}

impl PartialOrd for SourceUrl {
    fn partial_cmp(&self, other: &SourceUrl) -> (r: Option<Ordering>) {
        Some(compare_text(self.text.as_str(), other.text.as_str()))
    }
}

impl PartialOrdSpecImpl for SourceUrl {
    open spec fn obeys_partial_cmp_spec() -> bool {
        true
    }

    open spec fn partial_cmp_spec(&self, other: &SourceUrl) -> Option<Ordering> {
        Some(text_order(self@, other@))
    }
}

impl Clone for SourceUrl {
    fn clone(&self) -> (r: SourceUrl)
        ensures
            r@ == self@,
    {
        SourceUrl { text: self.text.clone() }
    }
}

impl SourceUrl {
    /// Reads `input` as a URL.
    pub fn parse(input: &str) -> (r: Option<SourceUrl>)
        ensures
            opt_view(r) == url_parsed(input@),
    {
        match read_url(input) {
            Some(text) => Some(SourceUrl { text }),
            None => None,
        }
    }

    /// The text of this URL.
    pub fn as_str(&self) -> (r: &str)
        ensures
            r@ == self@,
    {
        self.text.as_str()
    }

    /// The scheme of this URL.
    pub fn scheme(&self) -> (r: String)
        ensures
            r@ == url_scheme(self@),
    {
        read_scheme(self.text.as_str())
    }

    /// The query of this URL, if it has one.
    pub fn query(&self) -> (r: Option<String>)
        ensures
            opt_view(r) == url_query(self@),
    {
        read_query(self.text.as_str())
    }

    /// The pairs of names and values in the query of this URL.
    pub fn query_pairs(&self) -> (r: Vec<(String, String)>)
        ensures
            pairs_view(r@) == url_query_pairs(self@),
    {
        read_query_pairs(self.text.as_str())
    }

    /// The fragment of this URL, if it has one.
    pub fn fragment(&self) -> (r: Option<String>)
        ensures
            opt_view(r) == url_fragment(self@),
    {
        read_fragment(self.text.as_str())
    }

    /// The segments of the path of this URL, if its path has segments.
    pub fn path_segments(&self) -> (r: Option<Vec<String>>)
        ensures
            segments_view(r) == url_path_segments(self@),
    {
        read_path_segments(self.text.as_str())
    }

    /// This URL without its query.
    pub fn without_query(&self) -> (r: SourceUrl)
        ensures
            r@ == url_without_query(self@),
    {
        SourceUrl { text: clear_query(self.text.as_str()) }
    }

    /// This URL without its fragment.
    pub fn without_fragment(&self) -> (r: SourceUrl)
        ensures
            r@ == url_without_fragment(self@),
    {
        SourceUrl { text: clear_fragment(self.text.as_str()) }
    }
}

} // verus!

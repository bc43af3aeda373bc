//! What holds of reading and writing specifications, whatever the token.

use std::cmp::Ordering;
use vstd::prelude::*;
use crate::name::{is_package_name, lemma_name_error_none};
use crate::order::{lemma_text_order_total, option_text_order};
use crate::error::ParseErrorView;
use crate::fragment::{fragment_shape_spec, resolve_shape_spec, FragmentShapeView};
use crate::package_id_spec::{
    assemble_spec, package_order, parse_plain_spec, parse_spec, protocol_part, query_part,
    render_spec, segment_part, version_part, PackageIdSpecView,
};
use crate::scheme::{classify_spec, kind_of_class, located_spec, SchemeClass};
use crate::source_kind::{
    option_kind_order, reference_of, reference_order, GitReferenceView, SourceKindView,
};
use crate::source_url::{
    url_fragment, url_parsed, url_path_segments, url_query, url_query_pairs, url_scheme,
    url_without_fragment,
};
use crate::text::{
    contains_seq, decimal, first_of, is_decimal_digit, is_first_of, is_letter,
    lemma_decimal_digits, lemma_first_of_facts, lemma_first_of_is, lemma_first_of_none,
    split_once_spec,
};
use crate::version::{
    option_version_order, partial_of_version, partial_version_spec, version_of_partial,
    version_order, version_text, PartialVersionView, VersionError, VersionView,
};

verus! {

/// The kind that a scheme opens with: what stands before its first `+`.
pub open spec fn scheme_kind(scheme: Seq<char>) -> Option<Seq<char>> {
    match split_once_spec(scheme, '+', '+') {
        Some((kind, _)) => Some(kind),
        None => None,
    }
}

/// The name that a fragment opens with: what stands before its first `:` or
/// `@`, and the whole of it where it has neither.
pub open spec fn fragment_name(fragment: Seq<char>) -> Seq<char> {
    match split_once_spec(fragment, ':', '@') {
        Some((name, _)) => name,
        None => fragment,
    }
}

/// What is read is valid as a whole: the name of a specification that was
/// read is a package name, and its kind comes with a URL.
pub proof fn lemma_parsed_is_valid(token: Seq<char>)
    requires
        parse_spec(token) is Ok,
    ensures
        is_package_name(parse_spec(token)->Ok_0.name),
        parse_spec(token)->Ok_0.kind is Some ==> parse_spec(token)->Ok_0.url is Some,
{
    lemma_name_error_none(parse_spec(token)->Ok_0.name);
}

/// A full version, taken as a partial version, stands for itself again.
pub proof fn lemma_widened_version_is_full(v: VersionView)
    ensures
        version_of_partial(partial_of_version(v)) == Some(v),
{
    let p = partial_of_version(v);
    let back = version_of_partial(p)->0;
    assert(back.pre =~= v.pre);
    assert(back.build =~= v.build);
}

/// Only a git repository takes a query.
///
/// A token that is a URL with a query is refused for that query where its
/// scheme opens with `registry`, `sparse` or `path`, and where it opens with
/// no kind at all. Where the scheme opens with `git`, no query is ever the
/// reason to refuse the token, and a token that is read has the kind of a git
/// repository, with the reference that the pairs of its query select.
pub proof fn lemma_query_exclusivity(token: Seq<char>)
    requires
        contains_seq(token, "://"@),
        url_parsed(token) is Some,
    ensures
        ({
            let url = url_parsed(token)->0;
            let kind = scheme_kind(url_scheme(url));
            &&& url_query(url) is Some && (kind == Some("registry"@) || kind == Some("sparse"@)
                || kind == Some("path"@) || kind is None) ==> parse_spec(token) == Err::<
                PackageIdSpecView,
                ParseErrorView,
            >(ParseErrorView::UnexpectedQueryString { url })
            &&& kind == Some("git"@) ==> !(parse_spec(token) matches Err(
                ParseErrorView::UnexpectedQueryString { .. },
            ))
            &&& kind == Some("git"@) ==> (parse_spec(token) matches Ok(s) ==> s.kind == Some(
                SourceKindView::Git(reference_of(url_query_pairs(url))),
            ))
        }),
{
    reveal_strlit("git");
    reveal_strlit("registry");
    reveal_strlit("sparse");
    reveal_strlit("path");
    let url = url_parsed(token)->0;
    let kind = scheme_kind(url_scheme(url));
    assert("git"@.len() == 3);
    assert("path"@.len() == 4);
    assert("sparse"@.len() == 6);
    assert("registry"@.len() == 8);
    if kind == Some("git"@) {
        let class = SchemeClass::Git;
        assert(classify_spec(url_scheme(url), url_query(url) is Some, url) == Ok::<
            SchemeClass,
            ParseErrorView,
        >(class));
        let git = kind_of_class(class, reference_of(url_query_pairs(url)));
        lemma_assemble_keeps_kind(git);
    }
}

/// Once its scheme has been taken, a URL is refused for its path, its version
/// or its name, never for a query; and one that is read has the kind that its
/// scheme gave.
proof fn lemma_assemble_keeps_kind(kind: Option<SourceKindView>)
    ensures
        forall|located: Seq<char>|
            !(#[trigger] assemble_spec(located, kind) matches Err(
                ParseErrorView::UnexpectedQueryString { .. },
            )),
        forall|located: Seq<char>|
            (#[trigger] assemble_spec(located, kind) matches Ok(s) ==> s.kind == kind),
{
}

/// A fragment that opens with a letter names the package, and one that opens
/// with a digit gives its version.
///
/// Of a URL that is read, with a fragment that is not empty: where the
/// fragment opens with a letter, the name is what the fragment holds up to
/// its first `:` or `@`; where it opens with a digit, the name is the last
/// segment of the path, and the version is the fragment, whole.
pub proof fn lemma_fragment_heuristic(located: Seq<char>, kind: Option<SourceKindView>)
    requires
        url_fragment(located) is Some,
        url_fragment(located)->0.len() > 0,
        assemble_spec(located, kind) is Ok,
    ensures
        ({
            let fragment = url_fragment(located)->0;
            let s = assemble_spec(located, kind)->Ok_0;
            let segments = url_path_segments(url_without_fragment(located))->0;
            &&& is_letter(fragment[0]) ==> s.name == fragment_name(fragment)
            &&& is_decimal_digit(fragment[0]) ==> {
                &&& s.name == segments.last()
                &&& partial_version_spec(fragment) is Ok
                &&& s.version == Some(partial_version_spec(fragment)->Ok_0)
            }
        }),
{
    let fragment = url_fragment(located)->0;
    lemma_first_of_facts(fragment, ':', '@');
    if is_decimal_digit(fragment[0]) {
        if first_of(fragment, ':', '@') is Some {
            let i = first_of(fragment, ':', '@')->0;
            assert(fragment.take(i).len() == i);
            if i > 0 {
                assert(fragment.take(i)[0] == fragment[0]);
            }
        }
    }
}

/// What a fragment gives, by its first character: one that opens with a
/// letter gives a name, which it opens with; one that opens with a digit and
/// holds neither `:` nor `@` gives a version and no name.
pub proof fn lemma_fragment_shape(fragment: Seq<char>)
    requires
        fragment.len() > 0,
    ensures
        is_letter(fragment[0]) ==> (match fragment_shape_spec(Some(fragment)) {
            FragmentShapeView::Name(name) => name == fragment,
            FragmentShapeView::NameAndVersion(name, _) => name == fragment_name(fragment)
                && name.len() > 0 && name[0] == fragment[0],
            _ => false,
        }),
        is_decimal_digit(fragment[0]) && first_of(fragment, ':', '@') is None
            ==> fragment_shape_spec(Some(fragment)) == FragmentShapeView::Version(fragment),
{
    lemma_first_of_facts(fragment, ':', '@');
    if is_letter(fragment[0]) {
        if first_of(fragment, ':', '@') is Some {
            let i = first_of(fragment, ':', '@')->0;
            assert(i > 0);
            assert(fragment.take(i)[0] == fragment[0]);
        }
    }
}

/// The class of the scheme that marks a source of kind `kind`.
pub open spec fn class_of_kind(kind: Option<SourceKindView>) -> SchemeClass {
    match kind {
        None => SchemeClass::Plain,
        Some(SourceKindView::Path) => SchemeClass::Path,
        Some(SourceKindView::Registry) => SchemeClass::Registry,
        Some(SourceKindView::SparseRegistry) => SchemeClass::Sparse,
        Some(SourceKindView::Git(_)) => SchemeClass::Git,
    }
}

/// What the canonical text of `s` holds before its fragment, where `s` has a
/// URL: the protocol and `+`, the URL, `?` and the query.
pub open spec fn rendered_url(s: PackageIdSpecView) -> Seq<char> {
    (match protocol_part(s) {
        Some(p) => p + seq!['+'],
        None => Seq::empty(),
    }) + s.url->0 + (match query_part(s) {
        Some(q) => seq!['?'] + q,
        None => Seq::empty(),
    })
}

/// The fragment that the canonical text of `s` carries, where `s` has a URL:
/// the name unless the path of the URL ends in it, then the version, after
/// `@` where the name stands before it.
pub open spec fn rendered_fragment(s: PackageIdSpecView) -> Option<Seq<char>> {
    if segment_part(s) != Some(s.name) {
        match version_part(s) {
            Some(v) => Some(s.name + seq!['@'] + v),
            None => Some(s.name),
        }
    } else {
        version_part(s)
    }
}

/// The `semver` crate reads the text of the version of `s` as that version,
/// and the text holds neither `:` nor `@`.
pub open spec fn version_reads_back(s: PackageIdSpecView) -> bool {
    s.version matches Some(v) ==> {
        &&& partial_version_spec(version_text(v)) == Ok::<PartialVersionView, VersionError>(v)
        &&& first_of(version_text(v), ':', '@') is None
    }
}

/// The `url` crate reads in `url` the scheme and the query that mark a source
/// of kind `kind`: the scheme opens with the kind, or has no `+` where there
/// is none; only a git repository has a query, and its pairs select the
/// reference.
pub open spec fn scheme_reads_back(url: Seq<char>, kind: Option<SourceKindView>) -> bool {
    match kind {
        None => scheme_kind(url_scheme(url)) is None && url_query(url) is None,
        Some(SourceKindView::Registry) => scheme_kind(url_scheme(url)) == Some("registry"@)
            && url_query(url) is None,
        Some(SourceKindView::SparseRegistry) => scheme_kind(url_scheme(url)) == Some("sparse"@)
            && url_query(url) is None,
        Some(SourceKindView::Path) => split_once_spec(url_scheme(url), '+', '+') == Some(
            ("path"@, "file"@),
        ) && url_query(url) is None,
        Some(SourceKindView::Git(reference)) => scheme_kind(url_scheme(url)) == Some("git"@)
            && reference_of(url_query_pairs(url)) == reference,
    }
}

/// The `url` crate reads the canonical text of `s`, which has a URL, as it
/// was written: as a URL, with the scheme and the query that mark the kind of
/// `s`, and once the query and the mark have left it, with the fragment that
/// was written and before it the URL of `s`.
pub open spec fn url_reads_back(s: PackageIdSpecView) -> bool {
    let text = render_spec(s);
    &&& contains_seq(text, "://"@)
    &&& url_parsed(text) is Some
    &&& scheme_reads_back(url_parsed(text)->0, s.kind)
    &&& located_spec(url_parsed(text)->0, class_of_kind(s.kind)) is Some
    &&& url_without_fragment(located_spec(url_parsed(text)->0, class_of_kind(s.kind))->0)
        == s.url->0
    &&& url_fragment(located_spec(url_parsed(text)->0, class_of_kind(s.kind))->0)
        == rendered_fragment(s)
}

/// The outside parsers read the canonical text of `s` as it was written: the
/// `semver` crate its version, and the `url` crate its URL, or no URL at all
/// where `s` has none.
pub open spec fn reads_back(s: PackageIdSpecView) -> bool {
    &&& version_reads_back(s)
    &&& match s.url {
        Some(_) => url_reads_back(s),
        None => !(contains_seq(render_spec(s), "://"@) && url_parsed(render_spec(s)) is Some),
    }
}

/// The canonical text of a specification with a URL is what it holds before
/// the fragment, then `#` and the fragment where there is one.
pub proof fn lemma_render_shape(s: PackageIdSpecView)
    requires
        s.url is Some,
    ensures
        render_spec(s) == rendered_url(s) + (match rendered_fragment(s) {
            Some(f) => seq!['#'] + f,
            None => Seq::empty(),
        }),
{
    assert(render_spec(s) =~= rendered_url(s) + (match rendered_fragment(s) {
        Some(f) => seq!['#'] + f,
        None => Seq::empty(),
    }));
}

/// A name without `:` and `@`, then `@`, then any text, is cut at that `@`.
pub proof fn lemma_join_splits(name: Seq<char>, rest: Seq<char>)
    requires
        first_of(name, ':', '@') is None,
    ensures
        split_once_spec(name + seq!['@'] + rest, ':', '@') == Some((name, rest)),
{
    let joined = name + seq!['@'] + rest;
    let at = name.len() as int;
    lemma_first_of_facts(name, ':', '@');
    assert(joined[at] == '@');
    assert forall|j: int| 0 <= j < at implies joined[j] != ':' && joined[j] != '@' by {
        assert(joined[j] == name[j]);
    }
    assert(is_first_of(joined, ':', '@', at));
    lemma_first_of_is(joined, ':', '@', at);
    assert(joined.take(at) =~= name);
    assert(joined.skip(at + 1) =~= rest);
}

/// The text of a version opens with a digit.
pub proof fn lemma_version_text_opens(v: PartialVersionView)
    ensures
        version_text(v).len() > 0,
        is_decimal_digit(version_text(v)[0]),
{
    lemma_decimal_digits(v.major as nat);
    assert(version_text(v)[0] == decimal(v.major as nat)[0]);
}

/// The name of a specification that was read holds neither `:` nor `@`, or
/// is the last segment of the path of its URL.
proof fn lemma_resolved_name(fragment: Option<Seq<char>>, path_name: Seq<char>)
    requires
        resolve_shape_spec(fragment_shape_spec(fragment), path_name) is Ok,
    ensures
        ({
            let name = resolve_shape_spec(fragment_shape_spec(fragment), path_name)->Ok_0.0;
            name == path_name || first_of(name, ':', '@') is None
        }),
{
    if fragment is Some && fragment->0.len() > 0 {
        let f = fragment->0;
        lemma_first_of_facts(f, ':', '@');
        if first_of(f, ':', '@') is Some {
            let i = first_of(f, ':', '@')->0;
            let name = f.take(i);
            assert forall|j: int| 0 <= j < name.len() implies name[j] != ':' && name[j] != '@' by {
                assert(name[j] == f[j]);
            }
            lemma_first_of_none(name, ':', '@');
        }
    }
}

/// What the fragment that is written for a name and a version gives back,
/// read against the same last segment: that name and that version.
proof fn lemma_fragment_round_trip(s: PackageIdSpecView, path_name: Seq<char>)
    requires
        segment_part(s) == Some(path_name),
        version_reads_back(s),
        s.name == path_name || first_of(s.name, ':', '@') is None,
        s.version is None && s.name != path_name ==> s.name.len() > 0 && is_letter(s.name[0]),
    ensures
        resolve_shape_spec(fragment_shape_spec(rendered_fragment(s)), path_name) == Ok::<
            (Seq<char>, Option<PartialVersionView>),
            VersionError,
        >((s.name, s.version)),
{
    if s.version is Some {
        let v = s.version->0;
        let text = version_text(v);
        lemma_version_text_opens(v);
        if s.name == path_name {
            assert(rendered_fragment(s) == Some(text));
            assert(!is_letter(text[0]));
        } else {
            lemma_join_splits(s.name, text);
            assert((s.name + seq!['@'] + text).len() > 0);
        }
    } else {
        if s.name != path_name {
            assert(rendered_fragment(s) == Some(s.name));
        }
    }
}

/// A URL that carries the fragment written for a specification, before it
/// the URL of that specification, stands for that specification again.
proof fn lemma_assemble_round_trip(
    origin: Seq<char>,
    located: Seq<char>,
    kind: Option<SourceKindView>,
)
    requires
        assemble_spec(origin, kind) is Ok,
        version_reads_back(assemble_spec(origin, kind)->Ok_0),
        url_without_fragment(located) == assemble_spec(origin, kind)->Ok_0.url->0,
        url_fragment(located) == rendered_fragment(assemble_spec(origin, kind)->Ok_0),
    ensures
        assemble_spec(located, kind) == assemble_spec(origin, kind),
{
    let s = assemble_spec(origin, kind)->Ok_0;
    let base = url_without_fragment(origin);
    let segments = url_path_segments(base)->0;
    let path_name = segments.last();
    let fragment = url_fragment(origin);
    assert(s.url == Some(base));
    assert(segment_part(s) == Some(path_name));
    lemma_resolved_name(fragment, path_name);
    if fragment is Some && fragment->0.len() > 0 {
        lemma_first_of_facts(fragment->0, ':', '@');
    }
    lemma_fragment_round_trip(s, path_name);
}

/// A token without a URL that is read, and whose text is read back by the
/// outside parsers, is read from its canonical text again.
proof fn lemma_plain_round_trip(token: Seq<char>)
    requires
        parse_plain_spec(token) is Ok,
        reads_back(parse_plain_spec(token)->Ok_0),
    ensures
        parse_spec(render_spec(parse_plain_spec(token)->Ok_0)) == parse_plain_spec(token),
{
    let s = parse_plain_spec(token)->Ok_0;
    lemma_first_of_facts(token, ':', '@');
    if first_of(token, ':', '@') is Some {
        let i = first_of(token, ':', '@')->0;
        let name = token.take(i);
        assert forall|j: int| 0 <= j < name.len() implies name[j] != ':' && name[j] != '@' by {
            assert(name[j] == token[j]);
        }
        lemma_first_of_none(name, ':', '@');
        let text = version_text(s.version->0);
        lemma_join_splits(s.name, text);
        assert(render_spec(s) =~= s.name + seq!['@'] + text);
    } else {
        assert(render_spec(s) =~= token);
    }
}

/// Reading the canonical text of a specification gives that specification
/// again, as far as the outside parsers read the text as it was written.
///
/// Of a token that is read as the specification `s`: where the `semver` crate
/// reads the text of the version of `s` as that version, and the `url` crate
/// reads the canonical text of `s` with the scheme, the query, the fragment
/// and the URL that were written into it (`reads_back`), the canonical text
/// is read as `s`. What this library adds to those readings is proved here:
/// the kind found from the scheme, and the name and the version found from
/// the fragment, are those that were written.
pub proof fn lemma_round_trip_where_read_back(token: Seq<char>)
    requires
        parse_spec(token) is Ok,
        reads_back(parse_spec(token)->Ok_0),
    ensures
        parse_spec(render_spec(parse_spec(token)->Ok_0)) == parse_spec(token),
{
    reveal_strlit("git");
    reveal_strlit("registry");
    reveal_strlit("sparse");
    reveal_strlit("path");
    reveal_strlit("file");
    assert("git"@.len() == 3);
    assert("path"@.len() == 4);
    assert("sparse"@.len() == 6);
    assert("registry"@.len() == 8);
    let s = parse_spec(token)->Ok_0;
    if contains_seq(token, "://"@) && url_parsed(token) is Some {
        let url = url_parsed(token)->0;
        let class = classify_spec(url_scheme(url), url_query(url) is Some, url)->Ok_0;
        let origin = located_spec(url, class)->0;
        let kind = kind_of_class(class, reference_of(url_query_pairs(url)));
        assert(assemble_spec(origin, kind) == Ok::<PackageIdSpecView, ParseErrorView>(s));
        assert(s.kind == kind);
        let text = render_spec(s);
        let read = url_parsed(text)->0;
        let class_read = class_of_kind(kind);
        assert(classify_spec(url_scheme(read), url_query(read) is Some, read) == Ok::<
            SchemeClass,
            ParseErrorView,
        >(class_read));
        assert(kind_of_class(class_read, reference_of(url_query_pairs(read))) == kind);
        let located = located_spec(read, class_read)->0;
        lemma_assemble_round_trip(origin, located, kind);
    } else {
        lemma_plain_round_trip(token);
    }
}

/// The order of optional texts is a total order.
proof fn lemma_option_text_order_total(
    a: Option<Seq<char>>,
    b: Option<Seq<char>>,
    c: Option<Seq<char>>,
)
    ensures
        option_text_order(a, b) == Ordering::Equal <==> a == b,
        option_text_order(a, b) == Ordering::Less <==> option_text_order(b, a)
            == Ordering::Greater,
        option_text_order(a, b) == Ordering::Less && option_text_order(b, c) == Ordering::Less
            ==> option_text_order(a, c) == Ordering::Less,
{
    if a is Some && b is Some {
        lemma_text_order_total(a->0, b->0, b->0);
        if c is Some {
            lemma_text_order_total(a->0, b->0, c->0);
        }
    }
}

/// The order of partial versions is a total order.
pub proof fn lemma_version_order_total(
    a: PartialVersionView,
    b: PartialVersionView,
    c: PartialVersionView,
)
    ensures
        version_order(a, b) == Ordering::Equal <==> a == b,
        version_order(a, b) == Ordering::Less <==> version_order(b, a) == Ordering::Greater,
        version_order(a, b) == Ordering::Less && version_order(b, c) == Ordering::Less
            ==> version_order(a, c) == Ordering::Less,
{
    lemma_option_text_order_total(a.pre, b.pre, c.pre);
    lemma_option_text_order_total(a.build, b.build, c.build);
    lemma_option_text_order_total(b.pre, c.pre, c.pre);
    lemma_option_text_order_total(b.build, c.build, c.build);
    lemma_option_text_order_total(a.pre, c.pre, c.pre);
    lemma_option_text_order_total(a.build, c.build, c.build);
    lemma_option_text_order_total(b.pre, a.pre, a.pre);
    lemma_option_text_order_total(b.build, a.build, a.build);
}

/// The text that a reference holds; none for the default branch.
pub open spec fn reference_text(reference: GitReferenceView) -> Seq<char> {
    match reference {
        GitReferenceView::Tag(s) => s,
        GitReferenceView::Branch(s) => s,
        GitReferenceView::Rev(s) => s,
        GitReferenceView::DefaultBranch => Seq::empty(),
    }
}

/// The order of git references is a total order.
pub proof fn lemma_reference_order_total(
    a: GitReferenceView,
    b: GitReferenceView,
    c: GitReferenceView,
)
    ensures
        reference_order(a, b) == Ordering::Equal <==> a == b,
        reference_order(a, b) == Ordering::Less <==> reference_order(b, a) == Ordering::Greater,
        reference_order(a, b) == Ordering::Less && reference_order(b, c) == Ordering::Less
            ==> reference_order(a, c) == Ordering::Less,
{
    lemma_text_order_total(reference_text(a), reference_text(b), reference_text(c));
}

/// The order of optional source kinds is a total order.
proof fn lemma_option_kind_order_total(
    a: Option<SourceKindView>,
    b: Option<SourceKindView>,
    c: Option<SourceKindView>,
)
    ensures
        option_kind_order(a, b) == Ordering::Equal <==> a == b,
        option_kind_order(a, b) == Ordering::Less <==> option_kind_order(b, a)
            == Ordering::Greater,
        option_kind_order(a, b) == Ordering::Less && option_kind_order(b, c) == Ordering::Less
            ==> option_kind_order(a, c) == Ordering::Less,
{
    match (a, b, c) {
        (Some(SourceKindView::Git(x)), Some(SourceKindView::Git(y)), Some(SourceKindView::Git(z))) => {
            lemma_reference_order_total(x, y, z);
        },
        (Some(SourceKindView::Git(x)), Some(SourceKindView::Git(y)), _) => {
            lemma_reference_order_total(x, y, y);
        },
        _ => {},
    }
}

/// The order of optional partial versions is a total order.
proof fn lemma_option_version_order_total(
    a: Option<PartialVersionView>,
    b: Option<PartialVersionView>,
    c: Option<PartialVersionView>,
)
    ensures
        option_version_order(a, b) == Ordering::Equal <==> a == b,
        option_version_order(a, b) == Ordering::Less <==> option_version_order(b, a)
            == Ordering::Greater,
        option_version_order(a, b) == Ordering::Less && option_version_order(b, c)
            == Ordering::Less ==> option_version_order(a, c) == Ordering::Less,
{
    if a is Some && b is Some {
        lemma_version_order_total(a->0, b->0, b->0);
        if c is Some {
            lemma_version_order_total(a->0, b->0, c->0);
        }
    }
}

/// Specifications are totally ordered, by name, version, URL and kind in
/// turn.
///
/// Two specifications tie exactly when they hold the same; swapping two
/// swaps their order; and one that comes before a second that comes before a
/// third comes before the third.
pub proof fn lemma_package_order_total(
    a: PackageIdSpecView,
    b: PackageIdSpecView,
    c: PackageIdSpecView,
)
    ensures
        package_order(a, b) == Ordering::Equal <==> a == b,
        package_order(a, b) == Ordering::Less <==> package_order(b, a) == Ordering::Greater,
        package_order(a, b) == Ordering::Less && package_order(b, c) == Ordering::Less
            ==> package_order(a, c) == Ordering::Less,
{
    lemma_text_order_total(a.name, b.name, c.name);
    lemma_text_order_total(b.name, c.name, c.name);
    lemma_text_order_total(a.name, c.name, c.name);
    lemma_option_version_order_total(a.version, b.version, c.version);
    lemma_option_version_order_total(b.version, c.version, c.version);
    lemma_option_version_order_total(a.version, c.version, c.version);
    lemma_option_text_order_total(a.url, b.url, c.url);
    lemma_option_text_order_total(b.url, c.url, c.url);
    lemma_option_text_order_total(a.url, c.url, c.url);
    lemma_option_kind_order_total(a.kind, b.kind, c.kind);
    lemma_option_kind_order_total(b.kind, c.kind, c.kind);
    lemma_option_kind_order_total(a.kind, c.kind, c.kind);
    lemma_text_order_total(b.name, a.name, a.name);
    lemma_option_version_order_total(b.version, a.version, a.version);
    lemma_option_text_order_total(b.url, a.url, a.url);
    lemma_option_kind_order_total(b.kind, a.kind, a.kind);
}

} // verus!

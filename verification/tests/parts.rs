use pkgid::name::may_continue_name;
use pkgid::name::may_open_name;
use pkgid::name::validate_package_name;
use pkgid::scheme::classify_scheme;
use pkgid::fragment::fragment_shape;
use pkgid::render::render_parts;
use pkgid::fragment::resolve_shape;
use pkgid::scheme::strip_url_protocol;
use pkgid::fragment::FragmentShape;
use pkgid::scheme::SchemeClass;
use pkgid::text::chars_of;
use pkgid::text::contains_char;
use pkgid::text::contains_text;
use pkgid::text::find_first_of;
use pkgid::text::first_char;
use pkgid::text::is_alphabetic;
use pkgid::text::push_decimal;
use pkgid::text::slice_text;
use pkgid::text::split_once;
use pkgid::text::text_eq;
use pkgid::version::Comparator;
use pkgid::version::Operator;
use pkgid::GitReference;
use pkgid::NameError;
use pkgid::PackageIdSpec;
use pkgid::ParseError;
use pkgid::PartialVersion;
use pkgid::SourceKind;
use pkgid::SourceUrl;
use pkgid::Version;
use pkgid::VersionError;

fn partial(
    major: u64,
    minor: Option<u64>,
    patch: Option<u64>,
    pre: Option<&str>,
    build: Option<&str>,
) -> PartialVersion {
    PartialVersion {
        major,
        minor,
        patch,
        pre: pre.map(str::to_owned),
        build: build.map(str::to_owned),
    }
}

#[test]
fn text_is_read_by_character() {
    assert_eq!(chars_of("aé日"), vec!['a', 'é', '日']);
    assert_eq!(chars_of(""), Vec::<char>::new());
    assert_eq!(find_first_of(&chars_of("é:b@c"), ':', '@'), Some(1));
    assert_eq!(find_first_of(&chars_of("é@b:c"), ':', '@'), Some(1));
    assert_eq!(find_first_of(&chars_of("abc"), ':', '@'), None);
    assert_eq!(slice_text("日本語のテキスト", 2, 4), "語の");
    assert_eq!(first_char("éa"), Some('é'));
    assert_eq!(first_char(""), None);
}

#[test]
fn text_is_cut_once() {
    assert_eq!(split_once("a:b@c", ':', '@'), Some(("a".to_owned(), "b@c".to_owned())));
    assert_eq!(split_once("a@b:c", ':', '@'), Some(("a".to_owned(), "b:c".to_owned())));
    assert_eq!(split_once(":", ':', '@'), Some((String::new(), String::new())));
    assert_eq!(split_once("été@1", ':', '@'), Some(("été".to_owned(), "1".to_owned())));
    assert_eq!(split_once("abc", ':', '@'), None);
    assert_eq!(split_once("", ':', '@'), None);
}

#[test]
fn text_is_searched() {
    assert!(contains_text("https://x", "://"));
    assert!(contains_text("://", "://"));
    assert!(contains_text("a:/://", "://"));
    assert!(!contains_text("a:/b", "://"));
    assert!(!contains_text(":/", "://"));
    assert!(contains_text("abc", ""));
    assert!(contains_char("a*b", '*'));
    assert!(!contains_char("ab", '*'));
    assert!(text_eq("größe", "größe"));
    assert!(!text_eq("foo", "fo"));
    assert!(!text_eq("foo", "fob"));
    assert!(text_eq("", ""));
}

#[test]
fn numbers_are_written_in_base_ten() {
    let mut out = String::from("v");
    push_decimal(&mut out, 0);
    assert_eq!(out, "v0");
    push_decimal(&mut out, 7);
    push_decimal(&mut out, 10);
    push_decimal(&mut out, 1234567890);
    assert_eq!(out, "v07101234567890");
    let mut max = String::new();
    push_decimal(&mut max, u64::MAX);
    assert_eq!(max, "18446744073709551615");
}

#[test]
fn letters() {
    assert!(is_alphabetic('a'));
    assert!(is_alphabetic('Z'));
    assert!(!is_alphabetic('0'));
    assert!(!is_alphabetic('_'));
    assert!(!is_alphabetic('%'));
    assert!(is_alphabetic('é'));
    assert!(is_alphabetic('京'));
    assert!(!is_alphabetic('٣'));
    assert!(!is_alphabetic('💝'));
}

#[test]
fn characters_of_names() {
    assert!(may_open_name('a'));
    assert!(may_open_name('_'));
    assert!(may_open_name('é'));
    assert!(!may_open_name('1'));
    assert!(!may_open_name('-'));
    assert!(!may_open_name('٣'));
    assert!(may_continue_name('a'));
    assert!(may_continue_name('1'));
    assert!(may_continue_name('_'));
    assert!(may_continue_name('-'));
    assert!(may_continue_name('٣'));
    assert!(!may_continue_name('.'));
    assert!(!may_continue_name('€'));
}

#[test]
fn names() {
    assert_eq!(validate_package_name("foo"), Ok(()));
    assert_eq!(validate_package_name("_foo-bar_1"), Ok(()));
    assert_eq!(validate_package_name("f"), Ok(()));
    assert_eq!(validate_package_name("größe"), Ok(()));
    assert_eq!(validate_package_name(""), Err(NameError::Empty));
    assert_eq!(validate_package_name("1"), Err(NameError::LeadingDigit));
    assert_eq!(validate_package_name("٣a"), Err(NameError::InvalidStart('٣')));
    assert_eq!(validate_package_name("a b.c"), Err(NameError::InvalidCharacter(' ')));
    assert_eq!(validate_package_name("ab€"), Err(NameError::InvalidCharacter('€')));
}

#[test]
fn full_versions() {
    assert_eq!(
        PartialVersion::parse("1.2.3"),
        Ok(partial(1, Some(2), Some(3), None, None))
    );
    assert_eq!(
        PartialVersion::parse("1.2.3-alpha.1+build.5"),
        Ok(partial(1, Some(2), Some(3), Some("alpha.1"), Some("build.5")))
    );
    assert_eq!(
        PartialVersion::parse("0.0.0+x"),
        Ok(partial(0, Some(0), Some(0), None, Some("x")))
    );
}

#[test]
fn partial_versions() {
    assert_eq!(PartialVersion::parse("1"), Ok(partial(1, None, None, None, None)));
    assert_eq!(PartialVersion::parse("1.2"), Ok(partial(1, Some(2), None, None, None)));
    assert_eq!(PartialVersion::parse("  1.2"), Ok(partial(1, Some(2), None, None, None)));
}

#[test]
fn texts_that_are_no_versions() {
    assert_eq!(PartialVersion::parse(""), Err(VersionError::Unexpected));
    assert_eq!(PartialVersion::parse("a"), Err(VersionError::Unexpected));
    assert_eq!(PartialVersion::parse("1.2.3.4"), Err(VersionError::Unexpected));
    assert_eq!(PartialVersion::parse("^1.0"), Err(VersionError::VersionReq));
    assert_eq!(PartialVersion::parse("~1.0"), Err(VersionError::VersionReq));
    assert_eq!(PartialVersion::parse("=1.0"), Err(VersionError::VersionReq));
    assert_eq!(PartialVersion::parse(">1.0"), Err(VersionError::VersionReq));
    assert_eq!(PartialVersion::parse("<1.0"), Err(VersionError::VersionReq));
    assert_eq!(PartialVersion::parse("1.*"), Err(VersionError::VersionReq));
    assert_eq!(PartialVersion::parse("1.0, 2.0"), Err(VersionError::VersionReq));
    assert_eq!(PartialVersion::parse("x"), Err(VersionError::VersionReq));
    assert_eq!(PartialVersion::parse("1.x"), Err(VersionError::VersionReq));
    assert_eq!(PartialVersion::parse("1.2-beta"), Err(VersionError::Prerelease));
    assert_eq!(PartialVersion::parse("1.2.3-"), Err(VersionError::Prerelease));
    assert_eq!(PartialVersion::parse("1.2.3+"), Err(VersionError::BuildMetadata));
    assert_eq!(PartialVersion::parse("1.2+b"), Err(VersionError::BuildMetadata));
}

#[test]
fn requirement_test() {
    assert!(PartialVersion::is_req("^1"));
    assert!(PartialVersion::is_req("~1"));
    assert!(PartialVersion::is_req("=1"));
    assert!(PartialVersion::is_req("<1"));
    assert!(PartialVersion::is_req(">1"));
    assert!(PartialVersion::is_req("1.*"));
    assert!(PartialVersion::is_req("1,2"));
    assert!(!PartialVersion::is_req("1.2"));
    assert!(!PartialVersion::is_req(""));
    assert!(!PartialVersion::is_req("1^"));
}

fn caret(major: u64, minor: Option<u64>, patch: Option<u64>, pre: &str) -> Comparator {
    Comparator { op: Operator::Caret, major, minor, patch, pre: pre.to_owned() }
}

#[test]
fn versions_from_requirements() {
    assert_eq!(
        PartialVersion::from_requirement("1.2", Some(vec![caret(1, Some(2), None, "")])),
        Ok(partial(1, Some(2), None, None, None))
    );
    assert_eq!(
        PartialVersion::from_requirement("1.2.3-rc", Some(vec![caret(1, Some(2), Some(3), "rc")])),
        Ok(partial(1, Some(2), Some(3), Some("rc"), None))
    );
    assert_eq!(
        PartialVersion::from_requirement("1", Some(vec![])),
        Err(VersionError::VersionReq)
    );
    assert_eq!(
        PartialVersion::from_requirement(
            "1",
            Some(vec![caret(1, None, None, ""), caret(2, None, None, "")])
        ),
        Err(VersionError::VersionReq)
    );
    let tilde = Comparator { op: Operator::Tilde, ..caret(1, None, None, "") };
    assert_eq!(
        PartialVersion::from_requirement("1", Some(vec![tilde])),
        Err(VersionError::VersionReq)
    );
    assert_eq!(
        PartialVersion::from_requirement("^1", Some(vec![caret(1, None, None, "")])),
        Err(VersionError::VersionReq)
    );
    assert_eq!(PartialVersion::from_requirement("1-", None), Err(VersionError::Prerelease));
    assert_eq!(PartialVersion::from_requirement("1-+", None), Err(VersionError::Prerelease));
    assert_eq!(PartialVersion::from_requirement("1+", None), Err(VersionError::BuildMetadata));
    assert_eq!(PartialVersion::from_requirement("1", None), Err(VersionError::Unexpected));
}

#[test]
fn versions_are_written() {
    assert_eq!(partial(1, None, None, None, None).render(), "1");
    assert_eq!(partial(1, Some(20), None, None, None).render(), "1.20");
    assert_eq!(partial(0, Some(52), Some(0), None, None).render(), "0.52.0");
    assert_eq!(
        partial(1, Some(2), Some(3), Some("alpha.1"), Some("build.5")).render(),
        "1.2.3-alpha.1+build.5"
    );
    assert_eq!(partial(1, Some(2), Some(3), None, Some("b")).render(), "1.2.3+b");
    for text in ["1", "1.2", "1.2.3", "1.2.3-rc.1", "1.2.3+b-4", "10.20.30-a+b"] {
        assert_eq!(PartialVersion::parse(text).unwrap().render(), text);
    }
}

#[test]
fn versions_widen_and_narrow() {
    let full = Version { major: 1, minor: 2, patch: 3, pre: String::new(), build: String::new() };
    assert_eq!(PartialVersion::from_version(full.clone()), partial(1, Some(2), Some(3), None, None));
    assert_eq!(PartialVersion::from(full.clone()), partial(1, Some(2), Some(3), None, None));
    assert_eq!(partial(1, Some(2), Some(3), None, None).to_version(), Some(full));
    let tagged =
        Version { major: 1, minor: 2, patch: 3, pre: "rc.1".to_owned(), build: "b".to_owned() };
    assert_eq!(
        PartialVersion::from_version(tagged.clone()),
        partial(1, Some(2), Some(3), Some("rc.1"), Some("b"))
    );
    assert_eq!(partial(1, Some(2), Some(3), Some("rc.1"), Some("b")).to_version(), Some(tagged));
    assert_eq!(partial(1, Some(2), None, None, None).to_version(), None);
    assert_eq!(partial(1, None, None, None, None).to_version(), None);
    assert_eq!(partial(1, None, Some(3), None, None).to_version(), None);
}

#[test]
fn urls_are_read() {
    let url = SourceUrl::parse("HTTPS://Example.COM:443/a/../b/c?x=1&y=a%20b#frag").unwrap();
    assert_eq!(url.as_str(), "https://example.com/b/c?x=1&y=a%20b#frag");
    assert_eq!(url.scheme(), "https");
    assert_eq!(url.query(), Some("x=1&y=a%20b".to_owned()));
    assert_eq!(
        url.query_pairs(),
        vec![("x".to_owned(), "1".to_owned()), ("y".to_owned(), "a b".to_owned())]
    );
    assert_eq!(url.fragment(), Some("frag".to_owned()));
    assert_eq!(url.path_segments(), Some(vec!["b".to_owned(), "c".to_owned()]));
    assert_eq!(url.without_query().as_str(), "https://example.com/b/c#frag");
    assert_eq!(url.without_fragment().as_str(), "https://example.com/b/c?x=1&y=a%20b");
    assert_eq!(PackageIdSpec::last_segment(&url), Some("c".to_owned()));
    assert_eq!(SourceUrl::parse("not a url"), None);
    assert_eq!(SourceUrl::parse("https://"), None);
}

#[test]
fn urls_without_parts() {
    let url = SourceUrl::parse("https://example.com").unwrap();
    assert_eq!(url.as_str(), "https://example.com/");
    assert_eq!(url.query(), None);
    assert_eq!(url.query_pairs(), Vec::<(String, String)>::new());
    assert_eq!(url.fragment(), None);
    assert_eq!(url.path_segments(), Some(vec![String::new()]));
    assert_eq!(url.without_query(), url);
    assert_eq!(url.without_fragment(), url);
    let opaque = SourceUrl::parse("data:text/plain,Hello").unwrap();
    assert_eq!(opaque.scheme(), "data");
    assert_eq!(opaque.path_segments(), None);
    assert_eq!(PackageIdSpec::last_segment(&opaque), None);
    let empty = SourceUrl::parse("https://example.com/?#").unwrap();
    assert_eq!(empty.query(), Some(String::new()));
    assert_eq!(empty.fragment(), Some(String::new()));
}

#[test]
fn kind_leaves_the_url() {
    let url = SourceUrl::parse("registry+https://crates.io/foo#bar").unwrap();
    assert_eq!(url.scheme(), "registry+https");
    assert_eq!(
        strip_url_protocol(&url).unwrap().as_str(),
        "https://crates.io/foo#bar"
    );
    let plain = SourceUrl::parse("https://crates.io/foo").unwrap();
    assert_eq!(strip_url_protocol(&plain), None);
    let two = SourceUrl::parse("git+a+ssh://host/x").unwrap();
    assert_eq!(strip_url_protocol(&two).unwrap().as_str(), "a+ssh://host/x");
}

#[test]
fn schemes_are_classified() {
    let url = "u";
    assert_eq!(classify_scheme("https", false, url), Ok(SchemeClass::Plain));
    assert_eq!(classify_scheme("git+ssh", false, url), Ok(SchemeClass::Git));
    assert_eq!(classify_scheme("git+ssh", true, url), Ok(SchemeClass::Git));
    assert_eq!(classify_scheme("git+", true, url), Ok(SchemeClass::Git));
    assert_eq!(classify_scheme("registry+https", false, url), Ok(SchemeClass::Registry));
    assert_eq!(classify_scheme("sparse+https", false, url), Ok(SchemeClass::Sparse));
    assert_eq!(classify_scheme("path+file", false, url), Ok(SchemeClass::Path));
    let query = || Err(ParseError::UnexpectedQueryString { url: url.to_owned() });
    assert_eq!(classify_scheme("https", true, url), query());
    assert_eq!(classify_scheme("registry+https", true, url), query());
    assert_eq!(classify_scheme("sparse+https", true, url), query());
    assert_eq!(classify_scheme("path+file", true, url), query());
    assert_eq!(classify_scheme("path+https", true, url), query());
    assert_eq!(
        classify_scheme("path+file+x", false, url),
        Err(ParseError::UnsupportedPathPlusScheme { scheme: "file+x".to_owned() })
    );
    assert_eq!(
        classify_scheme("gitt+ssh", false, url),
        Err(ParseError::UnsupportedProtocol { protocol: "gitt".to_owned() })
    );
    assert_eq!(
        classify_scheme("+ssh", true, url),
        Err(ParseError::UnsupportedProtocol { protocol: String::new() })
    );
    assert_eq!(
        classify_scheme("Git+ssh", false, url),
        Err(ParseError::UnsupportedProtocol { protocol: "Git".to_owned() })
    );
}

#[test]
fn fragments_are_told_apart() {
    assert_eq!(fragment_shape(None), FragmentShape::Absent);
    assert_eq!(fragment_shape(Some(String::new())), FragmentShape::Absent);
    assert_eq!(fragment_shape(Some("bar".to_owned())), FragmentShape::Name("bar".to_owned()));
    assert_eq!(fragment_shape(Some("b".to_owned())), FragmentShape::Name("b".to_owned()));
    assert_eq!(fragment_shape(Some("1.2".to_owned())), FragmentShape::Version("1.2".to_owned()));
    assert_eq!(fragment_shape(Some("_x".to_owned())), FragmentShape::Version("_x".to_owned()));
    assert_eq!(
        fragment_shape(Some("bar:1.2".to_owned())),
        FragmentShape::NameAndVersion("bar".to_owned(), "1.2".to_owned())
    );
    assert_eq!(
        fragment_shape(Some("bar@1:2".to_owned())),
        FragmentShape::NameAndVersion("bar".to_owned(), "1:2".to_owned())
    );
    assert_eq!(
        fragment_shape(Some("1@2".to_owned())),
        FragmentShape::NameAndVersion("1".to_owned(), "2".to_owned())
    );
    assert_eq!(
        fragment_shape(Some("@".to_owned())),
        FragmentShape::NameAndVersion(String::new(), String::new())
    );
}

#[test]
fn fragments_give_name_and_version() {
    let last = || "foo".to_owned();
    assert_eq!(resolve_shape(FragmentShape::Absent, last()), Ok(("foo".to_owned(), None)));
    assert_eq!(
        resolve_shape(FragmentShape::Name("bar".to_owned()), last()),
        Ok(("bar".to_owned(), None))
    );
    assert_eq!(
        resolve_shape(FragmentShape::Version("1.2".to_owned()), last()),
        Ok(("foo".to_owned(), Some(partial(1, Some(2), None, None, None))))
    );
    assert_eq!(
        resolve_shape(FragmentShape::NameAndVersion("bar".to_owned(), "3".to_owned()), last()),
        Ok(("bar".to_owned(), Some(partial(3, None, None, None, None))))
    );
    assert_eq!(
        resolve_shape(FragmentShape::Version("_x".to_owned()), last()),
        Err(VersionError::Unexpected)
    );
    assert_eq!(
        resolve_shape(FragmentShape::NameAndVersion("bar".to_owned(), "^1".to_owned()), last()),
        Err(VersionError::VersionReq)
    );
}

#[test]
fn texts_are_put_together() {
    assert_eq!(render_parts("foo", None, None, None, None, None), "foo");
    assert_eq!(render_parts("foo", Some("1.2"), None, None, None, None), "foo@1.2");
    assert_eq!(render_parts("foo", Some("1.2"), None, Some("git"), Some("q"), None), "foo@1.2");
    assert_eq!(render_parts("foo", None, Some("u://h/foo"), None, None, Some("foo")), "u://h/foo");
    assert_eq!(
        render_parts("foo", Some("1"), Some("u://h/foo"), None, None, Some("foo")),
        "u://h/foo#1"
    );
    assert_eq!(
        render_parts("bar", None, Some("u://h/foo"), None, None, Some("foo")),
        "u://h/foo#bar"
    );
    assert_eq!(
        render_parts("bar", Some("1"), Some("u://h/foo"), Some("git"), Some("tag=v1"), Some("foo")),
        "git+u://h/foo?tag=v1#bar@1"
    );
    assert_eq!(
        render_parts("foo", Some("1"), Some("u:x"), Some("path"), None, None),
        "path+u:x#foo@1"
    );
}

#[test]
fn references_from_queries() {
    let pair = |k: &str, v: &str| (k.to_owned(), v.to_owned());
    assert_eq!(GitReference::from_query(&vec![]), GitReference::DefaultBranch);
    assert_eq!(
        GitReference::from_query(&vec![pair("branch", "dev")]),
        GitReference::Branch("dev".to_owned())
    );
    assert_eq!(
        GitReference::from_query(&vec![pair("ref", "dev")]),
        GitReference::Branch("dev".to_owned())
    );
    assert_eq!(
        GitReference::from_query(&vec![pair("rev", "abc")]),
        GitReference::Rev("abc".to_owned())
    );
    assert_eq!(
        GitReference::from_query(&vec![pair("tag", "v1")]),
        GitReference::Tag("v1".to_owned())
    );
    assert_eq!(
        GitReference::from_query(&vec![pair("tag", "v1"), pair("x", "y"), pair("rev", "abc")]),
        GitReference::Rev("abc".to_owned())
    );
    assert_eq!(
        GitReference::from_query(&vec![pair("rev", "abc"), pair("other", "y")]),
        GitReference::Rev("abc".to_owned())
    );
    assert_eq!(
        GitReference::from_query(&vec![pair("Branch", "dev"), pair("", "x")]),
        GitReference::DefaultBranch
    );
}

#[test]
fn references_to_queries() {
    assert_eq!(GitReference::DefaultBranch.pretty_ref(true), None);
    assert_eq!(GitReference::DefaultBranch.pretty_ref(false), None);
    assert_eq!(
        GitReference::Branch("dev".to_owned()).pretty_ref(true),
        Some("branch=dev".to_owned())
    );
    assert_eq!(GitReference::Tag("v1.0".to_owned()).pretty_ref(true), Some("tag=v1.0".to_owned()));
    assert_eq!(GitReference::Rev("abc".to_owned()).pretty_ref(true), Some("rev=abc".to_owned()));
    assert_eq!(
        GitReference::Branch("a b/c&d".to_owned()).pretty_ref(true),
        Some("branch=a+b%2Fc%26d".to_owned())
    );
    assert_eq!(
        GitReference::Branch("a b/c&d".to_owned()).pretty_ref(false),
        Some("branch=a b/c&d".to_owned())
    );
}

#[test]
fn protocols() {
    assert_eq!(SourceKind::Path.protocol(), Some("path"));
    assert_eq!(SourceKind::Registry.protocol(), Some("registry"));
    assert_eq!(SourceKind::SparseRegistry.protocol(), None);
    assert_eq!(SourceKind::Git(GitReference::DefaultBranch).protocol(), Some("git"));
    assert_eq!(SourceKind::Git(GitReference::Tag("v1".to_owned())).protocol(), Some("git"));
}

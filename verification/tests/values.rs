use pkgid::GitReference;
use pkgid::PackageId;
use pkgid::PackageIdSpec;
use pkgid::PartialVersion;
use pkgid::SourceId;
use pkgid::SourceKind;
use pkgid::SourceUrl;
use pkgid::Version;

fn url(text: &str) -> SourceUrl {
    SourceUrl::parse(text).unwrap()
}

fn version(text: &str) -> PartialVersion {
    PartialVersion::parse(text).unwrap()
}

#[test]
fn new_asks_for_a_name_only() {
    let spec = PackageIdSpec::new("foo".to_owned());
    assert_eq!(spec.name(), "foo");
    assert_eq!(spec.partial_version(), None);
    assert_eq!(spec.version(), None);
    assert_eq!(spec.url(), None);
    assert_eq!(spec.kind(), None);
    assert_eq!(spec, PackageIdSpec::parse("foo").unwrap());
}

#[test]
fn builders_set_one_field_each() {
    let spec = PackageIdSpec::new("foo".to_owned()).with_version(version("1.2"));
    assert_eq!(spec.name(), "foo");
    assert_eq!(spec.partial_version(), Some(&version("1.2")));
    assert_eq!(spec.url(), None);
    let spec = spec.with_url(url("https://crates.io/foo"));
    assert_eq!(spec.partial_version(), Some(&version("1.2")));
    assert_eq!(spec.url(), Some(&url("https://crates.io/foo")));
    assert_eq!(spec.kind(), None);
    let spec = spec.with_kind(SourceKind::Registry);
    assert_eq!(spec.name(), "foo");
    assert_eq!(spec.partial_version(), Some(&version("1.2")));
    assert_eq!(spec.url(), Some(&url("https://crates.io/foo")));
    assert_eq!(spec.kind(), Some(&SourceKind::Registry));
    assert_eq!(spec.render(), "registry+https://crates.io/foo#1.2");
}

#[test]
fn setters_override_one_field_each() {
    let mut spec = PackageIdSpec::parse("registry+https://crates.io/foo#bar@1.2").unwrap();
    spec.set_url(url("ssh://git@host/bar"));
    assert_eq!(spec.url(), Some(&url("ssh://git@host/bar")));
    assert_eq!(spec.kind(), Some(&SourceKind::Registry));
    assert_eq!(spec.name(), "bar");
    spec.set_kind(SourceKind::Git(GitReference::Tag("v1".to_owned())));
    assert_eq!(spec.kind(), Some(&SourceKind::Git(GitReference::Tag("v1".to_owned()))));
    assert_eq!(spec.url(), Some(&url("ssh://git@host/bar")));
    assert_eq!(spec.partial_version(), Some(&version("1.2")));
    assert_eq!(spec.render(), "git+ssh://git@host/bar?tag=v1#1.2");
}

#[test]
fn full_version_only_where_all_numbers_are_given() {
    assert_eq!(PackageIdSpec::parse("foo@1.2").unwrap().version(), None);
    assert_eq!(PackageIdSpec::parse("foo").unwrap().version(), None);
    assert_eq!(
        PackageIdSpec::parse("foo@1.2.3-rc.1").unwrap().version(),
        Some(Version {
            major: 1,
            minor: 2,
            patch: 3,
            pre: "rc.1".to_owned(),
            build: String::new(),
        })
    );
}

#[test]
fn widening_a_package_id_fills_every_field() {
    let package_id = PackageId {
        name: "regex".to_owned(),
        version: Version {
            major: 1,
            minor: 4,
            patch: 3,
            pre: String::new(),
            build: String::new(),
        },
        source_id: SourceId {
            url: url("ssh://git@github.com/rust-lang/regex.git"),
            kind: SourceKind::Git(GitReference::Branch("dev".to_owned())),
        },
    };
    let spec = PackageIdSpec::from_package_id(package_id);
    assert_eq!(spec.name(), "regex");
    assert_eq!(spec.partial_version(), Some(&version("1.4.3")));
    assert_eq!(spec.url(), Some(&url("ssh://git@github.com/rust-lang/regex.git")));
    assert_eq!(spec.kind(), Some(&SourceKind::Git(GitReference::Branch("dev".to_owned()))));
    assert_eq!(
        spec.render(),
        "git+ssh://git@github.com/rust-lang/regex.git?branch=dev#regex@1.4.3"
    );
    assert_eq!(PackageIdSpec::parse(&spec.render()).unwrap(), spec);
}

#[test]
fn copies_are_equal() {
    let spec = PackageIdSpec::parse("git+ssh://git@host/repo.git?tag=v1#regex@1.4.3-rc+b").unwrap();
    assert_eq!(spec.clone(), spec);
    assert_eq!(spec.clone().render(), spec.render());
    let kind = SourceKind::Git(GitReference::Rev("abc".to_owned()));
    assert_eq!(kind.clone(), kind);
    assert_eq!(url("https://a/b").clone(), url("https://a/b"));
    assert_eq!(version("1.2.3-a+b").clone(), version("1.2.3-a+b"));
}

#[test]
fn equality_looks_at_every_field() {
    let base = || PackageIdSpec::parse("registry+https://crates.io/foo#bar@1.2").unwrap();
    assert_eq!(base(), base());
    assert_ne!(base(), PackageIdSpec::parse("registry+https://crates.io/foo#baz@1.2").unwrap());
    assert_ne!(base(), PackageIdSpec::parse("registry+https://crates.io/foo#bar@1.3").unwrap());
    assert_ne!(base(), PackageIdSpec::parse("registry+https://crates.io/foo#bar").unwrap());
    assert_ne!(base(), PackageIdSpec::parse("registry+https://crates.io/fo#bar@1.2").unwrap());
    assert_ne!(base(), PackageIdSpec::parse("https://crates.io/foo#bar@1.2").unwrap());
    assert_ne!(base(), PackageIdSpec::parse("git+https://crates.io/foo#bar@1.2").unwrap());
    assert_ne!(version("1.2.3"), version("1.2.3+b"));
    assert_ne!(version("1.2.3"), version("1.2.3-a"));
    assert_ne!(version("1"), version("1.0"));
    assert_ne!(
        SourceKind::Git(GitReference::Branch("a".to_owned())),
        SourceKind::Git(GitReference::Tag("a".to_owned()))
    );
    assert_ne!(
        SourceKind::Git(GitReference::Branch("a".to_owned())),
        SourceKind::Git(GitReference::Branch("b".to_owned()))
    );
}

#[test]
fn order_goes_by_name_version_url_and_kind() {
    let mut specs = vec![
        PackageIdSpec::parse("git+https://crates.io/foo#bar@1.2").unwrap(),
        PackageIdSpec::parse("registry+https://crates.io/foo#bar@1.2").unwrap(),
        PackageIdSpec::parse("https://crates.io/foo#bar@1.2").unwrap(),
        PackageIdSpec::parse("bar@1.2").unwrap(),
        PackageIdSpec::parse("https://a.io/foo#bar@1.10").unwrap(),
        PackageIdSpec::parse("bar").unwrap(),
        PackageIdSpec::parse("baa@9").unwrap(),
        PackageIdSpec::parse("path+file:///crates.io/foo#bar@1.2").unwrap(),
    ];
    specs.sort();
    let rendered: Vec<String> = specs.iter().map(|spec| spec.render()).collect();
    assert_eq!(
        rendered,
        vec![
            "baa@9",
            "bar",
            "bar@1.2",
            "path+file:///crates.io/foo#bar@1.2",
            "https://crates.io/foo#bar@1.2",
            "registry+https://crates.io/foo#bar@1.2",
            "git+https://crates.io/foo#bar@1.2",
            "https://a.io/foo#bar@1.10",
        ]
    );
    specs.dedup();
    assert_eq!(specs.len(), 8);
}

#[test]
fn kinds_are_ordered_with_paths_first_and_git_last() {
    let mut kinds = vec![
        SourceKind::Git(GitReference::DefaultBranch),
        SourceKind::Git(GitReference::Tag("z".to_owned())),
        SourceKind::SparseRegistry,
        SourceKind::Git(GitReference::Branch("a".to_owned())),
        SourceKind::Registry,
        SourceKind::Path,
        SourceKind::Git(GitReference::Rev("a".to_owned())),
    ];
    kinds.sort();
    assert_eq!(
        kinds,
        vec![
            SourceKind::Path,
            SourceKind::Registry,
            SourceKind::SparseRegistry,
            SourceKind::Git(GitReference::Tag("z".to_owned())),
            SourceKind::Git(GitReference::Branch("a".to_owned())),
            SourceKind::Git(GitReference::Rev("a".to_owned())),
            SourceKind::Git(GitReference::DefaultBranch),
        ]
    );
}

#[test]
fn comparison_agrees_with_the_total_order() {
    let tokens = [
        "bar",
        "baa@9",
        "bar@1",
        "bar@1.2",
        "bar@1.2.0",
        "bar@1.2.0-a",
        "bar@1.2.0-a.1",
        "bar@1.2.0+b",
        "bar@1.10",
        "bär@1",
        "b",
        "z日本",
        "https://a.io/foo#bar@1.2",
        "https://crates.io/foo#bar@1.2",
        "https://crates.io/foo",
        "registry+https://crates.io/foo#bar@1.2",
        "sparse+https://crates.io/foo#bar@1.2",
        "path+file:///crates.io/foo#bar@1.2",
        "git+https://crates.io/foo#bar@1.2",
        "git+https://crates.io/foo?branch=a#bar@1.2",
        "git+https://crates.io/foo?branch=b#bar@1.2",
        "git+https://crates.io/foo?tag=b#bar@1.2",
        "git+https://crates.io/foo?rev=a#bar@1.2",
    ];
    let specs: Vec<PackageIdSpec> =
        tokens.iter().map(|token| PackageIdSpec::parse(token).unwrap()).collect();
    for a in &specs {
        for b in &specs {
            assert_eq!(a.partial_cmp(b), Some(a.cmp(b)), "{a:?} {b:?}");
            assert_eq!(a == b, a.cmp(b) == std::cmp::Ordering::Equal);
            assert_eq!(a < b, a.cmp(b) == std::cmp::Ordering::Less);
        }
    }
}

#[test]
fn texts_are_ordered_as_strings_are() {
    let texts = ["", "a", "ab", "b", "B", "é", "e", "日本", "日", "~", "a\u{10FFFF}", "a\u{7f}"];
    for a in texts {
        for b in texts {
            assert_eq!(pkgid::order::compare_text(a, b), a.cmp(b), "{a:?} {b:?}");
        }
    }
}

use pkgid::GitReference;
use pkgid::NameError;
use pkgid::PackageIdSpec;
use pkgid::ParseError;
use pkgid::PartialVersion;
use pkgid::SourceKind;
use pkgid::VersionError;

#[test]
fn plain_name_and_version() {
    let spec = PackageIdSpec::parse("foo@1.2.3").unwrap();
    assert_eq!(spec.name(), "foo");
    assert_eq!(spec.partial_version(), Some(&PartialVersion::parse("1.2.3").unwrap()));
    assert_eq!(spec.url(), None);
    assert_eq!(spec.kind(), None);
    assert_eq!(spec.render(), "foo@1.2.3");
}

#[test]
fn registry_url_with_name_and_version() {
    let spec = PackageIdSpec::parse("registry+https://crates.io/foo#bar@1.2").unwrap();
    assert_eq!(spec.name(), "bar");
    let version = spec.partial_version().unwrap();
    assert_eq!((version.major, version.minor, version.patch), (1, Some(2), None));
    assert_eq!(spec.url().unwrap().as_str(), "https://crates.io/foo");
    assert_eq!(spec.kind(), Some(&SourceKind::Registry));
    assert_eq!(spec.render(), "registry+https://crates.io/foo#bar@1.2");
}

#[test]
fn sparse_url_keeps_its_prefix() {
    let token = "sparse+https://crates.io/foo#bar@1.2";
    let spec = PackageIdSpec::parse(token).unwrap();
    assert_eq!(spec.url().unwrap().as_str(), "sparse+https://crates.io/foo");
    assert_eq!(spec.kind(), Some(&SourceKind::SparseRegistry));
    assert_eq!(spec.render(), token);
}

#[test]
fn git_url_with_branch() {
    let token = "git+ssh://git@host/repo.git?branch=dev#regex@1.4.3";
    let spec = PackageIdSpec::parse(token).unwrap();
    assert_eq!(spec.name(), "regex");
    assert_eq!(spec.partial_version(), Some(&PartialVersion::parse("1.4.3").unwrap()));
    assert_eq!(spec.url().unwrap().as_str(), "ssh://git@host/repo.git");
    assert_eq!(spec.kind(), Some(&SourceKind::Git(GitReference::Branch("dev".to_owned()))));
    assert_eq!(spec.render(), token);
}

#[test]
fn empty_version_is_refused() {
    assert_eq!(
        PackageIdSpec::parse("baz:"),
        Err(ParseError::Version(VersionError::Unexpected))
    );
}

#[test]
fn path_needs_the_file_scheme() {
    assert_eq!(
        PackageIdSpec::parse("path+https://host/index"),
        Err(ParseError::UnsupportedPathPlusScheme { scheme: "https".to_owned() })
    );
}

#[test]
fn empty_name_is_refused() {
    assert_eq!(
        PackageIdSpec::parse("@1.2.3"),
        Err(ParseError::InvalidName { name: String::new(), reason: NameError::Empty })
    );
    assert_eq!(
        PackageIdSpec::parse(""),
        Err(ParseError::InvalidName { name: String::new(), reason: NameError::Empty })
    );
}

#[test]
fn empty_fragment_is_no_fragment() {
    let spec = PackageIdSpec::parse("https://crates.io/foo#").unwrap();
    assert_eq!(spec, PackageIdSpec::parse("https://crates.io/foo").unwrap());
    assert_eq!(spec.name(), "foo");
    assert_eq!(spec.partial_version(), None);
    assert_eq!(spec.render(), "https://crates.io/foo");
}

#[test]
fn fragment_opening_with_neither_letter_nor_digit_must_be_a_version() {
    assert_eq!(
        PackageIdSpec::parse("https://crates.io/foo#_bar"),
        Err(ParseError::Version(VersionError::Unexpected))
    );
    assert_eq!(
        PackageIdSpec::parse("https://crates.io/foo#-1"),
        Err(ParseError::Version(VersionError::Prerelease))
    );
}

#[test]
fn token_without_scheme_separator_is_never_a_url() {
    let spec = PackageIdSpec::parse("foo:1.0").unwrap();
    assert_eq!(spec.name(), "foo");
    assert_eq!(spec.url(), None);
    assert_eq!(spec.render(), "foo@1.0");
    assert!(PackageIdSpec::parse("git+ssh:foo").is_err());
}

#[test]
fn token_with_scheme_separator_that_is_no_url_is_a_plain_token() {
    assert_eq!(
        PackageIdSpec::parse("https://baz:1.0"),
        Err(ParseError::Version(VersionError::Unexpected))
    );
}

#[test]
fn name_beyond_ascii() {
    let spec = PackageIdSpec::parse("größe@2").unwrap();
    assert_eq!(spec.name(), "größe");
    assert_eq!(spec.render(), "größe@2");
}

#[test]
fn name_from_the_path_is_checked() {
    assert_eq!(
        PackageIdSpec::parse("https://github.com/rust-lang/crates.io-index"),
        Err(ParseError::InvalidName {
            name: "crates.io-index".to_owned(),
            reason: NameError::InvalidCharacter('.'),
        })
    );
    assert_eq!(
        PackageIdSpec::parse("https://crates.io/"),
        Err(ParseError::InvalidName { name: String::new(), reason: NameError::Empty })
    );
}

#[test]
fn name_equal_to_the_last_segment_is_not_written() {
    let spec = PackageIdSpec::parse("https://crates.io/foo#foo@1.2.3").unwrap();
    assert_eq!(spec.name(), "foo");
    assert_eq!(spec.render(), "https://crates.io/foo#1.2.3");
    assert_eq!(PackageIdSpec::parse(&spec.render()).unwrap(), spec);
}

#[test]
fn leading_space_before_a_partial_version() {
    let spec = PackageIdSpec::parse("foo@ 1.2").unwrap();
    assert_eq!(spec.partial_version(), Some(&PartialVersion::parse("1.2").unwrap()));
    assert_eq!(spec.render(), "foo@1.2");
}

use pypiserver::packages::Package;
use pypiserver::sources::FileSource;
use pypiserver::text::{join_text, decimal_text, find_separator};

fn make_pkg<'a>() -> Package<'a> {
    Package { name: "name", version: "1.0.0", location: "file://local.zip" }
}

#[test]
fn test_path() {
    assert_eq!(make_pkg().path(), "local.zip")
}

#[test]
fn test_path_prefix() {
    assert_eq!(make_pkg().path_prefix(), "file")
}

#[test]
fn path_splits_at_the_first_separator() {
    let pkg = Package { name: "n", version: "1", location: "s3://bucket://key" };
    assert!(pkg.has_scheme());
    assert_eq!(pkg.path_prefix(), "s3");
    assert_eq!(pkg.path(), "bucket://key");
    let plain = Package { name: "n", version: "1", location: "local.zip" };
    assert!(!plain.has_scheme());
}

#[test]
fn source_keeps_the_package() {
    let pkg = make_pkg();
    let source = pkg.source();
    assert_eq!(source.pkg.location, "file://local.zip");
    assert_eq!(source.target_path(), "local.zip");
}

#[test]
fn scratch_paths_sit_beside_the_target_and_differ_by_token() {
    let pkg = Package { name: "n", version: "1", location: "file:///data/pkgs/n-1.zip" };
    let source = FileSource::new(pkg);
    assert_eq!(source.tmp_path(0), "/data/pkgs/n-1.zip.tmp-0");
    assert_eq!(source.tmp_path(42), "/data/pkgs/n-1.zip.tmp-42");
    assert_ne!(source.tmp_path(1), source.tmp_path(10));
}

#[test]
fn text_helpers() {
    assert_eq!(decimal_text(0), "0");
    assert_eq!(decimal_text(907), "907");
    assert_eq!(decimal_text(u64::MAX), "18446744073709551615");
    assert_eq!(join_text("ab", "cd"), "abcd");
    assert_eq!(find_separator("a://b"), Some(1));
    assert_eq!(find_separator("a:/b"), None);
    assert_eq!(find_separator(""), None);
}

use pypiserver::error::ErrType;
use pypiserver::fs::{FSPkgRepo, RootStatus};
use pypiserver::model::PkgMeta;

#[test]
fn new_err_path_does_not_exist() {
    assert!(FSPkgRepo::new("fapowiejfapowiejf", None).is_err());
}

#[test]
fn new_err_path_is_not_a_directory() {
    let status = RootStatus { is_dir: false, readonly: false };
    let err = FSPkgRepo::new("Cargo.toml", Some(status));
    assert!(err.unwrap_err().message.unwrap().contains("not a directory"));
}

#[test]
fn new_err_path_is_readonly() {
    let status = RootStatus { is_dir: true, readonly: true };
    let err = FSPkgRepo::new("readonly", Some(status));
    assert!(err.unwrap_err().message.unwrap().contains("writeable"));
}

#[test]
fn new_success() {
    let tmpdir = tempfile::tempdir().unwrap();
    let path = tmpdir.path().to_str().unwrap().to_string();
    let status = RootStatus { is_dir: true, readonly: false };
    assert!(FSPkgRepo::new(&path, Some(status)).is_ok());
}

#[test]
fn construction_failures_are_usage_errors() {
    let missing = FSPkgRepo::new("nowhere", None).unwrap_err();
    assert_eq!(missing.kind, ErrType::Usage);
    assert_eq!(missing.message.unwrap(), "\"nowhere\" does not exist");
    let file = FSPkgRepo::new("a.txt", Some(RootStatus { is_dir: false, readonly: true })).unwrap_err();
    assert_eq!(file.kind, ErrType::Usage);
    assert_eq!(file.message.unwrap(), "\"a.txt\" is not a directory");
    let ro = FSPkgRepo::new("/ro", Some(RootStatus { is_dir: true, readonly: true })).unwrap_err();
    assert_eq!(ro.kind, ErrType::Usage);
    assert_eq!(ro.message.unwrap(), "\"/ro\" is not writeable");
}

#[test]
fn resolve_places_the_locator_path_under_the_root() {
    let repo = FSPkgRepo::new("/srv/pkgs", Some(RootStatus { is_dir: true, readonly: false })).unwrap();
    assert_eq!(repo.path(), "/srv/pkgs");
    let meta = PkgMeta::new("foo", "1.0", "file://foo/foo-1.0.tar.gz");
    assert_eq!(repo.resolve(&meta).unwrap(), "/srv/pkgs/foo/foo-1.0.tar.gz");
    let bad = PkgMeta::new("foo", "1.0", "foo-1.0.tar.gz");
    assert_eq!(repo.resolve(&bad).unwrap_err().kind, ErrType::Usage);
}

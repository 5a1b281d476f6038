use pypiserver::catalog::{records_named, MemoryRepo};
use pypiserver::error::ErrType;
use pypiserver::model::{is_valid_name, PkgMeta, PkgMetaRepo};

fn names(v: &[PkgMeta]) -> Vec<String> {
    v.iter().map(|m| format!("{}@{}", m.name, m.version)).collect()
}

#[test]
fn memory_add_get_delete_scenario() {
    let mut repo = MemoryRepo::new();
    let m = PkgMeta::new("foo", "1.0", "fs://here");
    assert!(repo.add(&m).is_ok());
    let got = repo.get("foo", "1.0").unwrap();
    assert_eq!((got.name.as_str(), got.version.as_str(), got.location.as_str()), ("foo", "1.0", "fs://here"));
    assert!(repo.delete(&m).is_ok());
    assert!(repo.get("foo", "1.0").is_none());
}

#[test]
fn memory_add_twice_conflicts() {
    let mut repo = MemoryRepo::new();
    let m = PkgMeta::new("foo", "1.0", "fs://here");
    repo.add(&m).unwrap();
    let second = repo.add(&PkgMeta::new("foo", "1.0", "fs://elsewhere"));
    assert_eq!(second.unwrap_err().kind, ErrType::Conflict);
    let again = repo.add(&m);
    assert_eq!(again.unwrap_err().kind, ErrType::Conflict);
    assert_eq!(repo.with_name("foo").len(), 1);
    assert_eq!(repo.get("foo", "1.0").unwrap().location, "fs://here");
}

#[test]
fn memory_delete_needs_an_exact_match() {
    let mut repo = MemoryRepo::new();
    repo.add(&PkgMeta::new("foo", "1.0", "fs://here")).unwrap();
    let other = PkgMeta::new("foo", "1.0", "fs://there");
    assert_eq!(repo.delete(&other).unwrap_err().kind, ErrType::NotFound);
    assert!(repo.get("foo", "1.0").is_some());
}

#[test]
fn memory_with_name_in_creation_order() {
    let mut repo = MemoryRepo::new();
    repo.add(&PkgMeta::new("foo", "1.0", "fs://here")).unwrap();
    repo.add(&PkgMeta::new("bar", "1.0", "fs://bar")).unwrap();
    repo.add(&PkgMeta::new("foo", "1.1", "fs://there")).unwrap();
    repo.add(&PkgMeta::new("foo", "2.0", "fs://everywhere")).unwrap();
    assert_eq!(names(&repo.with_name("foo")), vec!["foo@1.0", "foo@1.1", "foo@2.0"]);
    assert_eq!(names(&repo.with_name("baz")), Vec::<String>::new());
}

#[test]
fn memory_get_all_in_insertion_order() {
    let mut repo = MemoryRepo::new();
    repo.add(&PkgMeta::new("foo", "1.0", "fs://here")).unwrap();
    repo.add(&PkgMeta::new("bar", "1.0", "fs://there")).unwrap();
    repo.add(&PkgMeta::new("baz", "1.0", "fs://everywhere")).unwrap();
    assert_eq!(names(&repo.get_all()), vec!["foo@1.0", "bar@1.0", "baz@1.0"]);
}

#[test]
fn memory_refuses_invalid_names() {
    let mut repo = MemoryRepo::new();
    let bad = PkgMeta::new("-foo", "1.0", "fs://here");
    assert_eq!(repo.add(&bad).unwrap_err().kind, ErrType::Usage);
    assert!(repo.get_all().is_empty());
}

#[test]
fn memory_through_the_trait() {
    let mut repo = MemoryRepo::new();
    let r: &mut dyn PkgMetaRepo = &mut repo;
    r.add(&PkgMeta::new("foo", "1.0", "fs://here")).unwrap();
    assert!(r.get("foo", "1.0").unwrap().is_some());
    assert_eq!(r.with_name("foo").unwrap().len(), 1);
    assert_eq!(r.get_all().unwrap().len(), 1);
    r.delete(&PkgMeta::new("foo", "1.0", "fs://here")).unwrap();
    assert!(r.get("foo", "1.0").unwrap().is_none());
}

#[test]
fn name_grammar() {
    assert!(is_valid_name("foo"));
    assert!(is_valid_name("F"));
    assert!(is_valid_name("Foo.Bar_baz-1"));
    assert!(!is_valid_name(""));
    assert!(!is_valid_name("-foo"));
    assert!(!is_valid_name("foo_"));
    assert!(!is_valid_name("foo bar"));
}

#[test]
fn records_named_filters_in_order() {
    let rows = vec![
        PkgMeta::new("a", "1", "x://1"),
        PkgMeta::new("b", "1", "x://2"),
        PkgMeta::new("a", "2", "x://3"),
    ];
    assert_eq!(names(&records_named(&rows, "a")), vec!["a@1", "a@2"]);
}

#[test]
fn record_with_key_takes_the_first_match() {
    let rows = vec![
        PkgMeta::new("a", "1", "x://1"),
        PkgMeta::new("a", "2", "x://2"),
        PkgMeta::new("a", "2", "x://3"),
    ];
    assert_eq!(pypiserver::catalog::record_with_key(&rows, "a", "2").unwrap().location, "x://2");
    assert!(pypiserver::catalog::record_with_key(&rows, "b", "1").is_none());
}

use pypiserver::error::{ErrType, Error};
use pypiserver::model::PkgMeta;
use pypiserver::registry::{package_from_parts, Action, Stage, Transaction};

fn ok() -> Result<(), Error> {
    Ok(())
}

fn fail(kind: ErrType, text: &str) -> Result<(), Error> {
    Err(Error::new(kind, text))
}

fn finished(a: Action) -> Result<(), Error> {
    match a {
        Action::Finish(r) => r,
        other => panic!("expected a result, got {:?}", other),
    }
}

#[test]
fn publish_saves_then_adds() {
    let meta = PkgMeta::new("foo", "1.0", "file://foo-1.0.zip");
    let mut t = Transaction::publish(&meta);
    assert!(matches!(t.step(ok()), Action::CreateArtifact));
    assert!(matches!(t.step(ok()), Action::AddMeta));
    assert!(finished(t.step(ok())).is_ok());
    assert_eq!(t.stage, Stage::Done);
}

#[test]
fn publish_conflict_removes_the_orphan_and_reports_the_conflict() {
    let meta = PkgMeta::new("foo", "1.0", "file://foo-1.0.zip");
    let mut t = Transaction::publish(&meta);
    t.step(ok());
    t.step(ok());
    assert!(matches!(t.step(fail(ErrType::Conflict, "taken")), Action::RemoveArtifact));
    let r = finished(t.step(fail(ErrType::IO, "disk full")));
    let e = r.unwrap_err();
    assert_eq!(e.kind, ErrType::Conflict);
    assert_eq!(e.message.unwrap(), "taken");
    assert_eq!(e.source.unwrap(), "; cleanup failed: disk full");
}

#[test]
fn publish_cleanup_keeps_the_original_cause() {
    let meta = PkgMeta::new("foo", "1.0", "file://foo-1.0.zip");
    let mut t = Transaction::publish(&meta);
    t.step(ok());
    t.step(ok());
    let mut conflict = Error::new(ErrType::Conflict, "taken");
    conflict.source = Some("UNIQUE constraint failed".to_string());
    t.step(Err(conflict));
    let kept = finished(t.step(ok())).unwrap_err();
    assert_eq!(kept.source.unwrap(), "UNIQUE constraint failed");
    let mut t = Transaction::publish(&meta);
    t.step(ok());
    t.step(ok());
    let mut conflict = Error::new(ErrType::Conflict, "taken");
    conflict.source = Some("UNIQUE constraint failed".to_string());
    t.step(Err(conflict));
    let both = finished(t.step(fail(ErrType::IO, "busy"))).unwrap_err();
    assert_eq!(both.source.unwrap(), "UNIQUE constraint failed; cleanup failed: busy");
}

#[test]
fn publish_onto_an_existing_file_removes_nothing() {
    let meta = PkgMeta::new("foo", "1.0", "file://foo-1.0.zip");
    let mut t = Transaction::publish(&meta);
    assert!(matches!(t.step(ok()), Action::CreateArtifact));
    let e = finished(t.step(fail(ErrType::Conflict, "file exists"))).unwrap_err();
    assert_eq!(e.kind, ErrType::Conflict);
    assert_eq!(t.stage, Stage::Done);
}

#[test]
fn publish_with_failed_save_stops() {
    let meta = PkgMeta::new("foo", "1.0", "file://foo-1.0.zip");
    let mut t = Transaction::publish(&meta);
    t.step(ok());
    assert_eq!(finished(t.step(fail(ErrType::IO, "no space"))).unwrap_err().kind, ErrType::IO);
}

#[test]
fn publish_refuses_invalid_names() {
    let meta = PkgMeta::new("..", "1.0", "file://x");
    let mut t = Transaction::publish(&meta);
    assert_eq!(finished(t.step(ok())).unwrap_err().kind, ErrType::Usage);
}

#[test]
fn replace_removes_old_bytes_after_the_switch() {
    let meta = PkgMeta::new("foo", "1.0", "file://foo-1.0.zip");
    let mut t = Transaction::replace(&meta, "/srv/foo-1.0.zip", "/srv/foo-1.0-b.zip");
    assert!(matches!(t.step(ok()), Action::SaveArtifact));
    assert!(matches!(t.step(ok()), Action::UpdateMeta));
    assert!(matches!(t.step(ok()), Action::RemoveOldArtifact));
    assert!(finished(t.step(ok())).is_ok());
}

#[test]
fn delete_reports_partial_delete() {
    let mut t = Transaction::delete();
    assert!(matches!(t.step(ok()), Action::RemoveMeta));
    assert!(matches!(t.step(ok()), Action::RemoveArtifact));
    let e = finished(t.step(fail(ErrType::IO, "busy"))).unwrap_err();
    assert_eq!(e.kind, ErrType::PartialDelete);
}

#[test]
fn delete_of_missing_record_is_not_found() {
    let mut t = Transaction::delete();
    t.step(ok());
    let e = finished(t.step(fail(ErrType::NotFound, "no row"))).unwrap_err();
    assert_eq!(e.kind, ErrType::NotFound);
    assert_eq!(finished(t.step(ok())).unwrap_err().kind, ErrType::Usage);
}

#[test]
fn missing_bytes_of_a_record_are_inconsistent() {
    let meta = PkgMeta::new("foo", "1.0", "file://foo-1.0.zip");
    let e = package_from_parts(meta.clone(), Err(Error::new(ErrType::NotFound, "gone"))).err().unwrap();
    assert_eq!(e.kind, ErrType::Inconsistent);
    let io = package_from_parts(meta.clone(), Err(Error::new(ErrType::IO, "eio"))).err().unwrap();
    assert_eq!(io.kind, ErrType::IO);
    let p = package_from_parts(meta, Ok(vec![1, 2, 3])).ok().unwrap();
    assert_eq!(p.bytes, vec![1, 2, 3]);
    assert_eq!(p.meta.name, "foo");
}

#[test]
fn replace_in_place_keeps_the_file() {
    let meta = PkgMeta::new("foo", "1.0", "file://foo-1.0.zip");
    let mut t = Transaction::replace(&meta, "/srv/foo-1.0.zip", "/srv/foo-1.0.zip");
    assert!(!t.moves);
    assert!(matches!(t.step(ok()), Action::SaveArtifact));
    assert!(matches!(t.step(ok()), Action::UpdateMeta));
    assert!(finished(t.step(ok())).is_ok());
}

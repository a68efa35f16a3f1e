use docforge::SaveError;
use docforge::SystemInfo;
use docforge::directory_provisioned;
use docforge::join_path;
use docforge::prepare_write;
use docforge::provision_step;
use docforge::resolve_app_directory;
use docforge::save_document_outcome;
use docforge::write_completed;

#[test]
fn join_path_inserts_one_separator() {
    assert_eq!(join_path("/home/alice/Documents", "DocForge"), "/home/alice/Documents/DocForge");
    assert_eq!(join_path("", "a.txt"), "/a.txt");
}

#[test]
fn resolve_names_the_app_directory() {
    let r = resolve_app_directory(Some("/home/alice/Documents"));
    assert_eq!(r.unwrap(), "/home/alice/Documents/DocForge");
}

#[test]
fn resolve_twice_yields_the_same_path() {
    let first = resolve_app_directory(Some("/home/alice/Documents")).unwrap();
    let second = resolve_app_directory(Some("/home/alice/Documents")).unwrap();
    assert_eq!(first, second);
}

#[test]
fn resolve_without_root_reports_unavailable() {
    let r = resolve_app_directory(None);
    assert!(matches!(r, Err(SaveError::DirectoryUnavailable)));
    assert_eq!(r.unwrap_err().message(), "Could not find documents directory");
}

#[test]
fn provisioning_creates_only_an_absent_directory() {
    assert_eq!(provision_step(false, false).unwrap(), true);
    assert_eq!(provision_step(true, true).unwrap(), false);
}

#[test]
fn provisioning_refuses_a_path_collision() {
    let e = provision_step(true, false).unwrap_err();
    assert!(matches!(e, SaveError::DirectoryCreateFailed(_)));
    assert_eq!(
        e.message(),
        "Could not create DocForge directory: path exists and is not a directory",
    );
}

#[test]
fn successful_save_returns_the_target_path() {
    let r = save_document_outcome(
        "brief.txt",
        Some("/home/alice/Documents"),
        false,
        false,
        Ok(()),
        Ok(()),
    );
    assert_eq!(r.unwrap(), "/home/alice/Documents/DocForge/brief.txt");
}

#[test]
fn save_into_an_existing_directory_skips_creation() {
    let r = save_document_outcome(
        "brief.txt",
        Some("/home/alice/Documents"),
        true,
        true,
        Err("would not even be attempted".to_string()),
        Ok(()),
    );
    assert_eq!(r.unwrap(), "/home/alice/Documents/DocForge/brief.txt");
}

#[test]
fn missing_root_fails_before_any_write() {
    let r = save_document_outcome("brief.txt", None, false, false, Ok(()), Ok(()));
    let e = r.unwrap_err();
    assert!(matches!(e, SaveError::DirectoryUnavailable));
    assert_eq!(e.message(), "Could not find documents directory");
}

#[test]
fn directory_creation_failure_is_surfaced() {
    let r = save_document_outcome(
        "brief.txt",
        Some("/home/alice/Documents"),
        false,
        false,
        Err("permission denied".to_string()),
        Ok(()),
    );
    let e = r.unwrap_err();
    assert!(matches!(e, SaveError::DirectoryCreateFailed(_)));
    assert_eq!(e.message(), "Could not create DocForge directory: permission denied");
}

#[test]
fn path_collision_fails_as_a_creation_failure() {
    let r = save_document_outcome(
        "brief.txt",
        Some("/home/alice/Documents"),
        true,
        false,
        Ok(()),
        Ok(()),
    );
    let e = r.unwrap_err();
    assert!(matches!(e, SaveError::DirectoryCreateFailed(_)));
    assert_eq!(
        e.message(),
        "Could not create DocForge directory: path exists and is not a directory",
    );
}

#[test]
fn write_failure_is_surfaced() {
    let r = save_document_outcome(
        "brief.txt",
        Some("/home/alice/Documents"),
        true,
        true,
        Ok(()),
        Err("read-only file system".to_string()),
    );
    let e = r.unwrap_err();
    assert!(matches!(e, SaveError::WriteFailed(_)));
    assert_eq!(e.message(), "Could not save file: read-only file system");
}

#[test]
fn empty_content_saves_like_any_other() {
    let r = save_document_outcome(
        "empty.txt",
        Some("/home/alice/Documents"),
        false,
        false,
        Ok(()),
        Ok(()),
    );
    assert_eq!(r.unwrap(), "/home/alice/Documents/DocForge/empty.txt");
    let cmd = prepare_write("/home/alice/Documents/DocForge", "empty.txt", String::new());
    assert_eq!(cmd.content.len(), 0);
    assert_eq!(cmd.path, "/home/alice/Documents/DocForge/empty.txt");
}

#[test]
fn overwrite_carries_only_the_second_content() {
    let first = prepare_write("/home/alice/Documents/DocForge", "brief.txt", "draft one".to_string());
    let second = prepare_write("/home/alice/Documents/DocForge", "brief.txt", "draft two".to_string());
    assert_eq!(first.path, second.path);
    assert_eq!(second.content, "draft two");
}

#[test]
fn prepare_write_keeps_content_verbatim() {
    let cmd = prepare_write("/d", "note.txt", "line one\nline two".to_string());
    assert_eq!(cmd.path, "/d/note.txt");
    assert_eq!(cmd.content, "line one\nline two");
}

#[test]
fn provisioning_outcome_maps_only_failures() {
    assert!(directory_provisioned(Ok(())).is_ok());
    let e = directory_provisioned(Err("disk full".to_string())).unwrap_err();
    assert_eq!(e.message(), "Could not create DocForge directory: disk full");
}

#[test]
fn write_outcome_returns_the_path_on_success() {
    let r = write_completed("/d/DocForge/a.txt".to_string(), Ok(()));
    assert_eq!(r.unwrap(), "/d/DocForge/a.txt");
}

#[test]
fn system_info_keeps_its_fields() {
    let info = SystemInfo::new(
        "linux".to_string(),
        "x86_64".to_string(),
        "0.1.0".to_string(),
    );
    assert_eq!(info.platform, "linux");
    assert_eq!(info.arch, "x86_64");
    assert_eq!(info.version, "0.1.0");
}

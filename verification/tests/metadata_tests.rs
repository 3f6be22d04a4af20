use bytebeam::compression::Compression;
use bytebeam::metadata::{FileMetadata, FileSize, FileState};
use bytebeam::serveropts::ServerOptions;

fn public_tier() -> ServerOptions {
    ServerOptions::default_public()
}

fn fresh_meta(user: Option<&String>) -> FileMetadata {
    FileMetadata::new(&public_tier(), user, 1000)
}

#[test]
fn new_metadata_starts_waiting() {
    let m = fresh_meta(None);
    assert_eq!(m.upload, FileState::NotStarted);
    assert_eq!(m.download, FileState::NotStarted);
    assert!(!m.authenticated);
    assert!(m.is_in_waiting_state());
    assert!(!m.upload_locked());
    assert!(!m.download_locked());
    assert_eq!(m.created, 1000);
    assert_eq!(m.accessed, 1000);
    assert_eq!(m.get_compression(), Compression::Plain);
}

#[test]
fn start_upload_needs_the_key() {
    let mut m = fresh_meta(None);
    let (_, key) = m.get_upload_info();
    assert!(!m.start_upload(&"wrong".to_string()));
    assert!(!m.upload_locked());
    assert!(m.start_upload(&key));
    assert!(m.upload_locked());
    assert!(!m.is_in_waiting_state() || m.download == FileState::NotStarted);
}

#[test]
fn end_upload_fixes_the_uploaded_count() {
    let mut m = fresh_meta(None);
    m.set_compression(Compression::Zstd);
    m.file_size.increase_upload(10);
    assert_eq!(m.file_size.get_content_length(), None);
    m.end_upload();
    assert_eq!(m.upload, FileState::Complete);
    assert_eq!(m.file_size.get_content_length(), Some(10));
}

#[test]
fn download_can_pause_and_resume() {
    let mut m = fresh_meta(None);
    m.start_download();
    assert!(m.download_locked());
    assert!(m.download_pausable());
    m.pause_download();
    assert_eq!(m.download, FileState::Paused);
    assert!(!m.download_locked());
    m.start_download();
    m.end_download();
    assert!(m.download_finished());
    assert!(!m.download_pausable());
}

#[test]
fn redaction_hides_the_secrets() {
    let user = "alice".to_string();
    let mut m = fresh_meta(Some(&user));
    m.file_name = "secret-plans.txt".to_string();
    m.file_size.set_file_size(123);
    let r = m.redact();
    assert_eq!(r.file_name, "null");
    assert_eq!(r.upload_key, "null");
    assert_eq!(r.path, m.path);
    assert_eq!(r.file_size.file_size, Some(123));
    assert_eq!(r.authed_user, Some("alice".to_string()));
}

#[test]
fn redaction_withholds_size_under_compression() {
    let mut m = fresh_meta(None);
    m.file_size.set_file_size(123);
    m.set_compression(Compression::Gzip);
    let r = m.redact();
    assert_eq!(r.file_size.file_size, None);
    assert_eq!(r.compression, Compression::Gzip);
}

#[test]
fn content_length_follows_trustworthiness() {
    let mut s = FileSize::new(true);
    assert_eq!(s.get_content_length(), None);
    s.set_file_size(42);
    assert_eq!(s.get_content_length(), Some(42));
    let mut m = fresh_meta(None);
    m.file_size.set_file_size(42);
    m.set_compression(Compression::Brotli);
    assert_eq!(m.file_size.get_content_length(), None);
    m.set_compression(Compression::Plain);
    assert_eq!(m.file_size.get_content_length(), Some(42));
}

#[test]
fn counters_never_decrease() {
    let mut s = FileSize::new(true);
    s.increase_upload(5);
    s.increase_upload(0);
    s.increase_upload(usize::MAX);
    assert_eq!(s.get_uploaded_size(), usize::MAX);
    s.increase_download(3);
    s.increase_download(4);
    assert_eq!(s.get_download_progress(), 7);
}

#[test]
fn file_string_names_the_exact_size() {
    let mut s = FileSize::new(true);
    s.set_file_size(4096);
    assert_eq!(s.get_file_string(), "4.0 KiB (4096 bytes)");
    let unknown = FileSize::new(false);
    assert_eq!(unknown.get_file_string(), "Unknown");
}

#[test]
fn age_measures_idleness() {
    let mut m = fresh_meta(None);
    assert_eq!(m.age(1500), 500);
    assert_eq!(m.age(500), 0);
    m.access(4000);
    assert_eq!(m.age(4100), 100);
}

#[test]
fn upgrade_rotates_the_identifiers() {
    let user = "alice".to_string();
    let mut m = fresh_meta(Some(&user));
    let (old_path, old_key) = m.get_upload_info();
    let words = vec!["crane".to_string()];
    let auth = ServerOptions::default_authenticated(words);
    m.upgrade(&auth, 2000);
    assert!(m.authenticated());
    assert_eq!(m.accessed, 2000);
    let (new_path, new_key) = m.get_upload_info();
    assert_ne!(new_path, old_path);
    assert_ne!(new_key, old_key);
}

#[test]
fn challenge_details_need_a_user() {
    let m = fresh_meta(None);
    assert!(m.get_challenge_details().is_none());
    let user = "bob".to_string();
    let m2 = fresh_meta(Some(&user));
    let (authed, who, challenge) = m2.get_challenge_details().expect("details");
    assert!(!authed);
    assert_eq!(who, "bob");
    assert_eq!(challenge.chars().count(), 36);
}

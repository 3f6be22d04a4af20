use bytebeam::client::{ClientConfig, ServerArgs};
use bytebeam::compression::Compression;
use bytebeam::front::{
    classify_field, decide_download, decide_get_download, decide_make_upload, query_flag,
    DownloadRouteDecision, GetDownloadDecision, MakeUploadDecision, UploadField,
};
use bytebeam::metadata::FileMetadata;
use bytebeam::server::ServerConfig;
use bytebeam::serveropts::ServerOptions;

fn fresh_meta() -> FileMetadata {
    let mut m = FileMetadata::new(&ServerOptions::default_public(), None, 0);
    m.file_name = "hello world.txt".to_string();
    m
}

#[test]
fn query_flags_need_the_exact_word() {
    assert!(query_flag(Some(&"true".to_string())));
    assert!(!query_flag(Some(&"True".to_string())));
    assert!(!query_flag(Some(&"1".to_string())));
    assert!(!query_flag(None));
}

#[test]
fn get_download_redirects_with_an_encoded_name() {
    let m = fresh_meta();
    let d = decide_get_download(&m, None, None, None, Some(&"curl/8.0".to_string()));
    match d {
        GetDownloadDecision::Redirect(target) => {
            let expected = format!("/{}/hello%20world.txt", m.path);
            assert_eq!(target, expected);
        }
        _ => panic!("expected a redirect"),
    }
}

#[test]
fn get_download_flags_win_over_everything() {
    let mut m = fresh_meta();
    m.end_download();
    let d = decide_get_download(&m, None, Some(&"true".to_string()), None, None);
    assert!(matches!(d, GetDownloadDecision::StreamStatus));
    let d = decide_get_download(&m, Some(&"true".to_string()), None, None, None);
    assert!(matches!(d, GetDownloadDecision::StatusJson));
}

#[test]
fn get_download_reports_spent_and_busy_tickets() {
    let mut m = fresh_meta();
    m.start_download();
    let d = decide_get_download(&m, None, None, None, None);
    assert!(matches!(d, GetDownloadDecision::Busy));
    m.end_download();
    let d = decide_get_download(&m, None, None, None, None);
    assert!(matches!(d, GetDownloadDecision::Gone));
}

#[test]
fn browsers_get_the_landing_until_they_ask() {
    let m = fresh_meta();
    let agent = "Mozilla/5.0".to_string();
    let d = decide_get_download(&m, None, None, None, Some(&agent));
    assert!(matches!(d, GetDownloadDecision::Landing));
    let d = decide_get_download(&m, None, None, Some(&"true".to_string()), Some(&agent));
    assert!(matches!(d, GetDownloadDecision::Redirect(_)));
    let whatsapp = "WhatsApp/2.0".to_string();
    let d = decide_get_download(&m, None, None, None, Some(&whatsapp));
    assert!(matches!(d, GetDownloadDecision::Landing));
}

#[test]
fn download_route_tells_keys_from_names() {
    let mut m = fresh_meta();
    let (_, key) = m.get_upload_info();
    assert!(matches!(
        decide_download(&m, &key),
        DownloadRouteDecision::UploadLanding
    ));
    assert!(matches!(
        decide_download(&m, &"hello world.txt".to_string()),
        DownloadRouteDecision::Proceed
    ));
    m.start_download();
    assert!(matches!(
        decide_download(&m, &"hello world.txt".to_string()),
        DownloadRouteDecision::Busy
    ));
    m.end_download();
    assert!(matches!(
        decide_download(&m, &"hello world.txt".to_string()),
        DownloadRouteDecision::Gone
    ));
}

#[test]
fn make_upload_requires_a_challenge_for_live_tickets() {
    assert!(matches!(
        decide_make_upload(false, None),
        MakeUploadDecision::Mint
    ));
    assert!(matches!(
        decide_make_upload(true, None),
        MakeUploadDecision::MissingChallenge
    ));
    let single = "one-signature".to_string();
    match decide_make_upload(true, Some(&single)) {
        MakeUploadDecision::Upgrade(l) => assert_eq!(l, vec!["one-signature".to_string()]),
        _ => panic!("expected an upgrade"),
    }
    let json = "[\"a\",\"b\"]".to_string();
    match decide_make_upload(true, Some(&json)) {
        MakeUploadDecision::Upgrade(l) => {
            assert_eq!(l, vec!["a".to_string(), "b".to_string()])
        }
        _ => panic!("expected an upgrade"),
    }
}

#[test]
fn upload_fields_are_classified_by_name() {
    assert!(matches!(classify_field("file-size"), UploadField::FileSize));
    assert!(matches!(
        classify_field("compression"),
        UploadField::CompressionName
    ));
    assert!(matches!(classify_field("file"), UploadField::Payload));
}

#[test]
fn client_config_merge_respects_sentinels() {
    let mut cfg = ClientConfig {
        server: Some("http://example.test".to_string()),
        username: None,
        key: None,
    };
    cfg.merge(ClientConfig {
        server: Some("http://localhost:3000".to_string()),
        username: Some("alice".to_string()),
        key: Some("~/.ssh".to_string()),
    });
    assert_eq!(cfg.server, Some("http://example.test".to_string()));
    assert_eq!(cfg.username, Some("alice".to_string()));
    assert_eq!(cfg.key, None);
    let (server, user, key) = cfg.get_absolute();
    assert_eq!(server, "http://example.test");
    assert_eq!(user, "alice");
    assert_eq!(key, "~/.ssh");
}

#[test]
fn server_config_takes_argument_overrides() {
    let mut cfg = ServerConfig::default();
    assert!(cfg.listen.is_none());
    cfg.apply_args(ServerArgs {
        listen: None,
        keyserver: Some("https://example.test/{}.keys".to_string()),
    });
    assert_eq!(cfg.listen, Some("0.0.0.0:3000".to_string()));
    assert_eq!(
        cfg.keyserver,
        Some("https://example.test/{}.keys".to_string())
    );
    cfg.apply_args(ServerArgs {
        listen: Some("127.0.0.1:8080".to_string()),
        keyserver: None,
    });
    assert_eq!(cfg.listen, Some("127.0.0.1:8080".to_string()));
    assert_eq!(cfg.keyserver, None);
}

#[test]
fn compression_echoes_through_metadata() {
    let mut m = fresh_meta();
    m.set_compression(Compression::Zstd);
    assert_eq!(m.get_compression().to_string(), "zstd");
}

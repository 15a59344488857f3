use s3_repro::operation::{exit_status, object_body, object_key, plan_upload, Mode, OperationId};
use s3_repro::query::{modified_path_and_query, strip_x_id};
use s3_repro::settings::resolve_settings;
use s3_repro::uri::{rewrite_uri, uri_for_mode, RewriteError, UriParts};

const SAMPLE: OperationId = OperationId { value: 0x67e5504410b1426f9247bb680e5fe0c8 };
const SAMPLE_TEXT: &str = "67e55044-10b1-426f-9247-bb680e5fe0c8";

fn parts(scheme: &str, authority: &str, path: &str, query: Option<&str>) -> UriParts {
    UriParts {
        scheme: scheme.to_string(),
        authority: authority.to_string(),
        path: path.to_string(),
        query: query.map(|q| q.to_string()),
    }
}

#[test]
fn strip_drops_x_id_and_joins_without_separator() {
    assert_eq!(strip_x_id("a=1&x-id=foo&b=2"), "a=1b=2");
}

#[test]
fn strip_of_lone_x_id_is_empty() {
    assert_eq!(strip_x_id("x-id=foo"), "");
}

#[test]
fn strip_keeps_query_without_x_id_but_drops_separators() {
    assert_eq!(strip_x_id("a=1&b=2"), "a=1b=2");
    assert_eq!(strip_x_id("single"), "single");
}

#[test]
fn strip_of_empty_query_is_empty() {
    assert_eq!(strip_x_id(""), "");
    assert_eq!(strip_x_id("&&"), "");
}

#[test]
fn strip_matches_prefix_only() {
    assert_eq!(strip_x_id("x-idfoo&ax-id=1&x-id"), "ax-id=1");
    assert_eq!(strip_x_id("x-i=1&X-ID=2"), "x-i=1X-ID=2");
}

#[test]
fn stripped_query_has_no_x_id_component() {
    let r = strip_x_id("x-id=PutObject&partNumber=1&x-id-extra=2&uploadId=u");
    assert_eq!(r, "partNumber=1uploadId=u");
    assert!(r.split('&').all(|c| !c.starts_with("x-id")));
}

#[test]
fn joined_survivors_can_spell_x_id() {
    assert_eq!(strip_x_id("x&-id=1"), "x-id=1");
}

#[test]
fn path_and_query_appends_stripped_query() {
    assert_eq!(modified_path_and_query("/bucket/key", "x-id=PutObject"), "/bucket/key?");
    assert_eq!(
        modified_path_and_query("/bucket/key", "a=1&x-id=foo&b=2"),
        "/bucket/key?a=1b=2"
    );
}

#[test]
fn rewrite_removes_x_id_from_uri() {
    let p = parts("http", "localhost:9000", "/bucket/id/modified", Some("a=1&x-id=foo&b=2"));
    let text = rewrite_uri(&p).unwrap();
    assert_eq!(text, "http://localhost:9000/bucket/id/modified?a=1b=2");
    let uri: http::Uri = text.parse().unwrap();
    assert_eq!(uri.query(), Some("a=1b=2"));
}

#[test]
fn rewrite_of_lone_x_id_gives_empty_query() {
    let p = parts("https", "s3.example.com", "/bucket/key", Some("x-id=PutObject"));
    let text = rewrite_uri(&p).unwrap();
    assert_eq!(text, "https://s3.example.com/bucket/key?");
    let reparsed: http::Uri = text.parse().unwrap();
    assert_eq!(reparsed.query().unwrap_or(""), "");
}

#[test]
fn rewrite_without_query_fails() {
    let p = parts("http", "localhost", "/bucket/key", None);
    assert!(matches!(rewrite_uri(&p), Err(RewriteError::MissingQuery)));
}

#[test]
fn rewrite_with_bad_authority_fails() {
    let p = parts("http", "bad host", "/bucket/key", Some("x-id=PutObject"));
    assert!(matches!(rewrite_uri(&p), Err(RewriteError::Invalid(_))));
}

#[test]
fn standard_mode_keeps_uri() {
    let p = parts("http", "localhost", "/bucket/key", Some("x-id=PutObject"));
    assert!(matches!(uri_for_mode(Mode::Standard, &p), Ok(None)));
    let none = parts("http", "localhost", "/bucket/key", None);
    assert!(matches!(uri_for_mode(Mode::Standard, &none), Ok(None)));
}

#[test]
fn modified_mode_rewrites_uri() {
    let p = parts("http", "localhost", "/bucket/key", Some("x-id=PutObject"));
    let text = uri_for_mode(Mode::Modified, &p).unwrap().unwrap();
    assert_eq!(text, "http://localhost/bucket/key?");
    let none = parts("http", "localhost", "/bucket/key", None);
    assert!(matches!(uri_for_mode(Mode::Modified, &none), Err(RewriteError::MissingQuery)));
}

#[test]
fn id_text_is_hyphenated_lowercase() {
    assert_eq!(SAMPLE.text(), SAMPLE_TEXT);
    assert_eq!(OperationId { value: 0 }.text(), "00000000-0000-0000-0000-000000000000");
    assert_eq!(
        OperationId { value: u128::MAX }.text(),
        "ffffffff-ffff-ffff-ffff-ffffffffffff"
    );
}

#[test]
fn object_key_per_mode() {
    assert_eq!(object_key(SAMPLE, Mode::Standard), format!("{SAMPLE_TEXT}/standard"));
    assert_eq!(object_key(SAMPLE, Mode::Modified), format!("{SAMPLE_TEXT}/modified"));
}

#[test]
fn object_body_is_id_text_bytes() {
    assert_eq!(object_body(SAMPLE), SAMPLE_TEXT.as_bytes().to_vec());
}

#[test]
fn plan_shares_one_id() {
    let plan = plan_upload(SAMPLE, Mode::Modified);
    assert_eq!(plan.key, "67e55044-10b1-426f-9247-bb680e5fe0c8/modified");
    assert_eq!(plan.body, b"67e55044-10b1-426f-9247-bb680e5fe0c8".to_vec());
    let body_text = String::from_utf8(plan.body).unwrap();
    assert_eq!(plan.key, format!("{body_text}/modified"));
}

#[test]
fn generated_ids_are_random_version_four() {
    let a = OperationId::generate();
    let b = OperationId::generate();
    assert_ne!(a.value, b.value);
    let text = a.text();
    assert_eq!(text.len(), 36);
    assert_eq!(text.as_bytes()[14], b'4');
    assert!(matches!(text.as_bytes()[19], b'8' | b'9' | b'a' | b'b'));
    let plan = plan_upload(a, Mode::Standard);
    assert_eq!(plan.key, format!("{text}/standard"));
    assert_eq!(plan.body, text.into_bytes());
}

#[test]
fn exit_status_follows_outcome() {
    assert_eq!(exit_status(true), 0);
    assert_eq!(exit_status(false), -1);
}

#[test]
fn settings_defaults() {
    let s = resolve_settings(None, None, "http://localhost:9000/".to_string(), false, None);
    assert_eq!(s.access_key_id, "");
    assert_eq!(s.secret_access_key, "");
    assert_eq!(s.endpoint_url, "http://localhost:9000/");
    assert!(!s.force_path_style);
    assert_eq!(s.region, "undefined");
}

#[test]
fn settings_keep_given_values() {
    let s = resolve_settings(
        Some("AKID".to_string()),
        Some("SECRET".to_string()),
        "https://s3.example.com/".to_string(),
        true,
        Some("eu-west-1".to_string()),
    );
    assert_eq!(s.access_key_id, "AKID");
    assert_eq!(s.secret_access_key, "SECRET");
    assert!(s.force_path_style);
    assert_eq!(s.region, "eu-west-1");
}

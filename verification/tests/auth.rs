use agent2web::auth::{check_password, constant_time_eq, is_password_valid, WRONG_PASSWORD};
use agent2web::config::ServerConfig;
use agent2web::reply::Reply;

fn make_config(password: &str) -> ServerConfig {
    ServerConfig {
        bind: "0.0.0.0:8080".into(),
        project_dir: ".".into(),
        run_timeout: 600,
        password: password.to_string(),
        tls: None,
    }
}

#[test]
fn auth_disabled_when_password_empty() {
    let cfg = make_config("");
    assert!(check_password(&cfg, "anything").is_none());
    assert!(check_password(&cfg, "").is_none());
}

#[test]
fn correct_password_accepted() {
    let cfg = make_config("s3cr3t");
    assert!(check_password(&cfg, "s3cr3t").is_none());
}

#[test]
fn wrong_password_rejected() {
    let cfg = make_config("s3cr3t");
    let resp = check_password(&cfg, "wrong");
    assert!(resp.is_some());
    let r = resp.unwrap();
    assert_eq!(r.status(), 403);
}

#[test]
fn empty_provided_rejected_when_password_set() {
    let cfg = make_config("s3cr3t");
    assert!(check_password(&cfg, "").is_some());
}

#[test]
fn refusal_is_a_page_that_says_why() {
    match check_password(&make_config("a"), "b") {
        Some(Reply::Html { status, body }) => {
            assert_eq!(status, 403);
            assert!(body.contains(WRONG_PASSWORD));
        }
        other => panic!("unexpected: {other:?}"),
    }
}

#[test]
fn password_is_compared_as_a_whole() {
    let cfg = make_config("pässwörd");
    assert!(is_password_valid(&cfg, "pässwörd"));
    assert!(!is_password_valid(&cfg, "pässwörd "));
    assert!(!is_password_valid(&cfg, "Pässwörd"));
    assert!(!is_password_valid(&cfg, "pässwör"));
    assert!(is_password_valid(&make_config(""), "pässwörd"));
}

#[test]
fn bytes_are_compared_in_full() {
    assert!(constant_time_eq(b"", b""));
    assert!(constant_time_eq(b"abc", b"abc"));
    assert!(!constant_time_eq(b"abc", b"abd"));
    assert!(!constant_time_eq(b"abc", b"ab"));
    assert!(!constant_time_eq(b"", b"a"));
    assert!(!constant_time_eq(&[1, 0], &[0, 1]));
}

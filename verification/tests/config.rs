use agent2web::config::defaults;
use agent2web::config::{
    listener, Config, ConfigFile, DiffConfig, ForgeConfig, Listener, ServerConfig, SttConfig, TlsConfig,
    TLS_PATH_MISSING,
};
use agent2web::path::{file_name, join_path, parent, resolve_beside};
use std::path::Path;

fn tls(enabled: bool, cert: &str, key: &str) -> Option<TlsConfig> {
    Some(TlsConfig { enabled, cert: cert.to_string(), key: key.to_string() })
}

fn parsed(tls: Option<TlsConfig>) -> Config {
    let mut server = ServerConfig::default();
    server.password = "file".to_string();
    server.tls = tls;
    let mut stt = SttConfig::default();
    stt.api_key = "file-key".to_string();
    Config { server, forge: ForgeConfig::default(), stt, diff: DiffConfig::default() }
}

fn load(
    config: Config,
    path: &str,
    password: Option<String>,
    stt_api_key: Option<String>,
) -> Config {
    Config::load(ConfigFile::Parsed { config }, path, password, stt_api_key).unwrap()
}

#[test]
fn a_missing_or_broken_file_says_so() {
    let file = ConfigFile::Unreadable { error: "not found".to_string() };
    assert_eq!(
        Config::load(file, "x.toml", None, None).unwrap_err(),
        "Cannot read config file 'x.toml': not found"
    );
    let file = ConfigFile::Unparsable { error: "line 1".to_string() };
    assert_eq!(
        Config::load(file, "x.toml", None, None).unwrap_err(),
        "Config parse error in 'x.toml': line 1"
    );
}

#[test]
fn defaults_are_those_of_the_manual() {
    let s = ServerConfig::default();
    assert_eq!(s.bind, "0.0.0.0:8080");
    assert_eq!(s.project_dir, ".");
    assert_eq!(s.run_timeout, 600);
    assert_eq!(s.password, "");
    assert!(s.tls.is_none());
    let f = ForgeConfig::default();
    assert_eq!(f.binary, "forge");
    assert_eq!(f.commit_cmd, "forge commit");
    assert!(!f.auto_push);
    let t = SttConfig::default();
    assert_eq!(t.provider, "whisper_server");
    assert_eq!(t.api_key, "");
    assert!(t.whisper_server.is_none() && t.openai.is_none() && t.deepgram.is_none());
    let d = DiffConfig::default();
    assert_eq!(d.max_history, 20);
    assert_eq!(d.context_lines, 5);
    assert_eq!(
        defaults::whisper_server_url(),
        "http://127.0.0.1:8090/v1/audio/transcriptions"
    );
    assert_eq!(defaults::openai_model(), "whisper-1");
}

#[test]
fn the_environment_overrides_secrets() {
    let c = load(
        parsed(None),
        "agent2web.toml",
        Some("env".to_string()),
        Some("env-key".to_string()),
    );
    assert_eq!(c.server.password, "env");
    assert_eq!(c.stt.api_key, "env-key");
    let c = load(parsed(None), "agent2web.toml", None, None);
    assert_eq!(c.server.password, "file");
    assert_eq!(c.stt.api_key, "file-key");
    let c = load(parsed(None), "agent2web.toml", Some(String::new()), None);
    assert_eq!(c.server.password, "");
}

#[test]
fn tls_files_stand_beside_the_configuration() {
    let c = load(
        parsed(tls(true, "tls/cert.pem", "/abs/key.pem")),
        "/etc/agent2web/agent2web.toml",
        None,
        None,
    );
    let t = c.server.tls.unwrap();
    assert_eq!(t.cert, "/etc/agent2web/tls/cert.pem");
    assert_eq!(t.key, "/abs/key.pem");
}

#[test]
fn tls_files_stay_where_tls_is_off_or_the_path_is_empty() {
    let c = load(parsed(tls(false, "c", "k")), "/etc/x.toml", None, None);
    let t = c.server.tls.unwrap();
    assert_eq!((t.cert.as_str(), t.key.as_str()), ("c", "k"));
    let c = load(parsed(tls(true, "", "k")), "x.toml", None, None);
    let t = c.server.tls.unwrap();
    assert_eq!((t.cert.as_str(), t.key.as_str()), ("", "k"));
}

#[test]
fn without_a_file_tls_is_on() {
    let c = Config::load_defaults("/home/me", None, Some("k".to_string()));
    let t = c.server.tls.unwrap();
    assert!(t.enabled);
    assert_eq!(t.cert, "/home/me/.tls/cert.pem");
    assert_eq!(t.key, "/home/me/.tls/key.pem");
    assert_eq!(c.stt.api_key, "k");
    assert_eq!(c.server.password, "");
}

#[test]
fn the_listener_follows_the_tls_settings() {
    assert!(matches!(listener(&None), Ok(Listener::Plain)));
    assert!(matches!(listener(&tls(false, "", "")), Ok(Listener::Plain)));
    match listener(&tls(true, "c", "k")) {
        Ok(Listener::Tls { cert, key }) => assert_eq!((cert.as_str(), key.as_str()), ("c", "k")),
        other => panic!("unexpected: {other:?}"),
    }
    assert_eq!(listener(&tls(true, "", "k")).unwrap_err(), TLS_PATH_MISSING);
    assert_eq!(listener(&tls(true, "c", "")).unwrap_err(), TLS_PATH_MISSING);
}

#[test]
fn paths_are_read_as_the_standard_library_reads_them() {
    let samples = [
        "", "/", "//", ".", "..", "a", "a/", "/a", "//a", "a/b", "a//b", "a/./b", "a/b/", "a/b/.",
        "a/..", "../a", "./a", "./", "/.", "/..", "/./a", "a/b/../c", ".hidden", "a.", "a/.b",
        "...", "a/...", "ä/ö.toml", "/etc/agent2web/agent2web.toml", "agent2web.toml", "./.",
    ];
    for s in samples {
        let std_name = Path::new(s).file_name().map(|n| n.to_str().unwrap().to_string());
        assert_eq!(file_name(s), std_name, "file_name of {s:?}");
        let std_parent = Path::new(s).parent().map(|n| n.to_str().unwrap().to_string());
        assert_eq!(parent(s), std_parent, "parent of {s:?}");
        let joined = Path::new(s).join("x/y");
        assert_eq!(join_path(s, "x/y"), joined.to_str().unwrap(), "join to {s:?}");
    }
}

#[test]
fn a_file_without_a_directory_is_taken_from_here() {
    assert_eq!(resolve_beside("agent2web.toml", "c.pem"), "c.pem");
    assert_eq!(resolve_beside("conf/agent2web.toml", "c.pem"), "conf/c.pem");
    assert_eq!(resolve_beside("/", "c.pem"), "./c.pem");
    assert_eq!(resolve_beside("conf/x", "/c.pem"), "/c.pem");
    assert_eq!(resolve_beside("conf/x", ""), "");
}

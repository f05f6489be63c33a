use agent2web::config::{Config, DiffConfig, ForgeConfig, ServerConfig, SttConfig};
use agent2web::state::{AppState, CommitSummary, ConvEntry, ConvState, RunState, RunStatus};

fn conversations() -> ConvState {
    ConvState {
        active_id: None,
        history: vec![
            ConvEntry::new("one".to_string(), "first".to_string(), 10),
            ConvEntry::new("two".to_string(), "second".to_string(), 20),
            ConvEntry::new("two".to_string(), "again".to_string(), 30),
        ],
    }
}

#[test]
fn phases_have_names() {
    assert_eq!(RunStatus::Idle.label(), "Idle");
    assert_eq!(RunStatus::Running.label(), "Running");
    assert_eq!(RunStatus::Done.label(), "Done");
    let failed = RunStatus::Failed { reason: "r".to_string() };
    assert_eq!(failed.label(), "Failed");
    assert!(RunStatus::Running.is_running());
    assert!(!RunStatus::Idle.is_running());
    assert!(!RunStatus::Done.is_running());
    assert!(!failed.is_running());
}

#[test]
fn a_run_begins_idle_and_silent() {
    let run = RunState::default();
    assert!(matches!(run.status, RunStatus::Idle));
    assert!(run.output_buf.is_empty());
}

#[test]
fn an_id_is_shortened_to_eight_characters() {
    let e = ConvEntry::new("0123456789".to_string(), String::new(), 5);
    assert_eq!(e.short_id(), "01234567");
    assert_eq!(e.run_count, 0);
    assert_eq!(e.started_at, 5);
    let e = ConvEntry::new("short".to_string(), String::new(), 5);
    assert_eq!(e.short_id(), "short");
    let e = ConvEntry::new("ääääääääää".to_string(), String::new(), 5);
    assert_eq!(e.short_id(), "ääääääää");
}

#[test]
fn the_active_entry_is_the_first_with_its_id() {
    let mut conv = conversations();
    assert!(conv.active_entry().is_none());
    conv.active_id = Some("two".to_string());
    assert_eq!(conv.active_entry().unwrap().label, "second");
    conv.active_id = Some("three".to_string());
    assert!(conv.active_entry().is_none());
    assert!(conv.active_entry_mut().is_none());
    assert!(conv.knows(&"one".to_string()));
    assert!(!conv.knows(&"three".to_string()));
}

#[test]
fn the_active_entry_can_be_changed() {
    let mut conv = conversations();
    conv.active_id = Some("two".to_string());
    conv.active_entry_mut().unwrap().run_count = 7;
    let counts: Vec<u32> = conv.history.iter().map(|e| e.run_count).collect();
    assert_eq!(counts, [0, 7, 0]);
}

#[test]
fn a_commit_shows_eight_characters_of_its_sha() {
    let c = CommitSummary::new("0123456789abcdef".to_string(), "subject".to_string());
    assert_eq!(c.sha, "0123456789abcdef");
    assert_eq!(c.short_sha, "01234567");
    assert_eq!(c.subject, "subject");
}

#[test]
fn a_new_server_knows_nothing() {
    let app = AppState::new(Config {
        server: ServerConfig::default(),
        forge: ForgeConfig::default(),
        stt: SttConfig::default(),
        diff: DiffConfig::default(),
    });
    assert!(matches!(app.run.status, RunStatus::Idle));
    assert!(app.conv.active_id.is_none());
    assert!(app.conv.history.is_empty());
    assert!(app.prompts_since_commit.is_empty());
    assert!(app.commit_history.is_empty());
}

use agent2web::agent::{do_run, run_agent, RunEvent, RunStep};
use agent2web::config::{Config, DiffConfig, ForgeConfig, ServerConfig, SttConfig};
use agent2web::handlers::commit::{advance, post_commit, CommitForm, CommitStep};
use agent2web::handlers::conversation::{
    post_conversation_new, post_conversation_resume, record_new_conversation, NewConvForm,
    ResumeConvForm,
};
use agent2web::handlers::run::{post_run, RunDecision, RunForm};
use agent2web::process::CommandOutcome;
use agent2web::state::{AppState, RunStatus};

fn app() -> AppState {
    let mut server = ServerConfig::default();
    server.password = "pw".to_string();
    AppState::new(Config {
        server,
        forge: ForgeConfig::default(),
        stt: SttConfig::default(),
        diff: DiffConfig::default(),
    })
}

fn request(app: &mut AppState, prompt: &str, password: &str) -> RunDecision {
    let form = RunForm { prompt: prompt.to_string(), password: password.to_string() };
    post_run(app, form, 100)
}

fn succeeded(stdout: &str) -> CommandOutcome {
    CommandOutcome::Exited { success: true, stdout: stdout.as_bytes().to_vec(), stderr: Vec::new() }
}

fn commit_form(password: &str) -> CommitForm {
    CommitForm {
        message: "subject".to_string(),
        password: password.to_string(),
        files: vec!["a.rs".to_string()],
        include_prompts: "on".to_string(),
    }
}

fn run_to_end(app: &mut AppState, prompt: &str, lines: &[&str], detected: Option<&str>) {
    let run = match request(app, prompt, "pw") {
        RunDecision::Dispatched { run, .. } => run,
        other => panic!("unexpected: {other:?}"),
    };
    let mut events = vec![RunEvent::Started];
    events.extend(lines.iter().map(|line| RunEvent::Stdout { line: line.to_string() }));
    events.push(RunEvent::Stderr { line: "last".to_string() });
    events.push(RunEvent::Exited { success: true });
    events.push(RunEvent::Drained);
    let mut step = RunStep::Starting;
    for event in events {
        step = do_run(&mut app.run, "forge", 600, step, event).0;
    }
    match step {
        RunStep::Ended { result } => {
            run_agent(app, &run, result, detected.map(|d| d.to_string()));
        }
        other => panic!("unexpected: {other:?}"),
    }
}

#[test]
fn a_day_of_the_server() {
    let mut app = app();
    run_to_end(&mut app, "one", &["a", "b"], Some("c1"));
    assert_eq!(app.run.output_buf, ["a", "b", "[stderr] last"]);
    run_to_end(&mut app, " two ", &["c"], None);
    assert_eq!(app.run.output_buf, ["c", "[stderr] last"]);
    assert_eq!(app.prompts_since_commit, ["one", "two"]);
    assert_eq!(app.conv.history.len(), 1);
    assert_eq!(app.conv.history[0].run_count, 2);

    let form = NewConvForm { label: String::new(), password: "pw".to_string() };
    assert!(post_conversation_new(&app, &form).is_none());
    record_new_conversation(&mut app, &form, &succeeded("c2\n"), 200);
    run_to_end(&mut app, "three", &[], None);
    assert_eq!(app.conv.history.len(), 2);
    assert_eq!(app.conv.history[1].label, "three");
    assert_eq!(app.conv.history[1].run_count, 1);

    let back = ResumeConvForm { id: "c1".to_string(), password: "pw".to_string() };
    assert_eq!(post_conversation_resume(&mut app, back).status(), 303);
    run_to_end(&mut app, "four", &[], None);
    assert_eq!(app.conv.history[0].run_count, 3);
    assert_eq!(app.prompts_since_commit, ["one", "two", "three", "four"]);

    let mut step = post_commit(&app, commit_form("pw"));
    for outcome in [
        succeeded(" M a.rs\n"),
        succeeded(""),
        succeeded(""),
        succeeded("[main 0123456] subject\n"),
        succeeded("0123456789ab subject\nfedcba987654 earlier\n"),
    ] {
        step = advance(&mut app, step, &outcome);
    }
    assert_eq!(app.commit_history.len(), 2);
    assert_eq!(app.commit_history[0].subject, "subject");
    assert_eq!(app.commit_history[0].short_sha, "01234567");
    assert!(matches!(step, CommitStep::Finished { reply } if reply.status() == 303));
    assert!(app.prompts_since_commit.is_empty());
    assert_eq!(app.conv.active_id.as_deref(), Some("c1"));
}

#[test]
fn a_wrong_password_has_no_effect() {
    let mut app = app();
    run_to_end(&mut app, "one", &[], Some("c1"));
    assert!(matches!(request(&mut app, "p", "no"), RunDecision::Refused { reply } if reply.status() == 403));
    let step = post_commit(&app, commit_form("no"));
    assert!(matches!(step, CommitStep::Finished { reply } if reply.status() == 403));
    let form = NewConvForm { label: String::new(), password: "no".to_string() };
    assert_eq!(post_conversation_new(&app, &form).unwrap().status(), 403);
    let back = ResumeConvForm { id: "c1".to_string(), password: "no".to_string() };
    assert_eq!(post_conversation_resume(&mut app, back).status(), 403);
    assert!(matches!(app.run.status, RunStatus::Done));
    assert_eq!(app.prompts_since_commit, ["one"]);
}

#[test]
fn a_run_is_not_disturbed() {
    let mut app = app();
    assert!(matches!(request(&mut app, "one", "pw"), RunDecision::Dispatched { .. }));
    let line = RunEvent::Stdout { line: "line".to_string() };
    do_run(&mut app.run, "forge", 600, RunStep::Waiting, line);
    assert!(matches!(request(&mut app, "p", "pw"), RunDecision::Refused { reply } if reply.status() == 409));
    let step = post_commit(&app, commit_form("pw"));
    assert!(matches!(step, CommitStep::Finished { reply } if reply.status() == 409));
    let form = NewConvForm { label: String::new(), password: "pw".to_string() };
    assert_eq!(post_conversation_new(&app, &form).unwrap().status(), 409);
    let back = ResumeConvForm { id: "c1".to_string(), password: "pw".to_string() };
    assert_eq!(post_conversation_resume(&mut app, back).status(), 409);
    assert!(app.run.status.is_running());
    assert_eq!(app.run.output_buf, ["line"]);
}

use agent2web::agent::{
    can_record, create_new_conversation, detect_latest_conversation, do_run, run_agent,
    truncate_label, update_conv_state, AgentRun, RunEvent, RunStep, DONE,
};
use agent2web::config::{Config, DiffConfig, ForgeConfig, ServerConfig, SttConfig};
use agent2web::process::CommandOutcome;
use agent2web::state::{AppState, ConvEntry, ConvState, RunState, RunStatus};

fn app() -> AppState {
    AppState::new(Config {
        server: ServerConfig::default(),
        forge: ForgeConfig::default(),
        stt: SttConfig::default(),
        diff: DiffConfig::default(),
    })
}

fn exited(success: bool, stdout: &str, stderr: &str) -> CommandOutcome {
    CommandOutcome::Exited {
        success,
        stdout: stdout.as_bytes().to_vec(),
        stderr: stderr.as_bytes().to_vec(),
    }
}

fn run_of(prompt: &str, is_first_run: bool) -> AgentRun {
    AgentRun { prompt: prompt.to_string(), is_first_run, started_at: 1000 }
}

#[test]
fn labels_have_at_most_sixty_bytes() {
    let short = "x".repeat(60);
    assert_eq!(truncate_label(&short), short);
    let long = "x".repeat(61);
    assert_eq!(truncate_label(&long), format!("{short}…"));
    let straddling = format!("{}äz", "x".repeat(59));
    assert_eq!(truncate_label(&straddling), format!("{}…", "x".repeat(59)));
    assert_eq!(truncate_label(&"ä".repeat(40)), format!("{}…", "ä".repeat(30)));
    assert_eq!(truncate_label(&"😀".repeat(16)), format!("{}…", "😀".repeat(15)));
    let euros = format!("xx{}", "€".repeat(20));
    assert_eq!(truncate_label(&euros), format!("xx{}…", "€".repeat(19)));
}

#[test]
fn the_latest_conversation_is_listed_first() {
    let listing = "\n  \nabc123  first prompt\ndef456 other\n";
    assert_eq!(
        detect_latest_conversation(&exited(true, listing, "")),
        Some("abc123".to_string())
    );
    assert_eq!(detect_latest_conversation(&exited(true, " \n", "")), None);
    assert_eq!(detect_latest_conversation(&exited(false, listing, "")), None);
    let none = CommandOutcome::NotStarted { error: "e".to_string() };
    assert_eq!(detect_latest_conversation(&none), None);
    let lost = CommandOutcome::Lost { error: "e".to_string() };
    assert_eq!(detect_latest_conversation(&lost), None);
}

#[test]
fn bytes_that_are_no_text_are_replaced() {
    let outcome = CommandOutcome::Exited {
        success: true,
        stdout: vec![b'a', 0xff, b'b', b' ', b'c'],
        stderr: Vec::new(),
    };
    assert_eq!(detect_latest_conversation(&outcome), Some("a\u{fffd}b".to_string()));
}

#[test]
fn a_new_conversation_is_read_from_the_output() {
    assert_eq!(create_new_conversation("forge", &exited(true, "new-id\n", "")), Ok("new-id".to_string()));
    assert_eq!(
        create_new_conversation("forge", &exited(true, "\n", "")),
        Err("forge conversation new produced no output".to_string())
    );
    assert_eq!(
        create_new_conversation("forge", &exited(false, "", " no \n")),
        Err("forge conversation new failed: no".to_string())
    );
    let none = CommandOutcome::NotStarted { error: "not found".to_string() };
    assert_eq!(
        create_new_conversation("/bin/forge", &none),
        Err("Failed to spawn '/bin/forge': not found".to_string())
    );
}

fn stdout(line: &str) -> RunEvent {
    RunEvent::Stdout { line: line.to_string() }
}

fn stderr(line: &str) -> RunEvent {
    RunEvent::Stderr { line: line.to_string() }
}

/// Runs the events from the start, and returns the last step and what was shown.
fn follow(run: &mut RunState, events: Vec<RunEvent>) -> (RunStep, Vec<String>) {
    let mut step = RunStep::Starting;
    let mut shown = Vec::new();
    for event in events {
        let (next, line) = do_run(run, "forge", 5, step, event);
        step = next;
        shown.extend(line);
    }
    (step, shown)
}

fn assert_ended(step: RunStep, want: Result<bool, &str>) {
    match step {
        RunStep::Ended { result } => assert_eq!(result, want.map_err(|e| e.to_string())),
        other => panic!("unexpected: {other:?}"),
    }
}

#[test]
fn output_is_recorded_and_streamed() {
    let mut run = RunState::default();
    let (step, shown) = follow(
        &mut run,
        vec![
            stdout("too early"),
            RunEvent::Started,
            stdout("hello"),
            stderr("oops"),
            RunEvent::Exited { success: true },
            stdout("late"),
            RunEvent::Drained,
            stdout("too late"),
        ],
    );
    assert_ended(step, Ok(true));
    assert_eq!(shown, ["hello", "[stderr] oops", "late"]);
    assert_eq!(run.output_buf, shown);
}

#[test]
fn a_run_that_takes_too_long_is_killed() {
    let mut run = RunState::default();
    let (step, _) = follow(&mut run, vec![RunEvent::Started, RunEvent::Deadline]);
    assert!(matches!(step, RunStep::Killing));
    let mut run = RunState::default();
    let (step, shown) = follow(
        &mut run,
        vec![
            RunEvent::Started,
            RunEvent::Deadline,
            stdout("dying"),
            RunEvent::Exited { success: true },
            RunEvent::Reaped,
            RunEvent::Drained,
        ],
    );
    assert_ended(step, Err("Timed out after 5 seconds"));
    assert_eq!(shown, ["[agent2web] Run timed out after 5s — killing process", "dying"]);
    assert_eq!(run.output_buf, shown);
}

#[test]
fn endings_are_told_apart() {
    let mut run = RunState::default();
    let (step, _) = follow(
        &mut run,
        vec![RunEvent::Started, RunEvent::Exited { success: false }, RunEvent::Drained],
    );
    assert_ended(step, Ok(false));
    let lost = RunEvent::Lost { error: "io".to_string() };
    let (step, _) = follow(&mut run, vec![RunEvent::Started, lost, RunEvent::Drained]);
    assert_ended(step, Err("io"));
    let (step, _) = follow(&mut run, vec![RunEvent::NotStarted { error: "none".to_string() }]);
    assert_ended(step, Err("Failed to spawn 'forge': none"));
    let (step, shown) = follow(&mut run, vec![RunEvent::Deadline, RunEvent::Reaped]);
    assert!(matches!(step, RunStep::Starting));
    assert!(shown.is_empty());
    assert!(run.output_buf.is_empty());
}

#[test]
fn the_first_run_makes_a_conversation() {
    let mut app = app();
    app.run.status = RunStatus::Running;
    let run = AgentRun::start(&app, "do it".to_string(), 42);
    assert!(run.is_first_run);
    assert_eq!(run.args(), ["-p", "do it"]);
    assert!(run.needs_detection(&Ok(true)));
    assert!(!run.needs_detection(&Err("x".to_string())));
    let last = run_agent(&mut app, &run, Ok(true), Some("id-1".to_string()));
    assert_eq!(last, DONE);
    assert!(matches!(app.run.status, RunStatus::Done));
    assert_eq!(app.conv.active_id.as_deref(), Some("id-1"));
    assert_eq!(app.conv.history.len(), 1);
    assert_eq!(app.conv.history[0].label, "do it");
    assert_eq!(app.conv.history[0].run_count, 1);
    assert_eq!(app.conv.history[0].started_at, 42);
}

#[test]
fn a_first_run_without_a_listing_makes_none() {
    let mut app = app();
    let run = AgentRun::start(&app, "do it".to_string(), 42);
    run_agent(&mut app, &run, Ok(false), None);
    assert!(app.conv.active_id.is_none());
    match app.run.status {
        RunStatus::Failed { reason } => assert_eq!(reason, "forge exited with non-zero status"),
        other => panic!("unexpected: {other:?}"),
    }
}

#[test]
fn a_run_that_fails_is_not_recorded() {
    let mut app = app();
    let run = AgentRun::start(&app, "do it".to_string(), 42);
    run_agent(&mut app, &run, Err("Timed out after 600 seconds".to_string()), Some("x".to_string()));
    assert!(app.conv.history.is_empty());
    match app.run.status {
        RunStatus::Failed { reason } => assert_eq!(reason, "Timed out after 600 seconds"),
        other => panic!("unexpected: {other:?}"),
    }
}

#[test]
fn later_runs_are_counted_for_the_active_conversation() {
    let mut conv = ConvState {
        active_id: Some("b".to_string()),
        history: vec![
            ConvEntry::new("a".to_string(), "A".to_string(), 1),
            ConvEntry::new("b".to_string(), String::new(), 2),
        ],
    };
    let run = run_of("first prompt", false);
    assert!(can_record(&conv, &run));
    update_conv_state(&mut conv, &run, None);
    assert_eq!(conv.history[1].run_count, 1);
    assert_eq!(conv.history[1].label, "first prompt");
    assert_eq!(conv.history[1].started_at, 1000);
    assert_eq!(conv.history[0].run_count, 0);
    let mut run = run_of("second prompt", false);
    run.started_at = 2000;
    update_conv_state(&mut conv, &run, None);
    assert_eq!(conv.history[1].run_count, 2);
    assert_eq!(conv.history[1].label, "first prompt");
    assert_eq!(conv.history[1].started_at, 1000);
}

#[test]
fn a_given_label_stays() {
    let mut conv = ConvState {
        active_id: Some("a".to_string()),
        history: vec![ConvEntry::new("a".to_string(), "mine".to_string(), 1)],
    };
    update_conv_state(&mut conv, &run_of("prompt", false), None);
    assert_eq!(conv.history[0].label, "mine");
}

#[test]
fn a_prompt_that_straddles_the_cut_ends_its_run() {
    let prompt = format!("{}ä", "x".repeat(59));
    let mut app = app();
    app.conv.history.push(ConvEntry::new("a".to_string(), String::new(), 1));
    app.conv.active_id = Some("a".to_string());
    app.run.status = RunStatus::Running;
    run_agent(&mut app, &run_of(&prompt, false), Ok(true), None);
    assert!(matches!(app.run.status, RunStatus::Done));
    assert_eq!(app.conv.history[0].run_count, 1);
    assert_eq!(app.conv.history[0].label, format!("{}…", "x".repeat(59)));
}

#[test]
fn runs_that_cannot_be_counted_are_known() {
    let mut conv = ConvState {
        active_id: Some("a".to_string()),
        history: vec![ConvEntry::new("a".to_string(), String::new(), 1)],
    };
    assert!(can_record(&conv, &run_of("p", false)));
    conv.history[0].run_count = u32::MAX;
    assert!(!can_record(&conv, &run_of("p", false)));
    assert!(can_record(&conv, &run_of("p", true)));
    conv.active_id = Some("unknown".to_string());
    assert!(can_record(&conv, &run_of("p", false)));
}

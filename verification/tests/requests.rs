use agent2web::config::{Config, DiffConfig, ForgeConfig, ServerConfig, SttConfig};
use agent2web::handlers::conversation::{
    get_conversation_list, list_args, new_args, post_conversation_new, post_conversation_resume,
    record_new_conversation, NewConvForm, ResumeConvForm,
};
use agent2web::handlers::health::get_health;
use agent2web::handlers::index::get_index;
use agent2web::handlers::run::{post_run, RunDecision, RunForm};
use agent2web::handlers::stream::{ends, get_stream, keeps, StreamStart};
use agent2web::process::CommandOutcome;
use agent2web::reply::Reply;
use agent2web::router::{build, Endpoint, Method};
use agent2web::state::{AppState, ConvEntry, RunStatus};

fn app(password: &str) -> AppState {
    let mut server = ServerConfig::default();
    server.password = password.to_string();
    server.project_dir = "/home/me/my-proj".to_string();
    AppState::new(Config {
        server,
        forge: ForgeConfig::default(),
        stt: SttConfig::default(),
        diff: DiffConfig::default(),
    })
}

fn exited(success: bool, stdout: &str, stderr: &str) -> CommandOutcome {
    CommandOutcome::Exited {
        success,
        stdout: stdout.as_bytes().to_vec(),
        stderr: stderr.as_bytes().to_vec(),
    }
}

fn request(prompt: &str, password: &str) -> RunForm {
    RunForm { prompt: prompt.to_string(), password: password.to_string() }
}

fn resume(id: &str, password: &str) -> ResumeConvForm {
    ResumeConvForm { id: id.to_string(), password: password.to_string() }
}

fn assert_page(reply: &Reply, want_status: u16, text: &str) {
    match reply {
        Reply::Html { status, body } => {
            assert_eq!(*status, want_status);
            assert!(body.contains(text), "{text:?} is not in {body}");
        }
        other => panic!("unexpected: {other:?}"),
    }
}

fn assert_home(reply: &Reply) {
    assert_eq!(reply.status(), 303);
    assert!(matches!(reply, Reply::Redirect { location } if location == "/"));
}

fn assert_run_refused(decision: RunDecision, status: u16, text: &str) {
    match decision {
        RunDecision::Refused { reply } => assert_page(&reply, status, text),
        other => panic!("unexpected: {other:?}"),
    }
}

#[test]
fn a_run_is_dispatched() {
    let mut app = app("");
    app.run.output_buf.push("old".to_string());
    match post_run(&mut app, request("  do it \n", ""), 77) {
        RunDecision::Dispatched { run, reply } => {
            assert_eq!(run.prompt, "do it");
            assert!(run.is_first_run);
            assert_eq!(run.started_at, 77);
            assert_home(&reply);
        }
        other => panic!("unexpected: {other:?}"),
    }
    assert!(app.run.status.is_running());
    assert!(app.run.output_buf.is_empty());
    assert_eq!(app.prompts_since_commit, ["do it"]);
}

#[test]
fn a_run_is_refused_in_order() {
    let mut app = app("pw");
    app.run.status = RunStatus::Running;
    app.run.output_buf.push("line".to_string());
    assert_run_refused(post_run(&mut app, request("", "x"), 1), 403, "Incorrect password.");
    assert_run_refused(post_run(&mut app, request(" \n", "pw"), 1), 400, "Prompt must not be empty.");
    assert_run_refused(
        post_run(&mut app, request("p", "pw"), 1),
        409,
        "A run is already in progress. Please wait for it to finish.",
    );
    assert_eq!(app.run.output_buf, ["line"]);
    assert!(app.prompts_since_commit.is_empty());
}

#[test]
fn one_run_at_a_time() {
    let mut app = app("");
    assert!(matches!(
        post_run(&mut app, request("a", ""), 1),
        RunDecision::Dispatched { .. }
    ));
    assert_run_refused(post_run(&mut app, request("b", ""), 2), 409, "already in progress");
    assert_eq!(app.prompts_since_commit, ["a"]);
}

#[test]
fn the_stream_ends_where_no_run_is_under_way() {
    let mut app = app("");
    assert!(matches!(get_stream(&app, 0), StreamStart::Ended { event } if event == "__DONE__"));
    app.run.status = RunStatus::Running;
    assert!(matches!(get_stream(&app, 0), StreamStart::Live { number: 1 }));
    app.run.status = RunStatus::Failed { reason: "x".to_string() };
    assert!(matches!(get_stream(&app, 1), StreamStart::Ended { .. }));
}

#[test]
fn the_stream_ends_with_the_run() {
    assert!(ends("__DONE__"));
    for line in ["", "__DONE__ ", "[stderr] __DONE__", "done"] {
        assert!(!ends(line), "{line:?}");
    }
}

#[test]
fn a_new_stream_takes_the_place_of_the_one_before() {
    let mut app = app("");
    app.run.status = RunStatus::Running;
    for latest in [0, 7, u64::MAX] {
        match get_stream(&app, latest) {
            StreamStart::Live { number } => {
                assert!(keeps(number, number));
                assert!(!keeps(latest, number));
            }
            other => panic!("unexpected: {other:?}"),
        }
    }
}

#[test]
fn the_server_is_alive() {
    match get_health() {
        Reply::Text { status, body } => {
            assert_eq!(status, 200);
            assert_eq!(body, "OK\n");
        }
        other => panic!("unexpected: {other:?}"),
    }
}

#[test]
fn the_main_page_shows_the_state() {
    let mut server = app("");
    let page = get_index(&server);
    assert_page(&page, 200, "project: my-proj");
    assert_page(&page, 200, "No prompts accumulated yet.");
    if let Reply::Html { body, .. } = &page {
        assert!(!body.contains("type=\"password\""));
    }
    server.prompts_since_commit.push("p".to_string());
    assert_page(&get_index(&server), 200, "1 prompt will be appended to the commit body.");
    server.run.status = RunStatus::Running;
    assert_page(&get_index(&server), 200, "data-sse-running");
    assert_page(&get_index(&app("pw")), 200, "type=\"password\"");
}

#[test]
fn a_new_conversation_becomes_active() {
    let mut app = app("pw");
    let form = NewConvForm { label: "  my label ".to_string(), password: "pw".to_string() };
    assert!(post_conversation_new(&app, &form).is_none());
    assert_eq!(new_args(), ["conversation", "new"]);
    let reply = record_new_conversation(&mut app, &form, &exited(true, "id-9 rest\n", ""), 500);
    assert_home(&reply);
    assert_eq!(app.conv.active_id.as_deref(), Some("id-9"));
    assert_eq!(app.conv.history.len(), 1);
    assert_eq!(app.conv.history[0].label, "my label");
    assert_eq!(app.conv.history[0].run_count, 0);
    assert_eq!(app.conv.history[0].started_at, 500);
}

#[test]
fn a_new_conversation_is_refused() {
    let mut app = app("pw");
    app.run.status = RunStatus::Running;
    let wrong = NewConvForm { label: String::new(), password: "x".to_string() };
    assert_page(&post_conversation_new(&app, &wrong).unwrap(), 403, "Incorrect password.");
    let right = NewConvForm { label: String::new(), password: "pw".to_string() };
    assert_page(
        &post_conversation_new(&app, &right).unwrap(),
        409,
        "Cannot start a new conversation while a run is in progress.",
    );
    app.run.status = RunStatus::Idle;
    let reply = record_new_conversation(&mut app, &right, &exited(false, "", "no"), 1);
    assert_page(
        &reply,
        500,
        "Failed to create new conversation: forge conversation new failed: no",
    );
    assert!(app.conv.history.is_empty());
    assert!(app.conv.active_id.is_none());
}

#[test]
fn a_known_conversation_can_be_resumed() {
    let mut app = app("pw");
    app.conv.history.push(ConvEntry::new("old".to_string(), String::new(), 1));
    app.conv.history.push(ConvEntry::new("new".to_string(), String::new(), 2));
    app.conv.active_id = Some("new".to_string());
    assert_home(&post_conversation_resume(&mut app, resume(" old\n", "pw")));
    assert_eq!(app.conv.active_id.as_deref(), Some("old"));
    assert_eq!(app.conv.history.len(), 2);
    assert_eq!(list_args(), ["conversation", "list"]);
}

#[test]
fn an_unknown_conversation_cannot_be_resumed() {
    let mut app = app("pw");
    app.conv.history.push(ConvEntry::new("old".to_string(), String::new(), 1));
    let reply = post_conversation_resume(&mut app, resume("old", "x"));
    assert_page(&reply, 403, "Incorrect password.");
    let reply = post_conversation_resume(&mut app, resume("other", "pw"));
    assert_page(&reply, 400, "Conversation ID not found in history.");
    app.run.status = RunStatus::Running;
    let reply = post_conversation_resume(&mut app, resume("old", "pw"));
    assert_page(&reply, 409, "Cannot switch conversations while a run is in progress.");
    assert!(app.conv.active_id.is_none());
}

#[test]
fn a_conversation_that_was_left_can_be_resumed() {
    let mut app = app("");
    let form = NewConvForm { label: String::new(), password: String::new() };
    record_new_conversation(&mut app, &form, &exited(true, "a", ""), 1);
    record_new_conversation(&mut app, &form, &exited(true, "b", ""), 2);
    assert_eq!(app.conv.active_id.as_deref(), Some("b"));
    assert_home(&post_conversation_resume(&mut app, resume("a", "")));
    assert_eq!(app.conv.active_entry().unwrap().id, "a");
}

#[test]
fn the_list_shows_the_conversations() {
    let mut app = app("");
    assert_eq!(get_conversation_list(&app).status(), 200);
    app.conv.history.push(ConvEntry::new("0123456789".to_string(), "<l>".to_string(), 7));
    app.conv.active_id = Some("0123456789".to_string());
    let list = get_conversation_list(&app);
    assert_page(&list, 200, "&lt;l&gt;");
    assert_page(&list, 200, "◀ active");
    assert_page(&list, 200, "/conversation/resume");
}

#[test]
fn every_request_has_its_route() {
    let routes = build();
    let find = |method: Method, path: &str| {
        routes.iter().find(|r| r.method == method && r.path == path).map(|r| r.endpoint)
    };
    assert_eq!(routes.len(), 13);
    assert_eq!(find(Method::Get, "/"), Some(Endpoint::Index));
    assert_eq!(find(Method::Get, "/health"), Some(Endpoint::Health));
    assert_eq!(find(Method::Post, "/run"), Some(Endpoint::Run));
    assert_eq!(find(Method::Get, "/stream"), Some(Endpoint::Stream));
    assert_eq!(find(Method::Get, "/diff"), Some(Endpoint::Diff));
    assert_eq!(find(Method::Get, "/diff/commit"), Some(Endpoint::DiffCommit));
    assert_eq!(find(Method::Get, "/diff/range"), Some(Endpoint::DiffRange));
    assert_eq!(find(Method::Get, "/commit"), Some(Endpoint::CommitPage));
    assert_eq!(find(Method::Post, "/commit"), Some(Endpoint::Commit));
    assert_eq!(find(Method::Post, "/conversation/new"), Some(Endpoint::ConversationNew));
    assert_eq!(find(Method::Get, "/conversation/list"), Some(Endpoint::ConversationList));
    assert_eq!(find(Method::Post, "/conversation/resume"), Some(Endpoint::ConversationResume));
    assert_eq!(find(Method::Post, "/audio"), Some(Endpoint::Audio));
    assert_eq!(find(Method::Get, "/run"), None);
}

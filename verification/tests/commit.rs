use agent2web::config::{Config, DiffConfig, ForgeConfig, ServerConfig, SttConfig};
use agent2web::handlers::commit::{
    add_args, advance, build_commit_message, can_parse_porcelain, commit_args, get_commit,
    list_changed_files, log_args, par_args, parse_porcelain, post_commit, reflow_with_par,
    refresh_commits, status_args, ChangedFile, CommitForm, CommitStep, Field, ListFailure,
};
use agent2web::process::CommandOutcome;
use agent2web::reply::Reply;
use agent2web::state::{AppState, RunStatus};

fn app(password: &str) -> AppState {
    let mut server = ServerConfig::default();
    server.password = password.to_string();
    AppState::new(Config {
        server,
        forge: ForgeConfig::default(),
        stt: SttConfig::default(),
        diff: DiffConfig::default(),
    })
}

fn form(message: &str, password: &str, files: &[&str], include_prompts: &str) -> CommitForm {
    CommitForm {
        message: message.to_string(),
        password: password.to_string(),
        files: files.iter().map(|f| f.to_string()).collect(),
        include_prompts: include_prompts.to_string(),
    }
}

fn exited(success: bool, stdout: &str, stderr: &str) -> CommandOutcome {
    CommandOutcome::Exited {
        success,
        stdout: stdout.as_bytes().to_vec(),
        stderr: stderr.as_bytes().to_vec(),
    }
}

fn not_started() -> CommandOutcome {
    CommandOutcome::NotStarted { error: "no such file".to_string() }
}

fn lost() -> CommandOutcome {
    CommandOutcome::Lost { error: "broken pipe".to_string() }
}

fn field(name: &str, value: &str) -> Field {
    Field { name: name.to_string(), value: value.to_string() }
}

fn pairs(files: &[ChangedFile]) -> Vec<(&str, &str)> {
    files.iter().map(|f| (f.status.as_str(), f.path.as_str())).collect()
}

fn assert_refused(step: CommitStep, want_status: u16, message: &str) {
    match step {
        CommitStep::Finished { reply: Reply::Html { status, body } } => {
            assert_eq!(status, want_status);
            assert!(body.contains(message), "{message:?} is not in {body}");
        }
        other => panic!("unexpected: {other:?}"),
    }
}

const LISTING: &str = " M src/main.rs\n?? scratch.txt\nA  src/new file.rs\n";

#[test]
fn the_porcelain_format_is_read() {
    assert!(can_parse_porcelain(LISTING));
    assert_eq!(
        pairs(&parse_porcelain(LISTING)),
        [(" M", "src/main.rs"), ("??", "scratch.txt"), ("A ", "src/new file.rs")]
    );
    assert_eq!(pairs(&parse_porcelain("")), []);
    assert_eq!(pairs(&parse_porcelain(" M \nxyz\n M a\r\n")), [(" M", "a")]);
}

#[test]
fn renamed_files_have_their_new_path() {
    assert_eq!(pairs(&parse_porcelain("R  old -> new\n")), [("R ", "new")]);
    assert_eq!(pairs(&parse_porcelain("C  src/a.rs -> src/b.rs\n")), [("C ", "src/b.rs")]);
    assert_eq!(pairs(&parse_porcelain(" R old -> \"new name\"\n")), [(" R", "new name")]);
    assert_eq!(pairs(&parse_porcelain("RM \"a -> \\\"b\" -> \"c -> d\"\n")), [("RM", "c -> d")]);
    assert_eq!(pairs(&parse_porcelain(" M \"a -> b\"\n")), [(" M", "a -> b")]);
    assert_eq!(pairs(&parse_porcelain("R  alone\n")), [("R ", "alone")]);
}

#[test]
fn quoted_paths_are_unquoted() {
    assert_eq!(pairs(&parse_porcelain("?? \"new file.rs\"\n")), [("??", "new file.rs")]);
    assert_eq!(pairs(&parse_porcelain("?? \"\\303\\244/\\303\\266.rs\"\n")), [("??", "ä/ö.rs")]);
    assert_eq!(
        pairs(&parse_porcelain("?? \"q\\\"b\\\\t\\tn\\nr\\ra\\ab\\bv\\vf\\fz\"\n")),
        [("??", "q\"b\\t\tn\nr\ra\u{7}b\u{8}v\u{b}f\u{c}z")]
    );
    assert_eq!(pairs(&parse_porcelain("?? \"\\177\\001\"\n")), [("??", "\u{7f}\u{1}")]);
    assert_eq!(pairs(&parse_porcelain("?? \"ä ö\"\n")), [("??", "ä ö")]);
    assert_eq!(pairs(&parse_porcelain("?? \"\\377\"\n")), [("??", "\u{fffd}")]);
    assert_eq!(pairs(&parse_porcelain("?? \"\\x\\40\"\n")), [("??", "\\x\\40")]);
    assert_eq!(pairs(&parse_porcelain("?? a\\b\n")), [("??", "a\\b")]);
}

#[test]
fn paths_may_hold_any_characters() {
    assert_eq!(pairs(&parse_porcelain(" M ä/ö.rs\n")), [(" M", "ä/ö.rs")]);
    assert_eq!(pairs(&parse_porcelain(" M ü")), [(" M", "ü")]);
}

#[test]
fn lines_that_straddle_are_found() {
    assert!(!can_parse_porcelain("xä path\n"));
    assert!(!can_parse_porcelain("xx€path\n"));
    assert!(can_parse_porcelain("ä path\n"));
    assert!(matches!(
        list_changed_files(&exited(true, "xä path\n", "")),
        Err(ListFailure::Malformed)
    ));
    assert!(get_commit(&app(""), &exited(true, "xä path\n", "")).is_none());
    let step = post_commit(&app(""), form("s", "", &["a"], ""));
    assert!(matches!(
        advance(&mut app(""), step, &exited(true, "xä path\n", "")),
        CommitStep::Malformed
    ));
}

#[test]
fn a_failed_listing_says_why() {
    match list_changed_files(&not_started()) {
        Err(ListFailure::Failed { message }) => {
            assert_eq!(message, "Failed to spawn git: no such file")
        }
        other => panic!("unexpected: {other:?}"),
    }
    match list_changed_files(&exited(false, "", " fatal \n")) {
        Err(ListFailure::Failed { message }) => {
            assert_eq!(message, "git status --porcelain failed: fatal")
        }
        other => panic!("unexpected: {other:?}"),
    }
}

#[test]
fn commands_have_their_arguments() {
    assert_eq!(status_args(), ["status", "--porcelain"]);
    assert_eq!(par_args(), ["72"]);
    assert_eq!(commit_args(), ["commit", "-F", "-"]);
    assert_eq!(
        add_args(&vec!["a".to_string(), "-b".to_string()]),
        ["add", "--", "a", "-b"]
    );
}

#[test]
fn the_commit_page_lists_files_and_prompts() {
    let mut app = app("pw");
    app.prompts_since_commit.push("do <this>".to_string());
    match get_commit(&app, &exited(true, LISTING, "")) {
        Some(Reply::Html { status, body }) => {
            assert_eq!(status, 200);
            assert!(body.contains("src/main.rs"));
            assert!(body.contains("scratch.txt"));
            assert!(body.contains("do &lt;this&gt;"));
            assert!(!body.contains("do <this>"));
            assert!(body.contains("type=\"password\""));
        }
        other => panic!("unexpected: {other:?}"),
    }
    match get_commit(&app, &not_started()) {
        Some(Reply::Html { status, body }) => {
            assert_eq!(status, 500);
            assert!(body.contains("git status failed: Failed to spawn git: no such file"));
        }
        other => panic!("unexpected: {other:?}"),
    }
}

#[test]
fn the_form_is_read_from_its_fields() {
    let form = CommitForm::from_fields(vec![
        field("files[]", "a"),
        field("message", "subject"),
        field("files[]", "b c"),
        field("password", "pw"),
        field("include_prompts", "on"),
        field("other", "x"),
        field("files", "d"),
    ])
    .unwrap();
    assert_eq!(form.message, "subject");
    assert_eq!(form.password, "pw");
    assert_eq!(form.files, ["a", "b c", "d"]);
    assert_eq!(form.include_prompts, "on");
    let form = CommitForm::from_fields(vec![field("message", "")]).unwrap();
    assert_eq!(form.message, "");
    assert_eq!(form.password, "");
    assert!(form.files.is_empty());
    assert_eq!(form.include_prompts, "");
    assert!(CommitForm::from_fields(vec![field("password", "x")]).is_none());
    for name in ["message", "password", "include_prompts"] {
        let twice = vec![field("message", "m"), field(name, "a"), field(name, "b")];
        assert!(CommitForm::from_fields(twice).is_none(), "{name}");
    }
}

#[test]
fn a_commit_is_refused_in_order() {
    let mut server = app("pw");
    server.run.status = RunStatus::Running;
    assert_refused(post_commit(&server, form(" ", "no", &[], "")), 403, "Incorrect password.");
    assert_refused(
        post_commit(&server, form(" \t", "pw", &[], "")),
        400,
        "Commit subject must not be empty.",
    );
    assert_refused(
        post_commit(&server, form("s", "pw", &[], "")),
        409,
        "Cannot commit while an agent run is in progress.",
    );
    server.run.status = RunStatus::Done;
    assert_refused(
        post_commit(&server, form("s", "pw", &[], "")),
        400,
        "No files selected. Please select at least one file to commit.",
    );
    assert!(matches!(
        post_commit(&server, form("s", "pw", &["a"], "")),
        CommitStep::Listing { .. }
    ));
}

#[test]
fn only_listed_files_are_committed() {
    let mut server = app("");
    let step = post_commit(&server, form("s", "", &["src/main.rs", "../x", "../y"], ""));
    assert_refused(
        advance(&mut server, step, &exited(true, LISTING, "")),
        400,
        "Invalid or unknown file path: ../x",
    );
    let step = post_commit(&server, form("s", "", &["src/main.rs"], ""));
    assert_refused(
        advance(&mut server, step, &exited(false, "", "boom")),
        500,
        "git status failed: git status --porcelain failed: boom",
    );
}

#[test]
fn a_commit_with_prompts_goes_all_the_way() {
    let mut server = app("");
    server.prompts_since_commit =
        vec!["refactor the parser to handle edge cases".to_string(), "add unit tests".to_string()];
    let step = post_commit(&server, form(" the subject ", "", &["src/main.rs", "scratch.txt"], "on"));
    let step = advance(&mut server, step, &exited(true, LISTING, ""));
    match &step {
        CommitStep::Reflowing { subject, files, body } => {
            assert_eq!(subject, "the subject");
            assert_eq!(files, &["src/main.rs", "scratch.txt"]);
            assert_eq!(body, "refactor the parser to handle edge cases\n\nadd unit tests");
        }
        other => panic!("unexpected: {other:?}"),
    }
    let step = advance(&mut server, step, &exited(true, "wrapped\n", ""));
    match &step {
        CommitStep::Staging { files, message } => {
            assert_eq!(files, &["src/main.rs", "scratch.txt"]);
            assert_eq!(message, "the subject\n\nPrompts since last commit:\n\nwrapped\n");
        }
        other => panic!("unexpected: {other:?}"),
    }
    let step = advance(&mut server, step, &exited(true, "", ""));
    assert!(matches!(&step, CommitStep::Committing { message }
        if message == "the subject\n\nPrompts since last commit:\n\nwrapped\n"));
    assert_eq!(server.prompts_since_commit.len(), 2);
    let step = advance(&mut server, step, &exited(true, "[main abc]", ""));
    assert!(matches!(step, CommitStep::Refreshing));
    assert!(server.prompts_since_commit.is_empty());
    assert_eq!(log_args(&server), ["log", "--format=%H %s", "-n", "20"]);
    let step = advance(&mut server, step, &exited(true, "abc the subject\n", ""));
    assert_eq!(server.commit_history.len(), 1);
    assert_eq!(server.commit_history[0].sha, "abc");
    assert_eq!(server.commit_history[0].subject, "the subject");
    match &step {
        CommitStep::Finished { reply } => {
            assert_eq!(reply.status(), 303);
            assert!(matches!(reply, Reply::Redirect { location } if location == "/"));
        }
        other => panic!("unexpected: {other:?}"),
    }
    assert!(server.prompts_since_commit.is_empty());
    let step = advance(&mut server, step, &not_started());
    assert!(matches!(step, CommitStep::Finished { reply: Reply::Redirect { .. } }));
}

#[test]
fn a_commit_without_prompts_has_the_subject_alone() {
    let mut server = app("");
    let step = post_commit(&server, form("s", "", &["scratch.txt"], "on"));
    let step = advance(&mut server, step, &exited(true, LISTING, ""));
    assert!(matches!(&step, CommitStep::Staging { message, .. } if message == "s"));
    server.prompts_since_commit = vec!["p".to_string()];
    let step = post_commit(&server, form("s", "", &["scratch.txt"], ""));
    let step = advance(&mut server, step, &exited(true, LISTING, ""));
    assert!(matches!(&step, CommitStep::Staging { message, .. } if message == "s"));
}

#[test]
fn par_is_optional() {
    let body = || "raw body".to_string();
    assert_eq!(reflow_with_par(body(), &not_started()), "raw body");
    assert_eq!(reflow_with_par(body(), &lost()), "raw body");
    assert_eq!(reflow_with_par(body(), &exited(false, "x", "")), "raw body");
    assert_eq!(reflow_with_par(body(), &exited(true, "", "")), "raw body");
    assert_eq!(reflow_with_par(body(), &exited(true, "x", "")), "x");
    assert_eq!(
        build_commit_message("refactor the parser", "a\n\nb"),
        "refactor the parser\n\nPrompts since last commit:\n\na\n\nb"
    );
}

#[test]
fn staging_that_fails_says_why() {
    let step = || CommitStep::Staging { files: vec!["a".to_string()], message: "m".to_string() };
    let mut server = app("");
    assert_refused(advance(&mut server, step(), &not_started()), 500, "git add failed: no such file");
    assert_refused(advance(&mut server, step(), &lost()), 500, "git add failed: broken pipe");
    assert_refused(
        advance(&mut server, step(), &exited(false, "", " bad \n")),
        500,
        "git add failed: bad<",
    );
}

#[test]
fn a_failed_commit_keeps_the_prompts() {
    let step = || CommitStep::Committing { message: "m".to_string() };
    let mut server = app("");
    server.prompts_since_commit = vec!["p".to_string()];
    assert_refused(
        advance(&mut server, step(), &not_started()),
        500,
        "git commit failed to start: no such file",
    );
    assert_refused(advance(&mut server, step(), &lost()), 500, "git commit failed: broken pipe");
    assert_refused(
        advance(&mut server, step(), &exited(false, " nothing to commit \n", " hint\n")),
        500,
        "git commit failed: nothing to commit\nhint<",
    );
    assert_refused(
        advance(&mut server, step(), &exited(false, "", "only this\n")),
        500,
        "git commit failed: only this<",
    );
    assert_eq!(server.prompts_since_commit, ["p"]);
}

#[test]
fn the_list_of_commits_stays_where_git_log_fails() {
    let mut server = app("");
    assert!(refresh_commits(&mut server, &exited(true, "aa one\nbb two\n", "")).is_none());
    assert_eq!(server.commit_history.len(), 2);
    assert_eq!(
        refresh_commits(&mut server, &exited(false, "", "no repo\n")).as_deref(),
        Some("git log failed: no repo")
    );
    assert_eq!(server.commit_history[0].subject, "one");
    let step = advance(&mut server, CommitStep::Refreshing, &not_started());
    assert!(matches!(step, CommitStep::Finished { reply: Reply::Redirect { .. } }));
    assert_eq!(server.commit_history.len(), 2);
}

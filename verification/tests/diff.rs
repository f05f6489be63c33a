use agent2web::config::{Config, DiffConfig, ForgeConfig, ServerConfig, SttConfig};
use agent2web::diff::{
    diff2html_args, finish_diff, get_recent_commits, parse_recent_commits,
    recent_commits_args, render_last_commit, render_range, render_single_commit,
    render_working_tree, run_diff, validate_revision, DiffResult, DiffStep,
};
use agent2web::handlers::diff::{
    diff_reply, get_diff, get_diff_commit, get_diff_range, DiffCommitQuery, DiffRangeQuery,
};
use agent2web::process::CommandOutcome;
use agent2web::reply::Reply;
use agent2web::state::AppState;

fn app() -> AppState {
    AppState::new(Config {
        server: ServerConfig::default(),
        forge: ForgeConfig::default(),
        stt: SttConfig::default(),
        diff: DiffConfig::default(),
    })
}

fn exited(success: bool, stdout: &str, stderr: &str) -> CommandOutcome {
    CommandOutcome::Exited {
        success,
        stdout: stdout.as_bytes().to_vec(),
        stderr: stderr.as_bytes().to_vec(),
    }
}

fn not_started() -> CommandOutcome {
    CommandOutcome::NotStarted { error: "none".to_string() }
}

fn lost() -> CommandOutcome {
    CommandOutcome::Lost { error: "gone".to_string() }
}

#[test]
fn revisions_are_checked() {
    for rev in ["HEAD", "HEAD~1", "main", "v1.0", "a1b2c3", "feature/x_y", "HEAD@{1}", "HEAD^", "größe"] {
        assert!(validate_revision(rev).is_ok(), "{rev}");
    }
    assert_eq!(validate_revision("").unwrap_err(), "Revision must not be empty");
    assert_eq!(validate_revision("--output=x").unwrap_err(), "Revision must not start with '-'");
    assert_eq!(
        validate_revision("a b").unwrap_err(),
        "Revision contains disallowed characters: a b"
    );
    assert_eq!(
        validate_revision("HEAD;ls").unwrap_err(),
        "Revision contains disallowed characters: HEAD;ls"
    );
    assert!(validate_revision("a→b").is_err());
}

#[test]
fn git_is_asked_for_the_diff() {
    assert_eq!(render_working_tree(5), ["diff", "--stat", "-p", "-U5", "HEAD"]);
    assert_eq!(render_last_commit(3), ["diff", "--stat", "-p", "-U3", "HEAD~1..HEAD"]);
    assert_eq!(
        render_single_commit("abc", 5).unwrap(),
        ["diff", "--stat", "-p", "-U5", "abc~1..abc"]
    );
    assert_eq!(
        render_single_commit("", 0).unwrap(),
        ["diff", "--stat", "-p", "-U0", "HEAD~1..HEAD"]
    );
    assert!(render_single_commit("-x", 5).is_err());
    assert_eq!(
        render_range("a", "b", 12).unwrap(),
        ["diff", "--stat", "-p", "-U12", "a..b"]
    );
    assert_eq!(render_range("", "b", 5).unwrap_err(), "Revision must not be empty");
    assert_eq!(render_range("a", "-b", 5).unwrap_err(), "Revision must not start with '-'");
}

#[test]
fn a_patch_is_rendered() {
    assert!(matches!(run_diff(exited(true, "patch", "")), DiffStep::Render { patch } if patch == b"patch"));
    assert!(matches!(run_diff(exited(true, "", "")), DiffStep::Finished { result: Ok(d) }
        if d.is_empty && d.html.is_empty()));
    assert!(matches!(run_diff(exited(false, "", " bad\n")), DiffStep::Finished { result: Err(e) }
        if e == "git diff failed: bad"));
    assert!(matches!(run_diff(not_started()), DiffStep::Finished { result: Err(e) }
        if e == "Failed to spawn git — is git installed and is project_dir valid?"));
    assert_eq!(
        diff2html_args(),
        [
            "--style",
            "line",
            "--syntax-highlight",
            "--file-list-toggle",
            "-i",
            "stdin",
            "-o",
            "stdout"
        ]
    );
}

#[test]
fn the_page_comes_from_diff2html() {
    let d = finish_diff(&exited(true, "<html>x</html>", "")).unwrap();
    assert_eq!(d.html, "<html>x</html>");
    assert!(!d.is_empty);
    let d = finish_diff(&exited(true, " \n", "")).unwrap();
    assert_eq!(d.html, " \n");
    assert!(!d.is_empty);
    assert!(!finish_diff(&exited(false, "", "crashed")).unwrap().is_empty);
    assert!(finish_diff(&not_started()).unwrap_err().starts_with("Failed to spawn diff2html"));
    assert_eq!(finish_diff(&lost()).unwrap_err(), "Failed to wait for diff2html to finish");
}

#[test]
fn recent_commits_are_read() {
    assert_eq!(recent_commits_args(20), ["log", "--format=%H %s", "-n", "20"]);
    let log = "0123456789ab the subject\nfedcba9876543210\n0000 third\n";
    let commits = parse_recent_commits(log, 2);
    assert_eq!(commits.len(), 2);
    assert_eq!(commits[0].sha, "0123456789ab");
    assert_eq!(commits[0].short_sha, "01234567");
    assert_eq!(commits[0].subject, "the subject");
    assert_eq!(commits[1].subject, "");
    assert_eq!(get_recent_commits(&exited(true, log, ""), 9).unwrap().len(), 3);
    assert_eq!(
        get_recent_commits(&exited(false, "", "no repo\n"), 9).unwrap_err(),
        "git log failed: no repo"
    );
    assert_eq!(get_recent_commits(&not_started(), 9).unwrap_err(), "Failed to spawn git: none");
}

#[test]
fn queries_have_defaults() {
    let app = app();
    assert_eq!(get_diff(&app).args, ["diff", "--stat", "-p", "-U5", "HEAD"]);
    let request = get_diff_commit(&app, &DiffCommitQuery { rev: None }).unwrap();
    assert_eq!(request.args[4], "HEAD~1..HEAD");
    let request = get_diff_range(&app, &DiffRangeQuery { from: None, to: None }).unwrap();
    assert_eq!(request.args[4], "HEAD~1..HEAD");
    let query = DiffRangeQuery { from: Some("a".to_string()), to: Some("b".to_string()) };
    assert_eq!(get_diff_range(&app, &query).unwrap().args[4], "a..b");
    match get_diff_commit(&app, &DiffCommitQuery { rev: Some("-x".to_string()) }) {
        Err(Reply::Html { status, body }) => {
            assert_eq!(status, 500);
            assert!(body.contains("Revision must not start with &#39;-&#39;"));
        }
        other => panic!("unexpected: {other:?}"),
    }
}

#[test]
fn diffs_are_answered() {
    let request = get_diff(&app());
    let page = DiffResult { html: "<p>d</p>".to_string(), is_empty: false };
    match diff_reply(&request, Ok(page)) {
        Reply::Html { status, body } => assert_eq!((status, body.as_str()), (200, "<p>d</p>")),
        other => panic!("unexpected: {other:?}"),
    }
    let empty = DiffResult { html: String::new(), is_empty: true };
    match diff_reply(&request, Ok(empty)) {
        Reply::Html { status, body } => {
            assert_eq!(status, 200);
            assert!(body.contains("No uncommitted changes in the working tree."));
        }
        other => panic!("unexpected: {other:?}"),
    }
    assert_eq!(diff_reply(&request, Err("bad".to_string())).status(), 500);
}

#[test]
fn letters_and_digits_are_those_of_unicode() {
    for c in '\0'..=char::MAX {
        let allowed = c.is_alphanumeric() || ".-/_~^@{}".contains(c);
        assert_eq!(validate_revision(&format!("x{c}")).is_ok(), allowed, "{:x}", c as u32);
    }
}

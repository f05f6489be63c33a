use agent2web::handlers::commit::ChangedFile;
use agent2web::state::{ConvEntry, ConvState, RunState, RunStatus};
use agent2web::templates::{
    html_escape, render_commit_page, render_conv_bar, render_conv_list, render_error, render_index,
    render_no_diff, render_output_section, render_run_status_badge, truncate,
};

fn skeleton(page: &str) -> String {
    page.chars().filter(|c| "<>\"'".contains(*c)).collect()
}

#[test]
fn markup_is_escaped() {
    assert_eq!(html_escape("a<b>&\"c\"'d'"), "a&lt;b&gt;&amp;&quot;c&quot;&#39;d&#39;");
    assert_eq!(html_escape(""), "");
    assert_eq!(html_escape("&amp;"), "&amp;amp;");
}

#[test]
fn long_texts_are_shortened() {
    assert_eq!(truncate("hello", 5), "hello");
    assert_eq!(truncate("hello!", 5), "hello…");
    assert_eq!(truncate("äöüß", 2), "äö…");
    assert_eq!(truncate("x", 0), "…");
}

#[test]
fn errors_are_shown_escaped() {
    let page = render_error(404, "<script>");
    assert!(page.starts_with("<!DOCTYPE html>"));
    assert!(page.contains("Error 404"));
    assert!(page.contains("&lt;script&gt;"));
    assert_eq!(skeleton(&page), skeleton(&render_error(404, "plain")));
}

#[test]
fn an_empty_diff_is_a_notice() {
    let page = render_no_diff("nothing & none");
    assert!(page.contains("nothing &amp; none"));
    assert!(page.contains("alert-info"));
}

#[test]
fn phases_have_badges() {
    assert!(render_run_status_badge(&RunStatus::Idle).contains("○ Idle"));
    assert!(render_run_status_badge(&RunStatus::Running).contains("● Running"));
    assert!(render_run_status_badge(&RunStatus::Done).contains("✔ Done"));
    let failed = RunStatus::Failed { reason: "r".to_string() };
    assert!(render_run_status_badge(&failed).contains("✖ Failed"));
}

#[test]
fn output_is_shown_line_by_line() {
    let mut run = RunState::default();
    run.output_buf = vec!["<b>".to_string(), "[stderr] e".to_string()];
    let section = render_output_section(&run);
    assert!(section.contains("<span class=\"output-line\">&lt;b&gt;</span>"));
    assert!(section.contains("<span class=\"output-line stderr\">[stderr] e</span>"));
    let mut other = RunState::default();
    other.output_buf = vec!["x".to_string(), "y".to_string()];
    assert_eq!(skeleton(&section), skeleton(&render_output_section(&other)));
    run.status = RunStatus::Failed { reason: "<why>".to_string() };
    assert!(render_output_section(&run).contains("&lt;why&gt;"));
}

#[test]
fn the_bar_shows_the_active_conversation() {
    let mut conv = ConvState::default();
    assert!(render_conv_bar(&conv)
        .contains("No active conversation — next run will start a new one."));
    conv.history.push(ConvEntry::new("0123456789".to_string(), "l".to_string(), 1));
    conv.active_id = Some("0123456789".to_string());
    let bar = render_conv_bar(&conv);
    assert!(bar.contains("01234567"));
    assert!(!bar.contains("012345678"));
    assert!(bar.contains("0 runs"));
    conv.history[0].run_count = 1;
    assert!(render_conv_bar(&conv).contains("1 run"));
}

#[test]
fn the_list_shows_the_latest_first() {
    let mut conv = ConvState::default();
    let empty = render_conv_list(&conv);
    assert!(!empty.contains("/conversation/resume"));
    conv.history.push(ConvEntry::new("aaa".to_string(), String::new(), 1));
    conv.history.push(ConvEntry::new("bbb".to_string(), "L".to_string(), 2));
    let list = render_conv_list(&conv);
    assert!(list.find("bbb").unwrap() < list.find("aaa").unwrap());
    assert!(list.contains("(no label)"));
}

#[test]
fn controls_rest_during_a_run() {
    let mut run = RunState::default();
    let conv = ConvState::default();
    let idle = render_index(&run, &conv, "/srv/p", false, 0);
    run.status = RunStatus::Running;
    let busy = render_index(&run, &conv, "/srv/p", false, 0);
    assert!(busy.matches("disabled").count() > idle.matches("disabled").count());
    assert!(idle.contains("uploading(true)"));
    assert!(idle.contains("href=\"/diff\""));
    assert!(idle.contains("href=\"/commit\""));
    assert!(render_index(&run, &conv, "/", false, 2).contains("2 prompts will be appended"));
}

#[test]
fn a_clean_tree_has_nothing_to_commit() {
    let none: Vec<ChangedFile> = Vec::new();
    let page = render_commit_page(&none, &Vec::new(), false);
    assert!(!page.contains("Commit Selected Files"));
    let files = vec![ChangedFile { status: " M".to_string(), path: "a\"b".to_string() }];
    let page = render_commit_page(&files, &vec!["p".to_string()], true);
    assert!(page.contains("Commit Selected Files"));
    assert!(page.contains("a&quot;b"));
    assert!(page.contains("files[]"));
}

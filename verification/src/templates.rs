//! The pages, rendered on the server.
//!
//! Every page has a spec function of the same shape as its text: fixed markup, and
//! between it the values, escaped where they are text.

use vstd::prelude::*;
use vstd::string::*;

use crate::assets::{APP_JS, STYLE_CSS};
use crate::handlers::commit;
use crate::handlers::commit::ChangedFile;
use crate::html;
pub use crate::html::{html_escape, truncate};
use crate::path;
use crate::path::file_name;
use crate::state;
use crate::state::{ConvEntry, ConvEntryView, ConvState, ConvView, RunState, RunStatus, RunStatusView, RunView};
use crate::text;
use crate::text::{decimal, join, starts_with};

pub mod inert;
pub mod markup;

verus! {

/// The HTMX library.
pub const HTMX_CDN: &'static str = "https://unpkg.com/htmx.org@2.0.4/dist/htmx.min.js";

// ── Parts of pages ──────────────────────────────────────────────────────────

/// The beginning of a page with this title, to the end of its style sheet.
pub open spec fn page_head(title: Seq<char>) -> Seq<char> {
    markup::DOC_OPEN@ + title + markup::STYLE_OPEN@ + STYLE_CSS@ + markup::STYLE_CLOSE@
}

fn render_head(title: &str) -> (r: String)
    ensures
        r@ == page_head(title@),
{
    markup::DOC_OPEN.to_owned().concat(title).concat(markup::STYLE_OPEN).concat(STYLE_CSS).concat(
        markup::STYLE_CLOSE,
    )
}

/// A number of runs, in words.
pub open spec fn runs_text(n: nat) -> Seq<char> {
    text::digits(n) + if n == 1 {
        " run"@
    } else {
        " runs"@
    }
}

fn render_runs(n: u32) -> (r: String)
    ensures
        r@ == runs_text(n as nat),
{
    decimal(n as u64).concat(
        if n == 1 {
            " run"
        } else {
            " runs"
        },
    )
}

/// The password field, on servers that ask for a password.
pub open spec fn password_field(enabled: bool) -> Seq<char> {
    if enabled {
        markup::PASSWORD_FIELD@
    } else {
        ""@
    }
}

fn render_password_field(enabled: bool) -> (r: &'static str)
    ensures
        r@ == password_field(enabled),
{
    if enabled {
        markup::PASSWORD_FIELD
    } else {
        ""
    }
}

// ── The conversation bar ────────────────────────────────────────────────────

/// The active entry of a view, if there is one.
pub open spec fn active_of(conv: ConvView) -> Option<ConvEntryView> {
    if conv.has_active() {
        Some(conv.history[choose|i: int| conv.is_active(i)])
    } else {
        None
    }
}

/// The badge of the active conversation: its shortened id, its runs and its label.
pub open spec fn conv_badge(e: ConvEntryView) -> Seq<char> {
    markup::CONV_BADGE_OPEN@ + html::escaped(state::shortened(e.id)) + markup::CONV_RUNS_OPEN@
        + runs_text(e.run_count as nat) + markup::CONV_RUNS_CLOSE@ + (if e.label.len() == 0 {
        ""@
    } else {
        markup::CONV_LABEL_OPEN@ + html::escaped(html::truncated(e.label, 40))
            + markup::SPAN_CLOSE@
    }) + markup::CONV_BADGE_CLOSE@
}

/// The conversation bar.
pub open spec fn conv_bar(conv: ConvView) -> Seq<char> {
    markup::CONV_BAR_OPEN@ + (match active_of(conv) {
        Some(e) => conv_badge(e),
        None => markup::CONV_NONE@,
    }) + markup::CONV_BAR_CLOSE@
}

fn render_conv_badge(e: &ConvEntry) -> (r: String)
    ensures
        r@ == conv_badge(e@),
{
    let label: String = if e.label.as_str().is_empty() {
        "".to_owned()
    } else {
        markup::CONV_LABEL_OPEN.to_owned().concat(
            html_escape(truncate(e.label.as_str(), 40).as_str()).as_str(),
        ).concat(markup::SPAN_CLOSE)
    };
    markup::CONV_BADGE_OPEN.to_owned().concat(html_escape(e.short_id()).as_str()).concat(
        markup::CONV_RUNS_OPEN,
    ).concat(render_runs(e.run_count).as_str()).concat(markup::CONV_RUNS_CLOSE).concat(
        label.as_str(),
    ).concat(markup::CONV_BADGE_CLOSE)
}

/// Renders the conversation bar.
pub fn render_conv_bar(conv: &ConvState) -> (r: String)
    ensures
        r@ == conv_bar(conv@),
{
    let info: String = match conv.active_entry() {
        Some(e) => {
            proof {
                let i = choose|i: int| #[trigger] conv@.is_active(i) && *e == conv.history@[i];
                let j = choose|j: int| conv@.is_active(j);
                state::lemma_active_unique(conv@, i, j);
            }
            render_conv_badge(e)
        },
        None => markup::CONV_NONE.to_owned(),
    };
    markup::CONV_BAR_OPEN.to_owned().concat(info.as_str()).concat(markup::CONV_BAR_CLOSE)
}

// ── The status badge ────────────────────────────────────────────────────────

/// The badge that tells the phase of the run.
pub open spec fn status_badge(status: RunStatusView) -> Seq<char> {
    markup::BADGE_OPEN@ + (match status {
        RunStatusView::Idle => "status-idle"@,
        RunStatusView::Running => "status-running"@,
        RunStatusView::Done => "status-done"@,
        RunStatusView::Failed { .. } => "status-failed"@,
    }) + markup::TAG_CLOSE@ + (match status {
        RunStatusView::Idle => "○ Idle"@,
        RunStatusView::Running => "● Running"@,
        RunStatusView::Done => "✔ Done"@,
        RunStatusView::Failed { .. } => "✖ Failed"@,
    }) + markup::SPAN_CLOSE@
}

/// Renders the badge that tells the phase of the run.
pub fn render_run_status_badge(status: &RunStatus) -> (r: String)
    ensures
        r@ == status_badge(status@),
{
    let (class, label) = match status {
        RunStatus::Idle => ("status-idle", "○ Idle"),
        RunStatus::Running => ("status-running", "● Running"),
        RunStatus::Done => ("status-done", "✔ Done"),
        RunStatus::Failed { .. } => ("status-failed", "✖ Failed"),
    };
    markup::BADGE_OPEN.to_owned().concat(class).concat(markup::TAG_CLOSE).concat(label).concat(
        markup::SPAN_CLOSE,
    )
}

// ── The agent's output ──────────────────────────────────────────────────────

/// What marks a line of the agent's standard error.
pub const STDERR_MARK: &'static str = "[stderr] ";

/// A line of the agent's output.
pub open spec fn output_line(line: Seq<char>) -> Seq<char> {
    markup::LINE_OPEN@ + (if text::begins_with(line, STDERR_MARK@) {
        "output-line stderr"@
    } else {
        "output-line"@
    }) + markup::TAG_CLOSE@ + html::escaped(line) + markup::SPAN_CLOSE@
}

/// The lines of the agent's output.
pub open spec fn output_lines(lines: Seq<Seq<char>>) -> Seq<char> {
    text::joined(lines.map_values(|l: Seq<char>| output_line(l)), "\n"@)
}

/// What the output box holds: the lines so far, or where there are none a remark, which
/// gives way to the live stream while a run is under way.
pub open spec fn output_inner(run: RunView) -> Seq<char> {
    if run.output.len() > 0 {
        output_lines(run.output)
    } else if run.status is Running {
        ""@
    } else {
        markup::OUTPUT_EMPTY@
    }
}

/// What is said of a run that has ended.
pub open spec fn run_notice(status: RunStatusView) -> Seq<char> {
    match status {
        RunStatusView::Failed { reason } => markup::RUN_FAILED_OPEN@ + html::escaped(reason)
            + markup::NOTICE_CLOSE@,
        RunStatusView::Done => markup::RUN_COMPLETE@,
        RunStatusView::Idle => ""@,
        RunStatusView::Running => ""@,
    }
}

/// The card of the agent's output.
pub open spec fn output_section(run: RunView) -> Seq<char> {
    markup::OUTPUT_CARD_OPEN@ + run_notice(run.status) + markup::OUTPUT_BOX_OPEN@ + (
    if run.status is Running {
        markup::SSE_ATTR@
    } else {
        ""@
    }) + ">"@ + output_inner(run) + markup::OUTPUT_CARD_CLOSE@
}

fn render_output_line(line: &String) -> (r: String)
    ensures
        r@ == output_line(line@),
{
    let class: &str = if starts_with(line.as_str(), STDERR_MARK) {
        "output-line stderr"
    } else {
        "output-line"
    };
    markup::LINE_OPEN.to_owned().concat(class).concat(markup::TAG_CLOSE).concat(
        html_escape(line.as_str()).as_str(),
    ).concat(markup::SPAN_CLOSE)
}

fn render_output_lines(lines: &Vec<String>) -> (r: String)
    ensures
        r@ == output_lines(text::strings(lines@)),
{
    let mut spans: Vec<String> = Vec::new();
    let ghost views = text::strings(lines@);
    let ghost want = views.map_values(|l: Seq<char>| output_line(l));
    for i in 0..lines.len()
        invariant
            views == text::strings(lines@),
            want == views.map_values(|l: Seq<char>| output_line(l)),
            text::strings(spans@) == want.take(i as int),
    {
        let ghost before = text::strings(spans@);
        let span = render_output_line(&lines[i]);
        assert(want[i as int] == span@);
        spans.push(span);
        assert(text::strings(spans@) =~= before.push(span@));
        assert(want.take(i + 1) =~= want.take(i as int).push(want[i as int]));
    }
    assert(want.take(want.len() as int) =~= want);
    join(&spans, "\n")
}

fn render_run_notice(status: &RunStatus) -> (r: String)
    ensures
        r@ == run_notice(status@),
{
    match status {
        RunStatus::Failed { reason } => markup::RUN_FAILED_OPEN.to_owned().concat(
            html_escape(reason.as_str()).as_str(),
        ).concat(markup::NOTICE_CLOSE),
        RunStatus::Done => markup::RUN_COMPLETE.to_owned(),
        RunStatus::Idle => "".to_owned(),
        RunStatus::Running => "".to_owned(),
    }
}

/// Renders the card of the agent's output.
pub fn render_output_section(run: &RunState) -> (r: String)
    ensures
        r@ == output_section(run@),
{
    let is_running: bool = run.status.is_running();
    let inner: String = if !run.output_buf.is_empty() {
        render_output_lines(&run.output_buf)
    } else if is_running {
        "".to_owned()
    } else {
        markup::OUTPUT_EMPTY.to_owned()
    };
    let attr: &str = if is_running {
        markup::SSE_ATTR
    } else {
        ""
    };
    markup::OUTPUT_CARD_OPEN.to_owned().concat(render_run_notice(&run.status).as_str()).concat(
        markup::OUTPUT_BOX_OPEN,
    ).concat(attr).concat(">").concat(inner.as_str()).concat(markup::OUTPUT_CARD_CLOSE)
}

// ── The main page ───────────────────────────────────────────────────────────

/// What the page calls the project: the last name of its path, or the path itself.
pub open spec fn project_name(project_dir: Seq<char>) -> Seq<char> {
    match path::final_name(project_dir) {
        Some(name) => name,
        None => project_dir,
    }
}

/// The hint on the prompts that a commit would carry.
pub open spec fn prompts_hint(count: nat) -> Seq<char> {
    if count == 0 {
        "No prompts accumulated yet."@
    } else {
        text::digits(count) + (if count == 1 {
            " prompt"@
        } else {
            " prompts"@
        }) + " will be appended to the commit body."@
    }
}

fn render_prompts_hint(count: usize) -> (r: String)
    ensures
        r@ == prompts_hint(count as nat),
{
    if count == 0 {
        "No prompts accumulated yet.".to_owned()
    } else {
        decimal(count as u64).concat(
            if count == 1 {
                " prompt"
            } else {
                " prompts"
            },
        ).concat(" will be appended to the commit body.")
    }
}

/// The state of the controls that rest while a run is under way.
pub open spec fn disabled(running: bool) -> Seq<char> {
    if running {
        "disabled"@
    } else {
        ""@
    }
}

/// The main page.
pub open spec fn index_page(
    run: RunView,
    conv: ConvView,
    project_dir: Seq<char>,
    password_enabled: bool,
    prompts_count: nat,
) -> Seq<char> {
    let name = html::escaped(project_name(project_dir));
    let off = disabled(run.status is Running);
    page_head("agent2web — "@ + name) + markup::SCRIPT_OPEN@ + HTMX_CDN@ + markup::INDEX_BODY_OPEN@
        + name + markup::HEADER_FIELD_OPEN@ + password_field(password_enabled)
        + markup::HEADER_CLOSE@ + conv_bar(conv) + markup::MAIN_OPEN@ + status_badge(run.status)
        + markup::RECORD_BUTTON@ + off + markup::STOP_BUTTON@ + off + markup::PROMPT_AREA@ + off
        + markup::SEND_BUTTON@ + off + markup::CLEAR_BUTTON@ + off + markup::OUTPUT_OPEN@
        + output_section(run) + markup::COMMIT_INPUT@ + off + markup::COMMIT_BUTTON@ + off
        + markup::COMMIT_HINT@ + prompts_hint(prompts_count) + markup::ACTIONS@ + APP_JS@
        + markup::INDEX_CLOSE@
}

/// Renders the main page.
pub fn render_index(
    run: &RunState,
    conv: &ConvState,
    project_dir: &str,
    password_enabled: bool,
    prompts_count: usize,
) -> (r: String)
    ensures
        r@ == index_page(run@, conv@, project_dir@, password_enabled, prompts_count as nat),
{
    let project: String = match file_name(project_dir) {
        Some(name) => name,
        None => project_dir.to_owned(),
    };
    let name = html_escape(project.as_str());
    let off: &str = if run.status.is_running() {
        "disabled"
    } else {
        ""
    };
    let title = "agent2web — ".to_owned().concat(name.as_str());
    render_head(title.as_str()).concat(markup::SCRIPT_OPEN).concat(HTMX_CDN).concat(
        markup::INDEX_BODY_OPEN,
    ).concat(name.as_str()).concat(markup::HEADER_FIELD_OPEN).concat(
        render_password_field(password_enabled),
    ).concat(markup::HEADER_CLOSE).concat(render_conv_bar(conv).as_str()).concat(
        markup::MAIN_OPEN,
    ).concat(render_run_status_badge(&run.status).as_str()).concat(markup::RECORD_BUTTON).concat(
        off,
    ).concat(markup::STOP_BUTTON).concat(off).concat(markup::PROMPT_AREA).concat(off).concat(
        markup::SEND_BUTTON,
    ).concat(off).concat(markup::CLEAR_BUTTON).concat(off).concat(markup::OUTPUT_OPEN).concat(
        render_output_section(run).as_str(),
    ).concat(markup::COMMIT_INPUT).concat(off).concat(markup::COMMIT_BUTTON).concat(off).concat(
        markup::COMMIT_HINT,
    ).concat(render_prompts_hint(prompts_count).as_str()).concat(markup::ACTIONS).concat(
        APP_JS,
    ).concat(markup::INDEX_CLOSE)
}

// ── The list of conversations ───────────────────────────────────────────────

/// A conversation in the list.
pub open spec fn conv_row(e: ConvEntryView, active_id: Option<Seq<char>>) -> Seq<char> {
    markup::ENTRY_ID_OPEN@ + html::escaped(state::shortened(e.id)) + markup::ENTRY_LABEL_OPEN@ + (
    if e.label.len() == 0 {
        "(no label)"@
    } else {
        html::escaped(html::truncated(e.label, 60))
    }) + (if active_id == Some(e.id) {
        " ◀ active"@
    } else {
        ""@
    }) + markup::ENTRY_STARTED_OPEN@ + text::digits(e.started_at as nat) + markup::TAG_CLOSE@
        + text::digits(e.started_at as nat) + markup::ENTRY_STARTED_CLOSE@
        + markup::ENTRY_META_OPEN@ + runs_text(e.run_count as nat) + markup::ENTRY_FORM_OPEN@
        + html::escaped(e.id) + markup::ENTRY_CLOSE@
}

/// The conversations, the latest first.
pub open spec fn conv_rows(history: Seq<ConvEntryView>, active_id: Option<Seq<char>>) -> Seq<char>
    decreases history.len(),
{
    if history.len() == 0 {
        seq![]
    } else {
        conv_row(history.last(), active_id) + conv_rows(history.drop_last(), active_id)
    }
}

/// The list of conversations, as a fragment of a page.
pub open spec fn conv_list(conv: ConvView) -> Seq<char> {
    if conv.history.len() == 0 {
        markup::CONV_LIST_EMPTY@
    } else {
        markup::CONV_LIST_OPEN@ + conv_rows(conv.history, conv.active_id) + markup::DIV_CLOSE@
    }
}

fn render_conv_row(e: &ConvEntry, active_id: &Option<String>) -> (r: String)
    ensures
        r@ == conv_row(e@, text::opt_text(*active_id)),
{
    let label: String = if e.label.as_str().is_empty() {
        "(no label)".to_owned()
    } else {
        html_escape(truncate(e.label.as_str(), 60).as_str())
    };
    let is_active: bool = match active_id {
        Some(id) => *id == e.id,
        None => false,
    };
    let marker: &str = if is_active {
        " ◀ active"
    } else {
        ""
    };
    let started = decimal(e.started_at);
    markup::ENTRY_ID_OPEN.to_owned().concat(html_escape(e.short_id()).as_str()).concat(
        markup::ENTRY_LABEL_OPEN,
    ).concat(label.as_str()).concat(marker).concat(markup::ENTRY_STARTED_OPEN).concat(
        started.as_str(),
    ).concat(markup::TAG_CLOSE).concat(started.as_str()).concat(markup::ENTRY_STARTED_CLOSE).concat(
        markup::ENTRY_META_OPEN,
    ).concat(render_runs(e.run_count).as_str()).concat(markup::ENTRY_FORM_OPEN).concat(
        html_escape(e.id.as_str()).as_str(),
    ).concat(markup::ENTRY_CLOSE)
}

/// Renders the list of conversations, as a fragment of a page.
pub fn render_conv_list(conv: &ConvState) -> (r: String)
    ensures
        r@ == conv_list(conv@),
{
    if conv.history.is_empty() {
        return markup::CONV_LIST_EMPTY.to_owned();
    }
    let mut rows: String = String::new();
    let mut i: usize = conv.history.len();
    let ghost h = conv@.history;
    assert(h.take(h.len() as int) =~= h);
    assert(rows@ + conv_rows(h, conv@.active_id) =~= conv_rows(h, conv@.active_id));
    while i > 0
        invariant
            i <= conv.history@.len(),
            h == conv@.history,
            rows@ + conv_rows(h.take(i as int), conv@.active_id) == conv_rows(h, conv@.active_id),
        decreases i,
    {
        let ghost before = rows@;
        let row = render_conv_row(&conv.history[i - 1], &conv.active_id);
        rows.append(row.as_str());
        proof {
            assert(h.take(i as int).last() == conv.history@[i - 1]@);
            assert(h.take(i as int).drop_last() =~= h.take(i - 1));
            assert(rows@ + conv_rows(h.take(i - 1), conv@.active_id) =~= before + conv_rows(
                h.take(i as int),
                conv@.active_id,
            ));
        }
        i = i - 1;
    }
    assert(conv_rows(h.take(0), conv@.active_id) =~= seq![]);
    assert(rows@ =~= conv_rows(h, conv@.active_id));
    markup::CONV_LIST_OPEN.to_owned().concat(rows.as_str()).concat(markup::DIV_CLOSE)
}

// ── The commit page ─────────────────────────────────────────────────────────

/// The row of a changed file: a checked box, its status and its path.
pub open spec fn file_row(f: commit::ChangedFileView) -> Seq<char> {
    markup::FILE_ROW_OPEN@ + html::escaped(f.path) + markup::FILE_STATUS_OPEN@ + html::escaped(
        f.status,
    ) + markup::FILE_PATH_OPEN@ + html::escaped(f.path) + markup::FILE_ROW_CLOSE@
}

/// The rows of the changed files.
pub open spec fn file_rows(files: Seq<commit::ChangedFileView>) -> Seq<char>
    decreases files.len(),
{
    if files.len() == 0 {
        seq![]
    } else {
        file_rows(files.drop_last()) + file_row(files.last())
    }
}

/// The prompts, one by one.
pub open spec fn prompt_rows(prompts: Seq<Seq<char>>) -> Seq<char>
    decreases prompts.len(),
{
    if prompts.len() == 0 {
        seq![]
    } else {
        prompt_rows(prompts.drop_last()) + (markup::PROMPT_OPEN@ + html::escaped(prompts.last())
            + markup::PROMPT_CLOSE@)
    }
}

/// The preview of the prompts, where there are any.
pub open spec fn prompts_preview(prompts: Seq<Seq<char>>) -> Seq<char> {
    if prompts.len() == 0 {
        ""@
    } else {
        markup::PROMPTS_OPEN@ + prompt_rows(prompts) + markup::PROMPTS_CLOSE@
    }
}

/// The form of the commit page, or a notice where no file has changed.
pub open spec fn commit_form(
    files: Seq<commit::ChangedFileView>,
    prompts: Seq<Seq<char>>,
) -> Seq<char> {
    if files.len() == 0 {
        markup::NO_CHANGES@
    } else {
        markup::COMMIT_FORM_OPEN@ + file_rows(files) + markup::SUBJECT_INPUT@ + prompts_preview(
            prompts,
        ) + markup::COMMIT_FORM_CLOSE@
    }
}

/// The commit page.
pub open spec fn commit_page(
    files: Seq<commit::ChangedFileView>,
    prompts: Seq<Seq<char>>,
    password_enabled: bool,
) -> Seq<char> {
    page_head("agent2web — Commit"@) + markup::COMMIT_PAGE_OPEN@ + password_field(password_enabled)
        + markup::COMMIT_CARD_OPEN@ + commit_form(files, prompts) + markup::COMMIT_PAGE_CLOSE@
        + APP_JS@ + markup::INDEX_CLOSE@
}

fn render_file_rows(files: &Vec<ChangedFile>) -> (r: String)
    ensures
        r@ == file_rows(commit::file_views(files@)),
{
    let mut out: String = String::new();
    let ghost views = commit::file_views(files@);
    for i in 0..files.len()
        invariant
            views == commit::file_views(files@),
            out@ == file_rows(views.take(i as int)),
    {
        let f = &files[i];
        let path = html_escape(f.path.as_str());
        let row = markup::FILE_ROW_OPEN.to_owned().concat(path.as_str()).concat(
            markup::FILE_STATUS_OPEN,
        ).concat(html_escape(f.status.as_str()).as_str()).concat(markup::FILE_PATH_OPEN).concat(
            path.as_str(),
        ).concat(markup::FILE_ROW_CLOSE);
        out.append(row.as_str());
        proof {
            assert(views.take(i + 1).drop_last() =~= views.take(i as int));
            assert(views.take(i + 1).last() == files@[i as int]@);
        }
    }
    assert(views.take(views.len() as int) =~= views);
    out
}

fn render_prompts_preview(prompts: &Vec<String>) -> (r: String)
    ensures
        r@ == prompts_preview(text::strings(prompts@)),
{
    if prompts.is_empty() {
        return "".to_owned();
    }
    let mut out: String = String::new();
    let ghost views = text::strings(prompts@);
    for i in 0..prompts.len()
        invariant
            views == text::strings(prompts@),
            out@ == prompt_rows(views.take(i as int)),
    {
        let row = markup::PROMPT_OPEN.to_owned().concat(
            html_escape(prompts[i].as_str()).as_str(),
        ).concat(markup::PROMPT_CLOSE);
        out.append(row.as_str());
        proof {
            assert(views.take(i + 1).drop_last() =~= views.take(i as int));
            assert(views.take(i + 1).last() == prompts@[i as int]@);
        }
    }
    assert(views.take(views.len() as int) =~= views);
    markup::PROMPTS_OPEN.to_owned().concat(out.as_str()).concat(markup::PROMPTS_CLOSE)
}

/// Renders the commit page.
pub fn render_commit_page(
    files: &Vec<ChangedFile>,
    prompts: &Vec<String>,
    password_enabled: bool,
) -> (r: String)
    ensures
        r@ == commit_page(
            commit::file_views(files@),
            text::strings(prompts@),
            password_enabled,
        ),
{
    let form: String = if files.is_empty() {
        markup::NO_CHANGES.to_owned()
    } else {
        markup::COMMIT_FORM_OPEN.to_owned().concat(render_file_rows(files).as_str()).concat(
            markup::SUBJECT_INPUT,
        ).concat(render_prompts_preview(prompts).as_str()).concat(markup::COMMIT_FORM_CLOSE)
    };
    render_head("agent2web — Commit").concat(markup::COMMIT_PAGE_OPEN).concat(
        render_password_field(password_enabled),
    ).concat(markup::COMMIT_CARD_OPEN).concat(form.as_str()).concat(
        markup::COMMIT_PAGE_CLOSE,
    ).concat(APP_JS).concat(markup::INDEX_CLOSE)
}

// ── Plain pages ─────────────────────────────────────────────────────────────

/// The page that answers a request with an error.
pub open spec fn error_page(status: nat, message: Seq<char>) -> Seq<char> {
    page_head("Error "@ + text::digits(status) + " — agent2web"@) + markup::PLAIN_BODY_OPEN@
        + markup::ERROR_CARD_OPEN@ + text::digits(status) + markup::ERROR_MESSAGE_OPEN@
        + html::escaped(message) + markup::ALERT_CLOSE@ + markup::PLAIN_BODY_CLOSE@
}

/// Renders the page that answers a request with an error.
pub fn render_error(status: u16, message: &str) -> (r: String)
    ensures
        r@ == error_page(status as nat, message@),
{
    let number = decimal(status as u64);
    let title = "Error ".to_owned().concat(number.as_str()).concat(" — agent2web");
    render_head(title.as_str()).concat(markup::PLAIN_BODY_OPEN).concat(
        markup::ERROR_CARD_OPEN,
    ).concat(number.as_str()).concat(markup::ERROR_MESSAGE_OPEN).concat(
        html_escape(message).as_str(),
    ).concat(markup::ALERT_CLOSE).concat(markup::PLAIN_BODY_CLOSE)
}

/// The page that says why there is no diff to show.
pub open spec fn no_diff_page(message: Seq<char>) -> Seq<char> {
    page_head("agent2web — Diff"@) + markup::PLAIN_BODY_OPEN@ + markup::NO_DIFF_CARD_OPEN@
        + html::escaped(message) + markup::ALERT_CLOSE@ + markup::PLAIN_BODY_CLOSE@
}

/// Renders the page that says why there is no diff to show.
pub fn render_no_diff(message: &str) -> (r: String)
    ensures
        r@ == no_diff_page(message@),
{
    render_head("agent2web — Diff").concat(markup::PLAIN_BODY_OPEN).concat(
        markup::NO_DIFF_CARD_OPEN,
    ).concat(html_escape(message).as_str()).concat(markup::ALERT_CLOSE).concat(
        markup::PLAIN_BODY_CLOSE,
    )
}

} // verus!

//! Laws of the main page and of the commit page.

use vstd::prelude::*;
use vstd::string::*;

use crate::assets::APP_JS;
use crate::handlers::commit;
use crate::handlers::commit::{ChangedFileView, ListingView};
use crate::handlers::index;
use crate::html;
use crate::laws::pages;
use crate::laws::text as texts;
use crate::process::CommandView;
use crate::reply::ReplyView;
use crate::state::{AppView, ConvView, RunView};
use crate::templates;
use crate::templates::markup;
use crate::templates::HTMX_CDN;
use crate::text;

verus! {

// ── The main page ───────────────────────────────────────────────────────────

/// The word that makes a control rest.
pub open spec fn rest(running: bool) -> Seq<char> {
    if running {
        "disabled"@
    } else {
        ""@
    }
}

/// Whether the controls of the page rest: those that record, those that send a prompt, and
/// those that commit.
pub open spec fn controls_rest(page: Seq<char>, running: bool) -> bool {
    let off = rest(running);
    &&& text::occurs_in(page, r#"id="btn-record" "#@ + off + ">"@)
    &&& text::occurs_in(page, r#"id="btn-stop" "#@ + off + ">"@)
    &&& text::occurs_in(page, r#"            rows="4"
            "#@ + off + r#"
          ></textarea>"#@)
    &&& text::occurs_in(page, r#"class="btn btn-primary" "#@ + off + ">"@)
    &&& text::occurs_in(page, r#"placeholder="Commit subject line…"
              "#@ + off + r#"
            />"#@)
    &&& text::occurs_in(page, r#"class="btn btn-success" "#@ + off + ">"@)
}

/// The main page from its beginning up to the agent's output.
spec fn upper_part(
    run: RunView,
    conv: ConvView,
    project_dir: Seq<char>,
    password_enabled: bool,
) -> Seq<char> {
    let name = html::escaped(templates::project_name(project_dir));
    templates::page_head("agent2web — "@ + name) + markup::SCRIPT_OPEN@ + HTMX_CDN@
        + markup::INDEX_BODY_OPEN@ + name + markup::HEADER_FIELD_OPEN@ + templates::password_field(
        password_enabled,
    ) + markup::HEADER_CLOSE@ + templates::conv_bar(conv) + markup::MAIN_OPEN@
        + templates::status_badge(run.status)
}

proof fn lemma_voice_controls(x: Seq<char>, off: Seq<char>)
    ensures
        text::occurs_in(
            x + markup::RECORD_BUTTON@ + off + markup::STOP_BUTTON@,
            r#"id="btn-record" "#@ + off + ">"@,
        ),
        text::occurs_in(
            x + markup::STOP_BUTTON@ + off + markup::PROMPT_AREA@,
            r#"id="btn-stop" "#@ + off + ">"@,
        ),
{
    reveal_strlit(r##"
      </div>
      <div class="card-body">
        <div class="voice-controls">
          <button class="btn btn-secondary" id="btn-record" "##);
    reveal_strlit(r##">
            &#x1F3A4; Record
          </button>
          <button class="btn btn-secondary" id="btn-stop" "##);
    reveal_strlit(r##">
            &#x23F9; Stop
          </button>
          <div class="record-status" id="record-status">
            <span class="record-dot"></span>
            <span>Ready to record</span>
          </div>
        </div>

        <form method="POST" action="/run" id="run-form">
          <textarea
            id="prompt"
            name="prompt"
            placeholder="Type or dictate your prompt here…"
            rows="4"
            "##);
    reveal_strlit(r#"id="btn-record" "#);
    reveal_strlit(r#"id="btn-stop" "#);
    reveal_strlit(">");
    let a = markup::RECORD_BUTTON@;
    let b = markup::STOP_BUTTON@;
    let c = markup::PROMPT_AREA@;
    assert(a.skip(125) =~= r#"id="btn-record" "#@);
    assert(b.skip(95) =~= r#"id="btn-stop" "#@);
    assert(b.take(1) =~= ">"@);
    assert(c.take(1) =~= ">"@);
    pages::lemma_spans(x, a, off, b, r#"id="btn-record" "#@, ">"@, 125);
    pages::lemma_spans(x, b, off, c, r#"id="btn-stop" "#@, ">"@, 95);
}

proof fn lemma_prompt_controls(x: Seq<char>, off: Seq<char>)
    ensures
        text::occurs_in(
            x + markup::PROMPT_AREA@ + off + markup::SEND_BUTTON@,
            r#"            rows="4"
            "#@ + off + r#"
          ></textarea>"#@,
        ),
        text::occurs_in(
            x + markup::SEND_BUTTON@ + off + markup::CLEAR_BUTTON@,
            r#"class="btn btn-primary" "#@ + off + ">"@,
        ),
{
    reveal_strlit(r##">
            &#x23F9; Stop
          </button>
          <div class="record-status" id="record-status">
            <span class="record-dot"></span>
            <span>Ready to record</span>
          </div>
        </div>

        <form method="POST" action="/run" id="run-form">
          <textarea
            id="prompt"
            name="prompt"
            placeholder="Type or dictate your prompt here…"
            rows="4"
            "##);
    reveal_strlit(r##"
          ></textarea>
          <div class="prompt-actions">
            <button type="submit" class="btn btn-primary" "##);
    reveal_strlit(r##">
              &#x25B6; Send to Agent
            </button>
            <button
              type="button"
              class="btn btn-secondary btn-sm"
              onclick="document.getElementById('prompt').value=''"
              "##);
    reveal_strlit(r#"            rows="4"
            "#);
    reveal_strlit(r#"
          ></textarea>"#);
    reveal_strlit(r#"class="btn btn-primary" "#);
    reveal_strlit(">");
    let a = markup::PROMPT_AREA@;
    let b = markup::SEND_BUTTON@;
    let c = markup::CLEAR_BUTTON@;
    let open = r#"            rows="4"
            "#@;
    let close = r#"
          ></textarea>"#@;
    let send = r#"class="btn btn-primary" "#@;
    assert(a.skip(411) =~= open);
    assert(b.take(close.len() as int) =~= close);
    assert(b.skip(97) =~= send);
    assert(c.take(1) =~= ">"@);
    pages::lemma_spans(x, a, off, b, open, close, 411);
    pages::lemma_spans(x, b, off, c, send, ">"@, 97);
}

proof fn lemma_commit_controls(x: Seq<char>, off: Seq<char>)
    ensures
        text::occurs_in(
            x + markup::COMMIT_INPUT@ + off + markup::COMMIT_BUTTON@,
            r#"placeholder="Commit subject line…"
              "#@ + off + r#"
            />"#@,
        ),
        text::occurs_in(
            x + markup::COMMIT_BUTTON@ + off + markup::COMMIT_HINT@,
            r#"class="btn btn-success" "#@ + off + ">"@,
        ),
{
    reveal_strlit(r##"

    <!-- ── Manual commit section ── -->
    <div class="card">
      <div class="card-header">
        <h2>Commit</h2>
      </div>
      <div class="card-body">
        <form method="POST" action="/commit">
          <div class="commit-row">
            <input
              type="text"
              name="message"
              placeholder="Commit subject line…"
              "##);
    reveal_strlit(r##"
            />
            <button type="submit" class="btn btn-success" "##);
    reveal_strlit(r##">
              &#x2714; Commit
            </button>
          </div>
          <p class="commit-hint">
            "##);
    reveal_strlit(r#"placeholder="Commit subject line…"
              "#);
    reveal_strlit(r#"
            />"#);
    reveal_strlit(r#"class="btn btn-success" "#);
    reveal_strlit(">");
    let a = markup::COMMIT_INPUT@;
    let b = markup::COMMIT_BUTTON@;
    let c = markup::COMMIT_HINT@;
    let open = r#"placeholder="Commit subject line…"
              "#@;
    let close = r#"
            />"#@;
    let send = r#"class="btn btn-success" "#@;
    assert(a.skip(334) =~= open);
    assert(b.take(close.len() as int) =~= close);
    assert(b.skip(50) =~= send);
    assert(c.take(1) =~= ">"@);
    pages::lemma_spans(x, a, off, b, open, close, 334);
    pages::lemma_spans(x, b, off, c, send, ">"@, 50);
}

/// The controls of the main page rest while a run is under way, and only then.
pub proof fn law_controls_rest_during_a_run(
    run: RunView,
    conv: ConvView,
    project_dir: Seq<char>,
    password_enabled: bool,
    prompts_count: nat,
)
    ensures
        controls_rest(
            templates::index_page(run, conv, project_dir, password_enabled, prompts_count),
            run.status is Running,
        ),
{
    broadcast use {pages::lemma_in_front, pages::lemma_in_back, pages::lemma_in_itself};

    let off = rest(run.status is Running);
    let x = upper_part(run, conv, project_dir, password_enabled);
    let x1 = x + markup::RECORD_BUTTON@ + off;
    let x2 = x1 + markup::STOP_BUTTON@ + off;
    let x3 = x2 + markup::PROMPT_AREA@ + off;
    let x4 = x3 + markup::SEND_BUTTON@ + off;
    let x5 = x4 + markup::CLEAR_BUTTON@ + off + markup::OUTPUT_OPEN@ + templates::output_section(
        run,
    );
    let x6 = x5 + markup::COMMIT_INPUT@ + off;
    lemma_voice_controls(x, off);
    lemma_voice_controls(x1, off);
    lemma_prompt_controls(x2, off);
    lemma_prompt_controls(x3, off);
    lemma_commit_controls(x5, off);
    lemma_commit_controls(x6, off);
}

/// The main page shows the project, the conversation, the phase of the run and its output,
/// sends prompts and commits where they belong, and follows the run with its script.
pub proof fn law_main_page(
    run: RunView,
    conv: ConvView,
    project_dir: Seq<char>,
    password_enabled: bool,
    prompts_count: nat,
)
    ensures
        ({
            let page = templates::index_page(
                run,
                conv,
                project_dir,
                password_enabled,
                prompts_count,
            );
            &&& pages::shown(page, templates::project_name(project_dir))
            &&& text::occurs_in(page, templates::conv_bar(conv))
            &&& text::occurs_in(page, templates::status_badge(run.status))
            &&& text::occurs_in(page, templates::output_section(run))
            &&& text::occurs_in(page, APP_JS@)
            &&& text::occurs_in(page, r#"<form method="POST" action="/run" id="run-form">"#@)
            &&& text::occurs_in(page, r#"<form method="POST" action="/commit">"#@)
            &&& prompts_count == 0 ==> text::occurs_in(page, "No prompts accumulated yet."@)
            &&& prompts_count == 1 ==> text::occurs_in(
                page,
                text::digits(1) + " prompt"@ + " will be appended to the commit body."@,
            )
            &&& prompts_count > 1 ==> text::occurs_in(
                page,
                text::digits(prompts_count) + " prompts"@
                    + " will be appended to the commit body."@,
            )
        }),
{
    broadcast use {pages::lemma_in_front, pages::lemma_in_back, pages::lemma_in_itself};

    let page = templates::index_page(run, conv, project_dir, password_enabled, prompts_count);
    assert(text::occurs_in(page, html::escaped(templates::project_name(project_dir))));
    pages::lemma_escaped_is_shown(page, templates::project_name(project_dir));
    lemma_forms();
    assert(text::occurs_in(page, markup::PROMPT_AREA@));
    texts::lemma_holds(
        page,
        markup::PROMPT_AREA@,
        r#"<form method="POST" action="/run" id="run-form">"#@,
    );
    assert(text::occurs_in(page, markup::COMMIT_INPUT@));
    texts::lemma_holds(page, markup::COMMIT_INPUT@, r#"<form method="POST" action="/commit">"#@);
    assert(text::occurs_in(page, templates::prompts_hint(prompts_count)));
}

proof fn lemma_forms()
    ensures
        text::occurs_in(
            markup::PROMPT_AREA@,
            r#"<form method="POST" action="/run" id="run-form">"#@,
        ),
        text::occurs_in(markup::COMMIT_INPUT@, r#"<form method="POST" action="/commit">"#@),
{
    reveal_strlit(r##">
            &#x23F9; Stop
          </button>
          <div class="record-status" id="record-status">
            <span class="record-dot"></span>
            <span>Ready to record</span>
          </div>
        </div>

        <form method="POST" action="/run" id="run-form">
          <textarea
            id="prompt"
            name="prompt"
            placeholder="Type or dictate your prompt here…"
            rows="4"
            "##);
    reveal_strlit(r##"

    <!-- ── Manual commit section ── -->
    <div class="card">
      <div class="card-header">
        <h2>Commit</h2>
      </div>
      <div class="card-body">
        <form method="POST" action="/commit">
          <div class="commit-row">
            <input
              type="text"
              name="message"
              placeholder="Commit subject line…"
              "##);
    reveal_strlit(r#"<form method="POST" action="/run" id="run-form">"#);
    reveal_strlit(r#"<form method="POST" action="/commit">"#);
    let a = markup::PROMPT_AREA@;
    let p = r#"<form method="POST" action="/run" id="run-form">"#@;
    assert(a.subrange(232, 232 + p.len() as int) =~= p);
    assert(text::stands_at(a, p, 232));
    let c = markup::COMMIT_INPUT@;
    let q = r#"<form method="POST" action="/commit">"#@;
    assert(c.subrange(173, 173 + q.len() as int) =~= q);
    assert(text::stands_at(c, q, 173));
}

/// A password field of a page.
pub open spec fn asks_for_password(page: Seq<char>) -> bool {
    text::occurs_in(page, r#"<input type="password" id="password" name="password""#@)
}

proof fn lemma_password_field(x: Seq<char>, a: Seq<char>, c: Seq<char>, asked: bool)
    requires
        a == markup::HEADER_FIELD_OPEN@ || a == markup::COMMIT_PAGE_OPEN@,
        c == markup::HEADER_CLOSE@ || c == markup::COMMIT_CARD_OPEN@,
    ensures
        asked ==> asks_for_password(x + a + templates::password_field(asked) + c),
        !asked ==> text::occurs_in(
            x + a + templates::password_field(asked) + c,
            r#"<div class="header-spacer"></div>
  
</header>"#@,
        ),
{
    broadcast use {pages::lemma_in_front, pages::lemma_in_back, pages::lemma_in_itself};

    reveal_strlit(r##"</span>
  <div class="header-spacer"></div>
  "##);
    reveal_strlit(r##"</head>
<body>
<header>
  <h1>agent2web</h1>
  <div class="header-spacer"></div>
  "##);
    reveal_strlit(r##"
</header>

<!-- ── Conversation status bar ── -->
"##);
    reveal_strlit(r##"
</header>
<main>
  <div class="card">
    <div class="card-header"><h2>Commit Changes</h2></div>
    <div class="card-body">
"##);
    let f = templates::password_field(asked);
    if asked {
        reveal_strlit(r##"<div class="password-group">
          <label for="password">Password:</label>
          <input type="password" id="password" name="password" autocomplete="current-password" />
        </div>"##);
        reveal_strlit(r#"<input type="password" id="password" name="password""#);
        let p = r#"<input type="password" id="password" name="password""#@;
        assert(f.subrange(89, 89 + p.len() as int) =~= p);
        assert(text::stands_at(f, p, 89));
        assert(text::occurs_in(f, p));
        texts::lemma_holds_back(x + a, f, p);
        texts::lemma_holds_front(x + a + f, c, p);
    } else {
        reveal_strlit(r#"<div class="header-spacer"></div>
  "#);
        reveal_strlit(r#"
</header>"#);
        reveal_strlit(r#"<div class="header-spacer"></div>
  
</header>"#);
        reveal_strlit("");
        let open = r#"<div class="header-spacer"></div>
  "#@;
        let close = r#"
</header>"#@;
        assert(a.skip(a.len() - open.len()) =~= open);
        assert(c.take(close.len() as int) =~= close);
        pages::lemma_spans(x, a, f, c, open, close, a.len() - open.len());
        assert(open + f + close =~= r#"<div class="header-spacer"></div>
  
</header>"#@);
    }
}

/// The pages ask for a password on servers that have one, and on no others.
pub proof fn law_password_is_asked_for(
    run: RunView,
    conv: ConvView,
    project_dir: Seq<char>,
    prompts: Seq<Seq<char>>,
    files: Seq<ChangedFileView>,
    asked: bool,
)
    ensures
        ({
            let none = r#"<div class="header-spacer"></div>
  
</header>"#@;
            let main = templates::index_page(run, conv, project_dir, asked, prompts.len());
            let commit = templates::commit_page(files, prompts, asked);
            &&& asked ==> asks_for_password(main) && asks_for_password(commit)
            &&& !asked ==> text::occurs_in(main, none) && text::occurs_in(commit, none)
        }),
{
    broadcast use {pages::lemma_in_front, pages::lemma_in_back, pages::lemma_in_itself};

    let name = html::escaped(templates::project_name(project_dir));
    let x = templates::page_head("agent2web — "@ + name) + markup::SCRIPT_OPEN@
        + HTMX_CDN@ + markup::INDEX_BODY_OPEN@ + name;
    let a = markup::HEADER_FIELD_OPEN@;
    let f = templates::password_field(asked);
    let c = markup::HEADER_CLOSE@;
    lemma_password_field(x, a, c, asked);
    let x2 = templates::page_head("agent2web — Commit"@);
    lemma_password_field(x2, markup::COMMIT_PAGE_OPEN@, markup::COMMIT_CARD_OPEN@, asked);
}

// ── The commit page ─────────────────────────────────────────────────────────

/// Whether a row selects the file with this path, whatever it is called, and shows it with
/// its status.
pub open spec fn is_row_of_file(row: Seq<char>, f: ChangedFileView) -> bool {
    exists|path: Seq<char>, status: Seq<char>| #[trigger]
        text::occurs_in(row, file_choice(path, status)) && texts::browser_reads(path) == f.path
            && texts::browser_reads(status) == f.status && pages::no_markup(path)
            && pages::no_markup(status)
}

/// A checked box for a file, and what is said of the file.
pub open spec fn file_choice(path: Seq<char>, status: Seq<char>) -> Seq<char> {
    r#"<input type="checkbox" name="files[]" checked value=""#@ + path + r#"" />
          <code>"#@ + status + "</code> "@ + path
}

proof fn lemma_file_row(f: ChangedFileView)
    ensures
        is_row_of_file(templates::file_row(f), f),
{
    broadcast use {pages::lemma_in_front, pages::lemma_in_back, pages::lemma_in_itself};

    let path = html::escaped(f.path);
    let status = html::escaped(f.status);
    html::law_escaped_is_inert(f.path);
    html::law_escaped_is_inert(f.status);
    texts::law_browser_reads_escaped(f.path);
    texts::law_browser_reads_escaped(f.status);
    reveal_strlit(r##"        <label class="file-row">
          <input type="checkbox" name="files[]" checked value=""##);
    reveal_strlit(r#"<input type="checkbox" name="files[]" checked value=""#);
    let a = markup::FILE_ROW_OPEN@;
    let open = r#"<input type="checkbox" name="files[]" checked value=""#@;
    let n = a.len() - open.len();
    assert(a.skip(n) =~= open);
    let row = templates::file_row(f);
    let choice = file_choice(path, status);
    assert(row =~= a.take(n) + choice + markup::FILE_ROW_CLOSE@);
    assert(text::occurs_in(row, choice));
}

/// The rows of these files.
spec fn rows_of_files(files: Seq<ChangedFileView>) -> Seq<Seq<char>> {
    files.map_values(|f: ChangedFileView| templates::file_row(f))
}

proof fn lemma_joined_back(parts: Seq<Seq<char>>, last: Seq<char>)
    ensures
        text::joined(parts.push(last), Seq::empty()) == text::joined(parts, Seq::empty()) + last,
{
    let sep = Seq::<char>::empty();
    let all = parts.push(last);
    assert(all.drop_last() =~= parts);
    assert(text::joined(all, sep) =~= text::joined(parts, sep) + last);
}

proof fn lemma_file_rows(files: Seq<ChangedFileView>)
    ensures
        templates::file_rows(files) == text::joined(rows_of_files(files), Seq::empty()),
    decreases files.len(),
{
    let rows = rows_of_files(files);
    if files.len() == 0 {
        assert(templates::file_rows(files) =~= text::joined(rows, Seq::empty()));
    } else {
        lemma_file_rows(files.drop_last());
        lemma_joined_back(rows_of_files(files.drop_last()), templates::file_row(files.last()));
        assert(rows =~= rows_of_files(files.drop_last()).push(templates::file_row(files.last())));
    }
}

/// An item of the list of prompts.
pub open spec fn prompt_item(x: Seq<char>) -> Seq<char> {
    "          <li>"@ + x + "</li>\n"@
}

/// Whether an item of the list shows this prompt, whole.
pub open spec fn is_item_of(item: Seq<char>, prompt: Seq<char>) -> bool {
    exists|x: Seq<char>|
        item == #[trigger] prompt_item(x) && pages::no_markup(x) && texts::browser_reads(x)
            == prompt
}

spec fn items_of(prompts: Seq<Seq<char>>) -> Seq<Seq<char>> {
    prompts.map_values(|p: Seq<char>| prompt_item(html::escaped(p)))
}

proof fn lemma_prompt_rows(prompts: Seq<Seq<char>>)
    ensures
        templates::prompt_rows(prompts) == text::joined(items_of(prompts), Seq::empty()),
    decreases prompts.len(),
{
    let rows = items_of(prompts);
    if prompts.len() == 0 {
        assert(templates::prompt_rows(prompts) =~= text::joined(rows, Seq::empty()));
    } else {
        let last = prompt_item(html::escaped(prompts.last()));
        lemma_prompt_rows(prompts.drop_last());
        lemma_joined_back(items_of(prompts.drop_last()), last);
        assert(rows =~= items_of(prompts.drop_last()).push(last));
        reveal_strlit(r##"</li>
"##);
        reveal_strlit("</li>\n");
        assert(markup::PROMPT_CLOSE@ =~= "</li>\n"@);
    }
}

/// Whether `rows` select these files, one each.
pub open spec fn are_rows_of_files(rows: Seq<Seq<char>>, files: Seq<ChangedFileView>) -> bool {
    &&& rows.len() == files.len()
    &&& forall|k: int| 0 <= k < rows.len() ==> is_row_of_file(#[trigger] rows[k], files[k])
}

/// Whether `items` show these prompts, one each.
pub open spec fn are_items_of(items: Seq<Seq<char>>, prompts: Seq<Seq<char>>) -> bool {
    &&& items.len() == prompts.len()
    &&& forall|k: int| 0 <= k < items.len() ==> is_item_of(#[trigger] items[k], prompts[k])
}

/// Whether a page offers these files, in their order.
pub open spec fn offers_files(page: Seq<char>, files: Seq<ChangedFileView>) -> bool {
    exists|rows: Seq<Seq<char>>| #[trigger]
        pages::lists(page, rows, Seq::empty()) && are_rows_of_files(rows, files)
}

/// Whether a page shows these prompts, in their order.
pub open spec fn shows_prompts(page: Seq<char>, prompts: Seq<Seq<char>>) -> bool {
    exists|items: Seq<Seq<char>>| #[trigger]
        pages::lists(page, items, Seq::empty()) && are_items_of(items, prompts)
}

/// The commit page offers every changed file, in the order of the listing: what its form sends
/// is the path of that file.
pub proof fn law_commit_page_offers_every_file(
    files: Seq<ChangedFileView>,
    prompts: Seq<Seq<char>>,
    asked: bool,
)
    requires
        files.len() > 0,
    ensures
        offers_files(templates::commit_page(files, prompts, asked), files),
{
    broadcast use {pages::lemma_in_front, pages::lemma_in_back, pages::lemma_in_itself};

    let page = templates::commit_page(files, prompts, asked);
    let form = templates::commit_form(files, prompts);
    let rows = rows_of_files(files);
    lemma_file_rows(files);
    texts::law_joining(rows, Seq::empty());
    assert(text::occurs_in(form, templates::file_rows(files)));
    assert(text::occurs_in(page, form));
    texts::lemma_holds(page, form, templates::file_rows(files));
    assert(pages::lists(page, rows, Seq::empty()));
    assert forall|k: int| 0 <= k < rows.len() implies is_row_of_file(
        #[trigger] rows[k],
        files[k],
    ) by {
        lemma_file_row(files[k]);
    }
}

/// The commit page shows every prompt since the last commit, in order, and offers to append
/// them.
pub proof fn law_commit_page_shows_every_prompt(
    files: Seq<ChangedFileView>,
    prompts: Seq<Seq<char>>,
    asked: bool,
)
    requires
        files.len() > 0,
        prompts.len() > 0,
    ensures
        shows_prompts(templates::commit_page(files, prompts, asked), prompts),
        text::occurs_in(
            templates::commit_page(files, prompts, asked),
            r#"<input type="checkbox" name="include_prompts" checked />"#@,
        ),
{
    broadcast use {pages::lemma_in_front, pages::lemma_in_back, pages::lemma_in_itself};

    let page = templates::commit_page(files, prompts, asked);
    let form = templates::commit_form(files, prompts);
    let preview = templates::prompts_preview(prompts);
    let items = items_of(prompts);
    lemma_prompt_rows(prompts);
    texts::law_joining(items, Seq::empty());
    assert(text::occurs_in(form, preview));
    assert(text::occurs_in(page, form));
    assert(text::occurs_in(preview, templates::prompt_rows(prompts)));
    texts::lemma_holds(page, form, preview);
    texts::lemma_holds(page, preview, templates::prompt_rows(prompts));
    assert(pages::lists(page, items, Seq::empty()));
    assert forall|k: int| 0 <= k < items.len() implies is_item_of(
        #[trigger] items[k],
        prompts[k],
    ) by {
        html::law_escaped_is_inert(prompts[k]);
        texts::law_browser_reads_escaped(prompts[k]);
        assert(items[k] == prompt_item(html::escaped(prompts[k])));
    }
    reveal_strlit(r##"        <label><input type="checkbox" name="include_prompts" checked /> Prompts to be appended to commit body:</label>
        <ul>
"##);
    reveal_strlit(r#"<input type="checkbox" name="include_prompts" checked />"#);
    let a = markup::PROMPTS_OPEN@;
    let p = r#"<input type="checkbox" name="include_prompts" checked />"#@;
    assert(a.subrange(15, 15 + p.len() as int) =~= p);
    assert(text::stands_at(a, p, 15));
    assert(text::occurs_in(preview, a));
    texts::lemma_holds(preview, a, p);
    texts::lemma_holds(page, preview, p);
}

/// Where no file has changed, the commit page says so.  Where files have, it asks for a
/// subject; without prompts, it asks for nothing else.
pub proof fn law_commit_page_form(
    files: Seq<ChangedFileView>,
    prompts: Seq<Seq<char>>,
    asked: bool,
)
    ensures
        files.len() == 0 ==> text::occurs_in(
            templates::commit_page(files, prompts, asked),
            "No changed files in the working tree."@,
        ),
        files.len() > 0 ==> {
            &&& text::occurs_in(
                templates::commit_page(files, prompts, asked),
                r#"<form method="POST" action="/commit">"#@,
            )
            &&& text::occurs_in(
                templates::commit_page(files, prompts, asked),
                r#"<input type="text" name="message""#@,
            )
        },
        files.len() > 0 && prompts.len() == 0 ==> text::occurs_in(
            templates::commit_page(files, prompts, asked),
            r#" required />
        <button type="submit" class="btn btn-success">Commit Selected Files</button>"#@,
        ),
{
    broadcast use {pages::lemma_in_front, pages::lemma_in_back, pages::lemma_in_itself};

    let page = templates::commit_page(files, prompts, asked);
    let form = templates::commit_form(files, prompts);
    assert(text::occurs_in(page, form));
    if files.len() == 0 {
        reveal_strlit(r##"      <div class="alert alert-info">No changed files in the working tree.</div>
"##);
        reveal_strlit("No changed files in the working tree.");
        let p = "No changed files in the working tree."@;
        assert(form.subrange(36, 36 + p.len() as int) =~= p);
        assert(text::stands_at(form, p, 36));
        texts::lemma_holds(page, form, p);
    } else {
        reveal_strlit(r##"      <form method="POST" action="/commit">
        <p>Changed files (select to include):</p>
"##);
        reveal_strlit(r##"        <input type="text" name="message" placeholder="Commit subject line…" required />
"##);
        reveal_strlit(r#"<form method="POST" action="/commit">"#);
        reveal_strlit(r#"<input type="text" name="message""#);
        let a = markup::COMMIT_FORM_OPEN@;
        let p = r#"<form method="POST" action="/commit">"#@;
        assert(a.subrange(6, 6 + p.len() as int) =~= p);
        assert(text::stands_at(a, p, 6));
        assert(text::occurs_in(form, a));
        texts::lemma_holds(form, a, p);
        texts::lemma_holds(page, form, p);
        let b = markup::SUBJECT_INPUT@;
        let q = r#"<input type="text" name="message""#@;
        assert(b.subrange(8, 8 + q.len() as int) =~= q);
        assert(text::stands_at(b, q, 8));
        assert(text::occurs_in(form, b));
        texts::lemma_holds(form, b, q);
        texts::lemma_holds(page, form, q);
    }
    if files.len() > 0 && prompts.len() == 0 {
        lemma_plain_form(files, prompts);
        texts::lemma_holds(page, form, r#" required />
        <button type="submit" class="btn btn-success">Commit Selected Files</button>"#@);
    }
}

proof fn lemma_plain_form(files: Seq<ChangedFileView>, prompts: Seq<Seq<char>>)
    requires
        files.len() > 0,
        prompts.len() == 0,
    ensures
        text::occurs_in(templates::commit_form(files, prompts), r#" required />
        <button type="submit" class="btn btn-success">Commit Selected Files</button>"#@),
{
    reveal_strlit(r##"        <input type="text" name="message" placeholder="Commit subject line…" required />
"##);
    reveal_strlit(r##"        <button type="submit" class="btn btn-success">Commit Selected Files</button>
      </form>
"##);
    reveal_strlit(r#" required />
"#);
    reveal_strlit(r#"        <button type="submit" class="btn btn-success">Commit Selected Files</button>"#);
    reveal_strlit(r#" required />
        <button type="submit" class="btn btn-success">Commit Selected Files</button>"#);
    reveal_strlit("");
    let x = markup::COMMIT_FORM_OPEN@ + templates::file_rows(files);
    let a = markup::SUBJECT_INPUT@;
    let c = markup::COMMIT_FORM_CLOSE@;
    let open = r#" required />
"#@;
    let close = r#"        <button type="submit" class="btn btn-success">Commit Selected Files</button>"#@;
    assert(a.skip(a.len() - open.len()) =~= open);
    assert(c.take(close.len() as int) =~= close);
    pages::lemma_spans(x, a, ""@, c, open, close, a.len() - open.len());
    assert(open + ""@ + close =~= r#" required />
        <button type="submit" class="btn btn-success">Commit Selected Files</button>"#@);
}

// ── Answers ─────────────────────────────────────────────────────────────────

/// The main page shows what the server knows, and rests while a run is under way.
pub proof fn law_main_page_of_a_server(app: AppView)
    ensures
        match index::index_answer(app) {
            ReplyView::Html { status, body } => {
                &&& status == 200
                &&& pages::shown(body, templates::project_name(app.config.server.project_dir@))
                &&& text::occurs_in(body, templates::conv_bar(app.conv))
                &&& text::occurs_in(body, templates::status_badge(app.run.status))
                &&& text::occurs_in(body, templates::output_section(app.run))
                &&& text::occurs_in(body, templates::prompts_hint(app.prompts.len()))
                &&& controls_rest(body, app.run.status is Running)
                &&& app.config.server.password@.len() > 0 ==> asks_for_password(body)
                &&& app.config.server.password@.len() == 0 ==> text::occurs_in(
                    body,
                    r#"<div class="header-spacer"></div>
  
</header>"#@,
                )
            },
            _ => false,
        },
{
    broadcast use {pages::lemma_in_front, pages::lemma_in_back, pages::lemma_in_itself};

    let asked = app.config.server.password@.len() > 0;
    let dir = app.config.server.project_dir@;
    let n = app.prompts.len();
    law_main_page(app.run, app.conv, dir, asked, n);
    law_controls_rest_during_a_run(app.run, app.conv, dir, asked, n);
    law_password_is_asked_for(app.run, app.conv, dir, app.prompts, Seq::empty(), asked);
    assert(text::occurs_in(
        templates::index_page(app.run, app.conv, dir, asked, n),
        templates::prompts_hint(n),
    ));
}

/// The commit page offers the files of the listing, and shows the prompts since the last
/// commit.
pub proof fn law_commit_page_of_a_server(
    app: AppView,
    outcome: CommandView,
    files: Seq<ChangedFileView>,
)
    requires
        commit::listing_of(outcome) == (ListingView::Files { files }),
    ensures
        match commit::page_answer(app, outcome) {
            Some(ReplyView::Html { status, body }) => {
                &&& status == 200
                &&& files.len() > 0 ==> offers_files(body, files)
                &&& files.len() > 0 && app.prompts.len() > 0 ==> shows_prompts(body, app.prompts)
                &&& files.len() == 0 ==> text::occurs_in(
                    body,
                    "No changed files in the working tree."@,
                )
                &&& app.config.server.password@.len() > 0 ==> asks_for_password(body)
            },
            _ => false,
        },
{
    let asked = app.config.server.password@.len() > 0;
    law_commit_page_form(files, app.prompts, asked);
    if files.len() > 0 {
        law_commit_page_offers_every_file(files, app.prompts, asked);
        if app.prompts.len() > 0 {
            law_commit_page_shows_every_prompt(files, app.prompts, asked);
        }
    }
    law_password_is_asked_for(
        app.run,
        app.conv,
        app.config.server.project_dir@,
        app.prompts,
        files,
        asked,
    );
}

/// Where the changed files cannot be listed, the commit page says why.
pub proof fn law_commit_page_without_listing(app: AppView, outcome: CommandView)
    ensures
        commit::listing_of(outcome) matches ListingView::Failed { message } ==> (
        commit::page_answer(app, outcome) matches Some(page) && pages::tells(
            page,
            500,
            "git status failed: "@ + message,
        )),
        commit::listing_of(outcome) is Malformed ==> commit::page_answer(app, outcome) is None,
{
    if let ListingView::Failed { message } = commit::listing_of(outcome) {
        pages::law_error_page(500, "git status failed: "@ + message);
    }
}

} // verus!

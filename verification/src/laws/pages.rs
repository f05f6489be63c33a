//! Laws of pages: what a reader sees, and what a form sends.

use vstd::prelude::*;
use vstd::string::*;

use crate::html;
use crate::laws::text as texts;
use crate::reply;
use crate::reply::ReplyView;
use crate::state::{ConvEntryView, ConvView, RunStatusView, RunView};
use crate::templates;
use crate::templates::markup;
use crate::text;

verus! {

pub broadcast proof fn lemma_in_front(a: Seq<char>, b: Seq<char>, p: Seq<char>)
    ensures
        text::occurs_in(a, p) ==> #[trigger] text::occurs_in(a + b, p),
{
    if text::occurs_in(a, p) {
        texts::lemma_holds_front(a, b, p);
    }
}

pub broadcast proof fn lemma_in_back(a: Seq<char>, b: Seq<char>, p: Seq<char>)
    ensures
        text::occurs_in(b, p) ==> #[trigger] text::occurs_in(a + b, p),
{
    if text::occurs_in(b, p) {
        texts::lemma_holds_back(a, b, p);
    }
}

pub broadcast proof fn lemma_in_itself(s: Seq<char>)
    ensures
        #[trigger] text::occurs_in(s, s),
{
    texts::lemma_holds(s, s, s);
}

// ── What a reader sees ──────────────────────────────────────────────────────

/// Whether `x` stands on the page, is no markup, and reads as `message`.
pub open spec fn reads_as(page: Seq<char>, x: Seq<char>, message: Seq<char>) -> bool {
    &&& text::occurs_in(page, x)
    &&& forall|i: int| 0 <= i < x.len() ==> !html::is_markup(#[trigger] x[i])
    &&& texts::browser_reads(x) == message
}

/// Whether a reader of the page sees the message, whole and as it is.
pub open spec fn shown(page: Seq<char>, message: Seq<char>) -> bool {
    exists|x: Seq<char>| reads_as(page, x, message)
}

/// What is escaped into a page is shown.
pub proof fn lemma_escaped_is_shown(page: Seq<char>, message: Seq<char>)
    requires
        text::occurs_in(page, html::escaped(message)),
    ensures
        shown(page, message),
{
    html::law_escaped_is_inert(message);
    texts::law_browser_reads_escaped(message);
    assert(reads_as(page, html::escaped(message), message));
}

/// A character that can begin a tag or end an attribute's value.
pub proof fn law_markup(c: char)
    ensures
        html::is_markup(c) <==> c == '<' || c == '>' || c == '"' || c == '\'',
{
}

/// Whether an answer is a page with this status that shows this message.
pub open spec fn tells(reply: ReplyView, status: u16, message: Seq<char>) -> bool {
    match reply {
        ReplyView::Html { status: s, body } => s == status && shown(body, message),
        _ => false,
    }
}

/// Whether an answer sends the browser to the main page.
pub open spec fn goes_home(reply: ReplyView) -> bool {
    reply matches ReplyView::Redirect { location } && location == "/"@
}

/// An error page has its status and shows its message; its heading names the status.
pub proof fn law_error_page(status: u16, message: Seq<char>)
    ensures
        tells(reply::error_view(status, message), status, message),
        text::occurs_in(templates::error_page(status as nat, message), text::digits(status as nat)),
        goes_home(reply::home_view()),
        reply::home_view().status() == 303,
{
    broadcast use {lemma_in_front, lemma_in_back, lemma_in_itself};

    let page = templates::error_page(status as nat, message);
    assert(text::occurs_in(page, html::escaped(message)));
    lemma_escaped_is_shown(page, message);
}

/// A notice shows its message.
pub proof fn law_notice(message: Seq<char>)
    ensures
        shown(templates::no_diff_page(message), message),
{
    broadcast use {lemma_in_front, lemma_in_back, lemma_in_itself};

    let page = templates::no_diff_page(message);
    assert(text::occurs_in(page, html::escaped(message)));
    lemma_escaped_is_shown(page, message);
}

// ── Conversations ───────────────────────────────────────────────────────────

/// Whether `v` stands on the page as the value of the hidden field of this name.
pub open spec fn sends(page: Seq<char>, name: Seq<char>, v: Seq<char>) -> bool {
    text::occurs_in(
        page,
        r#"<input type="hidden" name=""#@ + name + r#"" value=""#@ + v + r#"" />"#@,
    )
}

proof fn lemma_resume_value(e: ConvEntryView, active: Option<Seq<char>>)
    ensures
        sends(templates::conv_row(e, active), "id"@, html::escaped(e.id)),
{
    broadcast use {lemma_in_front, lemma_in_back, lemma_in_itself};

    let a = markup::ENTRY_FORM_OPEN@;
    let c = markup::ENTRY_CLOSE@;
    let v = html::escaped(e.id);
    let open = r#"<input type="hidden" name=""#@;
    let mid = r#"" value=""#@;
    let close = r#"" />"#@;
    let p = open + "id"@ + mid + v + close;
    reveal_strlit(r##"</span>
          <form method="POST" action="/conversation/resume" style="display:inline">
            <input type="hidden" name="id" value=""##);
    reveal_strlit(r##"" />
            <button type="submit" class="btn btn-secondary btn-sm">Resume</button>
          </form>
        </div>"##);
    reveal_strlit(r#"<input type="hidden" name=""#);
    reveal_strlit(r#"" value=""#);
    reveal_strlit(r#"" />"#);
    reveal_strlit("id");
    let k = (open + "id"@ + mid).len() as int;
    assert(a.skip(a.len() - k) =~= open + "id"@ + mid);
    assert(c.take(4) =~= close);
    assert(a + v + c =~= a.take(a.len() - k) + p + c.skip(4));
    let row = templates::conv_row(e, active);
    assert(text::occurs_in(a.take(a.len() - k) + p + c.skip(4), p));
    let n = row.len() - (a + v + c).len();
    assert(row =~= row.take(n) + (a + v + c));
}

/// Whether the page has a hidden field of this name that sends `value`, whole and as it is.
pub open spec fn sends_value(page: Seq<char>, name: Seq<char>, value: Seq<char>) -> bool {
    exists|v: Seq<char>| #[trigger]
        sends(page, name, v) && texts::browser_reads(v) == value && no_markup(v)
}

/// Whether a text holds nothing that can end an attribute's value or begin a tag.
pub open spec fn no_markup(s: Seq<char>) -> bool {
    forall|i: int| 0 <= i < s.len() ==> !html::is_markup(#[trigger] s[i])
}

/// Of a name up to eight characters are shown, from its beginning.
pub proof fn law_short_names(s: Seq<char>)
    ensures
        s.len() <= 8 ==> crate::state::shortened(s) == s,
        s.len() > 8 ==> crate::state::shortened(s).len() == 8 && forall|i: int|
            0 <= i < 8 ==> #[trigger] crate::state::shortened(s)[i] == s[i],
{
}

/// What a row says of the label, and whether the conversation is the active one.
pub open spec fn row_label(label: Seq<char>, active: bool) -> Seq<char> {
    r#"<span class="conv-entry-label">"#@ + label + (if active {
        " ◀ active"@
    } else {
        ""@
    }) + "</span>"@
}

/// Whether a row says so of this conversation, with `x` for its label.
pub open spec fn labelled(
    row: Seq<char>,
    x: Seq<char>,
    e: ConvEntryView,
    active: Option<Seq<char>>,
) -> bool {
    &&& text::occurs_in(row, row_label(x, active == Some(e.id)))
    &&& no_markup(x)
    &&& e.label.len() > 0 ==> texts::browser_reads(x) == html::truncated(e.label, 60)
    &&& e.label.len() == 0 ==> x == "(no label)"@
}

/// Where `v` stands behind `a` and before `c`, it stands behind the end of `a` and before the
/// beginning of `c`.
pub proof fn lemma_spans(
    x: Seq<char>,
    a: Seq<char>,
    v: Seq<char>,
    c: Seq<char>,
    open: Seq<char>,
    close: Seq<char>,
    n: int,
)
    requires
        0 <= n <= a.len(),
        a.skip(n) == open,
        close.len() <= c.len(),
        c.take(close.len() as int) == close,
    ensures
        text::occurs_in(x + a + v + c, open + v + close),
{
    let k = close.len() as int;
    assert(x + a + v + c =~= (x + a.take(n)) + (open + v + close) + c.skip(k));
    texts::law_searching(x + a.take(n), open + v + close, c.skip(k), x);
}

/// Whether a row of the list is that of this conversation: its form resumes it and no other,
/// and it shows its id, its label and the number of its runs, and whether it is active.
pub open spec fn is_row_of(row: Seq<char>, e: ConvEntryView, active: Option<Seq<char>>) -> bool {
    &&& sends_value(row, "id"@, e.id)
    &&& text::occurs_in(row, r#"<form method="POST" action="/conversation/resume""#@)
    &&& shown(row, crate::state::shortened(e.id))
    &&& exists|x: Seq<char>| labelled(row, x, e, active)
    &&& text::occurs_in(
        row,
        r#"data-unix=""#@ + text::digits(e.started_at as nat) + r#"">"#@ + text::digits(
            e.started_at as nat,
        ) + "</time>"@,
    )
    &&& text::occurs_in(row, text::digits(e.run_count as nat) + if e.run_count == 1 {
        " run"@
    } else {
        " runs"@
    })
}

/// Every conversation has its own row.
pub proof fn lemma_row(e: ConvEntryView, active: Option<Seq<char>>)
    ensures
        is_row_of(templates::conv_row(e, active), e, active),
{
    broadcast use {lemma_in_front, lemma_in_back, lemma_in_itself};

    let row = templates::conv_row(e, active);
    lemma_resume_value(e, active);
    html::law_escaped_is_inert(e.id);
    texts::law_browser_reads_escaped(e.id);
    assert(sends(row, "id"@, html::escaped(e.id)));
    let a = markup::ENTRY_FORM_OPEN@;
    let p = r#"<form method="POST" action="/conversation/resume""#@;
    reveal_strlit(r##"</span>
          <form method="POST" action="/conversation/resume" style="display:inline">
            <input type="hidden" name="id" value=""##);
    reveal_strlit(r#"<form method="POST" action="/conversation/resume""#);
    assert(a.subrange(18, 18 + p.len() as int) =~= p);
    assert(text::stands_at(a, p, 18));
    assert(text::occurs_in(row, a));
    assert(text::occurs_in(row, p));
    assert(text::occurs_in(row, html::escaped(crate::state::shortened(e.id))));
    lemma_escaped_is_shown(row, crate::state::shortened(e.id));
    let x = if e.label.len() == 0 {
        "(no label)"@
    } else {
        html::escaped(html::truncated(e.label, 60))
    };
    if e.label.len() == 0 {
        reveal_strlit("(no label)");
    } else {
        html::law_escaped_is_inert(html::truncated(e.label, 60));
        texts::law_browser_reads_escaped(html::truncated(e.label, 60));
    }
    let mark = if active == Some(e.id) {
        " ◀ active"@
    } else {
        ""@
    };
    let front = markup::ENTRY_ID_OPEN@ + html::escaped(crate::state::shortened(e.id));
    lemma_label_part(front, x, mark);
    assert(text::occurs_in(
        front + markup::ENTRY_LABEL_OPEN@ + x + mark + markup::ENTRY_STARTED_OPEN@,
        row_label(x, active == Some(e.id)),
    ));
    assert(labelled(row, x, e, active));
    lemma_started_part(
        front + markup::ENTRY_LABEL_OPEN@ + x + mark,
        text::digits(e.started_at as nat),
    );
}

proof fn lemma_label_part(front: Seq<char>, x: Seq<char>, mark: Seq<char>)
    ensures
        text::occurs_in(
            front + markup::ENTRY_LABEL_OPEN@ + x + mark + markup::ENTRY_STARTED_OPEN@,
            r#"<span class="conv-entry-label">"#@ + x + mark + "</span>"@,
        ),
{
    let a = markup::ENTRY_LABEL_OPEN@;
    let c = markup::ENTRY_STARTED_OPEN@;
    let open = r#"<span class="conv-entry-label">"#@;
    let close = "</span>"@;
    reveal_strlit(r##"</span>
          <span class="conv-entry-label">"##);
    reveal_strlit(r##"</span>
          <time class="conv-entry-started" data-unix=""##);
    reveal_strlit(r#"<span class="conv-entry-label">"#);
    reveal_strlit("</span>");
    assert(a.skip(18) =~= open);
    assert(c.take(7) =~= close);
    lemma_spans(front, a, x + mark, c, open, close, 18);
    assert(front + a + (x + mark) + c =~= front + a + x + mark + c);
    assert(open + (x + mark) + close =~= open + x + mark + close);
}

proof fn lemma_started_part(front: Seq<char>, d: Seq<char>)
    ensures
        text::occurs_in(
            front + markup::ENTRY_STARTED_OPEN@ + d + markup::TAG_CLOSE@ + d
                + markup::ENTRY_STARTED_CLOSE@,
            r#"data-unix=""#@ + d + r#"">"#@ + d + "</time>"@,
        ),
{
    let a = markup::ENTRY_STARTED_OPEN@;
    let c = markup::ENTRY_STARTED_CLOSE@;
    let open = r#"data-unix=""#@;
    let close = "</time>"@;
    let mid = r#"">"#@;
    reveal_strlit(r##"</span>
          <time class="conv-entry-started" data-unix=""##);
    reveal_strlit(r##"</time>
"##);
    reveal_strlit(r#"data-unix=""#);
    reveal_strlit("</time>");
    assert(a.skip(51) =~= open);
    assert(c.take(7) =~= close);
    lemma_spans(front, a, d + mid + d, c, open, close, 51);
    assert(front + a + (d + mid + d) + c =~= front + a + d + mid + d + c);
    assert(open + (d + mid + d) + close =~= open + d + mid + d + close);
}

/// The rows of these conversations, the latest first.
pub open spec fn rows_of(history: Seq<ConvEntryView>, active: Option<Seq<char>>) -> Seq<Seq<char>> {
    history.reverse().map_values(|e: ConvEntryView| templates::conv_row(e, active))
}

pub proof fn lemma_joined_front(first: Seq<char>, rest: Seq<Seq<char>>)
    ensures
        text::joined(seq![first] + rest, Seq::empty()) == first + text::joined(rest, Seq::empty()),
    decreases rest.len(),
{
    let all = seq![first] + rest;
    let sep = Seq::<char>::empty();
    if rest.len() == 0 {
        assert(all =~= seq![first]);
        assert(text::joined(all, sep) =~= first + text::joined(rest, sep));
    } else {
        lemma_joined_front(first, rest.drop_last());
        assert(all.drop_last() =~= seq![first] + rest.drop_last());
        assert(all.last() == rest.last());
        if rest.len() == 1 {
            assert(text::joined(rest.drop_last(), sep) =~= seq![]);
        }
        assert(text::joined(all, sep) =~= first + text::joined(rest, sep));
    }
}

proof fn lemma_conv_rows(history: Seq<ConvEntryView>, active: Option<Seq<char>>)
    ensures
        templates::conv_rows(history, active) == text::joined(
            rows_of(history, active),
            Seq::empty(),
        ),
    decreases history.len(),
{
    let rows = rows_of(history, active);
    if history.len() == 0 {
        assert(templates::conv_rows(history, active) =~= text::joined(rows, Seq::empty()));
    } else {
        let first = templates::conv_row(history.last(), active);
        lemma_conv_rows(history.drop_last(), active);
        assert(rows =~= seq![first] + rows_of(history.drop_last(), active));
        lemma_joined_front(first, rows_of(history.drop_last(), active));
    }
}

/// Whether `rows` are the rows of these conversations, one for each, the latest first.
pub open spec fn are_rows_of(
    rows: Seq<Seq<char>>,
    history: Seq<ConvEntryView>,
    active: Option<Seq<char>>,
) -> bool {
    &&& rows.len() == history.len()
    &&& forall|k: int|
        0 <= k < rows.len() ==> is_row_of(
            #[trigger] rows[k],
            history[history.len() - 1 - k],
            active,
        )
}

/// Whether a page holds these parts, each whole and in its order, with `sep` between each two
/// and nothing else.
pub open spec fn lists(page: Seq<char>, parts: Seq<Seq<char>>, sep: Seq<char>) -> bool {
    exists|x: Seq<char>| #[trigger] text::occurs_in(page, x) && texts::made_of(x, parts, sep)
}

/// Whether a page lists all conversations, the latest first.
pub open spec fn lists_conversations(page: Seq<char>, conv: ConvView) -> bool {
    exists|rows: Seq<Seq<char>>| #[trigger]
        lists(page, rows, Seq::empty()) && are_rows_of(rows, conv.history, conv.active_id)
}

/// The list of conversations has one row for each, the latest first, and nothing between.
pub proof fn law_conversation_list(conv: ConvView)
    requires
        conv.history.len() > 0,
    ensures
        lists_conversations(templates::conv_list(conv), conv),
{
    broadcast use {lemma_in_front, lemma_in_back, lemma_in_itself};

    let rows = rows_of(conv.history, conv.active_id);
    let x = templates::conv_rows(conv.history, conv.active_id);
    let page = templates::conv_list(conv);
    lemma_conv_rows(conv.history, conv.active_id);
    texts::law_joining(rows, Seq::empty());
    assert(text::occurs_in(page, x));
    assert(lists(page, rows, Seq::empty()));
    assert forall|k: int| 0 <= k < rows.len() implies is_row_of(
        #[trigger] rows[k],
        conv.history[conv.history.len() - 1 - k],
        conv.active_id,
    ) by {
        lemma_row(conv.history[conv.history.len() - 1 - k], conv.active_id);
    }
}

/// Where no conversation is known, the list says so.
pub proof fn law_empty_conversation_list(conv: ConvView)
    requires
        conv.history.len() == 0,
    ensures
        text::occurs_in(templates::conv_list(conv), "No conversation history yet."@),
{
    reveal_strlit(r##"<div class="conv-history" style="padding:1rem;color:var(--text-muted)">
      No conversation history yet.
    </div>"##);
    reveal_strlit("No conversation history yet.");
    let page = templates::conv_list(conv);
    let p = "No conversation history yet."@;
    assert(page.subrange(78, 78 + p.len() as int) =~= p);
    assert(text::stands_at(page, p, 78));
}

/// The conversation bar shows the active conversation: its id, the number of its runs and its
/// label; and where there is none, that the next run begins one.
pub proof fn law_conversation_bar(conv: ConvView, i: int)
    ensures
        conv.is_active(i) ==> {
            let e = conv.history[i];
            let bar = templates::conv_bar(conv);
            &&& shown(bar, crate::state::shortened(e.id))
            &&& text::occurs_in(bar, text::digits(e.run_count as nat) + if e.run_count == 1 {
                " run"@
            } else {
                " runs"@
            })
            &&& e.label.len() > 0 ==> shown(bar, html::truncated(e.label, 40))
        },
        !conv.has_active() ==> text::occurs_in(
            templates::conv_bar(conv),
            "No active conversation — next run will start a new one."@,
        ),
{
    broadcast use {lemma_in_front, lemma_in_back, lemma_in_itself};

    let bar = templates::conv_bar(conv);
    if conv.is_active(i) {
        let e = conv.history[i];
        let k = choose|k: int| conv.is_active(k);
        crate::state::lemma_active_unique(conv, i, k);
        assert(templates::active_of(conv) == Some(e));
        let badge = templates::conv_badge(e);
        assert(text::occurs_in(bar, badge));
        texts::lemma_holds(bar, badge, html::escaped(crate::state::shortened(e.id)));
        assert(text::occurs_in(badge, html::escaped(crate::state::shortened(e.id))));
        lemma_escaped_is_shown(bar, crate::state::shortened(e.id));
        let runs = templates::runs_text(e.run_count as nat);
        assert(text::occurs_in(badge, runs));
        texts::lemma_holds(bar, badge, runs);
        if e.label.len() > 0 {
            let x = html::escaped(html::truncated(e.label, 40));
            assert(text::occurs_in(badge, x));
            texts::lemma_holds(bar, badge, x);
            lemma_escaped_is_shown(bar, html::truncated(e.label, 40));
        }
    }
    if !conv.has_active() {
        let p = "No active conversation — next run will start a new one."@;
        reveal_strlit(r##"<span class="conv-none">No active conversation — next run will start a new one.</span>"##);
        reveal_strlit("No active conversation — next run will start a new one.");
        assert(markup::CONV_NONE@.subrange(24, 24 + p.len() as int) =~= p);
        assert(text::stands_at(markup::CONV_NONE@, p, 24));
        texts::lemma_holds(bar, markup::CONV_NONE@, p);
    }
}

// ── The agent's output ──────────────────────────────────────────────────────

/// A row of the output that holds `v`.
pub open spec fn output_row(class: Seq<char>, v: Seq<char>) -> Seq<char> {
    r#"<span class=""#@ + class + r#"">"#@ + v + "</span>"@
}

/// Whether a row of the output shows this line, and marks it where it is one of the standard
/// error.
pub open spec fn is_line_of(row: Seq<char>, line: Seq<char>) -> bool {
    exists|class: Seq<char>, v: Seq<char>|
        {
            &&& row == #[trigger] output_row(class, v)
            &&& no_markup(v)
            &&& texts::browser_reads(v) == line
            &&& text::begins_with(line, "[stderr] "@) ==> class == "output-line stderr"@
            &&& !text::begins_with(line, "[stderr] "@) ==> class == "output-line"@
        }
}

/// Whether `rows` show these lines, one each.
pub open spec fn are_lines_of(rows: Seq<Seq<char>>, lines: Seq<Seq<char>>) -> bool {
    &&& rows.len() == lines.len()
    &&& forall|k: int| 0 <= k < rows.len() ==> is_line_of(#[trigger] rows[k], lines[k])
}

/// The output shows every line that the run has written, whole and in their order, and
/// nothing between.  Where the run has failed, the reason is shown.
pub proof fn law_output(run: RunView)
    ensures
        run.output.len() > 0 ==> exists|rows: Seq<Seq<char>>| #[trigger]
            lists(templates::output_section(run), rows, "\n"@) && are_lines_of(rows, run.output),
        run.status matches RunStatusView::Failed { reason } ==> shown(
            templates::output_section(run),
            reason,
        ),
        run.status is Done ==> text::occurs_in(
            templates::output_section(run),
            "Run complete (no new commit)."@,
        ),
{
    broadcast use {lemma_in_front, lemma_in_back, lemma_in_itself};

    let page = templates::output_section(run);
    if run.output.len() > 0 {
        let rows = run.output.map_values(|l: Seq<char>| templates::output_line(l));
        let x = templates::output_lines(run.output);
        texts::law_joining(rows, "\n"@);
        assert(text::occurs_in(page, x));
        assert(lists(page, rows, "\n"@));
        assert forall|k: int| 0 <= k < rows.len() implies is_line_of(
            #[trigger] rows[k],
            run.output[k],
        ) by {
            let line = run.output[k];
            html::law_escaped_is_inert(line);
            texts::law_browser_reads_escaped(line);
            let class = if text::begins_with(line, "[stderr] "@) {
                "output-line stderr"@
            } else {
                "output-line"@
            };
            assert(rows[k] == output_row(class, html::escaped(line)));
        }
    }
    if let RunStatusView::Failed { reason } = run.status {
        let notice = templates::run_notice(run.status);
        assert(text::occurs_in(page, notice));
        assert(text::occurs_in(notice, html::escaped(reason)));
        texts::lemma_holds(page, notice, html::escaped(reason));
        lemma_escaped_is_shown(page, reason);
    }
    if run.status is Done {
        let p = "Run complete (no new commit)."@;
        let c = markup::RUN_COMPLETE@;
        reveal_strlit(r##"<div class="alert alert-info" style="margin-bottom:0.75rem">
          Run complete (no new commit).
        </div>"##);
        reveal_strlit("Run complete (no new commit).");
        assert(c.subrange(71, 71 + p.len() as int) =~= p);
        assert(text::stands_at(c, p, 71));
        assert(text::occurs_in(page, c));
        texts::lemma_holds(page, c, p);
    }
}

/// The box of the output follows the live stream while a run is under way, and only then.
pub proof fn law_output_follows_the_run(run: RunView)
    ensures
        text::occurs_in(
            templates::output_section(run),
            r#"<div class="output-box" id="agent-output""#@ + (if run.status is Running {
                r#" data-sse-running="true""#@
            } else {
                ""@
            }) + ">"@,
        ),
{
    broadcast use {lemma_in_front, lemma_in_back, lemma_in_itself};

    let a = markup::OUTPUT_CARD_OPEN@ + templates::run_notice(run.status);
    let b = markup::OUTPUT_BOX_OPEN@;
    let open = r#"<div class="output-box" id="agent-output""#@;
    let attr = if run.status is Running {
        r#" data-sse-running="true""#@
    } else {
        ""@
    };
    reveal_strlit(r##"
        <div class="output-box" id="agent-output""##);
    reveal_strlit(r#"<div class="output-box" id="agent-output""#);
    assert(b.skip(9) =~= open);
    let p = open + attr + ">"@;
    let page = templates::output_section(run);
    let c = templates::output_inner(run) + markup::OUTPUT_CARD_CLOSE@;
    assert(page =~= a + b.take(9) + p + c);
}

/// The badge names the phase.
pub proof fn law_badge(status: RunStatusView)
    ensures
        text::occurs_in(templates::status_badge(status), match status {
            RunStatusView::Idle => "○ Idle"@,
            RunStatusView::Running => "● Running"@,
            RunStatusView::Done => "✔ Done"@,
            RunStatusView::Failed { .. } => "✖ Failed"@,
        }),
{
    broadcast use {lemma_in_front, lemma_in_back, lemma_in_itself};

}

} // verus!

//! The fixed parts of the pages.

use vstd::prelude::*;

verus! {

/// The beginning of every page, up to its title.
pub const DOC_OPEN: &'static str = r##"<!DOCTYPE html>
<html lang="en">
<head>
  <meta charset="UTF-8" />
  <meta name="viewport" content="width=device-width, initial-scale=1.0" />
  <title>"##;

/// From the title to the style sheet.
pub const STYLE_OPEN: &'static str = r##"</title>
  <style>"##;

/// The end of the style sheet.
pub const STYLE_CLOSE: &'static str = r##"</style>
"##;

/// From the style sheet to the content of a page with a plain header.
pub const PLAIN_BODY_OPEN: &'static str = r##"</head>
<body>
<header><h1>agent2web</h1></header>
<main>
"##;

/// The end of a page with a plain header.
pub const PLAIN_BODY_CLOSE: &'static str = r##"      <p style="margin-top:1rem"><a href="/" style="color:var(--accent)">← Back to home</a></p>
    </div>
  </div>
</main>
</body>
</html>"##;

/// The card of an error page, up to the status.
pub const ERROR_CARD_OPEN: &'static str = r##"  <div class="card" style="margin-top:2rem">
    <div class="card-header"><h2>Error "##;

/// From the status of an error page to its message.
pub const ERROR_MESSAGE_OPEN: &'static str = r##"</h2></div>
    <div class="card-body">
      <div class="alert alert-error">"##;

/// The end of a notice.
pub const ALERT_CLOSE: &'static str = r##"</div>
"##;

/// The card of a page that has no diff to show, up to its notice.
pub const NO_DIFF_CARD_OPEN: &'static str = r##"  <div class="card" style="margin-top:2rem">
    <div class="card-header"><h2>Diff</h2></div>
    <div class="card-body">
      <div class="alert alert-info">"##;

/// The reference to a script, up to its address.
pub const SCRIPT_OPEN: &'static str = r##"  <script src=""##;

/// From the script's address to the project's name.
pub const INDEX_BODY_OPEN: &'static str = r##"" defer></script>
</head>
<body>

<!-- ── Header ── -->
<header>
  <h1>agent2web</h1>
  <span class="project-name">project: "##;

/// From the project's name to the password field.
pub const HEADER_FIELD_OPEN: &'static str = r##"</span>
  <div class="header-spacer"></div>
  "##;

/// From the password field to the conversation bar.
pub const HEADER_CLOSE: &'static str = r##"
</header>

<!-- ── Conversation status bar ── -->
"##;

/// The password field.
pub const PASSWORD_FIELD: &'static str = r##"<div class="password-group">
          <label for="password">Password:</label>
          <input type="password" id="password" name="password" autocomplete="current-password" />
        </div>"##;

/// From the conversation bar to the status badge.
pub const MAIN_OPEN: &'static str = r##"

<!-- ── Main content ── -->
<main>
  <div class="col-left">

    <!-- ── Voice & Prompt section ── -->
    <div class="card">
      <div class="card-header">
        <h2>Prompt</h2>
        <div style="flex:1"></div>
        "##;

/// From the status badge to the record button's state.
pub const RECORD_BUTTON: &'static str = r##"
      </div>
      <div class="card-body">
        <div class="voice-controls">
          <button class="btn btn-secondary" id="btn-record" "##;

/// From there to the stop button's state.
pub const STOP_BUTTON: &'static str = r##">
            &#x1F3A4; Record
          </button>
          <button class="btn btn-secondary" id="btn-stop" "##;

/// From there to the prompt area's state.
pub const PROMPT_AREA: &'static str = r##">
            &#x23F9; Stop
          </button>
          <div class="record-status" id="record-status">
            <span class="record-dot"></span>
            <span>Ready to record</span>
          </div>
        </div>

        <form method="POST" action="/run" id="run-form">
          <textarea
            id="prompt"
            name="prompt"
            placeholder="Type or dictate your prompt here…"
            rows="4"
            "##;

/// From there to the send button's state.
pub const SEND_BUTTON: &'static str = r##"
          ></textarea>
          <div class="prompt-actions">
            <button type="submit" class="btn btn-primary" "##;

/// From there to the clear button's state.
pub const CLEAR_BUTTON: &'static str = r##">
              &#x25B6; Send to Agent
            </button>
            <button
              type="button"
              class="btn btn-secondary btn-sm"
              onclick="document.getElementById('prompt').value=''"
              "##;

/// From there to the agent's output.
pub const OUTPUT_OPEN: &'static str = r##"
            >
              Clear
            </button>
          </div>
        </form>
      </div>
    </div>

    <!-- ── Agent output section ── -->
    "##;

/// From the agent's output to the commit field's state.
pub const COMMIT_INPUT: &'static str = r##"

    <!-- ── Manual commit section ── -->
    <div class="card">
      <div class="card-header">
        <h2>Commit</h2>
      </div>
      <div class="card-body">
        <form method="POST" action="/commit">
          <div class="commit-row">
            <input
              type="text"
              name="message"
              placeholder="Commit subject line…"
              "##;

/// From there to the commit button's state.
pub const COMMIT_BUTTON: &'static str = r##"
            />
            <button type="submit" class="btn btn-success" "##;

/// From there to the hint on the prompts.
pub const COMMIT_HINT: &'static str = r##">
              &#x2714; Commit
            </button>
          </div>
          <p class="commit-hint">
            "##;

/// From there to the script.
pub const ACTIONS: &'static str = r##"
          </p>
        </form>
      </div>
    </div>

  </div><!-- .col-left -->

  <div class="col-right">

    <!-- ── Diff section ── -->
    <div class="card">
      <div class="card-header">
        <h2>Diff</h2>
      </div>
      <div class="card-body">
        <p class="commit-hint" style="margin-bottom:0.75rem">
          Opens in a new page — use &#x2190; Back to return here.
        </p>
        <div class="diff-controls">
          <a href="/diff" class="btn btn-secondary btn-sm">View Working-Tree Diff</a>
          <a href="/diff/range?from=HEAD~3&amp;to=HEAD" class="btn btn-secondary btn-sm">HEAD~3..HEAD</a>
          <a href="/commit" class="btn btn-secondary btn-sm">Review &amp; Commit</a>
        </div>
      </div>
    </div>

  </div><!-- .col-right -->
</main>

<script>"##;

/// The end of the main page.
pub const INDEX_CLOSE: &'static str = r##"</script>
</body>
</html>"##;

/// The badge of the active conversation, up to its id.
pub const CONV_BADGE_OPEN: &'static str = r##"<span class="conv-badge">
        <span class="conv-id">"##;

/// From the id to the number of runs.
pub const CONV_RUNS_OPEN: &'static str = r##"</span>
        <span class="conv-runs">("##;

/// From the number of runs to the label.
pub const CONV_RUNS_CLOSE: &'static str = r##")</span>
        "##;

/// The label in the bar, up to its text.
pub const CONV_LABEL_OPEN: &'static str = r##"<span style="color:var(--text-muted);font-size:0.78rem">&nbsp;·&nbsp;"##;

/// The end of a span.
pub const SPAN_CLOSE: &'static str = r##"</span>"##;

/// From the label to the end of the badge.
pub const CONV_BADGE_CLOSE: &'static str = r##"
      </span>"##;

/// What the bar says where no conversation is active.
pub const CONV_NONE: &'static str = r##"<span class="conv-none">No active conversation — next run will start a new one.</span>"##;

/// The beginning of the conversation bar.
pub const CONV_BAR_OPEN: &'static str = r##"<div class="conv-bar">
    "##;

/// The controls of the conversation bar.
pub const CONV_BAR_CLOSE: &'static str = r##"
    <div class="conv-bar-spacer"></div>
    <form method="POST" action="/conversation/new" style="display:inline">
      <input type="text" name="label" placeholder="Label (optional)" />
      <button type="submit" class="btn btn-secondary btn-sm">&#x2295; New Conversation</button>
    </form>
    <button
      class="btn btn-secondary btn-sm"
      hx-get="/conversation/list"
      hx-target="#conv-history-panel"
      hx-swap="innerHTML"
      hx-trigger="click"
      onclick="document.getElementById('conv-history-panel').hidden = !document.getElementById('conv-history-panel').hidden"
    >&#x1F4C4; History</button>
  </div>
  <div id="conv-history-panel" hidden></div>"##;

/// A status badge, up to its class.
pub const BADGE_OPEN: &'static str = r##"<span class="status-badge "##;

/// The end of an attribute and of its tag.
pub const TAG_CLOSE: &'static str = r##"">"##;

/// What the output box says before the first run.
pub const OUTPUT_EMPTY: &'static str = r##"<span class="output-empty">Agent output will stream here during a run.</span>"##;

/// A line of the agent's output, up to its class.
pub const LINE_OPEN: &'static str = r##"<span class=""##;

/// The attribute that makes the script follow the run.
pub const SSE_ATTR: &'static str = r##" data-sse-running="true""##;

/// The notice of a failed run, up to its reason.
pub const RUN_FAILED_OPEN: &'static str = r##"<div class="alert alert-error" style="margin-bottom:0.75rem">
          Run failed: "##;

/// The end of a notice on a run.
pub const NOTICE_CLOSE: &'static str = r##"
        </div>"##;

/// The notice of a run that ended well.
pub const RUN_COMPLETE: &'static str = r##"<div class="alert alert-info" style="margin-bottom:0.75rem">
          Run complete (no new commit).
        </div>"##;

/// The card of the agent's output, up to its notice.
pub const OUTPUT_CARD_OPEN: &'static str = r##"<div class="card">
      <div class="card-header">
        <h2>Agent Output</h2>
      </div>
      <div class="card-body">
        "##;

/// From the notice to the attributes of the output box.
pub const OUTPUT_BOX_OPEN: &'static str = r##"
        <div class="output-box" id="agent-output""##;

/// The end of the card of the agent's output.
pub const OUTPUT_CARD_CLOSE: &'static str = r##"</div>
      </div>
    </div>"##;

/// The list where there are no conversations.
pub const CONV_LIST_EMPTY: &'static str = r##"<div class="conv-history" style="padding:1rem;color:var(--text-muted)">
      No conversation history yet.
    </div>"##;

/// The beginning of the list of conversations.
pub const CONV_LIST_OPEN: &'static str = r##"<div class="conv-history">"##;

/// The end of a block.
pub const DIV_CLOSE: &'static str = r##"</div>"##;

/// A conversation in the list, up to its id.
pub const ENTRY_ID_OPEN: &'static str = r##"<div class="conv-entry">
          <span class="conv-entry-id">"##;

/// From the id to the label.
pub const ENTRY_LABEL_OPEN: &'static str = r##"</span>
          <span class="conv-entry-label">"##;

/// From the label to the time of the start.
pub const ENTRY_STARTED_OPEN: &'static str = r##"</span>
          <time class="conv-entry-started" data-unix=""##;

/// The end of the time of the start.
pub const ENTRY_STARTED_CLOSE: &'static str = r##"</time>
"##;

/// From the time to the number of runs.
pub const ENTRY_META_OPEN: &'static str = r##"          <span class="conv-entry-meta">"##;

/// From the number of runs to the id to resume.
pub const ENTRY_FORM_OPEN: &'static str = r##"</span>
          <form method="POST" action="/conversation/resume" style="display:inline">
            <input type="hidden" name="id" value=""##;

/// The end of a conversation in the list.
pub const ENTRY_CLOSE: &'static str = r##"" />
            <button type="submit" class="btn btn-secondary btn-sm">Resume</button>
          </form>
        </div>"##;

/// From the style sheet of the commit page to its password field.
pub const COMMIT_PAGE_OPEN: &'static str = r##"</head>
<body>
<header>
  <h1>agent2web</h1>
  <div class="header-spacer"></div>
  "##;

/// From the password field to the content of the commit page.
pub const COMMIT_CARD_OPEN: &'static str = r##"
</header>
<main>
  <div class="card">
    <div class="card-header"><h2>Commit Changes</h2></div>
    <div class="card-body">
"##;

/// The notice where no file has changed.
pub const NO_CHANGES: &'static str = r##"      <div class="alert alert-info">No changed files in the working tree.</div>
"##;

/// The form of the commit page, up to its files.
pub const COMMIT_FORM_OPEN: &'static str = r##"      <form method="POST" action="/commit">
        <p>Changed files (select to include):</p>
"##;

/// The row of a changed file, up to its path.
pub const FILE_ROW_OPEN: &'static str = r##"        <label class="file-row">
          <input type="checkbox" name="files[]" checked value=""##;

/// From the path as a value to the status.
pub const FILE_STATUS_OPEN: &'static str = r##"" />
          <code>"##;

/// From the status to the path.
pub const FILE_PATH_OPEN: &'static str = r##"</code> "##;

/// The end of the row of a changed file.
pub const FILE_ROW_CLOSE: &'static str = r##"
        </label>
"##;

/// From the files to the preview of the prompts.
pub const SUBJECT_INPUT: &'static str = r##"        <input type="text" name="message" placeholder="Commit subject line…" required />
"##;

/// The beginning of the preview of the prompts.
pub const PROMPTS_OPEN: &'static str = r##"        <label><input type="checkbox" name="include_prompts" checked /> Prompts to be appended to commit body:</label>
        <ul>
"##;

/// The beginning of a prompt.
pub const PROMPT_OPEN: &'static str = r##"          <li>"##;

/// The end of a prompt.
pub const PROMPT_CLOSE: &'static str = r##"</li>
"##;

/// The end of the preview of the prompts.
pub const PROMPTS_CLOSE: &'static str = r##"        </ul>
"##;

/// The end of the form of the commit page.
pub const COMMIT_FORM_CLOSE: &'static str = r##"        <button type="submit" class="btn btn-success">Commit Selected Files</button>
      </form>
"##;

/// From the form to the script.
pub const COMMIT_PAGE_CLOSE: &'static str = r##"      <p style="margin-top:1rem">
        <a href="/diff" class="btn btn-secondary btn-sm">View Diff</a>
        <a href="/" style="color:var(--accent)">← Back to home</a>
      </p>
    </div>
  </div>
</main>

<script>"##;

} // verus!

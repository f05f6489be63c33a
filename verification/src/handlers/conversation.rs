//! The requests that manage conversations.

use vstd::prelude::*;
use vstd::string::*;

use crate::agent;
use crate::agent::create_new_conversation;
use crate::auth;
use crate::auth::check_password;
use crate::process::CommandOutcome;
use crate::process::CommandView;
use crate::reply;
use crate::reply::{error_reply, home_reply, Reply, ReplyView};
use crate::state;
use crate::state::{AppState, AppView, ConvEntry, ConvEntryView, ConvView};
use crate::templates;
use crate::templates::render_conv_list;
use crate::text;
use crate::text::trim;

verus! {

// ── A new conversation ──────────────────────────────────────────────────────

/// The form of a request for a new conversation.
#[derive(Debug)]
pub struct NewConvForm {
    /// A short description, or nothing.
    pub label: String,
    /// The password, on servers that ask for one.
    pub password: String,
}

/// What is said where a run is under way.
pub const NEW_WHILE_RUNNING: &'static str =
    "Cannot start a new conversation while a run is in progress.";

/// What is said where a run is under way.
pub const SWITCH_WHILE_RUNNING: &'static str =
    "Cannot switch conversations while a run is in progress.";

/// What is said where the conversation is not known.
pub const UNKNOWN_CONVERSATION: &'static str = "Conversation ID not found in history.";

/// The arguments for `forge` that make a new conversation.
pub fn new_args() -> (r: Vec<String>)
    ensures
        text::strings(r@) == seq!["conversation"@, "new"@],
{
    let mut args: Vec<String> = Vec::new();
    args.push("conversation".to_owned());
    args.push("new".to_owned());
    assert(text::strings(args@) =~= seq!["conversation"@, "new"@]);
    args
}

/// The arguments for `forge` that list its conversations.
pub fn list_args() -> (r: Vec<String>)
    ensures
        text::strings(r@) == seq!["conversation"@, "list"@],
{
    let mut args: Vec<String> = Vec::new();
    args.push("conversation".to_owned());
    args.push("list".to_owned());
    assert(text::strings(args@) =~= seq!["conversation"@, "list"@]);
    args
}

/// The answer that refuses a request for a new conversation, if it is to be refused.
pub open spec fn new_refusal(app: AppView, password: Seq<char>) -> Option<ReplyView> {
    if !auth::admits(app.config.server.password@, password) {
        Some(reply::error_view(403, auth::WRONG_PASSWORD@))
    } else if app.run.status is Running {
        Some(reply::error_view(409, NEW_WHILE_RUNNING@))
    } else {
        None
    }
}

/// Takes a request for a new conversation.  `None`: `forge conversation new` is to be run.
pub fn post_conversation_new(app: &AppState, form: &NewConvForm) -> (r: Option<Reply>)
    ensures
        match new_refusal(app@, form.password@) {
            Some(page) => r matches Some(reply) && reply@ == page,
            None => r is None,
        },
{
    if let Some(reply) = check_password(&app.config.server, form.password.as_str()) {
        return Some(reply);
    }
    if app.run.status.is_running() {
        return Some(error_reply(409, NEW_WHILE_RUNNING));
    }
    None
}

/// The conversations with one more, which is the active one and has seen no run.
pub open spec fn with_conversation(
    conv: ConvView,
    id: Seq<char>,
    label: Seq<char>,
    now: u64,
) -> ConvView {
    ConvView {
        active_id: Some(id),
        history: conv.history.push(ConvEntryView { id, started_at: now, label, run_count: 0 }),
    }
}

/// The server after `forge conversation new`.
pub open spec fn app_after_new(
    app: AppView,
    label: Seq<char>,
    outcome: CommandView,
    now: u64,
) -> AppView {
    match agent::new_conversation(app.config.forge.binary@, outcome) {
        Ok(id) => AppView {
            conv: with_conversation(app.conv, id, text::trimmed(label), now),
            ..app
        },
        Err(_) => app,
    }
}

/// The answer after `forge conversation new`.
pub open spec fn new_answer(binary: Seq<char>, outcome: CommandView) -> ReplyView {
    match agent::new_conversation(binary, outcome) {
        Ok(_) => reply::home_view(),
        Err(message) => reply::error_view(500, "Failed to create new conversation: "@ + message),
    }
}

/// Records the conversation that `forge conversation new` has made, at the time `now`.
pub fn record_new_conversation(
    app: &mut AppState,
    form: &NewConvForm,
    outcome: &CommandOutcome,
    now: u64,
) -> (r: Reply)
    ensures
        final(app)@ == app_after_new(old(app)@, form.label@, outcome@, now),
        r@ == new_answer(old(app)@.config.forge.binary@, outcome@),
{
    match create_new_conversation(app.config.forge.binary.as_str(), outcome) {
        Ok(id) => {
            let label = trim(form.label.as_str());
            let entry = ConvEntry::new(id.clone(), label, now);
            app.conv.active_id = Some(id);
            app.conv.history.push(entry);
            assert(state::entries(app.conv.history@) =~= state::entries(
                old(app).conv.history@,
            ).push(entry@));
            home_reply()
        },
        Err(message) => {
            let said = "Failed to create new conversation: ".to_owned().concat(message.as_str());
            error_reply(500, said.as_str())
        },
    }
}

// ── The list ────────────────────────────────────────────────────────────────

/// The list of conversations, as an answer.
pub open spec fn list_answer(app: AppView) -> ReplyView {
    ReplyView::Html { status: 200, body: templates::conv_list(app.conv) }
}

/// Answers a request for the list of conversations.
pub fn get_conversation_list(app: &AppState) -> (r: Reply)
    ensures
        r@ == list_answer(app@),
{
    Reply::Html { status: 200, body: render_conv_list(&app.conv) }
}

// ── An old conversation ─────────────────────────────────────────────────────

/// The form of a request to resume a conversation.
#[derive(Debug)]
pub struct ResumeConvForm {
    /// The agent's name for the conversation.
    pub id: String,
    /// The password, on servers that ask for one.
    pub password: String,
}

/// The answer that refuses a request to resume a conversation, if it is to be refused.
pub open spec fn resume_refusal(app: AppView, form: ResumeConvForm) -> Option<ReplyView> {
    if !auth::admits(app.config.server.password@, form.password@) {
        Some(reply::error_view(403, auth::WRONG_PASSWORD@))
    } else if app.run.status is Running {
        Some(reply::error_view(409, SWITCH_WHILE_RUNNING@))
    } else if !state::known_id(app.conv.history, text::trimmed(form.id@)) {
        Some(reply::error_view(400, UNKNOWN_CONVERSATION@))
    } else {
        None
    }
}

/// The server after a request to resume a conversation: where it is not refused, that
/// conversation is the active one.
pub open spec fn app_after_resume(app: AppView, form: ResumeConvForm) -> AppView {
    if resume_refusal(app, form) is Some {
        app
    } else {
        AppView {
            conv: ConvView {
                active_id: Some(text::trimmed(form.id@)),
                history: app.conv.history,
            },
            ..app
        }
    }
}

/// The answer to a request to resume a conversation.
pub open spec fn resume_answer(app: AppView, form: ResumeConvForm) -> ReplyView {
    match resume_refusal(app, form) {
        Some(page) => page,
        None => reply::home_view(),
    }
}

/// Takes a request to resume a conversation.
pub fn post_conversation_resume(app: &mut AppState, form: ResumeConvForm) -> (r: Reply)
    ensures
        final(app)@ == app_after_resume(old(app)@, form),
        r@ == resume_answer(old(app)@, form),
{
    if let Some(reply) = check_password(&app.config.server, form.password.as_str()) {
        return reply;
    }
    if app.run.status.is_running() {
        return error_reply(409, SWITCH_WHILE_RUNNING);
    }
    let id = trim(form.id.as_str());
    if !app.conv.knows(&id) {
        return error_reply(400, UNKNOWN_CONVERSATION);
    }
    app.conv.active_id = Some(id);
    home_reply()
}

// ── Laws ────────────────────────────────────────────────────────────────────

/// A new conversation is the active one, it has seen no run, and every earlier one keeps
/// its place.  Where none can be made, nothing changes.
pub proof fn law_new_conversation_is_active(
    app: AppView,
    label: Seq<char>,
    outcome: CommandView,
    now: u64,
)
    requires
        app.conv.wf(),
    ensures
        ({
            let after = app_after_new(app, label, outcome, now);
            &&& after.conv.wf()
            &&& match agent::new_conversation(app.config.forge.binary@, outcome) {
                Ok(id) => {
                    &&& after.conv.active_id == Some(id)
                    &&& after.conv.history.len() == app.conv.history.len() + 1
                    &&& after.conv.history.last().id == id
                    &&& after.conv.history.last().run_count == 0
                    &&& after.conv.history.drop_last() == app.conv.history
                    &&& after.run == app.run
                    &&& after.prompts == app.prompts
                },
                Err(_) => after == app,
            }
        }),
{
    let after = app_after_new(app, label, outcome, now);
    if agent::new_conversation(app.config.forge.binary@, outcome) is Ok {
        assert(after.conv.history.drop_last() =~= app.conv.history);
        assert(after.conv.history[app.conv.history.len() as int].id == after.conv.active_id->0);
    }
}

/// Only a known conversation can be resumed.  It is then the active one, and the list of
/// conversations is as it was.
pub proof fn law_resumed_conversation_is_known(app: AppView, form: ResumeConvForm)
    requires
        app.conv.wf(),
    ensures
        ({
            let after = app_after_resume(app, form);
            &&& after.conv.wf()
            &&& after.conv.history == app.conv.history
            &&& resume_refusal(app, form) is Some ==> after == app
            &&& resume_refusal(app, form) is None ==> {
                &&& state::known_id(app.conv.history, text::trimmed(form.id@))
                &&& after.conv.active_id == Some(text::trimmed(form.id@))
                &&& after.conv.has_active()
            }
        }),
{
    state::law_active_entry_exists(app_after_resume(app, form).conv);
}

/// A conversation that was left for a new one can be resumed, and all is as it was but for
/// the new entry.
pub proof fn law_left_conversation_can_be_resumed(
    app: AppView,
    label: Seq<char>,
    outcome: CommandView,
    now: u64,
    form: ResumeConvForm,
)
    requires
        app.conv.wf(),
        app.conv.active_id is Some,
        !(app.run.status is Running),
        auth::admits(app.config.server.password@, form.password@),
        text::trimmed(form.id@) == app.conv.active_id->0,
    ensures
        ({
            let left = app_after_new(app, label, outcome, now);
            let back = app_after_resume(left, form);
            &&& resume_refusal(left, form) is None
            &&& back.conv.active_id == app.conv.active_id
            &&& back.conv.history == left.conv.history
        }),
{
    let left = app_after_new(app, label, outcome, now);
    let i = choose|i: int|
        0 <= i < app.conv.history.len() && (#[trigger] app.conv.history[i]).id
            == app.conv.active_id->0;
    assert(left.conv.history[i].id == app.conv.active_id->0);
}

} // verus!

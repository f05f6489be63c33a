//! Laws of conversations: how one is begun, shown, left and resumed.

use vstd::prelude::*;
use vstd::string::*;

use crate::handlers::conversation;
use crate::handlers::conversation::ResumeConvForm;
use crate::laws::pages;
use crate::laws::text as texts;
use crate::process::CommandView;
use crate::reply::ReplyView;
use crate::state;
use crate::state::{AppView, ConvEntryView, ConvView};
use crate::text;

verus! {

/// Whether a request with this password is let through by a server with that password.
pub open spec fn right_password(expected: Seq<char>, provided: Seq<char>) -> bool {
    expected.len() == 0 || provided == expected
}

/// Whether the answer refuses the request: the page has this status and shows this message.
pub open spec fn refuses(
    answer: Option<ReplyView>,
    status: u16,
    message: Seq<char>,
) -> bool {
    answer is Some && pages::tells(answer->0, status, message)
}

// ── Resuming ────────────────────────────────────────────────────────────────

/// The row of a conversation sends the whole id of that conversation.  Posted back, with the
/// right password and while no run is under way, it makes that conversation the active one and
/// changes nothing else.
pub proof fn law_a_row_resumes_its_conversation(
    app: AppView,
    i: int,
    active: Option<Seq<char>>,
    form: ResumeConvForm,
)
    requires
        0 <= i < app.conv.history.len(),
        texts::is_core(form.id@, app.conv.history[i].id),
        right_password(app.config.server.password@, form.password@),
        !(app.run.status is Running),
    ensures
        pages::sends_value(
            crate::templates::conv_row(app.conv.history[i], active),
            "id"@,
            app.conv.history[i].id,
        ),
        conversation::resume_refusal(app, form) is None,
        conversation::app_after_resume(app, form) == (AppView {
            conv: ConvView {
                active_id: Some(app.conv.history[i].id),
                history: app.conv.history,
            },
            ..app
        }),
{
    pages::lemma_row(app.conv.history[i], active);
    texts::law_trimming(form.id@);
    texts::lemma_core_is_unique(form.id@, text::trimmed(form.id@), app.conv.history[i].id);
    assert(state::known_id(app.conv.history, app.conv.history[i].id));
}

/// Whether the history holds the conversation that the form names.
pub open spec fn names_known(history: Seq<ConvEntryView>, named: Seq<char>) -> bool {
    exists|i: int| 0 <= i < history.len() && texts::is_core(named, (#[trigger] history[i]).id)
}

/// A request to resume a conversation is refused for a wrong password, during a run, and for a
/// conversation that is not known, in this order, and for nothing else.  A refused request
/// changes nothing.
pub proof fn law_resuming_is_refused(app: AppView, form: ResumeConvForm)
    ensures
        ({
            let right = right_password(app.config.server.password@, form.password@);
            let running = app.run.status is Running;
            let known = names_known(app.conv.history, form.id@);
            let answer = conversation::resume_refusal(app, form);
            &&& !right ==> refuses(answer, 403, "Incorrect password."@)
            &&& right && running ==> refuses(
                answer,
                409,
                "Cannot switch conversations while a run is in progress."@,
            )
            &&& right && !running && !known ==> refuses(
                answer,
                400,
                "Conversation ID not found in history."@,
            )
            &&& right && !running && known ==> answer is None
            &&& !(right && !running && known) ==> conversation::app_after_resume(app, form) == app
        }),
{
    pages::law_error_page(403, "Incorrect password."@);
    pages::law_error_page(409, "Cannot switch conversations while a run is in progress."@);
    pages::law_error_page(400, "Conversation ID not found in history."@);
    let named = text::trimmed(form.id@);
    texts::law_trimming(form.id@);
    let history = app.conv.history;
    if state::known_id(history, named) {
        let i = choose|i: int| 0 <= i < history.len() && (#[trigger] history[i]).id == named;
        assert(texts::is_core(form.id@, history[i].id));
    }
    if names_known(history, form.id@) {
        let i = choose|i: int|
            0 <= i < history.len() && texts::is_core(form.id@, (#[trigger] history[i]).id);
        texts::lemma_core_is_unique(form.id@, named, history[i].id);
        assert(state::known_id(history, named));
    }
}

// ── Beginning ───────────────────────────────────────────────────────────────

/// A request for a new conversation is refused for a wrong password and during a run, in this
/// order, and for nothing else.
pub proof fn law_beginning_is_refused(app: AppView, password: Seq<char>)
    ensures
        ({
            let right = right_password(app.config.server.password@, password);
            let running = app.run.status is Running;
            let answer = conversation::new_refusal(app, password);
            &&& !right ==> refuses(answer, 403, "Incorrect password."@)
            &&& right && running ==> refuses(
                answer,
                409,
                "Cannot start a new conversation while a run is in progress."@,
            )
            &&& right && !running ==> answer is None
        }),
{
    pages::law_error_page(403, "Incorrect password."@);
    pages::law_error_page(409, "Cannot start a new conversation while a run is in progress."@);
}

/// Whether `after` is `before` with one conversation more, of this id, which is the active one.
pub open spec fn begins(
    before: AppView,
    after: AppView,
    id: Seq<char>,
    label: Seq<char>,
    now: u64,
) -> bool {
    let n = before.conv.history.len() as int;
    &&& after.run == before.run
    &&& after.prompts == before.prompts
    &&& after.config == before.config
    &&& after.commits == before.commits
    &&& after.conv.active_id == Some(id)
    &&& after.conv.history.len() == n + 1
    &&& forall|i: int|
        0 <= i < n ==> #[trigger] after.conv.history[i] == before.conv.history[i]
    &&& after.conv.history[n].id == id
    &&& texts::is_core(label, after.conv.history[n].label)
    &&& after.conv.history[n].started_at == now
    &&& after.conv.history[n].run_count == 0
}

/// Whether what the agent has written, or the first word of it, names a conversation.
pub open spec fn names(outcome: CommandView, id: Seq<char>) -> bool {
    match outcome {
        CommandView::Exited { success, stdout, .. } => success && texts::is_first_word(
            text::lossy_text(stdout),
            id,
        ),
        _ => false,
    }
}

/// A new conversation has the first word that the agent has written for its id, the label as
/// it was asked for but for white space around it, the time and no runs, and it is the active
/// one.  What was there stays.  Where the agent has named none, nothing changes.
pub proof fn law_a_conversation_is_begun(
    app: AppView,
    label: Seq<char>,
    outcome: CommandView,
    now: u64,
    id: Seq<char>,
)
    ensures
        ({
            let after = conversation::app_after_new(app, label, outcome, now);
            let answer = conversation::new_answer(app.config.forge.binary@, outcome);
            &&& names(outcome, id) ==> begins(app, after, id, label, now) && pages::goes_home(
                answer,
            )
            &&& (forall|w: Seq<char>| !#[trigger] names(outcome, w)) ==> after == app
        }),
{
    texts::law_trimming(label);
    if let CommandView::Exited { success, stdout, .. } = outcome {
        let out = text::lossy_text(stdout);
        texts::law_first_word(out);
        if names(outcome, id) {
            texts::lemma_first_word_is_unique(out, id);
        }
        if success && text::first_word(out) is Some {
            assert(names(outcome, text::first_word(out)->0));
        }
    }
}

/// Where the agent cannot be run or names no conversation, the answer says why.
pub proof fn law_why_none_is_begun(binary: Seq<char>, outcome: CommandView)
    ensures
        ({
            let answer = conversation::new_answer(binary, outcome);
            let start = "Failed to create new conversation: "@;
            match outcome {
                CommandView::NotStarted { error } => pages::tells(
                    answer,
                    500,
                    start + ("Failed to spawn '"@ + binary + "': "@ + error),
                ),
                CommandView::Lost { error } => pages::tells(
                    answer,
                    500,
                    start + ("Failed to spawn '"@ + binary + "': "@ + error),
                ),
                CommandView::Exited { success, stdout, stderr } => {
                    let said = text::lossy_text(stderr);
                    let out = text::lossy_text(stdout);
                    &&& !success ==> exists|why: Seq<char>| #[trigger]
                        texts::is_core(said, why) && pages::tells(
                            answer,
                            500,
                            start + ("forge conversation new failed: "@ + why),
                        )
                    &&& success && texts::blank_between(out, 0, out.len() as int) ==> pages::tells(
                        answer,
                        500,
                        start + "forge conversation new produced no output"@,
                    )
                },
            }
        }),
{
    let start = "Failed to create new conversation: "@;
    match outcome {
        CommandView::NotStarted { error } => {
            pages::law_error_page(500, start + ("Failed to spawn '"@ + binary + "': "@ + error));
        },
        CommandView::Lost { error } => {
            pages::law_error_page(500, start + ("Failed to spawn '"@ + binary + "': "@ + error));
        },
        CommandView::Exited { success, stdout, stderr } => {
            let said = text::lossy_text(stderr);
            let out = text::lossy_text(stdout);
            let why = text::trimmed(said);
            texts::law_trimming(said);
            pages::law_error_page(500, start + ("forge conversation new failed: "@ + why));
            pages::law_error_page(500, start + "forge conversation new produced no output"@);
            texts::law_first_word(out);
            if !success {
                assert(texts::is_core(said, why) && pages::tells(
                    conversation::new_answer(binary, outcome),
                    500,
                    start + ("forge conversation new failed: "@ + why),
                ));
            }
            if texts::blank_between(out, 0, out.len() as int) && text::first_word(out) is Some {
                let w = text::first_word(out)->0;
                let i = choose|i: int| texts::first_word_at(out, w, i);
                assert(out[i] == w[0]);
            }
        },
    }
}

/// A request to resume a conversation that is not refused sends the browser to the main page;
/// the answer to one that is refused is the refusal.
pub proof fn law_answer_to_resuming(app: AppView, form: ResumeConvForm)
    ensures
        conversation::resume_refusal(app, form) matches Some(page)
            ==> conversation::resume_answer(app, form) == page,
        conversation::resume_refusal(app, form) is None ==> pages::goes_home(
            conversation::resume_answer(app, form),
        ),
{
}

/// The list of conversations is a page of all conversations.
pub proof fn law_list_of_conversations(app: AppView)
    ensures
        match conversation::list_answer(app) {
            ReplyView::Html { status, body } => {
                &&& status == 200
                &&& app.conv.history.len() > 0 ==> pages::lists_conversations(body, app.conv)
                &&& app.conv.history.len() == 0 ==> text::occurs_in(
                    body,
                    "No conversation history yet."@,
                )
            },
            _ => false,
        },
{
    if app.conv.history.len() > 0 {
        pages::law_conversation_list(app.conv);
    } else {
        pages::law_empty_conversation_list(app.conv);
    }
}

/// The active conversation is the first in the history that has the active id.
pub proof fn law_active_conversation(conv: ConvView, i: int)
    ensures
        conv.is_active(i) <==> {
            &&& 0 <= i < conv.history.len()
            &&& conv.active_id == Some(conv.history[i].id)
            &&& forall|j: int|
                0 <= j < i ==> conv.active_id != Some((#[trigger] conv.history[j]).id)
        },
        conv.has_active() <==> exists|j: int|
            0 <= j < conv.history.len() && conv.active_id == Some((#[trigger] conv.history[j]).id),
{
    if conv.has_active() {
        let k = choose|k: int| conv.is_active(k);
        assert(conv.active_id == Some(conv.history[k].id));
    }
    if exists|j: int|
        0 <= j < conv.history.len() && conv.active_id == Some((#[trigger] conv.history[j]).id) {
        let j = choose|j: int|
            0 <= j < conv.history.len() && conv.active_id == Some((#[trigger] conv.history[j]).id);
        lemma_first_active(conv, j);
    }
}

proof fn lemma_first_active(conv: ConvView, j: int)
    requires
        0 <= j < conv.history.len(),
        conv.active_id == Some(conv.history[j].id),
    ensures
        conv.has_active(),
    decreases j,
{
    if exists|k: int| 0 <= k < j && conv.active_id == Some((#[trigger] conv.history[k]).id) {
        let k = choose|k: int|
            0 <= k < j && conv.active_id == Some((#[trigger] conv.history[k]).id);
        lemma_first_active(conv, k);
    } else {
        assert(conv.is_active(j));
    }
}

} // verus!

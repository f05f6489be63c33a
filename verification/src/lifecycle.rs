//! What holds of the server over its whole life.
//!
//! The server's state changes at requests, and as a run goes on.  The laws here speak of
//! every one of these changes, and of every sequence of them.

use vstd::prelude::*;
use vstd::string::*;

use crate::agent;
use crate::agent::{AgentRun, RunEventView, RunLimits, RunStepView};
use crate::auth;
use crate::config::Config;
use crate::handlers::audio;
use crate::handlers::audio::UploadView;
use crate::handlers::commit;
use crate::handlers::commit::{CommitFormView, CommitStepView};
use crate::handlers::conversation;
use crate::handlers::conversation::ResumeConvForm;
use crate::handlers::run;
use crate::handlers::run::RunForm;
use crate::process::CommandView;
use crate::reply;
use crate::state;
use crate::state::{AppView, ConvView, RunStatusView, RunView};
use crate::text;

verus! {

/// Something that may change the server.
pub enum Change {
    /// A request to run the agent.
    RunRequest { request: RunForm },
    /// Something that happens to the agent's process, which has come to this step.
    Process { timeout_secs: nat, at: RunStepView, event: RunEventView },
    /// The end of a run.
    RunEnd { run: AgentRun, result: Result<bool, Seq<char>>, detected: Option<Seq<char>> },
    /// A step of a commit.
    CommitStep { step: CommitStepView, outcome: CommandView },
    /// The outcome of `git log`, when the server starts.
    Refresh { log: CommandView },
    /// The outcome of `forge conversation new`.
    NewConversation { label: Seq<char>, outcome: CommandView, now: u64 },
    /// A request to resume a conversation.
    Resume { form: ResumeConvForm },
}

/// The server after a change.
pub open spec fn changed(app: AppView, change: Change) -> AppView {
    match change {
        Change::RunRequest { request } => run::app_after_run_request(app, request),
        Change::Process { timeout_secs, at, event } => AppView {
            run: agent::run_after(timeout_secs, app.run, at, event),
            ..app
        },
        Change::RunEnd { run, result, detected } => agent::app_after_run(
            app,
            run,
            result,
            detected,
        ),
        Change::CommitStep { step, outcome } => commit::app_after_commit_step(app, step, outcome),
        Change::Refresh { log } => commit::app_refreshed(app, log),
        Change::NewConversation { label, outcome, now } => conversation::app_after_new(
            app,
            label,
            outcome,
            now,
        ),
        Change::Resume { form } => conversation::app_after_resume(app, form),
    }
}

/// The server after a sequence of changes.
pub open spec fn lived(app: AppView, changes: Seq<Change>) -> AppView
    decreases changes.len(),
{
    if changes.len() == 0 {
        app
    } else {
        changed(lived(app, changes.drop_last()), changes.last())
    }
}

/// Whether every conversation of `before` stands at its place in `after`.
pub open spec fn remembers(before: ConvView, after: ConvView) -> bool {
    &&& before.history.len() <= after.history.len()
    &&& forall|i: int|
        0 <= i < before.history.len() ==> (#[trigger] after.history[i]).id == before.history[i].id
}

proof fn lemma_change(app: AppView, change: Change)
    requires
        app.conv.wf(),
    ensures
        changed(app, change).conv.wf(),
        changed(app, change).config == app.config,
        remembers(app.conv, changed(app, change).conv),
        app.conv.active_id is Some ==> changed(app, change).conv.active_id is Some,
{
    match change {
        Change::RunEnd { run, result, detected } => {
            agent::law_run_keeps_conversations(app.conv, run, detected);
        },
        Change::NewConversation { label, outcome, now } => {
            conversation::law_new_conversation_is_active(app, label, outcome, now);
            let after = changed(app, change).conv;
            if after.history != app.conv.history {
                assert forall|i: int| 0 <= i < app.conv.history.len() implies (
                #[trigger] after.history[i]).id == app.conv.history[i].id by {
                    assert(after.history[i] == after.history.drop_last()[i]);
                }
            }
        },
        Change::Resume { form } => {
            conversation::law_resumed_conversation_is_known(app, form);
        },
        _ => {},
    }
}

/// Whatever happens: the active conversation is a known one, there is one from the first on,
/// no conversation is forgotten, and the configuration is as it was.
pub proof fn law_conversations_last(app: AppView, changes: Seq<Change>)
    requires
        app.conv.wf(),
    ensures
        lived(app, changes).conv.wf(),
        lived(app, changes).config == app.config,
        remembers(app.conv, lived(app, changes).conv),
        app.conv.active_id is Some ==> lived(app, changes).conv.active_id is Some,
    decreases changes.len(),
{
    if changes.len() > 0 {
        let before = lived(app, changes.drop_last());
        law_conversations_last(app, changes.drop_last());
        lemma_change(before, changes.last());
        let after = lived(app, changes);
        assert forall|i: int| 0 <= i < app.conv.history.len() implies (
        #[trigger] after.conv.history[i]).id == app.conv.history[i].id by {
            assert(before.conv.history[i].id == app.conv.history[i].id);
        }
    }
}

/// The same of a server that has just been started, which knows no conversation yet.
pub proof fn law_a_new_server_is_sound(config: Config, changes: Seq<Change>)
    ensures
        ({
            let start = AppView {
                run: RunView { status: RunStatusView::Idle, output: Seq::empty() },
                conv: ConvView { active_id: None, history: Seq::empty() },
                prompts: Seq::empty(),
                config,
                commits: Seq::empty(),
            };
            let now = lived(start, changes);
            &&& now.conv.wf()
            &&& now.conv.has_active() == (now.conv.active_id is Some)
            &&& now.config == config
        }),
{
    let start = AppView {
        run: RunView { status: RunStatusView::Idle, output: Seq::empty() },
        conv: ConvView { active_id: None, history: Seq::empty() },
        prompts: Seq::empty(),
        config,
        commits: Seq::empty(),
    };
    law_conversations_last(start, changes);
    state::law_active_entry_exists(lived(start, changes).conv);
}

/// While a run is under way, only its own process and its end change what is known of it, and
/// no request to run, to commit, to begin or to resume a conversation is let through.
pub proof fn law_a_run_is_not_disturbed(
    app: AppView,
    change: Change,
    request: RunForm,
    commit: CommitFormView,
    password: Seq<char>,
    resume: ResumeConvForm,
)
    requires
        app.run.status is Running,
    ensures
        !(change is Process) && !(change is RunEnd) ==> changed(app, change).run == app.run,
        !(change is RunEnd) ==> changed(app, change).run.status is Running,
        run::run_refusal(app, request) is Some,
        commit::commit_begun(app, commit) is Finished,
        conversation::new_refusal(app, password) is Some,
        conversation::resume_refusal(app, resume) is Some,
{
}

/// Prompts are forgotten by a commit that succeeds, and by nothing else.
pub proof fn law_only_a_commit_forgets_prompts(app: AppView, change: Change)
    ensures
        match change {
            Change::CommitStep { step, outcome } => step is Committing && commit::succeeded(
                outcome,
            ) || changed(app, change).prompts == app.prompts,
            _ => app.prompts.len() <= changed(app, change).prompts.len() && changed(
                app,
                change,
            ).prompts.take(app.prompts.len() as int) == app.prompts,
        },
{
    let after = changed(app, change);
    if let Change::RunRequest { request } = change {
        run::law_run_request_forgets_nothing(app, request);
    }
    assert(app.prompts.take(app.prompts.len() as int) =~= app.prompts);
}

/// The list of recent commits is read when the server starts and after a commit that
/// succeeded, and changes at no other time.
pub proof fn law_commits_are_read_anew(app: AppView, change: Change)
    ensures
        match change {
            Change::Refresh { log } => changed(app, change) == commit::app_refreshed(app, log),
            Change::CommitStep { step, outcome } => if step is Refreshing {
                changed(app, change) == commit::app_refreshed(app, outcome)
            } else {
                changed(app, change).commits == app.commits
            },
            _ => changed(app, change).commits == app.commits,
        },
{
}

/// The prompts of the requests to run that were let through, in their order.
pub open spec fn accepted_prompts(app: AppView, changes: Seq<Change>) -> Seq<Seq<char>>
    decreases changes.len(),
{
    if changes.len() == 0 {
        seq![]
    } else {
        let earlier = accepted_prompts(app, changes.drop_last());
        match changes.last() {
            Change::RunRequest { request } => if run::run_refusal(
                lived(app, changes.drop_last()),
                request,
            ) is None {
                earlier.push(text::trimmed(request.prompt@))
            } else {
                earlier
            },
            _ => earlier,
        }
    }
}

/// Whether a change is the end of a commit that succeeded.
pub open spec fn commits(change: Change) -> bool {
    change matches Change::CommitStep { step, outcome } && step is Committing && commit::succeeded(
        outcome,
    )
}

/// The prompts that the next commit carries are all those that were let through since the
/// last one, in their order.
pub proof fn law_prompts_accumulate(app: AppView, changes: Seq<Change>)
    requires
        forall|i: int| 0 <= i < changes.len() ==> !commits(#[trigger] changes[i]),
    ensures
        lived(app, changes).prompts == app.prompts + accepted_prompts(app, changes),
    decreases changes.len(),
{
    let after = lived(app, changes).prompts;
    if changes.len() == 0 {
        assert(after =~= app.prompts + accepted_prompts(app, changes));
    } else {
        let rest = changes.drop_last();
        assert forall|i: int| 0 <= i < rest.len() implies !commits(#[trigger] rest[i]) by {
            assert(rest[i] == changes[i]);
        }
        law_prompts_accumulate(app, rest);
        assert(!commits(changes[changes.len() - 1]));
        assert(after =~= app.prompts + accepted_prompts(app, changes));
    }
}

/// What happens to the agent's process from its start, one after the other.
pub open spec fn processed(limits: RunLimits, events: Seq<RunEventView>) -> Seq<Change>
    decreases events.len(),
{
    if events.len() == 0 {
        seq![]
    } else {
        let earlier = events.drop_last();
        processed(limits, earlier).push(
            Change::Process {
                timeout_secs: limits.timeout_secs,
                at: agent::process_trace(limits, RunStepView::Starting, earlier),
                event: events.last(),
            },
        )
    }
}

proof fn lemma_processed(app: AppView, limits: RunLimits, events: Seq<RunEventView>)
    ensures
        lived(app, processed(limits, events)) == (AppView {
            run: agent::run_trace(limits, app.run, RunStepView::Starting, events),
            ..app
        }),
    decreases events.len(),
{
    if events.len() > 0 {
        let earlier = processed(limits, events.drop_last());
        lemma_processed(app, limits, events.drop_last());
        assert(processed(limits, events).drop_last() =~= earlier);
    }
}

/// From the request to the end of a run: the run is under way all the time, and what its
/// process has written is shown after it, all of it and nothing from an earlier run.
pub proof fn law_output_is_kept(
    app: AppView,
    request: RunForm,
    limits: RunLimits,
    events: Seq<RunEventView>,
    run: AgentRun,
    result: Result<bool, Seq<char>>,
    detected: Option<Seq<char>>,
)
    requires
        run::run_refusal(app, request) is None,
    ensures
        ({
            let begun = changed(app, Change::RunRequest { request });
            let told = lived(begun, processed(limits, events));
            let done = changed(told, Change::RunEnd { run, result, detected });
            &&& begun.run.status is Running
            &&& told.run.status is Running
            &&& !(done.run.status is Running)
            &&& done.run.output == agent::lines_of(limits, RunStepView::Starting, events)
        }),
{
    let begun = changed(app, Change::RunRequest { request });
    let lines = agent::lines_of(limits, RunStepView::Starting, events);
    lemma_processed(begun, limits, events);
    agent::law_output_is_what_was_written(limits, begun.run, RunStepView::Starting, events);
    assert(begun.run.output + lines =~= lines);
}

/// A wrong password is answered with `403 Forbidden` by every request that has effects, and
/// there are none.
pub proof fn law_wrong_password_has_no_effect(
    app: AppView,
    wrong: Seq<char>,
    request: RunForm,
    commit: CommitFormView,
    resume: ResumeConvForm,
    upload: UploadView,
)
    requires
        !auth::admits(app.config.server.password@, wrong),
        request.password@ == wrong,
        commit.password == wrong,
        resume.password@ == wrong,
        upload.password == wrong,
    ensures
        ({
            let page = reply::error_view(403, auth::WRONG_PASSWORD@);
            &&& page.status() == 403
            &&& run::run_refusal(app, request) == Some(page)
            &&& run::app_after_run_request(app, request) == app
            &&& commit::commit_begun(app, commit) == CommitStepView::Finished { reply: page }
            &&& conversation::new_refusal(app, wrong) == Some(page)
            &&& conversation::resume_refusal(app, resume) == Some(page)
            &&& conversation::app_after_resume(app, resume) == app
            &&& audio::after_upload(app.config.server.password@, upload) == audio::refused(
                403,
                auth::WRONG_PASSWORD@,
            )
        }),
{
}

/// Without a configured password every password will do.
pub proof fn law_no_password_is_asked_for(provided: Seq<char>)
    ensures
        auth::admits(Seq::empty(), provided),
{
}

} // verus!

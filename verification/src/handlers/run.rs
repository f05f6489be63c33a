//! The request that starts a run.

use vstd::prelude::*;
use vstd::string::*;

use crate::agent::AgentRun;
use crate::auth;
use crate::auth::check_password;
use crate::reply;
use crate::reply::{error_reply, home_reply, Reply, ReplyView};
use crate::state::{AppState, AppView, RunStatus, RunStatusView, RunView};
use crate::text;
use crate::text::trim;

verus! {

/// The form of a request to run the agent.
#[derive(Debug)]
pub struct RunForm {
    /// What the agent is asked to do.
    pub prompt: String,
    /// The password, on servers that ask for one.
    pub password: String,
}

/// What is said where the prompt is blank.
pub const PROMPT_EMPTY: &'static str = "Prompt must not be empty.";

/// What is said where a run is under way.
pub const RUN_IN_PROGRESS: &'static str =
    "A run is already in progress. Please wait for it to finish.";

/// What became of a request to run the agent.
#[derive(Debug)]
pub enum RunDecision {
    /// The request is refused.
    Refused { reply: Reply },
    /// The run is to be made, and the request is answered.
    Dispatched { run: AgentRun, reply: Reply },
}

/// The answer that refuses a request to run the agent, if it is to be refused.
pub open spec fn run_refusal(app: AppView, form: RunForm) -> Option<ReplyView> {
    if !auth::admits(app.config.server.password@, form.password@) {
        Some(reply::error_view(403, auth::WRONG_PASSWORD@))
    } else if text::trimmed(form.prompt@).len() == 0 {
        Some(reply::error_view(400, PROMPT_EMPTY@))
    } else if app.run.status is Running {
        Some(reply::error_view(409, RUN_IN_PROGRESS@))
    } else {
        None
    }
}

/// The server after a request to run the agent: where it is not refused, the run is under
/// way with nothing written yet, and its prompt is remembered for the next commit.
pub open spec fn app_after_run_request(app: AppView, form: RunForm) -> AppView {
    if run_refusal(app, form) is Some {
        app
    } else {
        AppView {
            run: RunView { status: RunStatusView::Running, output: Seq::empty() },
            prompts: app.prompts.push(text::trimmed(form.prompt@)),
            ..app
        }
    }
}

/// Whether `run` is the run that the form asks for.
pub open spec fn is_run_of(run: AgentRun, app: AppView, form: RunForm, now: u64) -> bool {
    &&& run.prompt@ == text::trimmed(form.prompt@)
    &&& run.is_first_run == (app.conv.active_id is None)
    &&& run.started_at == now
}

/// Takes a request to run the agent, at the time `now`.
pub fn post_run(app: &mut AppState, form: RunForm, now: u64) -> (r: RunDecision)
    ensures
        final(app)@ == app_after_run_request(old(app)@, form),
        match run_refusal(old(app)@, form) {
            Some(page) => r matches RunDecision::Refused { reply } && reply@ == page,
            None => r matches RunDecision::Dispatched { run, reply } && is_run_of(
                run,
                old(app)@,
                form,
                now,
            ) && run.prompt@ == final(app)@.prompts.last() && reply@ == reply::home_view(),
        },
{
    if let Some(reply) = check_password(&app.config.server, form.password.as_str()) {
        return RunDecision::Refused { reply };
    }
    let prompt = trim(form.prompt.as_str());
    if prompt.as_str().is_empty() {
        return RunDecision::Refused { reply: error_reply(400, PROMPT_EMPTY) };
    }
    if app.run.status.is_running() {
        return RunDecision::Refused { reply: error_reply(409, RUN_IN_PROGRESS) };
    }
    app.run.status = RunStatus::Running;
    app.run.output_buf.clear();
    app.prompts_since_commit.push(prompt.clone());
    proof {
        assert(text::strings(app.run.output_buf@) =~= Seq::empty());
        assert(text::strings(app.prompts_since_commit@) =~= text::strings(
            old(app).prompts_since_commit@,
        ).push(prompt@));
    }
    let run = AgentRun::start(app, prompt, now);
    RunDecision::Dispatched { run, reply: home_reply() }
}

// ── Laws ────────────────────────────────────────────────────────────────────

/// One run at a time: after a request that is not refused, every other one is, and
/// changes nothing, until the run has ended.
pub proof fn law_one_run_at_a_time(app: AppView, first: RunForm, second: RunForm)
    requires
        run_refusal(app, first) is None,
    ensures
        ({
            let after = app_after_run_request(app, first);
            &&& run_refusal(after, second) is Some
            &&& app_after_run_request(after, second) == after
        }),
{
}

/// A request leaves the conversations, the commits and the configuration alone, and
/// forgets no prompt.
pub proof fn law_run_request_forgets_nothing(app: AppView, form: RunForm)
    ensures
        ({
            let after = app_after_run_request(app, form);
            &&& after.conv == app.conv
            &&& after.commits == app.commits
            &&& after.config == app.config
            &&& app.prompts.len() <= after.prompts.len()
            &&& after.prompts.take(app.prompts.len() as int) == app.prompts
        }),
{
    let after = app_after_run_request(app, form);
    assert(after.prompts.take(app.prompts.len() as int) =~= app.prompts);
}

} // verus!

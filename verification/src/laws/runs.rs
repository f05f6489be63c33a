//! Laws of runs: what is kept of what the agent writes, how a run ends, and what it leaves.

use vstd::prelude::*;
use vstd::string::*;
use vstd::utf8::*;

use crate::agent;
use crate::agent::{AgentRun, RunEventView, RunLimits, RunStepView};
use crate::handlers::run;
use crate::handlers::run::RunForm;
use crate::handlers::stream;
use crate::laws::conversations;
use crate::laws::pages;
use crate::laws::text as texts;
use crate::process::CommandView;
use crate::state::{AppView, ConvView, RunStatusView, RunView};
use crate::text;

verus! {

// ── One line ────────────────────────────────────────────────────────────────

/// While the process can be writing, a line that it writes to its standard output is shown as
/// it is, and is the last line of the output from then on; a line of its standard error is
/// marked, and otherwise as it is.  What was written before stays.
pub proof fn law_a_line_is_kept(
    timeout_secs: nat,
    run: RunView,
    step: RunStepView,
    line: Seq<char>,
)
    requires
        step is Waiting || step is Killing || step is Draining,
    ensures
        agent::line_of(timeout_secs, step, RunEventView::Stdout { line }) == Some(line),
        agent::run_after(timeout_secs, run, step, RunEventView::Stdout { line }) == (RunView {
            status: run.status,
            output: run.output.push(line),
        }),
        agent::line_of(timeout_secs, step, RunEventView::Stderr { line }) == Some(
            "[stderr] "@ + line,
        ),
        agent::run_after(timeout_secs, run, step, RunEventView::Stderr { line }) == (RunView {
            status: run.status,
            output: run.output.push("[stderr] "@ + line),
        }),
{
}

/// Before the process is started and after all is read, nothing is added to the output.
pub proof fn law_nothing_is_written_outside_a_run(
    timeout_secs: nat,
    run: RunView,
    step: RunStepView,
    event: RunEventView,
)
    requires
        step is Starting || step is Ended,
    ensures
        agent::line_of(timeout_secs, step, event) is None,
        agent::run_after(timeout_secs, run, step, event) == run,
{
}

// ── All lines ───────────────────────────────────────────────────────────────

/// Whether the event ends the time in which the deadline counts.
pub open spec fn settles(event: RunEventView) -> bool {
    event is Deadline || event is Exited || event is Lost
}

/// The line that the last of these events leaves, if it leaves one: what was written, marked
/// where it was written to the standard error; and the remark on the first deadline of a
/// process that is still under way.
pub open spec fn left_by_last(timeout_secs: nat, events: Seq<RunEventView>) -> Option<Seq<char>> {
    match events.last() {
        RunEventView::Stdout { line } => Some(line),
        RunEventView::Stderr { line } => Some("[stderr] "@ + line),
        RunEventView::Deadline => if exists|i: int|
            0 <= i < events.len() - 1 && settles(#[trigger] events[i]) {
            None
        } else {
            Some(
                "[agent2web] Run timed out after "@ + text::digits(timeout_secs)
                    + "s — killing process"@,
            )
        },
        _ => None,
    }
}

/// The lines that these events of a started process leave, in their order.
pub open spec fn written(timeout_secs: nat, events: Seq<RunEventView>) -> Seq<Seq<char>>
    decreases events.len(),
{
    if events.len() == 0 {
        seq![]
    } else {
        match left_by_last(timeout_secs, events) {
            Some(line) => written(timeout_secs, events.drop_last()).push(line),
            None => written(timeout_secs, events.drop_last()),
        }
    }
}

/// Whether the process is still being read.
pub open spec fn still_read(events: Seq<RunEventView>) -> bool {
    forall|i: int| 0 <= i < events.len() ==> !(#[trigger] events[i] is Drained)
}

proof fn lemma_step(limits: RunLimits, events: Seq<RunEventView>)
    requires
        still_read(events),
    ensures
        ({
            let step = agent::process_trace(limits, RunStepView::Waiting, events);
            &&& step is Waiting || step is Killing || step is Draining
            &&& step is Waiting <==> !(exists|i: int|
                0 <= i < events.len() && settles(#[trigger] events[i]))
        }),
    decreases events.len(),
{
    if events.len() > 0 {
        let earlier = events.drop_last();
        let n = events.len() - 1;
        assert forall|i: int| 0 <= i < earlier.len() implies !(
        #[trigger] earlier[i] is Drained) by {
            assert(earlier[i] == events[i]);
        }
        lemma_step(limits, earlier);
        assert(!(events[n] is Drained));
        if exists|i: int| 0 <= i < earlier.len() && settles(#[trigger] earlier[i]) {
            let i = choose|i: int| 0 <= i < earlier.len() && settles(#[trigger] earlier[i]);
            assert(settles(events[i]));
        } else if settles(events[n]) {
            assert(settles(events[n]));
        } else {
            assert forall|i: int| 0 <= i < events.len() implies !settles(#[trigger] events[i]) by {
                if i < n {
                    assert(events[i] == earlier[i]);
                }
            }
        }
    }
}

/// Whatever happens to a started process, the output is what it was, and behind it every line
/// that the process has written, as it was written or marked, in order, and the remark on its
/// deadline; nothing else.
pub proof fn law_output_holds_every_line(
    limits: RunLimits,
    run: RunView,
    events: Seq<RunEventView>,
)
    requires
        still_read(events),
    ensures
        agent::run_trace(limits, run, RunStepView::Waiting, events) == (RunView {
            status: run.status,
            output: run.output + written(limits.timeout_secs, events),
        }),
        agent::lines_of(limits, RunStepView::Waiting, events) == written(
            limits.timeout_secs,
            events,
        ),
    decreases events.len(),
{
    if events.len() == 0 {
        assert(run.output + written(limits.timeout_secs, events) =~= run.output);
    } else {
        let earlier = events.drop_last();
        let n = events.len() - 1;
        assert forall|i: int| 0 <= i < earlier.len() implies !(
        #[trigger] earlier[i] is Drained) by {
            assert(earlier[i] == events[i]);
        }
        law_output_holds_every_line(limits, run, earlier);
        lemma_step(limits, earlier);
        let step = agent::process_trace(limits, RunStepView::Waiting, earlier);
        if step is Waiting {
            assert forall|i: int| 0 <= i < events.len() - 1 implies !settles(
                #[trigger] events[i],
            ) by {
                assert(events[i] == earlier[i]);
            }
        } else {
            let i = choose|i: int| 0 <= i < earlier.len() && settles(#[trigger] earlier[i]);
            assert(settles(events[i]));
        }
        let before = written(limits.timeout_secs, earlier);
        if let Some(line) = left_by_last(limits.timeout_secs, events) {
            assert((run.output + before).push(line) =~= run.output + before.push(line));
        }
    }
}

proof fn lemma_trace_of_parts(
    limits: RunLimits,
    step: RunStepView,
    a: Seq<RunEventView>,
    b: Seq<RunEventView>,
)
    ensures
        agent::process_trace(limits, step, a + b) == agent::process_trace(
            limits,
            agent::process_trace(limits, step, a),
            b,
        ),
    decreases b.len(),
{
    if b.len() == 0 {
        assert(a + b =~= a);
    } else {
        lemma_trace_of_parts(limits, step, a, b.drop_last());
        assert((a + b).drop_last() =~= a + b.drop_last());
        assert((a + b).last() == b.last());
    }
}

proof fn lemma_run_of_parts(
    limits: RunLimits,
    run: RunView,
    step: RunStepView,
    a: Seq<RunEventView>,
    b: Seq<RunEventView>,
)
    ensures
        agent::run_trace(limits, run, step, a + b) == agent::run_trace(
            limits,
            agent::run_trace(limits, run, step, a),
            agent::process_trace(limits, step, a),
            b,
        ),
    decreases b.len(),
{
    if b.len() == 0 {
        assert(a + b =~= a);
    } else {
        lemma_run_of_parts(limits, run, step, a, b.drop_last());
        lemma_trace_of_parts(limits, step, a, b.drop_last());
        assert((a + b).drop_last() =~= a + b.drop_last());
        assert((a + b).last() == b.last());
    }
}

/// From its start to its end, a run leaves exactly what the process has written, in order.
pub proof fn law_output_of_a_whole_run(
    limits: RunLimits,
    run: RunView,
    events: Seq<RunEventView>,
    later: Seq<RunEventView>,
)
    requires
        still_read(events),
        agent::process_trace(limits, RunStepView::Waiting, events) is Draining,
    ensures
        agent::run_trace(
            limits,
            run,
            RunStepView::Starting,
            seq![RunEventView::Started] + events + seq![RunEventView::Drained] + later,
        ) == (RunView {
            status: run.status,
            output: run.output + written(limits.timeout_secs, events),
        }),
{
    let start = seq![RunEventView::Started];
    let end = seq![RunEventView::Drained];
    let empty = Seq::<RunEventView>::empty();
    let starting = RunStepView::Starting;
    assert(start.drop_last() =~= empty);
    assert(end.drop_last() =~= empty);
    assert(agent::process_trace(limits, starting, empty) == starting);
    assert(agent::process_trace(limits, starting, start) is Waiting);
    assert(agent::run_trace(limits, run, starting, empty) == run);
    assert(agent::run_trace(limits, run, starting, start) == run);
    lemma_run_of_parts(limits, run, starting, start, events);
    lemma_trace_of_parts(limits, starting, start, events);
    law_output_holds_every_line(limits, run, events);
    let written_run = agent::run_trace(limits, run, starting, start + events);
    let draining = agent::process_trace(limits, starting, start + events);
    lemma_run_of_parts(limits, run, starting, start + events, end);
    lemma_trace_of_parts(limits, starting, start + events, end);
    assert(agent::process_trace(limits, draining, empty) == draining);
    assert(agent::run_trace(limits, written_run, draining, empty) == written_run);
    assert(agent::process_trace(limits, draining, end) is Ended);
    assert(agent::run_trace(limits, written_run, draining, end) == written_run);
    lemma_run_of_parts(limits, run, starting, start + events + end, later);
    lemma_ended(limits, written_run, agent::process_trace(limits, draining, end), later);
}

proof fn lemma_ended(
    limits: RunLimits,
    run: RunView,
    step: RunStepView,
    events: Seq<RunEventView>,
)
    requires
        step is Ended,
    ensures
        agent::run_trace(limits, run, step, events) == run,
        agent::process_trace(limits, step, events) == step,
    decreases events.len(),
{
    if events.len() > 0 {
        lemma_ended(limits, run, step, events.drop_last());
    }
}

// ── The end of a run ────────────────────────────────────────────────────────

/// Whether no event is one of those that `ends` a phase.
pub open spec fn none_of(events: Seq<RunEventView>, ends: spec_fn(RunEventView) -> bool) -> bool {
    forall|i: int| 0 <= i < events.len() ==> !ends(#[trigger] events[i])
}

proof fn lemma_stays(
    limits: RunLimits,
    step: RunStepView,
    events: Seq<RunEventView>,
    ends: spec_fn(RunEventView) -> bool,
)
    requires
        none_of(events, ends),
        forall|e: RunEventView|
            !ends(e) ==> #[trigger] agent::run_advanced(limits, step, e) == step,
    ensures
        agent::process_trace(limits, step, events) == step,
    decreases events.len(),
{
    if events.len() > 0 {
        let earlier = events.drop_last();
        assert forall|i: int| 0 <= i < earlier.len() implies !ends(#[trigger] earlier[i]) by {
            assert(earlier[i] == events[i]);
        }
        lemma_stays(limits, step, earlier, ends);
        assert(!ends(events[events.len() - 1]));
    }
}

proof fn lemma_one(limits: RunLimits, step: RunStepView, event: RunEventView)
    ensures
        agent::process_trace(limits, step, seq![event]) == agent::run_advanced(limits, step, event),
{
    assert(seq![event].drop_last() =~= Seq::<RunEventView>::empty());
    assert(agent::process_trace(limits, step, Seq::<RunEventView>::empty()) == step);
}

/// A process that ends before its deadline decides how the run ends: with its status, or with
/// the reason for which its end could not be awaited.  What happens while the rest of its
/// output is read, the deadline among it, does not matter.
pub proof fn law_the_process_decides(
    limits: RunLimits,
    before: Seq<RunEventView>,
    last: RunEventView,
    after: Seq<RunEventView>,
)
    requires
        none_of(before, |e: RunEventView| settles(e)),
        none_of(after, |e: RunEventView| e is Drained),
    ensures
        ({
            let end = agent::process_trace(
                limits,
                RunStepView::Starting,
                seq![RunEventView::Started] + before + seq![last] + after + seq![
                    RunEventView::Drained,
                ],
            );
            &&& last matches RunEventView::Exited { success } ==> end == (RunStepView::Ended {
                result: Ok(success),
            })
            &&& last matches RunEventView::Lost { error } ==> end == (RunStepView::Ended {
                result: Err(error),
            })
        }),
{
    if last is Exited || last is Lost {
        let start = seq![RunEventView::Started];
        let starting = RunStepView::Starting;
        let waiting = RunStepView::Waiting;
        lemma_one(limits, starting, RunEventView::Started);
        lemma_stays(limits, waiting, before, |e: RunEventView| settles(e));
        lemma_one(limits, waiting, last);
        let draining = agent::run_advanced(limits, waiting, last);
        lemma_stays(limits, draining, after, |e: RunEventView| e is Drained);
        lemma_one(limits, draining, RunEventView::Drained);
        lemma_trace_of_parts(limits, starting, start, before);
        lemma_trace_of_parts(limits, starting, start + before, seq![last]);
        lemma_trace_of_parts(limits, starting, start + before + seq![last], after);
        lemma_trace_of_parts(
            limits,
            starting,
            start + before + seq![last] + after,
            seq![RunEventView::Drained],
        );
    }
}

/// A process that takes too long is killed, and the run fails with the time that it had.
pub proof fn law_the_deadline_decides(
    limits: RunLimits,
    before: Seq<RunEventView>,
    dying: Seq<RunEventView>,
    after: Seq<RunEventView>,
)
    requires
        none_of(before, |e: RunEventView| settles(e)),
        none_of(dying, |e: RunEventView| e is Reaped),
        none_of(after, |e: RunEventView| e is Drained),
    ensures
        agent::process_trace(
            limits,
            RunStepView::Starting,
            seq![RunEventView::Started] + before + seq![RunEventView::Deadline],
        ) is Killing,
        agent::process_trace(
            limits,
            RunStepView::Starting,
            seq![RunEventView::Started] + before + seq![RunEventView::Deadline] + dying + seq![
                RunEventView::Reaped,
            ] + after + seq![RunEventView::Drained],
        ) == (RunStepView::Ended {
            result: Err("Timed out after "@ + text::digits(limits.timeout_secs) + " seconds"@),
        }),
{
    let start = seq![RunEventView::Started];
    let late = seq![RunEventView::Deadline];
    let reaped = seq![RunEventView::Reaped];
    let starting = RunStepView::Starting;
    let waiting = RunStepView::Waiting;
    let killing = RunStepView::Killing;
    lemma_one(limits, starting, RunEventView::Started);
    lemma_stays(limits, waiting, before, |e: RunEventView| settles(e));
    lemma_one(limits, waiting, RunEventView::Deadline);
    lemma_stays(limits, killing, dying, |e: RunEventView| e is Reaped);
    lemma_one(limits, killing, RunEventView::Reaped);
    let draining = agent::run_advanced(limits, killing, RunEventView::Reaped);
    lemma_stays(limits, draining, after, |e: RunEventView| e is Drained);
    lemma_one(limits, draining, RunEventView::Drained);
    lemma_trace_of_parts(limits, starting, start, before);
    lemma_trace_of_parts(limits, starting, start + before, late);
    lemma_trace_of_parts(limits, starting, start + before + late, dying);
    lemma_trace_of_parts(limits, starting, start + before + late + dying, reaped);
    lemma_trace_of_parts(limits, starting, start + before + late + dying + reaped, after);
    lemma_trace_of_parts(
        limits,
        starting,
        start + before + late + dying + reaped + after,
        seq![RunEventView::Drained],
    );
}

/// Where the agent cannot be started, the run ends at once and says what could not be started,
/// and why.
pub proof fn law_an_agent_that_does_not_start(limits: RunLimits, error: Seq<char>)
    ensures
        agent::process_trace(
            limits,
            RunStepView::Starting,
            seq![RunEventView::NotStarted { error }],
        ) == (RunStepView::Ended {
            result: Err("Failed to spawn '"@ + limits.binary + "': "@ + error),
        }),
{
    lemma_one(limits, RunStepView::Starting, RunEventView::NotStarted { error });
}

// ── What a run leaves ───────────────────────────────────────────────────────

/// A run that ended well is done; one that did not has failed, for the reason that there is.
/// The output stays, and so do the prompts, the configuration and the commits.
pub proof fn law_a_run_is_over(
    app: AppView,
    run: AgentRun,
    result: Result<bool, Seq<char>>,
    detected: Option<Seq<char>>,
)
    ensures
        ({
            let after = agent::app_after_run(app, run, result, detected);
            &&& after.run.output == app.run.output
            &&& after.prompts == app.prompts
            &&& after.config == app.config
            &&& after.commits == app.commits
            &&& result == Ok::<bool, Seq<char>>(true) ==> after.run.status is Done
            &&& result == Ok::<bool, Seq<char>>(false) ==> after.run.status == (
            RunStatusView::Failed { reason: "forge exited with non-zero status"@ })
            &&& result matches Err(reason) ==> after.run.status == (RunStatusView::Failed {
                reason,
            }) && after.conv == app.conv
        }),
{
}

/// Whether `label` is the label of a conversation that begins with this prompt: the prompt,
/// or as much of its beginning as 60 bytes hold, and an ellipsis.
pub open spec fn is_label_of(label: Seq<char>, prompt: Seq<char>) -> bool {
    &&& encode_utf8(prompt).len() <= 60 ==> label == prompt
    &&& encode_utf8(prompt).len() > 60 ==> exists|head: Seq<char>, tail: Seq<char>|
        {
            &&& prompt == #[trigger] (head + tail)
            &&& label == head.push('…')
            &&& encode_utf8(head).len() <= 60
            &&& forall|k: int|
                encode_utf8(head).len() < k <= 60 ==> !#[trigger] is_char_boundary(
                    encode_utf8(prompt),
                    k,
                )
        }
}

/// The label that a prompt gives is the prompt, or its beginning.
pub proof fn law_label(prompt: Seq<char>)
    ensures
        is_label_of(agent::label_of(prompt), prompt),
{
    if encode_utf8(prompt).len() > 60 {
        let end = text::last_cut(prompt, 60);
        let head = text::head_bytes(prompt, end);
        let tail = text::tail_bytes(prompt, end);
        texts::law_last_cut(prompt, 60);
        reveal_strlit("…");
        assert(agent::label_of(prompt) =~= head.push('…'));
        assert(prompt == head + tail);
    }
}

/// The first run of a conversation that the agent has named adds it to the history, with the
/// label that its prompt gives and one run, and makes it the active one.
pub proof fn law_first_run(
    app: AppView,
    run: AgentRun,
    success: bool,
    detected: Option<Seq<char>>,
)
    requires
        run.is_first_run,
    ensures
        ({
            let before = app.conv;
            let after = agent::app_after_run(app, run, Ok(success), detected).conv;
            let n = before.history.len() as int;
            &&& detected is None ==> after == before
            &&& detected matches Some(id) ==> {
                &&& after.active_id == Some(id)
                &&& after.history.len() == n + 1
                &&& forall|i: int| 0 <= i < n ==> #[trigger] after.history[i] == before.history[i]
                &&& after.history[n].id == id
                &&& after.history[n].started_at == run.started_at
                &&& is_label_of(after.history[n].label, run.prompt@)
                &&& after.history[n].run_count == 1
            }
        }),
{
    law_label(run.prompt@);
}

/// A further run counts in the active conversation, and in no other.  A conversation that was
/// begun without a run gets its time from its first run, and a label, unless it has one.
pub proof fn law_further_run(
    app: AppView,
    run: AgentRun,
    success: bool,
    detected: Option<Seq<char>>,
    i: int,
)
    requires
        !run.is_first_run,
        app.conv.is_active(i),
        app.conv.history[i].run_count < u32::MAX,
    ensures
        ({
            let before = app.conv;
            let after = agent::app_after_run(app, run, Ok(success), detected).conv;
            let old = before.history[i];
            let new = after.history[i];
            &&& after.active_id == before.active_id
            &&& after.history.len() == before.history.len()
            &&& forall|j: int|
                0 <= j < before.history.len() && j != i ==> #[trigger] after.history[j]
                    == before.history[j]
            &&& new.id == old.id
            &&& new.run_count == old.run_count + 1
            &&& old.run_count > 0 ==> new.label == old.label && new.started_at == old.started_at
            &&& old.run_count == 0 ==> new.started_at == run.started_at
            &&& old.run_count == 0 && old.label.len() > 0 ==> new.label == old.label
            &&& old.run_count == 0 && old.label.len() == 0 ==> is_label_of(
                new.label,
                run.prompt@,
            )
        }),
{
    law_label(run.prompt@);
    let k = choose|k: int| app.conv.is_active(k);
    crate::state::lemma_active_unique(app.conv, i, k);
}

/// Without an active conversation a further run leaves the conversations as they are.
pub proof fn law_further_run_without_conversation(
    app: AppView,
    run: AgentRun,
    success: bool,
    detected: Option<Seq<char>>,
)
    requires
        !run.is_first_run,
        forall|i: int| !#[trigger] app.conv.is_active(i),
    ensures
        agent::app_after_run(app, run, Ok(success), detected).conv == app.conv,
{
}

/// The latest conversation is named by the first word that the agent has written, where it has
/// written one and ended well.
pub proof fn law_latest_conversation(outcome: CommandView, id: Seq<char>)
    ensures
        agent::latest_conversation(outcome) == Some(id) <==> conversations::names(outcome, id),
{
    if let CommandView::Exited { success, stdout, .. } = outcome {
        let out = text::lossy_text(stdout);
        texts::law_first_word(out);
        if texts::is_first_word(out, id) {
            texts::lemma_first_word_is_unique(out, id);
        }
    }
}

// ── Requests ────────────────────────────────────────────────────────────────

/// Whether a text has anything but white space.
pub open spec fn says_something(s: Seq<char>) -> bool {
    exists|i: int| 0 <= i < s.len() && !text::is_space(#[trigger] s[i])
}

/// What is left of a text without the white space around it is empty exactly where the text
/// says nothing.
pub proof fn law_nothing_is_left_of_blanks(s: Seq<char>)
    ensures
        text::trimmed(s).len() > 0 <==> says_something(s),
{
    texts::law_trimming(s);
    let t = text::trimmed(s);
    let (i, j) = choose|i: int, j: int| texts::loses_blanks_only(s, t, i, j);
    if t.len() > 0 {
        assert(t[0] == s[i]);
    }
    if says_something(s) {
        let k = choose|k: int| 0 <= k < s.len() && !text::is_space(#[trigger] s[k]);
        assert(i <= k < j);
    }
}

/// A prompt is refused for a wrong password, where it says nothing and during a run, in this
/// order, and for nothing else.
pub proof fn law_a_prompt_is_refused(app: AppView, form: RunForm)
    ensures
        ({
            let right = conversations::right_password(
                app.config.server.password@,
                form.password@,
            );
            let running = app.run.status is Running;
            let said = says_something(form.prompt@);
            let answer = run::run_refusal(app, form);
            &&& !right ==> conversations::refuses(answer, 403, "Incorrect password."@)
            &&& right && !said ==> conversations::refuses(
                answer,
                400,
                "Prompt must not be empty."@,
            )
            &&& right && said && running ==> conversations::refuses(
                answer,
                409,
                "A run is already in progress. Please wait for it to finish."@,
            )
            &&& right && said && !running ==> answer is None
        }),
{
    law_nothing_is_left_of_blanks(form.prompt@);
    pages::law_error_page(403, "Incorrect password."@);
    pages::law_error_page(400, "Prompt must not be empty."@);
    pages::law_error_page(409, "A run is already in progress. Please wait for it to finish."@);
}

/// A prompt that is accepted begins a run with an empty output, and is the last of the prompts
/// since the last commit, but for the white space around it.  Nothing else changes.
pub proof fn law_a_prompt_is_accepted(app: AppView, form: RunForm)
    requires
        conversations::right_password(app.config.server.password@, form.password@),
        says_something(form.prompt@),
        !(app.run.status is Running),
    ensures
        ({
            let after = run::app_after_run_request(app, form);
            let n = app.prompts.len() as int;
            &&& after.run.status is Running
            &&& after.run.output.len() == 0
            &&& after.prompts.len() == n + 1
            &&& texts::is_core(form.prompt@, after.prompts[n])
            &&& forall|i: int| 0 <= i < n ==> #[trigger] after.prompts[i] == app.prompts[i]
            &&& after.conv == app.conv
            &&& after.config == app.config
            &&& after.commits == app.commits
        }),
{
    law_nothing_is_left_of_blanks(form.prompt@);
    texts::law_trimming(form.prompt@);
}

/// A stream ends with the line that tells of the run's end, and with no other.
pub proof fn law_last_of_a_stream(line: Seq<char>)
    ensures
        stream::is_last(line) <==> line == "__DONE__"@,
{
}

/// The run that a prompt begins hands the agent that prompt, but for the white space around it,
/// as one argument; it begins now, and is the first of its conversation where none is active.
pub proof fn law_agent_gets_the_prompt(app: AppView, form: RunForm, now: u64, run: AgentRun)
    requires
        run::is_run_of(run, app, form, now),
    ensures
        texts::is_core(form.prompt@, run.prompt@),
        agent::forge_args(run.prompt@).len() == 2,
        agent::forge_args(run.prompt@)[0] == "-p"@,
        agent::forge_args(run.prompt@)[1] == run.prompt@,
        run.is_first_run <==> app.conv.active_id is None,
        run.started_at == now,
{
    texts::law_trimming(form.prompt@);
}

/// A run can be counted unless the active conversation has as many as a number holds.
pub proof fn law_a_run_can_be_counted(conv: ConvView, run: AgentRun, i: int)
    ensures
        run.is_first_run ==> agent::recordable(conv, run),
        !conv.has_active() ==> agent::recordable(conv, run),
        conv.is_active(i) && conv.history[i].run_count < u32::MAX ==> agent::recordable(conv, run),
        !run.is_first_run && conv.is_active(i) && conv.history[i].run_count == u32::MAX
            ==> !agent::recordable(conv, run),
{
    if conv.is_active(i) {
        assert forall|k: int| #[trigger] conv.is_active(k) implies k == i by {
            crate::state::lemma_active_unique(conv, i, k);
        }
    }
}

} // verus!

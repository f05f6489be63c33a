//! Runs of the agent: what `forge` is asked, and what its runs leave behind.

use vstd::prelude::*;
use vstd::string::*;

use crate::process;
use crate::process::{CommandOutcome, CommandView};
use crate::state;
use crate::state::{AppState, AppView, ConvEntry, ConvEntryView, ConvState, ConvView, RunState, RunStatus, RunStatusView, RunView};
use crate::templates::STDERR_MARK;
use crate::text;
use crate::text::{cut, decimal, find_last_cut, first_token, from_utf8_lossy, len_in_bytes, trim};

verus! {

// ── Labels ──────────────────────────────────────────────────────────────────

/// The label that a prompt gives to its conversation: the prompt, or as many of its
/// characters as fit in sixty bytes, and an ellipsis.
pub open spec fn label_of(prompt: Seq<char>) -> Seq<char> {
    if text::byte_len(prompt) <= 60 {
        prompt
    } else {
        text::head_bytes(prompt, text::last_cut(prompt, 60)) + "…"@
    }
}

/// Makes a label of a prompt.
pub fn truncate_label(prompt: &str) -> (r: String)
    ensures
        r@ == label_of(prompt@),
{
    if len_in_bytes(prompt) <= 60 {
        prompt.to_owned()
    } else {
        let end: usize = find_last_cut(prompt, 60);
        cut(prompt, end).0.to_owned().concat("…")
    }
}

// ── Conversation ids ────────────────────────────────────────────────────────

/// The conversation that `forge conversation list` puts first.
pub open spec fn latest_conversation(outcome: CommandView) -> Option<Seq<char>> {
    match outcome {
        CommandView::Exited { success, stdout, .. } => if success {
            text::first_word(text::lossy_text(stdout))
        } else {
            None
        },
        CommandView::NotStarted { .. } => None,
        CommandView::Lost { .. } => None,
    }
}

/// Reads the latest conversation from the outcome of `forge conversation list`.
pub fn detect_latest_conversation(outcome: &CommandOutcome) -> (r: Option<String>)
    ensures
        text::opt_text(r) == latest_conversation(outcome@),
{
    match outcome {
        CommandOutcome::Exited { success, stdout, .. } => {
            if *success {
                first_token(from_utf8_lossy(stdout.as_slice()).as_str())
            } else {
                None
            }
        },
        CommandOutcome::NotStarted { .. } => None,
        CommandOutcome::Lost { .. } => None,
    }
}

/// What is said where `forge` cannot be run.
pub open spec fn spawn_failure(binary: Seq<char>, error: Seq<char>) -> Seq<char> {
    "Failed to spawn '"@ + binary + "': "@ + error
}

fn say_spawn_failure(binary: &str, error: &str) -> (r: String)
    ensures
        r@ == spawn_failure(binary@, error@),
{
    "Failed to spawn '".to_owned().concat(binary).concat("': ").concat(error)
}

/// The conversation that `forge conversation new` has made, or why it made none.
pub open spec fn new_conversation(binary: Seq<char>, outcome: CommandView) -> Result<
    Seq<char>,
    Seq<char>,
> {
    match outcome {
        CommandView::NotStarted { error } => Err(spawn_failure(binary, error)),
        CommandView::Lost { error } => Err(spawn_failure(binary, error)),
        CommandView::Exited { success, stdout, stderr } => if !success {
            Err("forge conversation new failed: "@ + text::trimmed(text::lossy_text(stderr)))
        } else {
            match text::first_word(text::lossy_text(stdout)) {
                Some(id) => Ok(id),
                None => Err("forge conversation new produced no output"@),
            }
        },
    }
}

/// Reads the id of a new conversation from the outcome of `forge conversation new`.
pub fn create_new_conversation(forge_binary: &str, outcome: &CommandOutcome) -> (r: Result<
    String,
    String,
>)
    ensures
        process::result_text(r) == new_conversation(forge_binary@, outcome@),
{
    match outcome {
        CommandOutcome::NotStarted { error } => Err(
            say_spawn_failure(forge_binary, error.as_str()),
        ),
        CommandOutcome::Lost { error } => Err(say_spawn_failure(forge_binary, error.as_str())),
        CommandOutcome::Exited { success, stdout, stderr } => {
            if !*success {
                let reason = trim(from_utf8_lossy(stderr.as_slice()).as_str());
                Err("forge conversation new failed: ".to_owned().concat(reason.as_str()))
            } else {
                match first_token(from_utf8_lossy(stdout.as_slice()).as_str()) {
                    Some(id) => Ok(id),
                    None => Err("forge conversation new produced no output".to_owned()),
                }
            }
        },
    }
}

// ── Output ──────────────────────────────────────────────────────────────────

/// A run that has written one more line.
pub open spec fn with_line(run: RunView, line: Seq<char>) -> RunView {
    RunView { status: run.status, output: run.output.push(line) }
}

fn record_line(run: &mut RunState, line: &String)
    ensures
        final(run)@ == with_line(old(run)@, line@),
{
    run.output_buf.push(line.clone());
    assert(text::strings(run.output_buf@) =~= text::strings(old(run).output_buf@).push(line@));
}

/// The line that tells of a run that took too long.
pub open spec fn timeout_line(timeout_secs: nat) -> Seq<char> {
    "[agent2web] Run timed out after "@ + text::digits(timeout_secs) + "s — killing process"@
}

fn say_timeout(timeout_secs: u64) -> (r: String)
    ensures
        r@ == timeout_line(timeout_secs as nat),
{
    "[agent2web] Run timed out after ".to_owned().concat(decimal(timeout_secs).as_str()).concat(
        "s — killing process",
    )
}

// ── The agent's process ─────────────────────────────────────────────────────

/// How far the agent's process has come.
#[derive(Debug)]
pub enum RunStep {
    /// The process is to be started.
    Starting,
    /// The process is under way: its lines, its end and the deadline are awaited.
    Waiting,
    /// The process is to be killed, and its end to be awaited.
    Killing,
    /// The process has ended; what it has written is to be read to the end.
    Draining { result: Result<bool, String> },
    /// There is nothing more to do.  `Ok`: the process ended by itself, well or not.
    Ended { result: Result<bool, String> },
}

/// What a `RunStep` says.
pub enum RunStepView {
    Starting,
    Waiting,
    Killing,
    Draining { result: Result<bool, Seq<char>> },
    Ended { result: Result<bool, Seq<char>> },
}

/// The view of the result of a run.
pub open spec fn run_result(result: Result<bool, String>) -> Result<bool, Seq<char>> {
    match result {
        Ok(success) => Ok(success),
        Err(reason) => Err(reason@),
    }
}

impl View for RunStep {
    type V = RunStepView;

    open spec fn view(&self) -> RunStepView {
        match self {
            RunStep::Starting => RunStepView::Starting,
            RunStep::Waiting => RunStepView::Waiting,
            RunStep::Killing => RunStepView::Killing,
            RunStep::Draining { result } => RunStepView::Draining { result: run_result(*result) },
            RunStep::Ended { result } => RunStepView::Ended { result: run_result(*result) },
        }
    }
}

/// What happens to the agent's process.
#[derive(Debug)]
pub enum RunEvent {
    /// It could not be started.
    NotStarted { error: String },
    /// It was started.
    Started,
    /// It wrote a line to its standard output.
    Stdout { line: String },
    /// It wrote a line to its standard error.
    Stderr { line: String },
    /// It took too long.
    Deadline,
    /// It ended by itself.
    Exited { success: bool },
    /// Its end could not be awaited.
    Lost { error: String },
    /// It was killed, and has ended.
    Reaped,
    /// All that it wrote is read.
    Drained,
}

/// What a `RunEvent` says.
pub enum RunEventView {
    NotStarted { error: Seq<char> },
    Started,
    Stdout { line: Seq<char> },
    Stderr { line: Seq<char> },
    Deadline,
    Exited { success: bool },
    Lost { error: Seq<char> },
    Reaped,
    Drained,
}

impl View for RunEvent {
    type V = RunEventView;

    open spec fn view(&self) -> RunEventView {
        match self {
            RunEvent::NotStarted { error } => RunEventView::NotStarted { error: error@ },
            RunEvent::Started => RunEventView::Started,
            RunEvent::Stdout { line } => RunEventView::Stdout { line: line@ },
            RunEvent::Stderr { line } => RunEventView::Stderr { line: line@ },
            RunEvent::Deadline => RunEventView::Deadline,
            RunEvent::Exited { success } => RunEventView::Exited { success: *success },
            RunEvent::Lost { error } => RunEventView::Lost { error: error@ },
            RunEvent::Reaped => RunEventView::Reaped,
            RunEvent::Drained => RunEventView::Drained,
        }
    }
}

/// What is known of a run while its process is looked after.
pub struct RunLimits {
    /// The name of the agent's binary.
    pub binary: Seq<char>,
    /// The seconds that the process may take.
    pub timeout_secs: nat,
}

/// Why a run that took too long has failed.
pub open spec fn timeout_reason(timeout_secs: nat) -> Seq<char> {
    "Timed out after "@ + text::digits(timeout_secs) + " seconds"@
}

/// The step that an event leads to.  An event that is not due changes nothing.
pub open spec fn run_advanced(
    limits: RunLimits,
    step: RunStepView,
    event: RunEventView,
) -> RunStepView {
    match (step, event) {
        (RunStepView::Starting, RunEventView::NotStarted { error }) => RunStepView::Ended {
            result: Err(spawn_failure(limits.binary, error)),
        },
        (RunStepView::Starting, RunEventView::Started) => RunStepView::Waiting,
        (RunStepView::Waiting, RunEventView::Deadline) => RunStepView::Killing,
        (RunStepView::Waiting, RunEventView::Exited { success }) => RunStepView::Draining {
            result: Ok(success),
        },
        (RunStepView::Waiting, RunEventView::Lost { error }) => RunStepView::Draining {
            result: Err(error),
        },
        (RunStepView::Killing, RunEventView::Reaped) => RunStepView::Draining {
            result: Err(timeout_reason(limits.timeout_secs)),
        },
        (RunStepView::Draining { result }, RunEventView::Drained) => RunStepView::Ended { result },
        _ => step,
    }
}

/// Whether the process can be writing.
pub open spec fn can_write(step: RunStepView) -> bool {
    step is Waiting || step is Killing || step is Draining
}

/// The line that an event adds to the output, if it adds one.
pub open spec fn line_of(timeout_secs: nat, step: RunStepView, event: RunEventView) -> Option<
    Seq<char>,
> {
    match event {
        RunEventView::Stdout { line } => if can_write(step) {
            Some(line)
        } else {
            None
        },
        RunEventView::Stderr { line } => if can_write(step) {
            Some(STDERR_MARK@ + line)
        } else {
            None
        },
        RunEventView::Deadline => if step is Waiting {
            Some(timeout_line(timeout_secs))
        } else {
            None
        },
        _ => None,
    }
}

/// A run after an event: the line that it adds is kept.
pub open spec fn run_after(
    timeout_secs: nat,
    run: RunView,
    step: RunStepView,
    event: RunEventView,
) -> RunView {
    match line_of(timeout_secs, step, event) {
        Some(line) => with_line(run, line),
        None => run,
    }
}

fn writes(step: &RunStep) -> (r: bool)
    ensures
        r == can_write(step@),
{
    match step {
        RunStep::Starting => false,
        RunStep::Waiting => true,
        RunStep::Killing => true,
        RunStep::Draining { .. } => true,
        RunStep::Ended { .. } => false,
    }
}

fn find_line(step: &RunStep, event: &RunEvent, timeout_secs: u64) -> (r: Option<String>)
    ensures
        text::opt_text(r) == line_of(timeout_secs as nat, step@, event@),
{
    match event {
        RunEvent::Stdout { line } => {
            if writes(step) {
                Some(line.clone())
            } else {
                None
            }
        },
        RunEvent::Stderr { line } => {
            if writes(step) {
                Some(STDERR_MARK.to_owned().concat(line.as_str()))
            } else {
                None
            }
        },
        RunEvent::Deadline => {
            if matches!(step, RunStep::Waiting) {
                Some(say_timeout(timeout_secs))
            } else {
                None
            }
        },
        _ => None,
    }
}

/// Takes the agent's process one step on.  Returns the next step, and the line that the
/// live stream is to show, if there is one; it is kept in the run's output.
pub fn do_run(
    run: &mut RunState,
    forge_binary: &str,
    timeout_secs: u64,
    step: RunStep,
    event: RunEvent,
) -> (r: (RunStep, Option<String>))
    ensures
        r.0@ == run_advanced(
            (RunLimits { binary: forge_binary@, timeout_secs: timeout_secs as nat }),
            step@,
            event@,
        ),
        text::opt_text(r.1) == line_of(timeout_secs as nat, step@, event@),
        final(run)@ == run_after(timeout_secs as nat, old(run)@, step@, event@),
{
    let shown = find_line(&step, &event, timeout_secs);
    if let Some(line) = &shown {
        record_line(run, line);
    }
    let next = match (step, event) {
        (RunStep::Starting, RunEvent::NotStarted { error }) => RunStep::Ended {
            result: Err(say_spawn_failure(forge_binary, error.as_str())),
        },
        (RunStep::Starting, RunEvent::Started) => RunStep::Waiting,
        (RunStep::Waiting, RunEvent::Deadline) => RunStep::Killing,
        (RunStep::Waiting, RunEvent::Exited { success }) => RunStep::Draining {
            result: Ok(success),
        },
        (RunStep::Waiting, RunEvent::Lost { error }) => RunStep::Draining { result: Err(error) },
        (RunStep::Killing, RunEvent::Reaped) => RunStep::Draining {
            result: Err(
                "Timed out after ".to_owned().concat(decimal(timeout_secs).as_str()).concat(
                    " seconds",
                ),
            ),
        },
        (RunStep::Draining { result }, RunEvent::Drained) => RunStep::Ended { result },
        (step, _) => step,
    };
    (next, shown)
}

/// A run that has been dispatched.
#[derive(Debug)]
pub struct AgentRun {
    /// The prompt that the agent works on.
    pub prompt: String,
    /// Whether no conversation was active when the run began.
    pub is_first_run: bool,
    /// When the run began, in seconds of Unix time.
    pub started_at: u64,
}

/// The entry of a conversation after one more run.  Its first run gives it its time,
/// and its label where it has none.
pub open spec fn entry_after_run(
    e: ConvEntryView,
    prompt: Seq<char>,
    started_at: u64,
) -> ConvEntryView {
    ConvEntryView {
        id: e.id,
        started_at: if e.run_count == 0 {
            started_at
        } else {
            e.started_at
        },
        label: if e.run_count == 0 && e.label.len() == 0 {
            label_of(prompt)
        } else {
            e.label
        },
        run_count: (e.run_count + 1) as u32,
    }
}

/// The conversations after a run that ended by itself.  The first run makes the detected
/// conversation known and active; a later one counts for the active conversation.
pub open spec fn conv_after_run(
    conv: ConvView,
    run: AgentRun,
    detected: Option<Seq<char>>,
) -> ConvView {
    if run.is_first_run {
        match detected {
            Some(id) => ConvView {
                active_id: Some(id),
                history: conv.history.push(
                    ConvEntryView {
                        id,
                        started_at: run.started_at,
                        label: label_of(run.prompt@),
                        run_count: 1,
                    },
                ),
            },
            None => conv,
        }
    } else if conv.has_active() {
        let i = choose|i: int| conv.is_active(i);
        ConvView {
            active_id: conv.active_id,
            history: conv.history.update(
                i,
                entry_after_run(conv.history[i], run.prompt@, run.started_at),
            ),
        }
    } else {
        conv
    }
}

/// Whether a run can be recorded: its conversation has not seen more runs than can be
/// counted.
pub open spec fn recordable(conv: ConvView, run: AgentRun) -> bool {
    !run.is_first_run ==> forall|i: int| #[trigger]
        conv.is_active(i) ==> conv.history[i].run_count < u32::MAX
}

/// Whether a run can be recorded.
pub fn can_record(conv: &ConvState, run: &AgentRun) -> (r: bool)
    ensures
        r == recordable(conv@, *run),
{
    if run.is_first_run {
        return true;
    }
    match conv.active_entry() {
        Some(e) => {
            let ghost i = choose|i: int| #[trigger] conv@.is_active(i) && *e == conv.history@[i];
            proof {
                assert(conv@.is_active(i));
                assert(conv@.history[i] == e@);
                assert forall|j: int| #[trigger] conv@.is_active(j) implies j == i by {
                    state::lemma_active_unique(conv@, i, j);
                }
            }
            e.run_count < u32::MAX
        },
        None => {
            assert forall|j: int| !conv@.is_active(j) by {}
            true
        },
    }
}

/// Records a run that ended by itself in the conversations.
pub fn update_conv_state(conv: &mut ConvState, run: &AgentRun, detected: Option<String>)
    requires
        recordable(old(conv)@, *run),
    ensures
        final(conv)@ == conv_after_run(old(conv)@, *run, text::opt_text(detected)),
{
    let ghost before = *conv;
    if run.is_first_run {
        if let Some(id) = detected {
            let label = truncate_label(run.prompt.as_str());
            let mut entry = ConvEntry::new(id.clone(), label, run.started_at);
            entry.run_count = 1;
            conv.active_id = Some(id);
            conv.history.push(entry);
            assert(state::entries(conv.history@) =~= state::entries(before.history@).push(entry@));
        }
    } else {
        match conv.active_entry_mut() {
            Some(entry) => {
                if entry.run_count == 0 {
                    entry.started_at = run.started_at;
                    if entry.label.as_str().is_empty() {
                        entry.label = truncate_label(run.prompt.as_str());
                    }
                }
                entry.run_count = entry.run_count + 1;
            },
            None => {},
        }
        proof {
            if before@.has_active() {
                let i = choose|i: int| before@.is_active(i);
                assert(state::entries(conv.history@) =~= state::entries(before.history@).update(
                    i,
                    entry_after_run(before@.history[i], run.prompt@, run.started_at),
                ));
            }
        }
    }
}

// ── The whole run ───────────────────────────────────────────────────────────

/// What the live stream shows last.
pub const DONE: &'static str = "__DONE__";

/// The phase that a run ends in.
pub open spec fn status_after_run(result: Result<bool, Seq<char>>) -> RunStatusView {
    match result {
        Ok(success) => if success {
            RunStatusView::Done
        } else {
            RunStatusView::Failed { reason: "forge exited with non-zero status"@ }
        },
        Err(reason) => RunStatusView::Failed { reason },
    }
}

/// The server after a run: the phase is set, and a run that ended by itself, well or not,
/// is recorded in the conversations.
pub open spec fn app_after_run(
    app: AppView,
    run: AgentRun,
    result: Result<bool, Seq<char>>,
    detected: Option<Seq<char>>,
) -> AppView {
    AppView {
        run: RunView { status: status_after_run(result), output: app.run.output },
        conv: if result is Ok {
            conv_after_run(app.conv, run, detected)
        } else {
            app.conv
        },
        ..app
    }
}

/// The arguments for `forge` that hand it this prompt.
pub open spec fn forge_args(prompt: Seq<char>) -> Seq<Seq<char>> {
    seq!["-p"@, prompt]
}

impl AgentRun {
    /// The run of a prompt that begins at `now`.
    pub fn start(app: &AppState, prompt: String, now: u64) -> (r: AgentRun)
        ensures
            r.prompt == prompt,
            r.is_first_run == (app@.conv.active_id is None),
            r.started_at == now,
    {
        AgentRun { prompt, is_first_run: app.conv.active_id.is_none(), started_at: now }
    }

    /// The arguments for `forge`: the prompt is one of them, as it stands.
    pub fn args(&self) -> (r: Vec<String>)
        ensures
            text::strings(r@) == forge_args(self.prompt@),
    {
        let mut args: Vec<String> = Vec::new();
        args.push("-p".to_owned());
        args.push(self.prompt.clone());
        assert(text::strings(args@) =~= forge_args(self.prompt@));
        args
    }

    /// Whether the agent is to be asked which conversation the run has made.
    pub fn needs_detection(&self, result: &Result<bool, String>) -> (r: bool)
        ensures
            r == (self.is_first_run && *result is Ok),
    {
        self.is_first_run && result.is_ok()
    }
}

/// Ends a run.  `detected` is the conversation that the first run has made.  Returns what
/// the live stream shows last.
pub fn run_agent(
    app: &mut AppState,
    run: &AgentRun,
    result: Result<bool, String>,
    detected: Option<String>,
) -> (r: String)
    requires
        result is Ok ==> recordable(old(app)@.conv, *run),
    ensures
        final(app)@ == app_after_run(
            old(app)@,
            *run,
            run_result(result),
            text::opt_text(detected),
        ),
        r@ == DONE@,
{
    match result {
        Err(reason) => {
            app.run.status = RunStatus::Failed { reason };
        },
        Ok(success) => {
            update_conv_state(&mut app.conv, run, detected);
            app.run.status = if success {
                RunStatus::Done
            } else {
                RunStatus::Failed { reason: "forge exited with non-zero status".to_owned() }
            };
        },
    }
    DONE.to_owned()
}

// ── Laws ────────────────────────────────────────────────────────────────────

/// A run, once ended, is no longer under way; its output, the prompts, the commits and the
/// configuration stay as they were.
pub proof fn law_run_ends(
    app: AppView,
    run: AgentRun,
    result: Result<bool, Seq<char>>,
    detected: Option<Seq<char>>,
)
    ensures
        ({
            let after = app_after_run(app, run, result, detected);
            &&& !(after.run.status is Running)
            &&& after.run.status is Done <==> result == Ok::<bool, Seq<char>>(true)
            &&& after.run.output == app.run.output
            &&& after.prompts == app.prompts
            &&& after.commits == app.commits
            &&& after.config == app.config
        }),
{
}

/// A run forgets no conversation: each known one keeps its place and its id, the active
/// conversation is still a known one, and once there is one there always is.
pub proof fn law_run_keeps_conversations(
    conv: ConvView,
    run: AgentRun,
    detected: Option<Seq<char>>,
)
    requires
        conv.wf(),
    ensures
        ({
            let after = conv_after_run(conv, run, detected);
            &&& after.wf()
            &&& conv.active_id is Some ==> after.active_id is Some
            &&& !run.is_first_run ==> after.active_id == conv.active_id
            &&& conv.history.len() <= after.history.len()
            &&& forall|i: int|
                0 <= i < conv.history.len() ==> (#[trigger] after.history[i]).id
                    == conv.history[i].id
        }),
{
    let after = conv_after_run(conv, run, detected);
    if run.is_first_run {
        if detected is Some {
            assert(after.history[conv.history.len() as int].id == detected->0);
        }
    } else if conv.has_active() {
        let i = choose|i: int| conv.is_active(i);
        assert(after.history[i].id == conv.active_id->0);
    }
}

/// A later run counts once, for the active conversation and no other.
pub proof fn law_run_counts_once(conv: ConvView, run: AgentRun, i: int)
    requires
        !run.is_first_run,
        conv.is_active(i),
        recordable(conv, run),
    ensures
        ({
            let after = conv_after_run(conv, run, None);
            &&& after.history[i].run_count == conv.history[i].run_count + 1
            &&& forall|j: int|
                0 <= j < conv.history.len() && j != i ==> #[trigger] after.history[j]
                    == conv.history[j]
        }),
{
    let k = choose|k: int| conv.is_active(k);
    state::lemma_active_unique(conv, i, k);
}

/// A label is the prompt where that has at most sixty bytes.  Otherwise it is the beginning
/// of the prompt up to the last whole character within sixty bytes, and an ellipsis.
pub proof fn law_label_is_a_prefix(prompt: Seq<char>)
    ensures
        text::byte_len(prompt) <= 60 ==> label_of(prompt) == prompt,
        text::byte_len(prompt) > 60 ==> {
            let end = text::last_cut(prompt, 60);
            let head = text::head_bytes(prompt, end);
            &&& text::byte_len(head) == end <= 60
            &&& text::begins_with(prompt, head)
            &&& label_of(prompt) == head + "…"@
            &&& forall|k: int| end < k <= 60 ==> !#[trigger] text::cuts_at(prompt, k)
        },
{
    text::lemma_last_cut(prompt, 60);
    text::lemma_cut(prompt, text::last_cut(prompt, 60));
}

/// The step that a sequence of events leads to.
pub open spec fn process_trace(
    limits: RunLimits,
    step: RunStepView,
    events: Seq<RunEventView>,
) -> RunStepView
    decreases events.len(),
{
    if events.len() == 0 {
        step
    } else {
        run_advanced(limits, process_trace(limits, step, events.drop_last()), events.last())
    }
}

/// What is known of a run after a sequence of events.
pub open spec fn run_trace(
    limits: RunLimits,
    run: RunView,
    step: RunStepView,
    events: Seq<RunEventView>,
) -> RunView
    decreases events.len(),
{
    if events.len() == 0 {
        run
    } else {
        let earlier = events.drop_last();
        run_after(
            limits.timeout_secs,
            run_trace(limits, run, step, earlier),
            process_trace(limits, step, earlier),
            events.last(),
        )
    }
}

/// The lines that a sequence of events adds to the output, in their order.
pub open spec fn lines_of(
    limits: RunLimits,
    step: RunStepView,
    events: Seq<RunEventView>,
) -> Seq<Seq<char>>
    decreases events.len(),
{
    if events.len() == 0 {
        seq![]
    } else {
        let earlier = events.drop_last();
        let lines = lines_of(limits, step, earlier);
        match line_of(limits.timeout_secs, process_trace(limits, step, earlier), events.last()) {
            Some(line) => lines.push(line),
            None => lines,
        }
    }
}

/// Whatever happens to the agent's process, the output ends as it was before, with the line
/// of each event behind it, in their order; and the phase of the run is as it was.
pub proof fn law_output_is_what_was_written(
    limits: RunLimits,
    run: RunView,
    step: RunStepView,
    events: Seq<RunEventView>,
)
    ensures
        run_trace(limits, run, step, events).output == run.output + lines_of(limits, step, events),
        run_trace(limits, run, step, events).status == run.status,
    decreases events.len(),
{
    let after = run_trace(limits, run, step, events).output;
    if events.len() > 0 {
        law_output_is_what_was_written(limits, run, step, events.drop_last());
    }
    assert(after =~= run.output + lines_of(limits, step, events));
}

/// A run that took too long fails for that reason, whatever happens after the deadline: its
/// process is killed before anything else, and only its last lines are still read.
pub proof fn law_deadline_decides(limits: RunLimits, later: Seq<RunEventView>)
    ensures
        ({
            let reason = Err::<bool, Seq<char>>(timeout_reason(limits.timeout_secs));
            let killing = run_advanced(limits, RunStepView::Waiting, RunEventView::Deadline);
            match process_trace(limits, killing, later) {
                RunStepView::Killing => true,
                RunStepView::Draining { result } => result == reason,
                RunStepView::Ended { result } => result == reason,
                _ => false,
            }
        }),
    decreases later.len(),
{
    if later.len() > 0 {
        law_deadline_decides(limits, later.drop_last());
    }
}

/// A run ends well only if its process was started and then ended well by itself.
pub proof fn law_success_is_an_exit(limits: RunLimits, events: Seq<RunEventView>)
    ensures
        match process_trace(limits, RunStepView::Starting, events) {
            RunStepView::Draining { result } => result == Ok::<bool, Seq<char>>(true)
                ==> events.contains(RunEventView::Exited { success: true }) && events.contains(
                RunEventView::Started,
            ),
            RunStepView::Ended { result } => result == Ok::<bool, Seq<char>>(true)
                ==> events.contains(RunEventView::Exited { success: true }) && events.contains(
                RunEventView::Started,
            ),
            RunStepView::Starting => true,
            RunStepView::Waiting => events.contains(RunEventView::Started),
            RunStepView::Killing => events.contains(RunEventView::Started),
        },
    decreases events.len(),
{
    if events.len() > 0 {
        let before = events.drop_last();
        law_success_is_an_exit(limits, before);
        assert(events[events.len() - 1] == events.last());
        assert forall|e: RunEventView| before.contains(e) implies #[trigger] events.contains(e) by {
            let i = choose|i: int| 0 <= i < before.len() && before[i] == e;
            assert(events[i] == e);
        }
    }
}

} // verus!

//! What the server keeps in memory.

use vstd::prelude::*;
use vstd::string::*;

use crate::config::Config;
use crate::text;

verus! {

// ── Runs ────────────────────────────────────────────────────────────────────

/// The phase of an agent run.
#[derive(Debug)]
pub enum RunStatus {
    /// No run has been made yet; a prompt is welcome.
    Idle,
    /// A run is under way.
    Running,
    /// The run ended well.
    Done,
    /// The run failed or was killed, for a reason that a reader understands.
    Failed { reason: String },
}

/// What a `RunStatus` says.
pub enum RunStatusView {
    Idle,
    Running,
    Done,
    Failed { reason: Seq<char> },
}

impl View for RunStatus {
    type V = RunStatusView;

    open spec fn view(&self) -> RunStatusView {
        match self {
            RunStatus::Idle => RunStatusView::Idle,
            RunStatus::Running => RunStatusView::Running,
            RunStatus::Done => RunStatusView::Done,
            RunStatus::Failed { reason } => RunStatusView::Failed { reason: reason@ },
        }
    }
}

impl RunStatus {
    /// Whether a run is under way.
    pub fn is_running(&self) -> (r: bool)
        ensures
            r == (self@ is Running),
    {
        matches!(self, RunStatus::Running)
    }

    /// The name of the phase.
    pub fn label(&self) -> (r: &'static str)
        ensures
            r@ == (match self@ {
                RunStatusView::Idle => "Idle"@,
                RunStatusView::Running => "Running"@,
                RunStatusView::Done => "Done"@,
                RunStatusView::Failed { .. } => "Failed"@,
            }),
    {
        match self {
            RunStatus::Idle => "Idle",
            RunStatus::Running => "Running",
            RunStatus::Done => "Done",
            RunStatus::Failed { .. } => "Failed",
        }
    }
}

/// The run that is under way, or the last one.
#[derive(Debug)]
pub struct RunState {
    pub status: RunStatus,
    /// The lines that the agent has written, kept for display after the run.
    pub output_buf: Vec<String>,
}

/// What a `RunState` says.
pub struct RunView {
    pub status: RunStatusView,
    pub output: Seq<Seq<char>>,
}

impl View for RunState {
    type V = RunView;

    open spec fn view(&self) -> RunView {
        RunView { status: self.status@, output: text::strings(self.output_buf@) }
    }
}

impl Default for RunState {
    fn default() -> (r: Self)
        ensures
            r@ == (RunView { status: RunStatusView::Idle, output: Seq::empty() }),
    {
        let r = RunState { status: RunStatus::Idle, output_buf: Vec::new() };
        assert(text::strings(r.output_buf@) =~= Seq::empty());
        r
    }
}

// ── Conversations ───────────────────────────────────────────────────────────

/// A conversation of the agent that this server knows.
#[derive(Debug)]
pub struct ConvEntry {
    /// The agent's name for the conversation.
    pub id: String,
    /// When the conversation was started, in seconds of Unix time.
    pub started_at: u64,
    /// A short label for display.
    pub label: String,
    /// The number of runs completed in this conversation.
    pub run_count: u32,
}

/// What a `ConvEntry` says.
pub struct ConvEntryView {
    pub id: Seq<char>,
    pub started_at: u64,
    pub label: Seq<char>,
    pub run_count: u32,
}

impl View for ConvEntry {
    type V = ConvEntryView;

    open spec fn view(&self) -> ConvEntryView {
        ConvEntryView {
            id: self.id@,
            started_at: self.started_at,
            label: self.label@,
            run_count: self.run_count,
        }
    }
}

/// The first eight characters of a name, or all of it.
pub open spec fn shortened(s: Seq<char>) -> Seq<char> {
    if s.len() <= 8 {
        s
    } else {
        s.take(8)
    }
}

/// Takes the first eight characters of a name, or all of it.
fn shorten(s: &str) -> (r: &str)
    ensures
        r@ == shortened(s@),
{
    let len: usize = s.unicode_len();
    let end: usize = if len < 8 {
        len
    } else {
        8
    };
    assert(s@.subrange(0, end as int) =~= shortened(s@));
    s.substring_char(0, end)
}

impl ConvEntry {
    /// A conversation that was started at `started_at` and has seen no run.
    pub fn new(id: String, label: String, started_at: u64) -> (r: ConvEntry)
        ensures
            r@ == (ConvEntryView { id: id@, started_at, label: label@, run_count: 0 }),
    {
        ConvEntry { id, started_at, label, run_count: 0 }
    }

    /// The beginning of the id, for display.
    pub fn short_id(&self) -> (r: &str)
        ensures
            r@ == shortened(self@.id),
    {
        shorten(self.id.as_str())
    }
}

/// The conversations that this server knows.
#[derive(Debug)]
pub struct ConvState {
    /// The conversation that the next run continues.  `None` before the first run.
    pub active_id: Option<String>,
    /// All conversations seen, the latest last.
    pub history: Vec<ConvEntry>,
}

/// What a `ConvState` says.
pub struct ConvView {
    pub active_id: Option<Seq<char>>,
    pub history: Seq<ConvEntryView>,
}

/// The views of a list of conversations.
pub open spec fn entries(v: Seq<ConvEntry>) -> Seq<ConvEntryView> {
    v.map_values(|e: ConvEntry| e@)
}

impl View for ConvState {
    type V = ConvView;

    open spec fn view(&self) -> ConvView {
        ConvView { active_id: text::opt_text(self.active_id), history: entries(self.history@) }
    }
}

/// Whether the entry at index `i` is the first with this id.
pub open spec fn first_with_id(history: Seq<ConvEntryView>, id: Seq<char>, i: int) -> bool {
    &&& 0 <= i < history.len()
    &&& history[i].id == id
    &&& forall|j: int| 0 <= j < i ==> (#[trigger] history[j]).id != id
}

/// Whether some entry has this id.
pub open spec fn known_id(history: Seq<ConvEntryView>, id: Seq<char>) -> bool {
    exists|i: int| 0 <= i < history.len() && (#[trigger] history[i]).id == id
}

impl ConvView {
    /// Whether the entry at index `i` is the active one.
    pub open spec fn is_active(self, i: int) -> bool {
        self.active_id is Some && first_with_id(self.history, self.active_id->0, i)
    }

    /// Whether there is an active entry.
    pub open spec fn has_active(self) -> bool {
        exists|i: int| self.is_active(i)
    }

    /// The active conversation is one that the server knows.
    pub open spec fn wf(self) -> bool {
        self.active_id is Some ==> known_id(self.history, self.active_id->0)
    }
}

/// The ids of the active entries of one state are one.
pub proof fn lemma_active_unique(conv: ConvView, i: int, j: int)
    requires
        conv.is_active(i),
        conv.is_active(j),
    ensures
        i == j,
{
    if i < j {
        assert(conv.history[i].id != conv.active_id->0);
    }
    if j < i {
        assert(conv.history[j].id != conv.active_id->0);
    }
}

/// A known id has a first entry.
pub proof fn lemma_first_with_id(history: Seq<ConvEntryView>, id: Seq<char>)
    requires
        known_id(history, id),
    ensures
        exists|i: int| first_with_id(history, id, i),
    decreases history.len(),
{
    let k = choose|i: int| 0 <= i < history.len() && (#[trigger] history[i]).id == id;
    let front = history.take(k);
    if known_id(front, id) {
        lemma_first_with_id(front, id);
        let i = choose|i: int| first_with_id(front, id, i);
        assert forall|j: int| 0 <= j < i implies (#[trigger] history[j]).id != id by {
            assert(front[j] == history[j]);
        }
        assert(first_with_id(history, id, i));
    } else {
        assert forall|j: int| 0 <= j < k implies (#[trigger] history[j]).id != id by {
            assert(front[j] == history[j]);
        }
        assert(first_with_id(history, id, k));
    }
}

/// Where the active conversation is a known one, there is an active entry.
pub proof fn law_active_entry_exists(conv: ConvView)
    requires
        conv.wf(),
    ensures
        conv.has_active() == (conv.active_id is Some),
{
    if conv.active_id is Some {
        lemma_first_with_id(conv.history, conv.active_id->0);
        let i = choose|i: int| first_with_id(conv.history, conv.active_id->0, i);
        assert(conv.is_active(i));
    }
}

impl Default for ConvState {
    fn default() -> (r: Self)
        ensures
            r@ == (ConvView { active_id: None, history: Seq::empty() }),
            r@.wf(),
    {
        let r = ConvState { active_id: None, history: Vec::new() };
        assert(entries(r.history@) =~= Seq::empty());
        r
    }
}

impl ConvState {
    /// The index of the first entry with this id, or the number of entries.
    fn index_of(&self, id: &String) -> (r: usize)
        ensures
            r <= self.history@.len(),
            r < self.history@.len() ==> first_with_id(self@.history, id@, r as int),
            r == self.history@.len() ==> !known_id(self@.history, id@),
    {
        let mut i: usize = 0;
        while i < self.history.len()
            invariant
                i <= self.history@.len(),
                forall|j: int| 0 <= j < i ==> (#[trigger] self@.history[j]).id != id@,
            decreases self.history@.len() - i,
        {
            if self.history[i].id == *id {
                assert(self@.history[i as int].id == id@);
                return i;
            }
            assert(self@.history[i as int] == self.history@[i as int]@);
            i = i + 1;
        }
        i
    }

    /// Whether some entry has this id.
    pub fn knows(&self, id: &String) -> (r: bool)
        ensures
            r == known_id(self@.history, id@),
    {
        let i: usize = self.index_of(id);
        i < self.history.len()
    }

    /// The active entry, if there is one.
    pub fn active_entry(&self) -> (r: Option<&ConvEntry>)
        ensures
            match r {
                Some(e) => exists|i: int| #[trigger]
                    self@.is_active(i) && *e == self.history@[i],
                None => !self@.has_active(),
            },
    {
        match &self.active_id {
            Some(id) => {
                let i: usize = self.index_of(id);
                if i < self.history.len() {
                    assert(self@.is_active(i as int));
                    Some(&self.history[i])
                } else {
                    None
                }
            },
            None => None,
        }
    }

    /// The active entry, to be changed, if there is one.
    pub fn active_entry_mut(&mut self) -> (r: Option<&mut ConvEntry>)
        ensures
            match r {
                Some(e) => exists|i: int| #[trigger]
                    old(self)@.is_active(i) && *e == old(self).history@[i]
                        && final(self).history@ == old(self).history@.update(i, *final(e))
                        && final(self).active_id == old(self).active_id,
                None => !old(self)@.has_active() && *final(self) == *old(self),
            },
    {
        let i: usize = match &self.active_id {
            Some(id) => self.index_of(id),
            None => self.history.len(),
        };
        if i < self.history.len() {
            assert(self@.is_active(i as int));
            Some(&mut self.history[i])
        } else {
            None
        }
    }
}

// ── Commits ─────────────────────────────────────────────────────────────────

/// A recent commit.
#[derive(Debug)]
pub struct CommitSummary {
    /// The full SHA.
    pub sha: String,
    /// The first eight characters of the SHA.
    pub short_sha: String,
    /// The first line of the commit message.
    pub subject: String,
}

/// What a `CommitSummary` says.
pub struct CommitView {
    pub sha: Seq<char>,
    pub short_sha: Seq<char>,
    pub subject: Seq<char>,
}

impl View for CommitSummary {
    type V = CommitView;

    open spec fn view(&self) -> CommitView {
        CommitView { sha: self.sha@, short_sha: self.short_sha@, subject: self.subject@ }
    }
}

impl CommitSummary {
    /// A commit with this SHA and subject.
    pub fn new(sha: String, subject: String) -> (r: CommitSummary)
        ensures
            r@ == (CommitView { sha: sha@, short_sha: shortened(sha@), subject: subject@ }),
    {
        let short_sha = shorten(sha.as_str()).to_owned();
        CommitSummary { sha, short_sha, subject }
    }
}

/// The views of a list of commits.
pub open spec fn commits(v: Seq<CommitSummary>) -> Seq<CommitView> {
    v.map_values(|c: CommitSummary| c@)
}

// ── The application ─────────────────────────────────────────────────────────

/// All that the server's handlers share.
#[derive(Debug)]
pub struct AppState {
    /// The run that is under way, or the last one.
    pub run: RunState,
    /// The conversations.
    pub conv: ConvState,
    /// The prompts of the runs since the last commit.
    pub prompts_since_commit: Vec<String>,
    /// The configuration, which does not change.
    pub config: Config,
    /// The recent commits, the latest first.
    pub commit_history: Vec<CommitSummary>,
}

/// What an `AppState` says.
pub struct AppView {
    pub run: RunView,
    pub conv: ConvView,
    pub prompts: Seq<Seq<char>>,
    pub config: Config,
    pub commits: Seq<CommitView>,
}

impl View for AppState {
    type V = AppView;

    open spec fn view(&self) -> AppView {
        AppView {
            run: self.run@,
            conv: self.conv@,
            prompts: text::strings(self.prompts_since_commit@),
            config: self.config,
            commits: commits(self.commit_history@),
        }
    }
}

impl AppState {
    /// The state of a server that has just been started.
    pub fn new(config: Config) -> (r: AppState)
        ensures
            r@ == (AppView {
                run: RunView { status: RunStatusView::Idle, output: Seq::empty() },
                conv: ConvView { active_id: None, history: Seq::empty() },
                prompts: Seq::empty(),
                config,
                commits: Seq::empty(),
            }),
            r@.conv.wf(),
    {
        let r = AppState {
            run: RunState::default(),
            conv: ConvState::default(),
            prompts_since_commit: Vec::new(),
            config,
            commit_history: Vec::new(),
        };
        assert(text::strings(r.prompts_since_commit@) =~= Seq::empty());
        assert(commits(r.commit_history@) =~= Seq::empty());
        r
    }
}

} // verus!

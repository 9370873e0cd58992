//! The hub: shared coordination records (lounge, votes, timer, leak tracker,
//! tasks, evidence, decisions, artifacts), their updates, and what each
//! update asks to have written to disk.
use crate::config::{clone_opt_string, opt_string_view, SwarmHubConfig};
use crate::text::{join_path, joined_path, prefixed};
use std::collections::VecDeque;
use vstd::prelude::*;

verus! {

/// The lounge keeps at most this many entries, dropping the oldest.
pub const LOUNGE_CAPACITY: usize = 500;

/// One message of the lounge.
#[derive(Debug, PartialEq, Eq)]
pub struct SwarmLoungeEntry {
    pub text: String,
    pub author_thread_id: Option<String>,
    pub created_at_unix_ms: u128,
}

/// One weighted cast of a vote.
#[derive(Debug, PartialEq, Eq)]
pub struct SwarmVoteCast {
    pub option: String,
    pub weight: i32,
    pub voter_thread_id: Option<String>,
}

/// A vote: a topic, its options and the casts made so far.
#[derive(Debug, PartialEq, Eq)]
pub struct SwarmVote {
    pub id: String,
    pub topic: String,
    pub options: Vec<String>,
    pub created_at_unix_ms: u128,
    pub votes: Vec<SwarmVoteCast>,
}

/// The shared timer.
#[derive(Debug, PartialEq, Eq)]
pub struct SwarmTimerState {
    pub label: Option<String>,
    pub duration_ms: Option<u64>,
    pub started_at_unix_ms: Option<u128>,
    pub running: bool,
}

/// A finding of a sensitive value.
#[derive(Debug, PartialEq, Eq)]
pub struct SwarmLeakEntry {
    pub id: String,
    pub label: String,
    pub value: String,
    pub context: Option<String>,
    pub severity: Option<String>,
    pub created_at_unix_ms: u128,
    pub source_thread_id: Option<String>,
}

/// The leak findings, kept in a file of their own as well.
#[derive(Debug, PartialEq, Eq)]
pub struct SwarmLeakTracker {
    pub entries: Vec<SwarmLeakEntry>,
}

#[derive(Debug, PartialEq, Eq)]
pub struct SwarmTaskEntry {
    pub id: String,
    pub title: String,
    pub status: String,
    pub owner_thread_id: Option<String>,
    pub notes: Option<String>,
    pub created_at_unix_ms: u128,
}

#[derive(Debug, PartialEq, Eq)]
pub struct SwarmEvidenceEntry {
    pub id: String,
    pub summary: String,
    pub severity: Option<String>,
    pub source: Option<String>,
    pub created_at_unix_ms: u128,
}

#[derive(Debug, PartialEq, Eq)]
pub struct SwarmDecisionEntry {
    pub id: String,
    pub summary: String,
    pub rationale: Option<String>,
    pub created_at_unix_ms: u128,
}

#[derive(Debug, PartialEq, Eq)]
pub struct SwarmArtifactEntry {
    pub id: String,
    pub label: String,
    pub path: Option<String>,
    pub created_at_unix_ms: u128,
}

/// Everything the hub holds.
#[derive(Debug, PartialEq, Eq)]
pub struct SwarmHubState {
    pub lounge: VecDeque<SwarmLoungeEntry>,
    pub votes: Vec<SwarmVote>,
    pub timer: SwarmTimerState,
    pub leak_tracker: SwarmLeakTracker,
    pub leak_tracker_path: Option<String>,
    pub storage_dir: Option<String>,
    pub tasks: Vec<SwarmTaskEntry>,
    pub evidence: Vec<SwarmEvidenceEntry>,
    pub decisions: Vec<SwarmDecisionEntry>,
    pub artifacts: Vec<SwarmArtifactEntry>,
}

/// A vote as a value: its id as text, its options and casts as sequences.
pub ghost struct SwarmVoteView {
    pub id: Seq<char>,
    pub topic: String,
    pub options: Seq<String>,
    pub created_at_unix_ms: u128,
    pub votes: Seq<SwarmVoteCast>,
}

impl View for SwarmVote {
    type V = SwarmVoteView;

    open spec fn view(&self) -> SwarmVoteView {
        SwarmVoteView {
            id: self.id@,
            topic: self.topic,
            options: self.options@,
            created_at_unix_ms: self.created_at_unix_ms,
            votes: self.votes@,
        }
    }
}

impl View for SwarmLeakTracker {
    type V = Seq<SwarmLeakEntry>;

    open spec fn view(&self) -> Seq<SwarmLeakEntry> {
        self.entries@
    }
}

/// The hub's state as a value, every list as a sequence.
pub ghost struct SwarmHubView {
    pub lounge: Seq<SwarmLoungeEntry>,
    pub votes: Seq<SwarmVoteView>,
    pub timer: SwarmTimerState,
    pub leak_entries: Seq<SwarmLeakEntry>,
    pub leak_tracker_path: Option<Seq<char>>,
    pub storage_dir: Option<Seq<char>>,
    pub tasks: Seq<SwarmTaskEntry>,
    pub evidence: Seq<SwarmEvidenceEntry>,
    pub decisions: Seq<SwarmDecisionEntry>,
    pub artifacts: Seq<SwarmArtifactEntry>,
}

pub open spec fn votes_view(votes: Seq<SwarmVote>) -> Seq<SwarmVoteView> {
    votes.map_values(|v: SwarmVote| v@)
}

impl View for SwarmHubState {
    type V = SwarmHubView;

    open spec fn view(&self) -> SwarmHubView {
        SwarmHubView {
            lounge: self.lounge@,
            votes: votes_view(self.votes@),
            timer: self.timer,
            leak_entries: self.leak_tracker@,
            leak_tracker_path: opt_string_view(self.leak_tracker_path),
            storage_dir: opt_string_view(self.storage_dir),
            tasks: self.tasks@,
            evidence: self.evidence@,
            decisions: self.decisions@,
            artifacts: self.artifacts@,
        }
    }
}

/// The stopped timer with nothing set.
pub open spec fn idle_timer() -> SwarmTimerState {
    SwarmTimerState { label: None, duration_ms: None, started_at_unix_ms: None, running: false }
}

/// The state of a hub that holds nothing yet.
pub open spec fn empty_hub_view() -> SwarmHubView {
    SwarmHubView {
        lounge: Seq::empty(),
        votes: Seq::empty(),
        timer: idle_timer(),
        leak_entries: Seq::empty(),
        leak_tracker_path: None,
        storage_dir: None,
        tasks: Seq::empty(),
        evidence: Seq::empty(),
        decisions: Seq::empty(),
        artifacts: Seq::empty(),
    }
}

impl Clone for SwarmLoungeEntry {
    fn clone(&self) -> (r: Self)
        ensures
            r == *self,
    {
        SwarmLoungeEntry {
            text: self.text.clone(),
            author_thread_id: clone_opt_string(&self.author_thread_id),
            created_at_unix_ms: self.created_at_unix_ms,
        }
    }
}

impl Clone for SwarmVoteCast {
    fn clone(&self) -> (r: Self)
        ensures
            r == *self,
    {
        SwarmVoteCast {
            option: self.option.clone(),
            weight: self.weight,
            voter_thread_id: clone_opt_string(&self.voter_thread_id),
        }
    }
}

impl Clone for SwarmVote {
    fn clone(&self) -> (r: Self)
        ensures
            r@ == self@,
    {
        let options = self.options.clone();
        let votes = self.votes.clone();
        assert(options@ =~= self.options@);
        assert(votes@ =~= self.votes@);
        SwarmVote {
            id: self.id.clone(),
            topic: self.topic.clone(),
            options,
            created_at_unix_ms: self.created_at_unix_ms,
            votes,
        }
    }
}

impl Clone for SwarmTimerState {
    fn clone(&self) -> (r: Self)
        ensures
            r == *self,
    {
        SwarmTimerState {
            label: clone_opt_string(&self.label),
            duration_ms: self.duration_ms,
            started_at_unix_ms: self.started_at_unix_ms,
            running: self.running,
        }
    }
}

impl Clone for SwarmLeakEntry {
    fn clone(&self) -> (r: Self)
        ensures
            r == *self,
    {
        SwarmLeakEntry {
            id: self.id.clone(),
            label: self.label.clone(),
            value: self.value.clone(),
            context: clone_opt_string(&self.context),
            severity: clone_opt_string(&self.severity),
            created_at_unix_ms: self.created_at_unix_ms,
            source_thread_id: clone_opt_string(&self.source_thread_id),
        }
    }
}

impl Clone for SwarmLeakTracker {
    fn clone(&self) -> (r: Self)
        ensures
            r@ == self@,
    {
        let entries = self.entries.clone();
        assert(entries@ =~= self.entries@);
        SwarmLeakTracker { entries }
    }
}

impl Default for SwarmLeakTracker {
    fn default() -> (r: Self)
        ensures
            r@ == Seq::<SwarmLeakEntry>::empty(),
    {
        SwarmLeakTracker { entries: Vec::new() }
    }
}

impl Clone for SwarmTaskEntry {
    fn clone(&self) -> (r: Self)
        ensures
            r == *self,
    {
        SwarmTaskEntry {
            id: self.id.clone(),
            title: self.title.clone(),
            status: self.status.clone(),
            owner_thread_id: clone_opt_string(&self.owner_thread_id),
            notes: clone_opt_string(&self.notes),
            created_at_unix_ms: self.created_at_unix_ms,
        }
    }
}

impl Clone for SwarmEvidenceEntry {
    fn clone(&self) -> (r: Self)
        ensures
            r == *self,
    {
        SwarmEvidenceEntry {
            id: self.id.clone(),
            summary: self.summary.clone(),
            severity: clone_opt_string(&self.severity),
            source: clone_opt_string(&self.source),
            created_at_unix_ms: self.created_at_unix_ms,
        }
    }
}

impl Clone for SwarmDecisionEntry {
    fn clone(&self) -> (r: Self)
        ensures
            r == *self,
    {
        SwarmDecisionEntry {
            id: self.id.clone(),
            summary: self.summary.clone(),
            rationale: clone_opt_string(&self.rationale),
            created_at_unix_ms: self.created_at_unix_ms,
        }
    }
}

impl Clone for SwarmArtifactEntry {
    fn clone(&self) -> (r: Self)
        ensures
            r == *self,
    {
        SwarmArtifactEntry {
            id: self.id.clone(),
            label: self.label.clone(),
            path: clone_opt_string(&self.path),
            created_at_unix_ms: self.created_at_unix_ms,
        }
    }
}

impl Clone for SwarmHubState {
    fn clone(&self) -> (r: Self)
        ensures
            r@ == self@,
    {
        let lounge = self.lounge.clone();
        let votes = self.votes.clone();
        let leak_tracker = self.leak_tracker.clone();
        let tasks = self.tasks.clone();
        let evidence = self.evidence.clone();
        let decisions = self.decisions.clone();
        let artifacts = self.artifacts.clone();
        assert(lounge@ =~= self.lounge@);
        assert(votes_view(votes@) =~= votes_view(self.votes@));
        assert(tasks@ =~= self.tasks@);
        assert(evidence@ =~= self.evidence@);
        assert(decisions@ =~= self.decisions@);
        assert(artifacts@ =~= self.artifacts@);
        SwarmHubState {
            lounge,
            votes,
            timer: self.timer.clone(),
            leak_tracker,
            leak_tracker_path: clone_opt_string(&self.leak_tracker_path),
            storage_dir: clone_opt_string(&self.storage_dir),
            tasks,
            evidence,
            decisions,
            artifacts,
        }
    }
}

impl Default for SwarmHubState {
    /// A hub that holds nothing, with the timer stopped.
    fn default() -> (r: Self)
        ensures
            r@ == empty_hub_view(),
    {
        let r = SwarmHubState {
            lounge: VecDeque::new(),
            votes: Vec::new(),
            timer: SwarmTimerState {
                label: None,
                duration_ms: None,
                started_at_unix_ms: None,
                running: false,
            },
            leak_tracker: SwarmLeakTracker::default(),
            leak_tracker_path: None,
            storage_dir: None,
            tasks: Vec::new(),
            evidence: Vec::new(),
            decisions: Vec::new(),
            artifacts: Vec::new(),
        };
        assert(votes_view(r.votes@) =~= Seq::<SwarmVoteView>::empty());
        r
    }
}

/// The most recent `LOUNGE_CAPACITY` entries of `s`, in order.
pub open spec fn keep_recent(s: Seq<SwarmLoungeEntry>) -> Seq<SwarmLoungeEntry> {
    if s.len() > LOUNGE_CAPACITY {
        s.skip(s.len() - LOUNGE_CAPACITY)
    } else {
        s
    }
}

pub open spec fn lounge_appended(v: SwarmHubView, e: SwarmLoungeEntry) -> SwarmHubView {
    SwarmHubView { lounge: keep_recent(v.lounge.push(e)), ..v }
}

pub open spec fn lounge_cleared(v: SwarmHubView) -> SwarmHubView {
    SwarmHubView { lounge: Seq::empty(), ..v }
}

/// Index of the first vote at or after `i` whose id is `id`.
pub open spec fn vote_index_from(votes: Seq<SwarmVoteView>, id: Seq<char>, i: int) -> Option<int>
    decreases votes.len() - i,
{
    if 0 <= i < votes.len() {
        if votes[i].id == id {
            Some(i)
        } else {
            vote_index_from(votes, id, i + 1)
        }
    } else {
        None
    }
}

/// `vote` replaces the first vote with its id, or is added at the end.
pub open spec fn votes_upserted(votes: Seq<SwarmVoteView>, vote: SwarmVoteView) -> Seq<SwarmVoteView> {
    match vote_index_from(votes, vote.id, 0) {
        Some(i) => votes.update(i, vote),
        None => votes.push(vote),
    }
}

pub open spec fn vote_upserted(v: SwarmHubView, vote: SwarmVoteView) -> SwarmHubView {
    SwarmHubView { votes: votes_upserted(v.votes, vote), ..v }
}

pub open spec fn timer_set(v: SwarmHubView, t: SwarmTimerState) -> SwarmHubView {
    SwarmHubView { timer: t, ..v }
}

pub open spec fn leak_added(v: SwarmHubView, e: SwarmLeakEntry) -> SwarmHubView {
    SwarmHubView { leak_entries: v.leak_entries.push(e), ..v }
}

pub open spec fn leak_cleared(v: SwarmHubView) -> SwarmHubView {
    SwarmHubView { leak_entries: Seq::empty(), ..v }
}

/// The tracker path is set; the tracker read from it, if asked for and
/// readable, replaces the one held.
pub open spec fn leak_path_set(
    v: SwarmHubView,
    path: Seq<char>,
    load_existing: bool,
    loaded: Option<Seq<SwarmLeakEntry>>,
) -> SwarmHubView {
    SwarmHubView {
        leak_tracker_path: Some(path),
        leak_entries: if load_existing && loaded is Some {
            loaded->0
        } else {
            v.leak_entries
        },
        ..v
    }
}

pub open spec fn task_added(v: SwarmHubView, e: SwarmTaskEntry) -> SwarmHubView {
    SwarmHubView { tasks: v.tasks.push(e), ..v }
}

pub open spec fn evidence_added(v: SwarmHubView, e: SwarmEvidenceEntry) -> SwarmHubView {
    SwarmHubView { evidence: v.evidence.push(e), ..v }
}

pub open spec fn decision_added(v: SwarmHubView, e: SwarmDecisionEntry) -> SwarmHubView {
    SwarmHubView { decisions: v.decisions.push(e), ..v }
}

pub open spec fn artifact_added(v: SwarmHubView, e: SwarmArtifactEntry) -> SwarmHubView {
    SwarmHubView { artifacts: v.artifacts.push(e), ..v }
}

/// A configured storage directory is adopted; a configured tracker path is
/// adopted, else one is derived from the storage directory when none is set.
pub open spec fn config_applied(v: SwarmHubView, c: SwarmHubConfig) -> SwarmHubView {
    let dir = opt_string_view(c.storage_dir);
    SwarmHubView {
        storage_dir: if dir is Some {
            dir
        } else {
            v.storage_dir
        },
        leak_tracker_path: if c.leak_tracker_path is Some {
            opt_string_view(c.leak_tracker_path)
        } else if v.leak_tracker_path is None && dir is Some {
            Some(joined_path(dir->0, "leak_tracker.json"@))
        } else {
            v.leak_tracker_path
        },
        ..v
    }
}

/// The directory that holds the hub's files: the configured storage
/// directory, else `swarm` under the home directory.
pub open spec fn hub_base_dir(v: SwarmHubView, home: Option<Seq<char>>) -> Option<Seq<char>> {
    match v.storage_dir {
        Some(dir) => Some(dir),
        None => match home {
            Some(h) => Some(joined_path(h, "swarm"@)),
            None => None,
        },
    }
}

/// Where the hub's state is kept.
pub open spec fn hub_file(v: SwarmHubView, home: Option<Seq<char>>) -> Option<Seq<char>> {
    match hub_base_dir(v, home) {
        Some(dir) => Some(joined_path(dir, "swarm_hub.json"@)),
        None => None,
    }
}

/// Where the leak tracker is kept: the configured path, else
/// `leak_tracker.json` in the storage directory, else
/// `swarm_leak_tracker.json` in the home directory.
pub open spec fn leak_file(v: SwarmHubView, home: Option<Seq<char>>) -> Option<Seq<char>> {
    match v.leak_tracker_path {
        Some(p) => Some(p),
        None => match v.storage_dir {
            Some(dir) => Some(joined_path(dir, "leak_tracker.json"@)),
            None => match home {
                Some(h) => Some(joined_path(h, "swarm_leak_tracker.json"@)),
                None => None,
            },
        },
    }
}

/// What is to be written after a change: the whole state to the hub file
/// and, when `with_tracker`, the tracker to its own file. A missing path
/// means that there is nowhere to write.
#[derive(Debug)]
pub struct SwarmHubWrite {
    pub hub_path: Option<String>,
    pub leak_tracker_path: Option<String>,
    pub state: SwarmHubState,
}

pub open spec fn is_hub_write(
    w: SwarmHubWrite,
    v: SwarmHubView,
    home: Option<Seq<char>>,
    with_tracker: bool,
) -> bool {
    &&& w.state@ == v
    &&& opt_string_view(w.hub_path) == hub_file(v, home)
    &&& opt_string_view(w.leak_tracker_path) == if with_tracker {
        leak_file(v, home)
    } else {
        None
    }
}

/// What reading a stored file gave.
#[derive(Debug)]
pub enum StoredFile<T> {
    /// There is no such file.
    Missing,
    /// The file could not be read; the reason.
    Unreadable(String),
    /// The file was read but does not parse; the reason.
    Malformed(String),
    /// The file's contents.
    Parsed(T),
}

/// The state that a load installs: the loaded state, with the storage
/// directory and tracker path of the current state kept where they are set.
pub open spec fn loaded_over(current: SwarmHubView, loaded: SwarmHubView) -> SwarmHubView {
    SwarmHubView {
        leak_tracker_path: if current.leak_tracker_path is Some {
            current.leak_tracker_path
        } else {
            loaded.leak_tracker_path
        },
        storage_dir: if current.storage_dir is Some {
            current.storage_dir
        } else {
            loaded.storage_dir
        },
        ..loaded
    }
}

/// The shared hub: its state and the home directory that its files fall
/// back to.
#[derive(Debug)]
pub struct SwarmHub {
    state: SwarmHubState,
    codex_home: Option<String>,
}

impl View for SwarmHub {
    type V = SwarmHubView;

    closed spec fn view(&self) -> SwarmHubView {
        self.state@
    }
}

impl Default for SwarmHub {
    /// An empty hub with no home directory.
    fn default() -> (r: Self)
        ensures
            r@ == empty_hub_view(),
            r.home() is None,
    {
        SwarmHub { state: SwarmHubState::default(), codex_home: None }
    }
}

impl SwarmHub {
    /// The home directory that paths fall back to.
    pub closed spec fn home(&self) -> Option<Seq<char>> {
        opt_string_view(self.codex_home)
    }

    /// An empty hub whose files fall back to `codex_home`.
    pub fn new(codex_home: String) -> (r: Self)
        ensures
            r@ == empty_hub_view(),
            r.home() == Some(codex_home@),
    {
        SwarmHub { state: SwarmHubState::default(), codex_home: Some(codex_home) }
    }

    /// A copy of the state.
    pub fn snapshot(&self) -> (r: SwarmHubState)
        ensures
            r@ == self@,
    {
        self.state.clone()
    }

    /// The hub file's path, if there is one.
    pub fn hub_state_path(&self) -> (r: Option<String>)
        ensures
            opt_string_view(r) == hub_file(self@, self.home()),
    {
        let base = match &self.state.storage_dir {
            Some(dir) => Some(dir.clone()),
            None => match &self.codex_home {
                Some(home) => Some(join_path(home.as_str(), "swarm")),
                None => None,
            },
        };
        match base {
            Some(dir) => Some(join_path(dir.as_str(), "swarm_hub.json")),
            None => None,
        }
    }

    /// The leak tracker file's path, if there is one.
    pub fn leak_tracker_file(&self) -> (r: Option<String>)
        ensures
            opt_string_view(r) == leak_file(self@, self.home()),
    {
        match &self.state.leak_tracker_path {
            Some(path) => Some(path.clone()),
            None => match &self.state.storage_dir {
                Some(dir) => Some(join_path(dir.as_str(), "leak_tracker.json")),
                None => match &self.codex_home {
                    Some(home) => Some(join_path(home.as_str(), "swarm_leak_tracker.json")),
                    None => None,
                },
            },
        }
    }

    fn write(&self, with_tracker: bool) -> (w: SwarmHubWrite)
        ensures
            is_hub_write(w, self@, self.home(), with_tracker),
    {
        SwarmHubWrite {
            hub_path: self.hub_state_path(),
            leak_tracker_path: if with_tracker {
                self.leak_tracker_file()
            } else {
                None
            },
            state: self.state.clone(),
        }
    }

    /// Everything to write now: the state and the leak tracker.
    pub fn persist_now(&self) -> (w: SwarmHubWrite)
        ensures
            is_hub_write(w, self@, self.home(), true),
    {
        self.write(true)
    }

    /// Adopts the configured storage directory and tracker path; without a
    /// configured tracker path, one in the storage directory is derived when
    /// none is set.
    pub fn apply_config(&mut self, config: &SwarmHubConfig)
        ensures
            final(self)@ == config_applied(old(self)@, *config),
            final(self).home() == old(self).home(),
    {
        if let Some(storage_dir) = &config.storage_dir {
            self.state.storage_dir = Some(storage_dir.clone());
        }
        if let Some(path) = &config.leak_tracker_path {
            self.state.leak_tracker_path = Some(path.clone());
        } else if self.state.leak_tracker_path.is_none() {
            if let Some(storage_dir) = &config.storage_dir {
                self.state.leak_tracker_path = Some(join_path(storage_dir.as_str(), "leak_tracker.json"));
            }
        }
    }

    /// Installs what was read from the hub file. A missing file leaves the
    /// hub as it is; an unreadable or malformed one too, with an error. A
    /// parsed state replaces the held one, keeping the storage directory and
    /// tracker path set on this hub.
    pub fn load_from_storage(&mut self, stored: StoredFile<SwarmHubState>) -> (r: Result<(), String>)
        ensures
            final(self).home() == old(self).home(),
            match stored {
                StoredFile::Missing => r is Ok && final(self)@ == old(self)@,
                StoredFile::Unreadable(e) => final(self)@ == old(self)@ && r is Err && r->Err_0@
                    == "failed to read swarm hub state: "@ + e@,
                StoredFile::Malformed(e) => final(self)@ == old(self)@ && r is Err && r->Err_0@
                    == "failed to parse swarm hub state: "@ + e@,
                StoredFile::Parsed(loaded) => r is Ok && final(self)@ == loaded_over(
                    old(self)@,
                    loaded@,
                ),
            },
    {
        match stored {
            StoredFile::Missing => Ok(()),
            StoredFile::Unreadable(e) => Err(prefixed("failed to read swarm hub state: ", &e)),
            StoredFile::Malformed(e) => Err(prefixed("failed to parse swarm hub state: ", &e)),
            StoredFile::Parsed(loaded) => {
                let mut loaded = loaded;
                if self.state.leak_tracker_path.is_some() {
                    loaded.leak_tracker_path = clone_opt_string(&self.state.leak_tracker_path);
                }
                if self.state.storage_dir.is_some() {
                    loaded.storage_dir = clone_opt_string(&self.state.storage_dir);
                }
                self.state = loaded;
                Ok(())
            },
        }
    }

    /// Adds a lounge message; the oldest ones are dropped beyond
    /// `LOUNGE_CAPACITY`. The state is to be written.
    pub fn lounge_append(&mut self, entry: SwarmLoungeEntry) -> (w: SwarmHubWrite)
        ensures
            final(self)@ == lounge_appended(old(self)@, entry),
            final(self).home() == old(self).home(),
            is_hub_write(w, final(self)@, final(self).home(), false),
    {
        let ghost full = old(self)@.lounge.push(entry);
        self.state.lounge.push_back(entry);
        let ghost pushed = self.state@;
        let ghost mut dropped: int = 0;
        while self.state.lounge.len() > LOUNGE_CAPACITY
            invariant
                0 <= dropped <= full.len(),
                self.state.lounge@ == full.skip(dropped),
                dropped > 0 ==> self.state.lounge@.len() >= LOUNGE_CAPACITY,
                self.state@ == (SwarmHubView { lounge: self.state.lounge@, ..pushed }),
                self.codex_home == old(self).codex_home,
                pushed.lounge == full,
            decreases self.state.lounge@.len(),
        {
            self.state.lounge.pop_front();
            proof {
                dropped = dropped + 1;
                assert(self.state.lounge@ =~= full.skip(dropped));
            }
        }
        assert(self.state.lounge@ =~= keep_recent(full));
        self.write(false)
    }

    /// Empties the lounge. The state is to be written.
    pub fn lounge_clear(&mut self) -> (w: SwarmHubWrite)
        ensures
            final(self)@ == lounge_cleared(old(self)@),
            final(self).home() == old(self).home(),
            is_hub_write(w, final(self)@, final(self).home(), false),
    {
        self.state.lounge.clear();
        assert(self.state@ =~= lounge_cleared(old(self)@));
        self.write(false)
    }

    /// Replaces the first vote with the id of `vote`, or adds `vote` when
    /// none has it. The state is to be written.
    pub fn upsert_vote(&mut self, vote: SwarmVote) -> (w: SwarmHubWrite)
        ensures
            final(self)@ == vote_upserted(old(self)@, vote@),
            final(self).home() == old(self).home(),
            is_hub_write(w, final(self)@, final(self).home(), false),
    {
        let ghost views = old(self)@.votes;
        let mut i: usize = 0;
        while i < self.state.votes.len()
            invariant
                0 <= i <= self.state.votes.len(),
                self.state == old(self).state,
                self.codex_home == old(self).codex_home,
                views == votes_view(self.state.votes@),
                vote_index_from(views, vote@.id, 0) == vote_index_from(views, vote@.id, i as int),
            decreases self.state.votes.len() - i,
        {
            if self.state.votes[i].id == vote.id {
                assert(views[i as int].id == vote@.id);
                assert(vote_index_from(views, vote@.id, i as int) == Some(i as int));
                self.state.votes.set(i, vote);
                assert(votes_view(self.state.votes@) =~= views.update(i as int, vote@));
                return self.write(false);
            }
            assert(views[i as int].id != vote@.id);
            i += 1;
        }
        self.state.votes.push(vote);
        assert(votes_view(self.state.votes@) =~= views.push(vote@));
        self.write(false)
    }

    /// Replaces the timer. The state is to be written.
    pub fn set_timer(&mut self, timer: SwarmTimerState) -> (w: SwarmHubWrite)
        ensures
            final(self)@ == timer_set(old(self)@, timer),
            final(self).home() == old(self).home(),
            is_hub_write(w, final(self)@, final(self).home(), false),
    {
        self.state.timer = timer;
        self.write(false)
    }

    /// Sets the leak tracker's path. When `load_existing` holds and the
    /// tracker at that path could be read (`loaded`), it replaces the one
    /// held. The state is to be written.
    pub fn leak_tracker_set_path(
        &mut self,
        path: String,
        load_existing: bool,
        loaded: Option<SwarmLeakTracker>,
    ) -> (w: SwarmHubWrite)
        ensures
            final(self)@ == leak_path_set(
                old(self)@,
                path@,
                load_existing,
                match loaded {
                    Some(t) => Some(t@),
                    None => None,
                },
            ),
            final(self).home() == old(self).home(),
            is_hub_write(w, final(self)@, final(self).home(), false),
    {
        self.state.leak_tracker_path = Some(path);
        if load_existing {
            if let Some(tracker) = loaded {
                self.state.leak_tracker = tracker;
            }
        }
        self.write(false)
    }

    /// Records a leak finding. The state and the tracker are to be written.
    pub fn leak_tracker_add(&mut self, entry: SwarmLeakEntry) -> (w: SwarmHubWrite)
        ensures
            final(self)@ == leak_added(old(self)@, entry),
            final(self).home() == old(self).home(),
            is_hub_write(w, final(self)@, final(self).home(), true),
    {
        self.state.leak_tracker.entries.push(entry);
        self.write(true)
    }

    /// Forgets every leak finding. The state and the tracker are to be written.
    pub fn leak_tracker_clear(&mut self) -> (w: SwarmHubWrite)
        ensures
            final(self)@ == leak_cleared(old(self)@),
            final(self).home() == old(self).home(),
            is_hub_write(w, final(self)@, final(self).home(), true),
    {
        self.state.leak_tracker.entries.clear();
        assert(self.state@ =~= leak_cleared(old(self)@));
        self.write(true)
    }

    /// Adds a task. The state is to be written.
    pub fn task_add(&mut self, entry: SwarmTaskEntry) -> (w: SwarmHubWrite)
        ensures
            final(self)@ == task_added(old(self)@, entry),
            final(self).home() == old(self).home(),
            is_hub_write(w, final(self)@, final(self).home(), false),
    {
        self.state.tasks.push(entry);
        self.write(false)
    }

    /// Adds a piece of evidence. The state is to be written.
    pub fn evidence_add(&mut self, entry: SwarmEvidenceEntry) -> (w: SwarmHubWrite)
        ensures
            final(self)@ == evidence_added(old(self)@, entry),
            final(self).home() == old(self).home(),
            is_hub_write(w, final(self)@, final(self).home(), false),
    {
        self.state.evidence.push(entry);
        self.write(false)
    }

    /// Adds a decision. The state is to be written.
    pub fn decision_add(&mut self, entry: SwarmDecisionEntry) -> (w: SwarmHubWrite)
        ensures
            final(self)@ == decision_added(old(self)@, entry),
            final(self).home() == old(self).home(),
            is_hub_write(w, final(self)@, final(self).home(), false),
    {
        self.state.decisions.push(entry);
        self.write(false)
    }

    /// Adds an artifact. The state is to be written.
    pub fn artifact_add(&mut self, entry: SwarmArtifactEntry) -> (w: SwarmHubWrite)
        ensures
            final(self)@ == artifact_added(old(self)@, entry),
            final(self).home() == old(self).home(),
            is_hub_write(w, final(self)@, final(self).home(), false),
    {
        self.state.artifacts.push(entry);
        self.write(false)
    }
}

/// The lounge after each of `es` was appended in turn.
pub open spec fn lounge_after_appends(
    lounge: Seq<SwarmLoungeEntry>,
    es: Seq<SwarmLoungeEntry>,
) -> Seq<SwarmLoungeEntry>
    decreases es.len(),
{
    if es.len() == 0 {
        lounge
    } else {
        keep_recent(lounge_after_appends(lounge, es.drop_last()).push(es.last()))
    }
}

proof fn lemma_keep_recent_push(s: Seq<SwarmLoungeEntry>, e: SwarmLoungeEntry)
    ensures
        keep_recent(keep_recent(s).push(e)) == keep_recent(s.push(e)),
{
    if s.len() > LOUNGE_CAPACITY {
        assert(keep_recent(keep_recent(s).push(e)) =~= keep_recent(s.push(e)));
    }
}

/// However many messages are appended to a lounge within its bound, it
/// stays within the bound and holds the most recent entries of all it held
/// and received, in the order they came.
pub proof fn lemma_lounge_keeps_most_recent(lounge: Seq<SwarmLoungeEntry>, es: Seq<SwarmLoungeEntry>)
    requires
        lounge.len() <= LOUNGE_CAPACITY,
    ensures
        lounge_after_appends(lounge, es).len() <= LOUNGE_CAPACITY,
        lounge_after_appends(lounge, es) == keep_recent(lounge + es),
    decreases es.len(),
{
    if es.len() == 0 {
        assert(lounge + es =~= lounge);
    } else {
        lemma_lounge_keeps_most_recent(lounge, es.drop_last());
        lemma_keep_recent_push(lounge + es.drop_last(), es.last());
        assert((lounge + es.drop_last()).push(es.last()) =~= lounge + es);
    }
}

/// Each appended message adds one step to the lounge's history.
pub proof fn lemma_lounge_append_step(v: SwarmHubView, e: SwarmLoungeEntry)
    ensures
        lounge_appended(v, e).lounge == lounge_after_appends(v.lounge, seq![e]),
{
    assert(seq![e].drop_last() =~= Seq::<SwarmLoungeEntry>::empty());
    assert(seq![e].last() == e);
    assert(lounge_after_appends(v.lounge, seq![e].drop_last()) == v.lounge);
}

/// No two votes share an id.
pub open spec fn vote_ids_unique(votes: Seq<SwarmVoteView>) -> bool {
    forall|i: int, j: int|
        0 <= i < votes.len() && 0 <= j < votes.len() && i != j ==> #[trigger] votes[i].id
            != #[trigger] votes[j].id
}

proof fn lemma_vote_index_from(votes: Seq<SwarmVoteView>, id: Seq<char>, i: int)
    requires
        0 <= i,
    ensures
        match vote_index_from(votes, id, i) {
            Some(k) => i <= k < votes.len() && votes[k].id == id,
            None => forall|j: int| i <= j < votes.len() ==> #[trigger] votes[j].id != id,
        },
    decreases votes.len() - i,
{
    if i < votes.len() && votes[i].id != id {
        lemma_vote_index_from(votes, id, i + 1);
    }
}

/// Upserting a vote into votes with distinct ids leaves exactly one vote
/// with its id, equal to it, and the ids still distinct.
pub proof fn lemma_upsert_leaves_one_vote(votes: Seq<SwarmVoteView>, vote: SwarmVoteView)
    requires
        vote_ids_unique(votes),
    ensures
        vote_ids_unique(votes_upserted(votes, vote)),
        exists|i: int|
            0 <= i < votes_upserted(votes, vote).len() && #[trigger] votes_upserted(votes, vote)[i]
                == vote && forall|j: int|
                0 <= j < votes_upserted(votes, vote).len() && j != i ==> (
                #[trigger] votes_upserted(votes, vote)[j]).id != vote.id,
{
    lemma_vote_index_from(votes, vote.id, 0);
    let r = votes_upserted(votes, vote);
    match vote_index_from(votes, vote.id, 0) {
        Some(k) => {
            assert(r[k] == vote);
            assert forall|j: int| 0 <= j < r.len() && j != k implies (#[trigger] r[j]).id
                != vote.id by {
                assert(votes[j].id != votes[k].id);
            }
        },
        None => {
            let n = votes.len() as int;
            assert(r[n] == vote);
            assert forall|j: int| 0 <= j < r.len() && j != n implies (#[trigger] r[j]).id
                != vote.id by {
                assert(r[j] == votes[j]);
            }
        },
    }
}

/// Loading from the hub file what a hub persisted there gives back that
/// hub's state; the file it reads is the one that was written.
pub proof fn lemma_load_of_persisted(v: SwarmHubView, home: Option<Seq<char>>)
    ensures
        loaded_over(v, v) == v,
        hub_file(loaded_over(v, v), home) == hub_file(v, home),
{
}

/// Clearing the lounge twice is clearing it once.
pub proof fn lemma_lounge_clear_idempotent(v: SwarmHubView)
    ensures
        lounge_cleared(lounge_cleared(v)) == lounge_cleared(v),
{
}

/// Persisting does not change the state, so clearing the leak tracker and
/// persisting leaves the same state and writes the same files as
/// persisting, clearing and persisting again.
pub proof fn lemma_leak_clear_then_persist(
    v: SwarmHubView,
    home: Option<Seq<char>>,
    clear_first: SwarmHubWrite,
    persist_first: SwarmHubWrite,
)
    requires
        is_hub_write(clear_first, leak_cleared(v), home, true),
        is_hub_write(persist_first, leak_cleared(v), home, true),
    ensures
        clear_first.state@ == persist_first.state@,
        opt_string_view(clear_first.hub_path) == opt_string_view(persist_first.hub_path),
        opt_string_view(clear_first.leak_tracker_path) == opt_string_view(
            persist_first.leak_tracker_path,
        ),
        leak_cleared(leak_cleared(v)) == leak_cleared(v),
{
}

/// Applying the same hub configuration twice is applying it once.
pub proof fn lemma_apply_config_idempotent(v: SwarmHubView, c: SwarmHubConfig)
    ensures
        config_applied(config_applied(v, c), c) == config_applied(v, c),
{
}

/// Relies on `SystemTime::now` and `SystemTime::duration_since`: the
/// milliseconds since the Unix epoch, or none when the clock reads earlier.
#[verifier::external_body]
fn millis_since_epoch() -> (r: Option<u128>) {
    std::time::SystemTime::now().duration_since(std::time::UNIX_EPOCH).ok().map(|d| d.as_millis())
}

/// The current time in milliseconds since the Unix epoch; zero when the
/// clock reads earlier than the epoch.
pub fn now_unix_ms() -> (r: u128) {
    match millis_since_epoch() {
        Some(ms) => ms,
        None => 0,
    }
}

} // verus!

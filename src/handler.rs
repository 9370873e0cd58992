//! The hub tool that a running agent calls: one action per call, checked,
//! applied to the hub, and answered with the records the action concerns.
use crate::hub::{
    artifact_added, decision_added, evidence_added, is_hub_write, leak_added, leak_cleared,
    leak_path_set, lounge_appended, lounge_cleared, now_unix_ms, task_added, timer_set,
    vote_index_from, vote_upserted, votes_view, SwarmArtifactEntry, SwarmDecisionEntry,
    SwarmEvidenceEntry, SwarmHub, SwarmHubView, SwarmHubWrite, SwarmLeakEntry,
    SwarmLeakTracker, SwarmLoungeEntry, SwarmTaskEntry, SwarmTimerState, SwarmVote,
    SwarmVoteCast, SwarmVoteView,
};
use crate::registry::SwarmAgentInfo;
use crate::text::{ascii_folded, eq_ignore_ascii_case, is_blank, is_blank_str};
use std::collections::VecDeque;
use vstd::prelude::*;

verus! {

/// The actions of the hub tool, each with its inputs.
#[derive(Debug, PartialEq, Eq)]
pub enum SwarmHubArgs {
    LoungeAppend { text: String },
    LoungeRead { limit: Option<usize> },
    LoungeClear,
    VoteCreate { topic: String, options: Vec<String> },
    VoteCast { vote_id: String, option: String, weight: Option<i32> },
    VoteStatus { vote_id: Option<String> },
    TimerStart { label: Option<String>, duration_ms: Option<u64> },
    TimerStop,
    TimerStatus,
    LeakTrackerSetPath { path: String, load_existing: Option<bool> },
    LeakTrackerAdd {
        label: String,
        value: String,
        context: Option<String>,
        severity: Option<String>,
    },
    LeakTrackerList { limit: Option<usize> },
    LeakTrackerClear,
    TaskAdd { title: String, status: Option<String>, notes: Option<String> },
    TaskList { limit: Option<usize> },
    EvidenceAdd { summary: String, severity: Option<String>, source: Option<String> },
    EvidenceList { limit: Option<usize> },
    DecisionAdd { summary: String, rationale: Option<String> },
    DecisionList { limit: Option<usize> },
    ArtifactAdd { label: String, path: Option<String> },
    ArtifactList { limit: Option<usize> },
}

/// What an action answers.
#[derive(Debug, PartialEq, Eq)]
pub enum SwarmHubReply {
    /// The change was made.
    Done,
    LoungeEntries(Vec<SwarmLoungeEntry>),
    Vote(SwarmVote),
    Votes(Vec<SwarmVote>),
    Timer(SwarmTimerState),
    LeakEntries(Vec<SwarmLeakEntry>),
    Task(SwarmTaskEntry),
    Tasks(Vec<SwarmTaskEntry>),
    Evidence(SwarmEvidenceEntry),
    EvidenceList(Vec<SwarmEvidenceEntry>),
    Decision(SwarmDecisionEntry),
    Decisions(Vec<SwarmDecisionEntry>),
    Artifact(SwarmArtifactEntry),
    Artifacts(Vec<SwarmArtifactEntry>),
}

/// The answer to an action and what it asks to have written.
#[derive(Debug)]
pub struct SwarmHubOutcome {
    pub reply: SwarmHubReply,
    pub write: Option<SwarmHubWrite>,
}

/// What an action takes from outside the hub: the calling agent's thread id
/// and registry record, the time, a fresh id for a new record, and the
/// tracker read from the path that `leak_tracker_set_path` names, if read.
pub struct SwarmHubContext {
    pub thread_id: String,
    pub caller: Option<SwarmAgentInfo>,
    pub now_unix_ms: u128,
    pub new_id: String,
    pub loaded_tracker: Option<SwarmLeakTracker>,
}

/// The hub tool.
pub struct SwarmHubHandler;

/// The last `limit` items of `s` (all of them without a limit), newest first.
pub open spec fn newest_first<T>(s: Seq<T>, limit: Option<usize>) -> Seq<T> {
    let n: int = match limit {
        Some(l) => if l < s.len() {
            l as int
        } else {
            s.len() as int
        },
        None => s.len() as int,
    };
    Seq::new(n as nat, |i: int| s[s.len() - 1 - i])
}

/// The votes among the first `n` of `votes` whose id is `id`, in order.
pub open spec fn votes_with_id(votes: Seq<SwarmVoteView>, id: Seq<char>, n: int) -> Seq<SwarmVoteView>
    decreases n,
{
    if n <= 0 {
        Seq::empty()
    } else if votes[n - 1].id == id {
        votes_with_id(votes, id, n - 1).push(votes[n - 1])
    } else {
        votes_with_id(votes, id, n - 1)
    }
}

/// The weight of a cast made without one: 2 for an agent registered as a
/// scholar (in any ASCII case) or at tier 2 or above, 1 otherwise.
pub open spec fn vote_weight_for(caller: Option<SwarmAgentInfo>) -> i32 {
    match caller {
        Some(info) => if ascii_folded(info.role@) == ascii_folded("scholar"@) || info.tier >= 2 {
            2
        } else {
            1
        },
        None => 1,
    }
}

pub open spec fn fails_with(r: Result<SwarmHubOutcome, String>, msg: Seq<char>) -> bool {
    r is Err && r->Err_0@ == msg
}

/// The action succeeded and asks to have `after` written.
pub open spec fn writes(
    r: Result<SwarmHubOutcome, String>,
    after: SwarmHubView,
    home: Option<Seq<char>>,
    with_tracker: bool,
) -> bool {
    r is Ok && r->Ok_0.write is Some && is_hub_write(r->Ok_0.write->0, after, home, with_tracker)
}

/// The action succeeded and asks for nothing to be written.
pub open spec fn writes_nothing(r: Result<SwarmHubOutcome, String>) -> bool {
    r is Ok && r->Ok_0.write is None
}

pub open spec fn reply_of(r: Result<SwarmHubOutcome, String>) -> SwarmHubReply {
    r->Ok_0.reply
}

/// The vote `v` with one more cast.
pub open spec fn vote_with_cast(v: SwarmVoteView, cast: SwarmVoteCast) -> SwarmVoteView {
    SwarmVoteView { votes: v.votes.push(cast), ..v }
}

/// What an action does: `before` and `after` are the hub's state around
/// it, `home` its home directory, and `r` the result.
pub open spec fn hub_action_holds(
    before: SwarmHubView,
    home: Option<Seq<char>>,
    args: SwarmHubArgs,
    ctx: SwarmHubContext,
    after: SwarmHubView,
    r: Result<SwarmHubOutcome, String>,
) -> bool {
    match args {
        SwarmHubArgs::LoungeAppend { text } => if is_blank(text@) {
            fails_with(r, "lounge text must be non-empty"@) && after == before
        } else {
            &&& after == lounge_appended(
                before,
                SwarmLoungeEntry {
                    text,
                    author_thread_id: Some(ctx.thread_id),
                    created_at_unix_ms: ctx.now_unix_ms,
                },
            )
            &&& writes(r, after, home, false)
            &&& reply_of(r) is Done
        },
        SwarmHubArgs::LoungeRead { limit } => {
            &&& after == before
            &&& writes_nothing(r)
            &&& reply_of(r) matches SwarmHubReply::LoungeEntries(es) && es@ == newest_first(
                before.lounge,
                limit,
            )
        },
        SwarmHubArgs::LoungeClear => {
            &&& after == lounge_cleared(before)
            &&& writes(r, after, home, false)
            &&& reply_of(r) is Done
        },
        SwarmHubArgs::VoteCreate { topic, options } => if is_blank(topic@) || options@.len()
            == 0 {
            fails_with(r, "vote topic and options are required"@) && after == before
        } else {
            let vote = SwarmVoteView {
                id: ctx.new_id@,
                topic,
                options: options@,
                created_at_unix_ms: ctx.now_unix_ms,
                votes: Seq::empty(),
            };
            &&& after == vote_upserted(before, vote)
            &&& writes(r, after, home, false)
            &&& reply_of(r) matches SwarmHubReply::Vote(v) && v@ == vote
        },
        SwarmHubArgs::VoteCast { vote_id, option, weight } => match vote_index_from(
            before.votes,
            vote_id@,
            0,
        ) {
            None => fails_with(r, "vote_id not found"@) && after == before,
            Some(k) => if weight is Some && weight->0 <= 0 {
                fails_with(r, "vote weight must be positive"@) && after == before
            } else {
                let cast = SwarmVoteCast {
                    option,
                    weight: match weight {
                        Some(w) => w,
                        None => vote_weight_for(ctx.caller),
                    },
                    voter_thread_id: Some(ctx.thread_id),
                };
                let vote = vote_with_cast(before.votes[k], cast);
                &&& after == vote_upserted(before, vote)
                &&& writes(r, after, home, false)
                &&& reply_of(r) matches SwarmHubReply::Vote(v) && v@ == vote
            },
        },
        SwarmHubArgs::VoteStatus { vote_id } => {
            &&& after == before
            &&& writes_nothing(r)
            &&& reply_of(r) matches SwarmHubReply::Votes(vs) && votes_view(vs@) == match vote_id {
                Some(id) => votes_with_id(before.votes, id@, before.votes.len() as int),
                None => before.votes,
            }
        },
        SwarmHubArgs::TimerStart { label, duration_ms } => {
            &&& after == timer_set(
                before,
                SwarmTimerState {
                    label,
                    duration_ms,
                    started_at_unix_ms: Some(ctx.now_unix_ms),
                    running: true,
                },
            )
            &&& writes(r, after, home, false)
            &&& reply_of(r) is Done
        },
        SwarmHubArgs::TimerStop => {
            let t = SwarmTimerState { running: false, started_at_unix_ms: None, ..before.timer };
            &&& after == timer_set(before, t)
            &&& writes(r, after, home, false)
            &&& reply_of(r) == SwarmHubReply::Timer(t)
        },
        SwarmHubArgs::TimerStatus => {
            &&& after == before
            &&& writes_nothing(r)
            &&& reply_of(r) == SwarmHubReply::Timer(before.timer)
        },
        SwarmHubArgs::LeakTrackerSetPath { path, load_existing } => {
            &&& after == leak_path_set(
                before,
                path@,
                match load_existing {
                    Some(b) => b,
                    None => true,
                },
                match ctx.loaded_tracker {
                    Some(t) => Some(t@),
                    None => None,
                },
            )
            &&& writes(r, after, home, false)
            &&& reply_of(r) is Done
        },
        SwarmHubArgs::LeakTrackerAdd { label, value, context, severity } => if is_blank(label@)
            || is_blank(value@) {
            fails_with(r, "label and value are required"@) && after == before
        } else {
            &&& after == leak_added(
                before,
                SwarmLeakEntry {
                    id: ctx.new_id,
                    label,
                    value,
                    context,
                    severity,
                    created_at_unix_ms: ctx.now_unix_ms,
                    source_thread_id: Some(ctx.thread_id),
                },
            )
            &&& writes(r, after, home, true)
            &&& reply_of(r) is Done
        },
        SwarmHubArgs::LeakTrackerList { limit } => {
            &&& after == before
            &&& writes_nothing(r)
            &&& reply_of(r) matches SwarmHubReply::LeakEntries(es) && es@ == newest_first(
                before.leak_entries,
                limit,
            )
        },
        SwarmHubArgs::LeakTrackerClear => {
            &&& after == leak_cleared(before)
            &&& writes(r, after, home, true)
            &&& reply_of(r) is Done
        },
        SwarmHubArgs::TaskAdd { title, status, notes } => if is_blank(title@) {
            fails_with(r, "task title is required"@) && after == before
        } else {
            &&& writes(r, after, home, false)
            &&& reply_of(r) matches SwarmHubReply::Task(t) && {
                &&& after == task_added(before, t)
                &&& t.id == ctx.new_id
                &&& t.title == title
                &&& t.status@ == match status {
                    Some(s) => s@,
                    None => "pending"@,
                }
                &&& t.owner_thread_id == Some(ctx.thread_id)
                &&& t.notes == notes
                &&& t.created_at_unix_ms == ctx.now_unix_ms
            }
        },
        SwarmHubArgs::TaskList { limit } => {
            &&& after == before
            &&& writes_nothing(r)
            &&& reply_of(r) matches SwarmHubReply::Tasks(ts) && ts@ == newest_first(
                before.tasks,
                limit,
            )
        },
        SwarmHubArgs::EvidenceAdd { summary, severity, source } => if is_blank(summary@) {
            fails_with(r, "evidence summary is required"@) && after == before
        } else {
            let e = SwarmEvidenceEntry {
                id: ctx.new_id,
                summary,
                severity,
                source,
                created_at_unix_ms: ctx.now_unix_ms,
            };
            &&& after == evidence_added(before, e)
            &&& writes(r, after, home, false)
            &&& reply_of(r) == SwarmHubReply::Evidence(e)
        },
        SwarmHubArgs::EvidenceList { limit } => {
            &&& after == before
            &&& writes_nothing(r)
            &&& reply_of(r) matches SwarmHubReply::EvidenceList(es) && es@ == newest_first(
                before.evidence,
                limit,
            )
        },
        SwarmHubArgs::DecisionAdd { summary, rationale } => if is_blank(summary@) {
            fails_with(r, "decision summary is required"@) && after == before
        } else {
            let d = SwarmDecisionEntry {
                id: ctx.new_id,
                summary,
                rationale,
                created_at_unix_ms: ctx.now_unix_ms,
            };
            &&& after == decision_added(before, d)
            &&& writes(r, after, home, false)
            &&& reply_of(r) == SwarmHubReply::Decision(d)
        },
        SwarmHubArgs::DecisionList { limit } => {
            &&& after == before
            &&& writes_nothing(r)
            &&& reply_of(r) matches SwarmHubReply::Decisions(ds) && ds@ == newest_first(
                before.decisions,
                limit,
            )
        },
        SwarmHubArgs::ArtifactAdd { label, path } => if is_blank(label@) {
            fails_with(r, "artifact label is required"@) && after == before
        } else {
            let a = SwarmArtifactEntry {
                id: ctx.new_id,
                label,
                path,
                created_at_unix_ms: ctx.now_unix_ms,
            };
            &&& after == artifact_added(before, a)
            &&& writes(r, after, home, false)
            &&& reply_of(r) == SwarmHubReply::Artifact(a)
        },
        SwarmHubArgs::ArtifactList { limit } => {
            &&& after == before
            &&& writes_nothing(r)
            &&& reply_of(r) matches SwarmHubReply::Artifacts(xs) && xs@ == newest_first(
                before.artifacts,
                limit,
            )
        },
    }
}

/// Copies of the last `limit` items of `items` (all without a limit),
/// newest first.
fn newest_first_vec<T: Clone>(items: &Vec<T>, limit: Option<usize>) -> (r: Vec<T>)
    ensures
        r@.len() == newest_first(items@, limit).len(),
        forall|i: int|
            0 <= i < r@.len() ==> cloned::<T>(items@[items@.len() - 1 - i], #[trigger] r@[i]),
{
    let n = match limit {
        Some(l) => if l < items.len() {
            l
        } else {
            items.len()
        },
        None => items.len(),
    };
    let mut r: Vec<T> = Vec::new();
    let mut i: usize = 0;
    while i < n
        invariant
            0 <= i <= n <= items.len(),
            n == newest_first(items@, limit).len(),
            r@.len() == i,
            forall|j: int|
                0 <= j < i ==> cloned::<T>(items@[items@.len() - 1 - j], #[trigger] r@[j]),
        decreases n - i,
    {
        r.push(items[items.len() - 1 - i].clone());
        i += 1;
    }
    r
}

/// Copies of the last `limit` entries of `items` (all without a limit),
/// newest first.
fn newest_first_deque<T: Clone>(items: &VecDeque<T>, limit: Option<usize>) -> (r: Vec<T>)
    ensures
        r@.len() == newest_first(items@, limit).len(),
        forall|i: int|
            0 <= i < r@.len() ==> cloned::<T>(items@[items@.len() - 1 - i], #[trigger] r@[i]),
{
    let n = match limit {
        Some(l) => if l < items.len() {
            l
        } else {
            items.len()
        },
        None => items.len(),
    };
    let mut r: Vec<T> = Vec::new();
    let mut i: usize = 0;
    while i < n
        invariant
            0 <= i <= n <= items@.len(),
            n == newest_first(items@, limit).len(),
            r@.len() == i,
            forall|j: int|
                0 <= j < i ==> cloned::<T>(items@[items@.len() - 1 - j], #[trigger] r@[j]),
        decreases n - i,
    {
        r.push(items[items.len() - 1 - i].clone());
        i += 1;
    }
    r
}

/// Position of the first vote whose id is `id`.
fn find_vote_index(votes: &Vec<SwarmVote>, id: &String) -> (r: Option<usize>)
    ensures
        match r {
            Some(k) => k < votes@.len() && vote_index_from(votes_view(votes@), id@, 0) == Some(
                k as int,
            ),
            None => vote_index_from(votes_view(votes@), id@, 0) is None,
        },
{
    let ghost views = votes_view(votes@);
    let mut k: usize = 0;
    while k < votes.len()
        invariant
            0 <= k <= votes.len(),
            views == votes_view(votes@),
            vote_index_from(views, id@, 0) == vote_index_from(views, id@, k as int),
        decreases votes.len() - k,
    {
        if votes[k].id == *id {
            assert(views[k as int].id == id@);
            return Some(k);
        }
        assert(views[k as int].id != id@);
        k += 1;
    }
    None
}

/// Copies of the votes whose id is `id`, in order.
fn votes_matching(votes: &Vec<SwarmVote>, id: &String) -> (r: Vec<SwarmVote>)
    ensures
        votes_view(r@) == votes_with_id(votes_view(votes@), id@, votes@.len() as int),
{
    let ghost views = votes_view(votes@);
    let mut r: Vec<SwarmVote> = Vec::new();
    let mut i: usize = 0;
    while i < votes.len()
        invariant
            0 <= i <= votes.len(),
            views == votes_view(votes@),
            votes_view(r@) == votes_with_id(views, id@, i as int),
        decreases votes.len() - i,
    {
        if votes[i].id == *id {
            let v = votes[i].clone();
            assert(views[i as int] == v@);
            r.push(v);
            assert(votes_view(r@) =~= votes_with_id(views, id@, i as int).push(views[i as int]));
        }
        i += 1;
    }
    r
}

/// The weight of a cast made without one: 2 for an agent registered as a
/// scholar (in any ASCII case) or at tier 2 or above, 1 otherwise.
pub fn default_vote_weight(caller: &Option<SwarmAgentInfo>) -> (r: i32)
    ensures
        r == vote_weight_for(*caller),
{
    match caller {
        Some(info) => if eq_ignore_ascii_case(info.role.as_str(), "scholar") || info.tier >= 2 {
            2
        } else {
            1
        },
        None => 1,
    }
}

fn failure(msg: &str) -> (r: Result<SwarmHubOutcome, String>)
    ensures
        fails_with(r, msg@),
{
    Err(msg.to_owned())
}

/// Carries out one action on `hub` with the outside values of `ctx`:
/// checks its inputs, changes the hub, and answers. A refused action leaves
/// the hub as it was.
pub fn handle_action(hub: &mut SwarmHub, args: SwarmHubArgs, ctx: SwarmHubContext) -> (r: Result<
    SwarmHubOutcome,
    String,
>)
    ensures
        hub_action_holds(old(hub)@, old(hub).home(), args, ctx, final(hub)@, r),
        final(hub).home() == old(hub).home(),
{
    match args {
        SwarmHubArgs::LoungeAppend { text } => {
            if is_blank_str(text.as_str()) {
                return failure("lounge text must be non-empty");
            }
            let w = hub.lounge_append(
                SwarmLoungeEntry {
                    text,
                    author_thread_id: Some(ctx.thread_id),
                    created_at_unix_ms: ctx.now_unix_ms,
                },
            );
            Ok(SwarmHubOutcome { reply: SwarmHubReply::Done, write: Some(w) })
        },
        SwarmHubArgs::LoungeRead { limit } => {
            let state = hub.snapshot();
            let entries = newest_first_deque(&state.lounge, limit);
            assert(entries@ =~= newest_first(state.lounge@, limit));
            Ok(SwarmHubOutcome { reply: SwarmHubReply::LoungeEntries(entries), write: None })
        },
        SwarmHubArgs::LoungeClear => {
            let w = hub.lounge_clear();
            Ok(SwarmHubOutcome { reply: SwarmHubReply::Done, write: Some(w) })
        },
        SwarmHubArgs::VoteCreate { topic, options } => {
            if is_blank_str(topic.as_str()) || options.len() == 0 {
                return failure("vote topic and options are required");
            }
            let vote = SwarmVote {
                id: ctx.new_id,
                topic,
                options,
                created_at_unix_ms: ctx.now_unix_ms,
                votes: Vec::new(),
            };
            let w = hub.upsert_vote(vote.clone());
            Ok(SwarmHubOutcome { reply: SwarmHubReply::Vote(vote), write: Some(w) })
        },
        SwarmHubArgs::VoteCast { vote_id, option, weight } => {
            let state = hub.snapshot();
            let k = match find_vote_index(&state.votes, &vote_id) {
                Some(k) => k,
                None => {
                    return failure("vote_id not found");
                },
            };
            let weight = match weight {
                Some(w) => {
                    if w <= 0 {
                        return failure("vote weight must be positive");
                    }
                    w
                },
                None => default_vote_weight(&ctx.caller),
            };
            let mut vote = state.votes[k].clone();
            vote.votes.push(SwarmVoteCast { option, weight, voter_thread_id: Some(ctx.thread_id) });
            let w = hub.upsert_vote(vote.clone());
            Ok(SwarmHubOutcome { reply: SwarmHubReply::Vote(vote), write: Some(w) })
        },
        SwarmHubArgs::VoteStatus { vote_id } => {
            let state = hub.snapshot();
            let votes = match vote_id {
                Some(id) => votes_matching(&state.votes, &id),
                None => state.votes,
            };
            Ok(SwarmHubOutcome { reply: SwarmHubReply::Votes(votes), write: None })
        },
        SwarmHubArgs::TimerStart { label, duration_ms } => {
            let w = hub.set_timer(
                SwarmTimerState {
                    label,
                    duration_ms,
                    started_at_unix_ms: Some(ctx.now_unix_ms),
                    running: true,
                },
            );
            Ok(SwarmHubOutcome { reply: SwarmHubReply::Done, write: Some(w) })
        },
        SwarmHubArgs::TimerStop => {
            let state = hub.snapshot();
            let mut timer = state.timer;
            timer.running = false;
            timer.started_at_unix_ms = None;
            let w = hub.set_timer(timer.clone());
            Ok(SwarmHubOutcome { reply: SwarmHubReply::Timer(timer), write: Some(w) })
        },
        SwarmHubArgs::TimerStatus => {
            let state = hub.snapshot();
            Ok(SwarmHubOutcome { reply: SwarmHubReply::Timer(state.timer), write: None })
        },
        SwarmHubArgs::LeakTrackerSetPath { path, load_existing } => {
            let load_existing = match load_existing {
                Some(b) => b,
                None => true,
            };
            let w = hub.leak_tracker_set_path(path, load_existing, ctx.loaded_tracker);
            Ok(SwarmHubOutcome { reply: SwarmHubReply::Done, write: Some(w) })
        },
        SwarmHubArgs::LeakTrackerAdd { label, value, context, severity } => {
            if is_blank_str(label.as_str()) || is_blank_str(value.as_str()) {
                return failure("label and value are required");
            }
            let w = hub.leak_tracker_add(
                SwarmLeakEntry {
                    id: ctx.new_id,
                    label,
                    value,
                    context,
                    severity,
                    created_at_unix_ms: ctx.now_unix_ms,
                    source_thread_id: Some(ctx.thread_id),
                },
            );
            Ok(SwarmHubOutcome { reply: SwarmHubReply::Done, write: Some(w) })
        },
        SwarmHubArgs::LeakTrackerList { limit } => {
            let state = hub.snapshot();
            let entries = newest_first_vec(&state.leak_tracker.entries, limit);
            assert(entries@ =~= newest_first(state.leak_tracker.entries@, limit));
            Ok(SwarmHubOutcome { reply: SwarmHubReply::LeakEntries(entries), write: None })
        },
        SwarmHubArgs::LeakTrackerClear => {
            let w = hub.leak_tracker_clear();
            Ok(SwarmHubOutcome { reply: SwarmHubReply::Done, write: Some(w) })
        },
        SwarmHubArgs::TaskAdd { title, status, notes } => {
            if is_blank_str(title.as_str()) {
                return failure("task title is required");
            }
            let status = match status {
                Some(s) => s,
                None => "pending".to_owned(),
            };
            let entry = SwarmTaskEntry {
                id: ctx.new_id,
                title,
                status,
                owner_thread_id: Some(ctx.thread_id),
                notes,
                created_at_unix_ms: ctx.now_unix_ms,
            };
            let w = hub.task_add(entry.clone());
            Ok(SwarmHubOutcome { reply: SwarmHubReply::Task(entry), write: Some(w) })
        },
        SwarmHubArgs::TaskList { limit } => {
            let state = hub.snapshot();
            let tasks = newest_first_vec(&state.tasks, limit);
            assert(tasks@ =~= newest_first(state.tasks@, limit));
            Ok(SwarmHubOutcome { reply: SwarmHubReply::Tasks(tasks), write: None })
        },
        SwarmHubArgs::EvidenceAdd { summary, severity, source } => {
            if is_blank_str(summary.as_str()) {
                return failure("evidence summary is required");
            }
            let entry = SwarmEvidenceEntry {
                id: ctx.new_id,
                summary,
                severity,
                source,
                created_at_unix_ms: ctx.now_unix_ms,
            };
            let w = hub.evidence_add(entry.clone());
            Ok(SwarmHubOutcome { reply: SwarmHubReply::Evidence(entry), write: Some(w) })
        },
        SwarmHubArgs::EvidenceList { limit } => {
            let state = hub.snapshot();
            let evidence = newest_first_vec(&state.evidence, limit);
            assert(evidence@ =~= newest_first(state.evidence@, limit));
            Ok(SwarmHubOutcome { reply: SwarmHubReply::EvidenceList(evidence), write: None })
        },
        SwarmHubArgs::DecisionAdd { summary, rationale } => {
            if is_blank_str(summary.as_str()) {
                return failure("decision summary is required");
            }
            let entry = SwarmDecisionEntry {
                id: ctx.new_id,
                summary,
                rationale,
                created_at_unix_ms: ctx.now_unix_ms,
            };
            let w = hub.decision_add(entry.clone());
            Ok(SwarmHubOutcome { reply: SwarmHubReply::Decision(entry), write: Some(w) })
        },
        SwarmHubArgs::DecisionList { limit } => {
            let state = hub.snapshot();
            let decisions = newest_first_vec(&state.decisions, limit);
            assert(decisions@ =~= newest_first(state.decisions@, limit));
            Ok(SwarmHubOutcome { reply: SwarmHubReply::Decisions(decisions), write: None })
        },
        SwarmHubArgs::ArtifactAdd { label, path } => {
            if is_blank_str(label.as_str()) {
                return failure("artifact label is required");
            }
            let entry = SwarmArtifactEntry {
                id: ctx.new_id,
                label,
                path,
                created_at_unix_ms: ctx.now_unix_ms,
            };
            let w = hub.artifact_add(entry.clone());
            Ok(SwarmHubOutcome { reply: SwarmHubReply::Artifact(entry), write: Some(w) })
        },
        SwarmHubArgs::ArtifactList { limit } => {
            let state = hub.snapshot();
            let artifacts = newest_first_vec(&state.artifacts, limit);
            assert(artifacts@ =~= newest_first(state.artifacts@, limit));
            Ok(SwarmHubOutcome { reply: SwarmHubReply::Artifacts(artifacts), write: None })
        },
    }
}

/// Relies on `uuid::Uuid::new_v4` and the `Display` of `Uuid`: a random id
/// in its hyphenated form, 36 characters long.
#[verifier::external_body]
fn new_record_id() -> (r: String)
    ensures
        r@.len() == 36,
{
    uuid::Uuid::new_v4().to_string()
}

impl SwarmHubHandler {
    /// Carries out one action for the agent of thread `thread_id` (with
    /// registry record `caller`), stamping new records with the current time
    /// and a fresh random id. `loaded_tracker` is what was read from the path
    /// that a `LeakTrackerSetPath` action names, if it was read.
    pub fn handle(
        &self,
        hub: &mut SwarmHub,
        args: SwarmHubArgs,
        thread_id: String,
        caller: Option<SwarmAgentInfo>,
        loaded_tracker: Option<SwarmLeakTracker>,
    ) -> (r: Result<SwarmHubOutcome, String>)
        ensures
            final(hub).home() == old(hub).home(),
            exists|ctx: SwarmHubContext|
                #![trigger hub_action_holds(old(hub)@, old(hub).home(), args, ctx, final(hub)@, r)]
                ctx.thread_id == thread_id && ctx.caller == caller && ctx.loaded_tracker
                    == loaded_tracker && ctx.new_id@.len() == 36 && hub_action_holds(
                    old(hub)@,
                    old(hub).home(),
                    args,
                    ctx,
                    final(hub)@,
                    r,
                ),
    {
        let ctx = SwarmHubContext {
            thread_id,
            caller,
            now_unix_ms: now_unix_ms(),
            new_id: new_record_id(),
            loaded_tracker,
        };
        handle_action(hub, args, ctx)
    }
}

} // verus!

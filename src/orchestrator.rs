//! The decisions of the operator commands (spawn, send, wait, close): which
//! inputs are refused, what the tier policy allows, how long a wait lasts
//! and what it reports.
use crate::config::{
    call_allowed, default_spawn_role_name_of, opt_str_view, opt_string_view, role_lookup,
    SwarmConfig, SwarmRole,
};
use crate::registry::{
    agent_lookup, agents_inserted, SwarmAgentInfo, SwarmRegistry,
    SwarmRegistryWrite,
};
use crate::text::{is_blank, is_blank_str, prefixed, trim_spaces, trim_str};
use vstd::prelude::*;

verus! {

/// The shortest wait, so that a wait never spins.
pub const MIN_WAIT_TIMEOUT_MS: i64 = 10_000;

/// The wait when none is given.
pub const DEFAULT_WAIT_TIMEOUT_MS: i64 = 30_000;

/// The longest wait.
pub const MAX_WAIT_TIMEOUT_MS: i64 = 300_000;

/// The longest message preview shown in a status line, in characters.
pub const STATUS_PREVIEW_CHARS: usize = 120;

/// Where an agent is in its life.
#[derive(Debug, PartialEq, Eq)]
pub enum AgentStatus {
    PendingInit,
    Running,
    Completed(Option<String>),
    Errored(String),
    Shutdown,
    NotFound,
}

impl Clone for AgentStatus {
    fn clone(&self) -> (r: Self)
        ensures
            r == *self,
    {
        match self {
            AgentStatus::PendingInit => AgentStatus::PendingInit,
            AgentStatus::Running => AgentStatus::Running,
            AgentStatus::Completed(m) => AgentStatus::Completed(
                match m {
                    Some(m) => Some(m.clone()),
                    None => None,
                },
            ),
            AgentStatus::Errored(m) => AgentStatus::Errored(m.clone()),
            AgentStatus::Shutdown => AgentStatus::Shutdown,
            AgentStatus::NotFound => AgentStatus::NotFound,
        }
    }
}

/// Why a command was refused.
#[derive(Debug, PartialEq, Eq)]
pub enum SwarmCommandError {
    /// Both a behavioural preset and a configured role were named.
    BothRoleKinds,
    /// The message is blank.
    EmptyMessage,
    /// The named role is not configured.
    UnknownRole(String),
    /// The tier policy forbids the sender to spawn an agent of that role.
    SpawnBlocked,
    /// The tier policy forbids the sender to address the receiver.
    SendBlocked,
    /// The tier policy forbids the sender to close the target.
    CloseBlocked,
    /// The wait timeout is zero or negative.
    NonPositiveTimeout,
    /// A wait names no agent.
    NoAgentIds,
}

/// A status is final unless the agent is still starting or running.
pub open spec fn is_final(s: AgentStatus) -> bool {
    !(s is PendingInit || s is Running)
}

/// Whether `status` is final.
pub fn is_final_status(status: &AgentStatus) -> (r: bool)
    ensures
        r == is_final(*status),
{
    match status {
        AgentStatus::PendingInit => false,
        AgentStatus::Running => false,
        _ => true,
    }
}

/// The wait in milliseconds for a requested timeout: the default without
/// one, the requested one brought into the allowed range otherwise.
pub open spec fn wait_timeout_for(t: i64) -> i64 {
    if t < MIN_WAIT_TIMEOUT_MS {
        MIN_WAIT_TIMEOUT_MS
    } else if t > MAX_WAIT_TIMEOUT_MS {
        MAX_WAIT_TIMEOUT_MS
    } else {
        t
    }
}

/// The wait for a requested timeout: the default when none is given, a
/// positive one clamped to the allowed range; a zero or negative one is
/// refused.
pub fn resolve_wait_timeout(timeout_ms: Option<i64>) -> (r: Result<i64, SwarmCommandError>)
    ensures
        match timeout_ms {
            None => r == Ok::<i64, SwarmCommandError>(DEFAULT_WAIT_TIMEOUT_MS),
            Some(t) => if t <= 0 {
                r matches Err(SwarmCommandError::NonPositiveTimeout)
            } else {
                r == Ok::<i64, SwarmCommandError>(wait_timeout_for(t))
            },
        },
{
    let timeout_ms = match timeout_ms {
        None => {
            return Ok(DEFAULT_WAIT_TIMEOUT_MS);
        },
        Some(t) => t,
    };
    if timeout_ms <= 0 {
        return Err(SwarmCommandError::NonPositiveTimeout);
    }
    if timeout_ms < MIN_WAIT_TIMEOUT_MS {
        Ok(MIN_WAIT_TIMEOUT_MS)
    } else if timeout_ms > MAX_WAIT_TIMEOUT_MS {
        Ok(MAX_WAIT_TIMEOUT_MS)
    } else {
        Ok(timeout_ms)
    }
}

/// Decides a wait: the timeout is resolved first, then a wait that names no
/// agent is refused.
pub fn plan_wait(timeout_ms: Option<i64>, ids: &Vec<String>) -> (r: Result<i64, SwarmCommandError>)
    ensures
        match timeout_ms {
            Some(t) if t <= 0 => r matches Err(SwarmCommandError::NonPositiveTimeout),
            _ => if ids@.len() == 0 {
                r matches Err(SwarmCommandError::NoAgentIds)
            } else {
                r == Ok::<i64, SwarmCommandError>(
                    match timeout_ms {
                        Some(t) => wait_timeout_for(t),
                        None => DEFAULT_WAIT_TIMEOUT_MS,
                    },
                )
            },
        },
{
    let timeout = resolve_wait_timeout(timeout_ms)?;
    if ids.len() == 0 {
        return Err(SwarmCommandError::NoAgentIds);
    }
    Ok(timeout)
}

/// What the wait has to report on an agent at the start: its current
/// status, or `NotFound` for an agent that does not exist.
pub open spec fn observed_status(s: Option<AgentStatus>) -> AgentStatus {
    match s {
        Some(s) => s,
        None => AgentStatus::NotFound,
    }
}

/// The agents among the first `n` whose observed status is final, with that
/// status, in order.
pub open spec fn initial_finals(
    ids: Seq<String>,
    current: Seq<Option<AgentStatus>>,
    n: int,
) -> Seq<(String, AgentStatus)>
    decreases n,
{
    if n <= 0 {
        Seq::empty()
    } else if is_final(observed_status(current[n - 1])) {
        initial_finals(ids, current, n - 1).push((ids[n - 1], observed_status(current[n - 1])))
    } else {
        initial_finals(ids, current, n - 1)
    }
}

/// The agents of `ids` that are already done, given what subscribing to
/// each gave (`current[i]` for `ids[i]`; none for an unknown agent, which
/// counts as done with `NotFound`). When this is not empty the wait returns
/// it at once.
pub fn initial_final_statuses(ids: &Vec<String>, current: &Vec<Option<AgentStatus>>) -> (r: Vec<
    (String, AgentStatus),
>)
    requires
        ids@.len() == current@.len(),
    ensures
        r@ == initial_finals(ids@, current@, ids@.len() as int),
{
    let mut r: Vec<(String, AgentStatus)> = Vec::new();
    let mut i: usize = 0;
    while i < ids.len()
        invariant
            0 <= i <= ids@.len(),
            ids@.len() == current@.len(),
            r@ == initial_finals(ids@, current@, i as int),
        decreases ids@.len() - i,
    {
        let status = match &current[i] {
            Some(s) => s.clone(),
            None => AgentStatus::NotFound,
        };
        if is_final_status(&status) {
            r.push((ids[i].clone(), status));
        }
        i += 1;
    }
    r
}

/// When every agent a wait names is already done (or unknown), the wait
/// returns at once with all of them, in the order they were named.
pub proof fn lemma_all_final_returns_all(ids: Seq<String>, current: Seq<Option<AgentStatus>>, n: int)
    requires
        0 <= n <= ids.len(),
        ids.len() == current.len(),
        forall|i: int| 0 <= i < ids.len() ==> is_final(observed_status(#[trigger] current[i])),
    ensures
        initial_finals(ids, current, n) == Seq::new(
            n as nat,
            |i: int| (ids[i], observed_status(current[i])),
        ),
    decreases n,
{
    if n > 0 {
        lemma_all_final_returns_all(ids, current, n - 1);
        assert(is_final(observed_status(current[n - 1])));
        assert(initial_finals(ids, current, n) =~= Seq::new(
            n as nat,
            |i: int| (ids[i], observed_status(current[i])),
        ));
    } else {
        assert(initial_finals(ids, current, n) =~= Seq::new(
            n as nat,
            |i: int| (ids[i], observed_status(current[i])),
        ));
    }
}

/// What a wait reports: the final statuses it saw, and whether it ran out
/// of time seeing none.
#[derive(Debug, PartialEq, Eq)]
pub struct SwarmWaitOutput {
    pub statuses: Vec<(String, AgentStatus)>,
    pub timed_out: bool,
}

/// The report of a wait: the statuses found done at the start when there
/// are any; else the first agent to finish during the wait, if one did
/// before the deadline. It timed out when there is nothing to report.
pub fn wait_output(
    initial: Vec<(String, AgentStatus)>,
    first_finished: Option<(String, AgentStatus)>,
) -> (r: SwarmWaitOutput)
    ensures
        initial@.len() > 0 ==> r.statuses@ == initial@,
        initial@.len() == 0 ==> r.statuses@ == match first_finished {
            Some(p) => seq![p],
            None => Seq::<(String, AgentStatus)>::empty(),
        },
        r.timed_out == (r.statuses@.len() == 0),
{
    if initial.len() > 0 {
        return SwarmWaitOutput { statuses: initial, timed_out: false };
    }
    let mut statuses: Vec<(String, AgentStatus)> = Vec::new();
    if let Some(p) = first_finished {
        statuses.push(p);
    }
    let timed_out = statuses.len() == 0;
    SwarmWaitOutput { statuses, timed_out }
}

/// Whether closing an agent with this status still has to shut it down.
pub fn close_needs_shutdown(status: &AgentStatus) -> (r: bool)
    ensures
        r == !(*status is Shutdown),
{
    match status {
        AgentStatus::Shutdown => false,
        _ => true,
    }
}

/// The role name a spawn resolves: the one given, else the configured
/// default when the swarm is enabled.
pub open spec fn spawn_role_name(config: SwarmConfig, swarm_role: Option<Seq<char>>) -> Option<
    Seq<char>,
> {
    match swarm_role {
        Some(n) => Some(n),
        None => if config.enabled {
            default_spawn_role_name_of(config)
        } else {
            None
        },
    }
}

/// What deciding a spawn gives: the refusals in the order they are
/// checked, else the resolved role (none when no role applies).
pub open spec fn spawn_plan_holds(
    config: SwarmConfig,
    agents: Seq<SwarmAgentInfo>,
    sender_id: Seq<char>,
    agent_type_given: bool,
    swarm_role: Option<Seq<char>>,
    message: Seq<char>,
    r: Result<Option<SwarmRole>, SwarmCommandError>,
) -> bool {
    if agent_type_given && swarm_role is Some {
        r matches Err(SwarmCommandError::BothRoleKinds)
    } else if is_blank(message) {
        r matches Err(SwarmCommandError::EmptyMessage)
    } else {
        match spawn_role_name(config, swarm_role) {
            None => r == Ok::<Option<SwarmRole>, SwarmCommandError>(None),
            Some(name) => match role_lookup(config.roles@, name) {
                None => r matches Err(SwarmCommandError::UnknownRole(n)) && n@ == name,
                Some(role) => if config.enabled && agent_lookup(agents, sender_id) is Some
                    && !call_allowed(
                    config.hierarchy,
                    agent_lookup(agents, sender_id)->0.tier,
                    role.tier,
                ) {
                    r matches Err(SwarmCommandError::SpawnBlocked)
                } else {
                    r == Ok::<Option<SwarmRole>, SwarmCommandError>(Some(role))
                },
            },
        }
    }
}

/// Decides a spawn requested by the agent of thread `sender_id`: refuses a
/// request that names both a preset and a role, a blank message, an unknown
/// role, and a role that the tier policy puts out of the sender's reach;
/// otherwise gives the role the new agent takes.
pub fn plan_spawn(
    config: &SwarmConfig,
    registry: &SwarmRegistry,
    sender_id: &str,
    agent_type_given: bool,
    swarm_role: Option<&str>,
    message: &str,
) -> (r: Result<Option<SwarmRole>, SwarmCommandError>)
    ensures
        spawn_plan_holds(
            *config,
            registry@,
            sender_id@,
            agent_type_given,
            opt_str_view(swarm_role),
            message@,
            r,
        ),
{
    if agent_type_given && swarm_role.is_some() {
        return Err(SwarmCommandError::BothRoleKinds);
    }
    if is_blank_str(message) {
        return Err(SwarmCommandError::EmptyMessage);
    }
    let name = match swarm_role {
        Some(n) => Some(n),
        None => if config.enabled {
            config.default_spawn_role_name()
        } else {
            None
        },
    };
    let name = match name {
        Some(n) => n,
        None => {
            return Ok(None);
        },
    };
    let role = match config.role(name) {
        Some(role) => role.clone(),
        None => {
            return Err(SwarmCommandError::UnknownRole(name.to_owned()));
        },
    };
    if config.enabled {
        if let Some(sender) = registry.get(sender_id) {
            if !config.can_call(sender.tier, role.tier) {
                return Err(SwarmCommandError::SpawnBlocked);
            }
        }
    }
    Ok(Some(role))
}

/// Records a spawned agent as a child of its sender, when the swarm is
/// enabled and the spawn took a role; gives what is then to be written.
pub fn record_spawn(
    registry: &mut SwarmRegistry,
    config: &SwarmConfig,
    role: &Option<SwarmRole>,
    new_thread_id: String,
    sender_id: String,
    model: Option<String>,
) -> (r: Option<SwarmRegistryWrite>)
    requires
        old(registry).wf(),
    ensures
        final(registry).wf(),
        final(registry).home() == old(registry).home(),
        final(registry).storage() == old(registry).storage(),
        if config.enabled && role is Some {
            &&& final(registry)@ == agents_inserted(
                old(registry)@,
                (SwarmAgentInfo {
                    thread_id: new_thread_id,
                    role: role->0.name,
                    model,
                    tier: role->0.tier,
                    parent_thread_id: Some(sender_id),
                }),
            )
            &&& r is Some
            &&& r->0.agents@ == final(registry)@
        } else {
            final(registry)@ == old(registry)@ && r is None
        },
{
    if config.enabled {
        if let Some(role) = role {
            return Some(registry.register_child(new_thread_id, sender_id, role, model));
        }
    }
    None
}

/// The policy check on an agent addressing another: allowed unless the swarm
/// is enabled, both are registered, and the tier policy forbids it.
pub open spec fn addressing_allowed(
    config: SwarmConfig,
    agents: Seq<SwarmAgentInfo>,
    sender_id: Seq<char>,
    target_id: Seq<char>,
) -> bool {
    !(config.enabled && agent_lookup(agents, sender_id) is Some && agent_lookup(agents, target_id)
        is Some && !call_allowed(
        config.hierarchy,
        agent_lookup(agents, sender_id)->0.tier,
        agent_lookup(agents, target_id)->0.tier,
    ))
}

fn addressing_permitted(
    config: &SwarmConfig,
    registry: &SwarmRegistry,
    sender_id: &str,
    target_id: &str,
) -> (r: bool)
    ensures
        r == addressing_allowed(*config, registry@, sender_id@, target_id@),
{
    if !config.enabled {
        return true;
    }
    match (registry.get(sender_id), registry.get(target_id)) {
        (Some(sender), Some(target)) => config.can_call(sender.tier, target.tier),
        _ => true,
    }
}

/// Decides a message sent by the agent of thread `sender_id` to that of
/// `receiver_id`: a blank message is refused, then one that the tier policy
/// forbids.
pub fn check_send(
    config: &SwarmConfig,
    registry: &SwarmRegistry,
    sender_id: &str,
    receiver_id: &str,
    message: &str,
) -> (r: Result<(), SwarmCommandError>)
    ensures
        is_blank(message@) ==> r matches Err(SwarmCommandError::EmptyMessage),
        !is_blank(message@) && !addressing_allowed(*config, registry@, sender_id@, receiver_id@)
            ==> r matches Err(SwarmCommandError::SendBlocked),
        !is_blank(message@) && addressing_allowed(*config, registry@, sender_id@, receiver_id@)
            ==> r is Ok,
{
    if is_blank_str(message) {
        return Err(SwarmCommandError::EmptyMessage);
    }
    if !addressing_permitted(config, registry, sender_id, receiver_id) {
        return Err(SwarmCommandError::SendBlocked);
    }
    Ok(())
}

/// Decides closing the agent of thread `target_id` on behalf of that of
/// `sender_id`: refused when the tier policy forbids it.
pub fn check_close(
    config: &SwarmConfig,
    registry: &SwarmRegistry,
    sender_id: &str,
    target_id: &str,
) -> (r: Result<(), SwarmCommandError>)
    ensures
        addressing_allowed(*config, registry@, sender_id@, target_id@) ==> r is Ok,
        !addressing_allowed(*config, registry@, sender_id@, target_id@) ==> r matches Err(
            SwarmCommandError::CloseBlocked,
        ),
{
    if !addressing_permitted(config, registry, sender_id, target_id) {
        return Err(SwarmCommandError::CloseBlocked);
    }
    Ok(())
}

/// The settings of a new agent that a role shapes: its model and its base
/// instructions.
#[derive(Debug, PartialEq, Eq)]
pub struct SpawnSettings {
    pub model: Option<String>,
    pub base_instructions: Option<String>,
}

/// The base instructions after a role's are added: the role's alone when
/// there were none (or only blank ones), else both, a blank line between.
pub open spec fn instructions_with_role(current: Option<String>, role_text: Seq<char>) -> Seq<char> {
    match current {
        Some(c) => if is_blank(c@) {
            role_text
        } else {
            c@ + "\n\n"@ + role_text
        },
        None => role_text,
    }
}

/// The settings of an agent spawned with `role` from `base`: the role's
/// model replaces the model, the role's non-blank instructions are added to
/// the base ones, and without any model `default_model` is used.
pub fn build_spawn_settings(base: SpawnSettings, default_model: &str, role: Option<&SwarmRole>) -> (r:
    SpawnSettings)
    ensures
        ({
            let model = match role {
                Some(rl) => if rl.model is Some {
                    opt_string_view(rl.model)
                } else {
                    opt_string_view(base.model)
                },
                None => opt_string_view(base.model),
            };
            opt_string_view(r.model) == if model is Some {
                model
            } else {
                Some(default_model@)
            }
        }),
        opt_string_view(r.base_instructions) == match role {
            Some(rl) => if rl.base_instructions is Some && !is_blank(rl.base_instructions->0@) {
                Some(instructions_with_role(base.base_instructions, rl.base_instructions->0@))
            } else {
                opt_string_view(base.base_instructions)
            },
            None => opt_string_view(base.base_instructions),
        },
{
    let mut settings = base;
    if let Some(role) = role {
        if let Some(model) = &role.model {
            settings.model = Some(model.clone());
        }
        if let Some(role_instructions) = &role.base_instructions {
            if !is_blank_str(role_instructions.as_str()) {
                let combined = match &settings.base_instructions {
                    Some(current) => if !is_blank_str(current.as_str()) {
                        let mut text = current.clone();
                        text.append("\n\n");
                        text.append(role_instructions.as_str());
                        text
                    } else {
                        role_instructions.clone()
                    },
                    None => role_instructions.clone(),
                };
                settings.base_instructions = Some(combined);
            }
        }
    }
    if settings.model.is_none() {
        settings.model = Some(default_model.to_owned());
    }
    settings
}

/// `s` cut to its first `max` characters, an ellipsis marking the cut.
pub open spec fn preview_of(s: Seq<char>, max: usize) -> Seq<char> {
    if s.len() <= max {
        s
    } else {
        s.take(max as int) + "\u{2026}"@
    }
}

/// `text` cut to its first `max_chars` characters, with an ellipsis when
/// something was cut.
pub fn truncate_preview(text: &str, max_chars: usize) -> (r: String)
    ensures
        r@ == preview_of(text@, max_chars),
{
    let n = text.unicode_len();
    if n <= max_chars {
        return text.to_owned();
    }
    let mut r = text.substring_char(0, max_chars).to_owned();
    r.append("\u{2026}");
    r
}

/// `label`, followed by the quoted preview of `message` when there is one.
pub open spec fn labelled_message(label: Seq<char>, message: Seq<char>) -> Seq<char> {
    let p = preview_of(trim_spaces(message), STATUS_PREVIEW_CHARS);
    if p.len() == 0 {
        label
    } else {
        label + ": \""@ + p + "\""@
    }
}

/// How a status reads in a report line.
pub open spec fn status_text(s: AgentStatus) -> Seq<char> {
    match s {
        AgentStatus::PendingInit => "pending init"@,
        AgentStatus::Running => "running"@,
        AgentStatus::Completed(Some(m)) => labelled_message("completed"@, m@),
        AgentStatus::Completed(None) => "completed"@,
        AgentStatus::Errored(m) => labelled_message("errored"@, m@),
        AgentStatus::Shutdown => "shutdown"@,
        AgentStatus::NotFound => "not found"@,
    }
}

fn labelled(label: &str, message: &String) -> (r: String)
    ensures
        r@ == labelled_message(label@, message@),
{
    let preview = truncate_preview(trim_str(message.as_str()), STATUS_PREVIEW_CHARS);
    if preview.as_str().unicode_len() == 0 {
        return label.to_owned();
    }
    let mut r = label.to_owned();
    r.append(": \"");
    r.append(preview.as_str());
    r.append("\"");
    r
}

/// The report text of a status.
pub fn format_agent_status(status: &AgentStatus) -> (r: String)
    ensures
        r@ == status_text(*status),
{
    match status {
        AgentStatus::PendingInit => "pending init".to_owned(),
        AgentStatus::Running => "running".to_owned(),
        AgentStatus::Completed(Some(m)) => labelled("completed", m),
        AgentStatus::Completed(None) => "completed".to_owned(),
        AgentStatus::Errored(m) => labelled("errored", m),
        AgentStatus::Shutdown => "shutdown".to_owned(),
        AgentStatus::NotFound => "not found".to_owned(),
    }
}

/// The report line of one agent's status.
pub open spec fn wait_line(p: (String, AgentStatus)) -> Seq<char> {
    p.0@ + ": "@ + status_text(p.1)
}

/// The report lines of the first `n` statuses, one per line.
pub open spec fn wait_lines(statuses: Seq<(String, AgentStatus)>, n: int) -> Seq<char>
    decreases n,
{
    if n <= 0 {
        Seq::empty()
    } else if n == 1 {
        wait_line(statuses[0])
    } else {
        wait_lines(statuses, n - 1) + "\n"@ + wait_line(statuses[n - 1])
    }
}

/// The text report of a wait: `timed out`, or one line per status.
pub fn format_wait_output(statuses: &Vec<(String, AgentStatus)>, timed_out: bool) -> (r: String)
    ensures
        r@ == if timed_out {
            "timed out"@
        } else {
            wait_lines(statuses@, statuses@.len() as int)
        },
{
    if timed_out {
        return "timed out".to_owned();
    }
    let mut r = String::new();
    let mut i: usize = 0;
    while i < statuses.len()
        invariant
            0 <= i <= statuses@.len(),
            r@ == wait_lines(statuses@, i as int),
        decreases statuses@.len() - i,
    {
        if i > 0 {
            r.append("\n");
        }
        r.append(statuses[i].0.as_str());
        r.append(": ");
        let text = format_agent_status(&statuses[i].1);
        r.append(text.as_str());
        proof {
            if i == 0 {
                assert(r@ =~= wait_line(statuses@[0]));
            } else {
                assert(r@ =~= wait_lines(statuses@, i as int) + "\n"@ + wait_line(
                    statuses@[i as int],
                ));
            }
        }
        i += 1;
    }
    r
}

impl SwarmCommandError {
    /// The message shown for the refusal.
    pub fn message(&self) -> (r: String)
        ensures
            r@ == match self {
                SwarmCommandError::BothRoleKinds => "Specify only one of --agent-type or --swarm-role."@,
                SwarmCommandError::EmptyMessage => "Empty message can't be sent to an agent."@,
                SwarmCommandError::UnknownRole(name) => "Unknown swarm role '"@ + name@ + "'."@,
                SwarmCommandError::SpawnBlocked => "Swarm hierarchy prevents spawning a higher-tier agent."@,
                SwarmCommandError::SendBlocked => "Swarm hierarchy prevents sending input to a higher-tier agent."@,
                SwarmCommandError::CloseBlocked => "Swarm hierarchy prevents closing a higher-tier agent."@,
                SwarmCommandError::NonPositiveTimeout => "timeout_ms must be positive"@,
                SwarmCommandError::NoAgentIds => "Must provide at least one agent id."@,
            },
    {
        match self {
            SwarmCommandError::BothRoleKinds => "Specify only one of --agent-type or --swarm-role.".to_owned(),
            SwarmCommandError::EmptyMessage => "Empty message can't be sent to an agent.".to_owned(),
            SwarmCommandError::UnknownRole(name) => {
                let mut r = prefixed("Unknown swarm role '", name);
                r.append("'.");
                r
            },
            SwarmCommandError::SpawnBlocked => "Swarm hierarchy prevents spawning a higher-tier agent.".to_owned(),
            SwarmCommandError::SendBlocked => "Swarm hierarchy prevents sending input to a higher-tier agent.".to_owned(),
            SwarmCommandError::CloseBlocked => "Swarm hierarchy prevents closing a higher-tier agent.".to_owned(),
            SwarmCommandError::NonPositiveTimeout => "timeout_ms must be positive".to_owned(),
            SwarmCommandError::NoAgentIds => "Must provide at least one agent id.".to_owned(),
        }
    }

    /// Whether the refusal comes from the tier policy rather than from the
    /// request itself.
    pub fn is_policy(&self) -> (r: bool)
        ensures
            r == (*self is SpawnBlocked || *self is SendBlocked || *self is CloseBlocked),
    {
        match self {
            SwarmCommandError::SpawnBlocked => true,
            SwarmCommandError::SendBlocked => true,
            SwarmCommandError::CloseBlocked => true,
            _ => false,
        }
    }
}

/// Whether `uuid::Uuid::parse_str` accepts the text as a UUID (simple,
/// hyphenated, braced or URN form).
pub uninterp spec fn is_uuid_text(s: Seq<char>) -> bool;

/// Relies on `uuid::Uuid::parse_str`: whether the text parses as a UUID.
#[verifier::external_body]
fn parses_as_uuid(s: &str) -> (r: bool)
    ensures
        r == is_uuid_text(s@),
{
    uuid::Uuid::parse_str(s).is_ok()
}

/// Where the thread that issues a command comes from.
#[derive(Debug, PartialEq, Eq)]
pub enum SenderSource {
    /// The most recently updated recorded thread; of any directory when
    /// `all`, else of the current one.
    Latest { all: bool },
    /// The recorded thread with this session id.
    SessionId(String),
    /// The recorded thread with this session name.
    SessionName(String),
    /// A new thread.
    Fresh,
}

pub open spec fn sender_source_holds(
    session_id: Option<Seq<char>>,
    last: bool,
    all: bool,
    id_is_uuid: bool,
    r: SenderSource,
) -> bool {
    if last {
        r == SenderSource::Latest { all }
    } else {
        match session_id {
            Some(s) => if id_is_uuid {
                r matches SenderSource::SessionId(x) && x@ == s
            } else {
                r matches SenderSource::SessionName(x) && x@ == s
            },
            None => r is Fresh,
        }
    }
}

/// Chooses the sender thread's source, `id_is_uuid` telling whether the
/// given session id parses as a UUID: the latest thread when asked for,
/// else the session given by id or by name, else a new thread.
pub fn sender_source_for(session_id: Option<&str>, last: bool, all: bool, id_is_uuid: bool) -> (r:
    SenderSource)
    ensures
        sender_source_holds(opt_str_view(session_id), last, all, id_is_uuid, r),
{
    if last {
        return SenderSource::Latest { all };
    }
    match session_id {
        Some(s) => if id_is_uuid {
            SenderSource::SessionId(s.to_owned())
        } else {
            SenderSource::SessionName(s.to_owned())
        },
        None => SenderSource::Fresh,
    }
}

/// Chooses the sender thread's source: the latest thread when asked for,
/// else the session given by UUID or by name, else a new thread.
pub fn sender_source(session_id: Option<&str>, last: bool, all: bool) -> (r: SenderSource)
    ensures
        sender_source_holds(
            opt_str_view(session_id),
            last,
            all,
            match session_id {
                Some(s) => is_uuid_text(s@),
                None => false,
            },
            r,
        ),
{
    let id_is_uuid = match session_id {
        Some(s) => parses_as_uuid(s),
        None => false,
    };
    sender_source_for(session_id, last, all, id_is_uuid)
}

} // verus!

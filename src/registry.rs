//! The agent registry: which agents exist, their role, model, tier and
//! parent, and where that record is kept on disk.
use crate::config::{clone_opt_string, opt_string_view, SwarmRole};
use crate::hub::StoredFile;
use crate::text::{join_path, joined_path, prefixed};
use vstd::prelude::*;

verus! {

/// What the registry knows of one agent.
#[derive(Debug, PartialEq, Eq)]
pub struct SwarmAgentInfo {
    pub thread_id: String,
    pub role: String,
    pub model: Option<String>,
    pub tier: i32,
    pub parent_thread_id: Option<String>,
}

impl Clone for SwarmAgentInfo {
    fn clone(&self) -> (r: Self)
        ensures
            r == *self,
    {
        SwarmAgentInfo {
            thread_id: self.thread_id.clone(),
            role: self.role.clone(),
            model: clone_opt_string(&self.model),
            tier: self.tier,
            parent_thread_id: clone_opt_string(&self.parent_thread_id),
        }
    }
}

/// Index of the first agent at or after `i` whose id is `id`.
pub open spec fn agent_index_from(agents: Seq<SwarmAgentInfo>, id: Seq<char>, i: int) -> Option<int>
    decreases agents.len() - i,
{
    if 0 <= i < agents.len() {
        if agents[i].thread_id@ == id {
            Some(i)
        } else {
            agent_index_from(agents, id, i + 1)
        }
    } else {
        None
    }
}

/// The agent recorded under `id`.
pub open spec fn agent_lookup(agents: Seq<SwarmAgentInfo>, id: Seq<char>) -> Option<SwarmAgentInfo> {
    match agent_index_from(agents, id, 0) {
        Some(i) => Some(agents[i]),
        None => None,
    }
}

/// No two agents share an id.
pub open spec fn agent_ids_unique(agents: Seq<SwarmAgentInfo>) -> bool {
    forall|i: int, j: int|
        0 <= i < agents.len() && 0 <= j < agents.len() && i != j ==> #[trigger] agents[i].thread_id@
            != #[trigger] agents[j].thread_id@
}

/// `info` replaces the agent with its id, or is added at the end.
pub open spec fn agents_inserted(agents: Seq<SwarmAgentInfo>, info: SwarmAgentInfo) -> Seq<SwarmAgentInfo> {
    match agent_index_from(agents, info.thread_id@, 0) {
        Some(i) => agents.update(i, info),
        None => agents.push(info),
    }
}

/// The agents after each of `list` was inserted in turn.
pub open spec fn agents_after_inserts(
    agents: Seq<SwarmAgentInfo>,
    list: Seq<SwarmAgentInfo>,
) -> Seq<SwarmAgentInfo>
    decreases list.len(),
{
    if list.len() == 0 {
        agents
    } else {
        agents_inserted(agents_after_inserts(agents, list.drop_last()), list.last())
    }
}

/// Where the registry is kept: `swarm_registry.json` in the storage
/// directory, else in `swarm` under the home directory.
pub open spec fn registry_file(storage_dir: Option<Seq<char>>, home: Option<Seq<char>>) -> Option<
    Seq<char>,
> {
    let base = match storage_dir {
        Some(dir) => Some(dir),
        None => match home {
            Some(h) => Some(joined_path(h, "swarm"@)),
            None => None,
        },
    };
    match base {
        Some(dir) => Some(joined_path(dir, "swarm_registry.json"@)),
        None => None,
    }
}

proof fn lemma_agent_index_from(agents: Seq<SwarmAgentInfo>, id: Seq<char>, i: int)
    requires
        0 <= i,
    ensures
        match agent_index_from(agents, id, i) {
            Some(k) => i <= k < agents.len() && agents[k].thread_id@ == id,
            None => forall|j: int| i <= j < agents.len() ==> #[trigger] agents[j].thread_id@ != id,
        },
    decreases agents.len() - i,
{
    if i < agents.len() && agents[i].thread_id@ != id {
        lemma_agent_index_from(agents, id, i + 1);
    }
}

/// Registering an agent keeps ids distinct; the agent is then found under
/// its id, and it is the only record with that id.
pub proof fn lemma_insert_then_lookup(agents: Seq<SwarmAgentInfo>, info: SwarmAgentInfo)
    requires
        agent_ids_unique(agents),
    ensures
        agent_ids_unique(agents_inserted(agents, info)),
        agent_lookup(agents_inserted(agents, info), info.thread_id@) == Some(info),
        exists|i: int|
            0 <= i < agents_inserted(agents, info).len() && #[trigger] agents_inserted(
                agents,
                info,
            )[i] == info && forall|j: int|
                0 <= j < agents_inserted(agents, info).len() && j != i ==> (
                #[trigger] agents_inserted(agents, info)[j]).thread_id@ != info.thread_id@,
{
    let id = info.thread_id@;
    lemma_agent_index_from(agents, id, 0);
    let r = agents_inserted(agents, info);
    let k = match agent_index_from(agents, id, 0) {
        Some(k) => k,
        None => agents.len() as int,
    };
    assert(r[k] == info);
    assert forall|j: int| 0 <= j < r.len() && j != k implies (#[trigger] r[j]).thread_id@ != id by {
        if agent_index_from(agents, id, 0) is Some {
            assert(agents[j].thread_id@ != agents[k].thread_id@);
        } else {
            assert(r[j] == agents[j]);
        }
    }
    assert forall|i: int, j: int|
        0 <= i < r.len() && 0 <= j < r.len() && i != j implies #[trigger] r[i].thread_id@
        != #[trigger] r[j].thread_id@ by {
        if i != k && j != k {
            assert(r[i] == agents[i] && r[j] == agents[j]);
        }
    }
    lemma_agent_index_from(r, id, 0);
    assert(agent_index_from(r, id, 0) == Some(k));
}

/// What is to be written after a change: the agents, to `path` when there
/// is one.
#[derive(Debug)]
pub struct SwarmRegistryWrite {
    pub path: Option<String>,
    pub agents: Vec<SwarmAgentInfo>,
}

/// The registry of agents, keyed by thread id.
#[derive(Debug)]
pub struct SwarmRegistry {
    agents: Vec<SwarmAgentInfo>,
    codex_home: Option<String>,
    storage_dir: Option<String>,
}

impl View for SwarmRegistry {
    type V = Seq<SwarmAgentInfo>;

    closed spec fn view(&self) -> Seq<SwarmAgentInfo> {
        self.agents@
    }
}

impl Default for SwarmRegistry {
    /// An empty registry with no home directory.
    fn default() -> (r: Self)
        ensures
            r.wf(),
            r@ == Seq::<SwarmAgentInfo>::empty(),
            r.home() is None,
            r.storage() is None,
    {
        SwarmRegistry::new(String::new())
    }
}

impl SwarmRegistry {
    /// No two recorded agents share an id.
    pub closed spec fn wf(&self) -> bool {
        agent_ids_unique(self.agents@)
    }

    /// The home directory that paths fall back to.
    pub closed spec fn home(&self) -> Option<Seq<char>> {
        opt_string_view(self.codex_home)
    }

    /// The storage directory set on the registry.
    pub closed spec fn storage(&self) -> Option<Seq<char>> {
        opt_string_view(self.storage_dir)
    }

    /// An empty registry whose file falls back to `codex_home`; an empty
    /// `codex_home` stands for none.
    pub fn new(codex_home: String) -> (r: Self)
        ensures
            r.wf(),
            r@ == Seq::<SwarmAgentInfo>::empty(),
            r.home() == if codex_home@.len() == 0 {
                None
            } else {
                Some(codex_home@)
            },
            r.storage() is None,
    {
        let codex_home = if codex_home.as_str().unicode_len() == 0 {
            None
        } else {
            Some(codex_home)
        };
        SwarmRegistry { agents: Vec::new(), codex_home, storage_dir: None }
    }

    /// Sets the storage directory when one is given; files already written
    /// stay where they are.
    pub fn apply_storage_dir(&mut self, storage_dir: Option<String>)
        requires
            old(self).wf(),
        ensures
            final(self).wf(),
            final(self)@ == old(self)@,
            final(self).home() == old(self).home(),
            final(self).storage() == match storage_dir {
                Some(d) => Some(d@),
                None => old(self).storage(),
            },
    {
        if let Some(storage_dir) = storage_dir {
            self.storage_dir = Some(storage_dir);
        }
    }

    /// The registry file's path, if there is one.
    pub fn registry_state_path(&self) -> (r: Option<String>)
        ensures
            opt_string_view(r) == registry_file(self.storage(), self.home()),
    {
        let base = match &self.storage_dir {
            Some(dir) => Some(dir.clone()),
            None => match &self.codex_home {
                Some(home) => Some(join_path(home.as_str(), "swarm")),
                None => None,
            },
        };
        match base {
            Some(dir) => Some(join_path(dir.as_str(), "swarm_registry.json")),
            None => None,
        }
    }

    /// The agent recorded under `thread_id`.
    pub fn get(&self, thread_id: &str) -> (r: Option<SwarmAgentInfo>)
        ensures
            r == agent_lookup(self@, thread_id@),
    {
        let id = thread_id.to_owned();
        let mut i: usize = 0;
        while i < self.agents.len()
            invariant
                0 <= i <= self.agents.len(),
                id@ == thread_id@,
                agent_index_from(self.agents@, id@, 0) == agent_index_from(
                    self.agents@,
                    id@,
                    i as int,
                ),
            decreases self.agents.len() - i,
        {
            if self.agents[i].thread_id == id {
                assert(agent_index_from(self.agents@, id@, i as int) == Some(i as int));
                return Some(self.agents[i].clone());
            }
            i += 1;
        }
        None
    }

    /// Every agent, once each.
    pub fn snapshot(&self) -> (r: Vec<SwarmAgentInfo>)
        ensures
            r@ == self@,
    {
        let r = self.agents.clone();
        assert(r@ =~= self.agents@);
        r
    }

    /// Everything to write now.
    pub fn persist_now(&self) -> (w: SwarmRegistryWrite)
        ensures
            w.agents@ == self@,
            opt_string_view(w.path) == registry_file(self.storage(), self.home()),
    {
        SwarmRegistryWrite { path: self.registry_state_path(), agents: self.snapshot() }
    }

    fn insert(&mut self, info: SwarmAgentInfo) -> (w: SwarmRegistryWrite)
        requires
            old(self).wf(),
        ensures
            final(self).wf(),
            final(self)@ == agents_inserted(old(self)@, info),
            final(self).home() == old(self).home(),
            final(self).storage() == old(self).storage(),
            w.agents@ == final(self)@,
            opt_string_view(w.path) == registry_file(final(self).storage(), final(self).home()),
    {
        proof {
            lemma_insert_then_lookup(self.agents@, info);
        }
        let mut i: usize = 0;
        while i < self.agents.len()
            invariant
                0 <= i <= self.agents.len(),
                self.agents@ == old(self).agents@,
                self.codex_home == old(self).codex_home,
                self.storage_dir == old(self).storage_dir,
                agent_ids_unique(agents_inserted(old(self).agents@, info)),
                agent_index_from(self.agents@, info.thread_id@, 0) == agent_index_from(
                    self.agents@,
                    info.thread_id@,
                    i as int,
                ),
            decreases self.agents.len() - i,
        {
            if self.agents[i].thread_id == info.thread_id {
                assert(agent_index_from(self.agents@, info.thread_id@, i as int) == Some(i as int));
                self.agents.set(i, info);
                return self.persist_now();
            }
            i += 1;
        }
        self.agents.push(info);
        self.persist_now()
    }

    /// Records a root agent of `role`. The registry is to be written.
    pub fn register_root(&mut self, thread_id: String, role: &SwarmRole, model: Option<String>) -> (w:
        SwarmRegistryWrite)
        requires
            old(self).wf(),
        ensures
            final(self).wf(),
            final(self)@ == agents_inserted(
                old(self)@,
                (SwarmAgentInfo {
                    thread_id,
                    role: role.name,
                    model,
                    tier: role.tier,
                    parent_thread_id: None,
                }),
            ),
            final(self).home() == old(self).home(),
            final(self).storage() == old(self).storage(),
            w.agents@ == final(self)@,
            opt_string_view(w.path) == registry_file(final(self).storage(), final(self).home()),
    {
        self.insert(
            SwarmAgentInfo {
                thread_id,
                role: role.name.clone(),
                model,
                tier: role.tier,
                parent_thread_id: None,
            },
        )
    }

    /// Records an agent of `role` spawned by `parent_thread_id`. The
    /// registry is to be written.
    pub fn register_child(
        &mut self,
        thread_id: String,
        parent_thread_id: String,
        role: &SwarmRole,
        model: Option<String>,
    ) -> (w: SwarmRegistryWrite)
        requires
            old(self).wf(),
        ensures
            final(self).wf(),
            final(self)@ == agents_inserted(
                old(self)@,
                (SwarmAgentInfo {
                    thread_id,
                    role: role.name,
                    model,
                    tier: role.tier,
                    parent_thread_id: Some(parent_thread_id),
                }),
            ),
            final(self).home() == old(self).home(),
            final(self).storage() == old(self).storage(),
            w.agents@ == final(self)@,
            opt_string_view(w.path) == registry_file(final(self).storage(), final(self).home()),
    {
        self.insert(
            SwarmAgentInfo {
                thread_id,
                role: role.name.clone(),
                model,
                tier: role.tier,
                parent_thread_id: Some(parent_thread_id),
            },
        )
    }

    /// Installs what was read from the registry file. A missing file leaves
    /// the registry as it is; an unreadable or malformed one too, with an
    /// error. Parsed agents replace the held ones, a later record of an id
    /// winning over an earlier one.
    pub fn load_from_storage(&mut self, stored: StoredFile<Vec<SwarmAgentInfo>>) -> (r: Result<
        (),
        String,
    >)
        requires
            old(self).wf(),
        ensures
            final(self).wf(),
            final(self).home() == old(self).home(),
            final(self).storage() == old(self).storage(),
            match stored {
                StoredFile::Missing => r is Ok && final(self)@ == old(self)@,
                StoredFile::Unreadable(e) => final(self)@ == old(self)@ && r is Err && r->Err_0@
                    == "failed to read swarm registry: "@ + e@,
                StoredFile::Malformed(e) => final(self)@ == old(self)@ && r is Err && r->Err_0@
                    == "failed to parse swarm registry: "@ + e@,
                StoredFile::Parsed(agents) => r is Ok && final(self)@ == agents_after_inserts(
                    Seq::empty(),
                    agents@,
                ),
            },
    {
        match stored {
            StoredFile::Missing => Ok(()),
            StoredFile::Unreadable(e) => Err(prefixed("failed to read swarm registry: ", &e)),
            StoredFile::Malformed(e) => Err(prefixed("failed to parse swarm registry: ", &e)),
            StoredFile::Parsed(agents) => {
                self.agents = Vec::new();
                let mut i: usize = 0;
                while i < agents.len()
                    invariant
                        0 <= i <= agents.len(),
                        self.wf(),
                        self.home() == old(self).home(),
                        self.storage() == old(self).storage(),
                        self@ == agents_after_inserts(Seq::empty(), agents@.take(i as int)),
                    decreases agents.len() - i,
                {
                    assert(agents@.take(i + 1).drop_last() =~= agents@.take(i as int));
                    let _ = self.insert(agents[i].clone());
                    i += 1;
                }
                assert(agents@.take(agents.len() as int) =~= agents@);
                Ok(())
            },
        }
    }
}

} // verus!

//! Swarm configuration: the role table, the hierarchy rules, the hub
//! settings, and the tier policy that gates calls between agents.
use crate::text::{
    all_space, ascii_folded, eq_ignore_ascii_case, is_blank, is_blank_str,
    lemma_trim_ignores_padding, lemma_trim_keeps_case_variants, trim_spaces, trim_str,
};
use vstd::prelude::*;

verus! {

/// A named template for an agent: model, extra instructions and tier.
#[derive(Debug, PartialEq, Eq)]
pub struct SwarmRole {
    pub name: String,
    pub model: Option<String>,
    pub base_instructions: Option<String>,
    pub tier: i32,
    pub description: Option<String>,
}

/// Which calls the tier policy lets through besides downward ones.
#[derive(Debug, Clone, Copy, PartialEq, Eq)]
pub struct SwarmHierarchy {
    pub allow_upward_calls: bool,
    pub allow_same_tier_calls: bool,
}

/// Where the hub keeps its files; paths are held as text.
#[derive(Debug, PartialEq, Eq)]
pub struct SwarmHubConfig {
    pub leak_tracker_path: Option<String>,
    pub storage_dir: Option<String>,
}

/// The whole swarm configuration.
#[derive(Debug, PartialEq, Eq)]
pub struct SwarmConfig {
    pub enabled: bool,
    pub root_role: Option<String>,
    pub default_spawn_role: Option<String>,
    pub roles: Vec<SwarmRole>,
    pub hierarchy: SwarmHierarchy,
    pub hub: SwarmHubConfig,
}

/// One role as written in the configuration file.
#[derive(Debug, PartialEq, Eq)]
pub struct SwarmRoleToml {
    pub name: String,
    pub model: Option<String>,
    pub base_instructions: Option<String>,
    pub tier: Option<i32>,
    pub description: Option<String>,
}

/// The hierarchy section as written in the configuration file.
#[derive(Debug, Clone, Copy, PartialEq, Eq)]
pub struct SwarmHierarchyToml {
    pub allow_upward_calls: Option<bool>,
    pub allow_same_tier_calls: Option<bool>,
}

/// The hub section as written in the configuration file.
#[derive(Debug, PartialEq, Eq)]
pub struct SwarmHubToml {
    pub leak_tracker_path: Option<String>,
    pub storage_dir: Option<String>,
}

/// The swarm section as written in the configuration file; every part is optional.
#[derive(Debug, PartialEq, Eq)]
pub struct SwarmToml {
    pub enabled: Option<bool>,
    pub root_role: Option<String>,
    pub default_spawn_role: Option<String>,
    pub roles: Option<Vec<SwarmRoleToml>>,
    pub hierarchy: Option<SwarmHierarchyToml>,
    pub hub: Option<SwarmHubToml>,
}

pub fn clone_opt_string(s: &Option<String>) -> (r: Option<String>)
    ensures
        r == *s,
{
    match s {
        Some(v) => Some(v.clone()),
        None => None,
    }
}

impl Clone for SwarmRole {
    fn clone(&self) -> (r: Self)
        ensures
            r == *self,
    {
        SwarmRole {
            name: self.name.clone(),
            model: clone_opt_string(&self.model),
            base_instructions: clone_opt_string(&self.base_instructions),
            tier: self.tier,
            description: clone_opt_string(&self.description),
        }
    }
}

impl Clone for SwarmHubConfig {
    fn clone(&self) -> (r: Self)
        ensures
            r == *self,
    {
        SwarmHubConfig {
            leak_tracker_path: clone_opt_string(&self.leak_tracker_path),
            storage_dir: clone_opt_string(&self.storage_dir),
        }
    }
}

/// Case-insensitive match of a role's name against a lookup key.
pub open spec fn role_name_matches(role: SwarmRole, key: Seq<u32>) -> bool {
    ascii_folded(role.name@) == key
}

/// Index of the first role at or after `i` whose folded name is `key`.
pub open spec fn role_match_from(roles: Seq<SwarmRole>, key: Seq<u32>, i: int) -> Option<int>
    decreases roles.len() - i,
{
    if 0 <= i < roles.len() {
        if role_name_matches(roles[i], key) {
            Some(i)
        } else {
            role_match_from(roles, key, i + 1)
        }
    } else {
        None
    }
}

/// The role that a lookup of `name` resolves to: the first role whose name
/// equals the trimmed `name` up to ASCII case; none for a blank name.
pub open spec fn role_lookup(roles: Seq<SwarmRole>, name: Seq<char>) -> Option<SwarmRole> {
    if trim_spaces(name).len() == 0 {
        None
    } else {
        match role_match_from(roles, ascii_folded(trim_spaces(name)), 0) {
            Some(i) => Some(roles[i]),
            None => None,
        }
    }
}

/// Index of the first role of greatest tier among the first `n` roles.
pub open spec fn first_max_tier_index(roles: Seq<SwarmRole>, n: int) -> int
    decreases n,
{
    if n <= 1 {
        0
    } else {
        let k = first_max_tier_index(roles, n - 1);
        if roles[n - 1].tier > roles[k].tier {
            n - 1
        } else {
            k
        }
    }
}

pub open spec fn opt_str_view(o: Option<&str>) -> Option<Seq<char>> {
    match o {
        Some(s) => Some(s@),
        None => None,
    }
}

pub open spec fn opt_string_view(o: Option<String>) -> Option<Seq<char>> {
    match o {
        Some(s) => Some(s@),
        None => None,
    }
}

/// The configured name, when it names a role of `roles`.
pub open spec fn resolved_name(roles: Seq<SwarmRole>, name: Option<String>) -> Option<Seq<char>> {
    match name {
        Some(n) => if role_lookup(roles, n@) is Some {
            Some(n@)
        } else {
            None
        },
        None => None,
    }
}

/// Whether the tier policy `h` lets an agent of tier `caller` call one of
/// tier `target`: always downward, within a tier and upward as configured.
pub open spec fn call_allowed(h: SwarmHierarchy, caller: i32, target: i32) -> bool {
    if caller == target {
        h.allow_same_tier_calls
    } else if caller > target {
        true
    } else {
        h.allow_upward_calls
    }
}

/// What `root_role_name` returns.
pub open spec fn root_role_name_of(c: SwarmConfig) -> Option<Seq<char>> {
    match resolved_name(c.roles@, c.root_role) {
        Some(n) => Some(n),
        None => if c.roles@.len() == 0 {
            None
        } else {
            Some(c.roles@[first_max_tier_index(c.roles@, c.roles@.len() as int)].name@)
        },
    }
}

/// What `default_spawn_role_name` returns.
pub open spec fn default_spawn_role_name_of(c: SwarmConfig) -> Option<Seq<char>> {
    match resolved_name(c.roles@, c.default_spawn_role) {
        Some(n) => Some(n),
        None => if c.roles@.len() == 0 {
            None
        } else {
            Some(c.roles@[0].name@)
        },
    }
}

/// The tier that a role without one gets from its place in the list.
pub open spec fn default_tier(idx: int) -> i32 {
    if idx <= i32::MAX {
        idx as i32
    } else {
        i32::MAX
    }
}

pub open spec fn role_from_toml(t: SwarmRoleToml, idx: int) -> SwarmRole {
    SwarmRole {
        name: t.name,
        model: t.model,
        base_instructions: t.base_instructions,
        tier: match t.tier {
            Some(tier) => tier,
            None => default_tier(idx),
        },
        description: t.description,
    }
}

/// The roles of the first `n` entries, blank names dropped.
pub open spec fn roles_from_toml(roles: Seq<SwarmRoleToml>, n: int) -> Seq<SwarmRole>
    decreases n,
{
    if n <= 0 {
        Seq::empty()
    } else if is_blank(roles[n - 1].name@) {
        roles_from_toml(roles, n - 1)
    } else {
        roles_from_toml(roles, n - 1).push(role_from_toml(roles[n - 1], n - 1))
    }
}

pub open spec fn hierarchy_from_toml(t: SwarmHierarchyToml, base: SwarmHierarchy) -> SwarmHierarchy {
    SwarmHierarchy {
        allow_upward_calls: match t.allow_upward_calls {
            Some(b) => b,
            None => base.allow_upward_calls,
        },
        allow_same_tier_calls: match t.allow_same_tier_calls {
            Some(b) => b,
            None => base.allow_same_tier_calls,
        },
    }
}

pub open spec fn default_hierarchy() -> SwarmHierarchy {
    SwarmHierarchy { allow_upward_calls: false, allow_same_tier_calls: true }
}

/// The three built-in roles: Scout (tier 0), Scribe (tier 1), Scholar (tier 2).
pub open spec fn is_default_roles(roles: Seq<SwarmRole>) -> bool {
    &&& roles.len() == 3
    &&& roles[0].name@ == "Scout"@ && roles[0].tier == 0
    &&& opt_string_view(roles[0].model) == Some("gpt-5.1-codex-mini"@)
    &&& opt_string_view(roles[0].description) == Some("High-throughput triage and acquisition."@)
    &&& roles[1].name@ == "Scribe"@ && roles[1].tier == 1
    &&& opt_string_view(roles[1].model) == Some("gpt-5.1-codex-max"@)
    &&& opt_string_view(roles[1].description) == Some("Structural mapping and deep audit."@)
    &&& roles[2].name@ == "Scholar"@ && roles[2].tier == 2
    &&& opt_string_view(roles[2].model) == Some("gpt-5.2-codex"@)
    &&& opt_string_view(roles[2].description) == Some("High-reasoning synthesis and strategy."@)
    &&& forall|i: int| 0 <= i < 3 ==> (#[trigger] roles[i]).base_instructions is None
}

/// The configuration used when the file says nothing.
pub open spec fn is_default_config(c: SwarmConfig) -> bool {
    &&& !c.enabled
    &&& opt_string_view(c.root_role) == Some("Scholar"@)
    &&& opt_string_view(c.default_spawn_role) == Some("Scribe"@)
    &&& is_default_roles(c.roles@)
    &&& c.hierarchy == default_hierarchy()
    &&& c.hub.leak_tracker_path is None
    &&& c.hub.storage_dir is None
}

/// `c` is what the file section `t` gives on top of the defaults: each part
/// that is present replaces the default, blank role names are dropped, and a
/// role list left empty keeps the built-in roles.
pub open spec fn config_from_section(t: SwarmToml, c: SwarmConfig) -> bool {
    &&& c.enabled == match t.enabled {
        Some(b) => b,
        None => false,
    }
    &&& opt_string_view(c.root_role) == match t.root_role {
        Some(n) => if is_blank(n@) {
            Some("Scholar"@)
        } else {
            Some(n@)
        },
        None => Some("Scholar"@),
    }
    &&& opt_string_view(c.default_spawn_role) == match t.default_spawn_role {
        Some(n) => if is_blank(n@) {
            Some("Scribe"@)
        } else {
            Some(n@)
        },
        None => Some("Scribe"@),
    }
    &&& match t.roles {
        Some(roles) => {
            let converted = roles_from_toml(roles@, roles@.len() as int);
            if converted.len() > 0 {
                c.roles@ == converted
            } else {
                is_default_roles(c.roles@)
            }
        },
        None => is_default_roles(c.roles@),
    }
    &&& c.hierarchy == match t.hierarchy {
        Some(h) => hierarchy_from_toml(h, default_hierarchy()),
        None => default_hierarchy(),
    }
    &&& match t.hub {
        Some(h) => c.hub.leak_tracker_path == h.leak_tracker_path && c.hub.storage_dir
            == h.storage_dir,
        None => c.hub.leak_tracker_path is None && c.hub.storage_dir is None,
    }
}

/// The built-in roles.
pub fn default_roles() -> (r: Vec<SwarmRole>)
    ensures
        is_default_roles(r@),
{
    let scout = SwarmRole {
        name: String::from_str("Scout"),
        model: Some(String::from_str("gpt-5.1-codex-mini")),
        base_instructions: None,
        tier: 0,
        description: Some(String::from_str("High-throughput triage and acquisition.")),
    };
    let scribe = SwarmRole {
        name: String::from_str("Scribe"),
        model: Some(String::from_str("gpt-5.1-codex-max")),
        base_instructions: None,
        tier: 1,
        description: Some(String::from_str("Structural mapping and deep audit.")),
    };
    let scholar = SwarmRole {
        name: String::from_str("Scholar"),
        model: Some(String::from_str("gpt-5.2-codex")),
        base_instructions: None,
        tier: 2,
        description: Some(String::from_str("High-reasoning synthesis and strategy.")),
    };
    let r = vec![scout, scribe, scholar];
    assert(forall|i: int| 0 <= i < 3 ==> (#[trigger] r@[i]).base_instructions is None);
    r
}

impl Default for SwarmConfig {
    /// Disabled, rooted at Scholar, spawning Scribes, with the built-in roles.
    fn default() -> (r: Self)
        ensures
            is_default_config(r),
    {
        SwarmConfig {
            enabled: false,
            root_role: Some(String::from_str("Scholar")),
            default_spawn_role: Some(String::from_str("Scribe")),
            roles: default_roles(),
            hierarchy: SwarmHierarchy::default(),
            hub: SwarmHubConfig::default(),
        }
    }
}

/// A role lookup gives the same answer for a name written in another ASCII
/// case, with any white space before and after it.
pub proof fn lemma_role_lookup_ignores_case_and_padding(
    roles: Seq<SwarmRole>,
    name: Seq<char>,
    variant: Seq<char>,
    before: Seq<char>,
    after: Seq<char>,
)
    requires
        ascii_folded(variant) == ascii_folded(name),
        all_space(before),
        all_space(after),
    ensures
        role_lookup(roles, before + variant + after) == role_lookup(roles, name),
{
    lemma_trim_ignores_padding(before, variant, after);
    lemma_trim_keeps_case_variants(variant, name);
    assert(trim_spaces(variant).len() == ascii_folded(trim_spaces(variant)).len());
    assert(trim_spaces(name).len() == ascii_folded(trim_spaces(name)).len());
}

impl Default for SwarmHierarchy {
    /// Upward calls refused, calls within a tier allowed.
    fn default() -> (r: Self)
        ensures
            r == default_hierarchy(),
    {
        SwarmHierarchy { allow_upward_calls: false, allow_same_tier_calls: true }
    }
}

impl SwarmHierarchy {
    /// Each rule written in the file replaces the one of `base`.
    pub fn from_toml(toml: &SwarmHierarchyToml, base: Self) -> (r: Self)
        ensures
            r == hierarchy_from_toml(*toml, base),
    {
        SwarmHierarchy {
            allow_upward_calls: match toml.allow_upward_calls {
                Some(b) => b,
                None => base.allow_upward_calls,
            },
            allow_same_tier_calls: match toml.allow_same_tier_calls {
                Some(b) => b,
                None => base.allow_same_tier_calls,
            },
        }
    }
}

impl Default for SwarmHubConfig {
    /// No path configured.
    fn default() -> (r: Self)
        ensures
            r.leak_tracker_path is None,
            r.storage_dir is None,
    {
        SwarmHubConfig { leak_tracker_path: None, storage_dir: None }
    }
}

impl SwarmHubConfig {
    /// The paths as the file gives them.
    pub fn from_toml(toml: &SwarmHubToml) -> (r: Self)
        ensures
            r.leak_tracker_path == toml.leak_tracker_path,
            r.storage_dir == toml.storage_dir,
    {
        SwarmHubConfig {
            leak_tracker_path: clone_opt_string(&toml.leak_tracker_path),
            storage_dir: clone_opt_string(&toml.storage_dir),
        }
    }
}

impl SwarmConfig {
    /// The configuration that the file section gives, or the defaults when
    /// there is none.
    pub fn from_toml(toml: Option<SwarmToml>) -> (r: Self)
        ensures
            match toml {
                Some(t) => config_from_section(t, r),
                None => is_default_config(r),
            },
    {
        let mut config = Self::default();
        let toml = match toml {
            Some(t) => t,
            None => {
                return config;
            },
        };
        if let Some(enabled) = toml.enabled {
            config.enabled = enabled;
        }
        if let Some(root_role) = &toml.root_role {
            if !is_blank_str(root_role.as_str()) {
                config.root_role = Some(root_role.clone());
            }
        }
        if let Some(default_spawn_role) = &toml.default_spawn_role {
            if !is_blank_str(default_spawn_role.as_str()) {
                config.default_spawn_role = Some(default_spawn_role.clone());
            }
        }
        if let Some(roles) = &toml.roles {
            let mut converted: Vec<SwarmRole> = Vec::new();
            let mut idx: usize = 0;
            while idx < roles.len()
                invariant
                    0 <= idx <= roles.len(),
                    converted@ == roles_from_toml(roles@, idx as int),
                decreases roles.len() - idx,
            {
                let role = &roles[idx];
                if !is_blank_str(role.name.as_str()) {
                    let tier = match role.tier {
                        Some(tier) => tier,
                        None => if idx <= i32::MAX as usize {
                            idx as i32
                        } else {
                            i32::MAX
                        },
                    };
                    converted.push(
                        SwarmRole {
                            name: role.name.clone(),
                            model: clone_opt_string(&role.model),
                            base_instructions: clone_opt_string(&role.base_instructions),
                            tier,
                            description: clone_opt_string(&role.description),
                        },
                    );
                }
                idx += 1;
            }
            if converted.len() > 0 {
                config.roles = converted;
            }
        }
        if let Some(hierarchy) = &toml.hierarchy {
            config.hierarchy = SwarmHierarchy::from_toml(hierarchy, config.hierarchy);
        }
        if let Some(hub) = &toml.hub {
            config.hub = SwarmHubConfig::from_toml(hub);
        }
        config
    }

    /// The role that `name` resolves to: the first one whose name equals the
    /// trimmed `name` up to ASCII case; none when `name` is blank.
    pub fn role(&self, name: &str) -> (r: Option<&SwarmRole>)
        ensures
            role_lookup(self.roles@, name@) == match r {
                Some(role) => Some(*role),
                None => None,
            },
    {
        let trimmed = trim_str(name);
        if trimmed.is_empty() {
            return None;
        }
        let ghost key = ascii_folded(trimmed@);
        let mut i: usize = 0;
        while i < self.roles.len()
            invariant
                0 <= i <= self.roles.len(),
                key == ascii_folded(trimmed@),
                trimmed@ == trim_spaces(name@),
                trimmed@.len() > 0,
                role_match_from(self.roles@, key, 0) == role_match_from(self.roles@, key, i as int),
            decreases self.roles.len() - i,
        {
            if eq_ignore_ascii_case(self.roles[i].name.as_str(), trimmed) {
                assert(role_match_from(self.roles@, key, i as int) == Some(i as int));
                return Some(&self.roles[i]);
            }
            i += 1;
        }
        None
    }

    /// The root role's name: the configured one when it resolves to a role,
    /// else the name of the first role of greatest tier, else none.
    pub fn root_role_name(&self) -> (r: Option<&str>)
        ensures
            opt_str_view(r) == root_role_name_of(*self),
    {
        if let Some(name) = &self.root_role {
            if self.role(name.as_str()).is_some() {
                return Some(name.as_str());
            }
        }
        if self.roles.len() == 0 {
            return None;
        }
        let mut best: usize = 0;
        let mut i: usize = 1;
        while i < self.roles.len()
            invariant
                1 <= i <= self.roles.len(),
                best == first_max_tier_index(self.roles@, i as int),
                0 <= best < i,
            decreases self.roles.len() - i,
        {
            if self.roles[i].tier > self.roles[best].tier {
                best = i;
            }
            i += 1;
        }
        Some(self.roles[best].name.as_str())
    }

    /// The role new agents get by default: the configured one when it
    /// resolves to a role, else the first role, else none.
    pub fn default_spawn_role_name(&self) -> (r: Option<&str>)
        ensures
            opt_str_view(r) == default_spawn_role_name_of(*self),
    {
        if let Some(name) = &self.default_spawn_role {
            if self.role(name.as_str()).is_some() {
                return Some(name.as_str());
            }
        }
        if self.roles.len() == 0 {
            return None;
        }
        Some(self.roles[0].name.as_str())
    }

    /// Whether an agent of tier `caller_tier` may spawn, address or close one
    /// of tier `target_tier`.
    pub fn can_call(&self, caller_tier: i32, target_tier: i32) -> (r: bool)
        ensures
            caller_tier == target_tier ==> r == self.hierarchy.allow_same_tier_calls,
            caller_tier > target_tier ==> r,
            caller_tier < target_tier ==> r == self.hierarchy.allow_upward_calls,
            r == call_allowed(self.hierarchy, caller_tier, target_tier),
    {
        if caller_tier == target_tier {
            return self.hierarchy.allow_same_tier_calls;
        }
        if caller_tier > target_tier {
            return true;
        }
        self.hierarchy.allow_upward_calls
    }
}

} // verus!

//! Coordination core for a hierarchy of cooperating agents: the tier policy,
//! the agent registry, the shared hub of coordination records, the in-agent
//! hub tool and the decisions of the operator commands.
pub mod text;
pub mod config;
pub mod hub;
pub mod registry;
pub mod handler;
pub mod orchestrator;

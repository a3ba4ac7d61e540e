//! Abigail: routing, governance and skill-policy logic for a family of
//! personal AI entities.
use vstd::prelude::*;

pub mod text;
pub mod classifier;
pub mod clock;
pub mod constraint_store;
pub mod execution_state;
pub mod governor;
pub mod manifest;
pub mod planner;
pub mod sandbox;
pub mod skill;
pub mod executor;
pub mod agentic;
pub mod ordered;
pub mod secrets;
pub mod instruction_registry;
pub mod topology;
pub mod tool_args;
pub mod builtin_skills;
pub mod dynamic;
pub mod policy;
pub mod conscience;
pub mod router;
pub mod subagent;
pub mod transport;
pub mod watcher;
pub mod channel;
pub mod wasm_runtime;
pub mod mentor_chat;
pub mod orchestration;
pub mod preloaded;
pub mod tier_resolver;
pub mod layer2;
pub mod mcp;
pub mod factory;
pub mod json_path;
pub mod cron;
pub mod council;

verus! {

} // verus!

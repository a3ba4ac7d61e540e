//! Shared skill types: errors, tool descriptions and outputs.
use vstd::prelude::*;
use crate::manifest::{Permission, SkillId};
use crate::text::{append_str, string_of};

verus! {

/// Errors of skill execution.
#[derive(Debug)]
pub enum SkillError {
    NotFound(SkillId),
    InitFailed(String),
    ToolFailed(String),
    PermissionDenied(String),
    Timeout(String),
    MissingSecret(String),
    ConfirmationRequired(String),
    InvalidArguments(String),
}

/// Display text of an error.
pub open spec fn skill_error_text(e: SkillError) -> Seq<char> {
    match e {
        SkillError::NotFound(id) => "Skill not found: "@ + id.0@,
        SkillError::InitFailed(m) => "Initialization failed: "@ + m@,
        SkillError::ToolFailed(m) => "Tool execution failed: "@ + m@,
        SkillError::PermissionDenied(m) => "Permission denied: "@ + m@,
        SkillError::Timeout(m) => "Timeout: "@ + m@,
        SkillError::MissingSecret(m) => "Missing secret: "@ + m@,
        SkillError::ConfirmationRequired(m) => "Confirmation required: "@ + m@,
        SkillError::InvalidArguments(m) => "Invalid arguments: "@ + m@,
    }
}

impl SkillError {
    /// Display text, e.g. `Tool execution failed: ...`.
    pub fn to_string(&self) -> (s: String)
        ensures
            s@ == skill_error_text(*self),
    {
        let mut v: Vec<char> = Vec::new();
        match self {
            SkillError::NotFound(id) => {
                append_str(&mut v, "Skill not found: ");
                append_str(&mut v, id.0.as_str());
            },
            SkillError::InitFailed(m) => {
                append_str(&mut v, "Initialization failed: ");
                append_str(&mut v, m.as_str());
            },
            SkillError::ToolFailed(m) => {
                append_str(&mut v, "Tool execution failed: ");
                append_str(&mut v, m.as_str());
            },
            SkillError::PermissionDenied(m) => {
                append_str(&mut v, "Permission denied: ");
                append_str(&mut v, m.as_str());
            },
            SkillError::Timeout(m) => {
                append_str(&mut v, "Timeout: ");
                append_str(&mut v, m.as_str());
            },
            SkillError::MissingSecret(m) => {
                append_str(&mut v, "Missing secret: ");
                append_str(&mut v, m.as_str());
            },
            SkillError::ConfirmationRequired(m) => {
                append_str(&mut v, "Confirmation required: ");
                append_str(&mut v, m.as_str());
            },
            SkillError::InvalidArguments(m) => {
                append_str(&mut v, "Invalid arguments: ");
                append_str(&mut v, m.as_str());
            },
        }
        string_of(v.as_slice())
    }
}

/// Health of a skill.
#[derive(Debug, Clone, Copy, PartialEq, Eq, Structural)]
pub enum HealthStatus {
    Healthy,
    Degraded,
    Unhealthy,
    Unknown,
}

/// Estimated cost of a tool call.
#[derive(Debug, Clone, Copy, PartialEq, Eq, Structural)]
pub struct CostEstimate {
    pub latency_ms: u64,
    pub network_bound: bool,
    pub token_cost: Option<u64>,
}

impl Default for CostEstimate {
    fn default() -> (c: Self)
        ensures
            c.latency_ms == 0,
            !c.network_bound,
            c.token_cost is None,
    {
        CostEstimate { latency_ms: 0, network_bound: false, token_cost: None }
    }
}

/// A tool a skill offers.
#[derive(Debug)]
pub struct ToolDescriptor {
    pub name: String,
    pub description: String,
    pub parameters: serde_json::Value,
    pub returns: serde_json::Value,
    pub cost_estimate: CostEstimate,
    pub required_permissions: Vec<Permission>,
    pub autonomous: bool,
    pub requires_confirmation: bool,
}

/// Identity of a tool call.
#[derive(Debug, Clone)]
pub struct ExecutionContext {
    pub request_id: String,
    pub user_id: Option<String>,
}

} // verus!

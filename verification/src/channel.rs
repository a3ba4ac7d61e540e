//! Skill triggers and their events.
use vstd::prelude::*;
use crate::manifest::SkillId;

verus! {

/// How often a trigger fires.
#[derive(Debug, Clone, Copy, PartialEq, Eq, Structural)]
pub enum TriggerFrequency {
    Rare,
    Occasional,
    Frequent,
    Continuous,
}

/// Priority of a trigger, from low to critical.
#[derive(Debug, Clone, Copy, PartialEq, Eq, PartialOrd, Ord, Structural)]
pub enum TriggerPriority {
    Low,
    Normal,
    High,
    Critical,
}

/// Rank of a priority: 0 for low up to 3 for critical.
pub open spec fn priority_rank(p: TriggerPriority) -> int {
    match p {
        TriggerPriority::Low => 0,
        TriggerPriority::Normal => 1,
        TriggerPriority::High => 2,
        TriggerPriority::Critical => 3,
    }
}

impl TriggerPriority {
    /// Rank of the priority (0 low, 1 normal, 2 high, 3 critical).
    pub fn rank(&self) -> (r: u8)
        ensures
            r == priority_rank(*self),
    {
        match self {
            TriggerPriority::Low => 0,
            TriggerPriority::Normal => 1,
            TriggerPriority::High => 2,
            TriggerPriority::Critical => 3,
        }
    }
}

/// A trigger a skill can fire.
#[derive(Debug)]
pub struct TriggerDescriptor {
    pub name: String,
    pub description: String,
    pub payload_schema: serde_json::Value,
    pub frequency: TriggerFrequency,
    pub priority: TriggerPriority,
}

/// A fired trigger.
#[derive(Debug)]
pub struct SkillEvent {
    pub skill_id: SkillId,
    pub trigger: String,
    pub payload: serde_json::Value,
    /// RFC 3339 time of the event.
    pub timestamp: String,
    pub priority: TriggerPriority,
}

/// Stream and topic of skill events.
pub const SKILL_EVENTS_STREAM: &'static str = "abigail";
/// Topic of skill events.
pub const SKILL_EVENTS_TOPIC: &'static str = "skill-events";

/// Headers of a published skill event: the skill id and the trigger.
pub fn skill_event_headers(event: &SkillEvent) -> (h: Vec<(String, String)>)
    ensures
        h@.len() == 2,
        h@[0].0@ == "skill_id"@ && h@[0].1@ == event.skill_id.0@,
        h@[1].0@ == "trigger"@ && h@[1].1@ == event.trigger@,
{
    let mut h: Vec<(String, String)> = Vec::new();
    h.push(("skill_id".to_owned(), event.skill_id.0.clone()));
    h.push(("trigger".to_owned(), event.trigger.clone()));
    h
}

} // verus!

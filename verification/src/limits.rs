//! Limits that keep a server's resources bounded.

use vstd::prelude::*;

verus! {

/// Resource limits of a server; `None` means unlimited.
#[derive(Debug)]
pub struct ResourceLimits {
    pub max_sessions: Option<usize>,
    pub max_message_size: usize,
    pub max_tools: Option<usize>,
    pub max_resources: Option<usize>,
    pub max_prompts: Option<usize>,
}

/// A limit that is at most another (`None` being no limit).
pub open spec fn within(a: Option<usize>, b: Option<usize>) -> bool {
    match (a, b) {
        (_, None) => true,
        (None, Some(_)) => false,
        (Some(x), Some(y)) => x <= y,
    }
}

/// Every limit of `a` is at most the same limit of `b`.
pub open spec fn at_most(a: ResourceLimits, b: ResourceLimits) -> bool {
    &&& within(a.max_sessions, b.max_sessions)
    &&& a.max_message_size <= b.max_message_size
    &&& within(a.max_tools, b.max_tools)
    &&& within(a.max_resources, b.max_resources)
    &&& within(a.max_prompts, b.max_prompts)
}

/// The default limits: 10,000 sessions, 2 MiB messages, 1,000 tools, 10,000 resources,
/// 1,000 prompts.
pub open spec fn default_limits() -> ResourceLimits {
    ResourceLimits {
        max_sessions: Some(10_000),
        max_message_size: 2_097_152,
        max_tools: Some(1_000),
        max_resources: Some(10_000),
        max_prompts: Some(1_000),
    }
}

/// The strict limits: 100 sessions, 256 KiB messages, 50 tools, 100 resources, 50 prompts.
pub open spec fn strict_limits() -> ResourceLimits {
    ResourceLimits {
        max_sessions: Some(100),
        max_message_size: 262_144,
        max_tools: Some(50),
        max_resources: Some(100),
        max_prompts: Some(50),
    }
}

/// No limits, and messages of any size.
pub open spec fn unlimited_limits() -> ResourceLimits {
    ResourceLimits {
        max_sessions: None,
        max_message_size: usize::MAX,
        max_tools: None,
        max_resources: None,
        max_prompts: None,
    }
}

impl Default for ResourceLimits {
    fn default() -> (r: Self)
        ensures
            r == default_limits(),
    {
        ResourceLimits {
            max_sessions: Some(10_000),
            max_message_size: 2 * 1024 * 1024,
            max_tools: Some(1_000),
            max_resources: Some(10_000),
            max_prompts: Some(1_000),
        }
    }
}

impl ResourceLimits {
    /// No limits at all.
    pub fn unlimited() -> (r: Self)
        ensures
            r == unlimited_limits(),
    {
        ResourceLimits {
            max_sessions: None,
            max_message_size: usize::MAX,
            max_tools: None,
            max_resources: None,
            max_prompts: None,
        }
    }

    /// Tight limits for constrained deployments.
    pub fn strict() -> (r: Self)
        ensures
            r == strict_limits(),
    {
        ResourceLimits {
            max_sessions: Some(100),
            max_message_size: 256 * 1024,
            max_tools: Some(50),
            max_resources: Some(100),
            max_prompts: Some(50),
        }
    }
}

/// The presets are ordered: strict limits are within the default ones, and those within
/// no limits.
pub proof fn lemma_limits_ordered()
    ensures
        at_most(strict_limits(), default_limits()),
        at_most(default_limits(), unlimited_limits()),
{
}

} // verus!

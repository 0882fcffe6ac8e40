//! Request option types and plain response payload types.
//!
//! An absent optional field never reaches the wire: list options omit the
//! query parameter, body options omit the JSON key.

use vstd::prelude::*;

verus! {

use crate::json::Json;

/// A point in time: seconds since the Unix epoch and a nanosecond part.
///
/// Query filters carry timestamps in this plain form; formatting to RFC 3339
/// for the wire is delegated to a calendar library through [`rfc3339_text`].
#[derive(Debug, Clone, Copy, PartialEq, Eq, Structural)]
pub struct Timestamp {
    pub secs: i64,
    pub nanos: u32,
}

/// What the calendar library formats for a timestamp: a pure function of the
/// seconds and nanoseconds, `None` only out of the representable date range.
pub uninterp spec fn rfc3339_opt(secs: int, nanos: int) -> Option<Seq<char>>;

/// The view of an optionally produced string.
pub open spec fn opt_text_view(o: Option<String>) -> Option<Seq<char>> {
    match o {
        Some(s) => Some(s@),
        None => None,
    }
}

/// Relies on `chrono::DateTime::<Utc>::from_timestamp` and
/// `chrono::DateTime::to_rfc3339`: both are pure functions of the timestamp
/// value, so the outcome depends on `t` alone.  `from_timestamp` returns
/// `None` only for out-of-range values; its documented range covers years
/// around ±262,000, so every timestamp within ±8,000,000,000,000 seconds of
/// the epoch with a nanosecond part below one billion formats successfully.
#[verifier::external_body]
pub(crate) fn rfc3339_text(t: Timestamp) -> (r: Option<String>)
    ensures
        opt_text_view(r) == rfc3339_opt(t.secs as int, t.nanos as int),
        -8000000000000 <= t.secs <= 8000000000000 && t.nanos < 1000000000 ==> r is Some,
{
    match chrono::DateTime::<chrono::Utc>::from_timestamp(t.secs, t.nanos) {
        Some(dt) => Some(dt.to_rfc3339()),
        None => None,
    }
}

/// Filters for listing agents; every field optional.
#[derive(Debug, Clone)]
pub struct AgentListOptions {
    pub agent_type: Option<String>,
    pub division: Option<String>,
    pub level: Option<i32>,
    pub status: Option<String>,
    pub limit: Option<i32>,
    pub offset: Option<i32>,
}

impl Default for AgentListOptions {
    fn default() -> (r: Self)
        ensures
            r.agent_type is None,
            r.division is None,
            r.level is None,
            r.status is None,
            r.limit is None,
            r.offset is None,
    {
        AgentListOptions {
            agent_type: None,
            division: None,
            level: None,
            status: None,
            limit: None,
            offset: None,
        }
    }
}

/// Options for registering an agent; the name is required.
#[derive(Debug, Clone)]
pub struct RegisterAgentOptions {
    pub name: String,
    pub agent_type: Option<String>,
    pub division: Option<String>,
    pub level: Option<i32>,
    pub metadata: Option<Json>,
}

impl Default for RegisterAgentOptions {
    fn default() -> (r: Self)
        ensures
            r.name@ == Seq::<char>::empty(),
            r.agent_type is None,
            r.division is None,
            r.level is None,
            r.metadata is None,
    {
        RegisterAgentOptions {
            name: String::new(),
            agent_type: None,
            division: None,
            level: None,
            metadata: None,
        }
    }
}

/// Options for dispatching a task; the title is required.
#[derive(Debug, Clone)]
pub struct DispatchTaskOptions {
    pub title: String,
    pub description: Option<String>,
    pub priority: Option<String>,
    pub division: Option<String>,
    pub target_level: Option<i32>,
    pub metadata: Option<Json>,
}

impl Default for DispatchTaskOptions {
    fn default() -> (r: Self)
        ensures
            r.title@ == Seq::<char>::empty(),
            r.description is None,
            r.priority is None,
            r.division is None,
            r.target_level is None,
            r.metadata is None,
    {
        DispatchTaskOptions {
            title: String::new(),
            description: None,
            priority: None,
            division: None,
            target_level: None,
            metadata: None,
        }
    }
}

/// Filters for listing tasks; every field optional.
#[derive(Debug, Clone)]
pub struct TaskListOptions {
    pub status: Option<String>,
    pub priority: Option<String>,
    pub division: Option<String>,
    pub limit: Option<i32>,
    pub offset: Option<i32>,
}

impl Default for TaskListOptions {
    fn default() -> (r: Self)
        ensures
            r.status is None,
            r.priority is None,
            r.division is None,
            r.limit is None,
            r.offset is None,
    {
        TaskListOptions { status: None, priority: None, division: None, limit: None, offset: None }
    }
}

/// Options for logging a memory entry; action and entity are required.
#[derive(Debug, Clone)]
pub struct LogMemoryOptions {
    pub action: String,
    pub entity: String,
    pub details: Option<String>,
    pub tags: Option<Vec<String>>,
    pub metadata: Option<Json>,
}

impl Default for LogMemoryOptions {
    fn default() -> (r: Self)
        ensures
            r.action@ == Seq::<char>::empty(),
            r.entity@ == Seq::<char>::empty(),
            r.details is None,
            r.tags is None,
            r.metadata is None,
    {
        LogMemoryOptions {
            action: String::new(),
            entity: String::new(),
            details: None,
            tags: None,
            metadata: None,
        }
    }
}

/// Filters for querying memory entries; every field optional.
#[derive(Debug, Clone)]
pub struct MemoryQueryOptions {
    pub search: Option<String>,
    pub action: Option<String>,
    pub entity: Option<String>,
    pub tags: Option<Vec<String>>,
    pub since: Option<Timestamp>,
    pub until: Option<Timestamp>,
    pub limit: Option<i32>,
    pub offset: Option<i32>,
}

impl Default for MemoryQueryOptions {
    fn default() -> (r: Self)
        ensures
            r.search is None,
            r.action is None,
            r.entity is None,
            r.tags is None,
            r.since is None,
            r.until is None,
            r.limit is None,
            r.offset is None,
    {
        MemoryQueryOptions {
            search: None,
            action: None,
            entity: None,
            tags: None,
            since: None,
            until: None,
            limit: None,
            offset: None,
        }
    }
}

/// Statistics reported by the service. Breakdown maps arrive as key/count
/// pairs in response order.
#[derive(Debug, Clone, PartialEq, Eq)]
pub struct Stats {
    pub total: i64,
    pub by_status: Option<Vec<(String, i64)>>,
    pub by_type: Option<Vec<(String, i64)>>,
    pub by_level: Option<Vec<(String, i64)>>,
    pub active: Option<i64>,
    pub pending: Option<i64>,
    pub completed: Option<i64>,
}

/// Result of a hash-chain verification.
#[derive(Debug, Clone, Copy, PartialEq, Eq, Structural)]
pub struct VerifyChainResult {
    pub valid: bool,
    pub checked: i64,
}

} // verus!

//! Fault contexts and fault log entries: the point-in-time classified
//! description of a raised fault, and the persisted record wrapping it.

use vstd::prelude::*;
use crate::taxonomy::ContractError;
use crate::taxonomy::ErrorCategory;
use crate::taxonomy::ErrorSeverity;
use crate::taxonomy::spec_category;
use crate::taxonomy::spec_code_id;
use crate::taxonomy::spec_message;
use crate::taxonomy::spec_retryable;
use crate::taxonomy::spec_severity;

verus! {

/// A transient value created at the moment a fault is raised: the fault's
/// classification, its rendered message, the caller and resource hints the
/// raiser supplied, and the logical timestamp of the raise. Never persisted
/// on its own, only embedded in an [`ErrorLogEntry`].
#[derive(Clone, Debug)]
pub struct ErrorContext {
    pub category: ErrorCategory,
    pub severity: ErrorSeverity,
    pub message: String,
    pub user: Option<String>,
    pub resource_id: Option<String>,
    pub timestamp: u64,
    pub retryable: bool,
}

/// A persisted record of one raised fault: the raw numeric fault code, the
/// classified context, and an optional diagnostic trace. Immutable once
/// created; destroyed only by oldest-first eviction or an explicit clear.
#[derive(Clone, Debug)]
pub struct ErrorLogEntry {
    pub error_code: u32,
    pub context: ErrorContext,
    pub stack_trace: Option<String>,
}

/// Holds when `ctx` is exactly the context that classifying fault code `e`
/// with the given caller/resource hints at logical time `ts` produces.
pub open spec fn context_for(
    ctx: ErrorContext,
    e: ContractError,
    user: Option<String>,
    resource_id: Option<String>,
    ts: u64,
) -> bool {
    &&& ctx.category == spec_category(e)
    &&& ctx.severity == spec_severity(e)
    &&& ctx.message@ == spec_message(e)
    &&& ctx.user == user
    &&& ctx.resource_id == resource_id
    &&& ctx.timestamp == ts
    &&& ctx.retryable == spec_retryable(e)
}

/// Holds when `entry` is exactly the log entry that recording fault code `e`
/// with the given hints and trace at logical time `ts` produces.
pub open spec fn entry_for(
    entry: ErrorLogEntry,
    e: ContractError,
    user: Option<String>,
    resource_id: Option<String>,
    stack_trace: Option<String>,
    ts: u64,
) -> bool {
    &&& entry.error_code == spec_code_id(e)
    &&& context_for(entry.context, e, user, resource_id, ts)
    &&& entry.stack_trace == stack_trace
}

/// Builds the fault context for `error` without logging it, for callers that
/// need to inspect a fault's classification without committing a log entry.
/// `timestamp` is the service's current logical time, supplied by the host.
pub fn create_error_context(
    error: ContractError,
    user: Option<String>,
    resource_id: Option<String>,
    timestamp: u64,
) -> (ctx: ErrorContext)
    ensures
        context_for(ctx, error, user, resource_id, timestamp),
{
    ErrorContext {
        category: error.category(),
        severity: error.severity(),
        message: error.message().to_owned(),
        user,
        resource_id,
        timestamp,
        retryable: error.retryable(),
    }
}

/// Round trip through the log: a context built by [`create_error_context`]
/// for a fault code carries the same category, severity, message and
/// retryable flag as the context embedded in any log entry recorded for the
/// same code, whatever hints, trace and timestamps the two were given.
pub proof fn lemma_context_entry_round_trip(
    ctx: ErrorContext,
    entry: ErrorLogEntry,
    e: ContractError,
    user1: Option<String>,
    resource1: Option<String>,
    ts1: u64,
    user2: Option<String>,
    resource2: Option<String>,
    trace2: Option<String>,
    ts2: u64,
)
    requires
        context_for(ctx, e, user1, resource1, ts1),
        entry_for(entry, e, user2, resource2, trace2, ts2),
    ensures
        ctx.category == entry.context.category,
        ctx.severity == entry.context.severity,
        ctx.message@ == entry.context.message@,
        ctx.retryable == entry.context.retryable,
{
}

} // verus!

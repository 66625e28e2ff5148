//! Structured fault classification, bounded fault logging, and per-caller
//! retry gating for a stateful on-ledger service.
//!
//! The taxonomy maps every fault code to a category, severity, message and
//! retryable flag through total pure functions. The fault log keeps a
//! capacity-bounded, insertion-ordered trail of recorded faults together
//! with a lifetime counter, and the retry gate bounds how often a given
//! (caller, operation) pair may retry. All durable state lives in a
//! [`store::Store`], an explicit model of the service instance's key-value
//! storage that is passed into every operation.

pub mod context;
pub mod log;
pub mod retry;
pub mod store;
pub mod taxonomy;

pub use context::ErrorContext;
pub use context::ErrorLogEntry;
pub use context::create_error_context;
pub use log::clear_error_log;
pub use log::get_error_count;
pub use log::get_error_log;
pub use log::log_error;
pub use retry::reset_retry_count;
pub use retry::retry_operation;
pub use store::MAX_ERROR_LOG_SIZE;
pub use store::RetryCounter;
pub use store::Store;
pub use taxonomy::ContractError;
pub use taxonomy::ErrorCategory;
pub use taxonomy::ErrorSeverity;

//! The fault taxonomy: a closed set of fault codes, each mapped by total
//! pure functions to a category, a severity, a static message and a
//! retryable flag.

use vstd::prelude::*;

verus! {

/// Coarse-grained classification of a fault.
#[derive(Clone, Copy, Debug, PartialEq, Eq, Structural)]
pub enum ErrorCategory {
    Validation,
    Authorization,
    NotFound,
    StateConflict,
    Storage,
    Transient,
    System,
}

/// Ordered impact level of a fault, from `Low` to `Critical`.
#[derive(Clone, Copy, Debug, PartialEq, Eq, Structural)]
pub enum ErrorSeverity {
    Low,
    Medium,
    High,
    Critical,
}

/// The closed set of fault codes raised by the service. Every code is
/// classified by [`ContractError::category`], [`ContractError::severity`],
/// [`ContractError::message`] and [`ContractError::retryable`]; the matches
/// are exhaustive, so adding a code without classifying it fails to build.
#[derive(Clone, Copy, Debug, PartialEq, Eq, Structural)]
pub enum ContractError {
    NotInitialized,
    AlreadyInitialized,
    Unauthorized,
    UserNotFound,
    RecordNotFound,
    InvalidInput,
    AccessDenied,
    Paused,
    ProviderNotFound,
    ProviderAlreadyRegistered,
    InvalidVerificationStatus,
    InvalidAddress,
    InvalidTimestamp,
    StorageError,
    RateLimitExceeded,
    ExpiredAccess,
    InvalidRole,
    InvalidPermission,
    DelegationExpired,
    InvalidDataHash,
    DuplicateRecord,
    InvalidRecordType,
    ContractPaused,
    InsufficientPermissions,
    TransientFailure,
}

/// The category assigned to each fault code.
pub open spec fn spec_category(e: ContractError) -> ErrorCategory {
    match e {
        ContractError::NotInitialized
        | ContractError::AlreadyInitialized
        | ContractError::InvalidInput
        | ContractError::InvalidAddress
        | ContractError::InvalidTimestamp
        | ContractError::InvalidRole
        | ContractError::InvalidPermission
        | ContractError::InvalidDataHash
        | ContractError::InvalidRecordType
        | ContractError::InvalidVerificationStatus => ErrorCategory::Validation,
        ContractError::Unauthorized
        | ContractError::AccessDenied
        | ContractError::InsufficientPermissions
        | ContractError::ExpiredAccess => ErrorCategory::Authorization,
        ContractError::UserNotFound
        | ContractError::RecordNotFound
        | ContractError::ProviderNotFound => ErrorCategory::NotFound,
        ContractError::ProviderAlreadyRegistered
        | ContractError::DuplicateRecord
        | ContractError::DelegationExpired => ErrorCategory::StateConflict,
        ContractError::StorageError => ErrorCategory::Storage,
        ContractError::TransientFailure | ContractError::RateLimitExceeded => ErrorCategory::Transient,
        ContractError::Paused | ContractError::ContractPaused => ErrorCategory::System,
    }
}

/// The severity assigned to each fault code. Severity is assigned per code,
/// not per category.
pub open spec fn spec_severity(e: ContractError) -> ErrorSeverity {
    match e {
        ContractError::NotInitialized
        | ContractError::AlreadyInitialized
        | ContractError::InvalidInput
        | ContractError::InvalidAddress
        | ContractError::InvalidTimestamp
        | ContractError::InvalidRole
        | ContractError::InvalidPermission
        | ContractError::InvalidDataHash
        | ContractError::InvalidRecordType
        | ContractError::InvalidVerificationStatus
        | ContractError::UserNotFound
        | ContractError::RecordNotFound
        | ContractError::ProviderNotFound
        | ContractError::DuplicateRecord => ErrorSeverity::Low,
        ContractError::Unauthorized
        | ContractError::AccessDenied
        | ContractError::InsufficientPermissions
        | ContractError::ExpiredAccess
        | ContractError::ProviderAlreadyRegistered
        | ContractError::DelegationExpired => ErrorSeverity::Medium,
        ContractError::StorageError
        | ContractError::TransientFailure
        | ContractError::RateLimitExceeded => ErrorSeverity::High,
        ContractError::Paused | ContractError::ContractPaused => ErrorSeverity::Critical,
    }
}

/// Whether another attempt may succeed for a given fault code.
pub open spec fn spec_retryable(e: ContractError) -> bool {
    e == ContractError::TransientFailure || e == ContractError::RateLimitExceeded
        || e == ContractError::StorageError
}

/// The fixed human-readable message for each fault code.
pub open spec fn spec_message(e: ContractError) -> Seq<char> {
    match e {
        ContractError::NotInitialized => "Contract has not been initialized"@,
        ContractError::AlreadyInitialized => "Contract is already initialized"@,
        ContractError::Unauthorized => "Caller is not authorized for this operation"@,
        ContractError::UserNotFound => "User not found in the system"@,
        ContractError::RecordNotFound => "Record not found"@,
        ContractError::InvalidInput => "Invalid input parameters provided"@,
        ContractError::AccessDenied => "Access denied to the requested resource"@,
        ContractError::Paused => "Contract operations are currently paused"@,
        ContractError::ProviderNotFound => "Provider not found in the system"@,
        ContractError::ProviderAlreadyRegistered => "Provider is already registered"@,
        ContractError::InvalidVerificationStatus => "Invalid verification status provided"@,
        ContractError::InvalidAddress => "Invalid address format"@,
        ContractError::InvalidTimestamp => "Invalid timestamp value"@,
        ContractError::StorageError => "Storage operation failed"@,
        ContractError::RateLimitExceeded => "Rate limit exceeded, please retry later"@,
        ContractError::ExpiredAccess => "Access grant has expired"@,
        ContractError::InvalidRole => "Invalid role specified"@,
        ContractError::InvalidPermission => "Invalid permission specified"@,
        ContractError::DelegationExpired => "Role delegation has expired"@,
        ContractError::InvalidDataHash => "Invalid data hash format"@,
        ContractError::DuplicateRecord => "Record with this ID already exists"@,
        ContractError::InvalidRecordType => "Invalid record type specified"@,
        ContractError::ContractPaused => "Contract is paused"@,
        ContractError::InsufficientPermissions => "Insufficient permissions for operation"@,
        ContractError::TransientFailure => "Transient failure, operation may succeed on retry"@,
    }
}

/// The stable numeric identifier of each fault code, used as the raw
/// `error_code` of a persisted log entry.
pub open spec fn spec_code_id(e: ContractError) -> u32 {
    match e {
        ContractError::NotInitialized => 1,
        ContractError::AlreadyInitialized => 2,
        ContractError::Unauthorized => 3,
        ContractError::UserNotFound => 4,
        ContractError::RecordNotFound => 5,
        ContractError::InvalidInput => 6,
        ContractError::AccessDenied => 7,
        ContractError::Paused => 8,
        ContractError::ProviderNotFound => 9,
        ContractError::ProviderAlreadyRegistered => 10,
        ContractError::InvalidVerificationStatus => 11,
        ContractError::InvalidAddress => 12,
        ContractError::InvalidTimestamp => 13,
        ContractError::StorageError => 14,
        ContractError::RateLimitExceeded => 15,
        ContractError::ExpiredAccess => 16,
        ContractError::InvalidRole => 17,
        ContractError::InvalidPermission => 18,
        ContractError::DelegationExpired => 19,
        ContractError::InvalidDataHash => 20,
        ContractError::DuplicateRecord => 21,
        ContractError::InvalidRecordType => 22,
        ContractError::ContractPaused => 23,
        ContractError::InsufficientPermissions => 24,
        ContractError::TransientFailure => 25,
    }
}

impl ContractError {
    /// The category of this fault code.
    pub fn category(&self) -> (c: ErrorCategory)
        ensures
            c == spec_category(*self),
    {
        match self {
            ContractError::NotInitialized
            | ContractError::AlreadyInitialized
            | ContractError::InvalidInput
            | ContractError::InvalidAddress
            | ContractError::InvalidTimestamp
            | ContractError::InvalidRole
            | ContractError::InvalidPermission
            | ContractError::InvalidDataHash
            | ContractError::InvalidRecordType
            | ContractError::InvalidVerificationStatus => ErrorCategory::Validation,
            ContractError::Unauthorized
            | ContractError::AccessDenied
            | ContractError::InsufficientPermissions
            | ContractError::ExpiredAccess => ErrorCategory::Authorization,
            ContractError::UserNotFound
            | ContractError::RecordNotFound
            | ContractError::ProviderNotFound => ErrorCategory::NotFound,
            ContractError::ProviderAlreadyRegistered
            | ContractError::DuplicateRecord
            | ContractError::DelegationExpired => ErrorCategory::StateConflict,
            ContractError::StorageError => ErrorCategory::Storage,
            ContractError::TransientFailure | ContractError::RateLimitExceeded => {
                ErrorCategory::Transient
            },
            ContractError::Paused | ContractError::ContractPaused => ErrorCategory::System,
        }
    }

    /// The severity of this fault code.
    pub fn severity(&self) -> (s: ErrorSeverity)
        ensures
            s == spec_severity(*self),
    {
        match self {
            ContractError::NotInitialized
            | ContractError::AlreadyInitialized
            | ContractError::InvalidInput
            | ContractError::InvalidAddress
            | ContractError::InvalidTimestamp
            | ContractError::InvalidRole
            | ContractError::InvalidPermission
            | ContractError::InvalidDataHash
            | ContractError::InvalidRecordType
            | ContractError::InvalidVerificationStatus
            | ContractError::UserNotFound
            | ContractError::RecordNotFound
            | ContractError::ProviderNotFound
            | ContractError::DuplicateRecord => ErrorSeverity::Low,
            ContractError::Unauthorized
            | ContractError::AccessDenied
            | ContractError::InsufficientPermissions
            | ContractError::ExpiredAccess
            | ContractError::ProviderAlreadyRegistered
            | ContractError::DelegationExpired => ErrorSeverity::Medium,
            ContractError::StorageError
            | ContractError::TransientFailure
            | ContractError::RateLimitExceeded => ErrorSeverity::High,
            ContractError::Paused | ContractError::ContractPaused => ErrorSeverity::Critical,
        }
    }

    /// Whether an operation failing with this code may be retried.
    pub fn retryable(&self) -> (r: bool)
        ensures
            r == spec_retryable(*self),
    {
        matches!(
            self,
            ContractError::TransientFailure
                | ContractError::RateLimitExceeded
                | ContractError::StorageError
        )
    }

    /// The fixed human-readable message for this fault code.
    pub fn message(&self) -> (m: &'static str)
        ensures
            m@ == spec_message(*self),
    {
        match self {
            ContractError::NotInitialized => "Contract has not been initialized",
            ContractError::AlreadyInitialized => "Contract is already initialized",
            ContractError::Unauthorized => "Caller is not authorized for this operation",
            ContractError::UserNotFound => "User not found in the system",
            ContractError::RecordNotFound => "Record not found",
            ContractError::InvalidInput => "Invalid input parameters provided",
            ContractError::AccessDenied => "Access denied to the requested resource",
            ContractError::Paused => "Contract operations are currently paused",
            ContractError::ProviderNotFound => "Provider not found in the system",
            ContractError::ProviderAlreadyRegistered => "Provider is already registered",
            ContractError::InvalidVerificationStatus => "Invalid verification status provided",
            ContractError::InvalidAddress => "Invalid address format",
            ContractError::InvalidTimestamp => "Invalid timestamp value",
            ContractError::StorageError => "Storage operation failed",
            ContractError::RateLimitExceeded => "Rate limit exceeded, please retry later",
            ContractError::ExpiredAccess => "Access grant has expired",
            ContractError::InvalidRole => "Invalid role specified",
            ContractError::InvalidPermission => "Invalid permission specified",
            ContractError::DelegationExpired => "Role delegation has expired",
            ContractError::InvalidDataHash => "Invalid data hash format",
            ContractError::DuplicateRecord => "Record with this ID already exists",
            ContractError::InvalidRecordType => "Invalid record type specified",
            ContractError::ContractPaused => "Contract is paused",
            ContractError::InsufficientPermissions => "Insufficient permissions for operation",
            ContractError::TransientFailure => "Transient failure, operation may succeed on retry",
        }
    }

    /// The stable numeric identifier of this fault code.
    pub fn code_id(&self) -> (id: u32)
        ensures
            id == spec_code_id(*self),
    {
        match self {
            ContractError::NotInitialized => 1,
            ContractError::AlreadyInitialized => 2,
            ContractError::Unauthorized => 3,
            ContractError::UserNotFound => 4,
            ContractError::RecordNotFound => 5,
            ContractError::InvalidInput => 6,
            ContractError::AccessDenied => 7,
            ContractError::Paused => 8,
            ContractError::ProviderNotFound => 9,
            ContractError::ProviderAlreadyRegistered => 10,
            ContractError::InvalidVerificationStatus => 11,
            ContractError::InvalidAddress => 12,
            ContractError::InvalidTimestamp => 13,
            ContractError::StorageError => 14,
            ContractError::RateLimitExceeded => 15,
            ContractError::ExpiredAccess => 16,
            ContractError::InvalidRole => 17,
            ContractError::InvalidPermission => 18,
            ContractError::DelegationExpired => 19,
            ContractError::InvalidDataHash => 20,
            ContractError::DuplicateRecord => 21,
            ContractError::InvalidRecordType => 22,
            ContractError::ContractPaused => 23,
            ContractError::InsufficientPermissions => 24,
            ContractError::TransientFailure => 25,
        }
    }
}

/// A fault is retryable exactly when it is one of the three codes
/// `StorageError`, `TransientFailure` and `RateLimitExceeded`, which is in
/// turn exactly when its category is `Storage` or `Transient`.
pub proof fn lemma_retryable_exactly_storage_and_transient(e: ContractError)
    ensures
        spec_retryable(e) <==> (e == ContractError::StorageError
            || e == ContractError::TransientFailure || e == ContractError::RateLimitExceeded),
        spec_retryable(e) <==> (spec_category(e) == ErrorCategory::Storage
            || spec_category(e) == ErrorCategory::Transient),
{
}

} // verus!

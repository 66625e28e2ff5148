use fault_core::ContractError;
use fault_core::ErrorCategory;
use fault_core::ErrorSeverity;

fn all_codes() -> Vec<ContractError> {
    vec![
        ContractError::NotInitialized,
        ContractError::AlreadyInitialized,
        ContractError::Unauthorized,
        ContractError::UserNotFound,
        ContractError::RecordNotFound,
        ContractError::InvalidInput,
        ContractError::AccessDenied,
        ContractError::Paused,
        ContractError::ProviderNotFound,
        ContractError::ProviderAlreadyRegistered,
        ContractError::InvalidVerificationStatus,
        ContractError::InvalidAddress,
        ContractError::InvalidTimestamp,
        ContractError::StorageError,
        ContractError::RateLimitExceeded,
        ContractError::ExpiredAccess,
        ContractError::InvalidRole,
        ContractError::InvalidPermission,
        ContractError::DelegationExpired,
        ContractError::InvalidDataHash,
        ContractError::DuplicateRecord,
        ContractError::InvalidRecordType,
        ContractError::ContractPaused,
        ContractError::InsufficientPermissions,
        ContractError::TransientFailure,
    ]
}

#[test]
fn every_code_is_classified() {
    let codes = all_codes();
    assert_eq!(codes.len(), 25);
    for code in codes {
        // Total and deterministic: every code yields a classification, and
        // asking twice yields the same answer.
        assert_eq!(code.category(), code.category());
        assert_eq!(code.severity(), code.severity());
        assert_eq!(code.retryable(), code.retryable());
        assert_eq!(code.message(), code.message());
        assert!(!code.message().is_empty());
        assert!(code.code_id() >= 1 && code.code_id() <= 25);
    }
}

#[test]
fn code_ids_are_distinct_and_stable() {
    let codes = all_codes();
    for (i, code) in codes.iter().enumerate() {
        assert_eq!(code.code_id() as usize, i + 1);
    }
}

#[test]
fn retryable_exactly_three_codes() {
    for code in all_codes() {
        let expected = matches!(
            code,
            ContractError::StorageError
                | ContractError::TransientFailure
                | ContractError::RateLimitExceeded
        );
        assert_eq!(code.retryable(), expected);
        // Retryable coincides with the Storage and Transient categories.
        let cat = code.category();
        assert_eq!(
            code.retryable(),
            cat == ErrorCategory::Storage || cat == ErrorCategory::Transient
        );
    }
}

#[test]
fn categories_match_policy() {
    assert_eq!(ContractError::InvalidInput.category(), ErrorCategory::Validation);
    assert_eq!(ContractError::NotInitialized.category(), ErrorCategory::Validation);
    assert_eq!(ContractError::InvalidDataHash.category(), ErrorCategory::Validation);
    assert_eq!(ContractError::Unauthorized.category(), ErrorCategory::Authorization);
    assert_eq!(ContractError::AccessDenied.category(), ErrorCategory::Authorization);
    assert_eq!(ContractError::ExpiredAccess.category(), ErrorCategory::Authorization);
    assert_eq!(ContractError::UserNotFound.category(), ErrorCategory::NotFound);
    assert_eq!(ContractError::RecordNotFound.category(), ErrorCategory::NotFound);
    assert_eq!(ContractError::ProviderNotFound.category(), ErrorCategory::NotFound);
    assert_eq!(ContractError::DuplicateRecord.category(), ErrorCategory::StateConflict);
    assert_eq!(
        ContractError::ProviderAlreadyRegistered.category(),
        ErrorCategory::StateConflict
    );
    assert_eq!(ContractError::DelegationExpired.category(), ErrorCategory::StateConflict);
    assert_eq!(ContractError::StorageError.category(), ErrorCategory::Storage);
    assert_eq!(ContractError::TransientFailure.category(), ErrorCategory::Transient);
    assert_eq!(ContractError::RateLimitExceeded.category(), ErrorCategory::Transient);
    assert_eq!(ContractError::Paused.category(), ErrorCategory::System);
    assert_eq!(ContractError::ContractPaused.category(), ErrorCategory::System);
}

#[test]
fn severities_match_policy() {
    assert_eq!(ContractError::InvalidInput.severity(), ErrorSeverity::Low);
    assert_eq!(ContractError::UserNotFound.severity(), ErrorSeverity::Low);
    assert_eq!(ContractError::DuplicateRecord.severity(), ErrorSeverity::Low);
    assert_eq!(ContractError::Unauthorized.severity(), ErrorSeverity::Medium);
    assert_eq!(ContractError::ProviderAlreadyRegistered.severity(), ErrorSeverity::Medium);
    assert_eq!(ContractError::DelegationExpired.severity(), ErrorSeverity::Medium);
    assert_eq!(ContractError::StorageError.severity(), ErrorSeverity::High);
    assert_eq!(ContractError::TransientFailure.severity(), ErrorSeverity::High);
    assert_eq!(ContractError::RateLimitExceeded.severity(), ErrorSeverity::High);
    assert_eq!(ContractError::Paused.severity(), ErrorSeverity::Critical);
    assert_eq!(ContractError::ContractPaused.severity(), ErrorSeverity::Critical);
}

#[test]
fn messages_are_fixed_strings() {
    assert_eq!(
        ContractError::NotInitialized.message(),
        "Contract has not been initialized"
    );
    assert_eq!(
        ContractError::Unauthorized.message(),
        "Caller is not authorized for this operation"
    );
    assert_eq!(ContractError::StorageError.message(), "Storage operation failed");
    assert_eq!(
        ContractError::RateLimitExceeded.message(),
        "Rate limit exceeded, please retry later"
    );
    assert_eq!(
        ContractError::TransientFailure.message(),
        "Transient failure, operation may succeed on retry"
    );
    assert_eq!(ContractError::RecordNotFound.message(), "Record not found");
}

use solana_token_presale::ErrorCode;

#[test]
fn insufficient_funds_message() {
    assert_eq!(
        ErrorCode::InsufficientFunds.message(),
        "User has insufficient funds for this transaction."
    );
}

#[test]
fn unauthorized_message() {
    assert_eq!(
        ErrorCode::Unauthorized.message(),
        "Only the admin can execute this transaction."
    );
}

#[test]
fn already_initialized_message() {
    assert_eq!(
        ErrorCode::AlreadyInitialized.message(),
        "The presale has already been initialized."
    );
}

#[test]
fn arithmetic_overflow_message() {
    assert_eq!(
        ErrorCode::ArithmeticOverflow.message(),
        "The amount does not fit in the balance."
    );
}

#[test]
fn record_not_found_message() {
    assert_eq!(
        ErrorCode::RecordNotFound.message(),
        "The presale has not been initialized."
    );
}

#[test]
fn error_kinds_are_told_apart() {
    assert_ne!(ErrorCode::Unauthorized, ErrorCode::InsufficientFunds);
    assert_ne!(ErrorCode::ArithmeticOverflow, ErrorCode::InsufficientFunds);
    assert_ne!(ErrorCode::AlreadyInitialized, ErrorCode::RecordNotFound);
    assert_eq!(ErrorCode::Unauthorized, ErrorCode::Unauthorized);
}

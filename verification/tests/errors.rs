use tinkoff_invest_sdk::{ErrorType, TinkoffInvestError};

#[test]
fn codes_map_to_their_categories() {
    assert_eq!(ErrorType::from_code("50007"), ErrorType::NotFound);
    assert_eq!(ErrorType::from_code("50002"), ErrorType::NotFound);
    assert_eq!(ErrorType::from_code("30064"), ErrorType::InvalidArgument);
    assert_eq!(ErrorType::from_code("30055"), ErrorType::InvalidArgument);
    assert_eq!(ErrorType::from_code("70001"), ErrorType::Internal);
    assert_eq!(ErrorType::from_code("70002"), ErrorType::Internal);
    assert_eq!(ErrorType::from_code("80001"), ErrorType::ResourceExhausted);
    assert_eq!(ErrorType::from_code("80003"), ErrorType::ResourceExhausted);
    assert_eq!(ErrorType::from_code("40003"), ErrorType::Unauthenticated);
    assert_eq!(ErrorType::from_code("40002"), ErrorType::PermissionDenied);
    assert_eq!(ErrorType::from_code("40004"), ErrorType::PermissionDenied);
    assert_eq!(ErrorType::from_code("12001"), ErrorType::Unimplemented);
    assert_eq!(ErrorType::from_code("90001"), ErrorType::FailedPrecondition);
    assert_eq!(ErrorType::from_code("90002"), ErrorType::FailedPrecondition);
}

#[test]
fn unlisted_codes_map_to_unknown() {
    assert_eq!(ErrorType::from_code(""), ErrorType::Unknown);
    assert_eq!(ErrorType::from_code("00000"), ErrorType::Unknown);
    assert_eq!(ErrorType::from_code("5000"), ErrorType::Unknown);
    assert_eq!(ErrorType::from_code("500070"), ErrorType::Unknown);
    assert_eq!(ErrorType::from_code("not a code"), ErrorType::Unknown);
}

#[test]
fn classified_error_carries_catalog_entry() {
    let err = TinkoffInvestError::for_code("50007");
    assert_eq!(err.code(), "50007");
    assert_eq!(*err.error_type(), ErrorType::NotFound);
    assert_eq!(err.formatted_message(), "task not found");
    assert_eq!(err.description(), "Задача не найдена.");

    let err = TinkoffInvestError::for_code("30064");
    assert_eq!(*err.error_type(), ErrorType::InvalidArgument);
    assert_eq!(
        err.formatted_message(),
        "the required period should not exceed 31 days"
    );
    assert_eq!(
        err.description(),
        "Запрошенный период не может превышать 31 дня.\nУкажите корректный период."
    );
}

#[test]
fn unknown_error_reads_not_available() {
    let err = TinkoffInvestError::for_code("99999");
    assert_eq!(*err.error_type(), ErrorType::Unknown);
    assert_eq!(err.formatted_message(), "N/A");
    assert_eq!(err.description(), "N/A");
    assert_eq!(err.code(), "99999");
}

#[test]
fn transport_status_is_classified_by_its_message() {
    let status = tonic::Status::new(tonic::Code::NotFound, "50002");
    let err = TinkoffInvestError::from_status(status);
    assert_eq!(err.code(), "50002");
    assert_eq!(*err.error_type(), ErrorType::NotFound);
    assert_eq!(err.formatted_message(), "instrument not found");

    let status = tonic::Status::new(tonic::Code::Internal, "something else");
    let err = TinkoffInvestError::from_status(status);
    assert_eq!(*err.error_type(), ErrorType::Unknown);
    assert_eq!(err.formatted_message(), "N/A");
}

#[test]
fn categories_print_their_catalog_names() {
    assert_eq!(ErrorType::NotFound.display_name(), "NOT_FOUND");
    assert_eq!(ErrorType::FailedPrecondition.display_name(), "FAILED_PRECONDITION");
    assert_eq!(ErrorType::Unknown.display_name(), "UNKNOWN");
}

#[test]
fn errors_print_code_category_and_message() {
    let err = TinkoffInvestError::for_code("80002");
    assert_eq!(
        err.display_message(),
        "[80002] RESOURCE_EXHAUSTED: request limit exceeded"
    );
}

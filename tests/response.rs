use graphql_introspection::response::{status_code_from_result, ResponseOutcome, ServerErrorKind};

#[test]
fn generates_500_for_internal_errors() {
    assert_eq!(status_code_from_result(&ResponseOutcome::Failed(ServerErrorKind::Internal)), 500);
}

#[test]
fn generates_401_for_client_errors() {
    assert_eq!(status_code_from_result(&ResponseOutcome::Failed(ServerErrorKind::Client)), 400);
}

#[test]
fn generates_401_for_query_errors() {
    assert_eq!(status_code_from_result(&ResponseOutcome::Failed(ServerErrorKind::Query)), 400);
}

#[test]
fn generates_200_for_query_results() {
    assert_eq!(status_code_from_result(&ResponseOutcome::Data { has_errors: false }), 200);
}

#[test]
fn status_400_for_data_with_errors() {
    assert_eq!(status_code_from_result(&ResponseOutcome::Data { has_errors: true }), 400);
}

#[test]
fn status_500_for_cancellation() {
    assert_eq!(status_code_from_result(&ResponseOutcome::Failed(ServerErrorKind::Canceled)), 500);
}

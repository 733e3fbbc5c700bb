use mullvad_rpc::error::Error;
use mullvad_rpc::refresh::{
    ApiAddressSchedule, API_IP_CHECK_DELAY_MS, API_IP_CHECK_ERROR_INTERVAL_MS,
    API_IP_CHECK_INTERVAL_MS,
};
use mullvad_rpc::response::{
    body_capacity, error_from_body, extend_body, handle_error_response, parse_rest_response,
    parse_usize, ErrorResponse, ResponseStep,
};

#[test]
fn expected_status_is_accepted() {
    assert!(matches!(parse_rest_response(200, 200), ResponseStep::Accept));
    assert!(matches!(parse_rest_response(204, 204), ResponseStep::Accept));
}

#[test]
fn not_found_has_fixed_message() {
    match parse_rest_response(404, 200) {
        ResponseStep::Fail(err) => assert_eq!(err, Error::ApiError(404, "Not found".to_string())),
        _ => panic!("404 must fail without decoding"),
    }
}

#[test]
fn method_not_allowed_has_fixed_message() {
    match handle_error_response(405) {
        ResponseStep::Fail(err) => {
            assert_eq!(err, Error::ApiError(405, "Method not allowed".to_string()))
        }
        _ => panic!("405 must fail without decoding"),
    }
}

#[test]
fn other_status_decodes_error_code() {
    assert!(matches!(parse_rest_response(500, 200), ResponseStep::DecodeErrorBody));
    let value: serde_json::Value = serde_json::from_slice(br#"{"code":"RATE_LIMITED"}"#).unwrap();
    let code = value["code"].as_str().unwrap().to_string();
    let err = error_from_body(500, Ok(ErrorResponse { code }));
    assert_eq!(err, Error::ApiError(500, "RATE_LIMITED".to_string()));
}

#[test]
fn undecodable_error_body_is_deserialize_error() {
    assert_eq!(error_from_body(503, Err(Error::DeserializeError)), Error::DeserializeError);
}

#[test]
fn parse_usize_reads_decimal() {
    assert_eq!(parse_usize("123"), Some(123));
    assert_eq!(parse_usize("+7"), Some(7));
    assert_eq!(parse_usize("007"), Some(7));
    assert_eq!(parse_usize(""), None);
    assert_eq!(parse_usize("+"), None);
    assert_eq!(parse_usize("-1"), None);
    assert_eq!(parse_usize("12a"), None);
    assert_eq!(parse_usize(&usize::MAX.to_string()), Some(usize::MAX));
    assert_eq!(parse_usize("99999999999999999999999"), None);
}

#[test]
fn body_capacity_defaults_to_zero() {
    assert_eq!(body_capacity(Some("42")), 42);
    assert_eq!(body_capacity(Some("forty")), 0);
    assert_eq!(body_capacity(None), 0);
}

#[test]
fn body_chunks_accumulate() {
    let mut body = b"ab".to_vec();
    extend_body(&mut body, b"cd");
    extend_body(&mut body, b"");
    assert_eq!(body, b"abcd".to_vec());
}

#[test]
fn refresh_waits_for_initial_delay() {
    let schedule = ApiAddressSchedule::new(1_000);
    assert_eq!(API_IP_CHECK_DELAY_MS, 15 * 60 * 1000);
    assert_eq!(schedule.next_check(), 1_000 + API_IP_CHECK_DELAY_MS);
    assert!(!schedule.should_fetch(1_000));
    assert!(!schedule.should_fetch(1_000 + API_IP_CHECK_DELAY_MS));
    assert!(schedule.should_fetch(1_001 + API_IP_CHECK_DELAY_MS));
}

#[test]
fn refresh_reschedules_after_success_and_failure() {
    let mut schedule = ApiAddressSchedule::new(0);
    schedule.fetch_finished(5_000, true);
    assert_eq!(schedule.next_check(), 5_000 + 24 * 60 * 60 * 1000);
    assert_eq!(API_IP_CHECK_INTERVAL_MS, 24 * 60 * 60 * 1000);
    assert!(!schedule.should_fetch(5_000 + API_IP_CHECK_INTERVAL_MS));
    schedule.fetch_finished(7_000, false);
    assert_eq!(schedule.next_check(), 7_000 + API_IP_CHECK_ERROR_INTERVAL_MS);
    assert_eq!(API_IP_CHECK_ERROR_INTERVAL_MS, 15 * 60 * 1000);
    assert!(schedule.should_fetch(7_001 + API_IP_CHECK_ERROR_INTERVAL_MS));
}

#[test]
fn connection_failure_classification() {
    assert!(Error::HyperError.is_connection_failure());
    assert!(Error::TimeoutError.is_connection_failure());
    assert!(!Error::Aborted.is_connection_failure());
    assert!(!Error::InvalidHeaderError.is_connection_failure());
}

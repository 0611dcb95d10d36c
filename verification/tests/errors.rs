use strike_rs::{
    DebugInfo, Error, Strike, StrikeApiError, StrikeApiErrorData, StrikeErrorCode,
    ValidationError, ValidationErrorCode,
};

fn api_error(status: u16, code: StrikeErrorCode) -> StrikeApiError {
    StrikeApiError {
        trace_id: Some("7cd128d3-e8a9-4685-b852-c8ce0f4dd5e3".to_string()),
        data: StrikeApiErrorData {
            status,
            code,
            message: "User does not support the given currency.".to_string(),
            values: vec![
                ("currency".to_string(), serde_json::Value::String("USD".to_string())),
                ("limit".to_string(), serde_json::Value::from(40u64)),
            ],
            validation_errors: Vec::new(),
            debug: None,
        },
    }
}

fn client() -> Strike {
    Strike::new("key", None).unwrap()
}

#[test]
fn typical_statuses() {
    assert_eq!(StrikeErrorCode::NotFound.typical_status(), 404);
    assert_eq!(StrikeErrorCode::InternalServerError.typical_status(), 500);
    assert_eq!(StrikeErrorCode::BadGateway.typical_status(), 502);
    assert_eq!(StrikeErrorCode::MaintenanceMode.typical_status(), 503);
    assert_eq!(StrikeErrorCode::ServiceUnavailable.typical_status(), 503);
    assert_eq!(StrikeErrorCode::GatewayTimeout.typical_status(), 504);
    assert_eq!(StrikeErrorCode::LnUnavailable.typical_status(), 503);
    assert_eq!(StrikeErrorCode::RateLimitExceeded.typical_status(), 429);
    assert_eq!(StrikeErrorCode::TooManyAttempts.typical_status(), 429);
    assert_eq!(StrikeErrorCode::ProcessingConflict.typical_status(), 409);
    assert_eq!(StrikeErrorCode::Unauthorized.typical_status(), 401);
    assert_eq!(StrikeErrorCode::Forbidden.typical_status(), 403);
    assert_eq!(StrikeErrorCode::InvalidData.typical_status(), 400);
    assert_eq!(StrikeErrorCode::InvalidDataQuery.typical_status(), 400);
    assert_eq!(StrikeErrorCode::UnprocessableEntity.typical_status(), 422);
    assert_eq!(StrikeErrorCode::AccountNotReady.typical_status(), 425);
    assert_eq!(StrikeErrorCode::DuplicateInvoice.typical_status(), 409);
    assert_eq!(StrikeErrorCode::BalanceTooLow.typical_status(), 422);
    assert_eq!(StrikeErrorCode::Unknown.typical_status(), 422);
}

#[test]
fn retryable_codes() {
    for code in [
        StrikeErrorCode::InternalServerError,
        StrikeErrorCode::BadGateway,
        StrikeErrorCode::ServiceUnavailable,
        StrikeErrorCode::GatewayTimeout,
        StrikeErrorCode::RateLimitExceeded,
        StrikeErrorCode::TooManyAttempts,
        StrikeErrorCode::ProcessingConflict,
        StrikeErrorCode::AccountNotReady,
        StrikeErrorCode::LnUnavailable,
        StrikeErrorCode::ExchangeRateNotAvailable,
    ] {
        assert!(code.is_retryable());
    }
    for code in [
        StrikeErrorCode::NotFound,
        StrikeErrorCode::MaintenanceMode,
        StrikeErrorCode::InvalidData,
        StrikeErrorCode::DuplicateInvoice,
        StrikeErrorCode::Unknown,
    ] {
        assert!(!code.is_retryable());
    }
}

#[test]
fn accessors() {
    let error = api_error(422, StrikeErrorCode::UserCurrencyUnavailable);
    assert_eq!(error.status(), 422);
    assert_eq!(error.code(), &StrikeErrorCode::UserCurrencyUnavailable);
    assert_eq!(error.message(), "User does not support the given currency.");
    assert_eq!(error.trace_id(), Some("7cd128d3-e8a9-4685-b852-c8ce0f4dd5e3"));
    assert_eq!(error.values().len(), 2);
    assert!(error.validation_errors().is_empty());
    assert!(error.is_error_code(&StrikeErrorCode::UserCurrencyUnavailable));
    assert!(!error.is_error_code(&StrikeErrorCode::NotFound));
    assert!(!error.is_validation_error());
    assert!(!error.is_rate_limit_error());
    assert!(error.is_client_error());
    assert!(!error.is_server_error());
}

#[test]
fn get_value_finds_the_entry() {
    let error = api_error(422, StrikeErrorCode::UserCurrencyUnavailable);
    assert_eq!(
        error.get_value("currency"),
        Some(&serde_json::Value::String("USD".to_string()))
    );
    assert_eq!(error.get_value("limit"), Some(&serde_json::Value::from(40u64)));
    assert_eq!(error.get_value("missing"), None);
}

#[test]
fn error_kinds() {
    let mut e = api_error(429, StrikeErrorCode::TooManyAttempts);
    assert!(e.is_rate_limit_error());
    assert!(e.code().is_retryable());
    e.data.code = StrikeErrorCode::InvalidData;
    e.data.status = 400;
    assert!(e.is_validation_error());
    e.data.status = 503;
    assert!(e.is_server_error());
    assert!(!e.is_client_error());
    e.data.status = 599;
    assert!(e.is_server_error());
    e.data.status = 600;
    assert!(!e.is_server_error());
    assert!(!e.is_client_error());
    e.data.status = 399;
    assert!(!e.is_server_error());
    assert!(!e.is_client_error());
    e.trace_id = None;
    assert_eq!(e.trace_id(), None);
}

#[test]
fn display_text() {
    let mut e = api_error(400, StrikeErrorCode::InvalidData);
    e.data.message = "One or more validation errors occurred.".to_string();
    assert_eq!(
        e.to_string(),
        "[400] InvalidData: One or more validation errors occurred."
    );
    e.data.validation_errors = vec![(
        "correlationId".to_string(),
        vec![
            ValidationError {
                code: ValidationErrorCode::InvalidDataMaxlength,
                message: "too long".to_string(),
                values: Vec::new(),
            },
            ValidationError {
                code: ValidationErrorCode::InvalidDataRequired,
                message: "required".to_string(),
                values: Vec::new(),
            },
        ],
    )];
    e.data.debug = Some(DebugInfo { full: None, body: Some("b".to_string()) });
    assert_eq!(
        e.to_string(),
        "[400] InvalidData: One or more validation errors occurred. (Validation errors: correlationId: too long correlationId: required )"
    );
}

#[test]
fn handle_api_error_passes_parsed_error_through() {
    let s = client();
    let parsed = api_error(422, StrikeErrorCode::UserCurrencyUnavailable);
    match s.handle_api_error(500, "whatever", Some(parsed.clone())) {
        Error::ApiError(e) => assert_eq!(e, parsed),
        other => panic!("unexpected {:?}", other),
    }
}

fn fallback(status: u16, text: &str) -> StrikeApiError {
    match client().handle_api_error(status, text, None) {
        Error::ApiError(e) => e,
        other => panic!("unexpected {:?}", other),
    }
}

#[test]
fn handle_api_error_fallback_codes() {
    let table = [
        (400, StrikeErrorCode::InvalidData),
        (401, StrikeErrorCode::Unauthorized),
        (403, StrikeErrorCode::Forbidden),
        (404, StrikeErrorCode::NotFound),
        (409, StrikeErrorCode::ProcessingConflict),
        (422, StrikeErrorCode::UnprocessableEntity),
        (429, StrikeErrorCode::RateLimitExceeded),
        (500, StrikeErrorCode::InternalServerError),
        (502, StrikeErrorCode::BadGateway),
        (503, StrikeErrorCode::ServiceUnavailable),
        (504, StrikeErrorCode::GatewayTimeout),
        (418, StrikeErrorCode::Unknown),
        (302, StrikeErrorCode::Unknown),
    ];
    for (status, code) in table {
        let e = fallback(status, "body");
        assert_eq!(e.data.code, code);
        assert_eq!(e.data.status, status);
        assert_eq!(e.data.message, "body");
        assert_eq!(e.trace_id, None);
        assert!(e.data.values.is_empty());
        assert!(e.data.validation_errors.is_empty());
        assert_eq!(e.data.debug, None);
        if code != StrikeErrorCode::Unknown {
            assert_eq!(code.typical_status(), status);
        }
    }
}

#[test]
fn handle_api_error_fallback_messages() {
    assert_eq!(fallback(404, "").data.message, "HTTP 404: Not Found");
    assert_eq!(fallback(503, "").data.message, "HTTP 503: Service Unavailable");
    assert_eq!(fallback(418, "").data.message, "HTTP 418: I'm a teapot");
    assert_eq!(fallback(599, "").data.message, "HTTP 599: Unknown");
    assert_eq!(fallback(7, "").data.message, "HTTP 7: Unknown");
}

#[test]
fn check_response_by_status() {
    let s = client();
    assert!(s.check_response(200, "", None).is_ok());
    assert!(s.check_response(204, "", None).is_ok());
    assert!(s.check_response(299, "{}", None).is_ok());
    match s.check_response(300, "", None) {
        Err(Error::ApiError(e)) => {
            assert_eq!(e.data.status, 300);
            assert_eq!(e.data.message, "HTTP 300: Multiple Choices");
        }
        other => panic!("unexpected {:?}", other),
    }
    match s.check_response(199, "x", None) {
        Err(Error::ApiError(e)) => assert_eq!(e.data.code, StrikeErrorCode::Unknown),
        other => panic!("unexpected {:?}", other),
    }
}

#[test]
fn from_conversions() {
    let e: Error = api_error(404, StrikeErrorCode::NotFound).into();
    assert!(matches!(e, Error::ApiError(_)));
    let e: Error = url::ParseError::EmptyHost.into();
    assert!(matches!(e, Error::InvalidUrl(url::ParseError::EmptyHost)));
    let json_err = serde_json::from_str::<serde_json::Value>("{").unwrap_err();
    let e: Error = json_err.into();
    assert!(matches!(e, Error::SerdeError(_)));
}

#[test]
fn fallback_codes_retryable_for_transient_statuses() {
    for status in [409u16, 429, 500, 502, 503, 504] {
        assert!(fallback(status, "b").data.code.is_retryable());
    }
    for status in [400u16, 401, 403, 404, 422, 418, 501] {
        assert!(!fallback(status, "b").data.code.is_retryable());
    }
}

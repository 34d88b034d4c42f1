use px6_client::deserializer::DecodeError;
use px6_client::error::ApiError;
use px6_client::error::DocumentedErrorCode;
use px6_client::value_object::BuildError;
use px6_client::ClientBuildError;

#[test]
fn test_documented_error_code_from_numeric_code() {
    // Test all known error codes
    assert_eq!(
        DocumentedErrorCode::from_numeric_code(30),
        Some(DocumentedErrorCode::Unknown)
    );
    assert_eq!(
        DocumentedErrorCode::from_numeric_code(100),
        Some(DocumentedErrorCode::Key)
    );
    assert_eq!(
        DocumentedErrorCode::from_numeric_code(105),
        Some(DocumentedErrorCode::Ip)
    );
    assert_eq!(
        DocumentedErrorCode::from_numeric_code(110),
        Some(DocumentedErrorCode::Method)
    );
    assert_eq!(
        DocumentedErrorCode::from_numeric_code(200),
        Some(DocumentedErrorCode::Count)
    );
    assert_eq!(
        DocumentedErrorCode::from_numeric_code(210),
        Some(DocumentedErrorCode::Period)
    );
    assert_eq!(
        DocumentedErrorCode::from_numeric_code(220),
        Some(DocumentedErrorCode::Country)
    );
    assert_eq!(
        DocumentedErrorCode::from_numeric_code(230),
        Some(DocumentedErrorCode::Ids)
    );
    assert_eq!(
        DocumentedErrorCode::from_numeric_code(240),
        Some(DocumentedErrorCode::Version)
    );
    assert_eq!(
        DocumentedErrorCode::from_numeric_code(250),
        Some(DocumentedErrorCode::Description)
    );
    assert_eq!(
        DocumentedErrorCode::from_numeric_code(260),
        Some(DocumentedErrorCode::Type)
    );
    assert_eq!(
        DocumentedErrorCode::from_numeric_code(270),
        Some(DocumentedErrorCode::Port)
    );
    assert_eq!(
        DocumentedErrorCode::from_numeric_code(280),
        Some(DocumentedErrorCode::ProxyString)
    );
    assert_eq!(
        DocumentedErrorCode::from_numeric_code(300),
        Some(DocumentedErrorCode::ActiveProxyAllow)
    );
    assert_eq!(
        DocumentedErrorCode::from_numeric_code(400),
        Some(DocumentedErrorCode::NoMoney)
    );
    assert_eq!(
        DocumentedErrorCode::from_numeric_code(404),
        Some(DocumentedErrorCode::NotFound)
    );
    assert_eq!(
        DocumentedErrorCode::from_numeric_code(410),
        Some(DocumentedErrorCode::Price)
    );

    // Test unknown error codes
    assert_eq!(DocumentedErrorCode::from_numeric_code(0), None);
    assert_eq!(DocumentedErrorCode::from_numeric_code(999), None);
    assert_eq!(DocumentedErrorCode::from_numeric_code(50), None);
}

#[test]
fn test_parse_from_response_body_valid() {
    // Test valid JSON with error_id field
    let body = "{\"error_id\": 100, \"message\": \"Authorization error\"}";
    assert_eq!(
        DocumentedErrorCode::parse_from_response_body(body),
        Some(DocumentedErrorCode::Key)
    );

    let body = "{\"error_id\": 200, \"error\": \"Wrong count\"}";
    assert_eq!(
        DocumentedErrorCode::parse_from_response_body(body),
        Some(DocumentedErrorCode::Count)
    );

    let body = "{\"error_id\": 400, \"balance\": 0}";
    assert_eq!(
        DocumentedErrorCode::parse_from_response_body(body),
        Some(DocumentedErrorCode::NoMoney)
    );

    let body = "{\"error_id\": 30}";
    assert_eq!(
        DocumentedErrorCode::parse_from_response_body(body),
        Some(DocumentedErrorCode::Unknown)
    );
}

#[test]
fn test_parse_from_response_body_invalid() {
    // Test invalid JSON
    assert_eq!(
        DocumentedErrorCode::parse_from_response_body("invalid json"),
        None
    );

    // Test JSON without error_id field
    assert_eq!(
        DocumentedErrorCode::parse_from_response_body("{\"message\": \"error\"}"),
        None
    );

    // Test JSON with non-numeric error_id
    assert_eq!(
        DocumentedErrorCode::parse_from_response_body("{\"error_id\": \"string\"}"),
        None
    );

    // Test JSON with unknown error_id
    assert_eq!(
        DocumentedErrorCode::parse_from_response_body("{\"error_id\": 999}"),
        None
    );

    // Test empty string
    assert_eq!(DocumentedErrorCode::parse_from_response_body(""), None);

    // Test JSON array instead of object
    assert_eq!(
        DocumentedErrorCode::parse_from_response_body("[{\"error_id\": 100}]"),
        None
    );
}

#[test]
fn test_api_error_display() {
    // Test DocumentedError display
    let err = ApiError::DocumentedError {
        code: DocumentedErrorCode::Key,
        response: "Authorization failed".to_string(),
    };
    assert!(err.message().contains("Authorization error, wrong key"));
    assert!(err.message().contains("Authorization failed"));

    // Test DocumentedError with different code
    let err = ApiError::DocumentedError {
        code: DocumentedErrorCode::NoMoney,
        response: "Low balance".to_string(),
    };
    assert!(err
        .message()
        .contains("Balance error. Zero or low balance on your account"));
    assert!(err.message().contains("Low balance"));

    // Test UnknownError display
    let err = ApiError::UnknownError {
        response: "Something went wrong".to_string(),
    };
    assert!(err.message().contains("Unknown API error"));
    assert!(err.message().contains("Something went wrong"));

    // Test TooManyRequests display
    let err = ApiError::TooManyRequests {
        response: "Rate limit exceeded".to_string(),
    };
    assert!(err.message().contains("Too many requests"));
    assert!(err.message().contains("Rate limit exceeded"));

    // Test SuccessButCannotParse display
    let err = ApiError::SuccessButCannotParse {
        source: DecodeError::Syntax,
        response: "invalid response".to_string(),
    };
    assert!(err
        .message()
        .contains("Success response but cannot parse body"));
    assert!(err.message().contains("invalid response"));
}

#[test]
fn test_documented_error_code_display() {
    // Test error messages for all documented error codes
    assert_eq!(DocumentedErrorCode::Unknown.message(), "Unknown error");
    assert_eq!(
        DocumentedErrorCode::Key.message(),
        "Authorization error, wrong key"
    );
    assert_eq!(
        DocumentedErrorCode::Ip.message(),
        "The API was accessed from an incorrect IP (if the restriction is enabled), or an incorrect IP address format"
    );
    assert_eq!(DocumentedErrorCode::Method.message(), "Wrong method");
    assert_eq!(
        DocumentedErrorCode::Count.message(),
        "Wrong proxies quantity, wrong amount or no quantity input"
    );
    assert_eq!(
        DocumentedErrorCode::Period.message(),
        "Period error, wrong period input (days) or no input"
    );
    assert_eq!(
        DocumentedErrorCode::Country.message(),
        "Country error, wrong country input (iso2 for country input) or no input"
    );
    assert_eq!(
        DocumentedErrorCode::Ids.message(),
        "Error of the list of the proxy numbers. Proxy numbers have to divided with comas"
    );
    assert_eq!(
        DocumentedErrorCode::Version.message(),
        "The proxy version is specified incorrectly"
    );
    assert_eq!(
        DocumentedErrorCode::Description.message(),
        "Technical description error"
    );
    assert_eq!(
        DocumentedErrorCode::Type.message(),
        "Proxy type (protocol) error. Incorrect or missing"
    );
    assert_eq!(
        DocumentedErrorCode::Port.message(),
        "Proxy port error, incorrectly specified or missing"
    );
    assert_eq!(
        DocumentedErrorCode::ProxyString.message(),
        "Proxy string error for the check method, incorrectly specified"
    );
    assert_eq!(
        DocumentedErrorCode::ActiveProxyAllow.message(),
        "Proxy amount error. Appears after attempt of purchase of more proxies than available on the service"
    );
    assert_eq!(
        DocumentedErrorCode::NoMoney.message(),
        "Balance error. Zero or low balance on your account"
    );
    assert_eq!(
        DocumentedErrorCode::NotFound.message(),
        "Element error. The requested item was not found"
    );
    assert_eq!(
        DocumentedErrorCode::Price.message(),
        "Error calculating the cost. The total cost is less than or equal to zero"
    );
}

#[test]
fn test_documented_error_code_clone() {
    let err1 = DocumentedErrorCode::Key;
    let err2 = err1.clone();
    assert_eq!(err1, err2);
}

#[test]
fn build_error_messages_name_the_violated_constraint() {
    assert_eq!(
        BuildError::ProxyPeriodTooLow.message(),
        "Proxy period must be greater than zero"
    );
    assert_eq!(
        BuildError::CountryMustBeIso2.message(),
        "Country must be ISO2 format"
    );
    assert_eq!(
        BuildError::PageLimitTooLow.message(),
        "Page limit must be greater than zero"
    );
    assert_eq!(
        BuildError::PageLimitTooHigh.message(),
        "Page limit must be less than or equal to 1000"
    );
    assert_eq!(
        BuildError::ProxyDescriptionTooLong.message(),
        "Proxy description must be less than or equal to 50 symbols"
    );
    assert_eq!(
        BuildError::ProxyStringIncorrectFormat.message(),
        "Proxy string format must be `ip:port:user:pass`, user and password must be non-empty"
    );
}

#[test]
fn client_build_error_message_names_the_missing_key() {
    assert_eq!(
        ClientBuildError::ApiKeyMustBeSet.message(),
        "API key must be set"
    );
}

#[test]
fn decode_error_messages_state_the_expectation() {
    assert_eq!(
        DecodeError::NumberOrNumericString.message(),
        "number or string parsed to number"
    );
    assert_eq!(DecodeError::NumberOrString.message(), "a number or string");
    assert_eq!(DecodeError::StatusString.message(), "string 0 or 1");
}

use curto::config::{parse_host, AppConfig};
use curto::error::{Error, ErrorResponse};

#[test]
fn error_messages_and_statuses() {
    let cases = [
        (Error::LinkNotFound("bmdkw".into()), "A link with the provided ID 'bmdkw' could not be found", 404),
        (Error::LinkIdNotUnique("taken".into()), "The provided custom link ID is already in use: taken", 422),
        (Error::LinkIdNotValid("abc-xyz".into()), "The provided custom link ID is not valid: abc-xyz", 422),
        (Error::MalformedURL("bad".into()), "Malformed URL: bad", 422),
        (Error::URLWithoutHost("/path/to/file".into()), "Only URLs with valid hosts are accepted: /path/to/file", 422),
        (Error::URLWithMatchingHosts("localhost".into()), "URLs with the same host as this service are forbidden: localhost", 422),
        (Error::RouteNotFound, "Route not found", 404),
        (Error::InvalidRequest("no body".into()), "Invalid request: no body", 400),
        (Error::Internal("db down".into()), "Something went wrong", 500),
    ];
    for (error, message, status) in cases {
        assert_eq!(error.message(), message);
        assert_eq!(error.status_code(), status);
        assert_eq!(ErrorResponse::from(error).message, message);
    }
    assert_eq!(ErrorResponse::new("hi".to_string()).message, "hi");
}

#[test]
fn app_config_defaults() {
    let config = AppConfig::default();
    assert_eq!(config.host, [0, 0, 0, 0]);
    assert_eq!(config.port, 7229);
    assert!(config.shouldratelimit);
}

#[test]
fn host_text_is_read_as_four_bytes() {
    assert_eq!(parse_host("0.0.0.0"), Ok([0, 0, 0, 0]));
    assert_eq!(parse_host("127.0.0.1"), Ok([127, 0, 0, 1]));
    assert_eq!(parse_host("255.+1.10.9"), Ok([255, 1, 10, 9]));
    let format_error = "Invalid host -> value needs to be provided in the format '0.0.0.0', with 4 period-separated numbers between 0 and 255.";
    assert_eq!(parse_host("1.2.3"), Err(format_error.to_string()));
    assert_eq!(parse_host("1.2.3.4.5"), Err(format_error.to_string()));
    assert_eq!(parse_host(""), Err(format_error.to_string()));
    let number_error = "Invalid host -> error parsing one of the period-separated numbers for the host - ensure all values are within 0-255.\nError encountered: ";
    assert_eq!(
        parse_host("1.256.3.4"),
        Err(format!("{number_error}number too large to fit in target type"))
    );
    assert_eq!(
        parse_host("1..3.4"),
        Err(format!("{number_error}cannot parse integer from empty string"))
    );
    assert_eq!(
        parse_host("1.a.3.4"),
        Err(format!("{number_error}invalid digit found in string"))
    );
}

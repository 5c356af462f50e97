use loadgen::address::validate_address;
use loadgen::errors::LoadGenError;

fn invalid_port(address: &str) -> Option<String> {
    match validate_address(address) {
        Err(LoadGenError::InvalidPortError(p)) => Some(p),
        _ => None,
    }
}

#[test]
fn valid_addresses_pass() {
    assert!(validate_address("nghttp2.org:80").is_ok());
    assert!(validate_address("localhost:8080").is_ok());
    assert!(validate_address("h:+80").is_ok());
    assert!(validate_address("h:4294967295").is_ok());
    assert!(validate_address("h:80:extra").is_ok());
}

#[test]
fn non_numeric_port_is_rejected() {
    assert_eq!(invalid_port("localhost:http"), Some("http".to_string()));
    assert_eq!(invalid_port("localhost:-1"), Some("-1".to_string()));
    assert_eq!(invalid_port("localhost:+"), Some("+".to_string()));
    assert_eq!(invalid_port("localhost: 80"), Some(" 80".to_string()));
}

#[test]
fn port_too_large_is_rejected() {
    assert_eq!(invalid_port("h:4294967296"), Some("4294967296".to_string()));
}

#[test]
fn missing_port_is_rejected() {
    assert_eq!(invalid_port("localhost"), Some(String::new()));
    assert_eq!(invalid_port("localhost:"), Some(String::new()));
    assert_eq!(invalid_port("h::80"), Some(String::new()));
}

#[test]
fn error_messages() {
    let e = LoadGenError::InvalidPortError("abc".to_string());
    assert_eq!(e.message(), "[LoadGeneratorError]: abc is an invalid port!");
    assert_eq!(
        LoadGenError::NoResultsError.message(),
        "[LoadGeneratorError]: No results are available! Connection issue for full duration of tests."
    );
    assert_eq!(
        LoadGenError::ZeroRateError.message(),
        "[LoadGeneratorError]: A rate of 0 requests per second is not allowed!"
    );
}

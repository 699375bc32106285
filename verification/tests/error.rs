use api_helper::error::{ApiError, TlsFile, TrustSource};

#[test]
fn read_failures_name_the_file() {
    let detail = "No such file or directory (os error 2)".to_string();
    assert_eq!(
        ApiError::IOError { file: TlsFile::Certificate, detail: detail.clone() }.message(),
        "Failed to read certificate: No such file or directory (os error 2)"
    );
    assert_eq!(
        ApiError::IOError { file: TlsFile::PrivateKey, detail: detail.clone() }.message(),
        "Failed to read private key: No such file or directory (os error 2)"
    );
    assert_eq!(
        ApiError::IOError { file: TlsFile::CaCertificate, detail }.message(),
        "Failed to read CA certificate: No such file or directory (os error 2)"
    );
}

#[test]
fn parse_failures_name_the_file() {
    assert_eq!(
        ApiError::CertParseError { source: TrustSource::Certificate, detail: "builder error".to_string() }
            .message(),
        "Failed to create certificate: builder error"
    );
    assert_eq!(
        ApiError::CertParseError {
            source: TrustSource::CaCertificate,
            detail: "builder error".to_string()
        }
        .message(),
        "Failed to parse CA certificate: builder error"
    );
}

#[test]
fn build_failure_message() {
    assert_eq!(
        ApiError::ClientBuildError { detail: "builder error".to_string() }.message(),
        "Failed to build HTTP client: builder error"
    );
}

#[test]
fn header_and_method_failure_messages() {
    assert_eq!(ApiError::InvalidHeaderName.message(), "Invalid header name: invalid HTTP header name");
    assert_eq!(
        ApiError::InvalidHeaderValue.message(),
        "Invalid header value: failed to parse header value"
    );
    assert_eq!(ApiError::InvalidMethod.message(), "Invalid HTTP method: invalid HTTP method");
}

#[test]
fn header_and_method_failure_messages_are_those_of_the_protocol_library() {
    let name = reqwest::header::HeaderName::from_bytes(b"bad name").unwrap_err();
    assert_eq!(ApiError::InvalidHeaderName.message(), format!("Invalid header name: {}", name));
    let value = reqwest::header::HeaderValue::from_str("a\nb").unwrap_err();
    assert_eq!(ApiError::InvalidHeaderValue.message(), format!("Invalid header value: {}", value));
    let method = reqwest::Method::from_bytes(b"").unwrap_err();
    assert_eq!(ApiError::InvalidMethod.message(), format!("Invalid HTTP method: {}", method));
}

#[test]
fn send_and_body_failure_messages() {
    assert_eq!(
        ApiError::RequestError { detail: "error sending request".to_string() }.message(),
        "Request failed: error sending request"
    );
    assert_eq!(
        ApiError::BodyReadError { detail: "error decoding response body".to_string() }.message(),
        "Failed to read response body: error decoding response body"
    );
}

#[test]
fn empty_detail_leaves_the_stage() {
    assert_eq!(ApiError::RequestError { detail: String::new() }.message(), "Request failed: ");
}

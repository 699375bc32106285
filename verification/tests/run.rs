use api_helper::dispatch::{client_built, prepare, ClientRef, Outline};
use api_helper::error::{ApiError, TlsFile, TrustSource};
use api_helper::handlers::{resume, send_request, settle, Action};
use api_helper::headers::HeaderList;
use api_helper::method::Verb;
use api_helper::trust::{FileContents, PendingFile, Step, TrustRun};
use api_helper::types::{ApiState, RequestConfig};

const CERTIFICATE: &str = "-----BEGIN CERTIFICATE-----
MIIBizCCATGgAwIBAgIUSMW/+o1Tbj1HKY1KhW8inno1KhgwCgYIKoZIzj0EAwIw
GjEYMBYGA1UEAwwPYXBpLWhlbHBlci10ZXN0MCAXDTI2MTAyODIxNDgzNFoYDzIx
MjYxMDA0MjE0ODM0WjAaMRgwFgYDVQQDDA9hcGktaGVscGVyLXRlc3QwWTATBgcq
hkjOPQIBBggqhkjOPQMBBwNCAAQfKdeA1T0LrXbXcN/emEWw2OIVwV3FtM5EE7jx
h36tgT/csEuCtYZU0NKGa2scIvlpGcWNTedkdKIkVk7MuVD6o1MwUTAdBgNVHQ4E
FgQUlx3uNnizA9uugWIgAv7zAn90bRQwHwYDVR0jBBgwFoAUlx3uNnizA9uugWIg
Av7zAn90bRQwDwYDVR0TAQH/BAUwAwEB/zAKBggqhkjOPQQDAgNIADBFAiEA1u1O
1DVwAUOOjOqmhHSpohns0erXO9EfqAMB3ed4cNgCIHsTEh9LHkqYAYRxgX0UYq7O
vJIQHmkOhu/GiuyZ+ODA
-----END CERTIFICATE-----
";

const CA_CERTIFICATE: &str = "-----BEGIN CERTIFICATE-----
MIIBkTCCATegAwIBAgIUbsNp+aLmfEHX5/vSDfcwr2FOkpgwCgYIKoZIzj0EAwIw
HTEbMBkGA1UEAwwSYXBpLWhlbHBlci10ZXN0LWNhMCAXDTI2MTAyODIxNDgzNFoY
DzIxMjYxMDA0MjE0ODM0WjAdMRswGQYDVQQDDBJhcGktaGVscGVyLXRlc3QtY2Ew
WTATBgcqhkjOPQIBBggqhkjOPQMBBwNCAAQOGibcFK69aG8weD3li2ZP9YKSwolm
//0VwjCCyy4qW4FcLWJAb3IViPvkXAmPGKX6n79FAOpviYQfkxA7a22Do1MwUTAd
BgNVHQ4EFgQUjF80ZrGoRXBEKROOZB/9J7XfdlUwHwYDVR0jBBgwFoAUjF80ZrGo
RXBEKROOZB/9J7XfdlUwDwYDVR0TAQH/BAUwAwEB/zAKBggqhkjOPQQDAgNIADBF
AiATA9bBU38fk/RoPbgug3RJg7u3EcagZyRdHbUsof4jFQIhAIFPkFtstnpLkTBi
KICq71KQmPA9Hh7Ix0F1WIIjc5Pl
-----END CERTIFICATE-----
";

fn file(bytes: &[u8]) -> FileContents {
    FileContents::new(bytes.to_vec()).unwrap()
}

fn config(method: &str, headers: &[(&str, &str)], body: Option<&str>) -> RequestConfig {
    RequestConfig {
        method: method.to_string(),
        url: "http://localhost:8080/echo".to_string(),
        headers: HeaderList::new(
            headers.iter().map(|(name, value)| (name.to_string(), value.to_string())).collect(),
        )
        .unwrap(),
        body: body.map(|text| text.to_string()),
        cert_path: None,
        key_path: None,
        ca_path: None,
        skip_verification: None,
    }
}

fn outline(method: &str, headers: &[(&str, &str)]) -> Outline {
    Outline {
        method: method.to_string(),
        url: "http://localhost:8080/echo".to_string(),
        headers: HeaderList::new(
            headers.iter().map(|(name, value)| (name.to_string(), value.to_string())).collect(),
        )
        .unwrap(),
        body: None,
    }
}

fn run(ca_path: Option<&str>, skip_verification: Option<bool>, request: Outline) -> TrustRun {
    TrustRun {
        builder: reqwest::ClientBuilder::new(),
        ca_path: ca_path.map(|path| path.to_string()),
        skip_verification,
        request,
    }
}

fn header(ready: &api_helper::dispatch::PreparedRequest<'_>, name: &str) -> Option<String> {
    ready.headers.get(name).map(|value| value.to_str().unwrap().to_string())
}

#[test]
fn shared_state_is_built() {
    assert!(ApiState::new().is_ok());
}

#[test]
fn plain_request_is_sent_by_the_shared_client() {
    let state = ApiState::new().unwrap();
    let action = send_request(&state, config("POST", &[("X-Test", "value1")], Some("hello world")));
    match action {
        Action::Send(ready) => {
            assert!(matches!(ready.client, ClientRef::Shared(_)));
            assert_eq!(ready.method, Verb::Post);
            assert_eq!(ready.url, "http://localhost:8080/echo");
            assert_eq!(ready.body, Some("hello world".to_string()));
            assert_eq!(ready.headers.len(), 1);
            assert_eq!(header(&ready, "x-test"), Some("value1".to_string()));
        }
        _ => panic!("the request is sent"),
    }
}

#[test]
fn request_without_body_has_none() {
    let state = ApiState::new().unwrap();
    match send_request(&state, config("GET", &[], None)) {
        Action::Send(ready) => {
            assert_eq!(ready.method, Verb::Get);
            assert_eq!(ready.body, None);
            assert!(ready.headers.is_empty());
        }
        _ => panic!("the request is sent"),
    }
}

#[test]
fn invalid_header_name_is_not_sent() {
    let state = ApiState::new().unwrap();
    match send_request(&state, config("GET", &[("bad name", "v")], None)) {
        Action::Fail(fault) => assert_eq!(fault, ApiError::InvalidHeaderName),
        _ => panic!("the request fails"),
    }
}

#[test]
fn invalid_header_value_is_not_sent() {
    let state = ApiState::new().unwrap();
    match send_request(&state, config("GET", &[("name", "a\rb")], None)) {
        Action::Fail(fault) => assert_eq!(fault, ApiError::InvalidHeaderValue),
        _ => panic!("the request fails"),
    }
}

#[test]
fn invalid_method_is_not_sent() {
    let state = ApiState::new().unwrap();
    match send_request(&state, config("FOOBAR!", &[("X-Test", "value1")], None)) {
        Action::Fail(fault) => assert_eq!(fault, ApiError::InvalidMethod),
        _ => panic!("the request fails"),
    }
}

#[test]
fn header_fault_comes_before_method_fault() {
    let state = ApiState::new().unwrap();
    match send_request(&state, config("FOOBAR!", &[("bad name", "v")], None)) {
        Action::Fail(fault) => assert_eq!(fault, ApiError::InvalidHeaderName),
        _ => panic!("the request fails"),
    }
}

#[test]
fn same_request_twice_gives_the_same() {
    let state = ApiState::new().unwrap();
    let request = || config("PUT", &[("X-Test", "value1"), ("Accept", "*/*")], Some("hello world"));
    assert_eq!(request(), request());
    let first = send_request(&state, request());
    let second = send_request(&state, request());
    match (first, second) {
        (Action::Send(one), Action::Send(other)) => {
            assert_eq!(one.method, other.method);
            assert_eq!(one.url, other.url);
            assert_eq!(one.body, other.body);
            assert_eq!(one.headers, other.headers);
            assert_eq!(one.headers.len(), 2);
        }
        _ => panic!("both requests are sent"),
    }
}

#[test]
fn certificate_with_key_is_read_first_and_the_key_next() {
    let state = ApiState::new().unwrap();
    let mut request = config("GET", &[], None);
    request.cert_path = Some("client.pem".to_string());
    request.key_path = Some("client.key".to_string());
    request.ca_path = Some("ca.pem".to_string());
    let then = match send_request(&state, request) {
        Action::ReadFile { path, then } => {
            assert_eq!(path, "client.pem");
            then
        }
        _ => panic!("the certificate is read"),
    };
    let then = match resume(then, Ok(file(CERTIFICATE.as_bytes()))) {
        Action::ReadFile { path, then } => {
            assert_eq!(path, "client.key");
            assert!(matches!(then, PendingFile::PrivateKey { .. }));
            then
        }
        _ => panic!("the key is read"),
    };
    let then = match resume(then, Ok(file(b"not a key"))) {
        Action::ReadFile { path, then } => {
            assert_eq!(path, "ca.pem");
            assert!(matches!(then, PendingFile::CaCertificate { .. }));
            then
        }
        _ => panic!("the CA certificate is read"),
    };
    match resume(then, Ok(file(CA_CERTIFICATE.as_bytes()))) {
        Action::Send(ready) => {
            assert!(matches!(ready.client, ClientRef::Fresh(_)));
            assert_eq!(ready.method, Verb::Get);
        }
        _ => panic!("the request is sent"),
    }
}

#[test]
fn certificate_without_key_is_not_read() {
    let state = ApiState::new().unwrap();
    let mut request = config("GET", &[], None);
    request.cert_path = Some("client.pem".to_string());
    match send_request(&state, request) {
        Action::Send(ready) => assert!(matches!(ready.client, ClientRef::Fresh(_))),
        _ => panic!("the request is sent"),
    }
}

#[test]
fn key_without_certificate_is_not_read() {
    let state = ApiState::new().unwrap();
    let mut request = config("GET", &[], None);
    request.key_path = Some("client.key".to_string());
    request.ca_path = Some("ca.pem".to_string());
    match send_request(&state, request) {
        Action::ReadFile { path, then } => {
            assert_eq!(path, "ca.pem");
            assert!(matches!(then, PendingFile::CaCertificate { .. }));
        }
        _ => panic!("the CA certificate is read"),
    }
}

#[test]
fn skipping_verification_takes_a_client_of_its_own() {
    let state = ApiState::new().unwrap();
    let mut request = config("GET", &[], None);
    request.skip_verification = Some(true);
    match send_request(&state, request) {
        Action::Send(ready) => assert!(matches!(ready.client, ClientRef::Fresh(_))),
        _ => panic!("the request is sent"),
    }
}

#[test]
fn missing_ca_file_is_an_io_error() {
    let state = ApiState::new().unwrap();
    let mut request = config("GET", &[], None);
    request.ca_path = Some("/nonexistent/ca.pem".to_string());
    let then = match send_request(&state, request) {
        Action::ReadFile { path, then } => {
            assert_eq!(path, "/nonexistent/ca.pem");
            then
        }
        _ => panic!("the CA certificate is read"),
    };
    match resume(then, Err("No such file or directory (os error 2)".to_string())) {
        Action::Fail(fault) => assert_eq!(
            fault,
            ApiError::IOError {
                file: TlsFile::CaCertificate,
                detail: "No such file or directory (os error 2)".to_string()
            }
        ),
        _ => panic!("the request fails"),
    }
}

#[test]
fn unreadable_certificate_and_key_are_io_errors() {
    let pending = PendingFile::Certificate {
        key_path: "client.key".to_string(),
        run: run(None, None, outline("GET", &[])),
    };
    match resume(pending, Err("denied".to_string())) {
        Action::Fail(fault) => assert_eq!(
            fault,
            ApiError::IOError { file: TlsFile::Certificate, detail: "denied".to_string() }
        ),
        _ => panic!("the request fails"),
    }
    let pending = PendingFile::PrivateKey {
        certificate: file(CERTIFICATE.as_bytes()),
        run: run(None, None, outline("GET", &[])),
    };
    match resume(pending, Err("denied".to_string())) {
        Action::Fail(fault) => assert_eq!(
            fault,
            ApiError::IOError { file: TlsFile::PrivateKey, detail: "denied".to_string() }
        ),
        _ => panic!("the request fails"),
    }
}

#[test]
fn malformed_certificate_is_a_parse_error() {
    let pending = PendingFile::PrivateKey {
        certificate: file(b"not a certificate"),
        run: run(Some("ca.pem"), None, outline("GET", &[])),
    };
    match resume(pending, Ok(file(b"key"))) {
        Action::Fail(ApiError::CertParseError { source, detail }) => {
            assert_eq!(source, TrustSource::Certificate);
            assert!(!detail.is_empty());
        }
        _ => panic!("the request fails"),
    }
}

#[test]
fn malformed_ca_certificate_is_a_parse_error() {
    let pending = PendingFile::CaCertificate { run: run(None, None, outline("GET", &[])) };
    match resume(pending, Ok(file(b"-----BEGIN CERTIFICATE-----\nAAAA\n-----END CERTIFICATE-----\n"))) {
        Action::Fail(ApiError::CertParseError { source, .. }) => {
            assert_eq!(source, TrustSource::CaCertificate)
        }
        _ => panic!("the request fails"),
    }
}

#[test]
fn parse_error_comes_before_header_fault() {
    let pending = PendingFile::CaCertificate {
        run: run(None, None, outline("FOOBAR!", &[("bad name", "v")])),
    };
    match resume(pending, Ok(file(b"not a certificate"))) {
        Action::Fail(ApiError::CertParseError { source, .. }) => {
            assert_eq!(source, TrustSource::CaCertificate)
        }
        _ => panic!("the request fails"),
    }
}

#[test]
fn header_fault_ends_the_run_after_the_files() {
    let pending = PendingFile::CaCertificate {
        run: run(None, Some(true), outline("GET", &[("bad name", "v")])),
    };
    match resume(pending, Ok(file(CA_CERTIFICATE.as_bytes()))) {
        Action::Fail(fault) => assert_eq!(fault, ApiError::InvalidHeaderName),
        _ => panic!("the request fails"),
    }
}

#[test]
fn supply_hands_the_certificate_on_to_be_parsed() {
    let pending = PendingFile::PrivateKey {
        certificate: file(b"certificate bytes"),
        run: run(None, None, outline("GET", &[])),
    };
    match pending.supply(Ok(file(b"key bytes"))) {
        Step::Parse { pem, source, .. } => {
            assert_eq!(pem.bytes(), &b"certificate bytes".to_vec());
            assert_eq!(source, TrustSource::Certificate);
        }
        _ => panic!("the certificate is parsed"),
    }
    let pending = PendingFile::CaCertificate { run: run(None, None, outline("GET", &[])) };
    match pending.supply(Ok(file(b"ca bytes"))) {
        Step::Parse { pem, source, .. } => {
            assert_eq!(pem.bytes(), &b"ca bytes".to_vec());
            assert_eq!(source, TrustSource::CaCertificate);
        }
        _ => panic!("the CA certificate is parsed"),
    }
}

#[test]
fn trust_of_an_unparsed_certificate_fails() {
    let step = run(Some("ca.pem"), None, outline("GET", &[]))
        .trust(TrustSource::Certificate, Err("builder error".to_string()));
    match step {
        Step::Fail(fault) => assert_eq!(
            fault,
            ApiError::CertParseError {
                source: TrustSource::Certificate,
                detail: "builder error".to_string()
            }
        ),
        _ => panic!("the run fails"),
    }
}

#[test]
fn trust_of_a_parsed_certificate_goes_on() {
    let certificate = reqwest::Certificate::from_pem(CERTIFICATE.as_bytes()).unwrap();
    match run(Some("ca.pem"), Some(true), outline("GET", &[]))
        .trust(TrustSource::Certificate, Ok(certificate))
    {
        Step::ReadFile { path, then: PendingFile::CaCertificate { run } } => {
            assert_eq!(path, "ca.pem");
            assert_eq!(run.ca_path, None);
            assert_eq!(run.skip_verification, Some(true));
            assert_eq!(run.request.method, "GET");
        }
        _ => panic!("the CA certificate is read"),
    }
    let certificate = reqwest::Certificate::from_pem(CERTIFICATE.as_bytes()).unwrap();
    match run(None, None, outline("GET", &[])).trust(TrustSource::CaCertificate, Ok(certificate)) {
        Step::Build { request, .. } => assert_eq!(request.url, "http://localhost:8080/echo"),
        _ => panic!("the client is built"),
    }
}

#[test]
fn proceed_reads_the_ca_certificate_or_builds() {
    match run(Some("ca.pem"), None, outline("GET", &[])).proceed() {
        Step::ReadFile { path, .. } => assert_eq!(path, "ca.pem"),
        _ => panic!("the CA certificate is read"),
    }
    match run(None, Some(false), outline("GET", &[])).proceed() {
        Step::Build { request, .. } => assert_eq!(request.method, "GET"),
        _ => panic!("the client is built"),
    }
}

#[test]
fn settle_hands_on_what_only_the_caller_can_do() {
    match settle(Step::Fail(ApiError::InvalidMethod)) {
        Action::Fail(fault) => assert_eq!(fault, ApiError::InvalidMethod),
        _ => panic!("the error is handed on"),
    }
    let then = PendingFile::CaCertificate { run: run(None, None, outline("GET", &[])) };
    match settle(Step::ReadFile { path: "ca.pem".to_string(), then }) {
        Action::ReadFile { path, .. } => assert_eq!(path, "ca.pem"),
        _ => panic!("the file is handed on"),
    }
}

#[test]
fn failed_build_is_a_build_error() {
    match client_built(Err("builder error".to_string()), outline("FOOBAR!", &[("bad name", "v")])) {
        Err(fault) => {
            assert_eq!(fault, ApiError::ClientBuildError { detail: "builder error".to_string() })
        }
        Ok(_) => panic!("the request fails"),
    }
}

#[test]
fn built_client_sends_the_request() {
    let client = reqwest::Client::new();
    match client_built(Ok(client), outline("DELETE", &[("X-Test", "value1")])) {
        Ok(ready) => {
            assert!(matches!(ready.client, ClientRef::Fresh(_)));
            assert_eq!(ready.method, Verb::Delete);
            assert_eq!(header(&ready, "x-test"), Some("value1".to_string()));
        }
        Err(_) => panic!("the request is prepared"),
    }
}

#[test]
fn prepare_reports_the_header_fault_first() {
    let client = reqwest::Client::new();
    match prepare(ClientRef::Shared(&client), outline("FOOBAR!", &[("ok", "v"), ("name", "\u{7f}")])) {
        Err(fault) => assert_eq!(fault, ApiError::InvalidHeaderValue),
        Ok(_) => panic!("the request fails"),
    }
    match prepare(ClientRef::Shared(&client), outline("FOOBAR!", &[("ok", "v")])) {
        Err(fault) => assert_eq!(fault, ApiError::InvalidMethod),
        Ok(_) => panic!("the request fails"),
    }
}

#[test]
fn file_contents_keep_their_bytes() {
    assert_eq!(file(b"abc").bytes(), &b"abc".to_vec());
    assert_eq!(file(b"").bytes(), &Vec::<u8>::new());
}

fn skips_verification(step: Step) -> bool {
    match step {
        Step::Build { builder, .. } => format!("{:?}", builder).contains("danger_accept_invalid_certs"),
        _ => panic!("the client is built"),
    }
}

#[test]
fn verification_is_skipped_only_on_request() {
    assert!(skips_verification(run(None, Some(true), outline("GET", &[])).proceed()));
    assert!(!skips_verification(run(None, Some(false), outline("GET", &[])).proceed()));
    assert!(!skips_verification(run(None, None, outline("GET", &[])).proceed()));
}

#[test]
fn verification_is_skipped_after_a_certificate_too() {
    let certificate = reqwest::Certificate::from_pem(CA_CERTIFICATE.as_bytes()).unwrap();
    let step = run(None, Some(true), outline("GET", &[]))
        .trust(TrustSource::CaCertificate, Ok(certificate));
    assert!(skips_verification(step));
    let certificate = reqwest::Certificate::from_pem(CA_CERTIFICATE.as_bytes()).unwrap();
    let step =
        run(None, None, outline("GET", &[])).trust(TrustSource::CaCertificate, Ok(certificate));
    assert!(!skips_verification(step));
}

#[test]
fn state_holds_the_client_that_was_built() {
    assert!(ApiState::of_build(Ok(reqwest::Client::new())).is_ok());
}

#[test]
fn state_of_a_failed_build_is_a_build_error() {
    let error = reqwest::Certificate::from_pem(b"not a certificate").unwrap_err();
    let words = error.to_string();
    assert!(!words.is_empty());
    match ApiState::of_build(Err(error)) {
        Err(fault) => assert_eq!(fault, ApiError::ClientBuildError { detail: words }),
        Ok(_) => panic!("the state is not made"),
    }
}

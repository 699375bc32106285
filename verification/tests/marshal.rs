use api_helper::error::ApiError;
use api_helper::headers::{translate_headers, HeaderList};
use api_helper::marshal::{marshal_headers, marshal_response, Received};
use api_helper::types::ResponseData;
use reqwest::header::{HeaderMap, HeaderName, HeaderValue};

fn received(status: u16, headers: HeaderMap, body: &str) -> Result<Received, String> {
    Ok(Received { status, headers, body: Ok(body.to_string()) })
}

fn pair(name: &str, value: &str) -> (String, String) {
    (name.to_string(), value.to_string())
}

#[test]
fn status_is_the_one_received() {
    for status in [200u16, 404, 500] {
        let response = marshal_response(received(status, HeaderMap::new(), "")).unwrap();
        assert_eq!(response, ResponseData { status, headers: Vec::new(), body: String::new() });
    }
}

#[test]
fn body_is_the_one_received() {
    let response = marshal_response(received(200, HeaderMap::new(), "hello world")).unwrap();
    assert_eq!(response.body, "hello world");
}

#[test]
fn headers_become_name_and_text() {
    let mut headers = HeaderMap::new();
    headers.insert("content-type", HeaderValue::from_static("text/plain"));
    headers.insert("x-test", HeaderValue::from_static("value1"));
    let response = marshal_response(received(200, headers, "")).unwrap();
    assert_eq!(response.headers, vec![pair("content-type", "text/plain"), pair("x-test", "value1")]);
}

#[test]
fn value_that_is_no_text_becomes_empty() {
    let mut headers = HeaderMap::new();
    headers.insert("x-bytes", HeaderValue::from_bytes(&[0xff, 0x41]).unwrap());
    headers.insert("x-utf8", HeaderValue::from_str("caf\u{e9}").unwrap());
    headers.insert("x-tab", HeaderValue::from_static("a\tb"));
    assert_eq!(
        marshal_headers(&headers),
        vec![pair("x-bytes", ""), pair("x-utf8", ""), pair("x-tab", "a\tb")]
    );
}

#[test]
fn empty_value_stays_empty() {
    let mut headers = HeaderMap::new();
    headers.insert("x-empty", HeaderValue::from_static(""));
    assert_eq!(marshal_headers(&headers), vec![pair("x-empty", "")]);
}

#[test]
fn repeated_header_keeps_its_last_value() {
    let mut headers = HeaderMap::new();
    headers.append("set-cookie", HeaderValue::from_static("a=1"));
    headers.append("server", HeaderValue::from_static("test"));
    headers.append("set-cookie", HeaderValue::from_static("b=2"));
    headers.append("set-cookie", HeaderValue::from_static("c=3"));
    assert_eq!(marshal_headers(&headers), vec![pair("set-cookie", "c=3"), pair("server", "test")]);
}

#[test]
fn repeated_header_whose_last_value_is_no_text_is_empty() {
    let mut headers = HeaderMap::new();
    headers.append("x-mixed", HeaderValue::from_static("text"));
    headers.append("x-mixed", HeaderValue::from_bytes(&[0x80]).unwrap());
    assert_eq!(marshal_headers(&headers), vec![pair("x-mixed", "")]);
}

#[test]
fn no_name_occurs_twice_in_a_response() {
    let mut headers = HeaderMap::new();
    for round in 0..3 {
        for name in ["a", "b", "c"] {
            headers.append(
                HeaderName::from_bytes(name.as_bytes()).unwrap(),
                HeaderValue::from_str(&format!("{}{}", name, round)).unwrap(),
            );
        }
    }
    let response = marshal_response(received(200, headers, "")).unwrap();
    assert_eq!(response.headers, vec![pair("a", "a2"), pair("b", "b2"), pair("c", "c2")]);
}

#[test]
fn failed_send_is_a_request_error() {
    assert_eq!(
        marshal_response(Err("error sending request".to_string())),
        Err(ApiError::RequestError { detail: "error sending request".to_string() })
    );
}

#[test]
fn unreadable_body_is_a_body_read_error() {
    let mut headers = HeaderMap::new();
    headers.insert("x-test", HeaderValue::from_static("value1"));
    let outcome =
        Ok(Received { status: 200, headers, body: Err("error decoding response body".to_string()) });
    assert_eq!(
        marshal_response(outcome),
        Err(ApiError::BodyReadError { detail: "error decoding response body".to_string() })
    );
}

#[test]
fn echoed_header_comes_back() {
    let sent = translate_headers(&HeaderList::new(vec![pair("X-Test", "value1")]).unwrap()).unwrap();
    let response = marshal_response(received(200, sent, "")).unwrap();
    assert!(response.headers.contains(&pair("x-test", "value1")));
}

#[test]
fn same_outcome_twice_gives_the_same_response() {
    let mut headers = HeaderMap::new();
    headers.insert("x-test", HeaderValue::from_static("value1"));
    let first = marshal_response(received(201, headers.clone(), "hello world"));
    let second = marshal_response(received(201, headers, "hello world"));
    assert_eq!(first, second);
    assert_eq!(
        first,
        Ok(ResponseData {
            status: 201,
            headers: vec![pair("x-test", "value1")],
            body: "hello world".to_string()
        })
    );
}

//! The request dispatcher: from the parts of a request and a client to the one
//! request that is sent.

use crate::error::ApiError;
use crate::header_specs::header_entries;
use crate::headers::{entry_fault, faultless, first_fault_at, translate_headers, translated, HeaderList};
use crate::method::{parse_method, recognized, Verb};
use reqwest::header::HeaderMap;
use reqwest::Client;
use vstd::prelude::*;

verus! {

/// The parts of a request that wait for a client.
#[derive(Debug)]
pub struct Outline {
    pub method: String,
    pub url: String,
    pub headers: HeaderList,
    pub body: Option<String>,
}

/// The client that sends a request: the one the application shares, or one
/// built for this request alone.
#[derive(Debug)]
pub enum ClientRef<'a> {
    Shared(&'a Client),
    Fresh(Client),
}

impl<'a> ClientRef<'a> {
    /// The client itself, shared or not.
    pub open spec fn client(self) -> Client {
        match self {
            ClientRef::Shared(client) => *client,
            ClientRef::Fresh(client) => client,
        }
    }
}

/// One request, ready to be sent: the body, where there is one, goes out as
/// raw text.
#[derive(Debug)]
pub struct PreparedRequest<'a> {
    pub client: ClientRef<'a>,
    pub method: Verb,
    pub url: String,
    pub headers: HeaderMap,
    pub body: Option<String>,
}

/// What preparing a request comes to. The headers are judged before the
/// method: the first header at fault decides the error, and an unrecognized
/// method is the error only of a request without one. A request without
/// either is handed on as it was stated, with the client it was given.
pub open spec fn prepared<'a>(
    client: ClientRef<'a>,
    method: Seq<char>,
    url: String,
    headers: Seq<(String, String)>,
    body: Option<String>,
    outcome: Result<PreparedRequest<'a>, ApiError>,
) -> bool {
    match outcome {
        Ok(ready) => {
            &&& faultless(headers)
            &&& recognized(method) == Some(ready.method)
            &&& header_entries(ready.headers) == translated(headers)
            &&& ready.client == client
            &&& ready.url == url
            &&& ready.body == body
        },
        Err(fault) => {
            ||| exists|at: int|
                first_fault_at(headers, at) && entry_fault(#[trigger] headers[at]) == Some(fault)
            ||| faultless(headers) && recognized(method) is None && fault
                == ApiError::InvalidMethod
        },
    }
}

/// What comes of a request once the attempt to build its client has ended: a
/// failed attempt is the error, whatever else is wrong with the request.
pub open spec fn client_built_to(
    built: Result<Client, String>,
    request: Outline,
    outcome: Result<PreparedRequest<'static>, ApiError>,
) -> bool {
    match built {
        Ok(client) => prepared(
            ClientRef::Fresh(client),
            request.method@,
            request.url,
            request.headers@,
            request.body,
            outcome,
        ),
        Err(detail) => outcome == Err::<PreparedRequest<'static>, ApiError>(
            ApiError::ClientBuildError { detail },
        ),
    }
}

/// Prepares the request for the client: translates the headers, then parses
/// the method.
pub fn prepare<'a>(client: ClientRef<'a>, request: Outline) -> (outcome: Result<
    PreparedRequest<'a>,
    ApiError,
>)
    ensures
        prepared(client, request.method@, request.url, request.headers@, request.body, outcome),
{
    let Outline { method, url, headers, body } = request;
    let headers = match translate_headers(&headers) {
        Ok(map) => map,
        Err(fault) => {
            return Err(fault);
        },
    };
    let method = match parse_method(method.as_str()) {
        Ok(verb) => verb,
        Err(fault) => {
            return Err(fault);
        },
    };
    Ok(PreparedRequest { client, method, url, headers, body })
}

/// Goes on with a request after the attempt to build its client.
pub fn client_built(built: Result<Client, String>, request: Outline) -> (outcome: Result<
    PreparedRequest<'static>,
    ApiError,
>)
    ensures
        client_built_to(built, request, outcome),
{
    match built {
        Ok(client) => prepare(ClientRef::Fresh(client), request),
        Err(detail) => Err(ApiError::ClientBuildError { detail }),
    }
}

} // verus!

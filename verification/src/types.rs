//! The request that comes in, the response that goes out, and the state that
//! outlives a request.

use crate::assoc::distinct_names;
use crate::error::{reported, reports, ApiError};
use crate::headers::HeaderList;
use crate::tls_specs::{client_accepts_invalid_certs, client_roots};
use reqwest::{Client, ClientBuilder};
use vstd::prelude::*;

verus! {

/// One request, as the caller states it.
#[derive(Debug, PartialEq, Eq)]
pub struct RequestConfig {
    pub method: String,
    pub url: String,
    pub headers: HeaderList,
    pub body: Option<String>,
    pub cert_path: Option<String>,
    pub key_path: Option<String>,
    pub ca_path: Option<String>,
    pub skip_verification: Option<bool>,
}

impl RequestConfig {
    /// The request brings a certificate: it is honored only together with a key.
    pub open spec fn presents_certificate(self) -> bool {
        self.cert_path is Some && self.key_path is Some
    }

    /// The request names an option of the TLS configuration.
    pub open spec fn names_tls_option(self) -> bool {
        ||| self.cert_path is Some
        ||| self.key_path is Some
        ||| self.ca_path is Some
        ||| self.skip_verification is Some
    }
}

/// The names and values of a header list, as text.
pub open spec fn header_texts(headers: Seq<(String, String)>) -> Seq<(Seq<char>, Seq<char>)> {
    Seq::new(headers.len(), |i: int| (headers[i].0@, headers[i].1@))
}

/// The response to one request.
#[derive(Clone, Debug, PartialEq, Eq)]
pub struct ResponseData {
    pub status: u16,
    pub headers: Vec<(String, String)>,
    pub body: String,
}

impl ResponseData {
    /// The headers of a response are a mapping: no name occurs twice.
    pub open spec fn well_formed(self) -> bool {
        distinct_names(header_texts(self.headers@))
    }
}

/// The client that lives as long as the application and serves every request
/// that names no TLS option.
#[derive(Debug)]
pub struct ApiState {
    pub client: Client,
}

impl ApiState {
    /// Builds the shared client from the default configuration. Whether the
    /// client can be built depends on the machine; where it cannot, that is
    /// the error.
    pub fn new() -> (made: Result<ApiState, ApiError>)
        ensures
            exists|built: Result<Client, reqwest::Error>| #[trigger] holds_built(built, made),
            made matches Ok(state) ==> state.has_default_settings(),
    {
        let built = ClientBuilder::new().build();
        let made = ApiState::of_build(built);
        assert(holds_built(built, made));
        made
    }

    /// The shared client is set as a builder is at first: no root was added,
    /// and certificates are verified.
    pub open spec fn has_default_settings(self) -> bool {
        client_roots(self.client).len() == 0 && !client_accepts_invalid_certs(self.client)
    }

    /// The state for what came of building the shared client.
    pub fn of_build(built: Result<Client, reqwest::Error>) -> (made: Result<ApiState, ApiError>)
        ensures
            holds_built(built, made),
    {
        match built {
            Ok(client) => Ok(ApiState { client }),
            Err(error) => Err(ApiError::ClientBuildError { detail: reported(error) }),
        }
    }
}

/// What the state is made of: it holds the client that was built, and where
/// none was, the error is `ClientBuildError` with what the build reported.
pub open spec fn holds_built(
    built: Result<Client, reqwest::Error>,
    made: Result<ApiState, ApiError>,
) -> bool {
    match built {
        Ok(client) => made == Ok::<ApiState, ApiError>(ApiState { client }),
        Err(error) => made matches Err(ApiError::ClientBuildError { detail }) && reports(
            error,
            detail,
        ),
    }
}

} // verus!

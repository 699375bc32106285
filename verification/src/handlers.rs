//! One request from beginning to end, as a run that its caller drives: the run
//! says what to do next, the caller does it and hands back what came of it.

use crate::dispatch::{
    client_built, client_built_to, prepare, prepared, ClientRef, Outline, PreparedRequest,
};
use crate::error::{reported, ApiError};
use crate::tls_specs::{
    accepts_invalid_certs, client_accepts_invalid_certs, client_roots, parsed_from, trusted_roots,
};
use crate::trust::{proceeds, supplied, trusts, FileContents, PendingFile, Step, TrustRun};
use crate::types::{ApiState, RequestConfig};
use reqwest::{Client, ClientBuilder};
use vstd::prelude::*;

verus! {

/// What the caller of a run does next.
#[derive(Debug)]
pub enum Action<'a> {
    /// Read the file at `path` and resume `then` with its contents, or with
    /// the reason why it could not be read.
    ReadFile { path: String, then: PendingFile },
    /// Send the request, read the whole response, and marshal it.
    Send(PreparedRequest<'a>),
    /// Return the error. Nothing was sent.
    Fail(ApiError),
}

/// The request or the error in which a run has ended, if it has.
pub open spec fn ending<'a>(action: Action<'a>) -> Option<Result<PreparedRequest<'a>, ApiError>> {
    match action {
        Action::ReadFile { .. } => None,
        Action::Send(ready) => Some(Ok(ready)),
        Action::Fail(fault) => Some(Err(fault)),
    }
}

/// A client that was built is set as its builder was: it trusts the roots
/// that the builder was given, and accepts invalid certificates where the
/// builder was set to.
pub open spec fn built_from(builder: ClientBuilder, built: Result<Client, String>) -> bool {
    built matches Ok(client) ==> client_roots(client) == trusted_roots(builder)
        && client_accepts_invalid_certs(client) == accepts_invalid_certs(builder)
}

/// A certificate that was parsed was parsed from these bytes.
pub open spec fn parsed_of(pem: Seq<u8>, parsed: Result<reqwest::Certificate, String>) -> bool {
    parsed matches Ok(certificate) ==> parsed_from(certificate) == pem
}

/// What a step that parses nothing comes to: a file to read and an error are
/// handed on as they are; the step's builder is built, and the request
/// prepared for the client that was built from it.
pub open spec fn concludes(step: Step, action: Action<'static>) -> bool {
    match step {
        Step::ReadFile { path, then } => action == Action::ReadFile { path, then },
        Step::Fail(fault) => action == Action::Fail(fault),
        Step::Build { builder, request } => ending(action) is Some && exists|
            built: Result<Client, String>,
        |
            built_from(builder, built) && #[trigger] client_built_to(
                built,
                request,
                ending(action)->0,
            ),
        Step::Parse { .. } => false,
    }
}

/// What a step comes to: the next thing that only the caller can do. The
/// step's bytes are parsed as a certificate first, and the run goes on from
/// what came of that.
pub open spec fn settles(step: Step, action: Action<'static>) -> bool {
    match step {
        Step::Parse { pem, source, run } => exists|
            parsed: Result<reqwest::Certificate, String>,
            next: Step,
        |
            parsed_of(pem@, parsed) && #[trigger] trusts(run, source, parsed, next) && concludes(
                next,
                action,
            ),
        _ => concludes(step, action),
    }
}

/// The parts of the request are those that the caller stated.
pub open spec fn outlines(config: RequestConfig, request: Outline) -> bool {
    &&& request.method == config.method
    &&& request.url == config.url
    &&& request.headers == config.headers
    &&& request.body == config.body
}

/// The run starts from the default configuration and has the whole request
/// before it.
pub open spec fn starts(config: RequestConfig, run: TrustRun) -> bool {
    &&& trusted_roots(run.builder).len() == 0
    &&& !accepts_invalid_certs(run.builder)
    &&& run.ca_path == config.ca_path
    &&& run.skip_verification == config.skip_verification
    &&& outlines(config, run.request)
}

/// How a request begins.
///
/// A request that names no TLS option is prepared for the shared client at
/// once. A request with a certificate and a key has the certificate read
/// first. Any other request goes on as one whose own certificate is dealt
/// with: a certificate without a key is not read.
pub open spec fn begins<'a>(state: &'a ApiState, config: RequestConfig, action: Action<'a>) -> bool {
    if !config.names_tls_option() {
        ending(action) matches Some(outcome) && prepared(
            ClientRef::Shared(&state.client),
            config.method@,
            config.url,
            config.headers@,
            config.body,
            outcome,
        )
    } else if config.presents_certificate() {
        &&& action matches Action::ReadFile { path, then: PendingFile::Certificate { key_path, run } }
        &&& Some(path) == config.cert_path
        &&& Some(key_path) == config.key_path
        &&& starts(config, run)
    } else {
        exists|run: TrustRun, step: Step|
            starts(config, run) && #[trigger] proceeds(run, trusted_roots(run.builder), step)
                && settles(step, action)
    }
}

/// Ends a step that parses nothing: builds the client where that is the step.
fn conclude(step: Step) -> (action: Action<'static>)
    requires
        !(step is Parse),
    ensures
        concludes(step, action),
{
    match step {
        Step::ReadFile { path, then } => Action::ReadFile { path, then },
        Step::Fail(fault) => Action::Fail(fault),
        Step::Build { builder, request } => {
            let built = match builder.build() {
                Ok(client) => Ok(client),
                Err(error) => Err(reported(error)),
            };
            let outcome = client_built(built, request);
            let action = match outcome {
                Ok(ready) => Action::Send(ready),
                Err(fault) => Action::Fail(fault),
            };
            assert(built_from(builder, built) && client_built_to(
                built,
                request,
                ending(action)->0,
            ));
            action
        },
        Step::Parse { .. } => vstd::pervasive::unreached(),
    }
}

/// Takes a run as far as it goes without its caller: parses the certificate
/// and builds the client where that is the next step.
pub fn settle(step: Step) -> (action: Action<'static>)
    ensures
        settles(step, action),
{
    match step {
        Step::Parse { pem, source, run } => {
            let parsed = match reqwest::Certificate::from_pem(pem.bytes().as_slice()) {
                Ok(certificate) => Ok(certificate),
                Err(error) => Err(reported(error)),
            };
            let next = run.trust(source, parsed);
            let action = conclude(next);
            assert(parsed_of(pem@, parsed) && trusts(run, source, parsed, next));
            action
        },
        other => conclude(other),
    }
}

/// Begins a request, and says what its caller does first.
pub fn send_request<'a>(state: &'a ApiState, config: RequestConfig) -> (action: Action<'a>)
    ensures
        begins(state, config, action),
{
    let RequestConfig {
        method,
        url,
        headers,
        body,
        cert_path,
        key_path,
        ca_path,
        skip_verification,
    } = config;
    let request = Outline { method, url, headers, body };
    if cert_path.is_none() && key_path.is_none() && ca_path.is_none()
        && skip_verification.is_none() {
        return match prepare(ClientRef::Shared(&state.client), request) {
            Ok(ready) => Action::Send(ready),
            Err(fault) => Action::Fail(fault),
        };
    }
    let run = TrustRun { builder: ClientBuilder::new(), ca_path, skip_verification, request };
    match (cert_path, key_path) {
        (Some(path), Some(key_path)) => Action::ReadFile {
            path,
            then: PendingFile::Certificate { key_path, run },
        },
        _ => settle(run.proceed()),
    }
}

/// Resumes a run with the contents of the file that it asked for, or with the
/// reason why the file could not be read.
pub fn resume(then: PendingFile, contents: Result<FileContents, String>) -> (action: Action<
    'static,
>)
    ensures
        settles(supplied(then, contents), action),
{
    settle(then.supply(contents))
}

} // verus!

//! What this crate assumes of the client types of `reqwest`.
//!
//! Nothing in this file is proved. Each contract restates what the source of
//! `reqwest` shows of the function named.

use reqwest::{Client, ClientBuilder};
use vstd::prelude::*;

verus! {

/// `reqwest::Certificate`: a parsed certificate.
#[verifier::external_type_specification]
#[verifier::external_body]
pub struct ExCertificate(reqwest::Certificate);

/// `reqwest::ClientBuilder`: the configuration from which a client is built.
#[verifier::external_type_specification]
#[verifier::external_body]
pub struct ExClientBuilder(ClientBuilder);

/// `reqwest::Client`: a client that sends requests.
#[verifier::external_type_specification]
#[verifier::external_body]
pub struct ExClient(Client);

/// `reqwest::Error`: the error of building a client, parsing a certificate or
/// sending a request.
#[verifier::external_type_specification]
#[verifier::external_body]
pub struct ExError(reqwest::Error);

/// The longest input that the TLS backend takes to parse: it panics on more
/// bytes than a C `int` counts.
pub const MAX_PEM_LEN: usize = 0x7fff_ffff;

/// The root certificates that were added to the builder, in the order in which
/// they were added.
pub uninterp spec fn trusted_roots(builder: ClientBuilder) -> Seq<reqwest::Certificate>;

/// Whether the builder is set to accept server certificates that fail
/// verification.
pub uninterp spec fn accepts_invalid_certs(builder: ClientBuilder) -> bool;

/// The root certificates that the client trusts beside those of the system, in
/// the order in which its builder was given them.
pub uninterp spec fn client_roots(client: Client) -> Seq<reqwest::Certificate>;

/// Whether the client accepts server certificates that fail verification.
pub uninterp spec fn client_accepts_invalid_certs(client: Client) -> bool;

/// The bytes from which the certificate was parsed.
pub uninterp spec fn parsed_from(certificate: reqwest::Certificate) -> Seq<u8>;

/// `ClientBuilder::new` starts without added roots and with verification on.
pub assume_specification[ ClientBuilder::new ]() -> (builder: ClientBuilder)
    ensures
        trusted_roots(builder) == Seq::<reqwest::Certificate>::empty(),
        !accepts_invalid_certs(builder),
;

/// `ClientBuilder::add_root_certificate` adds the certificate after the roots
/// added before, and changes nothing else.
pub assume_specification[ ClientBuilder::add_root_certificate ](
    builder: ClientBuilder,
    cert: reqwest::Certificate,
) -> (next: ClientBuilder)
    ensures
        trusted_roots(next) == trusted_roots(builder).push(cert),
        accepts_invalid_certs(next) == accepts_invalid_certs(builder),
;

/// `ClientBuilder::danger_accept_invalid_certs` sets whether verification is
/// skipped, and changes nothing else.
pub assume_specification[ ClientBuilder::danger_accept_invalid_certs ](
    builder: ClientBuilder,
    accept_invalid_certs: bool,
) -> (next: ClientBuilder)
    ensures
        trusted_roots(next) == trusted_roots(builder),
        accepts_invalid_certs(next) == accept_invalid_certs,
;

/// `ClientBuilder::build` makes the client, or fails where the TLS backend
/// cannot be set up. Which of the two depends on the machine. A client that is
/// made trusts the roots that the builder was given, and verifies certificates
/// unless the builder was set not to.
pub assume_specification[ ClientBuilder::build ](builder: ClientBuilder) -> (built: Result<
    Client,
    reqwest::Error,
>)
    ensures
        built matches Ok(client) ==> client_roots(client) == trusted_roots(builder)
            && client_accepts_invalid_certs(client) == accepts_invalid_certs(builder),
;

/// `Certificate::from_pem` parses a PEM certificate with the TLS backend.
/// Whether it accepts the bytes is the backend's judgement; a certificate that
/// it gives is parsed from those bytes.
pub assume_specification[ reqwest::Certificate::from_pem ](pem: &[u8]) -> (parsed: Result<
    reqwest::Certificate,
    reqwest::Error,
>)
    requires
        pem@.len() <= MAX_PEM_LEN,
    ensures
        parsed matches Ok(certificate) ==> parsed_from(certificate) == pem@,
;

} // verus!

//! The closed set of failures of one request, and the message each one shows.

use vstd::prelude::*;
use vstd::string::StringExecFns;

verus! {

/// A file of trust material that a request may name.
#[derive(Clone, Copy, Debug, PartialEq, Eq, Structural)]
pub enum TlsFile {
    Certificate,
    PrivateKey,
    CaCertificate,
}

/// A file whose certificate is added to the trusted roots.
#[derive(Clone, Copy, Debug, PartialEq, Eq, Structural)]
pub enum TrustSource {
    Certificate,
    CaCertificate,
}

/// Why a request did not produce a response. Every failure ends the request;
/// `detail` is what the failing stage reported.
#[derive(Debug, PartialEq, Eq)]
pub enum ApiError {
    /// A file could not be read.
    IOError { file: TlsFile, detail: String },
    /// A file was read but holds no PEM certificate.
    CertParseError { source: TrustSource, detail: String },
    /// The client could not be built from the trust configuration.
    ClientBuildError { detail: String },
    /// A header name is outside the header-name syntax.
    InvalidHeaderName,
    /// A header value holds a byte that no header value may hold.
    InvalidHeaderValue,
    /// The method is not a recognized HTTP verb.
    InvalidMethod,
    /// Sending failed: network, DNS, TLS handshake or timeout.
    RequestError { detail: String },
    /// The response body could not be read or decoded.
    BodyReadError { detail: String },
}

/// The words in which the client library reports an error.
pub(crate) fn reported(error: reqwest::Error) -> (detail: String)
    ensures
        reports(error, detail),
{
    error.to_string()
}

/// The detail is the text that the error shows of itself.
pub open spec fn reports(error: reqwest::Error, detail: String) -> bool {
    vstd::string::to_string_from_display_ensures::<reqwest::Error>(&error, detail)
}

impl ApiError {
    /// The words that name the failing stage.
    pub open spec fn stage(self) -> Seq<char> {
        match self {
            ApiError::IOError { file: TlsFile::Certificate, .. } => "Failed to read certificate: "@,
            ApiError::IOError { file: TlsFile::PrivateKey, .. } => "Failed to read private key: "@,
            ApiError::IOError { file: TlsFile::CaCertificate, .. } => "Failed to read CA certificate: "@,
            ApiError::CertParseError { source: TrustSource::Certificate, .. } => "Failed to create certificate: "@,
            ApiError::CertParseError { source: TrustSource::CaCertificate, .. } => "Failed to parse CA certificate: "@,
            ApiError::ClientBuildError { .. } => "Failed to build HTTP client: "@,
            ApiError::InvalidHeaderName => "Invalid header name: "@,
            ApiError::InvalidHeaderValue => "Invalid header value: "@,
            ApiError::InvalidMethod => "Invalid HTTP method: "@,
            ApiError::RequestError { .. } => "Request failed: "@,
            ApiError::BodyReadError { .. } => "Failed to read response body: "@,
        }
    }

    /// What the failing stage reported.
    pub open spec fn detail(self) -> Seq<char> {
        match self {
            ApiError::IOError { detail, .. } => detail@,
            ApiError::CertParseError { detail, .. } => detail@,
            ApiError::ClientBuildError { detail } => detail@,
            ApiError::InvalidHeaderName => "invalid HTTP header name"@,
            ApiError::InvalidHeaderValue => "failed to parse header value"@,
            ApiError::InvalidMethod => "invalid HTTP method"@,
            ApiError::RequestError { detail } => detail@,
            ApiError::BodyReadError { detail } => detail@,
        }
    }

    /// The one message shown for this failure: the stage, then the detail.
    pub open spec fn message_text(self) -> Seq<char> {
        self.stage() + self.detail()
    }

    /// The message shown to the caller of the command.
    pub fn message(&self) -> (text: String)
        ensures
            text@ == self.message_text(),
    {
        match self {
            ApiError::IOError { file, detail } => {
                let stage = match file {
                    TlsFile::Certificate => "Failed to read certificate: ",
                    TlsFile::PrivateKey => "Failed to read private key: ",
                    TlsFile::CaCertificate => "Failed to read CA certificate: ",
                };
                String::from_str(stage).concat(detail.as_str())
            },
            ApiError::CertParseError { source, detail } => {
                let stage = match source {
                    TrustSource::Certificate => "Failed to create certificate: ",
                    TrustSource::CaCertificate => "Failed to parse CA certificate: ",
                };
                String::from_str(stage).concat(detail.as_str())
            },
            ApiError::ClientBuildError { detail } => {
                String::from_str("Failed to build HTTP client: ").concat(detail.as_str())
            },
            ApiError::InvalidHeaderName => {
                String::from_str("Invalid header name: ").concat("invalid HTTP header name")
            },
            ApiError::InvalidHeaderValue => {
                String::from_str("Invalid header value: ").concat("failed to parse header value")
            },
            ApiError::InvalidMethod => {
                String::from_str("Invalid HTTP method: ").concat("invalid HTTP method")
            },
            ApiError::RequestError { detail } => {
                String::from_str("Request failed: ").concat(detail.as_str())
            },
            ApiError::BodyReadError { detail } => {
                String::from_str("Failed to read response body: ").concat(detail.as_str())
            },
        }
    }
}

} // verus!

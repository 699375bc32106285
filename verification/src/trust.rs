//! The TLS trust builder: which files are read, in which order, and what each
//! of them adds to the configuration from which the client is built.

use crate::dispatch::Outline;
use crate::error::{ApiError, TlsFile, TrustSource};
use crate::tls_specs::{accepts_invalid_certs, trusted_roots, MAX_PEM_LEN};
use reqwest::ClientBuilder;
use vstd::prelude::*;

verus! {

/// What a file holds: bytes, and no more of them than the TLS backend takes
/// to parse.
#[derive(Debug)]
pub struct FileContents {
    bytes: Vec<u8>,
}

impl View for FileContents {
    type V = Seq<u8>;

    closed spec fn view(&self) -> Seq<u8> {
        self.bytes@
    }
}

impl FileContents {
    #[verifier::type_invariant]
    closed spec fn within_limit(self) -> bool {
        self.bytes@.len() <= MAX_PEM_LEN
    }

    /// Takes the bytes as the contents of a file, unless there are more than
    /// `MAX_PEM_LEN` of them.
    pub fn new(bytes: Vec<u8>) -> (made: Option<FileContents>)
        ensures
            match made {
                Some(contents) => contents@ == bytes@ && bytes@.len() <= MAX_PEM_LEN,
                None => bytes@.len() > MAX_PEM_LEN,
            },
    {
        if bytes.len() <= MAX_PEM_LEN {
            Some(FileContents { bytes })
        } else {
            None
        }
    }

    /// The bytes of the file.
    pub fn bytes(&self) -> (bytes: &Vec<u8>)
        ensures
            bytes@ == self@,
            bytes@.len() <= MAX_PEM_LEN,
    {
        proof {
            use_type_invariant(self);
        }
        &self.bytes
    }
}

/// A request on its way to a client: the configuration so far, what is still
/// to be added to it, and the parts of the request.
#[derive(Debug)]
pub struct TrustRun {
    pub builder: ClientBuilder,
    pub ca_path: Option<String>,
    pub skip_verification: Option<bool>,
    pub request: Outline,
}

/// A run that waits for the contents of a file.
#[derive(Debug)]
pub enum PendingFile {
    /// The certificate is being read; the key comes next.
    Certificate { key_path: String, run: TrustRun },
    /// The key is being read; the certificate has been.
    PrivateKey { certificate: FileContents, run: TrustRun },
    /// The CA certificate is being read.
    CaCertificate { run: TrustRun },
}

/// What the trust builder does next.
#[derive(Debug)]
pub enum Step {
    /// Read the file at `path` and hand its contents to `then`.
    ReadFile { path: String, then: PendingFile },
    /// Parse `pem` as a certificate and hand it to `run`.
    Parse { pem: FileContents, source: TrustSource, run: TrustRun },
    /// Build the client for `request`.
    Build { builder: ClientBuilder, request: Outline },
    /// Give up.
    Fail(ApiError),
}

/// Where a run goes once the file has been read, or could not be. The key is
/// read after the certificate and before the certificate is parsed; its
/// contents are not used.
pub open spec fn supplied(pending: PendingFile, contents: Result<FileContents, String>) -> Step {
    match (pending, contents) {
        (PendingFile::Certificate { key_path, run }, Ok(bytes)) => Step::ReadFile {
            path: key_path,
            then: PendingFile::PrivateKey { certificate: bytes, run },
        },
        (PendingFile::Certificate { .. }, Err(detail)) => Step::Fail(
            ApiError::IOError { file: TlsFile::Certificate, detail },
        ),
        (PendingFile::PrivateKey { certificate, run }, Ok(_)) => Step::Parse {
            pem: certificate,
            source: TrustSource::Certificate,
            run,
        },
        (PendingFile::PrivateKey { .. }, Err(detail)) => Step::Fail(
            ApiError::IOError { file: TlsFile::PrivateKey, detail },
        ),
        (PendingFile::CaCertificate { run }, Ok(bytes)) => Step::Parse {
            pem: bytes,
            source: TrustSource::CaCertificate,
            run,
        },
        (PendingFile::CaCertificate { .. }, Err(detail)) => Step::Fail(
            ApiError::IOError { file: TlsFile::CaCertificate, detail },
        ),
    }
}

/// Where a run whose builder trusts `roots` goes once the client's own
/// certificate is dealt with. With a CA path the CA certificate is read, and
/// the path is used up. Without one the client is built; the builder then
/// skips verification as the request says, and as it did before where the
/// request does not say.
pub open spec fn proceeds(run: TrustRun, roots: Seq<reqwest::Certificate>, step: Step) -> bool {
    match run.ca_path {
        Some(path) => {
            &&& step matches Step::ReadFile { path: asked, then: PendingFile::CaCertificate { run: next } }
            &&& asked == path
            &&& next.ca_path is None
            &&& next.skip_verification == run.skip_verification
            &&& next.request == run.request
            &&& trusted_roots(next.builder) == roots
            &&& accepts_invalid_certs(next.builder) == accepts_invalid_certs(run.builder)
        },
        None => {
            &&& step matches Step::Build { builder, request }
            &&& request == run.request
            &&& trusted_roots(builder) == roots
            &&& accepts_invalid_certs(builder) == match run.skip_verification {
                Some(skip) => skip,
                None => accepts_invalid_certs(run.builder),
            }
        },
    }
}

/// Where a run goes once the certificate has been parsed, or could not be: a
/// parsed certificate is added to the trusted roots, after those added before.
pub open spec fn trusts(
    run: TrustRun,
    source: TrustSource,
    parsed: Result<reqwest::Certificate, String>,
    step: Step,
) -> bool {
    match parsed {
        Ok(certificate) => proceeds(run, trusted_roots(run.builder).push(certificate), step),
        Err(detail) => step == Step::Fail(ApiError::CertParseError { source, detail }),
    }
}

impl TrustRun {
    /// Goes on once the client's own certificate is dealt with.
    pub fn proceed(self) -> (step: Step)
        ensures
            proceeds(self, trusted_roots(self.builder), step),
    {
        let TrustRun { builder, ca_path, skip_verification, request } = self;
        match ca_path {
            Some(path) => Step::ReadFile {
                path,
                then: PendingFile::CaCertificate {
                    run: TrustRun { builder, ca_path: None, skip_verification, request },
                },
            },
            None => {
                let builder = match skip_verification {
                    Some(skip) => builder.danger_accept_invalid_certs(skip),
                    None => builder,
                };
                Step::Build { builder, request }
            },
        }
    }

    /// Goes on once the certificate of `source` has been parsed, or could not be.
    pub fn trust(self, source: TrustSource, parsed: Result<reqwest::Certificate, String>) -> (step:
        Step)
        ensures
            trusts(self, source, parsed, step),
    {
        match parsed {
            Ok(certificate) => {
                let TrustRun { builder, ca_path, skip_verification, request } = self;
                let builder = builder.add_root_certificate(certificate);
                TrustRun { builder, ca_path, skip_verification, request }.proceed()
            },
            Err(detail) => Step::Fail(ApiError::CertParseError { source, detail }),
        }
    }
}

impl PendingFile {
    /// Goes on once the file has been read, or could not be.
    pub fn supply(self, contents: Result<FileContents, String>) -> (step: Step)
        ensures
            step == supplied(self, contents),
    {
        match self {
            PendingFile::Certificate { key_path, run } => match contents {
                Ok(bytes) => Step::ReadFile {
                    path: key_path,
                    then: PendingFile::PrivateKey { certificate: bytes, run },
                },
                Err(detail) => Step::Fail(ApiError::IOError { file: TlsFile::Certificate, detail }),
            },
            PendingFile::PrivateKey { certificate, run } => match contents {
                Ok(_) => Step::Parse { pem: certificate, source: TrustSource::Certificate, run },
                Err(detail) => Step::Fail(ApiError::IOError { file: TlsFile::PrivateKey, detail }),
            },
            PendingFile::CaCertificate { run } => match contents {
                Ok(bytes) => Step::Parse { pem: bytes, source: TrustSource::CaCertificate, run },
                Err(detail) => Step::Fail(
                    ApiError::IOError { file: TlsFile::CaCertificate, detail },
                ),
            },
        }
    }
}

} // verus!

//! What holds of every request, proved from the contracts of the stages.

use crate::assoc::{distinct_names, index_of, lemma_index_of_entry, lemma_put_lookup, lookup};
use crate::dispatch::{prepared, ClientRef, PreparedRequest};
use crate::error::{ApiError, TlsFile, TrustSource};
use crate::handlers::{begins, concludes, ending, parsed_of, settles, starts, Action};
use crate::header_specs::{header_entries, is_header_name, is_visible, normalized};
use crate::headers::{
    entry_fault, faultless, first_fault_at, lemma_translated_distinct, translated,
};
use crate::marshal::{collected, lemma_collected_distinct, marshalled, shown, Received};
use crate::method::recognized;
use crate::tls_specs::{
    accepts_invalid_certs, client_accepts_invalid_certs, client_roots, parsed_from, trusted_roots,
};
use crate::trust::{proceeds, supplied, trusts, FileContents, PendingFile, Step, TrustRun};
use crate::types::{header_texts, ApiState, RequestConfig, ResponseData};
use vstd::prelude::*;
use vstd::utf8::{encode_utf8, is_ascii_chars, is_ascii_chars_encode_utf8};

verus! {

/// There is one first header at fault, if any, and none in a list without fault.
pub proof fn lemma_first_fault_is_one(headers: Seq<(String, String)>, at: int)
    requires
        first_fault_at(headers, at),
    ensures
        !faultless(headers),
        forall|other: int| first_fault_at(headers, other) ==> other == at,
{
}

/// A request that names no TLS option, whose headers are all valid and whose
/// method is a verb, is sent: by the shared client, with that verb, to the URL
/// and with the body that were stated, under the translated headers.
pub proof fn lemma_plain_request_is_sent<'a>(
    state: &'a ApiState,
    config: RequestConfig,
    action: Action<'a>,
)
    requires
        !config.names_tls_option(),
        faultless(config.headers@),
        recognized(config.method@) is Some,
        begins(state, config, action),
    ensures
        action matches Action::Send(ready) && {
            &&& ready.client == ClientRef::Shared(&state.client)
            &&& Some(ready.method) == recognized(config.method@)
            &&& ready.url == config.url
            &&& ready.body == config.body
            &&& header_entries(ready.headers) == translated(config.headers@)
        },
{
    if let Action::Fail(fault) = action {
        let at = choose|at: int|
            first_fault_at(config.headers@, at) && entry_fault(#[trigger] config.headers@[at])
                == Some(fault);
        lemma_first_fault_is_one(config.headers@, at);
    }
}

/// The response has the status and the body that were received, whenever the
/// request was sent and the body could be read.
pub proof fn lemma_status_and_body_are_returned(
    received: Received,
    response: Result<ResponseData, ApiError>,
)
    requires
        received.body is Ok,
        marshalled(Ok(received), response),
    ensures
        response matches Ok(data) && data.status == received.status && Ok::<String, String>(
            data.body,
        ) == received.body,
{
}

/// A byte up to the space, and DEL, cannot stand in a header name: a name
/// with a space or a control character is none.
pub proof fn lemma_space_and_controls_spoil_a_name(src: Seq<u8>, at: int)
    requires
        0 <= at < src.len(),
        src[at] <= 32 || src[at] == 127,
    ensures
        !is_header_name(src),
{
}

/// A request whose first header at fault has an invalid name is refused with
/// `InvalidHeaderName` when it is prepared, whatever its method and whichever
/// client it is prepared for.
pub proof fn lemma_invalid_name_is_reported<'a>(
    client: ClientRef<'a>,
    method: Seq<char>,
    url: String,
    headers: Seq<(String, String)>,
    body: Option<String>,
    outcome: Result<PreparedRequest<'a>, ApiError>,
    at: int,
)
    requires
        prepared(client, method, url, headers, body, outcome),
        first_fault_at(headers, at),
        !is_header_name(encode_utf8(headers[at].0@)),
    ensures
        outcome == Err::<PreparedRequest<'a>, ApiError>(ApiError::InvalidHeaderName),
{
    lemma_first_fault_is_one(headers, at);
}

/// A request whose headers are valid and whose method is no verb is refused
/// with `InvalidMethod` when it is prepared.
pub proof fn lemma_invalid_method_is_reported<'a>(
    client: ClientRef<'a>,
    method: Seq<char>,
    url: String,
    headers: Seq<(String, String)>,
    body: Option<String>,
    outcome: Result<PreparedRequest<'a>, ApiError>,
)
    requires
        prepared(client, method, url, headers, body, outcome),
        faultless(headers),
        recognized(method) is None,
    ensures
        outcome == Err::<PreparedRequest<'a>, ApiError>(ApiError::InvalidMethod),
{
    if outcome != Err::<PreparedRequest<'a>, ApiError>(ApiError::InvalidMethod) {
        let at = choose|at: int|
            first_fault_at(headers, at) && entry_fault(#[trigger] headers[at]) == Some(
                outcome->Err_0,
            );
        lemma_first_fault_is_one(headers, at);
    }
}

/// A request that names no TLS option ends at once, and nothing is sent, where
/// its first header at fault has an invalid name (`InvalidHeaderName`) and
/// where its headers are valid but its method is no verb (`InvalidMethod`).
pub proof fn lemma_plain_request_faults<'a>(
    state: &'a ApiState,
    config: RequestConfig,
    action: Action<'a>,
    at: int,
)
    requires
        !config.names_tls_option(),
        begins(state, config, action),
    ensures
        first_fault_at(config.headers@, at) && !is_header_name(
            encode_utf8(config.headers@[at].0@),
        ) ==> action == Action::Fail(ApiError::InvalidHeaderName),
        faultless(config.headers@) && recognized(config.method@) is None ==> action
            == Action::Fail(ApiError::InvalidMethod),
{
    let client = ClientRef::Shared(&state.client);
    let outcome = ending(action)->0;
    if first_fault_at(config.headers@, at) && !is_header_name(encode_utf8(config.headers@[at].0@)) {
        lemma_invalid_name_is_reported(
            client,
            config.method@,
            config.url,
            config.headers@,
            config.body,
            outcome,
            at,
        );
    }
    if faultless(config.headers@) && recognized(config.method@) is None {
        lemma_invalid_method_is_reported(
            client,
            config.method@,
            config.url,
            config.headers@,
            config.body,
            outcome,
        );
    }
}

/// A step that comes to a request being sent was the building of a client,
/// for a request with valid headers and a verb.
pub proof fn lemma_sent_after_build(step: Step, action: Action<'static>)
    requires
        concludes(step, action),
        action is Send,
    ensures
        step matches Step::Build { request, .. } && faultless(request.headers@) && recognized(
            request.method@,
        ) is Some,
{
}

/// No request with a header at fault or with a method that is no verb is sent
/// after a file was read, whatever the file held. After the certificate was
/// read nothing is sent at all: the key is read next.
pub proof fn lemma_only_valid_requests_are_sent_after_a_file(
    pending: PendingFile,
    contents: Result<FileContents, String>,
    action: Action<'static>,
)
    requires
        settles(supplied(pending, contents), action),
        action is Send,
    ensures
        match pending {
            PendingFile::Certificate { .. } => false,
            PendingFile::PrivateKey { run, .. } | PendingFile::CaCertificate { run } => faultless(
                run.request.headers@,
            ) && recognized(run.request.method@) is Some,
        },
{
    if let Step::Parse { pem, source, run } = supplied(pending, contents) {
        let (parsed, next) = choose|parsed: Result<reqwest::Certificate, String>, next: Step|
            #[trigger] trusts(run, source, parsed, next) && concludes(next, action);
        lemma_sent_after_build(next, action);
    }
}

/// No request with a header at fault or with a method that is no verb is sent
/// when a request begins, whichever TLS options it names.
pub proof fn lemma_only_valid_requests_are_sent<'a>(
    state: &'a ApiState,
    config: RequestConfig,
    action: Action<'a>,
)
    requires
        begins(state, config, action),
        action is Send,
    ensures
        faultless(config.headers@),
        recognized(config.method@) is Some,
{
    if config.names_tls_option() {
        let (run, step) = choose|run: TrustRun, step: Step|
            starts(config, run) && #[trigger] proceeds(run, trusted_roots(run.builder), step)
                && settles(step, action);
        lemma_sent_after_build(step, action);
    }
}

/// A file that cannot be read ends the run in `IOError`, with the reason that
/// the reader gave: nothing is parsed, built or sent after it.
pub proof fn lemma_unreadable_file_ends_the_run(
    pending: PendingFile,
    detail: String,
    action: Action<'static>,
)
    requires
        settles(supplied(pending, Err(detail)), action),
    ensures
        action == Action::Fail(
            ApiError::IOError {
                file: match pending {
                    PendingFile::Certificate { .. } => TlsFile::Certificate,
                    PendingFile::PrivateKey { .. } => TlsFile::PrivateKey,
                    PendingFile::CaCertificate { .. } => TlsFile::CaCertificate,
                },
                detail,
            },
        ),
{
}

/// What the key file holds changes nothing: the key is read, not used.
pub proof fn lemma_key_contents_are_unused(
    certificate: FileContents,
    run: TrustRun,
    key: FileContents,
    other_key: FileContents,
)
    ensures
        supplied(PendingFile::PrivateKey { certificate, run }, Ok(key)) == supplied(
            PendingFile::PrivateKey { certificate, run },
            Ok(other_key),
        ),
{
}

/// A client is built to accept invalid certificates exactly where the request
/// says `skip_verification: true`: for a run whose builder verifies, whether
/// the client is built at once or after a certificate has been added.
pub proof fn lemma_verification_is_skipped_on_request(
    run: TrustRun,
    source: TrustSource,
    parsed: Result<reqwest::Certificate, String>,
    step: Step,
)
    requires
        !accepts_invalid_certs(run.builder),
        proceeds(run, trusted_roots(run.builder), step) || trusts(run, source, parsed, step),
    ensures
        step matches Step::Build { builder, .. } ==> accepts_invalid_certs(builder) == (
        run.skip_verification == Some(true)),
        step matches Step::ReadFile { then: PendingFile::CaCertificate { run: next }, .. }
            ==> !accepts_invalid_certs(next.builder) && next.skip_verification
            == run.skip_verification,
{
}

/// The client that sends a request after a build was built for it from the
/// step's builder: it trusts the roots that the builder was given, and accepts
/// invalid certificates exactly where the builder was set to.
pub proof fn lemma_sent_by_the_client_that_was_built(step: Step, action: Action<'static>)
    requires
        concludes(step, action),
        action is Send,
    ensures
        step matches Step::Build { builder, .. } && action matches Action::Send(ready) && {
            &&& ready.client is Fresh
            &&& client_roots(ready.client.client()) == trusted_roots(builder)
            &&& client_accepts_invalid_certs(ready.client.client()) == accepts_invalid_certs(
                builder,
            )
        },
{
}

/// A request that is sent at once goes out by a client that accepts invalid
/// certificates exactly where the request says `skip_verification: true`, and
/// that trusts no root beside those of the system: be it the shared client,
/// which serves the requests that name no TLS option, or one of its own.
pub proof fn lemma_request_sent_at_once_skips_on_request<'a>(
    state: &'a ApiState,
    config: RequestConfig,
    action: Action<'a>,
)
    requires
        state.has_default_settings(),
        begins(state, config, action),
        action is Send,
    ensures
        action matches Action::Send(ready) && {
            &&& client_accepts_invalid_certs(ready.client.client()) == (config.skip_verification
                == Some(true))
            &&& client_roots(ready.client.client()).len() == 0
            &&& ready.client is Shared <==> !config.names_tls_option()
        },
{
    if config.names_tls_option() {
        let (run, step) = choose|run: TrustRun, step: Step|
            starts(config, run) && #[trigger] proceeds(run, trusted_roots(run.builder), step)
                && settles(step, action);
        lemma_sent_by_the_client_that_was_built(step, action);
    }
}

/// What a run comes to once the bytes of a file are parsed, for a run whose
/// builder verifies certificates. Where the CA certificate is read next, the
/// builder trusts one root more, parsed from those bytes, and still verifies.
/// Where the request is sent, its client trusts one root more, parsed from
/// those bytes, and accepts invalid certificates exactly where the request
/// says `skip_verification: true`.
pub proof fn lemma_file_that_was_read_is_trusted(
    pending: PendingFile,
    contents: FileContents,
    action: Action<'static>,
)
    requires
        settles(supplied(pending, Ok(contents)), action),
        pending matches PendingFile::PrivateKey { run, .. } ==> !accepts_invalid_certs(run.builder),
        pending matches PendingFile::CaCertificate { run } ==> !accepts_invalid_certs(run.builder),
    ensures
        supplied(pending, Ok(contents)) matches Step::Parse { pem, run, .. } ==> {
            &&& pending matches PendingFile::PrivateKey { certificate, .. } ==> pem == certificate
            &&& pending is CaCertificate ==> pem == contents
            &&& action matches Action::ReadFile {
                path,
                then: PendingFile::CaCertificate { run: next },
            } ==> {
                &&& Some(path) == run.ca_path
                &&& one_more_root(trusted_roots(run.builder), pem@, trusted_roots(next.builder))
                &&& !accepts_invalid_certs(next.builder)
                &&& next.skip_verification == run.skip_verification
                &&& next.request == run.request
                &&& next.ca_path is None
            }
            &&& action matches Action::Send(ready) ==> {
                &&& run.ca_path is None
                &&& one_more_root(
                    trusted_roots(run.builder),
                    pem@,
                    client_roots(ready.client.client()),
                )
                &&& client_accepts_invalid_certs(ready.client.client()) == (run.skip_verification
                    == Some(true))
            }
        },
{
    if let Step::Parse { pem, source, run } = supplied(pending, Ok(contents)) {
        let (parsed, next) = choose|parsed: Result<reqwest::Certificate, String>, next: Step|
            parsed_of(pem@, parsed) && #[trigger] trusts(run, source, parsed, next) && concludes(
                next,
                action,
            );
        if action is Send {
            lemma_sent_by_the_client_that_was_built(next, action);
        }
        if let Ok(certificate) = parsed {
            let before = trusted_roots(run.builder);
            assert(before.push(certificate).drop_last() == before);
        }
    }
}

/// The roots after are the roots before and one more, parsed from the bytes.
pub open spec fn one_more_root(
    before: Seq<reqwest::Certificate>,
    pem: Seq<u8>,
    after: Seq<reqwest::Certificate>,
) -> bool {
    &&& after.len() == before.len() + 1
    &&& after.drop_last() == before
    &&& parsed_from(after.last()) == pem
}

/// With a certificate, a key and a CA path, the client is built to trust the
/// certificate and then the CA certificate, after the roots that the builder
/// had.
pub proof fn lemma_certificate_then_ca(
    run: TrustRun,
    certificate: reqwest::Certificate,
    after_certificate: Step,
    ca_contents: FileContents,
    ca_certificate: reqwest::Certificate,
    after_ca: Step,
)
    requires
        run.ca_path is Some,
        trusts(run, TrustSource::Certificate, Ok(certificate), after_certificate),
        after_certificate matches Step::ReadFile { then, .. } && supplied(then, Ok(ca_contents))
            matches Step::Parse { run: next, source, .. } && trusts(
            next,
            source,
            Ok(ca_certificate),
            after_ca,
        ),
    ensures
        after_certificate matches Step::ReadFile { path, .. } && Some(path) == run.ca_path,
        after_ca matches Step::Build { builder, request } && request == run.request
            && trusted_roots(builder) == trusted_roots(run.builder).push(certificate).push(
            ca_certificate,
        ),
{
}

/// Of two headers with one name, the later one is sent: the name of a header
/// yields its value unless a later header has the same name in lower case.
pub proof fn lemma_later_header_wins(headers: Seq<(String, String)>, at: int)
    requires
        0 <= at < headers.len(),
        forall|later: int|
            at < later < headers.len() ==> normalized(encode_utf8((#[trigger] headers[later]).0@))
                != normalized(encode_utf8(headers[at].0@)),
    ensures
        lookup(translated(headers), normalized(encode_utf8(headers[at].0@))) == Some(
            encode_utf8(headers[at].1@),
        ),
    decreases headers.len(),
{
    let rest = headers.drop_last();
    lemma_translated_distinct(rest);
    lemma_put_lookup(
        translated(rest),
        normalized(encode_utf8(headers.last().0@)),
        encode_utf8(headers.last().1@),
        normalized(encode_utf8(headers[at].0@)),
    );
    if at < headers.len() - 1 {
        lemma_later_header_wins(rest, at);
    }
}

/// Of two headers of a response with one name, the later one is returned: the
/// name of a header yields its value as text unless a later header has the
/// same name.
pub proof fn lemma_later_received_header_wins(entries: Seq<(Seq<char>, Seq<u8>)>, at: int)
    requires
        0 <= at < entries.len(),
        forall|later: int| at < later < entries.len() ==> (#[trigger] entries[later]).0 != entries[at].0,
    ensures
        lookup(collected(entries), entries[at].0) == Some(shown(entries[at].1)),
    decreases entries.len(),
{
    let rest = entries.drop_last();
    lemma_collected_distinct(rest);
    lemma_put_lookup(collected(rest), entries.last().0, shown(entries.last().1), entries[at].0);
    if at < entries.len() - 1 {
        lemma_later_received_header_wins(rest, at);
    }
}

/// Collecting headers of which no two have one name keeps each in its place,
/// its value as text.
pub proof fn lemma_collected_in_place(entries: Seq<(Seq<char>, Seq<u8>)>)
    requires
        distinct_names(entries),
    ensures
        collected(entries) == Seq::new(entries.len(), |i: int| (entries[i].0, shown(entries[i].1))),
    decreases entries.len(),
{
    if entries.len() > 0 {
        let rest = entries.drop_last();
        lemma_collected_in_place(rest);
        assert(collected(entries) == collected(rest).push(
            (entries.last().0, shown(entries.last().1)),
        ));
    }
}

/// A value of visible ASCII characters shows as itself.
pub proof fn lemma_ascii_value_shows_as_itself(value: Seq<char>)
    requires
        is_ascii_chars(value),
        is_visible(encode_utf8(value)),
    ensures
        shown(encode_utf8(value)) == value,
{
    is_ascii_chars_encode_utf8(value);
}

/// A header comes back from a server that answers with the headers it was
/// sent: under its lower-case name the response has the value of the request,
/// for a value of visible ASCII characters that no later header of the same
/// name replaces.
pub proof fn lemma_echoed_header_comes_back(headers: Seq<(String, String)>, at: int)
    requires
        0 <= at < headers.len(),
        forall|later: int|
            at < later < headers.len() ==> normalized(encode_utf8((#[trigger] headers[later]).0@))
                != normalized(encode_utf8(headers[at].0@)),
        is_ascii_chars(headers[at].1@),
        is_visible(encode_utf8(headers[at].1@)),
    ensures
        lookup(collected(translated(headers)), normalized(encode_utf8(headers[at].0@))) == Some(
            headers[at].1@,
        ),
{
    let sent = translated(headers);
    lemma_later_header_wins(headers, at);
    lemma_translated_distinct(headers);
    lemma_collected_in_place(sent);
    lemma_collected_distinct(sent);
    lemma_ascii_value_shows_as_itself(headers[at].1@);
    lemma_index_of_entry(
        collected(sent),
        index_of(sent, normalized(encode_utf8(headers[at].0@))),
    );
}

/// The same request prepared twice comes to the same: the same error, or
/// requests that agree in client, verb, URL, body and headers. Nothing of one
/// call is left for the next.
pub proof fn lemma_preparing_twice_agrees<'a>(
    client: ClientRef<'a>,
    method: Seq<char>,
    url: String,
    headers: Seq<(String, String)>,
    body: Option<String>,
    first: Result<PreparedRequest<'a>, ApiError>,
    second: Result<PreparedRequest<'a>, ApiError>,
)
    requires
        prepared(client, method, url, headers, body, first),
        prepared(client, method, url, headers, body, second),
    ensures
        match (first, second) {
            (Ok(one), Ok(other)) => {
                &&& one.client == other.client
                &&& one.method == other.method
                &&& one.url == other.url
                &&& one.body == other.body
                &&& header_entries(one.headers) == header_entries(other.headers)
            },
            (Err(one), Err(other)) => one == other,
            _ => false,
        },
{
    if !faultless(headers) {
        let one = choose|at: int|
            first_fault_at(headers, at) && entry_fault(#[trigger] headers[at]) == Some(
                first->Err_0,
            );
        lemma_first_fault_is_one(headers, one);
    }
}

/// The bytes from which each of the roots was parsed.
pub open spec fn sources(roots: Seq<reqwest::Certificate>) -> Seq<Seq<u8>> {
    Seq::new(roots.len(), |i: int| parsed_from(roots[i]))
}

/// Two runs are at the same point: what their builders were given comes from
/// the same bytes, and the same is left for them to do.
pub open spec fn alike_runs(one: TrustRun, other: TrustRun) -> bool {
    &&& sources(trusted_roots(one.builder)) == sources(trusted_roots(other.builder))
    &&& accepts_invalid_certs(one.builder) == accepts_invalid_certs(other.builder)
    &&& one.ca_path == other.ca_path
    &&& one.skip_verification == other.skip_verification
    &&& one.request == other.request
}

/// Two runs wait for the same file at the same point.
pub open spec fn alike_pending(one: PendingFile, other: PendingFile) -> bool {
    match (one, other) {
        (
            PendingFile::Certificate { key_path, run },
            PendingFile::Certificate { key_path: other_path, run: other_run },
        ) => key_path == other_path && alike_runs(run, other_run),
        (
            PendingFile::PrivateKey { certificate, run },
            PendingFile::PrivateKey { certificate: other_certificate, run: other_run },
        ) => certificate@ == other_certificate@ && alike_runs(run, other_run),
        (PendingFile::CaCertificate { run }, PendingFile::CaCertificate { run: other_run }) => alike_runs(
            run,
            other_run,
        ),
        _ => false,
    }
}

/// Two clients are the shared client, or are set alike.
pub open spec fn alike_clients<'a>(one: ClientRef<'a>, other: ClientRef<'a>) -> bool {
    match (one, other) {
        (ClientRef::Shared(client), ClientRef::Shared(other_client)) => client == other_client,
        (ClientRef::Fresh(client), ClientRef::Fresh(other_client)) => {
            &&& sources(client_roots(client)) == sources(client_roots(other_client))
            &&& client_accepts_invalid_certs(client) == client_accepts_invalid_certs(other_client)
        },
        _ => false,
    }
}

/// Two runs ask their caller for the same: to read the same file, from the
/// same point, or to send the same request by clients that are alike.
pub open spec fn agree<'a>(one: Action<'a>, other: Action<'a>) -> bool {
    match (one, other) {
        (Action::ReadFile { path, then }, Action::ReadFile { path: other_path, then: other_then }) => {
            path == other_path && alike_pending(then, other_then)
        },
        (Action::Send(ready), Action::Send(other_ready)) => {
            &&& alike_clients(ready.client, other_ready.client)
            &&& ready.method == other_ready.method
            &&& ready.url == other_ready.url
            &&& ready.body == other_ready.body
            &&& header_entries(ready.headers) == header_entries(other_ready.headers)
        },
        _ => false,
    }
}

/// Steps of two runs that are alike come to the same, unless parsing or
/// building fails in one of them.
proof fn lemma_concluding_twice_agrees(
    step: Step,
    other_step: Step,
    action: Action<'static>,
    other_action: Action<'static>,
)
    requires
        concludes(step, action),
        concludes(other_step, other_action),
        match (step, other_step) {
            (Step::ReadFile { path, then }, Step::ReadFile { path: other_path, then: other_then }) => {
                path == other_path && alike_pending(then, other_then)
            },
            (
                Step::Build { builder, request },
                Step::Build { builder: other_builder, request: other_request },
            ) => {
                &&& sources(trusted_roots(builder)) == sources(trusted_roots(other_builder))
                &&& accepts_invalid_certs(builder) == accepts_invalid_certs(other_builder)
                &&& request == other_request
            },
            _ => step is Fail || other_step is Fail,
        },
    ensures
        action is Fail || other_action is Fail || agree(action, other_action),
{
    if let Step::Build { builder, request } = step {
        if action is Send && other_action is Send {
            lemma_sent_by_the_client_that_was_built(step, action);
            lemma_sent_by_the_client_that_was_built(other_step, other_action);
        }
    }
}

/// Where a run goes after a certificate is parsed, for two runs that are
/// alike and two certificates parsed from the same bytes.
proof fn lemma_trusting_twice_agrees(
    run: TrustRun,
    other_run: TrustRun,
    source: TrustSource,
    parsed: Result<reqwest::Certificate, String>,
    other_parsed: Result<reqwest::Certificate, String>,
    pem: Seq<u8>,
    next: Step,
    other_next: Step,
)
    requires
        alike_runs(run, other_run),
        parsed_of(pem, parsed),
        parsed_of(pem, other_parsed),
        trusts(run, source, parsed, next),
        trusts(other_run, source, other_parsed, other_next),
    ensures
        match (next, other_next) {
            (Step::ReadFile { path, then }, Step::ReadFile { path: other_path, then: other_then }) => {
                path == other_path && alike_pending(then, other_then)
            },
            (
                Step::Build { builder, request },
                Step::Build { builder: other_builder, request: other_request },
            ) => {
                &&& sources(trusted_roots(builder)) == sources(trusted_roots(other_builder))
                &&& accepts_invalid_certs(builder) == accepts_invalid_certs(other_builder)
                &&& request == other_request
            },
            _ => next is Fail || other_next is Fail,
        },
{
    if let (Ok(certificate), Ok(other_certificate)) = (parsed, other_parsed) {
        let roots = trusted_roots(run.builder);
        let other_roots = trusted_roots(other_run.builder);
        assert(sources(roots).len() == sources(other_roots).len());
        assert forall|i: int| 0 <= i < roots.len() implies parsed_from(roots[i]) == parsed_from(
            other_roots[i],
        ) by {
            assert(sources(roots)[i] == sources(other_roots)[i]);
        }
        assert(sources(roots.push(certificate)) == sources(other_roots.push(other_certificate)));
    }
}

/// Two runs that are resumed from the same point with the same contents come
/// to the same, unless parsing or building fails in one of them: they ask for
/// the same file next, or send the same request by clients that are alike.
/// Nothing of one run is left for the other.
pub proof fn lemma_resuming_twice_agrees(
    pending: PendingFile,
    other_pending: PendingFile,
    contents: Result<FileContents, String>,
    action: Action<'static>,
    other_action: Action<'static>,
)
    requires
        alike_pending(pending, other_pending),
        settles(supplied(pending, contents), action),
        settles(supplied(other_pending, contents), other_action),
    ensures
        action is Fail || other_action is Fail || agree(action, other_action),
        contents matches Err(detail) ==> action == other_action,
{
    let step = supplied(pending, contents);
    let other_step = supplied(other_pending, contents);
    match (step, other_step) {
        (
            Step::Parse { pem, source, run },
            Step::Parse { pem: other_pem, source: other_source, run: other_run },
        ) => {
            let (parsed, next) = choose|parsed: Result<reqwest::Certificate, String>, next: Step|
                parsed_of(pem@, parsed) && #[trigger] trusts(run, source, parsed, next)
                    && concludes(next, action);
            let (other_parsed, other_next) = choose|
                parsed: Result<reqwest::Certificate, String>,
                next: Step,
            |
                parsed_of(other_pem@, parsed) && #[trigger] trusts(
                    other_run,
                    other_source,
                    parsed,
                    next,
                ) && concludes(next, other_action);
            lemma_trusting_twice_agrees(
                run,
                other_run,
                source,
                parsed,
                other_parsed,
                pem@,
                next,
                other_next,
            );
            lemma_concluding_twice_agrees(next, other_next, action, other_action);
        },
        _ => {
            lemma_concluding_twice_agrees(step, other_step, action, other_action);
        },
    }
}

/// The same request begun twice comes to the same, unless building fails in
/// one of the two: the same file is read first, or the same request is sent
/// by the shared client or by clients that are alike.
pub proof fn lemma_beginning_twice_agrees<'a>(
    state: &'a ApiState,
    config: RequestConfig,
    action: Action<'a>,
    other_action: Action<'a>,
)
    requires
        begins(state, config, action),
        begins(state, config, other_action),
    ensures
        action is Fail || other_action is Fail || agree(action, other_action),
{
    if !config.names_tls_option() {
        lemma_preparing_twice_agrees(
            ClientRef::Shared(&state.client),
            config.method@,
            config.url,
            config.headers@,
            config.body,
            ending(action)->0,
            ending(other_action)->0,
        );
    } else if !config.presents_certificate() {
        let (run, step) = choose|run: TrustRun, step: Step|
            starts(config, run) && #[trigger] proceeds(run, trusted_roots(run.builder), step)
                && settles(step, action);
        let (other_run, other_step) = choose|run: TrustRun, step: Step|
            starts(config, run) && #[trigger] proceeds(run, trusted_roots(run.builder), step)
                && settles(step, other_action);
        assert(sources(trusted_roots(run.builder)) == sources(trusted_roots(other_run.builder)));
        lemma_concluding_twice_agrees(step, other_step, action, other_action);
    } else {
        let run = action->ReadFile_then->Certificate_run;
        let other_run = other_action->ReadFile_then->Certificate_run;
        assert(sources(trusted_roots(run.builder)) == sources(trusted_roots(other_run.builder)));
    }
}

/// The same outcome marshalled twice comes to the same: the same error, or
/// responses that agree in status, body and headers.
pub proof fn lemma_marshalling_twice_agrees(
    outcome: Result<Received, String>,
    first: Result<ResponseData, ApiError>,
    second: Result<ResponseData, ApiError>,
)
    requires
        marshalled(outcome, first),
        marshalled(outcome, second),
    ensures
        match (first, second) {
            (Ok(one), Ok(other)) => one.status == other.status && one.body == other.body
                && header_texts(one.headers@) == header_texts(other.headers@),
            (Err(one), Err(other)) => one == other,
            _ => false,
        },
{
}

} // verus!

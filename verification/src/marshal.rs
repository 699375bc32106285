//! The response marshaller: from what was received to the response that is
//! returned.

use crate::assoc::{distinct_names, lemma_index_of_entry, lemma_put_distinct, put};
use crate::error::ApiError;
use crate::header_specs::{
    ascii_text, header_entries, header_name_text, header_pairs, header_value_bytes, is_visible,
};
use crate::types::{header_texts, ResponseData};
use reqwest::header::HeaderMap;
use vstd::prelude::*;

verus! {

/// What sending brought back: the status and headers of the response, and its
/// body as text, or the reason why the body could not be read.
#[derive(Debug)]
pub struct Received {
    pub status: u16,
    pub headers: HeaderMap,
    pub body: Result<String, String>,
}

/// A header value as text: a value with a byte that does not show as text
/// counts as empty.
pub open spec fn shown(bytes: Seq<u8>) -> Seq<char> {
    if is_visible(bytes) {
        ascii_text(bytes)
    } else {
        Seq::empty()
    }
}

/// The mapping made of the headers of a response: they are stored one after
/// the other, so of two headers with one name the later one stays.
pub open spec fn collected(entries: Seq<(Seq<char>, Seq<u8>)>) -> Seq<(Seq<char>, Seq<char>)>
    decreases entries.len(),
{
    if entries.len() == 0 {
        Seq::empty()
    } else {
        put(collected(entries.drop_last()), entries.last().0, shown(entries.last().1))
    }
}

/// The collected mapping never holds a name twice.
pub proof fn lemma_collected_distinct(entries: Seq<(Seq<char>, Seq<u8>)>)
    ensures
        distinct_names(collected(entries)),
    decreases entries.len(),
{
    if entries.len() > 0 {
        lemma_collected_distinct(entries.drop_last());
        lemma_put_distinct(
            collected(entries.drop_last()),
            entries.last().0,
            shown(entries.last().1),
        );
    }
}

/// What marshalling comes to. A request that could not be sent and a body that
/// could not be read are errors; otherwise the response has the status and
/// body that were received, and the received headers as a mapping.
pub open spec fn marshalled(
    outcome: Result<Received, String>,
    response: Result<ResponseData, ApiError>,
) -> bool {
    match outcome {
        Err(detail) => response == Err::<ResponseData, ApiError>(
            ApiError::RequestError { detail },
        ),
        Ok(received) => match received.body {
            Err(detail) => response == Err::<ResponseData, ApiError>(
                ApiError::BodyReadError { detail },
            ),
            Ok(text) => {
                &&& response matches Ok(data)
                &&& data.status == received.status
                &&& data.body == text
                &&& header_texts(data.headers@) == collected(header_entries(received.headers))
            },
        },
    }
}

/// Stores the value under the name: in place of the value that the name had,
/// or at the end.
fn store(headers: &mut Vec<(String, String)>, name: String, value: String)
    requires
        distinct_names(header_texts(old(headers)@)),
    ensures
        header_texts(final(headers)@) == put(header_texts(old(headers)@), name@, value@),
{
    let ghost before = header_texts(headers@);
    let mut at: usize = 0;
    while at < headers.len()
        invariant
            at <= headers@.len(),
            headers@ == old(headers)@,
            before == header_texts(headers@),
            distinct_names(before),
            forall|k: int| 0 <= k < at ==> (#[trigger] before[k]).0 != name@,
        decreases headers@.len() - at,
    {
        if headers[at].0 == name {
            proof {
                lemma_index_of_entry(before, at as int);
            }
            headers.set(at, (name, value));
            return ;
        }
        at += 1;
    }
    headers.push((name, value));
}

/// Turns the headers of a response into a mapping from name to text.
pub fn marshal_headers(map: &HeaderMap) -> (headers: Vec<(String, String)>)
    ensures
        header_texts(headers@) == collected(header_entries(*map)),
        distinct_names(header_texts(headers@)),
{
    let pairs = header_pairs(map);
    let ghost entries = header_entries(*map);
    let mut headers: Vec<(String, String)> = Vec::new();
    let mut i: usize = 0;
    while i < pairs.len()
        invariant
            i <= pairs@.len() == entries.len(),
            forall|k: int|
                0 <= k < pairs@.len() ==> header_name_text(*(#[trigger] pairs@[k]).0)
                    == entries[k].0 && header_value_bytes(*pairs@[k].1) == entries[k].1,
            header_texts(headers@) == collected(entries.take(i as int)),
        decreases pairs@.len() - i,
    {
        let name = pairs[i].0.as_str().to_owned();
        let value = match pairs[i].1.to_str() {
            Ok(text) => text.to_owned(),
            Err(_) => String::new(),
        };
        proof {
            lemma_collected_distinct(entries.take(i as int));
            assert(entries.take(i + 1).drop_last() == entries.take(i as int));
        }
        store(&mut headers, name, value);
        i += 1;
    }
    proof {
        assert(entries.take(i as int) == entries);
        lemma_collected_distinct(entries);
    }
    headers
}

/// Marshals what sending brought back into the response, or into the error
/// that ends the request.
pub fn marshal_response(outcome: Result<Received, String>) -> (response: Result<
    ResponseData,
    ApiError,
>)
    ensures
        marshalled(outcome, response),
        response matches Ok(data) ==> data.well_formed(),
{
    match outcome {
        Err(detail) => Err(ApiError::RequestError { detail }),
        Ok(received) => {
            let Received { status, headers, body } = received;
            let headers = marshal_headers(&headers);
            match body {
                Err(detail) => Err(ApiError::BodyReadError { detail }),
                Ok(body) => Ok(ResponseData { status, headers, body }),
            }
        },
    }
}

} // verus!

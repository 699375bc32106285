//! The header translator: from the name and value strings of a request to the
//! validated header collection that is sent.

use crate::assoc::{distinct_names, lemma_put_distinct, put};
use crate::error::ApiError;
use crate::header_specs::{
    header_entries, insert_header, is_header_name, is_header_value, normalized, MAX_HEADERS,
};
use reqwest::header::{HeaderMap, HeaderName, HeaderValue};
use vstd::prelude::*;
use vstd::utf8::encode_utf8;

verus! {

/// The headers of one request: a list of name and value pairs that is short
/// enough for a header collection to take every pair. Of two headers with one
/// name the later one is sent.
#[derive(Debug, PartialEq, Eq)]
pub struct HeaderList {
    entries: Vec<(String, String)>,
}

impl View for HeaderList {
    type V = Seq<(String, String)>;

    closed spec fn view(&self) -> Seq<(String, String)> {
        self.entries@
    }
}

impl HeaderList {
    #[verifier::type_invariant]
    closed spec fn within_limit(self) -> bool {
        self.entries@.len() <= MAX_HEADERS
    }

    /// Takes the pairs as the headers of a request, unless there are more
    /// than `MAX_HEADERS` of them.
    pub fn new(entries: Vec<(String, String)>) -> (made: Option<HeaderList>)
        ensures
            match made {
                Some(list) => list@ == entries@ && entries@.len() <= MAX_HEADERS,
                None => entries@.len() > MAX_HEADERS,
            },
    {
        if entries.len() <= MAX_HEADERS {
            Some(HeaderList { entries })
        } else {
            None
        }
    }

    /// The pairs of the list.
    pub fn entries(&self) -> (entries: &Vec<(String, String)>)
        ensures
            entries@ == self@,
            entries@.len() <= MAX_HEADERS,
    {
        proof {
            use_type_invariant(self);
        }
        &self.entries
    }
}

/// What is wrong with one header, if anything: the name is judged first.
pub open spec fn entry_fault(entry: (String, String)) -> Option<ApiError> {
    if !is_header_name(encode_utf8(entry.0@)) {
        Some(ApiError::InvalidHeaderName)
    } else if !is_header_value(encode_utf8(entry.1@)) {
        Some(ApiError::InvalidHeaderValue)
    } else {
        None
    }
}

/// No header of the list is at fault.
pub open spec fn faultless(headers: Seq<(String, String)>) -> bool {
    forall|i: int| 0 <= i < headers.len() ==> entry_fault(#[trigger] headers[i]) is None
}

/// The header at `at` is at fault and none before it is.
pub open spec fn first_fault_at(headers: Seq<(String, String)>, at: int) -> bool {
    &&& 0 <= at < headers.len()
    &&& entry_fault(headers[at]) is Some
    &&& forall|i: int| 0 <= i < at ==> entry_fault(#[trigger] headers[i]) is None
}

/// The header collection made of the list: the headers are stored one after
/// the other under their lower-case names, so of two headers with one name the
/// later one stays.
pub open spec fn translated(headers: Seq<(String, String)>) -> Seq<(Seq<char>, Seq<u8>)>
    decreases headers.len(),
{
    if headers.len() == 0 {
        Seq::empty()
    } else {
        put(
            translated(headers.drop_last()),
            normalized(encode_utf8(headers.last().0@)),
            encode_utf8(headers.last().1@),
        )
    }
}

/// The translated collection never holds a name twice, nor more entries than
/// the list has headers.
pub proof fn lemma_translated_distinct(headers: Seq<(String, String)>)
    ensures
        distinct_names(translated(headers)),
        translated(headers).len() <= headers.len(),
    decreases headers.len(),
{
    if headers.len() > 0 {
        lemma_translated_distinct(headers.drop_last());
        lemma_put_distinct(
            translated(headers.drop_last()),
            normalized(encode_utf8(headers.last().0@)),
            encode_utf8(headers.last().1@),
        );
    }
}

/// Translates the headers of a request. The first header at fault decides the
/// error; without one the collection holds every header, the later of two with
/// one name.
pub fn translate_headers(list: &HeaderList) -> (outcome: Result<HeaderMap, ApiError>)
    ensures
        match outcome {
            Ok(map) => faultless(list@) && header_entries(map) == translated(list@)
                && distinct_names(header_entries(map)),
            Err(fault) => exists|at: int|
                first_fault_at(list@, at) && entry_fault(#[trigger] list@[at]) == Some(fault),
        },
{
    let headers = list.entries();
    let mut map = HeaderMap::new();
    let mut i: usize = 0;
    while i < headers.len()
        invariant
            headers@ == list@,
            i <= headers@.len() <= MAX_HEADERS,
            forall|k: int| 0 <= k < i ==> entry_fault(#[trigger] headers@[k]) is None,
            header_entries(map) == translated(headers@.take(i as int)),
        decreases headers@.len() - i,
    {
        let name = match HeaderName::from_bytes(headers[i].0.as_str().as_bytes()) {
            Ok(name) => name,
            Err(_) => {
                return Err(ApiError::InvalidHeaderName);
            },
        };
        let value = match HeaderValue::from_str(headers[i].1.as_str()) {
            Ok(value) => value,
            Err(_) => {
                return Err(ApiError::InvalidHeaderValue);
            },
        };
        proof {
            lemma_translated_distinct(headers@.take(i as int));
            assert(headers@.take(i + 1).drop_last() == headers@.take(i as int));
        }
        insert_header(&mut map, name, value);
        i += 1;
    }
    proof {
        assert(headers@.take(i as int) == headers@);
        lemma_translated_distinct(headers@);
    }
    Ok(map)
}

} // verus!

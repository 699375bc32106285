//! The verbs that a request may use.

use crate::error::ApiError;
use vstd::prelude::*;

verus! {

/// A recognized HTTP verb.
#[derive(Clone, Copy, Debug, PartialEq, Eq, Structural)]
pub enum Verb {
    Get,
    Post,
    Put,
    Delete,
    Head,
    Options,
    Connect,
    Patch,
    Trace,
}

impl Verb {
    /// The verb as it stands in a request line.
    pub open spec fn name(self) -> Seq<char> {
        match self {
            Verb::Get => "GET"@,
            Verb::Post => "POST"@,
            Verb::Put => "PUT"@,
            Verb::Delete => "DELETE"@,
            Verb::Head => "HEAD"@,
            Verb::Options => "OPTIONS"@,
            Verb::Connect => "CONNECT"@,
            Verb::Patch => "PATCH"@,
            Verb::Trace => "TRACE"@,
        }
    }

    /// The verb as it stands in a request line.
    pub fn as_str(self) -> (text: &'static str)
        ensures
            text@ == self.name(),
    {
        match self {
            Verb::Get => "GET",
            Verb::Post => "POST",
            Verb::Put => "PUT",
            Verb::Delete => "DELETE",
            Verb::Head => "HEAD",
            Verb::Options => "OPTIONS",
            Verb::Connect => "CONNECT",
            Verb::Patch => "PATCH",
            Verb::Trace => "TRACE",
        }
    }
}

/// The verb that a method string names. Verbs are case-sensitive: only the
/// upper-case spelling is one.
pub open spec fn recognized(text: Seq<char>) -> Option<Verb> {
    if text == Verb::Get.name() {
        Some(Verb::Get)
    } else if text == Verb::Post.name() {
        Some(Verb::Post)
    } else if text == Verb::Put.name() {
        Some(Verb::Put)
    } else if text == Verb::Delete.name() {
        Some(Verb::Delete)
    } else if text == Verb::Head.name() {
        Some(Verb::Head)
    } else if text == Verb::Options.name() {
        Some(Verb::Options)
    } else if text == Verb::Connect.name() {
        Some(Verb::Connect)
    } else if text == Verb::Patch.name() {
        Some(Verb::Patch)
    } else if text == Verb::Trace.name() {
        Some(Verb::Trace)
    } else {
        None
    }
}

fn names(text: &String, verb: Verb) -> (same: bool)
    ensures
        same == (text@ == verb.name()),
{
    *text == verb.as_str().to_owned()
}

/// Parses the method of a request: a recognized verb, or `InvalidMethod`.
pub fn parse_method(text: &str) -> (parsed: Result<Verb, ApiError>)
    ensures
        parsed == match recognized(text@) {
            Some(verb) => Ok::<Verb, ApiError>(verb),
            None => Err::<Verb, ApiError>(ApiError::InvalidMethod),
        },
{
    let text = text.to_owned();
    if names(&text, Verb::Get) {
        Ok(Verb::Get)
    } else if names(&text, Verb::Post) {
        Ok(Verb::Post)
    } else if names(&text, Verb::Put) {
        Ok(Verb::Put)
    } else if names(&text, Verb::Delete) {
        Ok(Verb::Delete)
    } else if names(&text, Verb::Head) {
        Ok(Verb::Head)
    } else if names(&text, Verb::Options) {
        Ok(Verb::Options)
    } else if names(&text, Verb::Connect) {
        Ok(Verb::Connect)
    } else if names(&text, Verb::Patch) {
        Ok(Verb::Patch)
    } else if names(&text, Verb::Trace) {
        Ok(Verb::Trace)
    } else {
        Err(ApiError::InvalidMethod)
    }
}

/// A verb is recognized by its own name: parsing undoes `as_str`.
pub proof fn lemma_verb_round_trip(verb: Verb)
    ensures
        recognized(verb.name()) == Some(verb),
{
    reveal_strlit("GET");
    reveal_strlit("POST");
    reveal_strlit("PUT");
    reveal_strlit("DELETE");
    reveal_strlit("HEAD");
    reveal_strlit("OPTIONS");
    reveal_strlit("CONNECT");
    reveal_strlit("PATCH");
    reveal_strlit("TRACE");
    // Names of one length differ in their first letter.
    assert("GET"@.len() == 3 && "PUT"@.len() == 3 && "GET"@[0] != "PUT"@[0]);
    assert("POST"@.len() == 4 && "HEAD"@.len() == 4 && "POST"@[0] != "HEAD"@[0]);
    assert("PATCH"@.len() == 5 && "TRACE"@.len() == 5 && "PATCH"@[0] != "TRACE"@[0]);
    assert("OPTIONS"@.len() == 7 && "CONNECT"@.len() == 7 && "OPTIONS"@[0] != "CONNECT"@[0]);
}

} // verus!

//! The search gateway: the request that goes to the backend, the ways an
//! exchange can fail, and the envelope that every reply is read through.

use vstd::prelude::*;
use vstd::string::*;
use crate::json::{is_null, json_text, member, member_text, null_text, parse, parsed, to_text};
use crate::text::join;

verus! {

/// One request to the search backend: where it goes and the document that is
/// posted there.
#[derive(Clone, Debug, PartialEq)]
pub struct Request {
    pub url: String,
    pub body: String,
}

/// What a [`Request`] holds, as sequences of characters.
pub struct RequestModel {
    pub url: Seq<char>,
    pub body: Seq<char>,
}

impl View for Request {
    type V = RequestModel;

    open spec fn view(&self) -> RequestModel {
        RequestModel { url: self.url@, body: self.body@ }
    }
}

/// Why an operation did not succeed. Each failure ends the operation that
/// met it.
#[derive(Clone, Debug, PartialEq)]
pub enum Failure {
    /// The exchange with the backend did not take place; the text says why.
    Transport(String),
    /// The reply is not the JSON that was expected; the text says why.
    Decode(String),
    /// The backend reported an error; the text is the reason it gave.
    Backend(String),
    /// Nothing matched where one document was required; the text names what
    /// was looked for.
    NotFound(String),
    /// A write was refused or touched nothing; the text says why.
    Mutation(String),
}

/// What a [`Failure`] holds, as sequences of characters.
pub enum FailureModel {
    Transport(Seq<char>),
    Decode(Seq<char>),
    Backend(Seq<char>),
    NotFound(Seq<char>),
    Mutation(Seq<char>),
}

impl View for Failure {
    type V = FailureModel;

    open spec fn view(&self) -> FailureModel {
        match self {
            Failure::Transport(m) => FailureModel::Transport(m@),
            Failure::Decode(m) => FailureModel::Decode(m@),
            Failure::Backend(m) => FailureModel::Backend(m@),
            Failure::NotFound(m) => FailureModel::NotFound(m@),
            Failure::Mutation(m) => FailureModel::Mutation(m@),
        }
    }
}

impl DeepView for Failure {
    type V = FailureModel;

    open spec fn deep_view(&self) -> FailureModel {
        self@
    }
}

impl DeepView for Request {
    type V = RequestModel;

    open spec fn deep_view(&self) -> RequestModel {
        self@
    }
}

impl FailureModel {
    /// The text by which the failure is reported to a caller.
    pub open spec fn message(self) -> Seq<char> {
        match self {
            FailureModel::Transport(m) => m,
            FailureModel::Decode(m) => m,
            FailureModel::Backend(m) => m,
            FailureModel::NotFound(what) => what + " not found"@,
            FailureModel::Mutation(m) => m,
        }
    }
}

impl Failure {
    /// The text by which the failure is reported to a caller.
    pub fn message(&self) -> (result: String)
        ensures
            result@ == self@.message(),
    {
        match self {
            Failure::Transport(m) => m.clone(),
            Failure::Decode(m) => m.clone(),
            Failure::Backend(m) => m.clone(),
            Failure::NotFound(what) => join(what.as_str(), " not found"),
            Failure::Mutation(m) => m.clone(),
        }
    }
}

/// The outcome of an operation that yields a text, as sequences of
/// characters.
pub open spec fn outcome_model(r: Result<String, Failure>) -> Result<Seq<char>, FailureModel> {
    match r {
        Ok(s) => Ok(s@),
        Err(f) => Err(f@),
    }
}

/// The reason that the document with compact text `doc` reports for an
/// error: the `reason` below its `error` member, if that member is anything
/// but `null`.
pub open spec fn backend_reason(doc: Seq<char>) -> Option<Seq<char>> {
    let error = member_text(doc, "error"@);
    if error == null_text() {
        None
    } else {
        Some(member_text(error, "reason"@))
    }
}

/// What a reply is read as: the compact text of its document, unless it does
/// not parse or the backend reported an error in it.
pub open spec fn decoded(reply: Seq<char>) -> Result<Seq<char>, FailureModel> {
    match parsed(reply) {
        Err(message) => Err(FailureModel::Decode(message)),
        Ok(doc) => match envelope_outcome(backend_reason(doc)) {
            Err(failure) => Err(failure),
            Ok(_) => Ok(doc),
        },
    }
}

/// What a reply's envelope is taken for: a reported error is a failure of
/// the backend, with the reason it gave, and without one the reply is data.
pub open spec fn envelope_outcome(reason: Option<Seq<char>>) -> Result<(), FailureModel> {
    match reason {
        Some(reason) => Err(FailureModel::Backend(reason)),
        None => Ok(()),
    }
}

/// Decides what a reply's envelope is taken for, from the reason of the
/// error that the backend reported, if it reported one.
pub fn envelope(reason: Option<String>) -> (result: Result<(), Failure>)
    ensures
        match result {
            Ok(_) => envelope_outcome(reason.deep_view()) is Ok,
            Err(failure) => envelope_outcome(reason.deep_view()) == Err::<(), FailureModel>(
                failure@,
            ),
        },
{
    match reason {
        Some(reason) => Err(Failure::Backend(reason)),
        None => Ok(()),
    }
}

/// The reason that a parsed reply reports for an error, if it reports one.
pub(crate) fn reported_reason(doc: &serde_json::Value) -> (result: Option<String>)
    ensures
        result.deep_view() == backend_reason(json_text(*doc)),
{
    let error = member(doc, "error");
    if is_null(error) {
        None
    } else {
        Some(to_text(member(error, "reason")))
    }
}

/// Parses a reply, and looks for a reported error before the document is
/// used as data.
pub(crate) fn decode(reply: &str) -> (result: Result<serde_json::Value, Failure>)
    ensures
        match result {
            Ok(doc) => decoded(reply@) == Ok::<Seq<char>, FailureModel>(json_text(doc)),
            Err(failure) => decoded(reply@) == Err::<Seq<char>, FailureModel>(failure@),
        },
{
    match parse(reply) {
        Err(message) => Err(Failure::Decode(message)),
        Ok(doc) => match envelope(reported_reason(&doc)) {
            Err(failure) => Err(failure),
            Ok(_) => Ok(doc),
        },
    }
}

} // verus!

//! The alarm and event repositories: the queries that look an alarm, its
//! links and an event up, and what is taken from the reply to each.

use vstd::prelude::*;
use vstd::string::*;
use crate::gateway::{decode, decoded, outcome_model, Failure, FailureModel, Request, RequestModel};
use crate::json::{element, element_text, member, member_text, null_text, to_text};
use crate::text::join;

verus! {

/// The index that holds the alarms.
pub const INDEX_ALARM: &'static str = "siem_alarms";

/// The indices that hold the links between alarms and events.
pub const INDEX_ALARM_EVENT: &'static str = "siem_alarm_events-*";

/// The indices that hold the events.
pub const INDEX_EVENT: &'static str = "siem_events-*";

/// The most links that one query asks for.
pub const MAX_EVENTS: &'static str = "1000";

/// The query document that matches the documents whose `field` is exactly
/// `value`.
pub open spec fn term_query_text(field: Seq<char>, value: Seq<char>) -> Seq<char> {
    "{ \"query\": { \"term\": { \""@ + field + "\": \""@ + value + "\" }  } }"@
}

/// The request that looks the alarm `id` up.
pub open spec fn alarm_request(search_addr: Seq<char>, id: Seq<char>) -> RequestModel {
    RequestModel {
        url: search_addr + INDEX_ALARM@ + "/_search"@,
        body: term_query_text("_id"@, id),
    }
}

/// The request that looks the links of the alarm `alarm_id` up, at most
/// [`MAX_EVENTS`] of them.
pub open spec fn links_request(search_addr: Seq<char>, alarm_id: Seq<char>) -> RequestModel {
    RequestModel {
        url: search_addr + INDEX_ALARM_EVENT@ + "/_search?size="@ + MAX_EVENTS@,
        body: term_query_text("alarm_id.keyword"@, alarm_id),
    }
}

/// The request that looks the event `event_id` up.
pub open spec fn event_request(search_addr: Seq<char>, event_id: Seq<char>) -> RequestModel {
    RequestModel {
        url: search_addr + INDEX_EVENT@ + "/_search"@,
        body: term_query_text("event_id.keyword"@, event_id),
    }
}

/// The compact text of the source document of the first hit in the reply
/// document with compact text `doc`; `null` where there is no hit.
pub open spec fn first_source_text(doc: Seq<char>) -> Seq<char> {
    member_text(element_text(hits_text(doc), 0), "_source"@)
}

/// The compact text of the list of hits in the reply document with compact
/// text `doc`.
pub open spec fn hits_text(doc: Seq<char>) -> Seq<char> {
    member_text(member_text(doc, "hits"@), "hits"@)
}

/// What a source text is taken for: with `null` nothing was found, and any
/// other text is the document that was looked for.
pub open spec fn source_outcome(source: Seq<char>, what: Seq<char>) -> Result<
    Seq<char>,
    FailureModel,
> {
    if source == null_text() {
        Err(FailureModel::NotFound(what))
    } else {
        Ok(source)
    }
}

/// What the reply to a lookup of one document yields: the failure that the
/// reply holds, or else what its first hit's source is taken for.
pub open spec fn first_source_outcome(reply: Seq<char>, what: Seq<char>) -> Result<
    Seq<char>,
    FailureModel,
> {
    match decoded(reply) {
        Err(failure) => Err(failure),
        Ok(doc) => source_outcome(first_source_text(doc), what),
    }
}

/// What the reply to a lookup of links yields: the failure that the reply
/// holds, or else the text of its list of hits.
pub open spec fn hits_outcome(reply: Seq<char>) -> Result<Seq<char>, FailureModel> {
    match decoded(reply) {
        Err(failure) => Err(failure),
        Ok(doc) => Ok(hits_text(doc)),
    }
}

/// Builds the query document that matches the documents whose `field` is
/// exactly `value`.
pub fn term_query(field: &str, value: &str) -> (result: String)
    ensures
        result@ == term_query_text(field@, value@),
{
    let mut out = String::from_str("{ \"query\": { \"term\": { \"");
    out.append(field);
    out.append("\": \"");
    out.append(value);
    out.append("\" }  } }");
    out
}

/// Builds the request that looks the alarm `id` up.
pub fn alarm_query(search_addr: &str, id: &str) -> (result: Request)
    ensures
        result@ == alarm_request(search_addr@, id@),
{
    let mut url = join(search_addr, INDEX_ALARM);
    url.append("/_search");
    Request { url, body: term_query("_id", id) }
}

/// Builds the request that looks the links of the alarm `alarm_id` up.
pub fn links_query(search_addr: &str, alarm_id: &str) -> (result: Request)
    ensures
        result@ == links_request(search_addr@, alarm_id@),
{
    let mut url = join(search_addr, INDEX_ALARM_EVENT);
    url.append("/_search?size=");
    url.append(MAX_EVENTS);
    Request { url, body: term_query("alarm_id.keyword", alarm_id) }
}

/// Builds the request that looks the event `event_id` up.
pub fn event_query(search_addr: &str, event_id: &str) -> (result: Request)
    ensures
        result@ == event_request(search_addr@, event_id@),
{
    let mut url = join(search_addr, INDEX_EVENT);
    url.append("/_search");
    Request { url, body: term_query("event_id.keyword", event_id) }
}

/// Decides what a source text is taken for. `what` names the kind of
/// document that was looked for.
pub fn found_source(source: String, what: &str) -> (result: Result<String, Failure>)
    ensures
        outcome_model(result) == source_outcome(source@, what@),
{
    let null = String::from_str("null");
    proof {
        reveal_strlit("null");
        assert("null"@ =~= null_text());
    }
    if source == null {
        Err(Failure::NotFound(String::from_str(what)))
    } else {
        Ok(source)
    }
}

/// Takes the source document of the first hit from the reply to a lookup.
/// `what` names the kind of document that was looked for.
pub fn first_source(reply: &str, what: &str) -> (result: Result<String, Failure>)
    ensures
        outcome_model(result) == first_source_outcome(reply@, what@),
{
    match decode(reply) {
        Err(failure) => Err(failure),
        Ok(doc) => {
            let hits = member(member(&doc, "hits"), "hits");
            let source = member(element(hits, 0), "_source");
            found_source(to_text(source), what)
        },
    }
}

/// Takes the source document of the stored alarm from the reply to
/// [`alarm_query`]. Without a hit the alarm was not found.
pub fn alarm_source(reply: &str) -> (result: Result<String, Failure>)
    ensures
        outcome_model(result) == first_source_outcome(reply@, "alarm"@),
{
    first_source(reply, "alarm")
}

/// Takes the source document of the event from the reply to
/// [`event_query`]. Without a hit the event was not found.
pub fn event_source(reply: &str) -> (result: Result<String, Failure>)
    ensures
        outcome_model(result) == first_source_outcome(reply@, "event"@),
{
    first_source(reply, "event")
}

/// Takes the list of hits from the reply to [`links_query`], in the order in
/// which the backend gave them.
pub fn link_hits(reply: &str) -> (result: Result<String, Failure>)
    ensures
        outcome_model(result) == hits_outcome(reply@),
{
    match decode(reply) {
        Err(failure) => Err(failure),
        Ok(doc) => Ok(to_text(member(member(&doc, "hits"), "hits"))),
    }
}

} // verus!

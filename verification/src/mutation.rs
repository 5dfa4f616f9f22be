//! The mutation service: patching one field of a document, and deleting an
//! alarm together with its links.

use vstd::prelude::*;
use vstd::string::*;
use crate::alarm::{AlarmEvents, StoredLinkModel};
use crate::gateway::{
    backend_reason, decode, decoded, outcome_model, Failure, FailureModel, Request, RequestModel,
};
use crate::json::{member_text, parsed, quote, quoted, unsigned_of};
use crate::repository::{INDEX_ALARM, INDEX_ALARM_EVENT};
use crate::text::join;

verus! {

/// The outcome of deleting an alarm, and beside it what became of the
/// removal of its links. The removal of the links is best effort: whatever
/// became of it, it does not change the outcome.
#[derive(Debug, PartialEq)]
pub struct Deletion {
    /// `deleted`, or why the alarm was not deleted.
    pub outcome: Result<String, Failure>,
    /// Why the links were not removed, if they were not.
    pub cleanup: Option<Failure>,
}

/// The patch document that sets `field` to `value`.
pub open spec fn patch_text(field: Seq<char>, value: Seq<char>) -> Seq<char> {
    "{ \"doc\": { \""@ + field + "\": \""@ + value + "\" } }"@
}

/// The request that sets `field` to `value` in the document `id` of `index`.
pub open spec fn update_request_model(
    search_addr: Seq<char>,
    index: Seq<char>,
    id: Seq<char>,
    field: Seq<char>,
    value: Seq<char>,
) -> RequestModel {
    RequestModel { url: search_addr + index + "/_update/"@ + id, body: patch_text(field, value) }
}

/// The query document that matches the document whose identifier is `id`.
pub open spec fn match_id_text(id: Seq<char>) -> Seq<char> {
    "{ \"query\": { \"match\": { \"_id\": \""@ + id + "\" } } }"@
}

/// The request that deletes the alarm `id`, and makes the deletion visible
/// to the reads that follow.
pub open spec fn delete_request_model(search_addr: Seq<char>, id: Seq<char>) -> RequestModel {
    RequestModel {
        url: search_addr + INDEX_ALARM@ + "/_delete_by_query?refresh=true"@,
        body: match_id_text(id),
    }
}

/// One line of a bulk request: the action that deletes the document whose
/// index and identifier are given as JSON string literals.
pub open spec fn delete_action_text(index_literal: Seq<char>, id_literal: Seq<char>) -> Seq<char> {
    "{ \"delete\" : {\"_index\":"@ + index_literal + ",\"_id\":"@ + id_literal + "}}\n"@
}

/// The line that deletes one stored link; nothing, if its index or its
/// identifier cannot be written as a JSON string literal.
pub open spec fn link_action_text(link: StoredLinkModel) -> Seq<char> {
    match (quoted(link.index), quoted(link.id)) {
        (Some(index_literal), Some(id_literal)) => delete_action_text(index_literal, id_literal),
        _ => Seq::empty(),
    }
}

/// The body of the bulk request that deletes `links`: one line for each, in
/// their order.
pub open spec fn bulk_delete_text(links: Seq<StoredLinkModel>) -> Seq<char>
    decreases links.len(),
{
    if links.len() == 0 {
        Seq::empty()
    } else {
        bulk_delete_text(links.drop_last()) + link_action_text(links.last())
    }
}

/// The request that deletes `links` in bulk.
pub open spec fn cleanup_request_model(
    search_addr: Seq<char>,
    links: Seq<StoredLinkModel>,
) -> RequestModel {
    RequestModel {
        url: search_addr + INDEX_ALARM_EVENT@ + "/_bulk"@,
        body: bulk_delete_text(links),
    }
}

/// What an update yields: the reason as a failure if the backend reported an
/// error, and the result code that it reported otherwise.
pub open spec fn update_outcome(reason: Option<Seq<char>>, code: Seq<char>) -> Result<
    Seq<char>,
    FailureModel,
> {
    match reason {
        Some(reason) => Err(FailureModel::Mutation(reason)),
        None => Ok(code),
    }
}

/// What the reply to an update yields.
pub open spec fn update_reply_outcome(reply: Seq<char>) -> Result<Seq<char>, FailureModel> {
    match parsed(reply) {
        Err(message) => Err(FailureModel::Decode(message)),
        Ok(doc) => update_outcome(backend_reason(doc), member_text(doc, "result"@)),
    }
}

/// What a deletion yields: the reason as a failure if the backend reported
/// an error; `deleted` if it deleted at least one document; and otherwise
/// the failure `alarm not found`.
pub open spec fn delete_outcome(reason: Option<Seq<char>>, deleted: Option<u64>) -> Result<
    Seq<char>,
    FailureModel,
> {
    match reason {
        Some(reason) => Err(FailureModel::Mutation(reason)),
        None => if deleted is Some && deleted.unwrap() >= 1 {
            Ok("deleted"@)
        } else {
            Err(FailureModel::Mutation("alarm not found"@))
        },
    }
}

/// What the reply to a deletion yields.
pub open spec fn delete_reply_outcome(reply: Seq<char>) -> Result<Seq<char>, FailureModel> {
    match parsed(reply) {
        Err(message) => Err(FailureModel::Decode(message)),
        Ok(doc) => delete_outcome(backend_reason(doc), unsigned_of(member_text(doc, "deleted"@))),
    }
}

/// What became of the removal of the links: the failure of the exchange, or
/// the failure that its reply holds, or nothing.
pub open spec fn cleanup_outcome(exchange: Result<Seq<char>, FailureModel>) -> Option<
    FailureModel,
> {
    match exchange {
        Err(failure) => Some(failure),
        Ok(reply) => match decoded(reply) {
            Err(failure) => Some(failure),
            Ok(_) => None,
        },
    }
}

/// Builds the request that sets `field` to `value` in the document `id` of
/// `index`.
pub fn update_request(search_addr: &str, index: &str, id: &str, field: &str, value: &str) -> (result:
    Request)
    ensures
        result@ == update_request_model(search_addr@, index@, id@, field@, value@),
{
    let mut url = join(search_addr, index);
    url.append("/_update/");
    url.append(id);
    let mut body = String::from_str("{ \"doc\": { \"");
    body.append(field);
    body.append("\": \"");
    body.append(value);
    body.append("\" } }");
    Request { url, body }
}

/// Builds the request that deletes the alarm `id`.
pub fn delete_request(search_addr: &str, id: &str) -> (result: Request)
    ensures
        result@ == delete_request_model(search_addr@, id@),
{
    let mut url = join(search_addr, INDEX_ALARM);
    url.append("/_delete_by_query?refresh=true");
    let mut body = String::from_str("{ \"query\": { \"match\": { \"_id\": \"");
    body.append(id);
    body.append("\" } } }");
    Request { url, body }
}

/// Builds one line of a bulk request from the JSON string literals of a
/// document's index and identifier.
pub fn delete_action(index_literal: &str, id_literal: &str) -> (result: String)
    ensures
        result@ == delete_action_text(index_literal@, id_literal@),
{
    let mut line = String::from_str("{ \"delete\" : {\"_index\":");
    line.append(index_literal);
    line.append(",\"_id\":");
    line.append(id_literal);
    line.append("}}\n");
    line
}

/// Builds the body of the bulk request that deletes `links`.
pub fn bulk_delete_body(links: &Vec<AlarmEvents>) -> (result: String)
    ensures
        result@ == bulk_delete_text(links.deep_view()),
{
    let ghost models = links.deep_view();
    let mut body = String::new();
    let mut k: usize = 0;
    while k < links.len()
        invariant
            k <= links@.len(),
            models == links.deep_view(),
            body@ == bulk_delete_text(models.take(k as int)),
        decreases links@.len() - k,
    {
        proof {
            assert(models.take(k + 1).drop_last() =~= models.take(k as int));
            assert(models.take(k + 1).last() == links@[k as int]@);
        }
        let index_literal = quote(links[k].index.as_str());
        let id_literal = quote(links[k].id.as_str());
        match (index_literal, id_literal) {
            (Some(index_literal), Some(id_literal)) => {
                let line = delete_action(index_literal.as_str(), id_literal.as_str());
                body.append(line.as_str());
            },
            _ => {
                assert(body@ + Seq::<char>::empty() =~= body@);
            },
        }
        k = k + 1;
    }
    proof {
        assert(models.take(models.len() as int) =~= models);
    }
    body
}

/// Builds the request that deletes `links` in bulk.
pub fn cleanup_request(search_addr: &str, links: &Vec<AlarmEvents>) -> (result: Request)
    ensures
        result@ == cleanup_request_model(search_addr@, links.deep_view()),
{
    let mut url = join(search_addr, INDEX_ALARM_EVENT);
    url.append("/_bulk");
    Request { url, body: bulk_delete_body(links) }
}

/// Decides what an update yields, from the reason of the error that the
/// backend reported, if it reported one, and the result code in its reply.
pub fn update_verdict(reason: Option<String>, code: String) -> (result: Result<String, Failure>)
    ensures
        outcome_model(result) == update_outcome(reason.deep_view(), code@),
        reason is Some ==> result is Err,
{
    match reason {
        Some(reason) => Err(Failure::Mutation(reason)),
        None => Ok(code),
    }
}

/// Decides what a deletion yields, from the reason of the error that the
/// backend reported, if it reported one, and the number of documents that it
/// says it deleted.
pub fn delete_verdict(reason: Option<String>, deleted: Option<u64>) -> (result: Result<
    String,
    Failure,
>)
    ensures
        outcome_model(result) == delete_outcome(reason.deep_view(), deleted),
{
    match reason {
        Some(reason) => Err(Failure::Mutation(reason)),
        None => match deleted {
            Some(n) => if n >= 1 {
                Ok(String::from_str("deleted"))
            } else {
                Err(Failure::Mutation(String::from_str("alarm not found")))
            },
            None => Err(Failure::Mutation(String::from_str("alarm not found"))),
        },
    }
}

/// Reads what became of the removal of the links from the exchange that
/// asked for it.
pub fn cleanup_verdict(exchange: Result<String, Failure>) -> (result: Option<Failure>)
    ensures
        result.deep_view() == cleanup_outcome(outcome_model(exchange)),
{
    match exchange {
        Err(failure) => Some(failure),
        Ok(reply) => match decode(reply.as_str()) {
            Err(failure) => Some(failure),
            Ok(_) => None,
        },
    }
}

/// An alarm of which the backend deleted no document is reported as not
/// found, whatever became of the removal of its links.
pub proof fn lemma_nothing_deleted_is_not_found(deleted: Option<u64>)
    requires
        deleted is None || deleted == Some(0u64),
    ensures
        delete_outcome(None, deleted) == Err::<Seq<char>, FailureModel>(
            FailureModel::Mutation("alarm not found"@),
        ),
{
}

/// A reply in which the backend reports an error never yields a success:
/// the update fails with the reason that the backend gave.
pub proof fn lemma_reported_error_fails_update(reason: Seq<char>, code: Seq<char>)
    ensures
        update_outcome(Some(reason), code) == Err::<Seq<char>, FailureModel>(
            FailureModel::Mutation(reason),
        ),
{
}

} // verus!

use siem_alarm::gateway::{Failure, Request};
use siem_alarm::repository::{
    alarm_query, alarm_source, event_query, event_source, first_source, found_source, link_hits,
    links_query, term_query, INDEX_ALARM, INDEX_ALARM_EVENT, INDEX_EVENT, MAX_EVENTS,
};

#[test]
fn indices_and_cap_are_the_backends() {
    assert_eq!(INDEX_ALARM, "siem_alarms");
    assert_eq!(INDEX_ALARM_EVENT, "siem_alarm_events-*");
    assert_eq!(INDEX_EVENT, "siem_events-*");
    assert_eq!(MAX_EVENTS, "1000");
}

#[test]
fn term_query_matches_exactly() {
    assert_eq!(
        term_query("event_id.keyword", "abc"),
        r#"{ "query": { "term": { "event_id.keyword": "abc" }  } }"#
    );
}

#[test]
fn alarm_query_looks_the_identifier_up() {
    assert_eq!(
        alarm_query("http://es:9200/", "gUJis6htM"),
        Request {
            url: "http://es:9200/siem_alarms/_search".to_string(),
            body: r#"{ "query": { "term": { "_id": "gUJis6htM" }  } }"#.to_string(),
        }
    );
}

#[test]
fn links_query_is_capped() {
    assert_eq!(
        links_query("http://es:9200/", "gUJis6htM"),
        Request {
            url: "http://es:9200/siem_alarm_events-*/_search?size=1000".to_string(),
            body: r#"{ "query": { "term": { "alarm_id.keyword": "gUJis6htM" }  } }"#.to_string(),
        }
    );
}

#[test]
fn event_query_looks_the_event_up() {
    assert_eq!(
        event_query("http://es:9200/", "e-1"),
        Request {
            url: "http://es:9200/siem_events-*/_search".to_string(),
            body: r#"{ "query": { "term": { "event_id.keyword": "e-1" }  } }"#.to_string(),
        }
    );
}

#[test]
fn alarm_source_is_the_first_hit() {
    let reply = r#"{"took":1,"hits":{"total":{"value":2},"hits":[
        {"_index":"siem_alarms","_id":"A1","_source":{"title":"first","risk":3}},
        {"_index":"siem_alarms","_id":"A1","_source":{"title":"second"}}]}}"#;
    assert_eq!(alarm_source(reply), Ok(r#"{"risk":3,"title":"first"}"#.to_string()));
}

#[test]
fn alarm_source_without_a_hit_is_not_found() {
    let reply = r#"{"took":1,"hits":{"total":{"value":0},"hits":[]}}"#;
    let got = alarm_source(reply);
    assert_eq!(got, Err(Failure::NotFound("alarm".to_string())));
    assert_eq!(got.unwrap_err().message(), "alarm not found");
}

#[test]
fn event_source_without_a_hit_is_not_found() {
    assert_eq!(event_source(r#"{"hits":{"hits":[]}}"#), Err(Failure::NotFound("event".to_string())));
    assert_eq!(event_source("{}"), Err(Failure::NotFound("event".to_string())));
    assert_eq!(
        event_source(r#"{"hits":{"hits":[{"_source":{"event_id":"e1"}}]}}"#),
        Ok(r#"{"event_id":"e1"}"#.to_string())
    );
}

#[test]
fn a_reported_error_is_seen_before_the_hits() {
    let reply = r#"{"error":{"reason":"no such index [siem_alarms]"},"status":404,"hits":{"hits":[{"_source":{"title":"x"}}]}}"#;
    assert_eq!(
        alarm_source(reply),
        Err(Failure::Backend("\"no such index [siem_alarms]\"".to_string()))
    );
    assert_eq!(
        link_hits(reply),
        Err(Failure::Backend("\"no such index [siem_alarms]\"".to_string()))
    );
}

#[test]
fn a_reply_that_does_not_parse_is_a_decode_failure() {
    assert!(matches!(alarm_source("{"), Err(Failure::Decode(_))));
    assert!(matches!(link_hits(""), Err(Failure::Decode(_))));
    assert!(matches!(first_source("nope", "event"), Err(Failure::Decode(_))));
}

#[test]
fn link_hits_keeps_the_order_of_the_backend() {
    let reply = r#"{"hits":{"hits":[
        {"_index":"i","_id":"2","_source":{"alarm_id":"A","event_id":"e2","stage":2}},
        {"_index":"i","_id":"1","_source":{"alarm_id":"A","event_id":"e1","stage":1}}]}}"#;
    assert_eq!(
        link_hits(reply),
        Ok(r#"[{"_id":"2","_index":"i","_source":{"alarm_id":"A","event_id":"e2","stage":2}},{"_id":"1","_index":"i","_source":{"alarm_id":"A","event_id":"e1","stage":1}}]"#.to_string())
    );
}

#[test]
fn link_hits_may_be_empty_or_absent() {
    assert_eq!(link_hits(r#"{"hits":{"hits":[]}}"#), Ok("[]".to_string()));
    assert_eq!(link_hits("{}"), Ok("null".to_string()));
}

#[test]
fn found_source_takes_null_for_nothing() {
    assert_eq!(found_source("null".to_string(), "alarm"), Err(Failure::NotFound("alarm".to_string())));
    assert_eq!(found_source("{}".to_string(), "alarm"), Ok("{}".to_string()));
    assert_eq!(found_source("\"null\"".to_string(), "alarm"), Ok("\"null\"".to_string()));
}

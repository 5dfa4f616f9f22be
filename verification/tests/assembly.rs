use siem_alarm::alarm::{
    read, Alarm, AlarmEvent, AlarmEvents, Event, Lookup, Rules, Timestamp,
};
use siem_alarm::assembly::{
    bump_stage, correlate, count_stage, derive_statuses, fits, missing_events, resolve,
};
use siem_alarm::gateway::Failure;
use siem_alarm::config::{DsiemConfig, SearchConfig};

fn rule(stage: u8, start_time: u64, status: &str, ttl_matched: u64) -> Rules {
    Rules {
        name: format!("stage {}", stage),
        stage,
        start_time,
        status: status.to_string(),
        ttl_matched,
        plugin_id: 1001,
        plugin_sid: vec![1, 2],
        occurrence: 1,
        reliability: 3,
        ..Rules::default()
    }
}

fn event(id: &str) -> Event {
    Event {
        timestamp: Timestamp { seconds: 1_690_000_000, nanos: 5 },
        event_id: id.to_string(),
        title: format!("event {}", id),
        src_ip: "10.0.0.1".to_string(),
        dst_ip: "10.0.0.2".to_string(),
        protocol: "TCP".to_string(),
        src_port: 1234,
        dst_port: 80,
        sensor: "sensor-1".to_string(),
        plugin_id: 1001,
        plugin_sid: 1,
        stage: 0,
    }
}

fn link(alarm_id: &str, event_id: &str, stage: u8) -> AlarmEvents {
    AlarmEvents {
        source: AlarmEvent {
            alarm_id: alarm_id.to_string(),
            event_id: event_id.to_string(),
            stage,
        },
        index: "siem_alarm_events-2023.07.22".to_string(),
        id: format!("link-{}", event_id),
    }
}

fn lookup(alarm_id: &str, event_id: &str, stage: u8, found: bool) -> Lookup {
    Lookup {
        link: link(alarm_id, event_id, stage),
        event: if found { Some(event(event_id)) } else { None },
    }
}

fn stored(rules: Vec<Rules>) -> Alarm {
    Alarm {
        timestamp: Timestamp { seconds: 1_690_000_000, nanos: 0 },
        id: "embedded".to_string(),
        title: "port scan".to_string(),
        status: "Open".to_string(),
        custom_data: vec![],
        kingdom: "Reconnaissance".to_string(),
        category: "Scan".to_string(),
        updated_time: Timestamp { seconds: 1_690_000_100, nanos: 0 },
        risk: 3,
        risk_class: "Medium".to_string(),
        src_ips: vec!["10.0.0.1".to_string()],
        dst_ips: vec!["10.0.0.2".to_string()],
        networks: vec!["10.0.0.0/8".to_string()],
        rules,
        tag: "Identified Threat".to_string(),
        intel_hits: vec![],
        vulnerabilities: vec![],
        events: vec![],
        tag_selection: vec![],
        status_selection: vec![],
        perm_index: "siem_alarms-2023.07.22".to_string(),
        search_config: SearchConfig::default(),
    }
}

fn vocabularies() -> DsiemConfig {
    DsiemConfig {
        status: vec!["Open".to_string(), "Closed".to_string()],
        tags: vec!["Identified Threat".to_string(), "False Positive".to_string()],
    }
}

fn endpoints() -> SearchConfig {
    SearchConfig {
        search: "http://es:9200/".to_string(),
        dashboard: "http://kibana:5601/".to_string(),
    }
}

#[test]
fn end_to_end_example() {
    let alarm = stored(vec![rule(1, 0, "", 0), rule(2, 1_690_000_000, "", 0)]);
    let lookups = vec![lookup("A1", "E1", 1, true), lookup("A1", "E2", 2, false)];
    assert!(fits(&alarm.rules, &lookups));
    assert_eq!(missing_events(&lookups), vec!["E2".to_string()]);
    let got = read(vocabularies(), endpoints(), alarm, lookups, "A1".to_string());
    assert_eq!(got.id, "A1");
    assert_eq!(got.rules.len(), 2);
    assert_eq!(got.rules[0].status, "inactive");
    assert_eq!(got.rules[0].ttl_matched, 1);
    assert_eq!(got.rules[1].status, "active");
    assert_eq!(got.rules[1].ttl_matched, 1);
    assert_eq!(got.events.len(), 1);
    assert_eq!(got.events[0].event_id, "E1");
    assert_eq!(got.events[0].stage, 1);
}

#[test]
fn each_counter_grows_by_the_links_at_its_stage() {
    let alarm = stored(vec![rule(1, 10, "", 7), rule(2, 10, "", 0), rule(3, 0, "", 40)]);
    let lookups = vec![
        lookup("A", "e1", 2, true),
        lookup("A", "e2", 1, true),
        lookup("A", "e3", 2, true),
        lookup("A", "e4", 2, false),
        lookup("A", "e5", 3, true),
    ];
    let got = read(vocabularies(), endpoints(), alarm, lookups, "A".to_string());
    assert_eq!(got.rules[0].ttl_matched, 8);
    assert_eq!(got.rules[1].ttl_matched, 3);
    assert_eq!(got.rules[2].ttl_matched, 41);
}

#[test]
fn counters_start_at_the_stored_value() {
    let alarm = stored(vec![rule(1, 10, "", 100)]);
    let got = read(vocabularies(), endpoints(), alarm, vec![], "A".to_string());
    assert_eq!(got.rules[0].ttl_matched, 100);
}

#[test]
fn rules_that_share_a_stage_are_each_counted() {
    let alarm = stored(vec![rule(1, 10, "", 0), rule(1, 10, "", 5)]);
    let lookups = vec![lookup("A", "e1", 1, true), lookup("A", "e2", 1, true)];
    let got = read(vocabularies(), endpoints(), alarm, lookups, "A".to_string());
    assert_eq!(got.rules[0].ttl_matched, 2);
    assert_eq!(got.rules[1].ttl_matched, 7);
}

#[test]
fn links_without_a_rule_alter_no_counter() {
    let alarm = stored(vec![rule(1, 10, "", 4), rule(2, 10, "", 9)]);
    let lookups = vec![lookup("A", "e1", 7, true), lookup("A", "e2", 0, false)];
    let got = read(vocabularies(), endpoints(), alarm, lookups, "A".to_string());
    assert_eq!(got.rules[0].ttl_matched, 4);
    assert_eq!(got.rules[1].ttl_matched, 9);
    assert_eq!(got.events.len(), 1);
    assert_eq!(got.events[0].stage, 7);
}

#[test]
fn status_is_derived_only_where_it_is_empty() {
    let alarm = stored(vec![
        rule(1, 0, "", 0),
        rule(2, 1, "", 0),
        rule(3, 0, "finished", 0),
        rule(4, 1_690_000_000, "inactive", 0),
    ]);
    let got = read(vocabularies(), endpoints(), alarm, vec![], "A".to_string());
    assert_eq!(got.rules[0].status, "inactive");
    assert_eq!(got.rules[1].status, "active");
    assert_eq!(got.rules[2].status, "finished");
    assert_eq!(got.rules[3].status, "inactive");
}

#[test]
fn a_missing_event_is_skipped_and_still_counted() {
    let alarm = stored(vec![rule(1, 10, "", 0)]);
    let lookups = vec![
        lookup("A", "e1", 1, true),
        lookup("A", "gone", 1, false),
        lookup("A", "e3", 1, true),
    ];
    let links = lookups.len();
    assert_eq!(missing_events(&lookups), vec!["gone".to_string()]);
    let got = read(vocabularies(), endpoints(), alarm, lookups, "A".to_string());
    assert_eq!(got.events.len(), links - 1);
    assert_eq!(got.rules[0].ttl_matched, 3);
    assert_eq!(got.events[0].event_id, "e1");
    assert_eq!(got.events[1].event_id, "e3");
}

#[test]
fn events_keep_the_order_of_the_links_and_take_their_stage() {
    let alarm = stored(vec![rule(1, 10, "", 0), rule(2, 10, "", 0)]);
    let lookups = vec![
        lookup("A", "z", 2, true),
        lookup("A", "a", 1, true),
        lookup("A", "m", 2, true),
    ];
    let got = read(vocabularies(), endpoints(), alarm, lookups, "A".to_string());
    let seen: Vec<(String, u8)> = got.events.iter().map(|e| (e.event_id.clone(), e.stage)).collect();
    assert_eq!(
        seen,
        vec![("z".to_string(), 2), ("a".to_string(), 1), ("m".to_string(), 2)]
    );
    let mut expected = event("z");
    expected.stage = 2;
    assert_eq!(got.events[0], expected);
}

#[test]
fn events_that_were_stored_stay_in_front() {
    let mut alarm = stored(vec![rule(1, 10, "", 0)]);
    let mut kept = event("old");
    kept.stage = 9;
    alarm.events.push(kept.clone());
    let got = read(vocabularies(), endpoints(), alarm, vec![lookup("A", "new", 1, true)], "A".to_string());
    assert_eq!(got.events.len(), 2);
    assert_eq!(got.events[0], kept);
    assert_eq!(got.events[1].event_id, "new");
}

#[test]
fn vocabularies_endpoints_and_identifier_are_attached() {
    let alarm = stored(vec![rule(1, 10, "", 0)]);
    let before = alarm.clone();
    let got = read(vocabularies(), endpoints(), alarm, vec![], "asked-for".to_string());
    assert_eq!(got.id, "asked-for");
    assert_eq!(got.status_selection, vocabularies().status);
    assert_eq!(got.tag_selection, vocabularies().tags);
    assert_eq!(got.search_config, endpoints());
    assert_eq!(got.title, before.title);
    assert_eq!(got.status, before.status);
    assert_eq!(got.timestamp, before.timestamp);
    assert_eq!(got.updated_time, before.updated_time);
    assert_eq!(got.risk, before.risk);
    assert_eq!(got.risk_class, before.risk_class);
    assert_eq!(got.src_ips, before.src_ips);
    assert_eq!(got.dst_ips, before.dst_ips);
    assert_eq!(got.networks, before.networks);
    assert_eq!(got.perm_index, before.perm_index);
    assert_eq!(got.tag, before.tag);
    assert_eq!(got.rules[0].name, before.rules[0].name);
    assert_eq!(got.rules[0].plugin_sid, before.rules[0].plugin_sid);
}

#[test]
fn assembling_again_accumulates_the_counters() {
    let alarm = stored(vec![rule(1, 0, "", 2), rule(2, 5, "", 0), rule(3, 5, "", 1)]);
    let lookups = vec![lookup("A", "e1", 1, true), lookup("A", "e2", 1, false), lookup("A", "e3", 2, true)];
    let once = read(vocabularies(), endpoints(), alarm, lookups.clone(), "A".to_string());
    let twice = read(vocabularies(), endpoints(), once.clone(), lookups, "A".to_string());
    assert_eq!(once.rules[0].ttl_matched, 4);
    assert_eq!(twice.rules[0].ttl_matched, 6);
    assert_eq!(once.rules[1].ttl_matched, 1);
    assert_eq!(twice.rules[1].ttl_matched, 2);
    assert_eq!(twice.rules[2].ttl_matched, once.rules[2].ttl_matched);
    for i in 0..3 {
        assert_eq!(twice.rules[i].status, once.rules[i].status);
        assert_eq!(twice.rules[i].stage, once.rules[i].stage);
    }
    assert_eq!(twice.id, once.id);
    assert_eq!(twice.status_selection, once.status_selection);
    assert_eq!(twice.tag_selection, once.tag_selection);
    assert_eq!(twice.search_config, once.search_config);
    assert_eq!(once.events.len(), 2);
    assert_eq!(twice.events.len(), 4);
}

#[test]
fn assembling_the_same_stored_alarm_twice_gives_the_same() {
    let alarm = stored(vec![rule(1, 0, "", 2), rule(2, 5, "", 0)]);
    let lookups = vec![lookup("A", "e1", 1, true), lookup("A", "e2", 2, false)];
    let first = read(vocabularies(), endpoints(), alarm.clone(), lookups.clone(), "A".to_string());
    let second = read(vocabularies(), endpoints(), alarm, lookups, "A".to_string());
    assert!(first == second);
}

#[test]
fn bump_stage_touches_only_the_rules_at_the_stage() {
    let mut rules = vec![rule(1, 0, "", 0), rule(2, 0, "", 10), rule(1, 0, "x", 3)];
    let before = rules.clone();
    bump_stage(&mut rules, 1);
    assert_eq!(rules[0].ttl_matched, 1);
    assert_eq!(rules[1].ttl_matched, 10);
    assert_eq!(rules[2].ttl_matched, 4);
    assert_eq!(rules[1], before[1]);
    assert_eq!(rules[2].status, "x");
}

#[test]
fn derive_statuses_leaves_the_counters_alone() {
    let mut rules = vec![rule(1, 0, "", 4), rule(2, 9, "", 5)];
    derive_statuses(&mut rules);
    assert_eq!(rules[0].status, "inactive");
    assert_eq!(rules[1].status, "active");
    assert_eq!(rules[0].ttl_matched, 4);
    assert_eq!(rules[1].ttl_matched, 5);
    let again = rules.clone();
    derive_statuses(&mut rules);
    assert_eq!(rules, again);
}

#[test]
fn correlate_counts_and_gathers() {
    let mut rules = vec![rule(1, 0, "", 0), rule(2, 0, "", 0)];
    let mut events = vec![];
    correlate(
        &mut rules,
        &mut events,
        vec![lookup("A", "e1", 2, true), lookup("A", "e2", 2, false), lookup("A", "e3", 1, true)],
    );
    assert_eq!(rules[0].ttl_matched, 1);
    assert_eq!(rules[1].ttl_matched, 2);
    assert_eq!(rules[0].status, "");
    assert_eq!(events.len(), 2);
    assert_eq!(events[0].stage, 2);
    assert_eq!(events[1].stage, 1);
}

#[test]
fn count_stage_counts_links_not_events() {
    let lookups = vec![lookup("A", "e1", 2, true), lookup("A", "e2", 2, false), lookup("A", "e3", 1, true)];
    assert_eq!(count_stage(&lookups, 2), 2);
    assert_eq!(count_stage(&lookups, 1), 1);
    assert_eq!(count_stage(&lookups, 3), 0);
    assert_eq!(count_stage(&vec![], 1), 0);
}

#[test]
fn fits_tells_when_a_counter_would_leave_its_range() {
    let lookups = vec![lookup("A", "e1", 1, true), lookup("A", "e2", 1, true)];
    assert!(fits(&vec![rule(1, 0, "", u64::MAX - 2)], &lookups));
    assert!(!fits(&vec![rule(1, 0, "", u64::MAX - 1)], &lookups));
    assert!(!fits(&vec![rule(2, 0, "", 0), rule(1, 0, "", u64::MAX)], &lookups));
    assert!(fits(&vec![rule(2, 0, "", u64::MAX)], &lookups));
    assert!(fits(&vec![], &lookups));
}

#[test]
fn counters_may_reach_the_top_of_their_range() {
    let alarm = stored(vec![rule(1, 0, "", u64::MAX - 1)]);
    let lookups = vec![lookup("A", "e1", 1, false)];
    assert!(fits(&alarm.rules, &lookups));
    let got = read(vocabularies(), endpoints(), alarm, lookups, "A".to_string());
    assert_eq!(got.rules[0].ttl_matched, u64::MAX);
}

#[test]
fn missing_events_lists_the_links_without_an_event() {
    let lookups = vec![
        lookup("A", "e1", 1, false),
        lookup("A", "e2", 1, true),
        lookup("A", "e3", 2, false),
    ];
    assert_eq!(missing_events(&lookups), vec!["e1".to_string(), "e3".to_string()]);
    assert!(missing_events(&vec![lookup("A", "e2", 1, true)]).is_empty());
}

#[test]
fn default_records_are_empty() {
    let r = Rules::default();
    assert_eq!(r.stage, 0);
    assert_eq!(r.ttl_matched, 0);
    assert_eq!(r.start_time, 0);
    assert!(r.status.is_empty());
    assert!(r.plugin_sid.is_empty());
    let c = siem_alarm::alarm::CustomData::default();
    assert!(c.label.is_empty() && c.content.is_empty());
    let i = siem_alarm::alarm::IntelVulnerabilities::default();
    assert!(i.provider.is_empty() && i.result.is_empty() && i.term.is_empty());
}

#[test]
fn an_event_that_could_not_be_had_counts_as_missing() {
    let found = resolve(link("A", "e1", 1), Ok(event("e1")));
    assert_eq!(found, lookup("A", "e1", 1, true));
    let missing = resolve(link("A", "e2", 2), Err(Failure::NotFound("event".to_string())));
    assert_eq!(missing, lookup("A", "e2", 2, false));
    let unreachable = resolve(link("A", "e3", 3), Err(Failure::Transport("timed out".to_string())));
    assert_eq!(unreachable, lookup("A", "e3", 3, false));
}

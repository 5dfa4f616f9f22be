//! The records that the library works on: an alarm with its rules, the links
//! that join events to it, and the events themselves.

use vstd::prelude::*;
use crate::assembly::{
    assembled, assembled_rule, correlate, correlated, counters_fit, derive_statuses, derived,
};
use crate::config::{DsiemConfig, SearchConfig, SearchConfigModel};
use crate::gateway::{backend_reason, outcome_model, reported_reason, Failure};
use crate::json::{as_unsigned, member, parse, parsed, to_text};
use crate::mutation::{
    cleanup_outcome, cleanup_verdict, delete_reply_outcome, delete_verdict, update_reply_outcome,
    update_verdict, Deletion,
};

verus! {

/// An instant: whole seconds since the start of 1970 in UTC, and the
/// nanoseconds past that second.
#[derive(Clone, Copy, Debug, PartialEq, Eq)]
pub struct Timestamp {
    pub seconds: i64,
    pub nanos: u32,
}

/// One stage of an alarm's correlation rule.
#[derive(Clone, Debug, PartialEq)]
pub struct Rules {
    pub timeout: u16,
    pub name: String,
    pub protocol: String,
    pub from: String,
    pub to: String,
    /// Empty until it is derived or set by the backend.
    pub status: String,
    pub port_from: String,
    pub port_to: String,
    pub plugin_id: u64,
    pub stage: u8,
    pub start_time: u64,
    pub end_time: u64,
    pub reliability: u8,
    pub plugin_sid: Vec<u64>,
    pub occurrence: u64,
    /// How many links matched this stage.
    pub ttl_matched: u64,
}

/// A hit of a threat-intelligence or vulnerability provider.
#[derive(Clone, Debug, PartialEq)]
pub struct IntelVulnerabilities {
    pub provider: String,
    pub result: String,
    pub term: String,
}

/// A labelled piece of free-form data attached to an alarm.
#[derive(Clone, Debug, PartialEq)]
pub struct CustomData {
    pub label: String,
    pub content: String,
}

/// A raw security observation.
#[derive(Clone, Debug, PartialEq)]
pub struct Event {
    pub timestamp: Timestamp,
    pub event_id: String,
    pub title: String,
    pub src_ip: String,
    pub dst_ip: String,
    pub protocol: String,
    pub src_port: u16,
    pub dst_port: u16,
    pub sensor: String,
    pub plugin_id: u64,
    pub plugin_sid: u64,
    /// The rule stage that the event satisfied; set when the event is folded
    /// into an alarm.
    pub stage: u8,
}

/// The join between an alarm and an event: the event satisfied the given
/// stage of the alarm's rule.
#[derive(Clone, Debug, PartialEq)]
pub struct AlarmEvent {
    pub alarm_id: String,
    pub event_id: String,
    pub stage: u8,
}

/// A stored [`AlarmEvent`], with the index and identifier under which the
/// backend keeps it.
#[derive(Clone, Debug, PartialEq)]
pub struct AlarmEvents {
    pub source: AlarmEvent,
    pub index: String,
    pub id: String,
}

/// A link, and the event that looking it up gave, if there was one.
#[derive(Clone, Debug, PartialEq)]
pub struct Lookup {
    pub link: AlarmEvents,
    pub event: Option<Event>,
}

/// A security incident: the rules that matched, and what supports them.
#[derive(Clone, Debug, PartialEq)]
pub struct Alarm {
    pub timestamp: Timestamp,
    pub id: String,
    pub title: String,
    pub status: String,
    pub custom_data: Vec<CustomData>,
    pub kingdom: String,
    pub category: String,
    pub updated_time: Timestamp,
    pub risk: u8,
    pub risk_class: String,
    pub src_ips: Vec<String>,
    pub dst_ips: Vec<String>,
    pub networks: Vec<String>,
    pub rules: Vec<Rules>,
    pub tag: String,
    pub intel_hits: Vec<IntelVulnerabilities>,
    pub vulnerabilities: Vec<IntelVulnerabilities>,
    pub events: Vec<Event>,
    pub tag_selection: Vec<String>,
    pub status_selection: Vec<String>,
    pub perm_index: String,
    pub search_config: SearchConfig,
}

/// What a [`Rules`] holds: texts as sequences of characters, the match
/// counter as a natural number.
pub struct RuleModel {
    pub timeout: u16,
    pub name: Seq<char>,
    pub protocol: Seq<char>,
    pub from: Seq<char>,
    pub to: Seq<char>,
    pub status: Seq<char>,
    pub port_from: Seq<char>,
    pub port_to: Seq<char>,
    pub plugin_id: u64,
    pub stage: u8,
    pub start_time: u64,
    pub end_time: u64,
    pub reliability: u8,
    pub plugin_sid: Seq<u64>,
    pub occurrence: u64,
    pub ttl_matched: nat,
}

/// What an [`IntelVulnerabilities`] holds.
pub struct IntelModel {
    pub provider: Seq<char>,
    pub result: Seq<char>,
    pub term: Seq<char>,
}

/// What a [`CustomData`] holds.
pub struct CustomDataModel {
    pub label: Seq<char>,
    pub content: Seq<char>,
}

/// What an [`Event`] holds.
pub struct EventModel {
    pub timestamp: Timestamp,
    pub event_id: Seq<char>,
    pub title: Seq<char>,
    pub src_ip: Seq<char>,
    pub dst_ip: Seq<char>,
    pub protocol: Seq<char>,
    pub src_port: u16,
    pub dst_port: u16,
    pub sensor: Seq<char>,
    pub plugin_id: u64,
    pub plugin_sid: u64,
    pub stage: u8,
}

/// What an [`AlarmEvent`] holds.
pub struct LinkModel {
    pub alarm_id: Seq<char>,
    pub event_id: Seq<char>,
    pub stage: u8,
}

/// What an [`AlarmEvents`] holds.
pub struct StoredLinkModel {
    pub source: LinkModel,
    pub index: Seq<char>,
    pub id: Seq<char>,
}

/// What a [`Lookup`] holds.
pub struct LookupModel {
    pub link: StoredLinkModel,
    pub event: Option<EventModel>,
}

/// What an [`Alarm`] holds.
pub struct AlarmModel {
    pub timestamp: Timestamp,
    pub id: Seq<char>,
    pub title: Seq<char>,
    pub status: Seq<char>,
    pub custom_data: Seq<CustomDataModel>,
    pub kingdom: Seq<char>,
    pub category: Seq<char>,
    pub updated_time: Timestamp,
    pub risk: u8,
    pub risk_class: Seq<char>,
    pub src_ips: Seq<Seq<char>>,
    pub dst_ips: Seq<Seq<char>>,
    pub networks: Seq<Seq<char>>,
    pub rules: Seq<RuleModel>,
    pub tag: Seq<char>,
    pub intel_hits: Seq<IntelModel>,
    pub vulnerabilities: Seq<IntelModel>,
    pub events: Seq<EventModel>,
    pub tag_selection: Seq<Seq<char>>,
    pub status_selection: Seq<Seq<char>>,
    pub perm_index: Seq<char>,
    pub search_config: SearchConfigModel,
}

impl View for Rules {
    type V = RuleModel;

    open spec fn view(&self) -> RuleModel {
        RuleModel {
            timeout: self.timeout,
            name: self.name@,
            protocol: self.protocol@,
            from: self.from@,
            to: self.to@,
            status: self.status@,
            port_from: self.port_from@,
            port_to: self.port_to@,
            plugin_id: self.plugin_id,
            stage: self.stage,
            start_time: self.start_time,
            end_time: self.end_time,
            reliability: self.reliability,
            plugin_sid: self.plugin_sid@,
            occurrence: self.occurrence,
            ttl_matched: self.ttl_matched as nat,
        }
    }
}

impl DeepView for Rules {
    type V = RuleModel;

    open spec fn deep_view(&self) -> RuleModel {
        self@
    }
}

impl View for IntelVulnerabilities {
    type V = IntelModel;

    open spec fn view(&self) -> IntelModel {
        IntelModel { provider: self.provider@, result: self.result@, term: self.term@ }
    }
}

impl DeepView for IntelVulnerabilities {
    type V = IntelModel;

    open spec fn deep_view(&self) -> IntelModel {
        self@
    }
}

impl View for CustomData {
    type V = CustomDataModel;

    open spec fn view(&self) -> CustomDataModel {
        CustomDataModel { label: self.label@, content: self.content@ }
    }
}

impl DeepView for CustomData {
    type V = CustomDataModel;

    open spec fn deep_view(&self) -> CustomDataModel {
        self@
    }
}

impl View for Event {
    type V = EventModel;

    open spec fn view(&self) -> EventModel {
        EventModel {
            timestamp: self.timestamp,
            event_id: self.event_id@,
            title: self.title@,
            src_ip: self.src_ip@,
            dst_ip: self.dst_ip@,
            protocol: self.protocol@,
            src_port: self.src_port,
            dst_port: self.dst_port,
            sensor: self.sensor@,
            plugin_id: self.plugin_id,
            plugin_sid: self.plugin_sid,
            stage: self.stage,
        }
    }
}

impl DeepView for Event {
    type V = EventModel;

    open spec fn deep_view(&self) -> EventModel {
        self@
    }
}

impl View for AlarmEvent {
    type V = LinkModel;

    open spec fn view(&self) -> LinkModel {
        LinkModel { alarm_id: self.alarm_id@, event_id: self.event_id@, stage: self.stage }
    }
}

impl DeepView for AlarmEvent {
    type V = LinkModel;

    open spec fn deep_view(&self) -> LinkModel {
        self@
    }
}

impl View for AlarmEvents {
    type V = StoredLinkModel;

    open spec fn view(&self) -> StoredLinkModel {
        StoredLinkModel { source: self.source@, index: self.index@, id: self.id@ }
    }
}

impl DeepView for AlarmEvents {
    type V = StoredLinkModel;

    open spec fn deep_view(&self) -> StoredLinkModel {
        self@
    }
}

impl View for Lookup {
    type V = LookupModel;

    open spec fn view(&self) -> LookupModel {
        LookupModel { link: self.link@, event: self.event.deep_view() }
    }
}

impl DeepView for Lookup {
    type V = LookupModel;

    open spec fn deep_view(&self) -> LookupModel {
        self@
    }
}

impl View for Alarm {
    type V = AlarmModel;

    open spec fn view(&self) -> AlarmModel {
        AlarmModel {
            timestamp: self.timestamp,
            id: self.id@,
            title: self.title@,
            status: self.status@,
            custom_data: self.custom_data.deep_view(),
            kingdom: self.kingdom@,
            category: self.category@,
            updated_time: self.updated_time,
            risk: self.risk,
            risk_class: self.risk_class@,
            src_ips: self.src_ips.deep_view(),
            dst_ips: self.dst_ips.deep_view(),
            networks: self.networks.deep_view(),
            rules: self.rules.deep_view(),
            tag: self.tag@,
            intel_hits: self.intel_hits.deep_view(),
            vulnerabilities: self.vulnerabilities.deep_view(),
            events: self.events.deep_view(),
            tag_selection: self.tag_selection.deep_view(),
            status_selection: self.status_selection.deep_view(),
            perm_index: self.perm_index@,
            search_config: self.search_config@,
        }
    }
}

impl DeepView for Alarm {
    type V = AlarmModel;

    open spec fn deep_view(&self) -> AlarmModel {
        self@
    }
}

impl Default for Rules {
    /// A rule with every number zero and every text and list empty.
    fn default() -> (result: Rules)
        ensures
            result@ == (RuleModel {
                timeout: 0,
                name: Seq::empty(),
                protocol: Seq::empty(),
                from: Seq::empty(),
                to: Seq::empty(),
                status: Seq::empty(),
                port_from: Seq::empty(),
                port_to: Seq::empty(),
                plugin_id: 0,
                stage: 0,
                start_time: 0,
                end_time: 0,
                reliability: 0,
                plugin_sid: Seq::empty(),
                occurrence: 0,
                ttl_matched: 0,
            }),
    {
        Rules {
            timeout: 0,
            name: String::new(),
            protocol: String::new(),
            from: String::new(),
            to: String::new(),
            status: String::new(),
            port_from: String::new(),
            port_to: String::new(),
            plugin_id: 0,
            stage: 0,
            start_time: 0,
            end_time: 0,
            reliability: 0,
            plugin_sid: Vec::new(),
            occurrence: 0,
            ttl_matched: 0,
        }
    }
}

impl Default for IntelVulnerabilities {
    /// A hit with every text empty.
    fn default() -> (result: IntelVulnerabilities)
        ensures
            result@ == (IntelModel {
                provider: Seq::empty(),
                result: Seq::empty(),
                term: Seq::empty(),
            }),
    {
        IntelVulnerabilities { provider: String::new(), result: String::new(), term: String::new() }
    }
}

impl Default for CustomData {
    /// A piece of data with an empty label and an empty content.
    fn default() -> (result: CustomData)
        ensures
            result@ == (CustomDataModel { label: Seq::empty(), content: Seq::empty() }),
    {
        CustomData { label: String::new(), content: String::new() }
    }
}

/// Assembles the alarm that is shown for `id`: the stored alarm, with the
/// configured vocabularies and endpoints attached, its rule counters raised
/// by the links, the events that were found appended, the status of its
/// rules derived, and its identifier set to the one that was asked for.
/// Everything else is the stored alarm's. Assembly does not fail; the one
/// demand on the caller is that no counter leaves the range of a `u64`,
/// which [`fits`](crate::assembly::fits) tests.
pub fn read(
    config: DsiemConfig,
    search_config: SearchConfig,
    stored: Alarm,
    lookups: Vec<Lookup>,
    id: String,
) -> (result: Alarm)
    requires
        counters_fit(stored@.rules, lookups.deep_view()),
    ensures
        result@ == assembled(config@, search_config@, stored@, lookups.deep_view(), id@),
{
    let ghost links = lookups.deep_view();
    let mut alarm = stored;
    let mut rules = alarm.rules;
    let mut events = alarm.events;
    let ghost stored_rules = rules@;
    correlate(&mut rules, &mut events, lookups);
    let ghost counted = rules@;
    derive_statuses(&mut rules);
    proof {
        assert forall|i: int| 0 <= i < rules@.len() implies #[trigger] rules@[i]@ == assembled_rule(
            stored_rules[i]@,
            links,
        ) by {
            assert(counted[i]@ == correlated(stored_rules[i]@, links));
            assert(rules@[i]@ == derived(counted[i]@));
        }
        assert(rules.deep_view() =~= Seq::new(
            stored@.rules.len(),
            |i: int| assembled_rule(stored@.rules[i], links),
        ));
    }
    alarm.rules = rules;
    alarm.events = events;
    alarm.search_config = search_config;
    alarm.status_selection = config.status;
    alarm.tag_selection = config.tags;
    alarm.id = id;
    alarm
}

/// Decides the outcome of a field update from the backend's reply to the
/// request of [`update_request`](crate::mutation::update_request). The reply
/// is looked through for a reported error before anything in it is taken as
/// a result: if there is one, the update failed with the reason given, and
/// otherwise the outcome is the result code in the reply.
pub fn update_field(reply: &str) -> (result: Result<String, Failure>)
    ensures
        outcome_model(result) == update_reply_outcome(reply@),
        match parsed(reply@) {
            Ok(doc) => backend_reason(doc) is Some ==> result is Err,
            Err(_) => result is Err,
        },
{
    match parse(reply) {
        Err(message) => Err(Failure::Decode(message)),
        Ok(doc) => {
            let reason = reported_reason(&doc);
            let code = to_text(member(&doc, "result"));
            update_verdict(reason, code)
        },
    }
}

/// Decides the outcome of deleting an alarm. `cleanup` is what the exchange
/// that removes the alarm's links gave: its reply, or why there was none.
/// `reply` is the backend's reply to the request of
/// [`delete_request`](crate::mutation::delete_request). The alarm counts as
/// deleted if the backend says that it deleted at least one document. What
/// became of the links is reported beside the outcome and does not change
/// it.
pub fn delete_alarm(cleanup: Result<String, Failure>, reply: &str) -> (result: Deletion)
    ensures
        outcome_model(result.outcome) == delete_reply_outcome(reply@),
        result.cleanup.deep_view() == cleanup_outcome(outcome_model(cleanup)),
{
    let outcome = match parse(reply) {
        Err(message) => Err(Failure::Decode(message)),
        Ok(doc) => {
            let reason = reported_reason(&doc);
            let deleted = as_unsigned(member(&doc, "deleted"));
            delete_verdict(reason, deleted)
        },
    };
    Deletion { outcome, cleanup: cleanup_verdict(cleanup) }
}

} // verus!

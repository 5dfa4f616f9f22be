//! Alarm assembly: the correlation pass that counts links per rule stage and
//! gathers the linked events, and the pass that derives the status of each
//! rule.

use vstd::prelude::*;
use vstd::string::*;
use crate::alarm::{
    AlarmEvents, AlarmModel, Event, EventModel, Lookup, LookupModel, RuleModel, Rules,
};
use crate::gateway::Failure;
use crate::config::{DsiemConfigModel, SearchConfigModel};

verus! {

/// How many of `links` name the stage `stage`.
pub open spec fn stage_matches(links: Seq<LookupModel>, stage: u8) -> nat
    decreases links.len(),
{
    if links.len() == 0 {
        0
    } else {
        stage_matches(links.drop_last(), stage) + if links.last().link.source.stage == stage {
            1nat
        } else {
            0nat
        }
    }
}

/// The event `e` as it stands in an alarm's list: tagged with the stage of
/// the link that led to it.
pub open spec fn staged(e: EventModel, stage: u8) -> EventModel {
    EventModel { stage, ..e }
}

/// The events that `links` led to, in the order of the links, each tagged
/// with its link's stage. A link whose event is missing contributes nothing.
pub open spec fn found_events(links: Seq<LookupModel>) -> Seq<EventModel>
    decreases links.len(),
{
    if links.len() == 0 {
        Seq::empty()
    } else {
        let before = found_events(links.drop_last());
        match links.last().event {
            Some(e) => before.push(staged(e, links.last().link.source.stage)),
            None => before,
        }
    }
}

/// How many of `links` have an event.
pub open spec fn found_count(links: Seq<LookupModel>) -> nat
    decreases links.len(),
{
    if links.len() == 0 {
        0
    } else {
        found_count(links.drop_last()) + if links.last().event.is_some() {
            1nat
        } else {
            0nat
        }
    }
}

/// The rule `r` after one link with stage `stage` was seen: its counter is
/// one higher if the stages agree, and it is unchanged otherwise.
pub open spec fn bumped(r: RuleModel, stage: u8) -> RuleModel {
    if r.stage == stage {
        RuleModel { ttl_matched: r.ttl_matched + 1, ..r }
    } else {
        r
    }
}

/// The rule `r` after all of `links` were seen: its counter has grown by the
/// number of links at its stage.
pub open spec fn correlated(r: RuleModel, links: Seq<LookupModel>) -> RuleModel {
    RuleModel { ttl_matched: r.ttl_matched + stage_matches(links, r.stage), ..r }
}

/// The status of `r` once derived: a status that is set stays; an empty one
/// becomes `active` if the rule has a start time, and `inactive` if not.
pub open spec fn derived_status(r: RuleModel) -> Seq<char> {
    if r.status.len() != 0 {
        r.status
    } else if r.start_time > 0 {
        "active"@
    } else {
        "inactive"@
    }
}

/// The rule `r` with its status derived.
pub open spec fn derived(r: RuleModel) -> RuleModel {
    RuleModel { status: derived_status(r), ..r }
}

/// The rule `r` after assembly over `links`.
pub open spec fn assembled_rule(r: RuleModel, links: Seq<LookupModel>) -> RuleModel {
    derived(correlated(r, links))
}

/// Whether no counter of `rules` leaves the range of a `u64` when `links`
/// are counted.
pub open spec fn counters_fit(rules: Seq<RuleModel>, links: Seq<LookupModel>) -> bool {
    forall|i: int|
        0 <= i < rules.len() ==> #[trigger] rules[i].ttl_matched + stage_matches(
            links,
            rules[i].stage,
        ) <= u64::MAX
}

/// The alarm that assembly yields from the stored alarm, the links with
/// their events, the configured vocabularies and endpoints, and the
/// identifier that was asked for.
pub open spec fn assembled(
    config: DsiemConfigModel,
    endpoints: SearchConfigModel,
    stored: AlarmModel,
    links: Seq<LookupModel>,
    id: Seq<char>,
) -> AlarmModel {
    AlarmModel {
        id,
        rules: Seq::new(stored.rules.len(), |i: int| assembled_rule(stored.rules[i], links)),
        events: stored.events + found_events(links),
        tag_selection: config.tags,
        status_selection: config.status,
        search_config: endpoints,
        ..stored
    }
}

/// Counting one more link adds one to the count of its stage and leaves the
/// other counts alone.
pub proof fn lemma_stage_matches_push(links: Seq<LookupModel>, next: LookupModel, stage: u8)
    ensures
        stage_matches(links.push(next), stage) == stage_matches(links, stage) + if next.link.source.stage
            == stage {
            1nat
        } else {
            0nat
        },
{
    assert(links.push(next).drop_last() =~= links);
    assert(links.push(next).last() == next);
}

/// The count over a prefix of the links is at most the count over all.
pub proof fn lemma_stage_matches_prefix(links: Seq<LookupModel>, n: int, stage: u8)
    requires
        0 <= n <= links.len(),
    ensures
        stage_matches(links.take(n), stage) <= stage_matches(links, stage),
    decreases links.len() - n,
{
    if n == links.len() {
        assert(links.take(n) =~= links);
    } else {
        lemma_stage_matches_prefix(links, n + 1, stage);
        assert(links.take(n + 1).drop_last() =~= links.take(n));
    }
}

/// Adds one to the counter of every rule at `stage`.
pub fn bump_stage(rules: &mut Vec<Rules>, stage: u8)
    requires
        forall|i: int|
            0 <= i < old(rules)@.len() && old(rules)@[i].stage == stage ==> old(
                rules,
            )@[i].ttl_matched < u64::MAX,
    ensures
        final(rules)@.len() == old(rules)@.len(),
        forall|i: int|
            0 <= i < old(rules)@.len() ==> #[trigger] final(rules)@[i]@ == bumped(
                old(rules)@[i]@,
                stage,
            ),
{
    let n: usize = rules.len();
    let mut i: usize = 0;
    while i < n
        invariant
            i <= n,
            n == rules@.len(),
            rules@.len() == old(rules)@.len(),
            forall|j: int| 0 <= j < i ==> #[trigger] rules@[j]@ == bumped(old(rules)@[j]@, stage),
            forall|j: int| i <= j < n ==> rules@[j] == old(rules)@[j],
            forall|j: int|
                0 <= j < n && old(rules)@[j].stage == stage ==> old(rules)@[j].ttl_matched
                    < u64::MAX,
        decreases n - i,
    {
        if rules[i].stage == stage {
            rules[i].ttl_matched = rules[i].ttl_matched + 1;
        }
        i = i + 1;
    }
}

/// Derives the status of every rule that has none: `active` if the rule has
/// a start time, `inactive` if not. A status that is set is left as it is.
pub fn derive_statuses(rules: &mut Vec<Rules>)
    ensures
        final(rules)@.len() == old(rules)@.len(),
        forall|i: int|
            0 <= i < old(rules)@.len() ==> #[trigger] final(rules)@[i]@ == derived(old(rules)@[i]@),
{
    let n: usize = rules.len();
    let mut i: usize = 0;
    while i < n
        invariant
            i <= n,
            n == rules@.len(),
            rules@.len() == old(rules)@.len(),
            forall|j: int| 0 <= j < i ==> #[trigger] rules@[j]@ == derived(old(rules)@[j]@),
            forall|j: int| i <= j < n ==> rules@[j] == old(rules)@[j],
        decreases n - i,
    {
        if rules[i].status.as_str().is_empty() {
            if rules[i].start_time > 0 {
                rules[i].status = String::from_str("active");
            } else {
                rules[i].status = String::from_str("inactive");
            }
        }
        i = i + 1;
    }
}

/// The correlation pass. Every link adds one to the counter of each rule at
/// the link's stage, whether or not its event was found. The events that
/// were found are appended to `events` in the order of the links, each
/// tagged with its link's stage.
pub fn correlate(rules: &mut Vec<Rules>, events: &mut Vec<Event>, lookups: Vec<Lookup>)
    requires
        counters_fit(old(rules).deep_view(), lookups.deep_view()),
    ensures
        final(rules)@.len() == old(rules)@.len(),
        forall|i: int|
            0 <= i < old(rules)@.len() ==> #[trigger] final(rules)@[i]@ == correlated(
                old(rules)@[i]@,
                lookups.deep_view(),
            ),
        final(events).deep_view() == old(events).deep_view() + found_events(lookups.deep_view()),
{
    let ghost links = lookups.deep_view();
    let ghost all = lookups@;
    for lookup in it: lookups
        invariant
            it.seq() == all,
            links == Seq::new(all.len(), |i: int| all[i]@),
            counters_fit(old(rules).deep_view(), links),
            rules@.len() == old(rules)@.len(),
            forall|i: int|
                0 <= i < rules@.len() ==> #[trigger] rules@[i]@ == correlated(
                    old(rules)@[i]@,
                    links.take(it.index() as int),
                ),
            events.deep_view() == old(events).deep_view() + found_events(
                links.take(it.index() as int),
            ),
    {
        let ghost k = it.index() as int;
        let ghost seen = links.take(k);
        let ghost before = events.deep_view();
        let Lookup { link, event } = lookup;
        let stage = link.source.stage;
        proof {
            assert(links[k] == all[k]@);
            assert(links.take(k + 1) =~= seen.push(links[k]));
            assert(seen.push(links[k]).drop_last() =~= seen);
            assert forall|i: int| 0 <= i < rules@.len() && rules@[i].stage == stage implies rules@[i].ttl_matched
                < u64::MAX by {
                lemma_stage_matches_push(seen, links[k], stage);
                lemma_stage_matches_prefix(links, k + 1, stage);
                assert(rules@[i]@ == correlated(old(rules)@[i]@, seen));
                assert(old(rules).deep_view()[i] == old(rules)@[i]@);
            }
        }
        let ghost earlier = rules@;
        bump_stage(rules, stage);
        proof {
            assert forall|i: int| 0 <= i < rules@.len() implies #[trigger] rules@[i]@ == correlated(
                old(rules)@[i]@,
                links.take(k + 1),
            ) by {
                lemma_stage_matches_push(seen, links[k], old(rules)@[i].stage);
                assert(earlier[i]@ == correlated(old(rules)@[i]@, seen));
                assert(rules@[i]@ == bumped(earlier[i]@, stage));
            }
        }
        match event {
            Some(found) => {
                let mut found = found;
                found.stage = stage;
                events.push(found);
                proof {
                    assert(events.deep_view() =~= before.push(staged(links[k].event.unwrap(), stage)));
                    assert(events.deep_view() =~= old(events).deep_view() + found_events(
                        links.take(k + 1),
                    ));
                }
            },
            None => {
                proof {
                    assert(found_events(links.take(k + 1)) == found_events(seen));
                }
            },
        }
    }
    proof {
        assert(links.take(links.len() as int) =~= links);
    }
}

/// Pairs a link with what looking its event up gave. An event that could not
/// be had, for whatever reason, counts as missing: the link stays, without
/// an event, and assembly goes on.
pub fn resolve(link: AlarmEvents, fetched: Result<Event, Failure>) -> (result: Lookup)
    ensures
        result.link == link,
        result.event == match fetched {
            Ok(event) => Some(event),
            Err(_) => None,
        },
{
    match fetched {
        Ok(event) => Lookup { link, event: Some(event) },
        Err(_) => Lookup { link, event: None },
    }
}

/// The identifiers of the events that `links` name and that were not found,
/// in the order of the links.
pub open spec fn missing_ids(links: Seq<LookupModel>) -> Seq<Seq<char>>
    decreases links.len(),
{
    if links.len() == 0 {
        Seq::empty()
    } else {
        let before = missing_ids(links.drop_last());
        if links.last().event is None {
            before.push(links.last().link.source.event_id)
        } else {
            before
        }
    }
}

/// Lists the events that are skipped for want of being found: one
/// identifier for each link without an event, in the order of the links.
/// This is what there is to warn about after assembly.
pub fn missing_events(lookups: &Vec<Lookup>) -> (result: Vec<String>)
    ensures
        result.deep_view() == missing_ids(lookups.deep_view()),
{
    let ghost links = lookups.deep_view();
    let mut out: Vec<String> = Vec::new();
    let mut k: usize = 0;
    while k < lookups.len()
        invariant
            k <= lookups@.len(),
            links == lookups.deep_view(),
            out.deep_view() == missing_ids(links.take(k as int)),
        decreases lookups@.len() - k,
    {
        let ghost before = out.deep_view();
        proof {
            assert(links.take(k + 1).drop_last() =~= links.take(k as int));
            assert(links.take(k + 1).last() == lookups@[k as int]@);
        }
        if lookups[k].event.is_none() {
            out.push(lookups[k].link.source.event_id.clone());
            proof {
                assert(out.deep_view() =~= before.push(links[k as int].link.source.event_id));
            }
        }
        k = k + 1;
    }
    proof {
        assert(links.take(links.len() as int) =~= links);
    }
    out
}

/// How many of `lookups` name the stage `stage`.
pub fn count_stage(lookups: &Vec<Lookup>, stage: u8) -> (result: usize)
    ensures
        result == stage_matches(lookups.deep_view(), stage),
{
    let ghost links = lookups.deep_view();
    let mut count: usize = 0;
    let mut k: usize = 0;
    while k < lookups.len()
        invariant
            k <= lookups@.len(),
            links == lookups.deep_view(),
            count == stage_matches(links.take(k as int), stage),
            count <= k,
        decreases lookups@.len() - k,
    {
        proof {
            assert(links.take(k + 1) =~= links.take(k as int).push(links[k as int]));
            lemma_stage_matches_push(links.take(k as int), links[k as int], stage);
        }
        if lookups[k].link.source.stage == stage {
            count = count + 1;
        }
        k = k + 1;
    }
    proof {
        assert(links.take(links.len() as int) =~= links);
    }
    count
}

/// Whether the links can be counted into the rules without a counter
/// leaving the range of a `u64`.
pub fn fits(rules: &Vec<Rules>, lookups: &Vec<Lookup>) -> (result: bool)
    ensures
        result == counters_fit(rules.deep_view(), lookups.deep_view()),
{
    let ghost links = lookups.deep_view();
    let ghost models = rules.deep_view();
    let mut i: usize = 0;
    while i < rules.len()
        invariant
            i <= rules@.len(),
            links == lookups.deep_view(),
            models == rules.deep_view(),
            forall|j: int|
                0 <= j < i ==> #[trigger] models[j].ttl_matched + stage_matches(
                    links,
                    models[j].stage,
                ) <= u64::MAX,
        decreases rules@.len() - i,
    {
        let more: usize = count_stage(lookups, rules[i].stage);
        assert(models[i as int] == rules@[i as int]@);
        if more as u64 > u64::MAX - rules[i].ttl_matched {
            assert(models[i as int].ttl_matched + stage_matches(links, models[i as int].stage)
                > u64::MAX);
            return false;
        }
        i = i + 1;
    }
    true
}

/// After assembly a rule's counter is its stored value plus the number of
/// links at its stage. This holds of every rule, also where several rules
/// share a stage or a link names a stage that no rule has.
pub proof fn lemma_counter_is_stored_plus_matches(
    config: DsiemConfigModel,
    endpoints: SearchConfigModel,
    stored: AlarmModel,
    links: Seq<LookupModel>,
    id: Seq<char>,
    i: int,
)
    requires
        0 <= i < stored.rules.len(),
    ensures
        assembled(config, endpoints, stored, links, id).rules.len() == stored.rules.len(),
        assembled(config, endpoints, stored, links, id).rules[i].ttl_matched
            == stored.rules[i].ttl_matched + stage_matches(links, stored.rules[i].stage),
{
}

/// Links that do not name a stage count nothing for it.
pub proof fn lemma_no_link_no_match(links: Seq<LookupModel>, stage: u8)
    requires
        forall|k: int| 0 <= k < links.len() ==> links[k].link.source.stage != stage,
    ensures
        stage_matches(links, stage) == 0,
    decreases links.len(),
{
    if links.len() > 0 {
        lemma_no_link_no_match(links.drop_last(), stage);
    }
}

/// A rule whose stage no link names keeps its stored counter. So links whose
/// stage matches no rule alter no counter at all.
pub proof fn lemma_unmatched_links_alter_nothing(
    config: DsiemConfigModel,
    endpoints: SearchConfigModel,
    stored: AlarmModel,
    links: Seq<LookupModel>,
    id: Seq<char>,
    i: int,
)
    requires
        0 <= i < stored.rules.len(),
        forall|k: int| 0 <= k < links.len() ==> links[k].link.source.stage != stored.rules[i].stage,
    ensures
        assembled(config, endpoints, stored, links, id).rules[i].ttl_matched
            == stored.rules[i].ttl_matched,
{
    lemma_no_link_no_match(links, stored.rules[i].stage);
}

/// The three cases of status derivation: a rule without a status and
/// without a start time becomes `inactive`; one without a status and with a
/// start time becomes `active`; one with a status keeps it, whatever its
/// start time.
pub proof fn lemma_status_after_assembly(r: RuleModel, links: Seq<LookupModel>)
    ensures
        r.status.len() == 0 && r.start_time == 0 ==> assembled_rule(r, links).status == "inactive"@,
        r.status.len() == 0 && r.start_time > 0 ==> assembled_rule(r, links).status == "active"@,
        r.status.len() != 0 ==> assembled_rule(r, links).status == r.status,
{
}

/// A derived status is never empty, so deriving again changes nothing.
pub proof fn lemma_derived_is_stable(r: RuleModel)
    ensures
        derived_status(r).len() != 0,
        derived(derived(r)) == derived(r),
{
    reveal_strlit("active");
    reveal_strlit("inactive");
}

/// As many events are gathered as links have one.
pub proof fn lemma_found_events_len(links: Seq<LookupModel>)
    ensures
        found_events(links).len() == found_count(links),
        found_count(links) <= links.len(),
    decreases links.len(),
{
    if links.len() > 0 {
        lemma_found_events_len(links.drop_last());
    }
}

/// If the event of exactly one link is missing, one link less is counted as
/// found than there are links.
pub proof fn lemma_one_missing(links: Seq<LookupModel>, k: int)
    requires
        0 <= k < links.len(),
        links[k].event is None,
        forall|j: int| 0 <= j < links.len() && j != k ==> links[j].event is Some,
    ensures
        found_count(links) == links.len() - 1,
    decreases links.len(),
{
    let rest = links.drop_last();
    if k == links.len() - 1 {
        lemma_all_found(rest);
    } else {
        lemma_one_missing(rest, k);
    }
}

/// If every link has its event, as many are counted as found as there are
/// links.
pub proof fn lemma_all_found(links: Seq<LookupModel>)
    requires
        forall|j: int| 0 <= j < links.len() ==> links[j].event is Some,
    ensures
        found_count(links) == links.len(),
    decreases links.len(),
{
    if links.len() > 0 {
        lemma_all_found(links.drop_last());
    }
}

/// A link counts for its stage whether or not its event was found: the
/// count depends on the links' stages alone.
pub proof fn lemma_matches_ignore_events(a: Seq<LookupModel>, b: Seq<LookupModel>, stage: u8)
    requires
        a.len() == b.len(),
        forall|k: int| 0 <= k < a.len() ==> a[k].link.source.stage == b[k].link.source.stage,
    ensures
        stage_matches(a, stage) == stage_matches(b, stage),
    decreases a.len(),
{
    if a.len() > 0 {
        lemma_matches_ignore_events(a.drop_last(), b.drop_last(), stage);
    }
}

/// A link whose event is missing does not end assembly: the event list is
/// one entry short of the link count (beyond what was stored), and the link
/// still counts for its stage, exactly as if its event had been found.
pub proof fn lemma_missing_event_is_skipped(
    config: DsiemConfigModel,
    endpoints: SearchConfigModel,
    stored: AlarmModel,
    links: Seq<LookupModel>,
    id: Seq<char>,
    k: int,
    substitute: EventModel,
)
    requires
        0 <= k < links.len(),
        links[k].event is None,
        forall|j: int| 0 <= j < links.len() && j != k ==> links[j].event is Some,
    ensures
        assembled(config, endpoints, stored, links, id).events.len() == stored.events.len()
            + links.len() - 1,
        assembled(config, endpoints, stored, links, id).rules == assembled(
            config,
            endpoints,
            stored,
            links.update(k, LookupModel { event: Some(substitute), ..links[k] }),
            id,
        ).rules,
{
    lemma_found_events_len(links);
    lemma_one_missing(links, k);
    let full = links.update(k, LookupModel { event: Some(substitute), ..links[k] });
    assert forall|i: int| 0 <= i < stored.rules.len() implies assembled_rule(stored.rules[i], links)
        == assembled_rule(stored.rules[i], full) by {
        lemma_matches_ignore_events(links, full, stored.rules[i].stage);
    }
    assert(assembled(config, endpoints, stored, links, id).rules =~= assembled(
        config,
        endpoints,
        stored,
        full,
        id,
    ).rules);
}

/// Taking one link out lowers the count of its stage by one and leaves the
/// other counts alone.
pub proof fn lemma_stage_matches_remove(links: Seq<LookupModel>, j: int, stage: u8)
    requires
        0 <= j < links.len(),
    ensures
        stage_matches(links, stage) == stage_matches(links.remove(j), stage) + if links[j].link.source.stage
            == stage {
            1nat
        } else {
            0nat
        },
    decreases links.len(),
{
    if j == links.len() - 1 {
        assert(links.remove(j) =~= links.drop_last());
    } else {
        lemma_stage_matches_remove(links.drop_last(), j, stage);
        assert(links.remove(j).drop_last() =~= links.drop_last().remove(j));
        assert(links.remove(j).last() == links.last());
    }
}

/// The counts do not depend on the order of the links: two lists that hold
/// the same links, each as often as the other, count the same for every
/// stage.
pub proof fn lemma_matches_order_independent(a: Seq<LookupModel>, b: Seq<LookupModel>, stage: u8)
    requires
        a.to_multiset() == b.to_multiset(),
    ensures
        stage_matches(a, stage) == stage_matches(b, stage),
    decreases a.len(),
{
    a.to_multiset_ensures();
    b.to_multiset_ensures();
    if a.len() > 0 {
        let last = a.last();
        assert(a[a.len() - 1] == last);
        assert(a.contains(last));
        assert(a.to_multiset().count(last) > 0);
        assert(b.to_multiset().count(last) > 0);
        assert(b.contains(last));
        let j = choose|j: int| 0 <= j < b.len() && b[j] == last;
        assert(a.drop_last() =~= a.remove(a.len() - 1));
        assert(a.remove(a.len() - 1).to_multiset() == a.to_multiset().remove(last));
        assert(b.remove(j).to_multiset() == b.to_multiset().remove(last));
        lemma_matches_order_independent(a.drop_last(), b.remove(j), stage);
        lemma_stage_matches_remove(b, j, stage);
    }
}

/// The rules that assembly yields do not depend on the order in which the
/// backend gave the links. (The event list does: it keeps that order.)
pub proof fn lemma_rules_order_independent(
    config: DsiemConfigModel,
    endpoints: SearchConfigModel,
    stored: AlarmModel,
    a: Seq<LookupModel>,
    b: Seq<LookupModel>,
    id: Seq<char>,
)
    requires
        a.to_multiset() == b.to_multiset(),
    ensures
        assembled(config, endpoints, stored, a, id).rules == assembled(
            config,
            endpoints,
            stored,
            b,
            id,
        ).rules,
{
    assert forall|i: int| 0 <= i < stored.rules.len() implies assembled_rule(stored.rules[i], a)
        == assembled_rule(stored.rules[i], b) by {
        lemma_matches_order_independent(a, b, stored.rules[i].stage);
    }
    assert(assembled(config, endpoints, stored, a, id).rules =~= assembled(
        config,
        endpoints,
        stored,
        b,
        id,
    ).rules);
}

/// Counters only grow: after assembly no counter is below its stored value.
pub proof fn lemma_counters_never_decrease(
    config: DsiemConfigModel,
    endpoints: SearchConfigModel,
    stored: AlarmModel,
    links: Seq<LookupModel>,
    id: Seq<char>,
    i: int,
)
    requires
        0 <= i < stored.rules.len(),
    ensures
        assembled(config, endpoints, stored, links, id).rules[i].ttl_matched
            >= stored.rules[i].ttl_matched,
{
}

/// Assembling an assembled alarm again, over the same links, changes
/// nothing but this: every counter grows once more by the number of links
/// at its stage, strictly so where there is such a link, and the events that
/// were found are appended once more. Statuses, identifier, vocabularies and
/// endpoints stay as the first pass left them. The counters accumulate; they
/// are not recomputed.
pub proof fn lemma_reassembly_accumulates(
    config: DsiemConfigModel,
    endpoints: SearchConfigModel,
    stored: AlarmModel,
    links: Seq<LookupModel>,
    id: Seq<char>,
)
    ensures
        ({
            let once = assembled(config, endpoints, stored, links, id);
            let twice = assembled(config, endpoints, once, links, id);
            &&& twice.rules.len() == once.rules.len()
            &&& forall|i: int|
                0 <= i < once.rules.len() ==> #[trigger] twice.rules[i] == correlated(
                    once.rules[i],
                    links,
                )
            &&& forall|i: int|
                0 <= i < once.rules.len() && stage_matches(links, once.rules[i].stage) > 0
                    ==> #[trigger] twice.rules[i].ttl_matched > once.rules[i].ttl_matched
            &&& twice.events == once.events + found_events(links)
            &&& twice == AlarmModel { rules: twice.rules, events: twice.events, ..once }
        }),
{
    let once = assembled(config, endpoints, stored, links, id);
    let twice = assembled(config, endpoints, once, links, id);
    assert forall|i: int| 0 <= i < once.rules.len() implies #[trigger] twice.rules[i] == correlated(
        once.rules[i],
        links,
    ) by {
        lemma_derived_is_stable(correlated(stored.rules[i], links));
    }
}

/// If the event list is started afresh from the stored one, assembling
/// again is idempotent but for the counters: the second result is the first
/// with every counter raised once more by the number of links at its stage.
pub proof fn lemma_reassembly_changes_only_counters(
    config: DsiemConfigModel,
    endpoints: SearchConfigModel,
    stored: AlarmModel,
    links: Seq<LookupModel>,
    id: Seq<char>,
)
    ensures
        ({
            let once = assembled(config, endpoints, stored, links, id);
            let again = assembled(
                config,
                endpoints,
                AlarmModel { events: stored.events, ..once },
                links,
                id,
            );
            &&& again == AlarmModel { rules: again.rules, ..once }
            &&& again.rules.len() == once.rules.len()
            &&& forall|i: int|
                0 <= i < once.rules.len() ==> #[trigger] again.rules[i] == correlated(
                    once.rules[i],
                    links,
                )
        }),
{
    let once = assembled(config, endpoints, stored, links, id);
    let again = assembled(config, endpoints, AlarmModel { events: stored.events, ..once }, links, id);
    assert forall|i: int| 0 <= i < once.rules.len() implies #[trigger] again.rules[i] == correlated(
        once.rules[i],
        links,
    ) by {
        lemma_derived_is_stable(correlated(stored.rules[i], links));
    }
}

} // verus!

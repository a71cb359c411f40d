//! Threshold alerts: one observation of a metric is held against the rules
//! of that metric, and every rule that has just come to hold gives a notice.

use crate::config::{Metric, ThresholdRule};
use crate::latch::{active_after, breached, is_breached, outcome_of, AlertLatch, LatchOutcome};
use crate::message::{notice_of, Notice, NoticeView};
use crate::number::lemma_decimal_value;
use crate::template::FieldMap;
use crate::text::{
    decimal, decimal_string, is_digit, lemma_last_index_of_joined, option_text, push_decimal,
};
use vstd::prelude::*;
use vstd::string::StringExecFns;

verus! {

/// An observation, as spec values.
pub struct ObservationView {
    pub source: Metric,
    pub instance: Option<Seq<char>>,
    pub value: u32,
    pub fields: Map<Seq<char>, Seq<char>>,
}

/// One reading of a metric: where it comes from, its value in percent, and
/// the fields that a message may name.
pub struct Observation {
    /// The metric that was read.
    pub source: Metric,
    /// What was read, where the metric has more than one instance: a disk's
    /// mount point.
    pub instance: Option<String>,
    /// The reading, in percent, rounded down.
    pub value: u32,
    /// The fields of the reading.
    pub fields: FieldMap,
}

impl View for Observation {
    type V = ObservationView;

    open spec fn view(&self) -> ObservationView {
        ObservationView {
            source: self.source,
            instance: option_text(self.instance),
            value: self.value,
            fields: self.fields@,
        }
    }
}

/// The key under which the latch holds a rule of `source` with the level
/// `level`, for the instance `instance` where there is one: the metric's
/// word, the instance and the level, with hyphens between them.
pub open spec fn alert_key(source: Metric, instance: Option<Seq<char>>, level: u32) -> Seq<char> {
    match instance {
        Some(name) => source.prefix() + seq!['-'] + name + seq!['-'] + decimal(level as nat),
        None => source.prefix() + seq!['-'] + decimal(level as nat),
    }
}

/// The key under which the latch holds a rule.
pub fn make_alert_key(source: Metric, instance: &Option<String>, level: u32) -> (key: String)
    ensures
        key@ == alert_key(source, option_text(*instance), level),
{
    let mut key = String::new();
    key.append(source.prefix_str());
    key.push('-');
    match instance {
        Some(name) => {
            key.append(name.as_str());
            key.push('-');
        },
        None => {},
    }
    push_decimal(&mut key, level as u64);
    assert(key@ == alert_key(source, option_text(*instance), level));
    key
}

/// The fields that a rule with the level `level` renders its message with:
/// those of the observation, and the level under the name `level`.
pub open spec fn rule_fields(fields: Map<Seq<char>, Seq<char>>, level: u32) -> Map<
    Seq<char>,
    Seq<char>,
> {
    fields.insert("level"@, decimal(level as nat))
}

/// What holding an observation against rules gives: the keys that are
/// outstanding afterwards, and the notices to send.
pub struct Evaluation {
    pub active: Set<Seq<char>>,
    pub notices: Seq<NoticeView>,
}

/// What the latch decides for the rule `rule` on the observation `seen`.
pub open spec fn decision<R: ThresholdRule>(
    rule: R,
    seen: ObservationView,
    active: Set<Seq<char>>,
) -> LatchOutcome {
    outcome_of(
        active.contains(alert_key(seen.source, seen.instance, rule.threshold().level)),
        breached(seen.source.direction(), seen.value as int, rule.threshold().level as int),
    )
}

/// The outstanding keys after the rule `rule` was held against `seen`.
pub open spec fn active_with<R: ThresholdRule>(
    rule: R,
    seen: ObservationView,
    active: Set<Seq<char>>,
) -> Set<Seq<char>> {
    active_after(
        active,
        alert_key(seen.source, seen.instance, rule.threshold().level),
        breached(seen.source.direction(), seen.value as int, rule.threshold().level as int),
    )
}

/// The notice of the rule `rule` when it fires on `seen`: the rule's
/// message, rendered with the fields of the rule, under the rule's key.
pub open spec fn alert_notice<R: ThresholdRule>(rule: R, seen: ObservationView) -> NoticeView {
    NoticeView {
        key: Some(alert_key(seen.source, seen.instance, rule.threshold().level)),
        ..notice_of(rule.threshold().message, rule_fields(seen.fields, rule.threshold().level))
    }
}

/// What holding `seen` against `rules` gives, from the outstanding keys
/// `active`: the rules are taken in order, each against the keys that the
/// rules before it left, and each rule that fires adds its notice.
pub open spec fn evaluated<R: ThresholdRule>(
    rules: Seq<R>,
    seen: ObservationView,
    active: Set<Seq<char>>,
) -> Evaluation
    decreases rules.len(),
{
    if rules.len() == 0 {
        Evaluation { active, notices: Seq::empty() }
    } else {
        let before = evaluated(rules.drop_last(), seen, active);
        let rule = rules.last();
        Evaluation {
            active: active_with(rule, seen, before.active),
            notices: if decision(rule, seen, before.active) == LatchOutcome::Fire {
                before.notices.push(alert_notice(rule, seen))
            } else {
                before.notices
            },
        }
    }
}

/// The notices of `notices`, as spec values.
pub open spec fn notice_views(notices: Seq<Notice>) -> Seq<NoticeView> {
    notices.map_values(|notice: Notice| notice@)
}

/// Holds one rule against an observation, and gives the latch's decision
/// together with the rule's key.
fn check_keyed<R: ThresholdRule>(
    rule: &R,
    seen: &Observation,
    latch: &mut AlertLatch,
) -> (decided: (LatchOutcome, String))
    ensures
        decided.0 == decision(*rule, seen@, old(latch)@),
        decided.1@ == alert_key(seen.source, option_text(seen.instance), rule.threshold().level),
        final(latch)@ == active_with(*rule, seen@, old(latch)@),
{
    let level = rule.level();
    let key = make_alert_key(seen.source, &seen.instance, level);
    let condition = is_breached(seen.source.direction(), seen.value, level);
    let outcome = latch.check(key.as_str(), condition);
    (outcome, key)
}

/// Holds one rule against an observation: the latch's decision for the
/// rule's key.
pub fn check_rule<R: ThresholdRule>(
    rule: &R,
    seen: &Observation,
    latch: &mut AlertLatch,
) -> (outcome: LatchOutcome)
    ensures
        outcome == decision(*rule, seen@, old(latch)@),
        final(latch)@ == active_with(*rule, seen@, old(latch)@),
{
    check_keyed(rule, seen, latch).0
}

/// Holds an observation against the rules of its metric, in order, and
/// gives the notices of the rules that fire.
pub fn evaluate<R: ThresholdRule>(
    rules: &Vec<R>,
    seen: Observation,
    latch: &mut AlertLatch,
) -> (notices: Vec<Notice>)
    ensures
        final(latch)@ == evaluated(rules@, seen@, old(latch)@).active,
        notice_views(notices@) == evaluated(rules@, seen@, old(latch)@).notices,
{
    let mut seen = seen;
    let ghost first = seen@;
    let mut notices: Vec<Notice> = Vec::new();
    let mut i: usize = 0;
    assert(rules@.take(0).len() == 0);
    assert(notice_views(notices@) =~= Seq::<NoticeView>::empty());
    while i < rules.len()
        invariant
            i <= rules.len(),
            seen.source == first.source,
            option_text(seen.instance) == first.instance,
            seen.value == first.value,
            seen.fields@.remove("level"@) == first.fields.remove("level"@),
            latch@ == evaluated(rules@.take(i as int), first, old(latch)@).active,
            notice_views(notices@) == evaluated(rules@.take(i as int), first, old(latch)@).notices,
        decreases rules.len() - i,
    {
        let rule = &rules[i];
        let ghost before = evaluated(rules@.take(i as int), first, old(latch)@);
        proof {
            assert(rules@.take(i + 1).drop_last() == rules@.take(i as int));
            assert(rules@.take(i + 1).last() == *rule);
            assert(seen@ == (ObservationView { fields: seen.fields@, ..first }));
        }
        let (outcome, key) = check_keyed(rule, &seen, latch);
        assert(outcome == decision(*rule, first, before.active));
        match outcome {
            LatchOutcome::Fire => {
                let level = rule.level();
                let ghost earlier = seen.fields@;
                seen.fields.insert("level", decimal_string(level as u64));
                proof {
                    assert(seen.fields@ =~= earlier.remove("level"@).insert(
                        "level"@,
                        decimal(level as nat),
                    ));
                    assert(first.fields.remove("level"@).insert("level"@, decimal(level as nat))
                        =~= rule_fields(first.fields, level));
                    assert(seen.fields@.remove("level"@) =~= earlier.remove("level"@));
                }
                let mut notice = rule.message().render(&seen.fields);
                notice.key = Some(key);
                assert(notice@ == alert_notice(*rule, first));
                let ghost sent = notice_views(notices@);
                notices.push(notice);
                assert(notice_views(notices@) =~= sent.push(notice@));
            },
            _ => {},
        }
        i += 1;
    }
    assert(rules@.take(rules@.len() as int) == rules@);
    notices
}

/// What stands in a key before the hyphen and the level.
pub open spec fn key_head(source: Metric, instance: Option<Seq<char>>) -> Seq<char> {
    match instance {
        Some(name) => source.prefix() + seq!['-'] + name,
        None => source.prefix(),
    }
}

/// The words that start the keys hold no hyphen, and no two of them start
/// with the same letter.
proof fn lemma_prefixes(source: Metric)
    ensures
        source.prefix().len() > 0,
        !source.prefix().contains('-'),
        source.prefix()[0] == match source {
            Metric::Battery => 'b',
            Metric::Cpu => 'c',
            Metric::Memory => 'm',
            Metric::Storage => 's',
        },
{
    reveal_strlit("battery");
    reveal_strlit("cpu");
    reveal_strlit("memory");
    reveal_strlit("storage");
    let word = source.prefix();
    if word.contains('-') {
        let k = choose|k: int| 0 <= k < word.len() && word[k] == '-';
        assert(word[k] == '-');
    }
}

/// A decimal notation holds no hyphen.
proof fn lemma_decimal_has_no_hyphen(n: nat)
    ensures
        !decimal(n).contains('-'),
{
    lemma_decimal_value(n);
    if decimal(n).contains('-') {
        let k = choose|k: int| 0 <= k < decimal(n).len() && decimal(n)[k] == '-';
        assert(is_digit(decimal(n)[k]));
    }
}

/// Two rules have the same key only if they are on the same metric, for
/// the same instance and with the same level: rules that differ in one of
/// these are tracked apart.
pub proof fn lemma_alert_key_tells_rules_apart(
    source1: Metric,
    instance1: Option<Seq<char>>,
    level1: u32,
    source2: Metric,
    instance2: Option<Seq<char>>,
    level2: u32,
)
    requires
        alert_key(source1, instance1, level1) == alert_key(source2, instance2, level2),
    ensures
        source1 == source2,
        instance1 == instance2,
        level1 == level2,
{
    let key = alert_key(source1, instance1, level1);
    let head1 = key_head(source1, instance1);
    let head2 = key_head(source2, instance2);
    let digits1 = decimal(level1 as nat);
    let digits2 = decimal(level2 as nat);
    assert(key == head1 + seq!['-'] + digits1);
    assert(key == head2 + seq!['-'] + digits2);
    lemma_prefixes(source1);
    lemma_prefixes(source2);
    assert(key[0] == source1.prefix()[0]);
    assert(key[0] == source2.prefix()[0]);
    lemma_decimal_has_no_hyphen(level1 as nat);
    lemma_decimal_has_no_hyphen(level2 as nat);
    lemma_last_index_of_joined(head1, digits1, '-');
    lemma_last_index_of_joined(head2, digits2, '-');
    assert(head1 == head2);
    assert(digits1 == digits2);
    lemma_decimal_value(level1 as nat);
    lemma_decimal_value(level2 as nat);
    match (instance1, instance2) {
        (Some(name1), Some(name2)) => {
            let start = source1.prefix().len() + 1;
            assert(head1.skip(start as int) == name1);
            assert(head2.skip(start as int) == name2);
        },
        _ => {},
    }
}

/// Holding a rule against an observation changes the state of that rule's
/// key alone: a rule on another metric, for another instance or with
/// another level stays as it was.
pub proof fn lemma_other_rules_stay<R: ThresholdRule>(
    rule: R,
    seen: ObservationView,
    active: Set<Seq<char>>,
    source: Metric,
    instance: Option<Seq<char>>,
    level: u32,
)
    requires
        source != seen.source || instance != seen.instance || level != rule.threshold().level,
    ensures
        active_with(rule, seen, active).contains(alert_key(source, instance, level))
            == active.contains(alert_key(source, instance, level)),
{
    if alert_key(source, instance, level) == alert_key(
        seen.source,
        seen.instance,
        rule.threshold().level,
    ) {
        lemma_alert_key_tells_rules_apart(
            source,
            instance,
            level,
            seen.source,
            seen.instance,
            rule.threshold().level,
        );
    }
}

} // verus!

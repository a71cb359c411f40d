//! The alert latch: which alerts are outstanding, and whether a new
//! observation fires, is suppressed or clears.
//!
//! Each alert key is in one of two states, inactive (not in the set) or
//! active (in the set). A true condition on an inactive key fires and makes
//! it active; a true condition on an active key is suppressed; a false
//! condition makes the key inactive, silently.

use vstd::hash_set::StringHashSet;
use vstd::prelude::*;

verus! {

/// What one evaluation of a rule against the latch decides.
#[derive(Clone, Copy, Debug, PartialEq, Eq, Structural)]
pub enum LatchOutcome {
    /// The condition has just become true: notify.
    Fire,
    /// The condition is still true and was notified before.
    Suppress,
    /// The condition is false: the key is not outstanding.
    Cleared,
}

/// What becomes of an alert whose notice could not be delivered.
#[derive(Clone, Copy, Debug, PartialEq, Eq, Structural)]
pub enum RetryPolicy {
    /// The alert stays outstanding: it is not sent again while its
    /// condition goes on holding.
    Keep,
    /// The alert is taken back: it fires again at the next observation on
    /// which its condition holds.
    Retry,
}

/// Which side of its level a threshold rule watches.
#[derive(Clone, Copy, Debug, PartialEq, Eq, Structural)]
pub enum Direction {
    /// Low is bad: the rule holds while the value is under the level.
    Low,
    /// High is bad: the rule holds while the value is at or over the level.
    High,
}

/// Whether a threshold rule holds of `value`.
pub open spec fn breached(direction: Direction, value: int, level: int) -> bool {
    match direction {
        Direction::Low => value < level,
        Direction::High => value >= level,
    }
}

/// Whether a threshold rule holds of `value`.
pub fn is_breached(direction: Direction, value: u32, level: u32) -> (condition: bool)
    ensures
        condition == breached(direction, value as int, level as int),
{
    match direction {
        Direction::Low => value < level,
        Direction::High => value >= level,
    }
}

/// What the latch decides for a key that is `active` or not, on `condition`.
pub open spec fn outcome_of(active: bool, condition: bool) -> LatchOutcome {
    if !condition {
        LatchOutcome::Cleared
    } else if active {
        LatchOutcome::Suppress
    } else {
        LatchOutcome::Fire
    }
}

/// The set of outstanding keys after one evaluation of `key`.
pub open spec fn active_after(active: Set<Seq<char>>, key: Seq<char>, condition: bool) -> Set<
    Seq<char>,
> {
    if condition {
        active.insert(key)
    } else {
        active.remove(key)
    }
}

/// The set of outstanding keys after the notice for `key` could not be
/// delivered.
pub open spec fn active_after_failure(
    active: Set<Seq<char>>,
    key: Seq<char>,
    policy: RetryPolicy,
) -> Set<Seq<char>> {
    match policy {
        RetryPolicy::Keep => active,
        RetryPolicy::Retry => active.remove(key),
    }
}

/// The set of alert keys that are outstanding: notified and not yet cleared.
pub struct AlertLatch {
    active: StringHashSet,
}

impl View for AlertLatch {
    type V = Set<Seq<char>>;

    closed spec fn view(&self) -> Set<Seq<char>> {
        self.active@
    }
}

impl AlertLatch {
    /// A latch with no outstanding alert.
    pub fn new() -> (latch: Self)
        ensures
            latch@ == Set::<Seq<char>>::empty(),
    {
        AlertLatch { active: StringHashSet::new() }
    }

    /// Whether the alert `key` is outstanding.
    pub fn is_active(&self, key: &str) -> (active: bool)
        ensures
            active == self@.contains(key@),
    {
        self.active.contains(key)
    }

    /// Records that the notice for `key` could not be delivered.
    pub fn dispatch_failed(&mut self, key: &str, policy: RetryPolicy)
        ensures
            final(self)@ == active_after_failure(old(self)@, key@, policy),
    {
        match policy {
            RetryPolicy::Keep => {},
            RetryPolicy::Retry => {
                self.active.remove(key);
            },
        }
    }

    /// Evaluates `key` on a fresh observation of its rule's condition.
    ///
    /// Afterwards the key is outstanding exactly if the condition is true,
    /// and no other key has changed its state.
    pub fn check(&mut self, key: &str, condition: bool) -> (outcome: LatchOutcome)
        ensures
            outcome == outcome_of(old(self)@.contains(key@), condition),
            final(self)@ == active_after(old(self)@, key@, condition),
            final(self)@.contains(key@) == condition,
    {
        if condition {
            if self.active.contains(key) {
                assert(self@ =~= old(self)@.insert(key@));
                LatchOutcome::Suppress
            } else {
                self.active.insert(key.to_owned());
                LatchOutcome::Fire
            }
        } else {
            self.active.remove(key);
            LatchOutcome::Cleared
        }
    }
}

/// The outcomes of evaluating `key` on each of `conditions` in turn, from
/// the outstanding keys `active`.
pub open spec fn trace_of(active: Set<Seq<char>>, key: Seq<char>, conditions: Seq<bool>) -> Seq<
    LatchOutcome,
>
    decreases conditions.len(),
{
    if conditions.len() == 0 {
        Seq::empty()
    } else {
        seq![outcome_of(active.contains(key), conditions[0])] + trace_of(
            active_after(active, key, conditions[0]),
            key,
            conditions.drop_first(),
        )
    }
}

/// The outcomes of evaluating one key on each of `conditions` in turn, from
/// the state `active`.
pub open spec fn outcomes(active: bool, conditions: Seq<bool>) -> Seq<LatchOutcome>
    decreases conditions.len(),
{
    if conditions.len() == 0 {
        Seq::empty()
    } else {
        seq![outcome_of(active, conditions[0])] + outcomes(conditions[0], conditions.drop_first())
    }
}

/// The state of the key after `conditions`: that of the last one.
pub open spec fn state_after(active: bool, conditions: Seq<bool>) -> bool {
    if conditions.len() == 0 {
        active
    } else {
        conditions.last()
    }
}

/// How many of `trace` are `Fire`.
pub open spec fn fire_count(trace: Seq<LatchOutcome>) -> nat
    decreases trace.len(),
{
    if trace.len() == 0 {
        0
    } else {
        fire_count(trace.drop_last()) + if trace.last() == LatchOutcome::Fire {
            1nat
        } else {
            0nat
        }
    }
}

/// The conditions that a threshold rule sees in the readings `values`.
pub open spec fn conditions_of(direction: Direction, level: int, values: Seq<int>) -> Seq<bool> {
    values.map_values(|value: int| breached(direction, value, level))
}

/// Whether every reading of `values` is under `level`.
pub open spec fn all_below(values: Seq<int>, level: int) -> bool {
    forall|k: int| 0 <= k < values.len() ==> #[trigger] values[k] < level
}

/// Whether every reading of `values` is at or over `level`.
pub open spec fn all_at_or_above(values: Seq<int>, level: int) -> bool {
    forall|k: int| 0 <= k < values.len() ==> #[trigger] values[k] >= level
}

/// What the latch decides for a key depends on the state of that key
/// alone, which each evaluation leaves as its condition.
pub proof fn lemma_trace_of_key(active: Set<Seq<char>>, key: Seq<char>, conditions: Seq<bool>)
    ensures
        trace_of(active, key, conditions) == outcomes(active.contains(key), conditions),
    decreases conditions.len(),
{
    if conditions.len() > 0 {
        lemma_trace_of_key(
            active_after(active, key, conditions[0]),
            key,
            conditions.drop_first(),
        );
    }
}

/// There are as many outcomes as conditions, and the `k`-th outcome is
/// decided by the `k`-th condition and the one before it.
pub proof fn lemma_outcomes_pointwise(active: bool, conditions: Seq<bool>)
    ensures
        outcomes(active, conditions).len() == conditions.len(),
        forall|k: int|
            0 <= k < conditions.len() ==> #[trigger] outcomes(active, conditions)[k] == outcome_of(
                if k == 0 {
                    active
                } else {
                    conditions[k - 1]
                },
                conditions[k],
            ),
    decreases conditions.len(),
{
    if conditions.len() > 0 {
        let rest = conditions.drop_first();
        lemma_outcomes_pointwise(conditions[0], rest);
        assert forall|k: int| 0 <= k < conditions.len() implies #[trigger] outcomes(
            active,
            conditions,
        )[k] == outcome_of(
            if k == 0 {
                active
            } else {
                conditions[k - 1]
            },
            conditions[k],
        ) by {
            if k > 0 {
                assert(outcomes(active, conditions)[k] == outcomes(conditions[0], rest)[k - 1]);
                if k > 1 {
                    assert(rest[k - 2] == conditions[k - 1]);
                }
                assert(rest[k - 1] == conditions[k]);
            }
        }
    }
}

/// The fires of two runs of outcomes, one after the other, add up.
pub proof fn lemma_fire_count_concat(a: Seq<LatchOutcome>, b: Seq<LatchOutcome>)
    ensures
        fire_count(a + b) == fire_count(a) + fire_count(b),
    decreases b.len(),
{
    if b.len() == 0 {
        assert(a + b == a);
    } else {
        lemma_fire_count_concat(a, b.drop_last());
        assert((a + b).drop_last() == a + b.drop_last());
        assert((a + b).last() == b.last());
    }
}

/// Evaluating `first` and then `second` is evaluating `first + second`.
pub proof fn lemma_outcomes_concat(active: bool, first: Seq<bool>, second: Seq<bool>)
    ensures
        outcomes(active, first + second) == outcomes(active, first) + outcomes(
            state_after(active, first),
            second,
        ),
    decreases first.len(),
{
    if first.len() == 0 {
        assert(first + second == second);
        assert(outcomes(active, first) + outcomes(active, second) == outcomes(active, second));
    } else {
        let rest = first.drop_first();
        lemma_outcomes_concat(first[0], rest, second);
        assert((first + second).drop_first() == rest + second);
        assert((first + second)[0] == first[0]);
        assert(state_after(first[0], rest) == state_after(active, first)) by {
            if rest.len() > 0 {
                assert(rest.last() == first.last());
            }
        }
        assert(outcomes(active, first + second) == seq![outcome_of(active, first[0])] + (outcomes(
            first[0],
            rest,
        ) + outcomes(state_after(active, first), second)));
        assert(seq![outcome_of(active, first[0])] + (outcomes(first[0], rest) + outcomes(
            state_after(active, first),
            second,
        )) == (seq![outcome_of(active, first[0])] + outcomes(first[0], rest)) + outcomes(
            state_after(active, first),
            second,
        ));
    }
}

/// While the condition stays the same, the latch fires at most once: once
/// if the condition is true and the key was inactive, else never.
pub proof fn lemma_steady_run(active: bool, condition: bool, conditions: Seq<bool>)
    requires
        conditions.len() > 0,
        forall|k: int| 0 <= k < conditions.len() ==> conditions[k] == condition,
    ensures
        fire_count(outcomes(active, conditions)) == if condition && !active {
            1nat
        } else {
            0nat
        },
        state_after(active, conditions) == condition,
    decreases conditions.len(),
{
    let trace = outcomes(active, conditions);
    lemma_outcomes_pointwise(active, conditions);
    if conditions.len() == 1 {
        assert(trace.drop_last().len() == 0);
        assert(fire_count(trace.drop_last()) == 0);
    } else {
        let head = conditions.drop_last();
        lemma_steady_run(active, condition, head);
        lemma_outcomes_pointwise(active, head);
        assert(trace.drop_last() =~= outcomes(active, head));
        assert(trace.last() == outcome_of(condition, condition));
    }
}

/// Two evaluations in a row on a true condition, from an inactive key, give
/// `Fire` and then `Suppress`, and leave the key active.
pub proof fn lemma_fire_then_suppress(active: Set<Seq<char>>, key: Seq<char>)
    requires
        !active.contains(key),
    ensures
        outcome_of(active.contains(key), true) == LatchOutcome::Fire,
        outcome_of(active_after(active, key, true).contains(key), true) == LatchOutcome::Suppress,
        active_after(active_after(active, key, true), key, true) == active_after(active, key, true),
{
    assert(active_after(active_after(active, key, true), key, true) =~= active_after(
        active,
        key,
        true,
    ));
}

/// An alert that fired and could not be delivered fires again at the next
/// true condition if it is retried, and is suppressed if it is kept.
pub proof fn lemma_failed_alert(active: Set<Seq<char>>, key: Seq<char>, policy: RetryPolicy)
    requires
        !active.contains(key),
    ensures
        outcome_of(active.contains(key), true) == LatchOutcome::Fire,
        outcome_of(
            active_after_failure(active_after(active, key, true), key, policy).contains(key),
            true,
        ) == match policy {
            RetryPolicy::Keep => LatchOutcome::Suppress,
            RetryPolicy::Retry => LatchOutcome::Fire,
        },
{
}

/// An evaluation of one key leaves the state of every other key as it was.
pub proof fn lemma_other_keys_untouched(
    active: Set<Seq<char>>,
    key: Seq<char>,
    condition: bool,
    other: Seq<char>,
)
    requires
        other != key,
    ensures
        active_after(active, key, condition).contains(other) == active.contains(other),
{
}

/// A rule whose readings start at or over its level, fall under it, rise
/// to or over it again and fall under it once more fires twice from a
/// latch without outstanding keys, whichever side it watches and however
/// many readings each of the four stretches holds.
pub proof fn lemma_two_crossings_fire_twice(
    direction: Direction,
    level: int,
    key: Seq<char>,
    high1: Seq<int>,
    low1: Seq<int>,
    high2: Seq<int>,
    low2: Seq<int>,
)
    requires
        high1.len() > 0,
        low1.len() > 0,
        high2.len() > 0,
        low2.len() > 0,
        all_at_or_above(high1, level),
        all_below(low1, level),
        all_at_or_above(high2, level),
        all_below(low2, level),
    ensures
        fire_count(
            trace_of(
                Set::empty(),
                key,
                conditions_of(direction, level, high1 + low1 + high2 + low2),
            ),
        ) == 2,
{
    lemma_trace_of_key(
        Set::empty(),
        key,
        conditions_of(direction, level, high1 + low1 + high2 + low2),
    );
    let up = breached(direction, level, level);
    let down = !up;
    let c1 = conditions_of(direction, level, high1);
    let c2 = conditions_of(direction, level, low1);
    let c3 = conditions_of(direction, level, high2);
    let c4 = conditions_of(direction, level, low2);
    assert(conditions_of(direction, level, high1 + low1 + high2 + low2) =~= c1 + c2 + c3 + c4);
    assert forall|k: int| 0 <= k < c1.len() implies c1[k] == up by {
        assert(high1[k] >= level);
    }
    assert forall|k: int| 0 <= k < c2.len() implies c2[k] == down by {
        assert(low1[k] < level);
    }
    assert forall|k: int| 0 <= k < c3.len() implies c3[k] == up by {
        assert(high2[k] >= level);
    }
    assert forall|k: int| 0 <= k < c4.len() implies c4[k] == down by {
        assert(low2[k] < level);
    }
    lemma_steady_run(false, up, c1);
    lemma_steady_run(up, down, c2);
    lemma_steady_run(down, up, c3);
    lemma_steady_run(up, down, c4);
    lemma_outcomes_concat(false, c1 + c2 + c3, c4);
    lemma_outcomes_concat(false, c1 + c2, c3);
    lemma_outcomes_concat(false, c1, c2);
    assert(state_after(false, c1 + c2) == down) by {
        assert((c1 + c2).last() == c2.last());
    }
    assert(state_after(false, c1 + c2 + c3) == up) by {
        assert((c1 + c2 + c3).last() == c3.last());
    }
    lemma_fire_count_concat(outcomes(false, c1), outcomes(up, c2));
    lemma_fire_count_concat(outcomes(false, c1 + c2), outcomes(down, c3));
    lemma_fire_count_concat(outcomes(false, c1 + c2 + c3), outcomes(up, c4));
}

} // verus!

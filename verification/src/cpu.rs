//! The processor watcher's part: what a reading of the load becomes, and
//! the summary of the cores' frequencies.

use crate::alert::{evaluate, evaluated, notice_views, Observation, ObservationView};
use crate::config::{CPURule, Metric};
use crate::latch::AlertLatch;
use crate::message::Notice;
use crate::template::FieldMap;
use crate::text::{decimal, decimal_string};
use vstd::prelude::*;

verus! {

/// A processor reading, as spec values.
pub struct CpuReadingView {
    pub used_percent: u32,
    pub left_percent: u32,
    pub used_percent_full: Seq<char>,
    pub left_percent_full: Seq<char>,
    pub max_freq: u64,
    pub avg_freq: u64,
}

/// One reading of the processor's load.
#[derive(Debug)]
pub struct CpuReading {
    /// The load, in percent, rounded down.
    pub used_percent: u32,
    /// What is left of the processor, in percent, rounded down.
    pub left_percent: u32,
    /// The load, in percent, as text with its fraction.
    pub used_percent_full: String,
    /// What is left of the processor, in percent, as text with its fraction.
    pub left_percent_full: String,
    /// The highest frequency among the cores.
    pub max_freq: u64,
    /// The mean frequency of the cores.
    pub avg_freq: u64,
}

impl View for CpuReading {
    type V = CpuReadingView;

    open spec fn view(&self) -> CpuReadingView {
        CpuReadingView {
            used_percent: self.used_percent,
            left_percent: self.left_percent,
            used_percent_full: self.used_percent_full@,
            left_percent_full: self.left_percent_full@,
            max_freq: self.max_freq,
            avg_freq: self.avg_freq,
        }
    }
}

/// The fields of a processor reading.
pub open spec fn cpu_fields(reading: CpuReadingView) -> Map<Seq<char>, Seq<char>> {
    map![
        "max_freq"@ => decimal(reading.max_freq as nat),
        "avg_freq"@ => decimal(reading.avg_freq as nat),
        "used_percent_full"@ => reading.used_percent_full,
        "used_percent"@ => decimal(reading.used_percent as nat),
        "left_percent_full"@ => reading.left_percent_full,
        "left_percent"@ => decimal(reading.left_percent as nat),
    ]
}

/// What a processor reading is as an observation: the load is what the
/// rules are held against.
pub open spec fn cpu_observation(reading: CpuReadingView) -> ObservationView {
    ObservationView {
        source: Metric::Cpu,
        instance: None,
        value: reading.used_percent,
        fields: cpu_fields(reading),
    }
}

impl CpuReading {
    /// The fields of the reading.
    pub fn fields(&self) -> (fields: FieldMap)
        ensures
            fields@ == cpu_fields(self@),
    {
        let mut fields = FieldMap::new();
        fields.insert("max_freq", decimal_string(self.max_freq));
        fields.insert("avg_freq", decimal_string(self.avg_freq));
        fields.insert("used_percent_full", self.used_percent_full.clone());
        fields.insert("used_percent", decimal_string(self.used_percent as u64));
        fields.insert("left_percent_full", self.left_percent_full.clone());
        fields.insert("left_percent", decimal_string(self.left_percent as u64));
        fields
    }

    /// The reading as an observation.
    pub fn observe(&self) -> (seen: Observation)
        ensures
            seen@ == cpu_observation(self@),
    {
        Observation {
            source: Metric::Cpu,
            instance: None,
            value: self.used_percent,
            fields: self.fields(),
        }
    }
}

/// Holds a reading of the processor against the processor rules and gives
/// the notices of the rules that fire.
pub fn cpu_alerts(
    rules: &Vec<CPURule>,
    reading: &CpuReading,
    latch: &mut AlertLatch,
) -> (notices: Vec<Notice>)
    ensures
        final(latch)@ == evaluated(rules@, cpu_observation(reading@), old(latch)@).active,
        notice_views(notices@) == evaluated(rules@, cpu_observation(reading@), old(latch)@).notices,
{
    evaluate(rules, reading.observe(), latch)
}

/// The sum of `values`.
pub open spec fn sum(values: Seq<u64>) -> nat
    decreases values.len(),
{
    if values.len() == 0 {
        0
    } else {
        sum(values.drop_last()) + values.last() as nat
    }
}

/// Whether `top` is the greatest of `values`.
pub open spec fn is_max(values: Seq<u64>, top: u64) -> bool {
    &&& values.contains(top)
    &&& forall|k: int| 0 <= k < values.len() ==> #[trigger] values[k] <= top
}

/// The highest and the mean of the cores' frequencies; the mean is rounded
/// down. There is none without a core, nor where the sum of the
/// frequencies does not fit in 64 bits.
pub fn frequency_summary(frequencies: &Vec<u64>) -> (summary: Option<(u64, u64)>)
    ensures
        summary is Some <==> frequencies@.len() > 0 && sum(frequencies@) <= u64::MAX,
        summary matches Some((top, mean)) ==> is_max(frequencies@, top) && mean == sum(
            frequencies@,
        ) / frequencies@.len(),
{
    let n = frequencies.len();
    if n == 0 {
        return None;
    }
    let mut top: u64 = frequencies[0];
    let mut total: u64 = 0;
    let mut i: usize = 0;
    assert(frequencies@.take(0).len() == 0);
    while i < n
        invariant
            i <= n == frequencies.len(),
            n > 0,
            total == sum(frequencies@.take(i as int)),
            forall|k: int| 0 <= k < i ==> #[trigger] frequencies@[k] <= top,
            frequencies@.contains(top),
        decreases n - i,
    {
        let value = frequencies[i];
        proof {
            assert(frequencies@.take(i + 1).drop_last() == frequencies@.take(i as int));
            assert(frequencies@.take(i + 1).last() == value);
        }
        if value > u64::MAX - total {
            proof {
                lemma_sum_grows(frequencies@, i + 1);
            }
            return None;
        }
        total = total + value;
        if value > top {
            top = value;
        }
        i += 1;
    }
    assert(frequencies@.take(n as int) == frequencies@);
    Some((top, total / (n as u64)))
}

/// The sum of a part from the start is no more than the sum of the whole.
pub proof fn lemma_sum_grows(values: Seq<u64>, n: int)
    requires
        0 <= n <= values.len(),
    ensures
        sum(values.take(n)) <= sum(values),
    decreases values.len() - n,
{
    if n < values.len() {
        lemma_sum_grows(values, n + 1);
        assert(values.take(n + 1).drop_last() == values.take(n));
    } else {
        assert(values.take(n) == values);
    }
}

} // verus!

//! The memory watcher's part: what a reading of the memory becomes.

use crate::alert::{evaluate, evaluated, notice_views, Observation, ObservationView};
use crate::config::{MemoryRule, Metric};
use crate::latch::AlertLatch;
use crate::message::Notice;
use crate::template::FieldMap;
use crate::text::{decimal, decimal_string};
use crate::utils::{format_size_decimal, size_text};
use vstd::prelude::*;

verus! {

/// A memory reading, as spec values.
pub struct MemoryReadingView {
    pub total: u64,
    pub used: u64,
    pub free: u64,
    pub used_percent: u32,
    pub left_percent: u32,
    pub used_percent_full: Seq<char>,
    pub left_percent_full: Seq<char>,
}

/// One reading of the memory.
#[derive(Debug)]
pub struct MemoryReading {
    /// The size of the memory, in bytes.
    pub total: u64,
    /// The bytes in use.
    pub used: u64,
    /// The bytes that are free.
    pub free: u64,
    /// The part in use, in percent, rounded down.
    pub used_percent: u32,
    /// The part that is left, in percent, rounded down.
    pub left_percent: u32,
    /// The part in use, in percent, as text with its fraction.
    pub used_percent_full: String,
    /// The part that is left, in percent, as text with its fraction.
    pub left_percent_full: String,
}

impl View for MemoryReading {
    type V = MemoryReadingView;

    open spec fn view(&self) -> MemoryReadingView {
        MemoryReadingView {
            total: self.total,
            used: self.used,
            free: self.free,
            used_percent: self.used_percent,
            left_percent: self.left_percent,
            used_percent_full: self.used_percent_full@,
            left_percent_full: self.left_percent_full@,
        }
    }
}

/// The three sizes of a reading as texts for a reader.
pub struct SizeTexts {
    pub total: Seq<char>,
    pub used: Seq<char>,
    pub left: Seq<char>,
}

/// The fields of a memory reading whose sizes read as `sizes`.
pub open spec fn memory_fields_with(reading: MemoryReadingView, sizes: SizeTexts) -> Map<
    Seq<char>,
    Seq<char>,
> {
    map![
        "total_bytes"@ => decimal(reading.total as nat),
        "total"@ => sizes.total,
        "used_bytes"@ => decimal(reading.used as nat),
        "used"@ => sizes.used,
        "used_percent_full"@ => reading.used_percent_full,
        "used_percent"@ => decimal(reading.used_percent as nat),
        "left_bytes"@ => decimal(reading.free as nat),
        "left"@ => sizes.left,
        "left_percent_full"@ => reading.left_percent_full,
        "left_percent"@ => decimal(reading.left_percent as nat),
    ]
}

/// The fields of a memory reading.
pub open spec fn memory_fields(reading: MemoryReadingView) -> Map<Seq<char>, Seq<char>> {
    memory_fields_with(
        reading,
        SizeTexts {
            total: size_text(reading.total),
            used: size_text(reading.used),
            left: size_text(reading.free),
        },
    )
}

/// What a memory reading is as an observation: the part in use is what the
/// rules are held against.
pub open spec fn memory_observation(reading: MemoryReadingView) -> ObservationView {
    ObservationView {
        source: Metric::Memory,
        instance: None,
        value: reading.used_percent,
        fields: memory_fields(reading),
    }
}

impl MemoryReading {
    /// The fields of the reading, with the texts given for its three sizes.
    pub fn fields_with(&self, total: String, used: String, left: String) -> (fields: FieldMap)
        ensures
            fields@ == memory_fields_with(
                self@,
                SizeTexts { total: total@, used: used@, left: left@ },
            ),
    {
        let mut fields = FieldMap::new();
        fields.insert("total_bytes", decimal_string(self.total));
        fields.insert("total", total);
        fields.insert("used_bytes", decimal_string(self.used));
        fields.insert("used", used);
        fields.insert("used_percent_full", self.used_percent_full.clone());
        fields.insert("used_percent", decimal_string(self.used_percent as u64));
        fields.insert("left_bytes", decimal_string(self.free));
        fields.insert("left", left);
        fields.insert("left_percent_full", self.left_percent_full.clone());
        fields.insert("left_percent", decimal_string(self.left_percent as u64));
        fields
    }

    /// The fields of the reading.
    pub fn fields(&self) -> (fields: FieldMap)
        ensures
            fields@ == memory_fields(self@),
    {
        self.fields_with(
            format_size_decimal(self.total),
            format_size_decimal(self.used),
            format_size_decimal(self.free),
        )
    }

    /// The reading as an observation.
    pub fn observe(&self) -> (seen: Observation)
        ensures
            seen@ == memory_observation(self@),
    {
        Observation {
            source: Metric::Memory,
            instance: None,
            value: self.used_percent,
            fields: self.fields(),
        }
    }
}

/// Holds a reading of the memory against the memory rules and gives the
/// notices of the rules that fire.
pub fn memory_alerts(
    rules: &Vec<MemoryRule>,
    reading: &MemoryReading,
    latch: &mut AlertLatch,
) -> (notices: Vec<Notice>)
    ensures
        final(latch)@ == evaluated(rules@, memory_observation(reading@), old(latch)@).active,
        notice_views(notices@) == evaluated(
            rules@,
            memory_observation(reading@),
            old(latch)@,
        ).notices,
{
    evaluate(rules, reading.observe(), latch)
}

} // verus!

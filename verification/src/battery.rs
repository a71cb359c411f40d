//! The battery watcher's part: what a reading of the charge becomes.

use crate::alert::{evaluate, evaluated, notice_views, Observation, ObservationView};
use crate::config::{BatteryRule, Metric};
use crate::latch::AlertLatch;
use crate::message::Notice;
use crate::template::FieldMap;
use crate::text::{decimal, decimal_string};
use vstd::prelude::*;

verus! {

/// One reading of the battery.
#[derive(Clone, Copy, Debug, PartialEq, Eq)]
pub struct BatteryReading {
    /// The charge that is left, in percent, rounded down.
    pub percent: u32,
}

/// The fields of a battery reading: the charge that is left and the charge
/// that is used up, in percent.
pub open spec fn battery_fields(percent: u32) -> Map<Seq<char>, Seq<char>> {
    map![
        "left_percent"@ => decimal(percent as nat),
        "used_percent"@ => decimal((100 - percent) as nat),
    ]
}

/// What a battery reading is as an observation.
pub open spec fn battery_observation(reading: BatteryReading) -> ObservationView {
    ObservationView {
        source: Metric::Battery,
        instance: None,
        value: reading.percent,
        fields: battery_fields(reading.percent),
    }
}

impl BatteryReading {
    /// The fields of the reading.
    pub fn fields(&self) -> (fields: FieldMap)
        requires
            self.percent <= 100,
        ensures
            fields@ == battery_fields(self.percent),
    {
        let mut fields = FieldMap::new();
        fields.insert("left_percent", decimal_string(self.percent as u64));
        fields.insert("used_percent", decimal_string((100 - self.percent) as u64));
        fields
    }

    /// The reading as an observation.
    pub fn observe(&self) -> (seen: Observation)
        requires
            self.percent <= 100,
        ensures
            seen@ == battery_observation(*self),
    {
        Observation {
            source: Metric::Battery,
            instance: None,
            value: self.percent,
            fields: self.fields(),
        }
    }
}

/// Holds a reading of the battery against the battery rules and gives the
/// notices of the rules that fire.
pub fn battery_alerts(
    rules: &Vec<BatteryRule>,
    reading: &BatteryReading,
    latch: &mut AlertLatch,
) -> (notices: Vec<Notice>)
    requires
        reading.percent <= 100,
    ensures
        final(latch)@ == evaluated(rules@, battery_observation(*reading), old(latch)@).active,
        notice_views(notices@) == evaluated(
            rules@,
            battery_observation(*reading),
            old(latch)@,
        ).notices,
{
    evaluate(rules, reading.observe(), latch)
}

} // verus!

//! The storage watcher's part: what a reading of the disks becomes. Each
//! disk is held against the rules under a key of its own, which its mount
//! point tells apart from the keys of the other disks.

use crate::alert::{
    evaluate, evaluated, notice_views, Evaluation, Observation, ObservationView,
};
use crate::config::{Metric, StorageRule};
use crate::latch::AlertLatch;
use crate::memory::SizeTexts;
use crate::message::{Notice, NoticeView};
use crate::template::FieldMap;
use crate::text::{decimal, decimal_string};
use crate::utils::{format_size_decimal, size_text};
use vstd::prelude::*;

verus! {

/// What a disk is made of.
#[derive(Clone, Copy, Debug, PartialEq, Eq, Structural)]
pub enum DiskKind {
    Hdd,
    Ssd,
    Unknown,
}

impl DiskKind {
    /// The kind's name in a message.
    pub open spec fn name(self) -> Seq<char> {
        match self {
            DiskKind::Hdd => "HDD"@,
            DiskKind::Ssd => "SSD"@,
            DiskKind::Unknown => "unknown"@,
        }
    }

    /// The kind's name in a message.
    pub fn as_str(self) -> (name: &'static str)
        ensures
            name@ == self.name(),
    {
        match self {
            DiskKind::Hdd => "HDD",
            DiskKind::Ssd => "SSD",
            DiskKind::Unknown => "unknown",
        }
    }
}

/// A disk reading, as spec values.
pub struct DiskReadingView {
    pub kind: DiskKind,
    pub name: Seq<char>,
    pub fs: Seq<char>,
    pub mount: Seq<char>,
    pub total: u64,
    pub left: u64,
    pub used_percent: u32,
    pub left_percent: u32,
    pub used_percent_full: Seq<char>,
    pub left_percent_full: Seq<char>,
}

/// One reading of one disk.
#[derive(Debug)]
pub struct DiskReading {
    pub kind: DiskKind,
    /// The disk's name.
    pub name: String,
    /// The file system on the disk.
    pub fs: String,
    /// Where the disk is mounted.
    pub mount: String,
    /// The disk's size, in bytes.
    pub total: u64,
    /// The bytes that are available.
    pub left: u64,
    /// The part in use, in percent, rounded down.
    pub used_percent: u32,
    /// The part that is left, in percent, rounded down.
    pub left_percent: u32,
    /// The part in use, in percent, as text with its fraction.
    pub used_percent_full: String,
    /// The part that is left, in percent, as text with its fraction.
    pub left_percent_full: String,
}

impl View for DiskReading {
    type V = DiskReadingView;

    open spec fn view(&self) -> DiskReadingView {
        DiskReadingView {
            kind: self.kind,
            name: self.name@,
            fs: self.fs@,
            mount: self.mount@,
            total: self.total,
            left: self.left,
            used_percent: self.used_percent,
            left_percent: self.left_percent,
            used_percent_full: self.used_percent_full@,
            left_percent_full: self.left_percent_full@,
        }
    }
}

/// The bytes in use on a disk: its size without what is available.
pub open spec fn used_bytes(reading: DiskReadingView) -> u64 {
    (reading.total - reading.left) as u64
}

/// The fields of a disk reading whose sizes read as `sizes`.
pub open spec fn disk_fields_with(reading: DiskReadingView, sizes: SizeTexts) -> Map<
    Seq<char>,
    Seq<char>,
> {
    map![
        "kind"@ => reading.kind.name(),
        "name"@ => reading.name,
        "fs"@ => reading.fs,
        "mount"@ => reading.mount,
        "total_bytes"@ => decimal(reading.total as nat),
        "total"@ => sizes.total,
        "used_bytes"@ => decimal(used_bytes(reading) as nat),
        "used"@ => sizes.used,
        "used_percent_full"@ => reading.used_percent_full,
        "value_percent"@ => decimal(reading.used_percent as nat),
        "left_bytes"@ => decimal(reading.left as nat),
        "left"@ => sizes.left,
        "left_percent_full"@ => reading.left_percent_full,
        "left_percent"@ => decimal(reading.left_percent as nat),
    ]
}

/// The fields of a disk reading.
pub open spec fn disk_fields(reading: DiskReadingView) -> Map<Seq<char>, Seq<char>> {
    disk_fields_with(
        reading,
        SizeTexts {
            total: size_text(reading.total),
            used: size_text(used_bytes(reading)),
            left: size_text(reading.left),
        },
    )
}

/// What a disk reading is as an observation: the part in use is what the
/// rules are held against, and the mount point tells the disk apart.
pub open spec fn disk_observation(reading: DiskReadingView) -> ObservationView {
    ObservationView {
        source: Metric::Storage,
        instance: Some(reading.mount),
        value: reading.used_percent,
        fields: disk_fields(reading),
    }
}

impl DiskReading {
    /// The fields of the reading, with the texts given for its three sizes.
    pub fn fields_with(&self, total: String, used: String, left: String) -> (fields: FieldMap)
        requires
            self.left <= self.total,
        ensures
            fields@ == disk_fields_with(
                self@,
                SizeTexts { total: total@, used: used@, left: left@ },
            ),
    {
        let mut fields = FieldMap::new();
        fields.insert("kind", self.kind.as_str().to_owned());
        fields.insert("name", self.name.clone());
        fields.insert("fs", self.fs.clone());
        fields.insert("mount", self.mount.clone());
        fields.insert("total_bytes", decimal_string(self.total));
        fields.insert("total", total);
        fields.insert("used_bytes", decimal_string(self.total - self.left));
        fields.insert("used", used);
        fields.insert("used_percent_full", self.used_percent_full.clone());
        fields.insert("value_percent", decimal_string(self.used_percent as u64));
        fields.insert("left_bytes", decimal_string(self.left));
        fields.insert("left", left);
        fields.insert("left_percent_full", self.left_percent_full.clone());
        fields.insert("left_percent", decimal_string(self.left_percent as u64));
        fields
    }

    /// The fields of the reading.
    pub fn fields(&self) -> (fields: FieldMap)
        requires
            self.left <= self.total,
        ensures
            fields@ == disk_fields(self@),
    {
        self.fields_with(
            format_size_decimal(self.total),
            format_size_decimal(self.total - self.left),
            format_size_decimal(self.left),
        )
    }

    /// The reading as an observation.
    pub fn observe(&self) -> (seen: Observation)
        requires
            self.left <= self.total,
        ensures
            seen@ == disk_observation(self@),
    {
        Observation {
            source: Metric::Storage,
            instance: Some(self.mount.clone()),
            value: self.used_percent,
            fields: self.fields(),
        }
    }
}

/// Holds a reading of one disk against the storage rules and gives the
/// notices of the rules that fire.
pub fn disk_alerts(
    rules: &Vec<StorageRule>,
    reading: &DiskReading,
    latch: &mut AlertLatch,
) -> (notices: Vec<Notice>)
    requires
        reading.left <= reading.total,
    ensures
        final(latch)@ == evaluated(rules@, disk_observation(reading@), old(latch)@).active,
        notice_views(notices@) == evaluated(rules@, disk_observation(reading@), old(latch)@).notices,
{
    evaluate(rules, reading.observe(), latch)
}

/// The disk readings of `disks`, as spec values.
pub open spec fn disk_views(disks: Seq<DiskReading>) -> Seq<DiskReadingView> {
    disks.map_values(|disk: DiskReading| disk@)
}

/// What holding the disks `disks` against `rules` gives: the disks are
/// taken in order, each against the keys that the disks before it left,
/// and the notices follow one another in that order.
pub open spec fn evaluated_disks(
    rules: Seq<StorageRule>,
    disks: Seq<DiskReadingView>,
    active: Set<Seq<char>>,
) -> Evaluation
    decreases disks.len(),
{
    if disks.len() == 0 {
        Evaluation { active, notices: Seq::empty() }
    } else {
        let before = evaluated_disks(rules, disks.drop_last(), active);
        let last = evaluated(rules, disk_observation(disks.last()), before.active);
        Evaluation { active: last.active, notices: before.notices + last.notices }
    }
}

/// Holds a reading of every disk against the storage rules and gives the
/// notices of the rules that fire, disk by disk.
pub fn storage_alerts(
    rules: &Vec<StorageRule>,
    disks: &Vec<DiskReading>,
    latch: &mut AlertLatch,
) -> (notices: Vec<Notice>)
    requires
        forall|k: int| 0 <= k < disks@.len() ==> (#[trigger] disks@[k]).left <= disks@[k].total,
    ensures
        final(latch)@ == evaluated_disks(rules@, disk_views(disks@), old(latch)@).active,
        notice_views(notices@) == evaluated_disks(
            rules@,
            disk_views(disks@),
            old(latch)@,
        ).notices,
{
    let mut notices: Vec<Notice> = Vec::new();
    let mut i: usize = 0;
    assert(disk_views(disks@).take(0).len() == 0);
    assert(notice_views(notices@) =~= Seq::<NoticeView>::empty());
    while i < disks.len()
        invariant
            i <= disks.len(),
            forall|k: int| 0 <= k < disks@.len() ==> (#[trigger] disks@[k]).left <= disks@[k].total,
            latch@ == evaluated_disks(
                rules@,
                disk_views(disks@).take(i as int),
                old(latch)@,
            ).active,
            notice_views(notices@) == evaluated_disks(
                rules@,
                disk_views(disks@).take(i as int),
                old(latch)@,
            ).notices,
        decreases disks.len() - i,
    {
        proof {
            let views = disk_views(disks@);
            assert(views.take(i + 1).drop_last() == views.take(i as int));
            assert(views.take(i + 1).last() == disks@[i as int]@);
        }
        let ghost sent = notice_views(notices@);
        let mut more = disk_alerts(rules, &disks[i], latch);
        let ghost added = notice_views(more@);
        notices.append(&mut more);
        assert(notice_views(notices@) =~= sent + added);
        i += 1;
    }
    assert(disk_views(disks@).take(disks@.len() as int) == disk_views(disks@));
    notices
}

} // verus!

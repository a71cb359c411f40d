use alertify::alert::{check_rule, evaluate, make_alert_key, Observation};
use alertify::battery::{battery_alerts, BatteryReading};
use alertify::config::{BatteryRule, CPURule, MemoryRule, Metric, StorageRule};
use alertify::cpu::{cpu_alerts, frequency_summary, CpuReading};
use alertify::latch::{AlertLatch, LatchOutcome};
use alertify::memory::{memory_alerts, MemoryReading};
use alertify::message::Message;
use alertify::storage::{disk_alerts, storage_alerts, DiskKind, DiskReading};
use alertify::template::FieldMap;
use alertify::text::{decimal_string, signed_decimal_string};

fn saying(summary: &str) -> Message {
    let mut message = Message::default();
    message.summary = Some(summary.to_string());
    message
}

fn summaries(notices: &[alertify::message::Notice]) -> Vec<String> {
    notices.iter().map(|notice| notice.summary.clone().unwrap_or_default()).collect()
}

fn disk(mount: &str, used_percent: u32) -> DiskReading {
    DiskReading {
        kind: DiskKind::Ssd,
        name: "nvme0n1p2".to_string(),
        fs: "ext4".to_string(),
        mount: mount.to_string(),
        total: 500_000_000_000,
        left: 20_000_000_000,
        used_percent,
        left_percent: 100 - used_percent,
        used_percent_full: format!("{}.5", used_percent),
        left_percent_full: format!("{}.5", 99 - used_percent.min(99)),
    }
}

#[test]
fn keys_name_the_metric_the_instance_and_the_level() {
    assert_eq!(make_alert_key(Metric::Battery, &None, 20), "battery-20");
    assert_eq!(make_alert_key(Metric::Cpu, &None, 90), "cpu-90");
    assert_eq!(make_alert_key(Metric::Memory, &None, 0), "memory-0");
    assert_eq!(
        make_alert_key(Metric::Storage, &Some("/home".to_string()), 95),
        "storage-/home-95"
    );
    assert_eq!(make_alert_key(Metric::Storage, &Some("/".to_string()), 100), "storage-/-100");
}

#[test]
fn numbers_are_written_in_decimal() {
    assert_eq!(decimal_string(0), "0");
    assert_eq!(decimal_string(7), "7");
    assert_eq!(decimal_string(10), "10");
    assert_eq!(decimal_string(1234567890), "1234567890");
    assert_eq!(decimal_string(u64::MAX), "18446744073709551615");
    assert_eq!(signed_decimal_string(0), "0");
    assert_eq!(signed_decimal_string(-1), "-1");
    assert_eq!(signed_decimal_string(42), "42");
    assert_eq!(signed_decimal_string(i64::MIN), "-9223372036854775808");
    assert_eq!(signed_decimal_string(i64::MAX), "9223372036854775807");
    for n in [0u64, 9, 10, 99, 100, 101, 65535, 4294967296] {
        assert_eq!(decimal_string(n), n.to_string());
    }
}

#[test]
fn battery_scenario_gives_a_notice_at_each_fire() {
    let rules = vec![BatteryRule {
        level: 20,
        message: saying("{left_percent}% left, {used_percent}% used, under {level}%"),
    }];
    let mut latch = AlertLatch::new();
    let mut sent = Vec::new();
    for percent in [25, 18, 15, 22, 10] {
        let notices = battery_alerts(&rules, &BatteryReading { percent }, &mut latch);
        sent.push(summaries(&notices));
    }
    assert_eq!(
        sent,
        vec![
            vec![],
            vec!["18% left, 82% used, under 20%".to_string()],
            vec![],
            vec![],
            vec!["10% left, 90% used, under 20%".to_string()],
        ]
    );
    assert!(latch.is_active("battery-20"));
}

#[test]
fn battery_fields_hold_both_percentages() {
    let fields = BatteryReading { percent: 0 }.fields();
    assert_eq!(fields.get("left_percent").map(|v| v.as_str()), Some("0"));
    assert_eq!(fields.get("used_percent").map(|v| v.as_str()), Some("100"));
    let fields = BatteryReading { percent: 100 }.fields();
    assert_eq!(fields.get("left_percent").map(|v| v.as_str()), Some("100"));
    assert_eq!(fields.get("used_percent").map(|v| v.as_str()), Some("0"));
    assert!(fields.get("level").is_none());
}

#[test]
fn each_battery_rule_has_a_key_of_its_own() {
    let rules = vec![
        BatteryRule { level: 20, message: saying("low {level}") },
        BatteryRule { level: 10, message: saying("very low {level}") },
        BatteryRule { level: 20, message: saying("again {level}") },
    ];
    let mut latch = AlertLatch::new();
    let notices = battery_alerts(&rules, &BatteryReading { percent: 15 }, &mut latch);
    assert_eq!(summaries(&notices), vec!["low 20"]);
    assert_eq!(notices[0].key.as_deref(), Some("battery-20"));
    assert!(latch.is_active("battery-20"));
    assert!(!latch.is_active("battery-10"));
    let notices = battery_alerts(&rules, &BatteryReading { percent: 5 }, &mut latch);
    assert_eq!(summaries(&notices), vec!["very low 10"]);
    let notices = battery_alerts(&rules, &BatteryReading { percent: 50 }, &mut latch);
    assert!(notices.is_empty());
    assert!(!latch.is_active("battery-20"));
    assert!(!latch.is_active("battery-10"));
}

#[test]
fn a_cpu_rule_fires_at_its_level() {
    let rules = vec![CPURule {
        level: 90,
        message: saying(
            "{used_percent}/{used_percent_full} {left_percent}/{left_percent_full} {max_freq} {avg_freq} {level}",
        ),
    }];
    let reading = |used: u32| CpuReading {
        used_percent: used,
        left_percent: 99 - used.min(99),
        used_percent_full: format!("{}.25", used),
        left_percent_full: format!("{}.75", 99 - used.min(99)),
        max_freq: 3600,
        avg_freq: 2400,
    };
    let mut latch = AlertLatch::new();
    assert!(cpu_alerts(&rules, &reading(89), &mut latch).is_empty());
    let notices = cpu_alerts(&rules, &reading(90), &mut latch);
    assert_eq!(summaries(&notices), vec!["90/90.25 9/9.75 3600 2400 90"]);
    assert!(cpu_alerts(&rules, &reading(95), &mut latch).is_empty());
    assert!(latch.is_active("cpu-90"));
    assert!(cpu_alerts(&rules, &reading(10), &mut latch).is_empty());
    assert!(!latch.is_active("cpu-90"));
}

#[test]
fn frequencies_are_summed_up() {
    assert_eq!(frequency_summary(&vec![]), None);
    assert_eq!(frequency_summary(&vec![2400]), Some((2400, 2400)));
    assert_eq!(frequency_summary(&vec![1000, 3000, 2001]), Some((3000, 2000)));
    assert_eq!(frequency_summary(&vec![0, 0]), Some((0, 0)));
    assert_eq!(frequency_summary(&vec![u64::MAX]), Some((u64::MAX, u64::MAX)));
    assert_eq!(frequency_summary(&vec![u64::MAX, 1]), None);
    assert_eq!(frequency_summary(&vec![u64::MAX - 1, 1]), Some((u64::MAX - 1, u64::MAX / 2)));
}

#[test]
fn memory_fields_hold_sizes_for_a_reader() {
    let reading = MemoryReading {
        total: 16_000_000_000,
        used: 15_200_000_000,
        free: 800_000_000,
        used_percent: 95,
        left_percent: 5,
        used_percent_full: "95".to_string(),
        left_percent_full: "5".to_string(),
    };
    let fields = reading.fields();
    let get = |name: &str| fields.get(name).map(|value| value.as_str().to_string());
    assert_eq!(get("total_bytes").as_deref(), Some("16000000000"));
    assert_eq!(get("total").as_deref(), Some("16 GB"));
    assert_eq!(get("used_bytes").as_deref(), Some("15200000000"));
    assert_eq!(get("used").as_deref(), Some("15.20 GB"));
    assert_eq!(get("left_bytes").as_deref(), Some("800000000"));
    assert_eq!(get("left").as_deref(), Some("800 MB"));
    assert_eq!(get("used_percent").as_deref(), Some("95"));
    assert_eq!(get("used_percent_full").as_deref(), Some("95"));
    assert_eq!(get("left_percent").as_deref(), Some("5"));
    assert_eq!(get("left_percent_full").as_deref(), Some("5"));
    let fields = reading.fields_with("a".to_string(), "b".to_string(), "c".to_string());
    assert_eq!(fields.get("total").map(|v| v.as_str()), Some("a"));
    assert_eq!(fields.get("used").map(|v| v.as_str()), Some("b"));
    assert_eq!(fields.get("left").map(|v| v.as_str()), Some("c"));
    assert_eq!(fields.get("total_bytes").map(|v| v.as_str()), Some("16000000000"));
}

#[test]
fn a_memory_rule_fires_once_while_memory_is_short() {
    let rules = vec![MemoryRule { level: 90, message: saying("{used} of {total} ({level}%)") }];
    let reading = |used_percent: u32| MemoryReading {
        total: 8_000_000_000,
        used: 80_000_000 * used_percent as u64,
        free: 80_000_000 * (100 - used_percent) as u64,
        used_percent,
        left_percent: 100 - used_percent,
        used_percent_full: used_percent.to_string(),
        left_percent_full: (100 - used_percent).to_string(),
    };
    let mut latch = AlertLatch::new();
    let notices = memory_alerts(&rules, &reading(92), &mut latch);
    assert_eq!(summaries(&notices), vec!["7.36 GB of 8 GB (90%)"]);
    assert!(memory_alerts(&rules, &reading(93), &mut latch).is_empty());
    assert!(memory_alerts(&rules, &reading(50), &mut latch).is_empty());
    let notices = memory_alerts(&rules, &reading(100), &mut latch);
    assert_eq!(summaries(&notices), vec!["8 GB of 8 GB (90%)"]);
}

#[test]
fn disk_fields_hold_the_disk_and_its_sizes() {
    let reading = disk("/home", 96);
    let fields = reading.fields();
    let get = |name: &str| fields.get(name).map(|value| value.as_str().to_string());
    assert_eq!(get("kind").as_deref(), Some("SSD"));
    assert_eq!(get("name").as_deref(), Some("nvme0n1p2"));
    assert_eq!(get("fs").as_deref(), Some("ext4"));
    assert_eq!(get("mount").as_deref(), Some("/home"));
    assert_eq!(get("total_bytes").as_deref(), Some("500000000000"));
    assert_eq!(get("total").as_deref(), Some("500 GB"));
    assert_eq!(get("used_bytes").as_deref(), Some("480000000000"));
    assert_eq!(get("used").as_deref(), Some("480 GB"));
    assert_eq!(get("left_bytes").as_deref(), Some("20000000000"));
    assert_eq!(get("left").as_deref(), Some("20 GB"));
    assert_eq!(get("used_percent_full").as_deref(), Some("96.5"));
    assert_eq!(get("value_percent").as_deref(), Some("96"));
    assert_eq!(get("left_percent_full").as_deref(), Some("3.5"));
    assert_eq!(get("left_percent").as_deref(), Some("4"));
    assert_eq!(DiskKind::Hdd.as_str(), "HDD");
    assert_eq!(DiskKind::Ssd.as_str(), "SSD");
    assert_eq!(DiskKind::Unknown.as_str(), "unknown");
}

#[test]
fn a_full_disk_has_nothing_left() {
    let mut reading = disk("/", 100);
    reading.left = 0;
    let fields = reading.fields();
    assert_eq!(fields.get("used_bytes").map(|v| v.as_str()), Some("500000000000"));
    assert_eq!(fields.get("left").map(|v| v.as_str()), Some("0 B"));
    reading.total = 0;
    let fields = reading.fields();
    assert_eq!(fields.get("used_bytes").map(|v| v.as_str()), Some("0"));
    assert_eq!(fields.get("total").map(|v| v.as_str()), Some("0 B"));
}

#[test]
fn storage_scenario_keeps_home_and_data_apart() {
    let rules = vec![StorageRule { level: 95, message: saying("{mount} at {value_percent}%") }];
    let mut latch = AlertLatch::new();
    let notices = disk_alerts(&rules, &disk("/home", 96), &mut latch);
    assert_eq!(summaries(&notices), vec!["/home at 96%"]);
    assert_eq!(notices[0].key.as_deref(), Some("storage-/home-95"));
    assert!(latch.is_active("storage-/home-95"));
    assert!(!latch.is_active("storage-/data-95"));
    assert!(disk_alerts(&rules, &disk("/data", 50), &mut latch).is_empty());
    assert!(latch.is_active("storage-/home-95"));
    let notices = disk_alerts(&rules, &disk("/data", 95), &mut latch);
    assert_eq!(summaries(&notices), vec!["/data at 95%"]);
    assert!(disk_alerts(&rules, &disk("/home", 99), &mut latch).is_empty());
    assert!(disk_alerts(&rules, &disk("/home", 10), &mut latch).is_empty());
    assert!(!latch.is_active("storage-/home-95"));
    assert!(latch.is_active("storage-/data-95"));
    assert!(disk_alerts(&rules, &disk("/data", 97), &mut latch).is_empty());
}

#[test]
fn all_disks_are_held_against_all_rules() {
    let rules = vec![
        StorageRule { level: 95, message: saying("{mount} over {level}") },
        StorageRule { level: 80, message: saying("{mount} over {level}") },
    ];
    let disks = vec![disk("/", 85), disk("/home", 99), disk("/data", 10)];
    let mut latch = AlertLatch::new();
    let notices = storage_alerts(&rules, &disks, &mut latch);
    assert_eq!(summaries(&notices), vec!["/ over 80", "/home over 95", "/home over 80"]);
    assert!(storage_alerts(&rules, &disks, &mut latch).is_empty());
    assert!(latch.is_active("storage-/-80"));
    assert!(!latch.is_active("storage-/-95"));
    assert!(latch.is_active("storage-/home-95"));
    assert!(!latch.is_active("storage-/data-80"));
    let none: Vec<DiskReading> = Vec::new();
    assert!(storage_alerts(&rules, &none, &mut latch).is_empty());
}

#[test]
fn one_rule_is_held_against_an_observation() {
    let rule = CPURule { level: 50, message: Message::default() };
    let seen = |value: u32| Observation {
        source: Metric::Cpu,
        instance: None,
        value,
        fields: FieldMap::new(),
    };
    let mut latch = AlertLatch::new();
    assert_eq!(check_rule(&rule, &seen(49), &mut latch), LatchOutcome::Cleared);
    assert_eq!(check_rule(&rule, &seen(50), &mut latch), LatchOutcome::Fire);
    assert_eq!(check_rule(&rule, &seen(51), &mut latch), LatchOutcome::Suppress);
    assert!(latch.is_active("cpu-50"));
    let battery = Observation {
        source: Metric::Battery,
        instance: None,
        value: 49,
        fields: FieldMap::new(),
    };
    assert_eq!(check_rule(&rule, &battery, &mut latch), LatchOutcome::Fire);
    assert!(latch.is_active("battery-50"));
}

#[test]
fn the_level_overrides_a_field_of_the_same_name() {
    let rules = vec![
        MemoryRule { level: 10, message: saying("{level} {other}") },
        MemoryRule { level: 20, message: saying("{level} {other}") },
    ];
    let mut fields = FieldMap::new();
    fields.insert("level", "mine".to_string());
    fields.insert("other", "kept".to_string());
    let seen = Observation { source: Metric::Memory, instance: None, value: 30, fields };
    let mut latch = AlertLatch::new();
    let notices = evaluate(&rules, seen, &mut latch);
    assert_eq!(summaries(&notices), vec!["10 kept", "20 kept"]);
}

use alertify::config::{
    check_levels, get_config_dir, get_config_path, validate_config, BatteryRule, CPURule, Config, DeviceRule, LevelError,
    MemoryRule, Metric, PowerStatusRule, StorageRule, ThresholdRule, MAX_LEVEL,
};
use alertify::latch::Direction;
use alertify::message::Message;

#[test]
fn the_default_rules_have_the_documented_levels() {
    let battery = BatteryRule::default();
    assert_eq!(battery.level, 20);
    assert_eq!(battery.message.urgency, "critical");
    assert_eq!(battery.message.appname, "Battery");
    let cpu = CPURule::default();
    assert_eq!(cpu.level, 90);
    assert_eq!(cpu.message.urgency, "normal");
    assert_eq!(cpu.message.appname, "CPU");
    let memory = MemoryRule::default();
    assert_eq!(memory.level, 90);
    assert_eq!(memory.message.urgency, "normal");
    assert_eq!(memory.message.appname, "Memory");
    let storage = StorageRule::default();
    assert_eq!(storage.level, 95);
    assert_eq!(storage.message.urgency, "normal");
    assert_eq!(storage.message.appname, "Storage");
    for message in [&battery.message, &cpu.message, &memory.message, &storage.message] {
        assert_eq!(message.summary, None);
        assert_eq!(message.body, None);
        assert_eq!(message.icon, None);
        assert_eq!(message.timeout, None);
        assert_eq!(message.hints.len(), 0);
        assert_eq!(message.command, None);
    }
}

#[test]
fn the_default_device_rule_matches_added_devices() {
    let rule = DeviceRule::default();
    assert_eq!(rule.action.as_deref(), Some("add"));
    assert_eq!(rule.initialized, None);
    assert_eq!(rule.subsystem, None);
    assert_eq!(rule.sysname, None);
    assert_eq!(rule.sysnum, None);
    assert_eq!(rule.devtype, None);
    assert_eq!(rule.driver, None);
    assert_eq!(rule.message.urgency, "low");
    assert_eq!(rule.message.appname, "Device");
}

#[test]
fn the_default_power_supply_rule_has_no_filter() {
    let rule = PowerStatusRule::default();
    assert_eq!(rule.name, None);
    assert_eq!(rule.supply_type, None);
    assert_eq!(rule.online, None);
    assert_eq!(rule.message.urgency, "low");
    assert_eq!(rule.message.appname, "Power supply");
}

#[test]
fn the_default_configuration_has_one_rule_of_each_category() {
    let config = Config::default();
    assert_eq!(config.battery.len(), 1);
    assert_eq!(config.battery[0].level, 20);
    assert_eq!(config.power_supply.len(), 1);
    assert_eq!(config.cpu.len(), 1);
    assert_eq!(config.cpu[0].level, 90);
    assert_eq!(config.memory.len(), 1);
    assert_eq!(config.memory[0].level, 90);
    assert_eq!(config.storage.len(), 1);
    assert_eq!(config.storage[0].level, 95);
    assert_eq!(config.device.len(), 1);
    assert_eq!(config.device[0].action.as_deref(), Some("add"));
    assert_eq!(validate_config(&config), Ok(()));
}

#[test]
fn rules_tell_their_level_and_message() {
    let rule = BatteryRule { level: 33, message: Message::default() };
    assert_eq!(ThresholdRule::level(&rule), 33);
    assert_eq!(ThresholdRule::message(&rule).appname, "");
    let rule = StorageRule::default();
    assert_eq!(ThresholdRule::level(&rule), 95);
    assert_eq!(ThresholdRule::message(&rule).appname, "Storage");
}

#[test]
fn metrics_have_a_direction_a_cadence_a_prefix_and_a_title() {
    assert_eq!(Metric::Battery.direction(), Direction::Low);
    assert_eq!(Metric::Cpu.direction(), Direction::High);
    assert_eq!(Metric::Memory.direction(), Direction::High);
    assert_eq!(Metric::Storage.direction(), Direction::High);
    assert_eq!(Metric::Battery.poll_seconds(), 10);
    assert_eq!(Metric::Cpu.poll_seconds(), 10);
    assert_eq!(Metric::Memory.poll_seconds(), 10);
    assert_eq!(Metric::Storage.poll_seconds(), 60);
    assert_eq!(Metric::Battery.prefix_str(), "battery");
    assert_eq!(Metric::Cpu.prefix_str(), "cpu");
    assert_eq!(Metric::Memory.prefix_str(), "memory");
    assert_eq!(Metric::Storage.prefix_str(), "storage");
    assert_eq!(Metric::Battery.title_str(), "Battery");
    assert_eq!(Metric::Cpu.title_str(), "CPU");
    assert_eq!(Metric::Memory.title_str(), "Memory");
    assert_eq!(Metric::Storage.title_str(), "Storage");
}

fn config_with(battery: &[u32], cpu: &[u32], memory: &[u32], storage: &[u32]) -> Config {
    Config {
        battery: battery
            .iter()
            .map(|level| BatteryRule { level: *level, message: Message::default() })
            .collect(),
        power_supply: Vec::new(),
        cpu: cpu.iter().map(|level| CPURule { level: *level, message: Message::default() }).collect(),
        memory: memory
            .iter()
            .map(|level| MemoryRule { level: *level, message: Message::default() })
            .collect(),
        storage: storage
            .iter()
            .map(|level| StorageRule { level: *level, message: Message::default() })
            .collect(),
        device: Vec::new(),
    }
}

#[test]
fn levels_up_to_a_hundred_pass() {
    assert_eq!(MAX_LEVEL, 100);
    assert_eq!(validate_config(&config_with(&[], &[], &[], &[])), Ok(()));
    assert_eq!(
        validate_config(&config_with(&[0, 100], &[50], &[100, 0, 1], &[99])),
        Ok(())
    );
}

#[test]
fn a_level_over_a_hundred_is_reported_for_each_metric() {
    assert_eq!(
        validate_config(&config_with(&[20, 101], &[], &[], &[])),
        Err(LevelError { metric: Metric::Battery, index: 1, level: 101 })
    );
    assert_eq!(
        validate_config(&config_with(&[20], &[150], &[], &[])),
        Err(LevelError { metric: Metric::Cpu, index: 0, level: 150 })
    );
    assert_eq!(
        validate_config(&config_with(&[20], &[90], &[1, 2, 4000000000], &[])),
        Err(LevelError { metric: Metric::Memory, index: 2, level: 4000000000 })
    );
    assert_eq!(
        validate_config(&config_with(&[20], &[90], &[90], &[95, 200, 300])),
        Err(LevelError { metric: Metric::Storage, index: 1, level: 200 })
    );
}

#[test]
fn the_first_bad_level_is_reported() {
    assert_eq!(
        validate_config(&config_with(&[500, 600], &[700], &[800], &[900])),
        Err(LevelError { metric: Metric::Battery, index: 0, level: 500 })
    );
    assert_eq!(
        validate_config(&config_with(&[5], &[7], &[800, 801], &[900])),
        Err(LevelError { metric: Metric::Memory, index: 0, level: 800 })
    );
}

#[test]
fn one_list_of_rules_is_checked_alone() {
    let rules = vec![
        CPURule { level: 100, message: Message::default() },
        CPURule { level: 101, message: Message::default() },
        CPURule { level: 102, message: Message::default() },
    ];
    assert_eq!(
        check_levels(Metric::Cpu, &rules),
        Err(LevelError { metric: Metric::Cpu, index: 1, level: 101 })
    );
    let rules: Vec<CPURule> = Vec::new();
    assert_eq!(check_levels(Metric::Cpu, &rules), Ok(()));
}

#[test]
fn a_level_error_says_what_is_wrong() {
    let error = LevelError { metric: Metric::Battery, index: 0, level: 150 };
    assert_eq!(error.message(), "Battery rule 0: level must be between 0 and 100, got 150");
    let error = LevelError { metric: Metric::Cpu, index: 12, level: 101 };
    assert_eq!(error.message(), "CPU rule 12: level must be between 0 and 100, got 101");
    let error = LevelError { metric: Metric::Memory, index: 3, level: 4294967295 };
    assert_eq!(
        error.message(),
        "Memory rule 3: level must be between 0 and 100, got 4294967295"
    );
    let error = LevelError { metric: Metric::Storage, index: 1, level: 1000 };
    assert_eq!(error.message(), "Storage rule 1: level must be between 0 and 100, got 1000");
}

#[test]
fn a_copy_of_a_threshold_rule_has_its_level_and_message() {
    let rule = BatteryRule::default();
    let copy = rule.clone();
    assert_eq!(copy.level, 20);
    assert_eq!(copy.message.appname, "Battery");
    assert_eq!(CPURule::default().clone().level, 90);
    assert_eq!(MemoryRule::default().clone().message.appname, "Memory");
    assert_eq!(StorageRule::default().clone().level, 95);
}

#[test]
fn the_configuration_lies_under_the_configuration_home() {
    assert_eq!(
        get_config_path(Some("/home/u/.cfg"), Some("/home/u")).as_deref(),
        Some("/home/u/.cfg/alertify/config.toml")
    );
    assert_eq!(
        get_config_dir(Some("/home/u/.cfg"), None).as_deref(),
        Some("/home/u/.cfg/alertify")
    );
    assert_eq!(
        get_config_path(Some("/etc/xdg/"), None).as_deref(),
        Some("/etc/xdg/alertify/config.toml")
    );
    assert_eq!(get_config_path(Some(""), None).as_deref(), Some("alertify/config.toml"));
}

#[test]
fn without_a_configuration_home_the_home_directory_is_taken() {
    assert_eq!(
        get_config_path(None, Some("/home/u")).as_deref(),
        Some("/home/u/.config/alertify/config.toml")
    );
    assert_eq!(
        get_config_dir(None, Some("/home/u/")).as_deref(),
        Some("/home/u/.config/alertify")
    );
}

#[test]
fn without_any_home_there_is_no_configuration_path() {
    assert_eq!(get_config_path(None, None), None);
    assert_eq!(get_config_dir(None, None), None);
}

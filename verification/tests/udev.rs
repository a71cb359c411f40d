use alertify::config::{Config, DeviceRule, PowerStatusRule};
use alertify::matcher::{flag_matches, number_matches, text_matches, text_matches_known};
use alertify::message::Message;
use alertify::udev::{
    device_notices, event_notices, handle_power_supply_change, watched_subsystems, DeviceAction,
    DeviceEvent, EventKind, PowerSupply,
};

fn text(value: &str) -> Option<String> {
    Some(value.to_string())
}

fn no_supply() -> PowerSupply {
    PowerSupply { name: None, supply_type: None, online: None }
}

fn event(action: DeviceAction, subsystem: Option<&str>, sysname: Option<&str>) -> DeviceEvent {
    DeviceEvent {
        action,
        initialized: true,
        subsystem: subsystem.map(str::to_string),
        sysname: sysname.map(str::to_string),
        sysnum: None,
        devtype: None,
        driver: None,
        seq_num: 0,
        syspath: None,
        devpath: None,
        devnode: None,
        supply: no_supply(),
    }
}

fn filter() -> DeviceRule {
    DeviceRule {
        action: None,
        initialized: None,
        subsystem: None,
        sysname: None,
        sysnum: None,
        devtype: None,
        driver: None,
        message: Message::default(),
    }
}

fn supply_filter() -> PowerStatusRule {
    PowerStatusRule { name: None, supply_type: None, online: None, message: Message::default() }
}

fn named(summary: &str) -> Message {
    let mut message = Message::default();
    message.summary = Some(summary.to_string());
    message
}

#[test]
fn usb_add_filter_matches_usb_and_not_block() {
    let rule = DeviceRule { subsystem: text("usb"), action: text("add"), ..filter() };
    assert!(rule.matches(&event(DeviceAction::Add, Some("usb"), Some("sda"))));
    assert!(!rule.matches(&event(DeviceAction::Add, Some("block"), None)));
}

#[test]
fn an_empty_filter_matches_every_event() {
    let rule = filter();
    for action in [
        DeviceAction::Add,
        DeviceAction::Remove,
        DeviceAction::Bind,
        DeviceAction::Unbind,
        DeviceAction::Change,
    ] {
        assert!(rule.matches(&event(action, None, None)));
        assert!(rule.matches(&event(action, Some("usb"), Some("1-1"))));
        let mut full = event(action, Some("block"), Some("sda1"));
        full.initialized = false;
        full.sysnum = Some(1);
        full.devtype = text("partition");
        full.driver = text("sd");
        assert!(rule.matches(&full));
    }
    let rule = supply_filter();
    assert!(rule.matches(&no_supply()));
    assert!(rule.matches(&PowerSupply {
        name: text("AC"),
        supply_type: text("Mains"),
        online: text("1"),
    }));
}

#[test]
fn one_mismatched_field_is_enough() {
    let mut seen = event(DeviceAction::Add, Some("block"), Some("sda1"));
    seen.sysnum = Some(1);
    seen.devtype = text("partition");
    seen.driver = text("sd");
    let matching = DeviceRule {
        action: text("add"),
        initialized: Some(true),
        subsystem: text("block"),
        sysname: text("sda1"),
        sysnum: Some(1),
        devtype: text("partition"),
        driver: text("sd"),
        message: Message::default(),
    };
    assert!(matching.matches(&seen));
    assert!(!DeviceRule { action: text("remove"), ..matching.clone() }.matches(&seen));
    assert!(!DeviceRule { initialized: Some(false), ..matching.clone() }.matches(&seen));
    assert!(!DeviceRule { subsystem: text("usb"), ..matching.clone() }.matches(&seen));
    assert!(!DeviceRule { sysname: text("sda2"), ..matching.clone() }.matches(&seen));
    assert!(!DeviceRule { sysnum: Some(2), ..matching.clone() }.matches(&seen));
    assert!(!DeviceRule { devtype: text("disk"), ..matching.clone() }.matches(&seen));
    assert!(!DeviceRule { driver: text("nvme"), ..matching.clone() }.matches(&seen));
    assert!(!DeviceRule { subsystem: text("Block"), ..matching.clone() }.matches(&seen));
}

#[test]
fn an_absent_attribute_never_mismatches() {
    let rule = DeviceRule {
        action: text("add"),
        subsystem: text("usb"),
        sysname: text("1-1"),
        sysnum: Some(3),
        devtype: text("usb_device"),
        driver: text("usb"),
        ..filter()
    };
    assert!(rule.matches(&event(DeviceAction::Add, None, None)));
    assert!(rule.matches(&event(DeviceAction::Add, Some("usb"), None)));
    assert!(!rule.matches(&event(DeviceAction::Remove, None, None)));
    let rule = PowerStatusRule { name: text("AC"), online: text("1"), ..supply_filter() };
    assert!(rule.matches(&no_supply()));
    assert!(rule.matches(&PowerSupply { name: text("AC"), supply_type: None, online: None }));
    assert!(!rule.matches(&PowerSupply { name: text("BAT0"), supply_type: None, online: None }));
    assert!(!rule.matches(&PowerSupply { name: text("AC"), supply_type: None, online: text("0") }));
}

#[test]
fn single_fields_match_when_equal_or_absent() {
    assert!(text_matches(&None, &None));
    assert!(text_matches(&text("a"), &None));
    assert!(text_matches(&None, &text("a")));
    assert!(text_matches(&text("a"), &text("a")));
    assert!(!text_matches(&text("a"), &text("A")));
    assert!(!text_matches(&text("a"), &text("")));
    assert!(text_matches_known(&None, "a"));
    assert!(text_matches_known(&text("a"), "a"));
    assert!(!text_matches_known(&text("a"), "b"));
    assert!(number_matches(None, None));
    assert!(number_matches(Some(1), None));
    assert!(number_matches(None, Some(1)));
    assert!(number_matches(Some(-1), Some(-1)));
    assert!(!number_matches(Some(1), Some(2)));
    assert!(flag_matches(None, Some(true)));
    assert!(flag_matches(Some(true), None));
    assert!(flag_matches(Some(false), Some(false)));
    assert!(!flag_matches(Some(true), Some(false)));
}

#[test]
fn action_names_are_lower_case_words() {
    assert_eq!(DeviceAction::Add.as_str(), "add");
    assert_eq!(DeviceAction::Remove.as_str(), "remove");
    assert_eq!(DeviceAction::Bind.as_str(), "bind");
    assert_eq!(DeviceAction::Unbind.as_str(), "unbind");
    assert_eq!(DeviceAction::Change.as_str(), "change");
}

#[test]
fn the_fields_of_an_event_are_its_attributes() {
    let seen = DeviceEvent {
        action: DeviceAction::Add,
        initialized: true,
        subsystem: text("block"),
        sysname: text("sda1"),
        sysnum: Some(1),
        devtype: text("partition"),
        driver: None,
        seq_num: 4711,
        syspath: text("/sys/devices/x/sda1"),
        devpath: text("/devices/x/sda1"),
        devnode: text("/dev/sda1"),
        supply: no_supply(),
    };
    let fields = seen.fields();
    let get = |name: &str| fields.get(name).map(|value| value.as_str().to_string());
    assert_eq!(get("subsystem"), text("block"));
    assert_eq!(get("sysname"), text("sda1"));
    assert_eq!(get("sysnum"), text("1"));
    assert_eq!(get("devtype"), text("partition"));
    assert_eq!(get("driver"), text(""));
    assert_eq!(get("seq_num"), text("4711"));
    assert_eq!(get("syspath"), text("/sys/devices/x/sda1"));
    assert_eq!(get("devpath"), text("/devices/x/sda1"));
    assert_eq!(get("devnode"), text("/dev/sda1"));
    assert_eq!(get("action"), None);
    let mut bare = event(DeviceAction::Remove, None, None);
    bare.sysnum = Some(-7);
    bare.seq_num = u64::MAX;
    let fields = bare.fields();
    assert_eq!(fields.get("sysnum").map(|v| v.as_str()), Some("-7"));
    assert_eq!(fields.get("seq_num").map(|v| v.as_str()), Some("18446744073709551615"));
    assert_eq!(fields.get("subsystem").map(|v| v.as_str()), Some(""));
    bare.sysnum = None;
    assert_eq!(bare.fields().get("sysnum").map(|v| v.as_str()), Some(""));
}

#[test]
fn the_fields_of_a_power_supply_are_its_attributes() {
    let supply = PowerSupply { name: text("AC"), supply_type: text("Mains"), online: None };
    let fields = supply.fields();
    assert_eq!(fields.get("name").map(|v| v.as_str()), Some("AC"));
    assert_eq!(fields.get("type").map(|v| v.as_str()), Some("Mains"));
    assert_eq!(fields.get("online").map(|v| v.as_str()), Some(""));
}

#[test]
fn every_matching_device_rule_gives_a_notice() {
    let rules = vec![
        DeviceRule { action: text("add"), message: named("first {sysname}"), ..filter() },
        DeviceRule { action: text("remove"), message: named("second"), ..filter() },
        DeviceRule { subsystem: text("usb"), message: named("third {subsystem}"), ..filter() },
    ];
    let seen = event(DeviceAction::Add, Some("usb"), Some("1-1"));
    let notices = device_notices(&rules, &seen);
    assert_eq!(notices.len(), 2);
    assert_eq!(notices[0].summary.as_deref(), Some("first 1-1"));
    assert_eq!(notices[0].key, None);
    assert_eq!(notices[1].summary.as_deref(), Some("third usb"));
    let again = device_notices(&rules, &seen);
    assert_eq!(again.len(), 2);
    let none = device_notices(&rules, &event(DeviceAction::Bind, Some("block"), None));
    assert!(none.is_empty());
    let rules: Vec<DeviceRule> = Vec::new();
    assert!(device_notices(&rules, &seen).is_empty());
}

#[test]
fn every_matching_power_supply_rule_gives_a_notice() {
    let rules = vec![
        PowerStatusRule { online: text("1"), message: named("{name} plugged"), ..supply_filter() },
        PowerStatusRule { online: text("0"), message: named("{name} unplugged"), ..supply_filter() },
        PowerStatusRule { message: named("{name} is {type}/{online}"), ..supply_filter() },
    ];
    let supply = PowerSupply { name: text("AC"), supply_type: text("Mains"), online: text("0") };
    let notices = handle_power_supply_change(&rules, &supply);
    assert_eq!(notices.len(), 2);
    assert_eq!(notices[0].summary.as_deref(), Some("AC unplugged"));
    assert_eq!(notices[1].summary.as_deref(), Some("AC is Mains/0"));
}

#[test]
fn a_power_supply_change_is_told_by_subsystem_and_action() {
    assert!(event(DeviceAction::Change, Some("power_supply"), None).is_power_supply_change());
    assert!(!event(DeviceAction::Add, Some("power_supply"), None).is_power_supply_change());
    assert!(!event(DeviceAction::Change, Some("usb"), None).is_power_supply_change());
    assert!(!event(DeviceAction::Change, None, None).is_power_supply_change());
}

#[test]
fn an_event_gives_power_supply_notices_before_device_notices() {
    let config = Config {
        battery: Vec::new(),
        power_supply: vec![PowerStatusRule { message: named("supply {online}"), ..supply_filter() }],
        cpu: Vec::new(),
        memory: Vec::new(),
        storage: Vec::new(),
        device: vec![DeviceRule {
            action: text("change"),
            message: named("device {subsystem}"),
            ..filter()
        }],
    };
    let mut seen = event(DeviceAction::Change, Some("power_supply"), Some("AC"));
    seen.supply = PowerSupply { name: text("AC"), supply_type: None, online: text("1") };
    let notices = event_notices(&config, &seen);
    assert_eq!(notices.len(), 2);
    assert_eq!(notices[0].summary.as_deref(), Some("supply 1"));
    assert_eq!(notices[1].summary.as_deref(), Some("device power_supply"));
    let mut other = event(DeviceAction::Change, Some("usb"), None);
    other.supply = PowerSupply { name: text("AC"), supply_type: None, online: text("1") };
    let notices = event_notices(&config, &other);
    assert_eq!(notices.len(), 1);
    assert_eq!(notices[0].summary.as_deref(), Some("device usb"));
    let notices = event_notices(&config, &event(DeviceAction::Add, Some("power_supply"), None));
    assert!(notices.is_empty());
}

#[test]
fn nine_subsystems_are_watched() {
    assert_eq!(
        watched_subsystems(),
        vec![
            "usb",
            "block",
            "net",
            "input",
            "sound",
            "drm",
            "tty",
            "power_supply",
            "video4linux"
        ]
    );
}

#[test]
fn a_copy_of_a_rule_is_the_same_rule() {
    let rule = DeviceRule {
        action: text("add"),
        initialized: Some(true),
        subsystem: text("usb"),
        sysname: None,
        sysnum: Some(4),
        devtype: text("usb_device"),
        driver: None,
        message: named("hello"),
    };
    let copy = rule.clone();
    assert_eq!(copy.action, rule.action);
    assert_eq!(copy.initialized, rule.initialized);
    assert_eq!(copy.subsystem, rule.subsystem);
    assert_eq!(copy.sysname, rule.sysname);
    assert_eq!(copy.sysnum, rule.sysnum);
    assert_eq!(copy.devtype, rule.devtype);
    assert_eq!(copy.driver, rule.driver);
    assert_eq!(copy.message.summary, rule.message.summary);
    let rule = PowerStatusRule { name: text("AC"), online: text("1"), ..supply_filter() };
    let copy = rule.clone();
    assert_eq!(copy.name, rule.name);
    assert_eq!(copy.supply_type, rule.supply_type);
    assert_eq!(copy.online, rule.online);
}

#[test]
fn an_event_of_unknown_kind_has_no_action() {
    assert_eq!(EventKind::Add.action(), Some(DeviceAction::Add));
    assert_eq!(EventKind::Remove.action(), Some(DeviceAction::Remove));
    assert_eq!(EventKind::Bind.action(), Some(DeviceAction::Bind));
    assert_eq!(EventKind::Unbind.action(), Some(DeviceAction::Unbind));
    assert_eq!(EventKind::Change.action(), Some(DeviceAction::Change));
    assert_eq!(EventKind::Unknown.action(), None);
}

//! The device listener's part: which rules an event matches, and the
//! notices that it gives. Every matching event gives a notice: events are
//! not held against the latch.

use crate::alert::notice_views;
use crate::config::{Config, DeviceRule, DeviceRuleView, PowerStatusRule, PowerStatusRuleView};
use crate::matcher::{
    flag_matches, matches_if_known, number_matches, text_matches, text_matches_known,
};
use crate::message::{notice_of, Notice, NoticeView};
use crate::template::FieldMap;
use crate::text::{
    decimal, decimal_string, option_text, same_text, signed_decimal, signed_decimal_string,
};
use vstd::prelude::*;

verus! {

/// What happened to a device.
#[derive(Clone, Copy, Debug, PartialEq, Eq, Structural)]
pub enum DeviceAction {
    Add,
    Remove,
    Bind,
    Unbind,
    Change,
}

impl DeviceAction {
    /// The action's name in a rule.
    pub open spec fn name(self) -> Seq<char> {
        match self {
            DeviceAction::Add => "add"@,
            DeviceAction::Remove => "remove"@,
            DeviceAction::Bind => "bind"@,
            DeviceAction::Unbind => "unbind"@,
            DeviceAction::Change => "change"@,
        }
    }

    /// The action's name in a rule.
    pub fn as_str(self) -> (name: &'static str)
        ensures
            name@ == self.name(),
    {
        match self {
            DeviceAction::Add => "add",
            DeviceAction::Remove => "remove",
            DeviceAction::Bind => "bind",
            DeviceAction::Unbind => "unbind",
            DeviceAction::Change => "change",
        }
    }
}

/// The kind of an event as the device stream tells it.
#[derive(Clone, Copy, Debug, PartialEq, Eq, Structural)]
pub enum EventKind {
    Add,
    Remove,
    Bind,
    Unbind,
    Change,
    /// A kind that the stream does not know.
    Unknown,
}

impl EventKind {
    /// The action of an event of this kind. An event of unknown kind has
    /// none, and is skipped.
    pub open spec fn spec_action(self) -> Option<DeviceAction> {
        match self {
            EventKind::Add => Some(DeviceAction::Add),
            EventKind::Remove => Some(DeviceAction::Remove),
            EventKind::Bind => Some(DeviceAction::Bind),
            EventKind::Unbind => Some(DeviceAction::Unbind),
            EventKind::Change => Some(DeviceAction::Change),
            EventKind::Unknown => None,
        }
    }

    /// The action of an event of this kind, if it has one.
    #[verifier::when_used_as_spec(spec_action)]
    pub fn action(self) -> (action: Option<DeviceAction>)
        ensures
            action == self.spec_action(),
    {
        match self {
            EventKind::Add => Some(DeviceAction::Add),
            EventKind::Remove => Some(DeviceAction::Remove),
            EventKind::Bind => Some(DeviceAction::Bind),
            EventKind::Unbind => Some(DeviceAction::Unbind),
            EventKind::Change => Some(DeviceAction::Change),
            EventKind::Unknown => None,
        }
    }
}

/// The subsystems whose devices are listened to.
pub open spec fn watched_subsystem_names() -> Seq<Seq<char>> {
    seq![
        "usb"@,
        "block"@,
        "net"@,
        "input"@,
        "sound"@,
        "drm"@,
        "tty"@,
        "power_supply"@,
        "video4linux"@,
    ]
}

/// The subsystems whose devices are listened to.
pub fn watched_subsystems() -> (names: Vec<&'static str>)
    ensures
        names@.map_values(|name: &'static str| name@) == watched_subsystem_names(),
{
    let mut names: Vec<&'static str> = Vec::new();
    names.push("usb");
    names.push("block");
    names.push("net");
    names.push("input");
    names.push("sound");
    names.push("drm");
    names.push("tty");
    names.push("power_supply");
    names.push("video4linux");
    assert(names@.map_values(|name: &'static str| name@) =~= watched_subsystem_names());
    names
}

/// The state of a power supply, as spec values.
pub struct PowerSupplyView {
    pub name: Option<Seq<char>>,
    pub supply_type: Option<Seq<char>>,
    pub online: Option<Seq<char>>,
}

/// The state of a power supply, as far as an event tells it.
#[derive(Debug)]
pub struct PowerSupply {
    pub name: Option<String>,
    pub supply_type: Option<String>,
    pub online: Option<String>,
}

impl View for PowerSupply {
    type V = PowerSupplyView;

    open spec fn view(&self) -> PowerSupplyView {
        PowerSupplyView {
            name: option_text(self.name),
            supply_type: option_text(self.supply_type),
            online: option_text(self.online),
        }
    }
}

/// A device event, as spec values.
pub struct DeviceEventView {
    pub action: DeviceAction,
    pub initialized: bool,
    pub subsystem: Option<Seq<char>>,
    pub sysname: Option<Seq<char>>,
    pub sysnum: Option<i32>,
    pub devtype: Option<Seq<char>>,
    pub driver: Option<Seq<char>>,
    pub seq_num: u64,
    pub syspath: Option<Seq<char>>,
    pub devpath: Option<Seq<char>>,
    pub devnode: Option<Seq<char>>,
    pub supply: PowerSupplyView,
}

/// One event of the device stream. An attribute that the event does not
/// tell is absent.
#[derive(Debug)]
pub struct DeviceEvent {
    pub action: DeviceAction,
    pub initialized: bool,
    pub subsystem: Option<String>,
    pub sysname: Option<String>,
    pub sysnum: Option<i32>,
    pub devtype: Option<String>,
    pub driver: Option<String>,
    /// The event's number in the stream.
    pub seq_num: u64,
    pub syspath: Option<String>,
    pub devpath: Option<String>,
    pub devnode: Option<String>,
    /// What the event tells of a power supply.
    pub supply: PowerSupply,
}

impl View for DeviceEvent {
    type V = DeviceEventView;

    open spec fn view(&self) -> DeviceEventView {
        DeviceEventView {
            action: self.action,
            initialized: self.initialized,
            subsystem: option_text(self.subsystem),
            sysname: option_text(self.sysname),
            sysnum: self.sysnum,
            devtype: option_text(self.devtype),
            driver: option_text(self.driver),
            seq_num: self.seq_num,
            syspath: option_text(self.syspath),
            devpath: option_text(self.devpath),
            devnode: option_text(self.devnode),
            supply: self.supply@,
        }
    }
}

/// Whether the device rule `rule` matches `event`: every field of the
/// rule matches the event's attribute of the same name.
pub open spec fn device_matches(rule: DeviceRuleView, event: DeviceEventView) -> bool {
    &&& matches_if_known(rule.action, Some(event.action.name()))
    &&& matches_if_known(rule.initialized, Some(event.initialized))
    &&& matches_if_known(rule.subsystem, event.subsystem)
    &&& matches_if_known(rule.sysname, event.sysname)
    &&& matches_if_known(rule.sysnum, event.sysnum)
    &&& matches_if_known(rule.devtype, event.devtype)
    &&& matches_if_known(rule.driver, event.driver)
}

/// Whether the power-supply rule `rule` matches the state `supply`.
pub open spec fn supply_matches(rule: PowerStatusRuleView, supply: PowerSupplyView) -> bool {
    &&& matches_if_known(rule.name, supply.name)
    &&& matches_if_known(rule.supply_type, supply.supply_type)
    &&& matches_if_known(rule.online, supply.online)
}

impl DeviceRule {
    /// Whether the rule matches `event`.
    pub fn matches(&self, event: &DeviceEvent) -> (matched: bool)
        ensures
            matched == device_matches(self@, event@),
    {
        text_matches_known(&self.action, event.action.as_str())
            && flag_matches(self.initialized, Some(event.initialized))
            && text_matches(&self.subsystem, &event.subsystem)
            && text_matches(&self.sysname, &event.sysname)
            && number_matches(self.sysnum, event.sysnum)
            && text_matches(&self.devtype, &event.devtype)
            && text_matches(&self.driver, &event.driver)
    }
}

impl PowerStatusRule {
    /// Whether the rule matches the state `supply`.
    pub fn matches(&self, supply: &PowerSupply) -> (matched: bool)
        ensures
            matched == supply_matches(self@, supply@),
    {
        text_matches(&self.name, &supply.name)
            && text_matches(&self.supply_type, &supply.supply_type)
            && text_matches(&self.online, &supply.online)
    }
}

/// The text of an attribute; the empty text where it is absent.
pub open spec fn text_or_empty(text: Option<Seq<char>>) -> Seq<char> {
    match text {
        Some(s) => s,
        None => Seq::empty(),
    }
}

fn owned_or_empty(text: &Option<String>) -> (out: String)
    ensures
        out@ == text_or_empty(option_text(*text)),
{
    match text {
        Some(s) => s.clone(),
        None => String::new(),
    }
}

/// The number of a device as text; the empty text where it has none.
pub open spec fn number_or_empty(number: Option<i32>) -> Seq<char> {
    match number {
        Some(n) => signed_decimal(n as int),
        None => Seq::empty(),
    }
}

/// The fields of a device event.
pub open spec fn device_fields(event: DeviceEventView) -> Map<Seq<char>, Seq<char>> {
    map![
        "subsystem"@ => text_or_empty(event.subsystem),
        "sysname"@ => text_or_empty(event.sysname),
        "sysnum"@ => number_or_empty(event.sysnum),
        "devtype"@ => text_or_empty(event.devtype),
        "driver"@ => text_or_empty(event.driver),
        "seq_num"@ => decimal(event.seq_num as nat),
        "syspath"@ => text_or_empty(event.syspath),
        "devpath"@ => text_or_empty(event.devpath),
        "devnode"@ => text_or_empty(event.devnode),
    ]
}

/// The fields of a power supply's state.
pub open spec fn supply_fields(supply: PowerSupplyView) -> Map<Seq<char>, Seq<char>> {
    map![
        "name"@ => text_or_empty(supply.name),
        "type"@ => text_or_empty(supply.supply_type),
        "online"@ => text_or_empty(supply.online),
    ]
}

impl DeviceEvent {
    /// The fields of the event.
    pub fn fields(&self) -> (fields: FieldMap)
        ensures
            fields@ == device_fields(self@),
    {
        let mut fields = FieldMap::new();
        fields.insert("subsystem", owned_or_empty(&self.subsystem));
        fields.insert("sysname", owned_or_empty(&self.sysname));
        let sysnum = match self.sysnum {
            Some(n) => signed_decimal_string(n as i64),
            None => String::new(),
        };
        fields.insert("sysnum", sysnum);
        fields.insert("devtype", owned_or_empty(&self.devtype));
        fields.insert("driver", owned_or_empty(&self.driver));
        fields.insert("seq_num", decimal_string(self.seq_num));
        fields.insert("syspath", owned_or_empty(&self.syspath));
        fields.insert("devpath", owned_or_empty(&self.devpath));
        fields.insert("devnode", owned_or_empty(&self.devnode));
        fields
    }

    /// Whether the event tells a change of a power supply.
    pub fn is_power_supply_change(&self) -> (change: bool)
        ensures
            change == power_supply_change(self@),
    {
        match &self.subsystem {
            Some(subsystem) => same_text(subsystem.as_str(), "power_supply") && match self.action {
                DeviceAction::Change => true,
                _ => false,
            },
            None => false,
        }
    }
}

impl PowerSupply {
    /// The fields of the state.
    pub fn fields(&self) -> (fields: FieldMap)
        ensures
            fields@ == supply_fields(self@),
    {
        let mut fields = FieldMap::new();
        fields.insert("name", owned_or_empty(&self.name));
        fields.insert("type", owned_or_empty(&self.supply_type));
        fields.insert("online", owned_or_empty(&self.online));
        fields
    }
}

/// Whether an event tells a change of a power supply: its subsystem is
/// known to be `power_supply` and its action is a change.
pub open spec fn power_supply_change(event: DeviceEventView) -> bool {
    event.subsystem == Some("power_supply"@) && event.action == DeviceAction::Change
}

/// The notices that `event` gives with the device rules `rules`: one for
/// each rule that matches, in the order of the rules.
pub open spec fn device_notices_of(rules: Seq<DeviceRule>, event: DeviceEventView) -> Seq<
    NoticeView,
>
    decreases rules.len(),
{
    if rules.len() == 0 {
        Seq::empty()
    } else {
        let before = device_notices_of(rules.drop_last(), event);
        if device_matches(rules.last()@, event) {
            before.push(notice_of(rules.last()@.message, device_fields(event)))
        } else {
            before
        }
    }
}

/// The notices that the state `supply` gives with the power-supply rules
/// `rules`: one for each rule that matches, in the order of the rules.
pub open spec fn supply_notices_of(rules: Seq<PowerStatusRule>, supply: PowerSupplyView) -> Seq<
    NoticeView,
>
    decreases rules.len(),
{
    if rules.len() == 0 {
        Seq::empty()
    } else {
        let before = supply_notices_of(rules.drop_last(), supply);
        if supply_matches(rules.last()@, supply) {
            before.push(notice_of(rules.last()@.message, supply_fields(supply)))
        } else {
            before
        }
    }
}

/// The notices that `event` gives with the rules of `config`: where the
/// event tells a change of a power supply, those of the power-supply
/// rules; then those of the device rules.
pub open spec fn event_notices_of(config: &Config, event: DeviceEventView) -> Seq<NoticeView> {
    let first = if power_supply_change(event) {
        supply_notices_of(config.power_supply@, event.supply)
    } else {
        Seq::empty()
    };
    first + device_notices_of(config.device@, event)
}

/// The notices of the device rules that match `event`.
pub fn device_notices(rules: &Vec<DeviceRule>, event: &DeviceEvent) -> (notices: Vec<Notice>)
    ensures
        notice_views(notices@) == device_notices_of(rules@, event@),
{
    let mut notices: Vec<Notice> = Vec::new();
    let mut i: usize = 0;
    assert(rules@.take(0).len() == 0);
    assert(notice_views(notices@) =~= Seq::<NoticeView>::empty());
    while i < rules.len()
        invariant
            i <= rules.len(),
            notice_views(notices@) == device_notices_of(rules@.take(i as int), event@),
        decreases rules.len() - i,
    {
        proof {
            assert(rules@.take(i + 1).drop_last() == rules@.take(i as int));
            assert(rules@.take(i + 1).last() == rules@[i as int]);
        }
        if rules[i].matches(event) {
            let notice = rules[i].message.render(&event.fields());
            let ghost sent = notice_views(notices@);
            notices.push(notice);
            assert(notice_views(notices@) =~= sent.push(notice@));
        }
        i += 1;
    }
    assert(rules@.take(rules@.len() as int) == rules@);
    notices
}

/// The notices of the power-supply rules that match the state `supply`.
pub fn handle_power_supply_change(
    rules: &Vec<PowerStatusRule>,
    supply: &PowerSupply,
) -> (notices: Vec<Notice>)
    ensures
        notice_views(notices@) == supply_notices_of(rules@, supply@),
{
    let mut notices: Vec<Notice> = Vec::new();
    let mut i: usize = 0;
    assert(rules@.take(0).len() == 0);
    assert(notice_views(notices@) =~= Seq::<NoticeView>::empty());
    while i < rules.len()
        invariant
            i <= rules.len(),
            notice_views(notices@) == supply_notices_of(rules@.take(i as int), supply@),
        decreases rules.len() - i,
    {
        proof {
            assert(rules@.take(i + 1).drop_last() == rules@.take(i as int));
            assert(rules@.take(i + 1).last() == rules@[i as int]);
        }
        if rules[i].matches(supply) {
            let notice = rules[i].message.render(&supply.fields());
            let ghost sent = notice_views(notices@);
            notices.push(notice);
            assert(notice_views(notices@) =~= sent.push(notice@));
        }
        i += 1;
    }
    assert(rules@.take(rules@.len() as int) == rules@);
    notices
}

/// The notices that one event of the device stream gives.
pub fn event_notices(config: &Config, event: &DeviceEvent) -> (notices: Vec<Notice>)
    ensures
        notice_views(notices@) == event_notices_of(config, event@),
{
    let mut notices: Vec<Notice> = Vec::new();
    assert(notice_views(notices@) =~= Seq::<NoticeView>::empty());
    if event.is_power_supply_change() {
        notices = handle_power_supply_change(&config.power_supply, &event.supply);
    }
    let ghost first = notice_views(notices@);
    let mut more = device_notices(&config.device, event);
    let ghost second = notice_views(more@);
    notices.append(&mut more);
    assert(notice_views(notices@) =~= first + second);
    notices
}

/// Whether no field of a device rule is set.
pub open spec fn device_filter_is_empty(rule: DeviceRuleView) -> bool {
    &&& rule.action is None
    &&& rule.initialized is None
    &&& rule.subsystem is None
    &&& rule.sysname is None
    &&& rule.sysnum is None
    &&& rule.devtype is None
    &&& rule.driver is None
}

/// Whether no field of a power-supply rule is set.
pub open spec fn supply_filter_is_empty(rule: PowerStatusRuleView) -> bool {
    rule.name is None && rule.supply_type is None && rule.online is None
}

/// Whether a field of the device rule is set to a value that differs from
/// the event's attribute of the same name, which is known.
pub open spec fn device_mismatch(rule: DeviceRuleView, event: DeviceEventView) -> bool {
    ||| rule.action matches Some(wanted) && wanted != event.action.name()
    ||| rule.initialized matches Some(wanted) && wanted != event.initialized
    ||| rule.subsystem matches Some(wanted) && event.subsystem matches Some(found) && wanted
        != found
    ||| rule.sysname matches Some(wanted) && event.sysname matches Some(found) && wanted != found
    ||| rule.sysnum matches Some(wanted) && event.sysnum matches Some(found) && wanted != found
    ||| rule.devtype matches Some(wanted) && event.devtype matches Some(found) && wanted != found
    ||| rule.driver matches Some(wanted) && event.driver matches Some(found) && wanted != found
}

/// Whether a field of the power-supply rule is set to a value that differs
/// from the state's attribute of the same name, which is known.
pub open spec fn supply_mismatch(rule: PowerStatusRuleView, supply: PowerSupplyView) -> bool {
    ||| rule.name matches Some(wanted) && supply.name matches Some(found) && wanted != found
    ||| rule.supply_type matches Some(wanted) && supply.supply_type matches Some(found) && wanted
        != found
    ||| rule.online matches Some(wanted) && supply.online matches Some(found) && wanted != found
}

/// The event without its attributes that may be absent.
pub open spec fn without_attributes(event: DeviceEventView) -> DeviceEventView {
    DeviceEventView {
        subsystem: None,
        sysname: None,
        sysnum: None,
        devtype: None,
        driver: None,
        ..event
    }
}

/// A device rule with no field set matches every event.
pub proof fn lemma_empty_device_filter_matches(rule: DeviceRuleView, event: DeviceEventView)
    requires
        device_filter_is_empty(rule),
    ensures
        device_matches(rule, event),
{
}

/// A power-supply rule with no field set matches every state.
pub proof fn lemma_empty_supply_filter_matches(rule: PowerStatusRuleView, supply: PowerSupplyView)
    requires
        supply_filter_is_empty(rule),
    ensures
        supply_matches(rule, supply),
{
}

/// A device rule matches an event exactly when none of its fields
/// mismatches: one mismatched field is enough for the rule not to match,
/// and nothing else keeps it from matching.
pub proof fn lemma_device_match_is_no_mismatch(rule: DeviceRuleView, event: DeviceEventView)
    ensures
        device_matches(rule, event) <==> !device_mismatch(rule, event),
{
}

/// A power-supply rule matches a state exactly when none of its fields
/// mismatches.
pub proof fn lemma_supply_match_is_no_mismatch(rule: PowerStatusRuleView, supply: PowerSupplyView)
    ensures
        supply_matches(rule, supply) <==> !supply_mismatch(rule, supply),
{
}

/// An attribute that an event does not tell never keeps a rule from
/// matching: a rule that matches an event matches it still when any of
/// the event's attributes is taken away, and with all of them absent the
/// rule matches on the action and the initialized flag alone.
pub proof fn lemma_absent_attributes_never_mismatch(rule: DeviceRuleView, event: DeviceEventView)
    ensures
        device_matches(rule, event) ==> device_matches(
            rule,
            DeviceEventView { subsystem: None, ..event },
        ) && device_matches(rule, DeviceEventView { sysname: None, ..event }) && device_matches(
            rule,
            DeviceEventView { sysnum: None, ..event },
        ) && device_matches(rule, DeviceEventView { devtype: None, ..event }) && device_matches(
            rule,
            DeviceEventView { driver: None, ..event },
        ),
        device_matches(rule, without_attributes(event)) <==> matches_if_known(
            rule.action,
            Some(event.action.name()),
        ) && matches_if_known(rule.initialized, Some(event.initialized)),
{
}

/// A state of which nothing is known matches every power-supply rule, and
/// a rule that matches a state matches it still when any attribute of the
/// state is taken away.
pub proof fn lemma_absent_supply_attributes_never_mismatch(
    rule: PowerStatusRuleView,
    supply: PowerSupplyView,
)
    ensures
        supply_matches(rule, PowerSupplyView { name: None, supply_type: None, online: None }),
        supply_matches(rule, supply) ==> supply_matches(
            rule,
            PowerSupplyView { name: None, ..supply },
        ) && supply_matches(rule, PowerSupplyView { supply_type: None, ..supply })
            && supply_matches(rule, PowerSupplyView { online: None, ..supply }),
{
}

} // verus!

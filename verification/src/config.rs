//! The rules of a configuration, their defaults, and the check that every
//! level is a percentage.

use crate::latch::Direction;
use crate::message::{Message, MessageView};
use crate::text::{copy_option_text, decimal, option_text, push_decimal};
use vstd::prelude::*;
use vstd::string::StringExecFns;

verus! {

/// The metrics that a threshold rule can watch.
#[derive(Clone, Copy, Debug, PartialEq, Eq, Structural)]
pub enum Metric {
    Battery,
    Cpu,
    Memory,
    Storage,
}

impl Metric {
    /// The side of its level that a rule on this metric watches: a battery
    /// is bad when low, every other metric when high.
    pub open spec fn spec_direction(self) -> Direction {
        match self {
            Metric::Battery => Direction::Low,
            _ => Direction::High,
        }
    }

    /// The side of its level that a rule on this metric watches.
    #[verifier::when_used_as_spec(spec_direction)]
    pub fn direction(self) -> (direction: Direction)
        ensures
            direction == self.spec_direction(),
    {
        match self {
            Metric::Battery => Direction::Low,
            _ => Direction::High,
        }
    }

    /// The seconds between two readings of this metric: the disks are read
    /// once a minute, every other metric every ten seconds.
    pub open spec fn spec_poll_seconds(self) -> u64 {
        match self {
            Metric::Storage => 60,
            _ => 10,
        }
    }

    /// The seconds between two readings of this metric.
    #[verifier::when_used_as_spec(spec_poll_seconds)]
    pub fn poll_seconds(self) -> (seconds: u64)
        ensures
            seconds == self.spec_poll_seconds(),
    {
        match self {
            Metric::Storage => 60,
            _ => 10,
        }
    }

    /// The word that starts the alert keys of this metric.
    pub open spec fn prefix(self) -> Seq<char> {
        match self {
            Metric::Battery => "battery"@,
            Metric::Cpu => "cpu"@,
            Metric::Memory => "memory"@,
            Metric::Storage => "storage"@,
        }
    }

    /// The word that starts the alert keys of this metric.
    pub fn prefix_str(self) -> (word: &'static str)
        ensures
            word@ == self.prefix(),
    {
        match self {
            Metric::Battery => "battery",
            Metric::Cpu => "cpu",
            Metric::Memory => "memory",
            Metric::Storage => "storage",
        }
    }

    /// The metric's name in a report.
    pub open spec fn title(self) -> Seq<char> {
        match self {
            Metric::Battery => "Battery"@,
            Metric::Cpu => "CPU"@,
            Metric::Memory => "Memory"@,
            Metric::Storage => "Storage"@,
        }
    }

    /// The metric's name in a report.
    pub fn title_str(self) -> (word: &'static str)
        ensures
            word@ == self.title(),
    {
        match self {
            Metric::Battery => "Battery",
            Metric::Cpu => "CPU",
            Metric::Memory => "Memory",
            Metric::Storage => "Storage",
        }
    }
}

/// A threshold rule, as spec values.
pub struct ThresholdView {
    pub level: u32,
    pub message: MessageView,
}

/// What the threshold rules of every metric have in common: a level, in
/// percent, and the message to send when the rule fires.
pub trait ThresholdRule {
    /// The rule as spec values.
    spec fn threshold(&self) -> ThresholdView;

    /// The rule's level.
    fn level(&self) -> (level: u32)
        ensures
            level == self.threshold().level,
    ;

    /// The rule's message.
    fn message(&self) -> (message: &Message)
        ensures
            message@ == self.threshold().message,
    ;
}

/// Alerts while the battery's charge is under `level` percent.
#[derive(Debug)]
pub struct BatteryRule {
    pub level: u32,
    pub message: Message,
}

/// Alerts while the processor's load is at or over `level` percent.
#[derive(Debug)]
pub struct CPURule {
    pub level: u32,
    pub message: Message,
}

/// Alerts while `level` percent or more of the memory is in use.
#[derive(Debug)]
pub struct MemoryRule {
    pub level: u32,
    pub message: Message,
}

/// Alerts while `level` percent or more of a disk is in use.
#[derive(Debug)]
pub struct StorageRule {
    pub level: u32,
    pub message: Message,
}

impl Clone for BatteryRule {
    fn clone(&self) -> (copy: Self)
        ensures
            copy.threshold() == self.threshold(),
    {
        BatteryRule { level: self.level, message: self.message.clone() }
    }
}

impl ThresholdRule for BatteryRule {
    open spec fn threshold(&self) -> ThresholdView {
        ThresholdView { level: self.level, message: self.message@ }
    }

    fn level(&self) -> (level: u32) {
        self.level
    }

    fn message(&self) -> (message: &Message) {
        &self.message
    }
}

impl Clone for CPURule {
    fn clone(&self) -> (copy: Self)
        ensures
            copy.threshold() == self.threshold(),
    {
        CPURule { level: self.level, message: self.message.clone() }
    }
}

impl ThresholdRule for CPURule {
    open spec fn threshold(&self) -> ThresholdView {
        ThresholdView { level: self.level, message: self.message@ }
    }

    fn level(&self) -> (level: u32) {
        self.level
    }

    fn message(&self) -> (message: &Message) {
        &self.message
    }
}

impl Clone for MemoryRule {
    fn clone(&self) -> (copy: Self)
        ensures
            copy.threshold() == self.threshold(),
    {
        MemoryRule { level: self.level, message: self.message.clone() }
    }
}

impl ThresholdRule for MemoryRule {
    open spec fn threshold(&self) -> ThresholdView {
        ThresholdView { level: self.level, message: self.message@ }
    }

    fn level(&self) -> (level: u32) {
        self.level
    }

    fn message(&self) -> (message: &Message) {
        &self.message
    }
}

impl Clone for StorageRule {
    fn clone(&self) -> (copy: Self)
        ensures
            copy.threshold() == self.threshold(),
    {
        StorageRule { level: self.level, message: self.message.clone() }
    }
}

impl ThresholdRule for StorageRule {
    open spec fn threshold(&self) -> ThresholdView {
        ThresholdView { level: self.level, message: self.message@ }
    }

    fn level(&self) -> (level: u32) {
        self.level
    }

    fn message(&self) -> (message: &Message) {
        &self.message
    }
}

/// A device rule, as spec values.
pub struct DeviceRuleView {
    pub action: Option<Seq<char>>,
    pub initialized: Option<bool>,
    pub subsystem: Option<Seq<char>>,
    pub sysname: Option<Seq<char>>,
    pub sysnum: Option<i32>,
    pub devtype: Option<Seq<char>>,
    pub driver: Option<Seq<char>>,
    pub message: MessageView,
}

/// Alerts on every device event that its filter matches. A field that is
/// not set matches anything.
#[derive(Debug)]
pub struct DeviceRule {
    pub action: Option<String>,
    pub initialized: Option<bool>,
    pub subsystem: Option<String>,
    pub sysname: Option<String>,
    pub sysnum: Option<i32>,
    pub devtype: Option<String>,
    pub driver: Option<String>,
    pub message: Message,
}

impl Clone for DeviceRule {
    fn clone(&self) -> (copy: Self)
        ensures
            copy@ == self@,
    {
        DeviceRule {
            action: copy_option_text(&self.action),
            initialized: self.initialized,
            subsystem: copy_option_text(&self.subsystem),
            sysname: copy_option_text(&self.sysname),
            sysnum: self.sysnum,
            devtype: copy_option_text(&self.devtype),
            driver: copy_option_text(&self.driver),
            message: self.message.clone(),
        }
    }
}

impl View for DeviceRule {
    type V = DeviceRuleView;

    open spec fn view(&self) -> DeviceRuleView {
        DeviceRuleView {
            action: option_text(self.action),
            initialized: self.initialized,
            subsystem: option_text(self.subsystem),
            sysname: option_text(self.sysname),
            sysnum: self.sysnum,
            devtype: option_text(self.devtype),
            driver: option_text(self.driver),
            message: self.message@,
        }
    }
}

/// A power-supply rule, as spec values.
pub struct PowerStatusRuleView {
    pub name: Option<Seq<char>>,
    pub supply_type: Option<Seq<char>>,
    pub online: Option<Seq<char>>,
    pub message: MessageView,
}

/// Alerts on every change of a power supply that its filter matches. A
/// field that is not set matches anything.
#[derive(Debug)]
pub struct PowerStatusRule {
    pub name: Option<String>,
    pub supply_type: Option<String>,
    pub online: Option<String>,
    pub message: Message,
}

impl Clone for PowerStatusRule {
    fn clone(&self) -> (copy: Self)
        ensures
            copy@ == self@,
    {
        PowerStatusRule {
            name: copy_option_text(&self.name),
            supply_type: copy_option_text(&self.supply_type),
            online: copy_option_text(&self.online),
            message: self.message.clone(),
        }
    }
}

impl View for PowerStatusRule {
    type V = PowerStatusRuleView;

    open spec fn view(&self) -> PowerStatusRuleView {
        PowerStatusRuleView {
            name: option_text(self.name),
            supply_type: option_text(self.supply_type),
            online: option_text(self.online),
            message: self.message@,
        }
    }
}

/// The rules of every category.
#[derive(Debug)]
pub struct Config {
    pub battery: Vec<BatteryRule>,
    pub power_supply: Vec<PowerStatusRule>,
    pub cpu: Vec<CPURule>,
    pub memory: Vec<MemoryRule>,
    pub storage: Vec<StorageRule>,
    pub device: Vec<DeviceRule>,
}

/// The message of a default rule: the urgency and the application name
/// given, and nothing else.
pub open spec fn plain_message(urgency: Seq<char>, appname: Seq<char>) -> MessageView {
    MessageView {
        urgency,
        appname,
        summary: None,
        body: None,
        icon: None,
        timeout: None,
        hints: Seq::empty(),
        command: None,
    }
}

fn make_plain_message(urgency: &str, appname: &str) -> (message: Message)
    ensures
        message@ == plain_message(urgency@, appname@),
{
    let mut message = Message::default();
    message.urgency = urgency.to_owned();
    message.appname = appname.to_owned();
    message
}

impl BatteryRule {
    /// The default rule, as spec values.
    pub open spec fn default_view() -> ThresholdView {
        ThresholdView { level: 20, message: plain_message("critical"@, "Battery"@) }
    }
}

impl Default for BatteryRule {
    /// Under 20 percent, critical.
    fn default() -> (rule: Self)
        ensures
            rule.threshold() == Self::default_view(),
    {
        BatteryRule { level: 20, message: make_plain_message("critical", "Battery") }
    }
}

impl CPURule {
    /// The default rule, as spec values.
    pub open spec fn default_view() -> ThresholdView {
        ThresholdView { level: 90, message: plain_message("normal"@, "CPU"@) }
    }
}

impl Default for CPURule {
    /// At 90 percent or over, normal.
    fn default() -> (rule: Self)
        ensures
            rule.threshold() == Self::default_view(),
    {
        CPURule { level: 90, message: make_plain_message("normal", "CPU") }
    }
}

impl MemoryRule {
    /// The default rule, as spec values.
    pub open spec fn default_view() -> ThresholdView {
        ThresholdView { level: 90, message: plain_message("normal"@, "Memory"@) }
    }
}

impl Default for MemoryRule {
    /// At 90 percent or over, normal.
    fn default() -> (rule: Self)
        ensures
            rule.threshold() == Self::default_view(),
    {
        MemoryRule { level: 90, message: make_plain_message("normal", "Memory") }
    }
}

impl StorageRule {
    /// The default rule, as spec values.
    pub open spec fn default_view() -> ThresholdView {
        ThresholdView { level: 95, message: plain_message("normal"@, "Storage"@) }
    }
}

impl Default for StorageRule {
    /// At 95 percent or over, normal.
    fn default() -> (rule: Self)
        ensures
            rule.threshold() == Self::default_view(),
    {
        StorageRule { level: 95, message: make_plain_message("normal", "Storage") }
    }
}

impl DeviceRule {
    /// The default rule, as spec values.
    pub open spec fn default_view() -> DeviceRuleView {
        DeviceRuleView {
            action: Some("add"@),
            initialized: None,
            subsystem: None,
            sysname: None,
            sysnum: None,
            devtype: None,
            driver: None,
            message: plain_message("low"@, "Device"@),
        }
    }
}

impl Default for DeviceRule {
    /// Every device that is added, low urgency.
    fn default() -> (rule: Self)
        ensures
            rule@ == Self::default_view(),
    {
        DeviceRule {
            action: Some("add".to_owned()),
            initialized: None,
            subsystem: None,
            sysname: None,
            sysnum: None,
            devtype: None,
            driver: None,
            message: make_plain_message("low", "Device"),
        }
    }
}

impl PowerStatusRule {
    /// The default rule, as spec values.
    pub open spec fn default_view() -> PowerStatusRuleView {
        PowerStatusRuleView {
            name: None,
            supply_type: None,
            online: None,
            message: plain_message("low"@, "Power supply"@),
        }
    }
}

impl Default for PowerStatusRule {
    /// Every change of every power supply, low urgency.
    fn default() -> (rule: Self)
        ensures
            rule@ == Self::default_view(),
    {
        PowerStatusRule {
            name: None,
            supply_type: None,
            online: None,
            message: make_plain_message("low", "Power supply"),
        }
    }
}

impl Default for Config {
    /// One default rule of every category.
    fn default() -> (config: Self)
        ensures
            config.battery@.len() == 1 && config.battery@[0].threshold()
                == BatteryRule::default_view(),
            config.power_supply@.len() == 1 && config.power_supply@[0]@
                == PowerStatusRule::default_view(),
            config.cpu@.len() == 1 && config.cpu@[0].threshold() == CPURule::default_view(),
            config.memory@.len() == 1 && config.memory@[0].threshold()
                == MemoryRule::default_view(),
            config.storage@.len() == 1 && config.storage@[0].threshold()
                == StorageRule::default_view(),
            config.device@.len() == 1 && config.device@[0]@ == DeviceRule::default_view(),
    {
        let mut battery = Vec::new();
        battery.push(BatteryRule::default());
        let mut power_supply = Vec::new();
        power_supply.push(PowerStatusRule::default());
        let mut cpu = Vec::new();
        cpu.push(CPURule::default());
        let mut memory = Vec::new();
        memory.push(MemoryRule::default());
        let mut storage = Vec::new();
        storage.push(StorageRule::default());
        let mut device = Vec::new();
        device.push(DeviceRule::default());
        Config { battery, power_supply, cpu, memory, storage, device }
    }
}

/// The highest level that a rule may have, in percent.
pub const MAX_LEVEL: u32 = 100;

/// A rule whose level is no percentage, as spec values.
pub struct LevelErrorView {
    pub metric: Metric,
    pub index: int,
    pub level: u32,
}

/// A rule whose level is no percentage: the metric, the rule's place among
/// the rules of that metric, and the level.
#[derive(Clone, Copy, Debug, PartialEq, Eq)]
pub struct LevelError {
    pub metric: Metric,
    pub index: usize,
    pub level: u32,
}

impl View for LevelError {
    type V = LevelErrorView;

    open spec fn view(&self) -> LevelErrorView {
        LevelErrorView { metric: self.metric, index: self.index as int, level: self.level }
    }
}

/// What a level error says to the user.
pub open spec fn level_error_text(error: LevelErrorView) -> Seq<char> {
    error.metric.title() + " rule "@ + decimal(error.index as nat)
        + ": level must be between 0 and 100, got "@ + decimal(error.level as nat)
}

impl LevelError {
    /// What the error says to the user.
    pub fn message(&self) -> (text: String)
        ensures
            text@ == level_error_text(self@),
    {
        let mut text = String::new();
        text.append(self.metric.title_str());
        text.append(" rule ");
        push_decimal(&mut text, self.index as u64);
        text.append(": level must be between 0 and 100, got ");
        push_decimal(&mut text, self.level as u64);
        assert(text@ == level_error_text(self@));
        text
    }
}

/// The place of the first rule of `rules` whose level is over the
/// highest, or the number of rules where there is none.
pub open spec fn first_bad_level<R: ThresholdRule>(rules: Seq<R>) -> int
    decreases rules.len(),
{
    if rules.len() == 0 {
        0
    } else if rules[0].threshold().level > MAX_LEVEL {
        0
    } else {
        1 + first_bad_level(rules.drop_first())
    }
}

/// What the check of the rules of one metric gives.
pub open spec fn checked_levels<R: ThresholdRule>(metric: Metric, rules: Seq<R>) -> Result<
    (),
    LevelErrorView,
> {
    let at = first_bad_level(rules);
    if at < rules.len() {
        Err(LevelErrorView { metric, index: at, level: rules[at].threshold().level })
    } else {
        Ok(())
    }
}

/// What the check of a configuration gives: the first rule with a level
/// over the highest, going through the rules for the battery, the
/// processor, the memory and the disks in this order.
pub open spec fn validated(config: &Config) -> Result<(), LevelErrorView> {
    if checked_levels(Metric::Battery, config.battery@) is Err {
        checked_levels(Metric::Battery, config.battery@)
    } else if checked_levels(Metric::Cpu, config.cpu@) is Err {
        checked_levels(Metric::Cpu, config.cpu@)
    } else if checked_levels(Metric::Memory, config.memory@) is Err {
        checked_levels(Metric::Memory, config.memory@)
    } else {
        checked_levels(Metric::Storage, config.storage@)
    }
}

/// `first_bad_level` is the least place with a level over the highest.
pub proof fn lemma_first_bad_level<R: ThresholdRule>(rules: Seq<R>)
    ensures
        0 <= first_bad_level(rules) <= rules.len(),
        forall|k: int|
            0 <= k < first_bad_level(rules) ==> (#[trigger] rules[k]).threshold().level
                <= MAX_LEVEL,
        first_bad_level(rules) < rules.len() ==> rules[first_bad_level(rules)].threshold().level
            > MAX_LEVEL,
    decreases rules.len(),
{
    if rules.len() > 0 && rules[0].threshold().level <= MAX_LEVEL {
        let rest = rules.drop_first();
        lemma_first_bad_level(rest);
        assert forall|k: int| 0 <= k < first_bad_level(rules) implies (
        #[trigger] rules[k]).threshold().level <= MAX_LEVEL by {
            if k > 0 {
                assert(rest[k - 1] == rules[k]);
            }
        }
        if first_bad_level(rules) < rules.len() {
            assert(rest[first_bad_level(rest)] == rules[first_bad_level(rules)]);
        }
    }
}

/// A check passes exactly when every level is a percentage.
pub proof fn lemma_checked_levels<R: ThresholdRule>(metric: Metric, rules: Seq<R>)
    ensures
        checked_levels(metric, rules) is Ok <==> forall|k: int|
            0 <= k < rules.len() ==> (#[trigger] rules[k]).threshold().level <= MAX_LEVEL,
{
    lemma_first_bad_level(rules);
}

/// Checks the levels of the rules of one metric.
pub fn check_levels<R: ThresholdRule>(metric: Metric, rules: &Vec<R>) -> (result: Result<
    (),
    LevelError,
>)
    ensures
        result is Ok <==> checked_levels(metric, rules@) is Ok,
        result matches Err(error) ==> checked_levels(metric, rules@) == Err::<
            (),
            LevelErrorView,
        >(error@),
{
    let mut i: usize = 0;
    while i < rules.len()
        invariant
            i <= rules.len(),
            forall|k: int| 0 <= k < i ==> (#[trigger] rules@[k]).threshold().level <= MAX_LEVEL,
        decreases rules.len() - i,
    {
        let level = rules[i].level();
        if level > MAX_LEVEL {
            proof {
                lemma_first_bad_level(rules@);
                let at = first_bad_level(rules@);
                if at < i {
                    assert(rules@[at].threshold().level <= MAX_LEVEL);
                }
                if at > i {
                    assert(rules@[i as int].threshold().level <= MAX_LEVEL);
                }
            }
            return Err(LevelError { metric, index: i, level });
        }
        i += 1;
    }
    proof {
        lemma_first_bad_level(rules@);
        let at = first_bad_level(rules@);
        if at < rules@.len() {
            assert(rules@[at].threshold().level <= MAX_LEVEL);
        }
    }
    Ok(())
}

/// Checks that every level of the configuration is a percentage.
pub fn validate_config(config: &Config) -> (result: Result<(), LevelError>)
    ensures
        result is Ok <==> validated(config) is Ok,
        result matches Err(error) ==> validated(config) == Err::<(), LevelErrorView>(error@),
{
    match check_levels(Metric::Battery, &config.battery) {
        Err(error) => {
            return Err(error);
        },
        Ok(()) => {},
    }
    match check_levels(Metric::Cpu, &config.cpu) {
        Err(error) => {
            return Err(error);
        },
        Ok(()) => {},
    }
    match check_levels(Metric::Memory, &config.memory) {
        Err(error) => {
            return Err(error);
        },
        Ok(()) => {},
    }
    check_levels(Metric::Storage, &config.storage)
}

/// A configuration passes the check exactly when every level in it is a
/// percentage.
pub proof fn lemma_validated(config: &Config)
    ensures
        validated(config) is Ok <==> {
            &&& forall|k: int|
                0 <= k < config.battery@.len() ==> (#[trigger] config.battery@[k]).level
                    <= MAX_LEVEL
            &&& forall|k: int|
                0 <= k < config.cpu@.len() ==> (#[trigger] config.cpu@[k]).level <= MAX_LEVEL
            &&& forall|k: int|
                0 <= k < config.memory@.len() ==> (#[trigger] config.memory@[k]).level
                    <= MAX_LEVEL
            &&& forall|k: int|
                0 <= k < config.storage@.len() ==> (#[trigger] config.storage@[k]).level
                    <= MAX_LEVEL
        },
{
    lemma_checked_levels(Metric::Battery, config.battery@);
    lemma_checked_levels(Metric::Cpu, config.cpu@);
    lemma_checked_levels(Metric::Memory, config.memory@);
    lemma_checked_levels(Metric::Storage, config.storage@);
    assert forall|k: int| 0 <= k < config.battery@.len() implies ((
    #[trigger] config.battery@[k]).level <= MAX_LEVEL <==> config.battery@[k].threshold().level
        <= MAX_LEVEL) by {}
    assert forall|k: int| 0 <= k < config.cpu@.len() implies ((
    #[trigger] config.cpu@[k]).level <= MAX_LEVEL <==> config.cpu@[k].threshold().level
        <= MAX_LEVEL) by {}
    assert forall|k: int| 0 <= k < config.memory@.len() implies ((
    #[trigger] config.memory@[k]).level <= MAX_LEVEL <==> config.memory@[k].threshold().level
        <= MAX_LEVEL) by {}
    assert forall|k: int| 0 <= k < config.storage@.len() implies ((
    #[trigger] config.storage@[k]).level <= MAX_LEVEL <==> config.storage@[k].threshold().level
        <= MAX_LEVEL) by {}
}

/// The name of the directory that holds the configuration.
pub const CONFIG_DIR_NAME: &'static str = "alertify";

/// The name of the configuration file.
pub const CONFIG_FILE_NAME: &'static str = "config.toml";

/// The path `base` with `part` adjoined, as `Path::join` gives it.
pub uninterp spec fn joined_path(base: Seq<char>, part: Seq<char>) -> Seq<char>;

/// Taken on trust: `Path::join` of the standard library returns `base`
/// with `part` adjoined, which depends on the two texts alone. The contract
/// gives that path a name and claims nothing else of it.
#[verifier::external_body]
fn join_path(base: &str, part: &str) -> (path: String)
    ensures
        path@ == joined_path(base@, part@),
{
    std::path::Path::new(base).join(part).to_string_lossy().into_owned()
}

/// The directory of the configuration: `alertify` under the configuration
/// home if there is one, else under `.config` in the home directory, and
/// none where neither is known.
pub open spec fn config_dir_of(config_home: Option<Seq<char>>, home: Option<Seq<char>>) -> Option<
    Seq<char>,
> {
    match (config_home, home) {
        (Some(dir), _) => Some(joined_path(dir, CONFIG_DIR_NAME@)),
        (None, Some(dir)) => Some(joined_path(joined_path(dir, ".config"@), CONFIG_DIR_NAME@)),
        (None, None) => None,
    }
}

/// The path of the configuration file: `config.toml` in the directory of
/// the configuration.
pub open spec fn config_path_of(config_home: Option<Seq<char>>, home: Option<Seq<char>>) -> Option<
    Seq<char>,
> {
    match config_dir_of(config_home, home) {
        Some(dir) => Some(joined_path(dir, CONFIG_FILE_NAME@)),
        None => None,
    }
}

/// The text behind an optional string slice.
pub open spec fn option_str(text: Option<&str>) -> Option<Seq<char>> {
    match text {
        Some(s) => Some(s@),
        None => None,
    }
}

/// The directory of the configuration, from the configuration home and
/// the home directory as the environment gives them.
pub fn get_config_dir(config_home: Option<&str>, home: Option<&str>) -> (dir: Option<String>)
    ensures
        option_text(dir) == config_dir_of(option_str(config_home), option_str(home)),
{
    match (config_home, home) {
        (Some(dir), _) => Some(join_path(dir, CONFIG_DIR_NAME)),
        (None, Some(dir)) => {
            let under_home = join_path(dir, ".config");
            Some(join_path(under_home.as_str(), CONFIG_DIR_NAME))
        },
        (None, None) => None,
    }
}

/// The path of the configuration file, from the configuration home and the
/// home directory as the environment gives them.
pub fn get_config_path(config_home: Option<&str>, home: Option<&str>) -> (path: Option<String>)
    ensures
        option_text(path) == config_path_of(option_str(config_home), option_str(home)),
{
    match get_config_dir(config_home, home) {
        Some(dir) => Some(join_path(dir.as_str(), CONFIG_FILE_NAME)),
        None => None,
    }
}

} // verus!

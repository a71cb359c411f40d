//! A rule-driven alerting engine. Watchers read the battery, the
//! processor, the memory and the disks, and listen to device events; the
//! library holds what they read against the rules of a configuration and
//! says which notices to send: one when a rule comes to hold, none while it
//! goes on holding.
//!
//! The parts, from the leaves up: `template` renders the text of a
//! message, `hint` decodes the typed annotations of a notification,
//! `matcher` holds an event against a filter, `latch` keeps the alerts that
//! are outstanding, `message` turns a rule's message into a notice, and
//! `alert`, `battery`, `cpu`, `memory`, `storage` and `udev` put these
//! together for each source.

pub mod alert;
pub mod battery;
pub mod config;
pub mod cpu;
pub mod hint;
pub mod latch;
pub mod matcher;
pub mod memory;
pub mod message;
pub mod number;
pub mod storage;
pub mod template;
pub mod text;
pub mod udev;
pub mod utils;

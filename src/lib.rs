//! Price-alert monitoring: a registry of "notify when an asset crosses a price"
//! conditions, the rule that decides when one fires, and the evaluation of one
//! polling pass against a set of fetched prices; the replies of the bot's
//! `alert`, `price` and `dex` commands; the decisions of the polling loop;
//! and the bot's settings.

pub mod text;
pub mod alert_monitor;
pub mod alert;
pub mod config;
pub mod dex;
pub mod price;
pub mod price_source;
pub mod scheduler;

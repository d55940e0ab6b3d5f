//! Trading logic of an unattended storefront bot: item identifiers and price
//! lists, the per-cycle trade reconciliation, the trade mode state machine and
//! the chat command parser.

pub mod commands;
pub mod config;
pub mod item;
pub mod messages;
pub mod laws;
pub mod prices;
pub mod pricing;
pub mod schedule;
pub mod text;
pub mod trade;
pub mod trader;

//! A Telegram help desk bot: an FAQ grid of menus and data entries kept in
//! a key-value store, with likes, view counters and a "leave feedback" flow.
//!
//! This crate holds the bot's logic: how grid keys are named in the store
//! and hashed into callback data, how callback data is read back, how menus
//! and data entries are rendered into text and keyboards, and the decisions
//! of the update handlers, as state machines whose actions (store queries,
//! Telegram requests, timers) are performed by a driver.

mod std_specs;
mod text;

pub mod config;
pub mod decimal;
pub mod hash;
pub mod l10n;
pub mod path;

pub mod callback;
pub mod keyboard;
pub mod keys;
pub mod template;

pub mod greeting;
pub mod grid;

pub mod feedback;
pub mod flow;
pub mod callback_flow;
pub mod message_flow;
pub mod legacy_flow;
pub mod updates;

pub mod validate;

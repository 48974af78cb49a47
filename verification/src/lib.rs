//! Fluss: the verified core of a declarative UI toolkit.
//!
//! The crate holds the parts of the toolkit that decide rather than draw:
//! query-string lookup, key-code translation, colour parsing, view-id
//! allocation, dirty-region bookkeeping, gesture tracking and the decisions
//! of the window event loop.

pub mod query;
pub mod keys;
pub mod geometry;
pub mod events;
pub mod legacy_events;
pub mod view_id;
pub mod binding;
pub mod app_core;
pub mod ui_state;
pub mod layout;
pub mod dependencies;
pub mod region;
pub mod views;
pub mod event_loop;
pub mod color;
pub mod align;
pub mod commands;
pub mod changed;
pub mod drawer_state;
pub mod state_view;
pub mod update;

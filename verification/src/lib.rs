//! A verified core for a scrollable, filterable log table widget.
//!
//! The library models collected log events, the per-widget filter state
//! (enabled severity levels and glob-style target exclusion patterns),
//! the filter evaluator that selects which events a frame displays, and
//! the row formatter that turns an event's fields into its short label
//! and its complete hover text.  Glob matching itself is delegated to
//! the `globset` crate behind trusted declarations; everything around
//! those calls is verified.

pub mod collector;
pub mod event;
pub mod filter;
pub mod format;
pub mod logs;
pub mod matcher;
pub mod state;

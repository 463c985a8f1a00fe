//! Per-widget filter state: which severity levels are shown and which
//! target patterns exclude events.

use vstd::prelude::*;

use crate::event::Level;

verus! {

/// Set-membership predicate over severity levels.  A level whose flag is
/// `true` is shown; by default every level is shown.
#[derive(Clone, Copy, Debug, PartialEq, Eq, Structural)]
pub struct LevelFilter {
    pub trace: bool,
    pub debug: bool,
    pub info: bool,
    pub warn: bool,
    pub error: bool,
}

/// Whether the filter accepts events of the given level.
pub open spec fn level_accepts(filter: LevelFilter, level: Level) -> bool {
    match level {
        Level::Trace => filter.trace,
        Level::Debug => filter.debug,
        Level::Info => filter.info,
        Level::Warn => filter.warn,
        Level::Error => filter.error,
    }
}

impl LevelFilter {
    /// Whether events of `level` are shown under this filter.
    pub fn get(&self, level: Level) -> (r: bool)
        ensures
            r == level_accepts(*self, level),
    {
        match level {
            Level::Trace => self.trace,
            Level::Debug => self.debug,
            Level::Info => self.info,
            Level::Warn => self.warn,
            Level::Error => self.error,
        }
    }

    /// Shows or hides events of `level`; the other levels keep their flag.
    pub fn set(&mut self, level: Level, enabled: bool)
        ensures
            level_accepts(*final(self), level) == enabled,
            forall|l: Level| l != level ==> level_accepts(*final(self), l) == level_accepts(
                *old(self),
                l,
            ),
    {
        match level {
            Level::Trace => self.trace = enabled,
            Level::Debug => self.debug = enabled,
            Level::Info => self.info = enabled,
            Level::Warn => self.warn = enabled,
            Level::Error => self.error = enabled,
        }
    }
}

impl Default for LevelFilter {
    /// All levels enabled.
    fn default() -> (r: Self)
        ensures
            forall|l: Level| level_accepts(r, l),
    {
        LevelFilter { trace: true, debug: true, info: true, warn: true, error: true }
    }
}

/// Ordered list of glob-style exclude patterns matched against an
/// event's target; an event matching any pattern is hidden.  Default:
/// no patterns, so nothing is excluded.
pub struct TargetFilter {
    pub targets: Vec<String>,
}

/// The models of the patterns of a target filter.
pub open spec fn pattern_views(targets: Seq<String>) -> Seq<Seq<char>> {
    targets.map_values(|t: String| t@)
}

impl TargetFilter {
    /// Appends one exclude pattern.
    pub fn add(&mut self, pattern: String)
        ensures
            final(self).targets@ == old(self).targets@.push(pattern),
    {
        self.targets.push(pattern);
    }
}

impl Default for TargetFilter {
    /// No exclude patterns.
    fn default() -> (r: Self)
        ensures
            r.targets@ == Seq::<String>::empty(),
    {
        TargetFilter { targets: Vec::new() }
    }
}

/// The state one widget instance keeps across frames: its level filter
/// and its target filter.
pub struct LogsState {
    pub level_filter: LevelFilter,
    pub target_filter: TargetFilter,
}

impl Default for LogsState {
    /// Every level shown, no target excluded.
    fn default() -> (r: Self)
        ensures
            forall|l: Level| level_accepts(r.level_filter, l),
            r.target_filter.targets@ == Seq::<String>::empty(),
    {
        LogsState { level_filter: Default::default(), target_filter: Default::default() }
    }
}

} // verus!

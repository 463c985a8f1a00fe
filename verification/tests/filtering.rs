use log_panel::collector::EventCollector;
use log_panel::event::{CollectedEvent, Level};
use log_panel::filter::filter_events;
use log_panel::logs::Logs;
use log_panel::matcher::MatcherError;
use log_panel::state::{LevelFilter, LogsState, TargetFilter};

fn event(time: u64, level: Level, target: &str) -> CollectedEvent {
    CollectedEvent::new(
        time,
        level,
        target.to_string(),
        vec![("message".to_string(), "m".to_string())],
    )
}

fn state_with(levels: LevelFilter, patterns: &[&str]) -> LogsState {
    LogsState {
        level_filter: levels,
        target_filter: TargetFilter {
            targets: patterns.iter().map(|p| p.to_string()).collect(),
        },
    }
}

fn all_levels() -> LevelFilter {
    LevelFilter { trace: true, debug: true, info: true, warn: true, error: true }
}

#[test]
fn scenario_level_and_target_filters() {
    // Debug disabled, "db.*" excluded: of (Debug, db.conn), (Info, db.conn),
    // (Info, api.users) only the last survives.
    let events = vec![
        event(1, Level::Debug, "db.conn"),
        event(2, Level::Info, "db.conn"),
        event(3, Level::Info, "api.users"),
    ];
    let levels = LevelFilter { trace: false, debug: false, info: true, warn: true, error: true };
    let state = state_with(levels, &["db.*"]);
    let out = filter_events(&events, &state).unwrap();
    assert_eq!(out.len(), 1);
    assert_eq!(out[0].time, 3);
    assert_eq!(out[0].level, Level::Info);
    assert_eq!(out[0].target, "api.users");
}

#[test]
fn level_filter_alone_hides_disabled_levels() {
    let events = vec![
        event(1, Level::Trace, "a"),
        event(2, Level::Error, "a"),
        event(3, Level::Warn, "a"),
    ];
    let levels = LevelFilter { trace: false, debug: true, info: true, warn: true, error: true };
    let state = state_with(levels, &[]);
    let out = filter_events(&events, &state).unwrap();
    assert_eq!(out.len(), 2);
    assert_eq!(out[0].time, 2);
    assert_eq!(out[1].time, 3);
}

#[test]
fn empty_target_filter_excludes_nothing() {
    let events = vec![event(1, Level::Info, "db.conn"), event(2, Level::Info, "api")];
    let state = state_with(all_levels(), &[]);
    let out = filter_events(&events, &state).unwrap();
    assert_eq!(out.len(), 2);
}

#[test]
fn matching_pattern_excludes_whatever_the_level() {
    let events = vec![
        event(1, Level::Error, "db.conn"),
        event(2, Level::Trace, "db.pool"),
        event(3, Level::Info, "web"),
    ];
    let state = state_with(all_levels(), &["db.*"]);
    let out = filter_events(&events, &state).unwrap();
    assert_eq!(out.len(), 1);
    assert_eq!(out[0].target, "web");
}

#[test]
fn filtering_preserves_order() {
    let events = vec![
        event(1, Level::Info, "keep.one"),
        event(2, Level::Debug, "drop.it"),
        event(3, Level::Info, "keep.two"),
        event(4, Level::Info, "keep.three"),
    ];
    let levels = LevelFilter { trace: true, debug: false, info: true, warn: true, error: true };
    let state = state_with(levels, &[]);
    let out = filter_events(&events, &state).unwrap();
    let times: Vec<u64> = out.iter().map(|e| e.time).collect();
    assert_eq!(times, vec![1, 3, 4]);
}

#[test]
fn refiltering_filtered_output_changes_nothing() {
    let events = vec![
        event(1, Level::Debug, "db.conn"),
        event(2, Level::Info, "api"),
        event(3, Level::Warn, "db.pool"),
        event(4, Level::Error, "web"),
    ];
    let levels = LevelFilter { trace: true, debug: false, info: true, warn: true, error: true };
    let state = state_with(levels, &["db.*"]);
    let once = filter_events(&events, &state).unwrap();
    let twice = filter_events(&once, &state).unwrap();
    assert_eq!(once.len(), twice.len());
    for (a, b) in once.iter().zip(twice.iter()) {
        assert_eq!(a.time, b.time);
        assert_eq!(a.level, b.level);
        assert_eq!(a.target, b.target);
        assert_eq!(a.fields, b.fields);
    }
}

#[test]
fn empty_snapshot_filters_to_empty() {
    let events: Vec<CollectedEvent> = Vec::new();
    let levels = LevelFilter { trace: false, debug: false, info: false, warn: false, error: false };
    let state = state_with(levels, &["*"]);
    let out = filter_events(&events, &state).unwrap();
    assert!(out.is_empty());
}

#[test]
fn malformed_pattern_is_reported_by_index() {
    let events = vec![event(1, Level::Info, "a")];
    let state = state_with(all_levels(), &["db.*", "bad["]);
    match filter_events(&events, &state) {
        Err(MatcherError::InvalidPattern(i)) => assert_eq!(i, 1),
        other => panic!("expected InvalidPattern(1), got {:?}", other.map(|v| v.len())),
    }
}

#[test]
fn first_malformed_pattern_wins() {
    let events = vec![event(1, Level::Info, "a")];
    let state = state_with(all_levels(), &["bad[", "also["]);
    match filter_events(&events, &state) {
        Err(MatcherError::InvalidPattern(i)) => assert_eq!(i, 0),
        other => panic!("expected InvalidPattern(0), got {:?}", other.map(|v| v.len())),
    }
}

#[test]
fn clear_empties_the_source_despite_filters() {
    let mut collector = EventCollector::new();
    collector.collect(event(1, Level::Info, "db.conn"));
    collector.collect(event(2, Level::Warn, "api"));
    let mut logs = Logs::new(collector);
    let state = state_with(all_levels(), &["db.*"]);
    assert_eq!(logs.filtered(&state).unwrap().len(), 1);
    logs.clear();
    assert!(logs.snapshot().is_empty());
    assert!(logs.filtered(&state).unwrap().is_empty());
}

#[test]
fn snapshot_keeps_collection_order_and_contents() {
    let mut collector = EventCollector::new();
    collector.collect(event(5, Level::Warn, "first"));
    collector.collect(event(6, Level::Info, "second"));
    assert_eq!(collector.len(), 2);
    let snap = collector.events();
    assert_eq!(snap.len(), 2);
    assert_eq!(snap[0].time, 5);
    assert_eq!(snap[0].target, "first");
    assert_eq!(snap[1].time, 6);
    assert_eq!(snap[1].target, "second");
    // taking a snapshot does not drain the source
    assert_eq!(collector.len(), 2);
}

#[test]
fn level_filter_get_and_set() {
    let mut f: LevelFilter = Default::default();
    for l in [Level::Trace, Level::Debug, Level::Info, Level::Warn, Level::Error] {
        assert!(f.get(l));
    }
    f.set(Level::Debug, false);
    assert!(!f.get(Level::Debug));
    assert!(f.get(Level::Trace));
    assert!(f.get(Level::Error));
    f.set(Level::Debug, true);
    assert!(f.get(Level::Debug));
}

#[test]
fn default_state_shows_everything() {
    let state: LogsState = Default::default();
    assert!(state.target_filter.targets.is_empty());
    let events = vec![event(1, Level::Trace, "x"), event(2, Level::Error, "y")];
    let out = filter_events(&events, &state).unwrap();
    assert_eq!(out.len(), 2);
}

use log_panel::event::{CollectedEvent, Level};
use log_panel::format::{format_complete, format_short};

fn event_with_fields(fields: &[(&str, &str)]) -> CollectedEvent {
    CollectedEvent::new(
        0,
        Level::Info,
        "test".to_string(),
        fields.iter().map(|(k, v)| (k.to_string(), v.to_string())).collect(),
    )
}

#[test]
fn three_fields_short_and_complete() {
    // message first, metadata excluded from the short label and moved to
    // the trailing section of the complete text.
    let e = event_with_fields(&[("message", "hi"), ("log.line", "42"), ("user", "bob")]);
    assert_eq!(format_short(&e), "hi, user: bob");
    assert_eq!(format_complete(&e), "hi\n user: bob\n\n\n log.line: 42");
}

#[test]
fn missing_message_degrades_to_empty() {
    let e = event_with_fields(&[("user", "bob")]);
    assert_eq!(format_short(&e), ", user: bob");
    assert_eq!(format_complete(&e), "\n user: bob\n\n");
}

#[test]
fn message_only() {
    let e = event_with_fields(&[("message", "hi")]);
    assert_eq!(format_short(&e), "hi");
    assert_eq!(format_complete(&e), "hi\n\n");
}

#[test]
fn no_fields_at_all() {
    let e = event_with_fields(&[]);
    assert_eq!(format_short(&e), "");
    assert_eq!(format_complete(&e), "\n\n");
}

#[test]
fn metadata_only() {
    let e = event_with_fields(&[("log.line", "42"), ("log.file", "main.rs")]);
    assert_eq!(format_short(&e), "");
    assert_eq!(format_complete(&e), "\n\n\n log.line: 42\n log.file: main.rs");
}

#[test]
fn field_order_is_kept() {
    let e = event_with_fields(&[("message", "go"), ("b", "2"), ("a", "1")]);
    assert_eq!(format_short(&e), "go, b: 2, a: 1");
    assert_eq!(format_complete(&e), "go\n b: 2\n a: 1\n\n");
}

#[test]
fn name_merely_prefixed_with_log_is_not_metadata() {
    // only the dotted prefix "log." is reserved
    let e = event_with_fields(&[("message", "hi"), ("login", "bob")]);
    assert_eq!(format_short(&e), "hi, login: bob");
    assert_eq!(format_complete(&e), "hi\n login: bob\n\n");
}

#[test]
fn duplicate_copies_every_field() {
    let e = event_with_fields(&[("message", "hi"), ("user", "bob")]);
    let d = e.duplicate();
    assert_eq!(d.time, e.time);
    assert_eq!(d.level, e.level);
    assert_eq!(d.target, e.target);
    assert_eq!(d.fields, e.fields);
}

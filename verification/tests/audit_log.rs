use safebackup::audit::AuditLogger;

#[test]
fn record_appends_in_order() {
    let mut log = AuditLogger::new();
    assert_eq!(log.entries.len(), 0);
    log.record("backup", "Success");
    log.record("delete", "Cancelled by user");
    assert_eq!(log.entries.len(), 2);
    assert_eq!(log.entries[0].action, "backup");
    assert_eq!(log.entries[0].status, "Success");
    assert_eq!(log.entries[1].action, "delete");
    assert_eq!(log.entries[1].status, "Cancelled by user");
}

#[test]
fn render_separates_fields_with_comma_and_space() {
    let mut log = AuditLogger::new();
    log.record("retrieve", "Success");
    let entry = &log.entries[0];
    let line = entry.render();
    assert_eq!(
        line,
        format!("{}, {}, {}\n", entry.timestamp, entry.action, entry.status)
    );
    assert!(line.ends_with(", retrieve, Success\n"));
}

#[test]
fn timestamps_carry_a_date_and_an_offset() {
    let mut log = AuditLogger::new();
    log.record("backup", "Success");
    let ts = &log.entries[0].timestamp;
    // RFC 3339: a date, a `T`, a time, and an offset (or `Z`).
    assert!(ts.contains('T'));
    assert!(ts.len() >= 19);
}

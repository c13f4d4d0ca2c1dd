use std::collections::HashMap;

use safebackup::audit::AuditLogger;
use safebackup::backup::BackupOperation;
use safebackup::delete::{DeleteConfirmation, DeleteOperation};
use safebackup::error::OpError;
use safebackup::events::{FileReadOutcome, FileRemoveOutcome, FileWriteOutcome};
use safebackup::retrieve::{RetrieveOperation, RetrievedContent};

type Fs = HashMap<String, Vec<u8>>;

fn read_event(fs: &Fs, path: &str) -> FileReadOutcome {
    match fs.get(path) {
        Some(c) => FileReadOutcome::Content(c.clone()),
        None => FileReadOutcome::OpenFailed("No such file or directory (os error 2)".to_string()),
    }
}

fn run_backup(fs: &mut Fs, source: &str, dir: &str, log: &mut AuditLogger) -> Result<String, OpError> {
    let mut op = BackupOperation::new(source.to_string(), dir.to_string());
    op.validate(log)?;
    op.check_source(fs.contains_key(source), log)?;
    let (dest, content) = op.accept_read(read_event(fs, source), log)?;
    fs.insert(dest.clone(), content);
    op.accept_write(FileWriteOutcome::Written, log)
}

fn run_retrieve(fs: &Fs, path: &str, log: &mut AuditLogger) -> Result<RetrievedContent, OpError> {
    let mut op = RetrieveOperation::new(path.to_string());
    op.validate(log)?;
    op.accept_read(read_event(fs, path), log)
}

fn run_delete(fs: &mut Fs, path: &str, response: &str, log: &mut AuditLogger) -> Result<bool, OpError> {
    let mut op = DeleteOperation::new(path.to_string());
    op.validate(log)?;
    match op.accept_confirmation(response, log) {
        DeleteConfirmation::Cancelled => Ok(false),
        DeleteConfirmation::Proceed => {
            let outcome = if fs.remove(path).is_some() {
                FileRemoveOutcome::Removed
            } else {
                FileRemoveOutcome::RemoveFailed(
                    "No such file or directory (os error 2)".to_string(),
                )
            };
            op.accept_remove(outcome, log)?;
            Ok(true)
        }
    }
}

#[test]
fn backup_copies_into_backup_directory() {
    let mut fs = Fs::new();
    fs.insert("/tmp/a.txt".to_string(), b"hi".to_vec());
    let mut log = AuditLogger::new();
    let dest = run_backup(&mut fs, "/tmp/a.txt", "/tmp/bk", &mut log).unwrap();
    assert_eq!(dest, "/tmp/bk/a.txt");
    assert_eq!(fs.get("/tmp/bk/a.txt").unwrap(), b"hi");
    assert_eq!(log.entries.len(), 1);
    assert_eq!(log.entries[0].action, "backup");
    assert_eq!(log.entries[0].status, "Success");
}

#[test]
fn backup_then_retrieve_round_trip() {
    let mut fs = Fs::new();
    let content = b"hello\nworld".to_vec();
    fs.insert("/tmp/a.txt".to_string(), content.clone());
    let mut log = AuditLogger::new();
    let dest = run_backup(&mut fs, "/tmp/a.txt", "/tmp/bk", &mut log).unwrap();
    let got = run_retrieve(&fs, &dest, &mut log).unwrap();
    assert_eq!(got.bytes, content);
    assert_eq!(got.byte_count(), content.len());
    assert_eq!(got.text, "hello\nworld");
    assert_eq!(log.entries.len(), 2);
}

#[test]
fn backup_example_scenario() {
    let mut fs = Fs::new();
    fs.insert("/tmp/a.txt".to_string(), b"hi".to_vec());
    let mut log = AuditLogger::new();
    let dest = run_backup(&mut fs, "/tmp/a.txt", "/tmp/bk", &mut log).unwrap();
    let got = run_retrieve(&fs, &dest, &mut log).unwrap();
    assert_eq!(got.byte_count(), 2);
    assert_eq!(got.text, "hi");
}

#[test]
fn backup_overwrites_existing_backup_silently() {
    // Documented behavior: an existing backup of the same name is
    // replaced without warning.
    let mut fs = Fs::new();
    fs.insert("/tmp/a.txt".to_string(), b"new".to_vec());
    fs.insert("/tmp/bk/a.txt".to_string(), b"old".to_vec());
    let mut log = AuditLogger::new();
    let dest = run_backup(&mut fs, "/tmp/a.txt", "/tmp/bk", &mut log).unwrap();
    assert_eq!(dest, "/tmp/bk/a.txt");
    assert_eq!(fs.get("/tmp/bk/a.txt").unwrap(), b"new");
    assert_eq!(log.entries.len(), 1);
    assert_eq!(log.entries[0].status, "Success");
}

#[test]
fn backup_rejects_traversal_and_logs_once() {
    let mut fs = Fs::new();
    let mut log = AuditLogger::new();
    let r = run_backup(&mut fs, "../etc/passwd", "/tmp/bk", &mut log);
    assert_eq!(r, Err(OpError::InvalidPath));
    assert!(fs.is_empty());
    assert_eq!(log.entries.len(), 1);
    assert_eq!(log.entries[0].action, "backup");
    assert_eq!(log.entries[0].status, "Invalid input - path traversal detected");
}

#[test]
fn backup_of_missing_source_creates_nothing() {
    let mut fs = Fs::new();
    let mut log = AuditLogger::new();
    let r = run_backup(&mut fs, "/tmp/absent.txt", "/tmp/bk", &mut log);
    assert_eq!(r, Err(OpError::NotFound));
    assert!(fs.is_empty());
    assert_eq!(log.entries.len(), 1);
    assert_eq!(log.entries[0].status, "Invalid input - file does not exist");
}

#[test]
fn backup_open_failure_logs_os_error_text() {
    let mut fs = Fs::new();
    let mut log = AuditLogger::new();
    let mut op = BackupOperation::new("/tmp/a.txt".to_string(), "/tmp/bk".to_string());
    op.validate(&mut log).unwrap();
    op.check_source(true, &mut log).unwrap();
    let r = op.accept_read(
        FileReadOutcome::OpenFailed("Permission denied (os error 13)".to_string()),
        &mut log,
    );
    assert_eq!(r, Err(OpError::Io("Permission denied (os error 13)".to_string())));
    assert_eq!(log.entries.len(), 1);
    assert_eq!(
        log.entries[0].status,
        "Failed to open source file: Permission denied (os error 13)"
    );
}

#[test]
fn backup_write_failure_logs_os_error_text() {
    let mut fs = Fs::new();
    fs.insert("a.txt".to_string(), b"x".to_vec());
    let mut log = AuditLogger::new();
    let mut op = BackupOperation::new("a.txt".to_string(), "bk".to_string());
    op.validate(&mut log).unwrap();
    op.check_source(true, &mut log).unwrap();
    let _ = op.accept_read(read_event(&fs, "a.txt"), &mut log).unwrap();
    let r = op.accept_write(
        FileWriteOutcome::CreateFailed("Is a directory (os error 21)".to_string()),
        &mut log,
    );
    assert_eq!(r, Err(OpError::Io("Is a directory (os error 21)".to_string())));
    assert_eq!(log.entries.len(), 1);
    assert_eq!(
        log.entries[0].status,
        "Failed to create backup file: Is a directory (os error 21)"
    );
}

#[test]
fn retrieve_missing_file_is_io_error() {
    let fs = Fs::new();
    let mut log = AuditLogger::new();
    let r = run_retrieve(&fs, "/tmp/absent.txt", &mut log);
    assert_eq!(
        r.unwrap_err(),
        OpError::Io("No such file or directory (os error 2)".to_string())
    );
    assert_eq!(log.entries.len(), 1);
    assert_eq!(log.entries[0].action, "retrieve");
    assert_eq!(
        log.entries[0].status,
        "Failed to open backup file: No such file or directory (os error 2)"
    );
}

#[test]
fn retrieve_rejects_traversal() {
    let fs = Fs::new();
    let mut log = AuditLogger::new();
    let r = run_retrieve(&fs, "../secret", &mut log);
    assert_eq!(r.unwrap_err(), OpError::InvalidPath);
    assert_eq!(log.entries.len(), 1);
    assert_eq!(log.entries[0].status, "Invalid input - path traversal detected");
}

#[test]
fn retrieve_decodes_invalid_bytes_lossily() {
    let mut fs = Fs::new();
    fs.insert("b.bin".to_string(), vec![0xff, b'h', b'i']);
    let mut log = AuditLogger::new();
    let got = run_retrieve(&fs, "b.bin", &mut log).unwrap();
    assert_eq!(got.bytes, vec![0xff, b'h', b'i']);
    assert_eq!(got.byte_count(), 3);
    assert_eq!(got.text, "\u{fffd}hi");
}

#[test]
fn delete_cancelled_by_anything_but_yes() {
    for response in ["y", "No", "", "yess", "yes!", "n o"] {
        let mut fs = Fs::new();
        fs.insert("t.txt".to_string(), b"x".to_vec());
        let mut log = AuditLogger::new();
        let deleted = run_delete(&mut fs, "t.txt", response, &mut log).unwrap();
        assert!(!deleted);
        assert!(fs.contains_key("t.txt"));
        assert_eq!(log.entries.len(), 1);
        assert_eq!(log.entries[0].action, "delete");
        assert_eq!(log.entries[0].status, "Cancelled by user");
    }
}

#[test]
fn delete_confirmed_in_any_case_with_whitespace() {
    for response in ["yes", "YES", "Yes", "  yes  ", "\tYES\n"] {
        let mut fs = Fs::new();
        fs.insert("t.txt".to_string(), b"x".to_vec());
        let mut log = AuditLogger::new();
        let deleted = run_delete(&mut fs, "t.txt", response, &mut log).unwrap();
        assert!(deleted);
        assert!(!fs.contains_key("t.txt"));
        assert_eq!(log.entries.len(), 1);
        assert_eq!(log.entries[0].action, "delete");
        assert_eq!(log.entries[0].status, "Success");
    }
}

#[test]
fn delete_rejects_traversal() {
    let mut fs = Fs::new();
    fs.insert("../t.txt".to_string(), b"x".to_vec());
    let mut log = AuditLogger::new();
    let r = run_delete(&mut fs, "../t.txt", "yes", &mut log);
    assert_eq!(r, Err(OpError::InvalidPath));
    assert!(fs.contains_key("../t.txt"));
    assert_eq!(log.entries.len(), 1);
}

#[test]
fn delete_failure_logs_os_error_text() {
    let mut fs = Fs::new();
    let mut log = AuditLogger::new();
    let r = run_delete(&mut fs, "gone.txt", "yes", &mut log);
    assert_eq!(
        r,
        Err(OpError::Io("No such file or directory (os error 2)".to_string()))
    );
    assert_eq!(log.entries.len(), 1);
    assert_eq!(
        log.entries[0].status,
        "Failed to delete file: No such file or directory (os error 2)"
    );
}

#[test]
fn every_outcome_appends_exactly_one_entry() {
    let outcomes: Vec<Box<dyn Fn(&mut Fs, &mut AuditLogger)>> = vec![
        Box::new(|fs, log| {
            fs.insert("a".to_string(), b"1".to_vec());
            run_backup(fs, "a", "bk", log).map(|_| ()).unwrap();
        }),
        Box::new(|fs, log| {
            run_backup(fs, "../a", "bk", log).map(|_| ()).unwrap_err();
        }),
        Box::new(|fs, log| {
            run_backup(fs, "missing", "bk", log).map(|_| ()).unwrap_err();
        }),
        Box::new(|fs, log| {
            fs.insert("a".to_string(), b"1".to_vec());
            run_retrieve(fs, "a", log).map(|_| ()).unwrap();
        }),
        Box::new(|fs, log| {
            run_retrieve(fs, "missing", log).map(|_| ()).unwrap_err();
        }),
        Box::new(|fs, log| {
            fs.insert("a".to_string(), b"1".to_vec());
            run_delete(fs, "a", "yes", log).unwrap();
        }),
        Box::new(|fs, log| {
            fs.insert("a".to_string(), b"1".to_vec());
            run_delete(fs, "a", "no", log).unwrap();
        }),
        Box::new(|fs, log| {
            run_delete(fs, "missing", "yes", log).unwrap_err();
        }),
    ];
    for run in outcomes {
        let mut fs = Fs::new();
        let mut log = AuditLogger::new();
        run(&mut fs, &mut log);
        assert_eq!(log.entries.len(), 1);
    }
}

#[test]
fn error_messages_match_taxonomy() {
    assert_eq!(OpError::InvalidPath.message(), "Invalid file path");
    assert_eq!(
        OpError::NotFound.message(),
        "Source file does not exist or is not a file"
    );
    assert_eq!(OpError::Io("boom".to_string()).message(), "boom");
}

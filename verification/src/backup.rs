//! The backup operation: copy a source file's bytes into a backup
//! directory under the source's final path segment.
//!
//! The operation is a strictly linear state machine,
//! Start → Validated → Checked → ReadDone → Done, with no way back. The
//! caller performs each filesystem step and reports it as an event;
//! validation is forced before any of them by the phase preconditions.
//! Every run appends exactly one audit entry by the time it reaches
//! Done, whatever the events were.

use vstd::prelude::*;
use crate::audit::{appended_entry, AuditLogger};
use crate::error::OpError;
use crate::events::{FileReadOutcome, FileWriteOutcome};
use crate::paths::{
    final_segment, final_segment_spec, join_path, join_spec, lemma_final_segment_keeps_safety,
    lemma_join_keeps_safety,
};
use crate::validator::{is_valid_path, path_allowed};
use vstd::pervasive::unreached;

verus! {

/// Where a backup run stands in its strictly linear life.
#[derive(Debug, Clone, Copy)]
pub enum BackupPhase {
    Start,
    Validated,
    Checked,
    ReadDone,
    Done,
}

/// One backup run over a source path and a backup directory.
pub struct BackupOperation {
    pub source: String,
    pub backup_dir: String,
    pub phase: BackupPhase,
    /// The destination path, fixed once the source has been read.
    pub dest: Option<String>,
    /// How many audit entries this run has appended so far.
    pub recorded: Ghost<nat>,
}

impl BackupOperation {
    /// Where the backup lands: the backup directory joined with the
    /// source's final path segment (the directory structure of the
    /// source is not preserved).
    pub open spec fn dest_spec(self) -> Seq<char> {
        match final_segment_spec(self.source@) {
            Some(seg) => join_spec(self.backup_dir@, seg),
            None => Seq::empty(),
        }
    }

    /// Well-formedness: a run has appended an audit entry exactly when
    /// it is finished, and once the source is read the destination is
    /// fixed and correct.
    pub open spec fn wf(self) -> bool {
        &&& (self.phase is Done ==> self.recorded@ == 1)
        &&& (!(self.phase is Done) ==> self.recorded@ == 0)
        &&& (self.phase is ReadDone ==> final_segment_spec(self.source@) is Some
            && (self.dest matches Some(d) && d@ == self.dest_spec()))
        &&& (self.phase is Start || self.phase is Validated || self.phase is Checked
            ==> self.dest is None)
    }

    pub fn new(source: String, backup_dir: String) -> (r: BackupOperation)
        ensures
            r.wf(),
            r.phase is Start,
            r.source == source,
            r.backup_dir == backup_dir,
            r.recorded@ == 0,
    {
        BackupOperation {
            source,
            backup_dir,
            phase: BackupPhase::Start,
            dest: None,
            recorded: Ghost(0),
        }
    }

    /// Step 1: validate the source path before any filesystem access.
    /// A path with a parent-directory marker is refused, logged, and
    /// ends the run.
    pub fn validate(&mut self, log: &mut AuditLogger) -> (r: Result<(), OpError>)
        requires
            old(self).wf(),
            old(self).phase is Start,
        ensures
            final(self).wf(),
            final(self).source == old(self).source,
            final(self).backup_dir == old(self).backup_dir,
            r is Ok <==> path_allowed(old(self).source@),
            r is Ok ==> final(self).phase is Validated && *final(log) == *old(log),
            r is Err ==> r == Result::<(), OpError>::Err(OpError::InvalidPath)
                && final(self).phase is Done
                && appended_entry(
                *old(log),
                *final(log),
                "backup"@,
                "Invalid input - path traversal detected"@,
            ),
            final(log).entries@.len() == old(log).entries@.len() + final(self).recorded@ - old(
                self,
            ).recorded@,
    {
        if is_valid_path(self.source.as_str()) {
            self.phase = BackupPhase::Validated;
            Ok(())
        } else {
            log.record("backup", "Invalid input - path traversal detected");
            self.phase = BackupPhase::Done;
            self.recorded = Ghost(self.recorded@ + 1);
            Err(OpError::InvalidPath)
        }
    }

    /// Step 2: take the filesystem's answer to "is the source a regular
    /// file?". A missing source is logged and ends the run with
    /// `NotFound`; no destination is ever produced for it.
    pub fn check_source(&mut self, source_is_file: bool, log: &mut AuditLogger) -> (r: Result<
        (),
        OpError,
    >)
        requires
            old(self).wf(),
            old(self).phase is Validated,
        ensures
            final(self).wf(),
            final(self).source == old(self).source,
            final(self).backup_dir == old(self).backup_dir,
            r is Ok <==> source_is_file,
            r is Ok ==> final(self).phase is Checked && *final(log) == *old(log),
            r is Err ==> r == Result::<(), OpError>::Err(OpError::NotFound)
                && final(self).phase is Done && final(self).dest is None
                && appended_entry(
                *old(log),
                *final(log),
                "backup"@,
                "Invalid input - file does not exist"@,
            ),
            final(log).entries@.len() == old(log).entries@.len() + final(self).recorded@ - old(
                self,
            ).recorded@,
    {
        if source_is_file {
            self.phase = BackupPhase::Checked;
            Ok(())
        } else {
            log.record("backup", "Invalid input - file does not exist");
            self.phase = BackupPhase::Done;
            self.recorded = Ghost(self.recorded@ + 1);
            Err(OpError::NotFound)
        }
    }

    /// Step 3: take the outcome of reading the source whole. On content,
    /// hands back the destination path and exactly the bytes that were
    /// read, for the caller to write; a failure is logged with the OS
    /// error text and ends the run.
    pub fn accept_read(&mut self, outcome: FileReadOutcome, log: &mut AuditLogger) -> (r: Result<
        (String, Vec<u8>),
        OpError,
    >)
        requires
            old(self).wf(),
            old(self).phase is Checked,
            final_segment_spec(old(self).source@) is Some,
        ensures
            final(self).wf(),
            final(self).source == old(self).source,
            final(self).backup_dir == old(self).backup_dir,
            r is Ok <==> outcome is Content,
            outcome matches FileReadOutcome::Content(c) ==> (r matches Ok(p) && p.0@ == old(
                self,
            ).dest_spec() && p.1@ == c@ && final(self).phase is ReadDone && *final(log) == *old(
                log,
            )),
            outcome matches FileReadOutcome::OpenFailed(e) ==> (r == Result::<
                (String, Vec<u8>),
                OpError,
            >::Err(OpError::Io(e)) && final(self).phase is Done && appended_entry(
                *old(log),
                *final(log),
                "backup"@,
                "Failed to open source file: "@ + e@,
            )),
            outcome matches FileReadOutcome::ReadFailed(e) ==> (r == Result::<
                (String, Vec<u8>),
                OpError,
            >::Err(OpError::Io(e)) && final(self).phase is Done && appended_entry(
                *old(log),
                *final(log),
                "backup"@,
                "Failed to read source file: "@ + e@,
            )),
            final(log).entries@.len() == old(log).entries@.len() + final(self).recorded@ - old(
                self,
            ).recorded@,
    {
        match outcome {
            FileReadOutcome::Content(c) => {
                let dest = match final_segment(self.source.as_str()) {
                    Some(seg) => join_path(self.backup_dir.as_str(), seg.as_str()),
                    None => unreached(),
                };
                self.dest = Some(String::from_str(dest.as_str()));
                self.phase = BackupPhase::ReadDone;
                Ok((dest, c))
            },
            FileReadOutcome::OpenFailed(e) => {
                let mut status = String::from_str("Failed to open source file: ");
                status.append(e.as_str());
                log.record("backup", status.as_str());
                self.phase = BackupPhase::Done;
                self.recorded = Ghost(self.recorded@ + 1);
                Err(OpError::Io(e))
            },
            FileReadOutcome::ReadFailed(e) => {
                let mut status = String::from_str("Failed to read source file: ");
                status.append(e.as_str());
                log.record("backup", status.as_str());
                self.phase = BackupPhase::Done;
                self.recorded = Ghost(self.recorded@ + 1);
                Err(OpError::Io(e))
            },
        }
    }

    /// Step 4: take the outcome of creating the destination and writing
    /// the bytes whole. Ends the run either way: success is logged and
    /// reports the destination path; a failure is logged with the OS
    /// error text.
    pub fn accept_write(&mut self, outcome: FileWriteOutcome, log: &mut AuditLogger) -> (r: Result<
        String,
        OpError,
    >)
        requires
            old(self).wf(),
            old(self).phase is ReadDone,
        ensures
            final(self).wf(),
            final(self).source == old(self).source,
            final(self).backup_dir == old(self).backup_dir,
            final(self).phase is Done,
            r is Ok <==> outcome is Written,
            outcome matches FileWriteOutcome::Written ==> (r matches Ok(d) && d@ == old(
                self,
            ).dest_spec() && appended_entry(*old(log), *final(log), "backup"@, "Success"@)),
            outcome matches FileWriteOutcome::CreateFailed(e) ==> (r == Result::<
                String,
                OpError,
            >::Err(OpError::Io(e)) && appended_entry(
                *old(log),
                *final(log),
                "backup"@,
                "Failed to create backup file: "@ + e@,
            )),
            outcome matches FileWriteOutcome::WriteFailed(e) ==> (r == Result::<
                String,
                OpError,
            >::Err(OpError::Io(e)) && appended_entry(
                *old(log),
                *final(log),
                "backup"@,
                "Failed to write backup file: "@ + e@,
            )),
            final(log).entries@.len() == old(log).entries@.len() + final(self).recorded@ - old(
                self,
            ).recorded@,
    {
        match outcome {
            FileWriteOutcome::Written => {
                let dest = match &self.dest {
                    Some(d) => String::from_str(d.as_str()),
                    None => unreached(),
                };
                log.record("backup", "Success");
                self.phase = BackupPhase::Done;
                self.recorded = Ghost(self.recorded@ + 1);
                Ok(dest)
            },
            FileWriteOutcome::CreateFailed(e) => {
                let mut status = String::from_str("Failed to create backup file: ");
                status.append(e.as_str());
                log.record("backup", status.as_str());
                self.phase = BackupPhase::Done;
                self.recorded = Ghost(self.recorded@ + 1);
                Err(OpError::Io(e))
            },
            FileWriteOutcome::WriteFailed(e) => {
                let mut status = String::from_str("Failed to write backup file: ");
                status.append(e.as_str());
                log.record("backup", status.as_str());
                self.phase = BackupPhase::Done;
                self.recorded = Ghost(self.recorded@ + 1);
                Err(OpError::Io(e))
            },
        }
    }
}

/// Law: the destination never escapes the backup directory. When the
/// source has passed validation and the backup directory itself carries
/// no parent-directory marker, the destination path carries none
/// either.
pub proof fn lemma_destination_is_traversal_free(op: BackupOperation)
    requires
        path_allowed(op.source@),
        path_allowed(op.backup_dir@),
    ensures
        final_segment_spec(op.source@) is Some ==> path_allowed(op.dest_spec()),
{
    if let Some(seg) = final_segment_spec(op.source@) {
        lemma_final_segment_keeps_safety(op.source@);
        lemma_join_keeps_safety(op.backup_dir@, seg);
    }
}

/// Law: a finished backup run has appended exactly one audit entry,
/// whatever the filesystem events were. Each transition's contract ties
/// the run's entry count to the log's growth, so a driver that runs the
/// machine from Start to Done grows the log by exactly one.
pub proof fn lemma_backup_logs_exactly_once(op: BackupOperation)
    requires
        op.wf(),
        op.phase is Done,
    ensures
        op.recorded@ == 1,
{
}

} // verus!

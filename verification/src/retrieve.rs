//! The retrieve operation: read a backup file whole and report its byte
//! count together with its content decoded as text, invalid byte
//! sequences replaced rather than failing the read.
//!
//! A strictly linear state machine, Start → Validated → Done: the
//! caller performs the read and reports it as an event, and validation
//! is forced before it by the phase preconditions. Every run appends
//! exactly one audit entry by the time it reaches Done.

use vstd::prelude::*;
use crate::audit::{appended_entry, AuditLogger};
use crate::error::OpError;
use crate::events::FileReadOutcome;
use crate::validator::{is_valid_path, path_allowed};
use vstd::utf8::{encode_utf8, valid_utf8};

verus! {

/// What `String::from_utf8_lossy` decodes the given bytes to.
pub uninterp spec fn lossy_text_of(bytes: Seq<u8>) -> Seq<char>;

/// Relies on String::from_utf8_lossy: the decoding depends on the bytes
/// alone, and bytes that are valid UTF-8 decode exactly to the text they
/// encode (only invalid sequences are replaced).
#[verifier::external_body]
fn decode_lossy(bytes: &Vec<u8>) -> (r: String)
    ensures
        r@ == lossy_text_of(bytes@),
        valid_utf8(bytes@) ==> encode_utf8(r@) == bytes@,
{
    String::from_utf8_lossy(bytes).into_owned()
}

/// What a successful retrieve reports: the bytes read from the backup
/// file and their lossy text decoding.
#[derive(Debug)]
pub struct RetrievedContent {
    pub bytes: Vec<u8>,
    pub text: String,
}

impl RetrievedContent {
    /// The number of bytes that were read.
    pub fn byte_count(&self) -> (r: usize)
        ensures
            r == self.bytes@.len(),
    {
        self.bytes.len()
    }
}

/// Where a retrieve run stands in its strictly linear life.
#[derive(Debug, Clone, Copy)]
pub enum RetrievePhase {
    Start,
    Validated,
    Done,
}

/// One retrieve run over a backup file path.
pub struct RetrieveOperation {
    pub path: String,
    pub phase: RetrievePhase,
    /// How many audit entries this run has appended so far.
    pub recorded: Ghost<nat>,
}

impl RetrieveOperation {
    /// Well-formedness: a run has appended an audit entry exactly when
    /// it is finished.
    pub open spec fn wf(self) -> bool {
        &&& (self.phase is Done ==> self.recorded@ == 1)
        &&& (!(self.phase is Done) ==> self.recorded@ == 0)
    }

    pub fn new(path: String) -> (r: RetrieveOperation)
        ensures
            r.wf(),
            r.phase is Start,
            r.path == path,
            r.recorded@ == 0,
    {
        RetrieveOperation { path, phase: RetrievePhase::Start, recorded: Ghost(0) }
    }

    /// Step 1: validate the backup file path before any filesystem
    /// access. A path with a parent-directory marker is refused, logged,
    /// and ends the run.
    pub fn validate(&mut self, log: &mut AuditLogger) -> (r: Result<(), OpError>)
        requires
            old(self).wf(),
            old(self).phase is Start,
        ensures
            final(self).wf(),
            final(self).path == old(self).path,
            r is Ok <==> path_allowed(old(self).path@),
            r is Ok ==> final(self).phase is Validated && *final(log) == *old(log),
            r is Err ==> r == Result::<(), OpError>::Err(OpError::InvalidPath)
                && final(self).phase is Done
                && appended_entry(
                *old(log),
                *final(log),
                "retrieve"@,
                "Invalid input - path traversal detected"@,
            ),
            final(log).entries@.len() == old(log).entries@.len() + final(self).recorded@ - old(
                self,
            ).recorded@,
    {
        if is_valid_path(self.path.as_str()) {
            self.phase = RetrievePhase::Validated;
            Ok(())
        } else {
            log.record("retrieve", "Invalid input - path traversal detected");
            self.phase = RetrievePhase::Done;
            self.recorded = Ghost(self.recorded@ + 1);
            Err(OpError::InvalidPath)
        }
    }

    /// Step 2: take the outcome of reading the backup file whole. Ends
    /// the run either way. On content, reports exactly the bytes that
    /// were read and their lossy text decoding — byte-for-byte the
    /// encoded text when the bytes are valid UTF-8; a failure (a missing
    /// file among them) is logged with the OS error text.
    pub fn accept_read(&mut self, outcome: FileReadOutcome, log: &mut AuditLogger) -> (r: Result<
        RetrievedContent,
        OpError,
    >)
        requires
            old(self).wf(),
            old(self).phase is Validated,
        ensures
            final(self).wf(),
            final(self).path == old(self).path,
            final(self).phase is Done,
            r is Ok <==> outcome is Content,
            outcome matches FileReadOutcome::Content(c) ==> (r matches Ok(rc) && rc.bytes@ == c@
                && rc.text@ == lossy_text_of(c@) && (valid_utf8(c@) ==> encode_utf8(rc.text@)
                == c@) && appended_entry(*old(log), *final(log), "retrieve"@, "Success"@)),
            outcome matches FileReadOutcome::OpenFailed(e) ==> (r == Result::<
                RetrievedContent,
                OpError,
            >::Err(OpError::Io(e)) && appended_entry(
                *old(log),
                *final(log),
                "retrieve"@,
                "Failed to open backup file: "@ + e@,
            )),
            outcome matches FileReadOutcome::ReadFailed(e) ==> (r == Result::<
                RetrievedContent,
                OpError,
            >::Err(OpError::Io(e)) && appended_entry(
                *old(log),
                *final(log),
                "retrieve"@,
                "Failed to read backup file: "@ + e@,
            )),
            final(log).entries@.len() == old(log).entries@.len() + final(self).recorded@ - old(
                self,
            ).recorded@,
    {
        match outcome {
            FileReadOutcome::Content(c) => {
                let text = decode_lossy(&c);
                log.record("retrieve", "Success");
                self.phase = RetrievePhase::Done;
                self.recorded = Ghost(self.recorded@ + 1);
                Ok(RetrievedContent { bytes: c, text })
            },
            FileReadOutcome::OpenFailed(e) => {
                let mut status = String::from_str("Failed to open backup file: ");
                status.append(e.as_str());
                log.record("retrieve", status.as_str());
                self.phase = RetrievePhase::Done;
                self.recorded = Ghost(self.recorded@ + 1);
                Err(OpError::Io(e))
            },
            FileReadOutcome::ReadFailed(e) => {
                let mut status = String::from_str("Failed to read backup file: ");
                status.append(e.as_str());
                log.record("retrieve", status.as_str());
                self.phase = RetrievePhase::Done;
                self.recorded = Ghost(self.recorded@ + 1);
                Err(OpError::Io(e))
            },
        }
    }
}

/// Law: a finished retrieve run has appended exactly one audit entry,
/// whatever the filesystem events were.
pub proof fn lemma_retrieve_logs_exactly_once(op: RetrieveOperation)
    requires
        op.wf(),
        op.phase is Done,
    ensures
        op.recorded@ == 1,
{
}

} // verus!

//! The delete operation: remove a file, but only after the operator has
//! confirmed with `yes` — in any letter case and with surrounding
//! whitespace allowed. A declined confirmation cancels the run and is
//! not an error.
//!
//! A strictly linear state machine,
//! Start → Validated → Confirmed → Done: the caller prompts, reads the
//! response, performs the removal, and reports each as an event.
//! Validation is forced before any filesystem access by the phase
//! preconditions, and every run appends exactly one audit entry by the
//! time it reaches Done.

use vstd::prelude::*;
use crate::audit::{appended_entry, AuditLogger};
use crate::error::OpError;
use crate::events::FileRemoveOutcome;
use crate::validator::{is_valid_path, path_allowed};

verus! {

/// What `str::trim` leaves of the given characters.
pub uninterp spec fn trimmed_of(s: Seq<char>) -> Seq<char>;

/// What `str::to_lowercase` folds the given characters to.
pub uninterp spec fn lower_of(s: Seq<char>) -> Seq<char>;

/// Relies on str::trim: removes leading and trailing whitespace; the
/// result depends on the characters alone.
#[verifier::external_body]
fn trim_ws(s: &str) -> (r: String)
    ensures
        r@ == trimmed_of(s@),
{
    s.trim().to_owned()
}

/// Relies on str::to_lowercase: the result depends on the characters
/// alone.
#[verifier::external_body]
fn lowercase(s: &str) -> (r: String)
    ensures
        r@ == lower_of(s@),
{
    s.to_lowercase()
}

/// The operator's response, normalized: whitespace trimmed, letters
/// folded to lower case.
pub open spec fn normalized_response(s: Seq<char>) -> Seq<char> {
    lower_of(trimmed_of(s))
}

/// An affirmative confirmation: the normalized response is exactly
/// `yes`.
pub open spec fn confirms(s: Seq<char>) -> bool {
    normalized_response(s) == "yes"@
}

/// Decides whether a raw confirmation response authorizes the delete.
pub fn confirmation_given(response: &str) -> (r: bool)
    ensures
        r == confirms(response@),
{
    let trimmed = trim_ws(response);
    let lowered = lowercase(trimmed.as_str());
    let yes = String::from_str("yes");
    lowered == yes
}

/// How a confirmation was answered.
#[derive(Debug, Clone, Copy)]
pub enum DeleteConfirmation {
    /// The operator confirmed; the removal may proceed.
    Proceed,
    /// The operator declined; the run is over and the file stays.
    Cancelled,
}

/// Where a delete run stands in its strictly linear life.
#[derive(Debug, Clone, Copy)]
pub enum DeletePhase {
    Start,
    Validated,
    Confirmed,
    Done,
}

/// One delete run over a target file path.
pub struct DeleteOperation {
    pub path: String,
    pub phase: DeletePhase,
    /// How many audit entries this run has appended so far.
    pub recorded: Ghost<nat>,
}

impl DeleteOperation {
    /// Well-formedness: a run has appended an audit entry exactly when
    /// it is finished.
    pub open spec fn wf(self) -> bool {
        &&& (self.phase is Done ==> self.recorded@ == 1)
        &&& (!(self.phase is Done) ==> self.recorded@ == 0)
    }

    pub fn new(path: String) -> (r: DeleteOperation)
        ensures
            r.wf(),
            r.phase is Start,
            r.path == path,
            r.recorded@ == 0,
    {
        DeleteOperation { path, phase: DeletePhase::Start, recorded: Ghost(0) }
    }

    /// Step 1: validate the target path before prompting or touching
    /// the filesystem. A path with a parent-directory marker is refused,
    /// logged, and ends the run.
    pub fn validate(&mut self, log: &mut AuditLogger) -> (r: Result<(), OpError>)
        requires
            old(self).wf(),
            old(self).phase is Start,
        ensures
            final(self).wf(),
            final(self).path == old(self).path,
            r is Ok <==> path_allowed(old(self).path@),
            r is Ok ==> final(self).phase is Validated && *final(log) == *old(log),
            r is Err ==> r == Result::<(), OpError>::Err(OpError::InvalidPath)
                && final(self).phase is Done
                && appended_entry(
                *old(log),
                *final(log),
                "delete"@,
                "Invalid input - path traversal detected"@,
            ),
            final(log).entries@.len() == old(log).entries@.len() + final(self).recorded@ - old(
                self,
            ).recorded@,
    {
        if is_valid_path(self.path.as_str()) {
            self.phase = DeletePhase::Validated;
            Ok(())
        } else {
            log.record("delete", "Invalid input - path traversal detected");
            self.phase = DeletePhase::Done;
            self.recorded = Ghost(self.recorded@ + 1);
            Err(OpError::InvalidPath)
        }
    }

    /// Step 2: take the operator's confirmation response. Anything whose
    /// normalized form is not exactly `yes` cancels the run: the target
    /// is never removed, and the cancellation is logged as a success.
    pub fn accept_confirmation(&mut self, response: &str, log: &mut AuditLogger) -> (r:
        DeleteConfirmation)
        requires
            old(self).wf(),
            old(self).phase is Validated,
        ensures
            final(self).wf(),
            final(self).path == old(self).path,
            r is Proceed <==> confirms(response@),
            r is Proceed ==> final(self).phase is Confirmed && *final(log) == *old(log),
            r is Cancelled ==> final(self).phase is Done && appended_entry(
                *old(log),
                *final(log),
                "delete"@,
                "Cancelled by user"@,
            ),
            final(log).entries@.len() == old(log).entries@.len() + final(self).recorded@ - old(
                self,
            ).recorded@,
    {
        if confirmation_given(response) {
            self.phase = DeletePhase::Confirmed;
            DeleteConfirmation::Proceed
        } else {
            log.record("delete", "Cancelled by user");
            self.phase = DeletePhase::Done;
            self.recorded = Ghost(self.recorded@ + 1);
            DeleteConfirmation::Cancelled
        }
    }

    /// Step 3: take the outcome of removing the file. Ends the run
    /// either way: success is logged; a failure is logged with the OS
    /// error text.
    pub fn accept_remove(&mut self, outcome: FileRemoveOutcome, log: &mut AuditLogger) -> (r:
        Result<(), OpError>)
        requires
            old(self).wf(),
            old(self).phase is Confirmed,
        ensures
            final(self).wf(),
            final(self).path == old(self).path,
            final(self).phase is Done,
            r is Ok <==> outcome is Removed,
            outcome matches FileRemoveOutcome::Removed ==> appended_entry(
                *old(log),
                *final(log),
                "delete"@,
                "Success"@,
            ),
            outcome matches FileRemoveOutcome::RemoveFailed(e) ==> (r == Result::<
                (),
                OpError,
            >::Err(OpError::Io(e)) && appended_entry(
                *old(log),
                *final(log),
                "delete"@,
                "Failed to delete file: "@ + e@,
            )),
            final(log).entries@.len() == old(log).entries@.len() + final(self).recorded@ - old(
                self,
            ).recorded@,
    {
        match outcome {
            FileRemoveOutcome::Removed => {
                log.record("delete", "Success");
                self.phase = DeletePhase::Done;
                self.recorded = Ghost(self.recorded@ + 1);
                Ok(())
            },
            FileRemoveOutcome::RemoveFailed(e) => {
                let mut status = String::from_str("Failed to delete file: ");
                status.append(e.as_str());
                log.record("delete", status.as_str());
                self.phase = DeletePhase::Done;
                self.recorded = Ghost(self.recorded@ + 1);
                Err(OpError::Io(e))
            },
        }
    }
}

/// Law: a finished delete run has appended exactly one audit entry —
/// whether it was refused, cancelled, failed, or succeeded.
pub proof fn lemma_delete_logs_exactly_once(op: DeleteOperation)
    requires
        op.wf(),
        op.phase is Done,
    ensures
        op.recorded@ == 1,
{
}

} // verus!

//! The installer's decisions: consume the pending update exactly once,
//! then either restart the process (the mechanism by which the new version
//! takes effect) or report the failure and keep running.
//!
//! The download-and-install operation itself is performed by the shell's
//! updater capability; this module decides what happens before it (taking
//! the descriptor out of the slot) and after it (restart on success, a
//! descriptive error otherwise).

use vstd::prelude::*;

use crate::descriptor::UpdateDescriptor;
use crate::store::PendingSlot;

verus! {

/// The exit code with which the process restarts after a successful
/// install.
pub const RESTART_EXIT_CODE: i32 = 0;

/// Why an install attempt produced no installed update.
#[derive(Debug)]
pub enum InstallError {
    /// The slot was empty: no successful check preceded this attempt, or
    /// its descriptor was already consumed.
    NoPendingUpdate,
    /// The shared store could not be accessed at all.
    StoreUnavailable,
    /// The download-and-install operation failed; the transport's own
    /// message is kept.
    InstallFailed { message: String },
}

/// The message shown when no update is pending.
pub open spec fn no_pending_message() -> Seq<char> {
    "No update is pending"@
}

/// The message shown when the shared store could not be accessed.
pub open spec fn store_unavailable_message() -> Seq<char> {
    "Update state is unavailable"@
}

/// The message shown when the download-and-install operation failed.
pub open spec fn install_failed_message(m: Seq<char>) -> Seq<char> {
    "Update failed: "@ + m
}

impl InstallError {
    /// The user-facing text of this error.
    pub fn message(&self) -> (r: String)
        ensures
            match self {
                InstallError::NoPendingUpdate => r@ == no_pending_message(),
                InstallError::StoreUnavailable => r@ == store_unavailable_message(),
                InstallError::InstallFailed { message } => r@ == install_failed_message(message@),
            },
    {
        match self {
            InstallError::NoPendingUpdate => String::from_str("No update is pending"),
            InstallError::StoreUnavailable => String::from_str("Update state is unavailable"),
            InstallError::InstallFailed { message } => {
                let mut t = String::from_str("Update failed: ");
                t.append(message.as_str());
                t
            },
        }
    }
}

/// The empty-slot error is real text and is never mistaken for a failed
/// download, whatever message the transport produced.
pub proof fn lemma_error_messages_distinct(m: Seq<char>)
    ensures
        no_pending_message().len() > 0,
        no_pending_message() != install_failed_message(m),
        no_pending_message() != store_unavailable_message(),
{
    reveal_strlit("No update is pending");
    reveal_strlit("Update failed: ");
    reveal_strlit("Update state is unavailable");
    assert(no_pending_message()[0] == 'N');
    assert(install_failed_message(m)[0] == 'U');
    assert(store_unavailable_message()[0] == 'U');
}

/// Takes the pending descriptor out of the slot, consuming it: whatever
/// happens afterwards, the slot is empty the moment the install begins. An
/// empty slot fails the attempt — this guards against a double invocation
/// and against an invocation without a prior successful check.
pub fn begin_install(slot: &mut PendingSlot) -> (r: Result<UpdateDescriptor, InstallError>)
    ensures
        final(slot)@ is None,
        old(slot)@ is None ==> (r matches Err(e) && e is NoPendingUpdate),
        old(slot)@ matches Some(d) ==> r == Ok::<UpdateDescriptor, InstallError>(d),
{
    match slot.take() {
        Some(d) => Ok(d),
        None => Err(InstallError::NoPendingUpdate),
    }
}

/// What the process does once the download-and-install operation returned.
pub enum InstallConclusion {
    /// The install succeeded: the process exits with `RESTART_EXIT_CODE`
    /// so the new version takes effect. There is no in-process hot swap.
    Restart,
    /// The install failed: the process keeps running, in its pre-update
    /// state, with this error to show. A retry can only succeed after a
    /// fresh check, since the slot was already drained.
    Remain { error: InstallError },
}

/// Decides the conclusion of one install attempt from the outcome the
/// updater capability reported.
pub fn conclude_install(outcome: Result<(), String>) -> (r: InstallConclusion)
    ensures
        outcome is Ok ==> r is Restart,
        outcome matches Err(m) ==> r == (InstallConclusion::Remain {
            error: InstallError::InstallFailed { message: m },
        }),
{
    match outcome {
        Ok(()) => InstallConclusion::Restart,
        Err(m) => InstallConclusion::Remain { error: InstallError::InstallFailed { message: m } },
    }
}

} // verus!

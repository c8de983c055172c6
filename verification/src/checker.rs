//! The update checker's decision: what one completed background check does
//! to the pending-update store and to the user.
//!
//! The check itself (the remote query) runs in the shell; it hands this
//! module its outcome as a plain value. A found update is turned into a
//! descriptor with sanitized notes, stored (overwriting any earlier find),
//! and announced; no update and a failed check are equally silent — the
//! check is best effort and never bothers the user with its failures.

use vstd::prelude::*;

use crate::descriptor::{PayloadHandle, UpdateDescriptor};
use crate::sanitize::{sanitize_notes, sanitized};
use crate::store::PendingSlot;

verus! {

/// The outcome of one background check, as the shell observed it.
pub enum CheckOutcome {
    /// The remote source answered: no newer version exists.
    NoUpdate,
    /// A newer version exists, with its raw release notes (if any) and the
    /// handle of its install payload.
    Found { version: String, notes: Option<String>, payload: PayloadHandle },
    /// The check itself failed (network error, malformed metadata).
    CheckFailed,
}

/// What the shell is asked to do after the check outcome was processed.
pub enum CheckAction {
    /// Nothing: no update, or a best-effort check that failed.
    Silent,
    /// Show the confirmation surface with this version and these already
    /// sanitized notes.
    Notify { version: String, notes: String },
}

/// The release notes a found update carries, or nothing.
pub open spec fn raw_notes_view(notes: Option<String>) -> Seq<char> {
    match notes {
        Some(n) => n@,
        None => Seq::empty(),
    }
}

/// Processes one check outcome. A found update is stored in the slot as a
/// descriptor carrying the sanitized notes — overwriting whatever an
/// earlier check left there — and the surface is requested with the same
/// version and notes. Any other outcome leaves the slot untouched and stays
/// silent.
pub fn process_check(outcome: CheckOutcome, slot: &mut PendingSlot) -> (r: CheckAction)
    ensures
        match outcome {
            CheckOutcome::Found { version, notes, payload } => {
                &&& final(slot)@ matches Some(d) && d.version == version && d.notes@ == sanitized(
                    raw_notes_view(notes),
                ) && d.payload == payload
                &&& r matches CheckAction::Notify { version: v, notes: n } && v == version && n@
                    == sanitized(raw_notes_view(notes))
            },
            _ => final(slot)@ == old(slot)@ && r is Silent,
        },
{
    match outcome {
        CheckOutcome::Found { version, notes, payload } => {
            let raw: &str = match &notes {
                Some(n) => n.as_str(),
                None => "",
            };
            proof {
                reveal_strlit("");
                assert(""@ =~= Seq::<char>::empty());
            }
            let clean = sanitize_notes(raw);
            let d = UpdateDescriptor {
                version: version.clone(),
                notes: clean.clone(),
                payload,
            };
            slot.put(d);
            CheckAction::Notify { version, notes: clean }
        },
        CheckOutcome::NoUpdate => CheckAction::Silent,
        CheckOutcome::CheckFailed => CheckAction::Silent,
    }
}

} // verus!

//! The confirmation surface: the minimal view that presents an available
//! update and collects the user's go/no-go decision.
//!
//! The view is rendered from a self-contained document embedded in a data
//! URL; this module builds that document from the version and the sanitized
//! notes, and models the view's own small state: its single action is
//! enabled or disabled, and it shows one of four messages (nothing yet, in
//! progress, success, or an error that re-enables the action for a retry).

use vstd::prelude::*;

verus! {

/// The document shown to the user: a heading, the version, the sanitized
/// notes, the action button and a status line, with a small script that
/// disables the button while the install request runs.
pub open spec fn confirmation_doc_spec(version: Seq<char>, notes: Seq<char>) -> Seq<char> {
    "<!DOCTYPE html><html><head><meta charset=\"utf-8\"><title>Update</title></head><body><h2>A new version is available</h2><p>Version <strong>"@
        + version
        + "</strong></p><div class=\"notes\">"@ + notes
        + "</div><button id=\"go\">Install now</button><p id=\"status\"></p><script>document.getElementById(\"go\").onclick=async function(){this.disabled=true;document.getElementById(\"status\").textContent=\"Downloading and installing...\";try{await window.__TAURI__.core.invoke(\"perform_update\");document.getElementById(\"status\").textContent=\"Update installed. Restarting...\";}catch(e){document.getElementById(\"status\").textContent=\"Error: \"+e;this.disabled=false;}};</script></body></html>"@
}

/// Builds the confirmation document around `version` and `notes`. The notes
/// must already be sanitized (as the checker stores them): the document
/// embeds both strings verbatim.
pub fn confirmation_document(version: &str, notes: &str) -> (r: String)
    ensures
        r@ == confirmation_doc_spec(version@, notes@),
{
    let mut doc = String::from_str(
        "<!DOCTYPE html><html><head><meta charset=\"utf-8\"><title>Update</title></head><body><h2>A new version is available</h2><p>Version <strong>",
    );
    doc.append(version);
    doc.append("</strong></p><div class=\"notes\">");
    doc.append(notes);
    doc.append(
        "</div><button id=\"go\">Install now</button><p id=\"status\"></p><script>document.getElementById(\"go\").onclick=async function(){this.disabled=true;document.getElementById(\"status\").textContent=\"Downloading and installing...\";try{await window.__TAURI__.core.invoke(\"perform_update\");document.getElementById(\"status\").textContent=\"Update installed. Restarting...\";}catch(e){document.getElementById(\"status\").textContent=\"Error: \"+e;this.disabled=false;}};</script></body></html>",
    );
    doc
}

/// What percent-encoding a text yields. The encoding is a function of the
/// input characters alone: the same text always encodes to the same result.
pub uninterp spec fn percent_encoded(s: Seq<char>) -> Seq<char>;

/// Relies on urlencoding::encode, which percent-encodes every byte of the
/// UTF-8 form of its input except ASCII alphanumerics and `-`, `_`, `.`,
/// `~`. Its result depends on the input alone, and an empty input yields an
/// empty result.
#[verifier::external_body]
fn percent_encode(s: &str) -> (r: String)
    ensures
        r@ == percent_encoded(s@),
        s@.len() == 0 ==> r@.len() == 0,
{
    urlencoding::encode(s).into_owned()
}

/// Builds the data URL under which the confirmation document is opened:
/// the data-URL prefix followed by the percent-encoded document.
pub fn confirmation_data_url(version: &str, notes: &str) -> (r: String)
    ensures
        r@ == "data:text/html;charset=utf-8,"@ + percent_encoded(
            confirmation_doc_spec(version@, notes@),
        ),
{
    let doc = confirmation_document(version, notes);
    let encoded = percent_encode(doc.as_str());
    let mut url = String::from_str("data:text/html;charset=utf-8,");
    url.append(encoded.as_str());
    url
}

/// The message the surface currently shows.
pub enum SurfaceStatus {
    /// Nothing has happened yet: the surface awaits the user's decision.
    AwaitingDecision,
    /// The install request is running.
    InProgress,
    /// The install succeeded; the process is about to restart, so this
    /// state is transient.
    Succeeded,
    /// The install failed; the message is shown and the action is offered
    /// again.
    Failed { message: String },
}

/// The state of the confirmation surface: what it presents, whether its
/// single action can be activated, and which message it shows.
pub struct ConfirmationSurface {
    pub version: String,
    pub notes: String,
    pub action_enabled: bool,
    pub status: SurfaceStatus,
}

impl ConfirmationSurface {
    /// The action is enabled exactly while a decision (or a retry after a
    /// failure) is possible: never while a request runs or after success.
    pub open spec fn wf(self) -> bool {
        self.action_enabled <==> (self.status is AwaitingDecision || self.status is Failed)
    }

    /// A freshly shown surface: action enabled, no message yet.
    pub fn show(version: String, notes: String) -> (r: Self)
        ensures
            r.version == version,
            r.notes == notes,
            r.action_enabled,
            r.status is AwaitingDecision,
            r.wf(),
    {
        ConfirmationSurface {
            version,
            notes,
            action_enabled: true,
            status: SurfaceStatus::AwaitingDecision,
        }
    }

    /// The user activates the primary action. If the action was enabled, it
    /// is disabled (no double submission) and an install request is issued;
    /// an activation while disabled changes nothing.
    pub fn confirm(&mut self) -> (issued: bool)
        ensures
            issued == old(self).action_enabled,
            final(self).version == old(self).version,
            final(self).notes == old(self).notes,
            old(self).action_enabled ==> !final(self).action_enabled && final(self).status
                is InProgress,
            !old(self).action_enabled ==> *final(self) == *old(self),
            old(self).wf() ==> final(self).wf(),
    {
        if self.action_enabled {
            self.action_enabled = false;
            self.status = SurfaceStatus::InProgress;
            true
        } else {
            false
        }
    }

    /// The install request finished. Success is shown with the action left
    /// disabled (the process restarts right after); a failure is shown with
    /// its message and the action is re-enabled, so the user may try again.
    pub fn on_install_result(&mut self, outcome: Result<(), String>)
        ensures
            final(self).version == old(self).version,
            final(self).notes == old(self).notes,
            match outcome {
                Ok(u) => final(self).status is Succeeded && !final(self).action_enabled,
                Err(m) => final(self).status == (SurfaceStatus::Failed { message: m })
                    && final(self).action_enabled,
            },
            final(self).wf(),
    {
        match outcome {
            Ok(()) => {
                self.action_enabled = false;
                self.status = SurfaceStatus::Succeeded;
            },
            Err(m) => {
                self.action_enabled = true;
                self.status = SurfaceStatus::Failed { message: m };
            },
        }
    }

    /// The text of the status line, one for each message state.
    pub fn status_text(&self) -> (r: String)
        ensures
            match self.status {
                SurfaceStatus::AwaitingDecision => r@ == ""@,
                SurfaceStatus::InProgress => r@ == "Downloading and installing..."@,
                SurfaceStatus::Succeeded => r@ == "Update installed. Restarting..."@,
                SurfaceStatus::Failed { message } => r@ == "Error: "@ + message@,
            },
    {
        match &self.status {
            SurfaceStatus::AwaitingDecision => String::from_str(""),
            SurfaceStatus::InProgress => String::from_str("Downloading and installing..."),
            SurfaceStatus::Succeeded => String::from_str("Update installed. Restarting..."),
            SurfaceStatus::Failed { message } => {
                let mut t = String::from_str("Error: ");
                t.append(message.as_str());
                t
            },
        }
    }
}

} // verus!

use update_flow::checker::{process_check, CheckAction, CheckOutcome};
use update_flow::descriptor::{PayloadHandle, UpdateDescriptor};
use update_flow::installer::{begin_install, conclude_install, InstallConclusion, InstallError, RESTART_EXIT_CODE};
use update_flow::sanitize::sanitize_notes;
use update_flow::store::PendingSlot;
use update_flow::surface::{confirmation_data_url, confirmation_document, ConfirmationSurface, SurfaceStatus};

fn descriptor(version: &str, notes: &str, token: u64) -> UpdateDescriptor {
    UpdateDescriptor {
        version: version.to_string(),
        notes: notes.to_string(),
        payload: PayloadHandle { token },
    }
}

#[test]
fn put_overwrites_last_write_wins() {
    let mut slot = PendingSlot::empty();
    slot.put(descriptor("1.0.1", "first", 1));
    slot.put(descriptor("1.0.2", "second", 2));
    let got = slot.take().expect("a descriptor is pending");
    assert_eq!(got.version, "1.0.2");
    assert_eq!(got.notes, "second");
    assert_eq!(got.payload, PayloadHandle { token: 2 });
}

#[test]
fn take_on_empty_returns_empty() {
    let mut slot = PendingSlot::empty();
    assert!(slot.take().is_none());
    assert!(slot.take().is_none());
}

#[test]
fn take_consumes_exactly_once() {
    let mut slot = PendingSlot::empty();
    slot.put(descriptor("1.1.0", "", 7));
    assert!(slot.take().is_some());
    assert!(slot.take().is_none());
}

#[test]
fn sanitize_escapes_script_tag() {
    let out = sanitize_notes("<script>alert(1)</script>");
    assert_eq!(out, "&lt;script&gt;alert(1)&lt;/script&gt;");
    assert!(!out.contains("<script"));
    assert!(!out.contains('<'));
    assert!(!out.contains('>'));
}

#[test]
fn sanitize_turns_newline_into_break() {
    assert_eq!(sanitize_notes("Fixes\nbug"), "Fixes<br>bug");
    assert_eq!(sanitize_notes("\n"), "<br>");
}

#[test]
fn sanitize_leaves_plain_text_alone() {
    assert_eq!(sanitize_notes(""), "");
    assert_eq!(sanitize_notes("Faster startup & fewer crashes."), "Faster startup & fewer crashes.");
}

#[test]
fn sanitize_mixed_input() {
    assert_eq!(sanitize_notes("a<b>\nc"), "a&lt;b&gt;<br>c");
}

#[test]
fn check_found_stores_sanitized_descriptor_and_notifies() {
    let mut slot = PendingSlot::empty();
    let outcome = CheckOutcome::Found {
        version: "2.3.0".to_string(),
        notes: Some("Fixes\nbug".to_string()),
        payload: PayloadHandle { token: 42 },
    };
    let action = process_check(outcome, &mut slot);
    match action {
        CheckAction::Notify { version, notes } => {
            assert_eq!(version, "2.3.0");
            assert_eq!(notes, "Fixes<br>bug");
        }
        CheckAction::Silent => panic!("a found update must be announced"),
    }
    let stored = slot.take().expect("the found update is pending");
    assert_eq!(stored.version, "2.3.0");
    assert_eq!(stored.notes, "Fixes<br>bug");
    assert_eq!(stored.payload, PayloadHandle { token: 42 });
    assert!(slot.take().is_none());
}

#[test]
fn check_found_without_notes_stores_empty_notes() {
    let mut slot = PendingSlot::empty();
    let outcome = CheckOutcome::Found {
        version: "3.0.0".to_string(),
        notes: None,
        payload: PayloadHandle { token: 9 },
    };
    let action = process_check(outcome, &mut slot);
    assert!(matches!(action, CheckAction::Notify { .. }));
    let stored = slot.take().expect("the found update is pending");
    assert_eq!(stored.notes, "");
}

#[test]
fn check_no_update_is_silent() {
    let mut slot = PendingSlot::empty();
    let action = process_check(CheckOutcome::NoUpdate, &mut slot);
    assert!(matches!(action, CheckAction::Silent));
    assert!(slot.take().is_none());
}

#[test]
fn check_failure_is_silent_and_keeps_slot() {
    let mut slot = PendingSlot::empty();
    slot.put(descriptor("1.2.0", "kept", 5));
    let action = process_check(CheckOutcome::CheckFailed, &mut slot);
    assert!(matches!(action, CheckAction::Silent));
    let kept = slot.take().expect("the earlier find is still pending");
    assert_eq!(kept.version, "1.2.0");
}

#[test]
fn install_on_empty_slot_fails_with_distinct_message() {
    let mut slot = PendingSlot::empty();
    let r = begin_install(&mut slot);
    let e = match r {
        Err(e) => e,
        Ok(_) => panic!("an empty slot cannot yield a descriptor"),
    };
    assert!(matches!(e, InstallError::NoPendingUpdate));
    let no_pending = e.message();
    assert!(!no_pending.is_empty());
    let transport = InstallError::InstallFailed { message: "connection reset".to_string() }.message();
    assert_ne!(no_pending, transport);
    // The process is still running: nothing here exits.
}

#[test]
fn successful_install_drains_slot_and_restarts_with_zero() {
    let mut slot = PendingSlot::empty();
    slot.put(descriptor("2.0.0", "notes", 3));
    let taken = begin_install(&mut slot).expect("a descriptor was pending");
    assert_eq!(taken.version, "2.0.0");
    // The slot is empty from the moment the install begins.
    assert!(slot.take().is_none());
    let conclusion = conclude_install(Ok(()));
    assert!(matches!(conclusion, InstallConclusion::Restart));
    assert_eq!(RESTART_EXIT_CODE, 0);
}

#[test]
fn failed_install_keeps_process_and_reports_transport_error() {
    let conclusion = conclude_install(Err("transport: connection reset".to_string()));
    match conclusion {
        InstallConclusion::Remain { error } => {
            assert_eq!(error.message(), "Update failed: transport: connection reset");
        }
        InstallConclusion::Restart => panic!("a failed install must not restart"),
    }
}

#[test]
fn error_messages_cover_each_variant() {
    assert_eq!(InstallError::NoPendingUpdate.message(), "No update is pending");
    assert_eq!(InstallError::StoreUnavailable.message(), "Update state is unavailable");
    assert_eq!(
        InstallError::InstallFailed { message: "timed out".to_string() }.message(),
        "Update failed: timed out"
    );
}

#[test]
fn surface_confirm_disables_action_once() {
    let mut s = ConfirmationSurface::show("2.3.0".to_string(), "Fixes<br>bug".to_string());
    assert!(s.action_enabled);
    assert_eq!(s.status_text(), "");
    assert!(s.confirm());
    assert!(!s.action_enabled);
    assert!(matches!(s.status, SurfaceStatus::InProgress));
    assert_eq!(s.status_text(), "Downloading and installing...");
    // A second activation while disabled does nothing.
    assert!(!s.confirm());
    assert!(matches!(s.status, SurfaceStatus::InProgress));
}

#[test]
fn surface_shows_error_and_reenables_action() {
    let mut s = ConfirmationSurface::show("2.3.0".to_string(), "".to_string());
    assert!(s.confirm());
    s.on_install_result(Err("connection reset".to_string()));
    assert!(s.action_enabled);
    assert_eq!(s.status_text(), "Error: connection reset");
    // The user may try again after the failure.
    assert!(s.confirm());
}

#[test]
fn surface_shows_success_and_stays_disabled() {
    let mut s = ConfirmationSurface::show("2.3.0".to_string(), "".to_string());
    assert!(s.confirm());
    s.on_install_result(Ok(()));
    assert!(!s.action_enabled);
    assert_eq!(s.status_text(), "Update installed. Restarting...");
}

#[test]
fn document_embeds_version_and_sanitized_notes() {
    let notes = sanitize_notes("Fixes\nbug");
    let doc = confirmation_document("2.3.0", &notes);
    assert!(doc.starts_with("<!DOCTYPE html>"));
    assert!(doc.contains("Version <strong>2.3.0</strong>"));
    assert!(doc.contains("Fixes<br>bug"));
    assert!(doc.contains("<button id=\"go\">"));
    assert!(doc.contains("<p id=\"status\">"));
}

#[test]
fn document_never_carries_script_from_notes() {
    let notes = sanitize_notes("<script>alert(1)</script>");
    let doc = confirmation_document("2.3.0", &notes);
    // The only script element is the document's own handler, after the
    // status line; the notes section carries none.
    let notes_section = &doc[..doc.find("<p id=\"status\">").unwrap()];
    assert!(!notes_section.contains("<script"));
    assert!(notes_section.contains("&lt;script&gt;alert(1)&lt;/script&gt;"));
}

#[test]
fn data_url_is_prefix_plus_percent_encoded_document() {
    let doc = confirmation_document("2.3.0", "Fixes<br>bug");
    let url = confirmation_data_url("2.3.0", "Fixes<br>bug");
    let prefix = "data:text/html;charset=utf-8,";
    assert!(url.starts_with(prefix));
    let encoded = &url[prefix.len()..];
    assert_eq!(encoded, urlencoding::encode(&doc).as_ref());
    // The document was really encoded, not passed through.
    assert_ne!(encoded, doc);
    assert!(!encoded.contains('<'));
    assert!(!encoded.contains(' '));
    assert!(encoded.contains("%3C"));
}

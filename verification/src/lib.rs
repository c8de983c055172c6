//! Core of an in-app self-update flow: a background check finds a newer
//! release, the user is shown a confirmation view, and on consent the update
//! is downloaded, installed, and the process restarted.
//!
//! This crate holds the decision logic: the single-slot pending-update store,
//! sanitization of untrusted release notes, construction of the confirmation
//! document, and the checker / installer / confirmation-surface transitions.
//! The surrounding shell (window creation, the network transport of the
//! updater, the async runtime) lives outside and hands plain values in.

pub mod checker;
pub mod descriptor;
pub mod installer;
pub mod sanitize;
pub mod store;
pub mod surface;

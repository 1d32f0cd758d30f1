//! Decisions behind the macOS developer-tool authorization query and the
//! System Integrity Protection (SIP) filesystem probes.
//!
//! Everything that touches the operating system (loading images, sending
//! Objective-C messages, spawning `csrutil`, calling `access`) happens in the
//! program around this library; what it observed is handed in here as plain
//! values, and the verdicts are computed and proved here.

pub mod handoff;
pub mod sip;
pub mod status;

pub use handoff::Handoff;
pub use sip::{
    contains_phrase, protections_enabled_in_config, sip_from_access_outcome, sip_from_csr_config,
    sip_from_status_output, AccessOutcome, CSR_ALLOW_UNRESTRICTED_FS,
};
pub use status::{
    DeveloperToolStatusKind, EPDeveloperToolStatus, AUTHORIZED, DENIED, NOT_DETERMINED, RESTRICTED,
};

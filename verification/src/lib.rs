//! Device-matching and installer-staging core.
//!
//! The library identifies connected peripherals by USB vendor/product
//! identifiers against a known-device catalog, with a vendor-level fallback,
//! and models the streaming download of an installer package as a verified
//! state machine with progress reporting.

pub mod catalog;
pub mod models;
pub mod transfer;
pub mod usb;

//! Sends a UTF-8 text file to a band device in chunks, driven by the
//! messages the device sends back.
//!
//! The library holds the state of the transfer and every decision taken on
//! it; the host (file dialog, device link, UI renderer) stays outside and
//! hands the library plain values.
pub mod chunking;
pub mod json;
pub mod protocol;
pub mod state;
pub mod transfer;
pub mod ui;

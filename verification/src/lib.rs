//! Decision core of a desktop application's self-update flow.
//!
//! The surrounding application shell checks an update service, shows dialogs
//! and downloads the update; this library decides, step by step, what the
//! shell must do next and with exactly which texts. The flow is: check for an
//! update, ask the user, download with a progress notice per chunk, install,
//! restart.

pub mod decimal;
pub mod dialog;
pub mod flow;

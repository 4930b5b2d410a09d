//! Offline IMEI / TAC lookup: digit normalisation, Luhn validation, and the
//! decisions behind database refreshes and result display.

pub mod db;
pub mod display;
pub mod imei;
pub mod laws;
pub mod text;
pub mod updater;

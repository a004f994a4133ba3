//! The session around a download: what the user sees and may do, and what
//! follows from it.

pub mod catalog;
pub mod catalog_laws;
pub mod download;
pub mod download_laws;
pub mod form;
pub mod laws;
pub mod login_laws;
pub mod process_events;
pub mod qr_code;
pub mod reported;
pub mod reported_laws;
pub mod selection;
pub mod session;
pub mod shown_laws;
pub mod speed_history;
pub mod state;
pub mod status;
pub mod user_apps;

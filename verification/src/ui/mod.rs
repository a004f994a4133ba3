//! Numbers and times as they are shown.

pub mod format;
pub mod format_laws;
pub mod reading_laws;

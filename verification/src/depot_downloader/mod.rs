//! DepotDownloader itself: its command line, its output and its progress.

pub mod child;
pub mod event;
pub mod launch_laws;
pub mod lines;
pub mod list;
pub mod pace_laws;
pub mod parser;
pub mod parser_laws;
pub mod percent;
pub mod percent_laws;
pub mod process;
pub mod progress;
pub mod progress_laws;
pub mod prompt_laws;
pub mod provisioning;
pub mod scan;

//! The logic of a desktop front end for DepotDownloader: what its output
//! means, how its command line is built, how a download's progress and the
//! session around it evolve, and how the results are written out.

pub mod app;
pub mod config;
pub mod console;
pub mod console_laws;
pub mod decimal;
pub mod json;
pub mod path_laws;
pub mod paths;
pub mod rounding;
pub mod rounding_laws;
pub mod steam;
pub mod text;
pub mod text_laws;
pub mod depot_downloader;
pub mod ui;
pub mod view_laws;

//! What Steam's public services, folders and files say.

pub mod app_id;
pub mod app_info;
pub mod app_manifest;
pub mod dlc;
pub mod library_path;
pub mod logo;
pub mod lookup_laws;
pub mod manifest_laws;

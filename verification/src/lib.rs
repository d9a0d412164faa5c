//! impedanz-server's verified core: the decisions behind the IMPEDANZ API
//! (member login and sessions, user management, event publishing, artwork
//! upload) and the header rules of the static site.

pub mod api;
pub mod auth;
pub mod config;
pub mod errors;
pub mod events;
pub mod ids;
pub mod media;
pub mod static_files;
pub mod text;
pub mod timestamp;
pub mod users;

//! Core logic of the walz desktop client: link translation, download naming,
//! clipboard selection, settings files, profiles and tray badges.

pub mod text;
pub mod encoding;
pub mod links;
pub mod slot;
pub mod paths;
pub mod commands;
pub mod downloads;
pub mod desktop_dnd;
pub mod profile;
pub mod tray;
pub mod transcription;
pub mod single_instance;
pub mod secrets;
pub mod theme;
pub mod mpris;

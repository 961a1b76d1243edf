//! Launcher logic of the Wankle desktop client: persisted settings, the
//! Chromium argument builder, the overlay/game event decisions and the small
//! text and platform helpers they rest on.

pub mod client;
pub mod config;
pub mod flags;
pub mod platform;
pub mod text;
pub mod ui;

//! Save-state snapshot and screenshot-correlation logic for tracked games.

pub mod cache;
pub mod capture;
pub mod clock;
pub mod config;
pub mod crop;
pub mod debounce;
pub mod hotkey;
pub mod layout;
pub mod matcher;
pub mod metadata;
pub mod paths;
pub mod pipeline;
pub mod records;
pub mod registration;
pub mod removal;
pub mod snapshot;
pub mod stamp;
pub mod window;

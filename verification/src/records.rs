//! The records that the store keeps.

use vstd::prelude::*;

verus! {

/// A watched game.
#[derive(Debug)]
pub struct Game {
    pub id: String,
    pub name: String,
    /// The game's executable, if known.
    pub exe_path: Option<String>,
    /// The game's root folder.
    pub game_folder_path: String,
    /// The folder the game writes its saves to, if it is set.
    pub save_folder_path: Option<String>,
    pub cover_image: Option<String>,
}

/// A backed-up save file with its correlated screenshot.
#[derive(Debug)]
pub struct Snapshot {
    pub id: String,
    pub game_id: String,
    /// Display name: the game's name and the time of the snapshot.
    pub name: String,
    /// The save file that changed.
    pub original_save_path: String,
    /// The folder that holds the backup.
    pub backup_save_path: String,
    /// The screenshot that goes with the save, if there is one.
    pub image_path: Option<String>,
    /// Clipboard text captured along with the save, if any.
    pub text_content: Option<String>,
    pub note: Option<String>,
    pub created_at: String,
}

/// A manually captured screenshot.
#[derive(Debug)]
pub struct Screenshot {
    pub id: String,
    pub game_id: String,
    pub image_path: String,
    pub note: Option<String>,
    pub created_at: String,
}

} // verus!

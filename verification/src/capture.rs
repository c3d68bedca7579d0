//! The manual capture: which window to capture, and the record it leaves.

use crate::crop::Rect;
use crate::layout::{manual_screenshot_file, manual_screenshot_path};
use crate::records::{Game, Screenshot};
use crate::stamp::{
    created_at_text, file_pattern, file_stamp, random_id, rfc3339_text, utc_text,
};
use crate::window::{find_window_rect_for_exe, first_window_rect, normal_form, WindowInfo};
use vstd::prelude::*;
use vstd::string::*;

verus! {

/// Why a manual capture cannot start.
#[derive(Clone, Copy, Debug, PartialEq, Eq, Structural)]
pub enum CaptureError {
    /// No game has the given identifier.
    GameNotFound,
    /// The game's executable is not known.
    ExecutableUnknown,
    /// No visible window belongs to the game's executable.
    WindowNotFound,
}

impl CaptureError {
    /// The error in words.
    pub open spec fn text(self) -> Seq<char> {
        match self {
            CaptureError::GameNotFound => "Game not found"@,
            CaptureError::ExecutableUnknown => "Game exe_path not set"@,
            CaptureError::WindowNotFound => "Game window not found"@,
        }
    }

    /// The error in words, for display.
    pub fn message(&self) -> (r: &'static str)
        ensures
            r@ == self.text(),
    {
        match self {
            CaptureError::GameNotFound => "Game not found",
            CaptureError::ExecutableUnknown => "Game exe_path not set",
            CaptureError::WindowNotFound => "Game window not found",
        }
    }
}

/// The window that a manual capture is cropped to.
#[derive(Clone, Copy, Debug, PartialEq, Eq, Structural)]
pub struct CaptureTarget {
    /// Position of the game in the list that was searched.
    pub game_index: usize,
    /// The game's window on the virtual screen.
    pub rect: Rect,
}

/// `i` is the position of the first game with the given identifier.
pub open spec fn first_with_id(games: Seq<Game>, id: Seq<char>, i: int) -> bool {
    &&& 0 <= i < games.len()
    &&& games[i].id@ == id
    &&& forall|j: int| 0 <= j < i ==> (#[trigger] games[j]).id@ != id
}

/// Whether the outcome is the right one for a capture of the game with the
/// given identifier.
pub open spec fn is_capture_target(
    games: Seq<Game>,
    id: Seq<char>,
    windows: Seq<WindowInfo>,
    outcome: Result<CaptureTarget, CaptureError>,
) -> bool {
    match outcome {
        Ok(target) => {
            &&& first_with_id(games, id, target.game_index as int)
            &&& games[target.game_index as int].exe_path is Some
            &&& first_window_rect(
                windows,
                normal_form(games[target.game_index as int].exe_path->0@),
                Some(target.rect),
            )
        },
        Err(CaptureError::GameNotFound) => forall|j: int|
            0 <= j < games.len() ==> (#[trigger] games[j]).id@ != id,
        Err(CaptureError::ExecutableUnknown) => exists|i: int|
            first_with_id(games, id, i) && games[i].exe_path is None,
        Err(CaptureError::WindowNotFound) => exists|i: int|
            {
                &&& first_with_id(games, id, i)
                &&& games[i].exe_path is Some
                &&& first_window_rect(windows, normal_form(games[i].exe_path->0@), None)
            },
    }
}

/// Finds the first game with the given identifier.
pub fn find_game_by_id(games: &Vec<Game>, id: &str) -> (r: Option<usize>)
    ensures
        match r {
            Some(i) => first_with_id(games@, id@, i as int),
            None => forall|j: int| 0 <= j < games@.len() ==> (#[trigger] games@[j]).id@ != id@,
        },
{
    let wanted = String::from_str(id);
    let mut i: usize = 0;
    while i < games.len()
        invariant
            i <= games@.len(),
            wanted@ == id@,
            forall|j: int| 0 <= j < i ==> (#[trigger] games@[j]).id@ != id@,
        decreases games@.len() - i,
    {
        if games[i].id == wanted {
            return Some(i);
        }
        i = i + 1;
    }
    None
}

/// Finds the window that a manual capture of the given game is cropped to.
pub fn locate_capture_target(games: &Vec<Game>, game_id: &str, windows: &Vec<WindowInfo>) -> (r:
    Result<CaptureTarget, CaptureError>)
    ensures
        is_capture_target(games@, game_id@, windows@, r),
{
    let index = match find_game_by_id(games, game_id) {
        Some(i) => i,
        None => {
            return Err(CaptureError::GameNotFound);
        },
    };
    let exe = match &games[index].exe_path {
        Some(exe) => exe,
        None => {
            return Err(CaptureError::ExecutableUnknown);
        },
    };
    match find_window_rect_for_exe(exe.as_str(), windows) {
        Some(rect) => Ok(CaptureTarget { game_index: index, rect }),
        None => Err(CaptureError::WindowNotFound),
    }
}

/// Whether a record is the one of a manual screenshot of the game under the
/// given identifier, time stamp and creation time.
pub open spec fn is_screenshot_with(
    record: Screenshot,
    game: Game,
    id: Seq<char>,
    stamp: Seq<char>,
    created_at: Seq<char>,
) -> bool {
    &&& record.id@ == id
    &&& record.game_id@ == game.id@
    &&& record.image_path@ == manual_screenshot_file(game.game_folder_path@, stamp)
    &&& record.note is None
    &&& record.created_at@ == created_at
}

/// The record of a manual screenshot of the game under the given identifier,
/// time stamp and creation time; its `image_path` is where the image is to
/// be written.
pub fn screenshot_record_from(game: &Game, id: &str, stamp: &str, created_at: &str) -> (r:
    Screenshot)
    ensures
        is_screenshot_with(r, *game, id@, stamp@, created_at@),
{
    Screenshot {
        id: String::from_str(id),
        game_id: game.id.clone(),
        image_path: manual_screenshot_path(game.game_folder_path.as_str(), stamp),
        note: None,
        created_at: String::from_str(created_at),
    }
}

/// Whether a record is the one of a manual screenshot of the game taken at
/// the given wall-clock time, under some identifier of 36 characters.
pub open spec fn is_screenshot_of(record: Screenshot, game: Game, unix_millis: i64) -> bool {
    &&& utc_text(unix_millis, file_pattern()) is Some
    &&& rfc3339_text(unix_millis) is Some
    &&& record.id@.len() == 36
    &&& is_screenshot_with(
        record,
        game,
        record.id@,
        utc_text(unix_millis, file_pattern())->0,
        rfc3339_text(unix_millis)->0,
    )
}

/// The record of a manual screenshot of the game taken at the given
/// wall-clock time, under a fresh identifier; its `image_path` is where the
/// image is to be written. `None` exactly when the time cannot be written as
/// a calendar date.
pub fn screenshot_record(game: &Game, unix_millis: i64) -> (r: Option<Screenshot>)
    ensures
        match r {
            Some(record) => is_screenshot_of(record, *game, unix_millis),
            None => utc_text(unix_millis, file_pattern()) is None || rfc3339_text(unix_millis)
                is None,
        },
{
    let stamp = match file_stamp(unix_millis) {
        Some(stamp) => stamp,
        None => {
            return None;
        },
    };
    let created_at = match created_at_text(unix_millis) {
        Some(text) => text,
        None => {
            return None;
        },
    };
    let id = random_id();
    Some(screenshot_record_from(game, id.as_str(), stamp.as_str(), created_at.as_str()))
}

} // verus!

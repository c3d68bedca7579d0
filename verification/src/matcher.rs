//! Finding the watched game that a changed file belongs to.

use crate::paths::{ancestor_of, is_ancestor, is_save_file, is_save_path};
use crate::records::Game;
use vstd::prelude::*;

verus! {

/// Which of a game's folders holds the changed file.
#[derive(Clone, Copy, Debug, PartialEq, Eq, Structural)]
pub enum MatchKind {
    /// The game's save folder is the file's ancestor.
    SaveFolder,
    /// The save folder is not, but the game's root folder is.
    GameFolder,
}

/// A game that a changed file belongs to.
#[derive(Clone, Copy, Debug, PartialEq, Eq, Structural)]
pub struct GameMatch {
    /// Position of the game in the list that was searched.
    pub index: usize,
    pub kind: MatchKind,
}

/// What becomes of a changed path.
#[derive(Clone, Copy, Debug, PartialEq, Eq, Structural)]
pub enum Route {
    /// The path does not carry the save-file extension.
    NotSaveFile,
    /// The path is a save file, but under no watched game.
    NoGame,
    /// The path is a save file of the matched game.
    Matched(GameMatch),
}

/// How a game holds a path, if it does: by its save folder where that is set
/// and an ancestor of the path, else by its root folder.
pub open spec fn match_kind(game: Game, path: Seq<char>) -> Option<MatchKind> {
    if game.save_folder_path is Some && ancestor_of(game.save_folder_path->0@, path) {
        Some(MatchKind::SaveFolder)
    } else if ancestor_of(game.game_folder_path@, path) {
        Some(MatchKind::GameFolder)
    } else {
        None
    }
}

/// The game that a path belongs to, if any: the first game of the list
/// whose save folder holds the path; where no save folder does, the first
/// whose root folder holds it.
pub open spec fn first_match(games: Seq<Game>, path: Seq<char>, found: Option<GameMatch>) -> bool {
    match found {
        Some(m) => {
            &&& m.index < games.len()
            &&& match_kind(games[m.index as int], path) == Some(m.kind)
            &&& match m.kind {
                MatchKind::SaveFolder => forall|j: int|
                    0 <= j < m.index ==> match_kind(#[trigger] games[j], path) != Some(
                        MatchKind::SaveFolder,
                    ),
                MatchKind::GameFolder => {
                    &&& forall|j: int|
                        0 <= j < games.len() ==> match_kind(#[trigger] games[j], path) != Some(
                            MatchKind::SaveFolder,
                        )
                    &&& forall|j: int|
                        0 <= j < m.index ==> match_kind(#[trigger] games[j], path) is None
                },
            }
        },
        None => forall|j: int| 0 <= j < games.len() ==> match_kind(#[trigger] games[j], path) is None,
    }
}

/// The route of a changed path.
pub open spec fn is_route(games: Seq<Game>, path: Seq<char>, route: Route) -> bool {
    match route {
        Route::NotSaveFile => !is_save_path(path),
        Route::NoGame => is_save_path(path) && first_match(games, path, None),
        Route::Matched(m) => is_save_path(path) && first_match(games, path, Some(m)),
    }
}

/// Whether and how one game holds the path.
pub fn match_game(game: &Game, path: &str) -> (r: Option<MatchKind>)
    ensures
        r == match_kind(*game, path@),
{
    let by_save_folder = match &game.save_folder_path {
        Some(folder) => is_ancestor(folder.as_str(), path),
        None => false,
    };
    if by_save_folder {
        Some(MatchKind::SaveFolder)
    } else if is_ancestor(game.game_folder_path.as_str(), path) {
        Some(MatchKind::GameFolder)
    } else {
        None
    }
}

/// Finds the game that a changed path belongs to. A match by save folder is
/// preferred over a match by root folder, wherever the games stand in the
/// list; among matches of one kind the first in the list wins.
pub fn find_game(games: &Vec<Game>, path: &str) -> (r: Option<GameMatch>)
    ensures
        first_match(games@, path@, r),
{
    let mut by_root: Option<usize> = None;
    let mut i: usize = 0;
    while i < games.len()
        invariant
            i <= games@.len(),
            forall|j: int|
                0 <= j < i ==> match_kind(#[trigger] games@[j], path@) != Some(
                    MatchKind::SaveFolder,
                ),
            match by_root {
                Some(first) => {
                    &&& first < i
                    &&& match_kind(games@[first as int], path@) == Some(MatchKind::GameFolder)
                    &&& forall|j: int|
                        0 <= j < first ==> match_kind(#[trigger] games@[j], path@) is None
                },
                None => forall|j: int|
                    0 <= j < i ==> match_kind(#[trigger] games@[j], path@) is None,
            },
        decreases games@.len() - i,
    {
        match match_game(&games[i], path) {
            Some(MatchKind::SaveFolder) => {
                return Some(GameMatch { index: i, kind: MatchKind::SaveFolder });
            },
            Some(MatchKind::GameFolder) => {
                if by_root.is_none() {
                    by_root = Some(i);
                }
            },
            None => {},
        }
        i = i + 1;
    }
    match by_root {
        Some(first) => Some(GameMatch { index: first, kind: MatchKind::GameFolder }),
        None => None,
    }
}

/// Decides what becomes of a changed path: files without the save-file
/// extension are set aside before any game is looked at.
pub fn route_event(games: &Vec<Game>, path: &str) -> (r: Route)
    ensures
        is_route(games@, path@, r),
{
    if !is_save_file(path) {
        return Route::NotSaveFile;
    }
    match find_game(games, path) {
        Some(m) => Route::Matched(m),
        None => Route::NoGame,
    }
}

} // verus!

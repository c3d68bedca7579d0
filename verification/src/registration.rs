//! Registering a game: which folders it gets, and what keeps the list of
//! watched games consistent.

use crate::paths::{ancestor_of, is_ancestor, is_same_path, parent, parent_of, same_path};
use crate::records::Game;
use crate::window::{normal_form, normalize_exe_path};
use vstd::prelude::*;
use vstd::string::*;

verus! {

/// Why a game cannot be registered.
#[derive(Clone, Copy, Debug, PartialEq, Eq, Structural)]
pub enum RegistrationError {
    /// Another game already has this executable.
    DuplicateExecutable,
    /// Another game already has this save folder.
    DuplicateSaveFolder,
    /// The save folder does not lie in the game's root folder.
    SaveFolderOutsideRoot,
}

impl RegistrationError {
    /// The error in words.
    pub open spec fn text(self) -> Seq<char> {
        match self {
            RegistrationError::DuplicateExecutable => "Another game already has this executable"@,
            RegistrationError::DuplicateSaveFolder => "Another game already has this save folder"@,
            RegistrationError::SaveFolderOutsideRoot => "The save folder is outside the game folder"@,
        }
    }

    /// The error in words, for display.
    pub fn message(&self) -> (r: &'static str)
        ensures
            r@ == self.text(),
    {
        match self {
            RegistrationError::DuplicateExecutable => "Another game already has this executable",
            RegistrationError::DuplicateSaveFolder => "Another game already has this save folder",
            RegistrationError::SaveFolderOutsideRoot => "The save folder is outside the game folder",
        }
    }
}

/// Whether the game has the given executable, compared in normal form.
pub open spec fn has_executable(game: Game, exe: Seq<char>) -> bool {
    game.exe_path is Some && normal_form(game.exe_path->0@) == normal_form(exe)
}

/// Whether the game has the given save folder.
pub open spec fn has_save_folder(game: Game, folder: Seq<char>) -> bool {
    game.save_folder_path is Some && same_path(game.save_folder_path->0@, folder)
}

/// Whether the game's save folder, where it is set, lies in its root folder.
pub open spec fn saves_in_root(game: Game) -> bool {
    game.save_folder_path is Some ==> ancestor_of(
        game.game_folder_path@,
        game.save_folder_path->0@,
    )
}

/// The list of watched games is consistent: no two games share an
/// executable or a save folder, and every save folder lies in its game's
/// root folder.
pub open spec fn is_consistent(games: Seq<Game>) -> bool {
    &&& forall|i: int| 0 <= i < games.len() ==> saves_in_root(#[trigger] games[i])
    &&& forall|i: int, j: int|
        0 <= i < j < games.len() && (#[trigger] games[j]).exe_path is Some ==> !has_executable(
            #[trigger] games[i],
            games[j].exe_path->0@,
        )
    &&& forall|i: int, j: int|
        0 <= i < j < games.len() && (#[trigger] games[j]).save_folder_path is Some
            ==> !has_save_folder(#[trigger] games[i], games[j].save_folder_path->0@)
}

/// The verdict on a new game with the given root folder, save folder and
/// executable.
pub open spec fn verdict(games: Seq<Game>, root: Seq<char>, save_folder: Seq<char>, exe: Seq<char>) -> Result<
    (),
    RegistrationError,
> {
    if exists|i: int| 0 <= i < games.len() && has_executable(#[trigger] games[i], exe) {
        Err(RegistrationError::DuplicateExecutable)
    } else if exists|i: int| 0 <= i < games.len() && has_save_folder(#[trigger] games[i], save_folder) {
        Err(RegistrationError::DuplicateSaveFolder)
    } else if !ancestor_of(root, save_folder) {
        Err(RegistrationError::SaveFolderOutsideRoot)
    } else {
        Ok(())
    }
}

/// The root folder of a game with the given executable: the folder that
/// holds the executable, or the save folder where the executable's path names
/// no file.
pub fn game_folder_for(exe_path: &str, save_folder: &str) -> (r: String)
    ensures
        r@ == match parent_of(exe_path@) {
            Some(folder) => folder,
            None => save_folder@,
        },
{
    match parent(exe_path) {
        Some(folder) => String::from_str(folder),
        None => String::from_str(save_folder),
    }
}

/// The folder to watch for a game: its save folder where that is set, else
/// its root folder.
pub fn watch_path(game: &Game) -> (r: &str)
    ensures
        r@ == match game.save_folder_path {
            Some(folder) => folder@,
            None => game.game_folder_path@,
        },
{
    match &game.save_folder_path {
        Some(folder) => folder.as_str(),
        None => game.game_folder_path.as_str(),
    }
}

/// Whether one of the listed normal forms is exactly the wanted one.
pub fn is_form_taken(forms: &Vec<Option<String>>, wanted: &str) -> (r: bool)
    ensures
        r == exists|i: int|
            0 <= i < forms@.len() && (#[trigger] forms@[i]) is Some && forms@[i]->0@ == wanted@,
{
    let target = String::from_str(wanted);
    let mut i: usize = 0;
    while i < forms.len()
        invariant
            i <= forms@.len(),
            target@ == wanted@,
            forall|j: int|
                0 <= j < i ==> !((#[trigger] forms@[j]) is Some && forms@[j]->0@ == wanted@),
        decreases forms@.len() - i,
    {
        match &forms[i] {
            Some(form) => {
                if *form == target {
                    return true;
                }
            },
            None => {},
        }
        i = i + 1;
    }
    false
}

/// Whether `form` is the normal form of the game's executable, where it has
/// one.
pub open spec fn is_executable_form(form: Option<String>, game: Game) -> bool {
    match game.exe_path {
        Some(path) => form is Some && form->0@ == normal_form(path@),
        None => form is None,
    }
}

/// The executables of the games in normal form.
pub fn executable_forms(games: &Vec<Game>) -> (r: Vec<Option<String>>)
    ensures
        r@.len() == games@.len(),
        forall|i: int| 0 <= i < r@.len() ==> is_executable_form(#[trigger] r@[i], games@[i]),
{
    let mut forms: Vec<Option<String>> = Vec::new();
    let mut i: usize = 0;
    while i < games.len()
        invariant
            i <= games@.len(),
            forms@.len() == i,
            forall|j: int| 0 <= j < i ==> is_executable_form(#[trigger] forms@[j], games@[j]),
        decreases games@.len() - i,
    {
        let form = match &games[i].exe_path {
            Some(path) => Some(normalize_exe_path(path.as_str())),
            None => None,
        };
        forms.push(form);
        i = i + 1;
    }
    forms
}

fn executable_taken(games: &Vec<Game>, exe: &str) -> (r: bool)
    ensures
        r == exists|i: int| 0 <= i < games@.len() && has_executable(#[trigger] games@[i], exe@),
{
    let wanted = normalize_exe_path(exe);
    let forms = executable_forms(games);
    let taken = is_form_taken(&forms, wanted.as_str());
    proof {
        if taken {
            let i = choose|i: int|
                0 <= i < forms@.len() && (#[trigger] forms@[i]) is Some && forms@[i]->0@
                    == wanted@;
            assert(is_executable_form(forms@[i], games@[i]));
            assert(has_executable(games@[i], exe@));
        } else {
            assert forall|i: int| 0 <= i < games@.len() implies !has_executable(
                #[trigger] games@[i],
                exe@,
            ) by {
                assert(is_executable_form(forms@[i], games@[i]));
            }
        }
    }
    taken
}

fn save_folder_taken(games: &Vec<Game>, folder: &str) -> (r: bool)
    ensures
        r == exists|i: int| 0 <= i < games@.len() && has_save_folder(#[trigger] games@[i], folder@),
{
    let mut i: usize = 0;
    while i < games.len()
        invariant
            i <= games@.len(),
            forall|j: int| 0 <= j < i ==> !has_save_folder(#[trigger] games@[j], folder@),
        decreases games@.len() - i,
    {
        match &games[i].save_folder_path {
            Some(other) => {
                if is_same_path(other.as_str(), folder) {
                    return true;
                }
            },
            None => {},
        }
        i = i + 1;
    }
    false
}

/// Checks whether a new game with the given root folder, save folder and
/// executable may join the watched games. The paths are compared as they are
/// given; resolving links is the caller's part.
pub fn check_registration(games: &Vec<Game>, root: &str, save_folder: &str, exe_path: &str) -> (r:
    Result<(), RegistrationError>)
    ensures
        r == verdict(games@, root@, save_folder@, exe_path@),
{
    if executable_taken(games, exe_path) {
        Err(RegistrationError::DuplicateExecutable)
    } else if save_folder_taken(games, save_folder) {
        Err(RegistrationError::DuplicateSaveFolder)
    } else if !is_ancestor(root, save_folder) {
        Err(RegistrationError::SaveFolderOutsideRoot)
    } else {
        Ok(())
    }
}

/// Registration keeps the watched games consistent: a game that passed the
/// check, added at the end of a consistent list, leaves the list consistent.
pub proof fn lemma_registration_keeps_consistency(games: Seq<Game>, game: Game)
    requires
        is_consistent(games),
        game.exe_path is Some,
        game.save_folder_path is Some,
        verdict(
            games,
            game.game_folder_path@,
            game.save_folder_path->0@,
            game.exe_path->0@,
        ) is Ok,
    ensures
        is_consistent(games.push(game)),
{
    let all = games.push(game);
    assert forall|i: int| 0 <= i < all.len() implies saves_in_root(#[trigger] all[i]) by {
        if i < games.len() {
            assert(all[i] == games[i]);
        }
    }
    assert forall|i: int, j: int|
        0 <= i < j < all.len() && (#[trigger] all[j]).exe_path is Some implies !has_executable(
        #[trigger] all[i],
        all[j].exe_path->0@,
    ) by {
        assert(all[i] == games[i]);
        if j < games.len() {
            assert(all[j] == games[j]);
        }
    }
    assert forall|i: int, j: int|
        0 <= i < j < all.len() && (#[trigger] all[j]).save_folder_path is Some
            implies !has_save_folder(#[trigger] all[i], all[j].save_folder_path->0@) by {
        assert(all[i] == games[i]);
        if j < games.len() {
            assert(all[j] == games[j]);
        }
    }
}

} // verus!

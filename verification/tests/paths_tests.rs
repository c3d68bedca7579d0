use visual_logger::layout::{
    cache_frame_path, manual_screenshot_path, screenshots_dir_of, snapshot_name_of,
    snapshots_dir_of,
};
use visual_logger::matcher::{find_game, match_game, route_event, GameMatch, MatchKind, Route};
use visual_logger::paths::{
    chars_of, file_name, is_ancestor, is_save_file, join, split_components,
};
use visual_logger::records::Game;

fn game(id: &str, root: &str, saves: Option<&str>) -> Game {
    Game {
        id: id.to_string(),
        name: id.to_uppercase(),
        exe_path: None,
        game_folder_path: root.to_string(),
        save_folder_path: saves.map(|s| s.to_string()),
        cover_image: None,
    }
}

fn names(path: &str) -> Vec<String> {
    split_components(path).into_iter().map(|n| n.into_iter().collect()).collect()
}

#[test]
fn chars_of_lists_every_character() {
    assert_eq!(chars_of("a/é✓"), vec!['a', '/', 'é', '✓']);
    assert!(chars_of("").is_empty());
}

#[test]
fn components_skip_empty_names() {
    assert_eq!(names("/a//b\\c/"), vec!["a", "b", "c"]);
    assert_eq!(names("C:\\Games\\Foo"), vec!["C:", "Games", "Foo"]);
    assert_eq!(names("name"), vec!["name"]);
    assert!(names("").is_empty());
    assert!(names("///").is_empty());
    assert_eq!(names("./a/../b"), vec![".", "a", "..", "b"]);
}

#[test]
fn file_name_is_the_last_name() {
    assert_eq!(file_name("/a/b/c.dat"), Some("c.dat"));
    assert_eq!(file_name("C:\\saves\\slot 1.dat"), Some("slot 1.dat"));
    assert_eq!(file_name("a//b//"), Some("b"));
    assert_eq!(file_name("plain"), Some("plain"));
    assert_eq!(file_name("/dir/セーブ.dat"), Some("セーブ.dat"));
    assert_eq!(file_name("/"), None);
    assert_eq!(file_name(""), None);
    assert_eq!(file_name("\\\\"), None);
}

#[test]
fn save_files_end_in_dat() {
    assert!(is_save_file("/games/foo/saves/slot1.dat"));
    assert!(is_save_file("C:\\Games\\Foo\\save\\SLOT1.DAT"));
    assert!(is_save_file("a.DaT"));
    assert!(is_save_file("dir/a.dat/"));
    assert!(is_save_file("..dat"));
    assert!(is_save_file("セーブ.dat"));
}

#[test]
fn other_files_are_not_save_files() {
    assert!(!is_save_file("/games/foo/saves/slot1.sav"));
    assert!(!is_save_file("/games/foo/saves/slot1.dat.bak"));
    assert!(!is_save_file("/games/foo/saves/slot1.data"));
    assert!(!is_save_file("/games/foo/saves/dat"));
    assert!(!is_save_file("/games/foo/saves/.dat"));
    assert!(!is_save_file("/games/foo.dat/readme"));
    assert!(!is_save_file("slot1dat"));
    assert!(!is_save_file("a.dát"));
    assert!(!is_save_file(""));
    assert!(!is_save_file("/"));
}

#[test]
fn ancestors_are_matched_by_whole_names() {
    assert!(is_ancestor("/games/foo", "/games/foo/saves/a.dat"));
    assert!(is_ancestor("/games/foo/", "/games/foo"));
    assert!(is_ancestor("/games/foo", "/games/foo"));
    assert!(is_ancestor("/", "/games"));
    assert!(is_ancestor("C:\\Games", "C:/Games/Foo/a.dat"));
    assert!(!is_ancestor("/games/foo", "/games/foobar/a.dat"));
    assert!(!is_ancestor("/games/foo/saves", "/games/foo"));
    assert!(!is_ancestor("/games/Foo", "/games/foo/a.dat"));
}

#[test]
fn rooted_and_relative_paths_do_not_mix() {
    assert!(!is_ancestor("games", "/games/a.dat"));
    assert!(!is_ancestor("/games", "games/a.dat"));
    assert!(is_ancestor("games", "games/a.dat"));
    assert!(is_ancestor("", "games/a.dat"));
    assert!(!is_ancestor("", "/games/a.dat"));
    assert!(is_ancestor("", ""));
}

#[test]
fn join_puts_one_separator_between() {
    assert_eq!(join("a", "b"), "a/b");
    assert_eq!(join("a/", "b"), "a/b");
    assert_eq!(join("C:\\Games\\", "b"), "C:\\Games\\b");
    assert_eq!(join("C:\\Games", "b"), "C:\\Games/b");
    assert_eq!(join("", "b"), "b");
    assert_eq!(join("/", "b"), "/b");
    assert_eq!(join("a", ""), "a/");
}

#[test]
fn layout_follows_the_documented_tree() {
    assert_eq!(snapshots_dir_of("/games/foo"), "/games/foo/visual-logger/snapshots");
    assert_eq!(screenshots_dir_of("/games/foo/"), "/games/foo/visual-logger/screenshots");
    assert_eq!(snapshot_name_of("Foo", "20240102_030405"), "Foo_20240102_030405");
    assert_eq!(
        manual_screenshot_path("/games/foo", "20240102_030405678"),
        "/games/foo/visual-logger/screenshots/screenshot_20240102_030405678.png"
    );
    assert_eq!(
        cache_frame_path("/data/screenshot_cache", "20240102_030405678"),
        "/data/screenshot_cache/cache_20240102_030405678.png"
    );
}

#[test]
fn game_is_matched_by_its_save_folder_first() {
    let g = game("g", "/games/foo", Some("/games/foo/saves"));
    assert_eq!(match_game(&g, "/games/foo/saves/a.dat"), Some(MatchKind::SaveFolder));
    assert_eq!(match_game(&g, "/games/foo/other/a.dat"), Some(MatchKind::GameFolder));
    assert_eq!(match_game(&g, "/games/bar/a.dat"), None);
    let elsewhere = game("h", "/games/foo", Some("/home/me/saves"));
    assert_eq!(match_game(&elsewhere, "/home/me/saves/a.dat"), Some(MatchKind::SaveFolder));
    let bare = game("b", "/games/foo", None);
    assert_eq!(match_game(&bare, "/games/foo/saves/a.dat"), Some(MatchKind::GameFolder));
}

#[test]
fn first_matching_game_is_found() {
    let games = vec![
        game("a", "/games/a", Some("/saves/a")),
        game("b", "/games/b", None),
        game("c", "/games", Some("/saves/a")),
    ];
    assert_eq!(
        find_game(&games, "/saves/a/1.dat"),
        Some(GameMatch { index: 0, kind: MatchKind::SaveFolder })
    );
    assert_eq!(
        find_game(&games, "/games/b/1.dat"),
        Some(GameMatch { index: 1, kind: MatchKind::GameFolder })
    );
    assert_eq!(
        find_game(&games, "/games/z/1.dat"),
        Some(GameMatch { index: 2, kind: MatchKind::GameFolder })
    );
    assert_eq!(find_game(&games, "/elsewhere/1.dat"), None);
    assert_eq!(find_game(&Vec::new(), "/saves/a/1.dat"), None);
}

#[test]
fn save_folder_match_is_preferred_over_an_earlier_root_match() {
    let games = vec![
        game("a", "/g", None),
        game("b", "/g/B", Some("/g/B/save")),
        game("c", "/g/B", Some("/g/B/save/deep")),
    ];
    assert_eq!(
        find_game(&games, "/g/B/save/s.dat"),
        Some(GameMatch { index: 1, kind: MatchKind::SaveFolder })
    );
    assert_eq!(
        route_event(&games, "/g/B/save/s.dat"),
        Route::Matched(GameMatch { index: 1, kind: MatchKind::SaveFolder })
    );
    assert_eq!(
        find_game(&games, "/g/B/save/deep/s.dat"),
        Some(GameMatch { index: 1, kind: MatchKind::SaveFolder })
    );
    assert_eq!(
        find_game(&games, "/g/B/other/s.dat"),
        Some(GameMatch { index: 0, kind: MatchKind::GameFolder })
    );
    let swapped = vec![game("b", "/g/B", Some("/g/B/save")), game("a", "/g", None)];
    assert_eq!(
        find_game(&swapped, "/g/B/save/s.dat"),
        Some(GameMatch { index: 0, kind: MatchKind::SaveFolder })
    );
    assert_eq!(
        find_game(&swapped, "/g/x.dat"),
        Some(GameMatch { index: 1, kind: MatchKind::GameFolder })
    );
}

#[test]
fn events_are_routed_by_extension_then_by_game() {
    let games = vec![game("a", "/games/a", Some("/saves/a"))];
    assert_eq!(route_event(&games, "/saves/a/1.txt"), Route::NotSaveFile);
    assert_eq!(route_event(&games, "/elsewhere/1.dat"), Route::NoGame);
    assert_eq!(
        route_event(&games, "/saves/a/1.DAT"),
        Route::Matched(GameMatch { index: 0, kind: MatchKind::SaveFolder })
    );
}

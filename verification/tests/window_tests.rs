use visual_logger::capture::{
    find_game_by_id, locate_capture_target, screenshot_record, screenshot_record_from,
    CaptureError, CaptureTarget,
};
use visual_logger::crop::Rect;
use visual_logger::records::Game;
use visual_logger::window::{
    find_rect_by_form, find_running_game, find_window_rect_for_exe, normalize_exe_path,
    normalize_windows, WindowForm, WindowInfo,
};

fn rect(n: i32) -> Rect {
    Rect { left: n, top: n + 1, right: n + 100, bottom: n + 50 }
}

fn window(visible: bool, exe: Option<&str>, r: Option<Rect>) -> WindowInfo {
    WindowInfo { visible, exe_path: exe.map(|e| e.to_string()), rect: r }
}

fn game(id: &str, exe: Option<&str>) -> Game {
    Game {
        id: id.to_string(),
        name: id.to_string(),
        exe_path: exe.map(|e| e.to_string()),
        game_folder_path: format!("/games/{}", id),
        save_folder_path: None,
        cover_image: None,
    }
}

#[test]
fn exe_paths_are_normalized() {
    assert_eq!(normalize_exe_path("C:\\Games\\Foo\\GAME.EXE"), "c:/games/foo/game.exe");
    assert_eq!(normalize_exe_path("c:/games/foo/game.exe"), "c:/games/foo/game.exe");
    assert_eq!(normalize_exe_path("D:\\ÄÖ\\Ü.exe"), "d:/äö/ü.exe");
    assert_eq!(normalize_exe_path(""), "");
}

#[test]
fn window_is_found_regardless_of_case_and_separators() {
    let windows = vec![
        window(true, Some("C:\\Other\\app.exe"), Some(rect(1))),
        window(true, Some("c:/games/foo/game.exe"), Some(rect(2))),
    ];
    assert_eq!(find_window_rect_for_exe("C:\\Games\\Foo\\Game.exe", &windows), Some(rect(2)));
}

#[test]
fn first_of_several_windows_wins() {
    let windows = vec![
        window(true, Some("C:\\Games\\Foo\\Game.exe"), Some(rect(1))),
        window(true, Some("C:\\Games\\Foo\\Game.exe"), Some(rect(2))),
    ];
    assert_eq!(find_window_rect_for_exe("c:/games/foo/game.exe", &windows), Some(rect(1)));
}

#[test]
fn hidden_and_unreadable_windows_are_skipped() {
    let windows = vec![
        window(false, Some("game.exe"), Some(rect(1))),
        window(true, None, Some(rect(2))),
        window(true, Some("game.exe"), None),
        window(true, Some("game.exe"), Some(rect(4))),
    ];
    assert_eq!(find_window_rect_for_exe("GAME.EXE", &windows), Some(rect(4)));
}

#[test]
fn no_window_means_not_found() {
    assert_eq!(find_window_rect_for_exe("game.exe", &Vec::new()), None);
    let windows = vec![window(true, Some("other.exe"), Some(rect(1)))];
    assert_eq!(find_window_rect_for_exe("game.exe", &windows), None);
    let hidden = vec![window(false, Some("game.exe"), Some(rect(1)))];
    assert_eq!(find_window_rect_for_exe("game.exe", &hidden), None);
}

#[test]
fn first_running_game_is_found() {
    let games = vec![
        game("a", None),
        game("b", Some("C:\\b\\b.exe")),
        game("c", Some("C:\\c\\c.exe")),
        game("d", Some("C:\\d\\d.exe")),
    ];
    let windows = vec![
        window(true, Some("c:/d/d.exe"), Some(rect(1))),
        window(true, Some("c:/c/c.exe"), Some(rect(2))),
    ];
    assert_eq!(find_running_game(&games, &windows), Some(2));
    assert_eq!(find_running_game(&games, &Vec::new()), None);
    assert_eq!(find_running_game(&Vec::new(), &windows), None);
}

#[test]
fn game_is_found_by_its_identifier() {
    let games = vec![game("a", None), game("b", None), game("b", Some("x"))];
    assert_eq!(find_game_by_id(&games, "a"), Some(0));
    assert_eq!(find_game_by_id(&games, "b"), Some(1));
    assert_eq!(find_game_by_id(&games, "B"), None);
    assert_eq!(find_game_by_id(&games, ""), None);
}

#[test]
fn capture_target_is_the_window_of_the_game() {
    let games = vec![game("a", Some("C:\\a\\a.exe")), game("b", Some("C:\\b\\b.exe"))];
    let windows = vec![
        window(true, Some("c:/a/a.exe"), Some(rect(1))),
        window(true, Some("c:/b/b.exe"), Some(rect(2))),
    ];
    assert_eq!(
        locate_capture_target(&games, "b", &windows),
        Ok(CaptureTarget { game_index: 1, rect: rect(2) })
    );
}

#[test]
fn capture_of_an_unknown_game_fails() {
    let games = vec![game("a", Some("a.exe"))];
    let windows = vec![window(true, Some("a.exe"), Some(rect(1)))];
    assert_eq!(locate_capture_target(&games, "z", &windows), Err(CaptureError::GameNotFound));
}

#[test]
fn capture_of_a_game_without_executable_fails() {
    let games = vec![game("a", None)];
    let windows = vec![window(true, Some("a.exe"), Some(rect(1)))];
    assert_eq!(locate_capture_target(&games, "a", &windows), Err(CaptureError::ExecutableUnknown));
}

#[test]
fn capture_of_a_game_without_window_fails() {
    let games = vec![game("a", Some("a.exe"))];
    assert_eq!(locate_capture_target(&games, "a", &Vec::new()), Err(CaptureError::WindowNotFound));
}

#[test]
fn manual_screenshot_record_points_into_the_screenshots_folder() {
    let g = game("a", Some("a.exe"));
    let record = screenshot_record(&g, 947_638_923_004).unwrap();
    assert_eq!(record.game_id, "a");
    assert_eq!(
        record.image_path,
        "/games/a/visual-logger/screenshots/screenshot_20000112_010203004.png"
    );
    assert_eq!(record.note, None);
    assert_eq!(record.created_at, "2000-01-12T01:02:03.004+00:00");
    assert_eq!(record.id.len(), 36);
    assert!(screenshot_record(&g, i64::MAX).is_none());
}

#[test]
fn manual_screenshot_record_is_built_from_its_parts() {
    let g = game("a", Some("a.exe"));
    let record = screenshot_record_from(&g, "id-7", "20000112_010203004", "2000-01-12T01:02:03Z");
    assert_eq!(record.id, "id-7");
    assert_eq!(record.game_id, "a");
    assert_eq!(
        record.image_path,
        "/games/a/visual-logger/screenshots/screenshot_20000112_010203004.png"
    );
    assert_eq!(record.note, None);
    assert_eq!(record.created_at, "2000-01-12T01:02:03Z");
}

#[test]
fn capture_errors_read_as_before() {
    assert_eq!(CaptureError::GameNotFound.message(), "Game not found");
    assert_eq!(CaptureError::ExecutableUnknown.message(), "Game exe_path not set");
    assert_eq!(CaptureError::WindowNotFound.message(), "Game window not found");
}

#[test]
fn windows_are_normalized_one_by_one() {
    let windows = vec![
        window(false, Some("C:\\A\\a.EXE"), Some(rect(1))),
        window(true, None, None),
    ];
    let forms = normalize_windows(&windows);
    assert_eq!(forms.len(), 2);
    assert!(!forms[0].visible);
    assert_eq!(forms[0].exe_form.as_deref(), Some("c:/a/a.exe"));
    assert_eq!(forms[0].rect, Some(rect(1)));
    assert!(forms[1].visible);
    assert_eq!(forms[1].exe_form, None);
    assert_eq!(forms[1].rect, None);
}

#[test]
fn rectangle_is_found_by_exact_form() {
    let form = |visible: bool, exe: Option<&str>, r: Option<Rect>| WindowForm {
        visible,
        exe_form: exe.map(|e| e.to_string()),
        rect: r,
    };
    let forms = vec![
        form(false, Some("c:/a/a.exe"), Some(rect(1))),
        form(true, Some("c:/a/a.exe"), None),
        form(true, None, Some(rect(3))),
        form(true, Some("C:/a/a.exe"), Some(rect(4))),
        form(true, Some("c:/a/a.exe"), Some(rect(5))),
        form(true, Some("c:/a/a.exe"), Some(rect(6))),
    ];
    assert_eq!(find_rect_by_form("c:/a/a.exe", &forms), Some(rect(5)));
    assert_eq!(find_rect_by_form("C:/a/a.exe", &forms), Some(rect(4)));
    assert_eq!(find_rect_by_form("c:/b/b.exe", &forms), None);
    assert_eq!(find_rect_by_form("c:/a/a.exe", &Vec::new()), None);
}

//! Where snapshots and screenshots live on disk.
//!
//! Under a game's root folder:
//! `visual-logger/snapshots/<game>_<time>/` holds one snapshot, that is the
//! copied save file, `screenshot.png`, `metadata.json`, `note.txt` and
//! `context.txt`; `visual-logger/screenshots/` holds the manual captures.

use crate::paths::{join, joined};
use vstd::prelude::*;
use vstd::string::*;

verus! {

/// The folder that holds everything this library writes for a game.
pub open spec fn logger_dir(root: Seq<char>) -> Seq<char> {
    joined(root, "visual-logger"@)
}

/// The folder that holds a game's snapshots.
pub open spec fn snapshots_dir(root: Seq<char>) -> Seq<char> {
    joined(logger_dir(root), "snapshots"@)
}

/// The folder that holds a game's manual screenshots.
pub open spec fn screenshots_dir(root: Seq<char>) -> Seq<char> {
    joined(logger_dir(root), "screenshots"@)
}

/// A snapshot's name: the game's name, an underscore, the time stamp.
pub open spec fn snapshot_name(game_name: Seq<char>, stamp: Seq<char>) -> Seq<char> {
    game_name + "_"@ + stamp
}

/// The folder of one snapshot.
pub open spec fn snapshot_folder(root: Seq<char>, game_name: Seq<char>, stamp: Seq<char>) -> Seq<
    char,
> {
    joined(snapshots_dir(root), snapshot_name(game_name, stamp))
}

/// The file name of an image: a prefix, the time stamp, `.png`.
pub open spec fn image_file_name(prefix: Seq<char>, stamp: Seq<char>) -> Seq<char> {
    prefix + stamp + ".png"@
}

/// The path of a manual screenshot taken at the stamped time.
pub open spec fn manual_screenshot_file(root: Seq<char>, stamp: Seq<char>) -> Seq<char> {
    joined(screenshots_dir(root), image_file_name("screenshot_"@, stamp))
}

/// The path of a sampled frame in the cache directory.
pub open spec fn cache_frame_file(cache_dir: Seq<char>, stamp: Seq<char>) -> Seq<char> {
    joined(cache_dir, image_file_name("cache_"@, stamp))
}

/// The folder that holds a game's snapshots.
pub fn snapshots_dir_of(root: &str) -> (r: String)
    ensures
        r@ == snapshots_dir(root@),
{
    let logger = join(root, "visual-logger");
    join(logger.as_str(), "snapshots")
}

/// The folder that holds a game's manual screenshots.
pub fn screenshots_dir_of(root: &str) -> (r: String)
    ensures
        r@ == screenshots_dir(root@),
{
    let logger = join(root, "visual-logger");
    join(logger.as_str(), "screenshots")
}

/// The name of the snapshot of a game taken at the stamped time.
pub fn snapshot_name_of(game_name: &str, stamp: &str) -> (r: String)
    ensures
        r@ == snapshot_name(game_name@, stamp@),
{
    let mut name = String::from_str(game_name);
    name.append("_");
    name.append(stamp);
    name
}

fn image_file_name_of(prefix: &str, stamp: &str) -> (r: String)
    ensures
        r@ == image_file_name(prefix@, stamp@),
{
    let mut name = String::from_str(prefix);
    name.append(stamp);
    name.append(".png");
    name
}

/// The path of a manual screenshot of a game taken at the stamped time.
pub fn manual_screenshot_path(root: &str, stamp: &str) -> (r: String)
    ensures
        r@ == manual_screenshot_file(root@, stamp@),
{
    let dir = screenshots_dir_of(root);
    let name = image_file_name_of("screenshot_", stamp);
    join(dir.as_str(), name.as_str())
}

/// The path under which the sampler stores the frame taken at the stamped
/// time.
pub fn cache_frame_path(cache_dir: &str, stamp: &str) -> (r: String)
    ensures
        r@ == cache_frame_file(cache_dir@, stamp@),
{
    let name = image_file_name_of("cache_", stamp);
    join(cache_dir, name.as_str())
}

} // verus!

//! Planning one snapshot: where its files go and what its record says.

use crate::layout::{snapshot_folder, snapshot_name, snapshot_name_of, snapshots_dir_of};
use crate::paths::{file_name, join, joined, name_of};
use crate::records::{Game, Snapshot};
use crate::stamp::{folder_pattern, folder_stamp, random_id, utc_text};
use vstd::prelude::*;
use vstd::string::*;

verus! {

/// Everything that is fixed about a snapshot before any file is touched.
#[derive(Debug)]
pub struct SnapshotPlan {
    pub id: String,
    pub game_id: String,
    pub game_name: String,
    /// The snapshot's display name, which is also its folder's name.
    pub name: String,
    /// The save file that changed.
    pub source_path: String,
    /// The save file's name, kept for the copy.
    pub file_name: String,
    /// The snapshot's backup folder.
    pub folder: String,
    /// Where the save file is copied to.
    pub backup_path: String,
    /// Where the correlated screenshot is written.
    pub screenshot_path: String,
    pub metadata_path: String,
    pub note_path: String,
    pub context_path: String,
}

/// Why no snapshot can be planned.
#[derive(Clone, Copy, Debug, PartialEq, Eq, Structural)]
pub enum PlanError {
    /// The changed path has no file name.
    NoFileName,
    /// The time of the event cannot be written as a calendar date.
    TimeOutOfRange,
}

impl PlanError {
    /// The error in words.
    pub open spec fn text(self) -> Seq<char> {
        match self {
            PlanError::NoFileName => "Invalid file name"@,
            PlanError::TimeOutOfRange => "Time out of range"@,
        }
    }

    /// The error in words, for display.
    pub fn message(&self) -> (r: &'static str)
        ensures
            r@ == self.text(),
    {
        match self {
            PlanError::NoFileName => "Invalid file name",
            PlanError::TimeOutOfRange => "Time out of range",
        }
    }
}

/// Whether a plan is the one for the given game, changed path, identifier and
/// time stamp.
pub open spec fn is_plan_for(
    plan: SnapshotPlan,
    game: Game,
    changed: Seq<char>,
    id: Seq<char>,
    stamp: Seq<char>,
) -> bool {
    let folder = snapshot_folder(game.game_folder_path@, game.name@, stamp);
    &&& plan.id@ == id
    &&& plan.game_id@ == game.id@
    &&& plan.game_name@ == game.name@
    &&& plan.name@ == snapshot_name(game.name@, stamp)
    &&& plan.source_path@ == changed
    &&& plan.file_name@ == name_of(changed)
    &&& plan.folder@ == folder
    &&& plan.backup_path@ == joined(folder, name_of(changed))
    &&& plan.screenshot_path@ == joined(folder, "screenshot.png"@)
    &&& plan.metadata_path@ == joined(folder, "metadata.json"@)
    &&& plan.note_path@ == joined(folder, "note.txt"@)
    &&& plan.context_path@ == joined(folder, "context.txt"@)
}

/// Plans the snapshot of a changed save file of a game, under the given
/// identifier and time stamp. Fails exactly when the changed path has no
/// file name.
pub fn plan_snapshot(game: &Game, changed: &str, id: &str, stamp: &str) -> (r: Result<
    SnapshotPlan,
    PlanError,
>)
    ensures
        match r {
            Ok(plan) => name_of(changed@).len() > 0 && is_plan_for(
                plan,
                *game,
                changed@,
                id@,
                stamp@,
            ),
            Err(e) => e == PlanError::NoFileName && name_of(changed@).len() == 0,
        },
{
    let save_name = match file_name(changed) {
        Some(name) => name,
        None => {
            return Err(PlanError::NoFileName);
        },
    };
    let name = snapshot_name_of(game.name.as_str(), stamp);
    let parent = snapshots_dir_of(game.game_folder_path.as_str());
    let folder = join(parent.as_str(), name.as_str());
    let backup_path = join(folder.as_str(), save_name);
    let screenshot_path = join(folder.as_str(), "screenshot.png");
    let metadata_path = join(folder.as_str(), "metadata.json");
    let note_path = join(folder.as_str(), "note.txt");
    let context_path = join(folder.as_str(), "context.txt");
    Ok(
        SnapshotPlan {
            id: String::from_str(id),
            game_id: game.id.clone(),
            game_name: game.name.clone(),
            name,
            source_path: String::from_str(changed),
            file_name: String::from_str(save_name),
            folder,
            backup_path,
            screenshot_path,
            metadata_path,
            note_path,
            context_path,
        },
    )
}

/// Plans the snapshot of a save file that changed at the given wall-clock
/// time: draws a fresh identifier of 36 characters, stamps the folder with
/// the time to the second, and lays the snapshot out.
pub fn begin_snapshot(game: &Game, changed: &str, unix_millis: i64) -> (r: Result<
    SnapshotPlan,
    PlanError,
>)
    ensures
        match r {
            Ok(plan) => {
                &&& plan.id@.len() == 36
                &&& name_of(changed@).len() > 0
                &&& utc_text(unix_millis, folder_pattern()) is Some
                &&& is_plan_for(
                    plan,
                    *game,
                    changed@,
                    plan.id@,
                    utc_text(unix_millis, folder_pattern())->0,
                )
            },
            Err(PlanError::NoFileName) => name_of(changed@).len() == 0,
            Err(PlanError::TimeOutOfRange) => name_of(changed@).len() > 0 && utc_text(
                unix_millis,
                folder_pattern(),
            ) is None,
        },
{
    if file_name(changed).is_none() {
        return Err(PlanError::NoFileName);
    }
    match folder_stamp(unix_millis) {
        Some(stamp) => {
            let id = random_id();
            plan_snapshot(game, changed, id.as_str(), stamp.as_str())
        },
        None => Err(PlanError::TimeOutOfRange),
    }
}

/// Whether a record is the one that a finished snapshot leaves in the store.
pub open spec fn is_record_of(
    record: Snapshot,
    plan: SnapshotPlan,
    text_content: Option<String>,
    created_at: Seq<char>,
) -> bool {
    &&& record.id@ == plan.id@
    &&& record.game_id@ == plan.game_id@
    &&& record.name@ == plan.name@
    &&& record.original_save_path@ == plan.source_path@
    &&& record.backup_save_path@ == plan.folder@
    &&& record.image_path is Some
    &&& record.image_path->0@ == plan.screenshot_path@
    &&& record.text_content == text_content
    &&& record.note is None
    &&& record.created_at@ == created_at
}

/// The record of a snapshot whose files are all in place. `text_content` is
/// the clipboard text that was captured, if any.
pub fn snapshot_record(plan: &SnapshotPlan, text_content: Option<String>, created_at: &str) -> (r:
    Snapshot)
    ensures
        is_record_of(r, *plan, text_content, created_at@),
{
    Snapshot {
        id: plan.id.clone(),
        game_id: plan.game_id.clone(),
        name: plan.name.clone(),
        original_save_path: plan.source_path.clone(),
        backup_save_path: plan.folder.clone(),
        image_path: Some(plan.screenshot_path.clone()),
        text_content,
        note: None,
        created_at: String::from_str(created_at),
    }
}

} // verus!

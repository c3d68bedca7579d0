//! The order of work in one run of the snapshot pipeline, and the choice of
//! the screenshot that goes with a save.

use crate::cache::{is_freshest, usable, CachedFrame, FrameCache};
use crate::crop::Rect;
use vstd::prelude::*;

verus! {

/// A step of the snapshot pipeline, or one of its two ends.
#[derive(Clone, Copy, Debug, PartialEq, Eq, Structural)]
pub enum Stage {
    /// Create the snapshot's backup folder.
    PrepareFolder,
    /// Wait for the game to finish writing.
    Settle,
    /// Copy the changed save file into the backup folder.
    CopySave,
    /// Put the correlated screenshot into the backup folder.
    TakeScreenshot,
    /// Write the summary and the empty note and context files.
    WriteAuxiliary,
    /// Read the clipboard text.
    ReadClipboard,
    /// Store the snapshot record and note the time at the debounce gate.
    Persist,
    /// Tell the user interface.
    Notify,
    /// The snapshot is stored.
    Completed,
    /// The run was given up; no record was stored.
    Aborted,
}

/// Whether a failure of the step ends the run.
pub open spec fn is_fatal(stage: Stage) -> bool {
    match stage {
        Stage::PrepareFolder | Stage::CopySave | Stage::TakeScreenshot | Stage::WriteAuxiliary
        | Stage::Persist => true,
        _ => false,
    }
}

/// The step that follows a step which went through.
pub open spec fn following(stage: Stage) -> Stage {
    match stage {
        Stage::PrepareFolder => Stage::Settle,
        Stage::Settle => Stage::CopySave,
        Stage::CopySave => Stage::TakeScreenshot,
        Stage::TakeScreenshot => Stage::WriteAuxiliary,
        Stage::WriteAuxiliary => Stage::ReadClipboard,
        Stage::ReadClipboard => Stage::Persist,
        Stage::Persist => Stage::Notify,
        Stage::Notify => Stage::Completed,
        Stage::Completed => Stage::Completed,
        Stage::Aborted => Stage::Aborted,
    }
}

/// Where the run stands after a step has ended with the given outcome: a
/// failed fatal step aborts, everything else moves on.
pub open spec fn next_stage(stage: Stage, ok: bool) -> Stage {
    if !ok && is_fatal(stage) {
        Stage::Aborted
    } else {
        following(stage)
    }
}

/// Where a run stands after the given outcomes, one per step taken.
pub open spec fn stage_after(start: Stage, outcomes: Seq<bool>) -> Stage
    decreases outcomes.len(),
{
    if outcomes.len() == 0 {
        start
    } else {
        next_stage(stage_after(start, outcomes.drop_last()), outcomes.last())
    }
}

/// Whether the record is in the store once the run stands at the stage.
pub open spec fn is_stored(stage: Stage) -> bool {
    stage == Stage::Notify || stage == Stage::Completed
}

/// The first step of every run.
pub fn first_stage() -> (r: Stage)
    ensures
        r == Stage::PrepareFolder,
{
    Stage::PrepareFolder
}

/// Moves a run on after the step `stage` has ended. `ok` says whether the
/// step went through.
pub fn advance(stage: Stage, ok: bool) -> (r: Stage)
    ensures
        r == next_stage(stage, ok),
{
    match stage {
        Stage::PrepareFolder => if ok {
            Stage::Settle
        } else {
            Stage::Aborted
        },
        Stage::Settle => Stage::CopySave,
        Stage::CopySave => if ok {
            Stage::TakeScreenshot
        } else {
            Stage::Aborted
        },
        Stage::TakeScreenshot => if ok {
            Stage::WriteAuxiliary
        } else {
            Stage::Aborted
        },
        Stage::WriteAuxiliary => if ok {
            Stage::ReadClipboard
        } else {
            Stage::Aborted
        },
        Stage::ReadClipboard => Stage::Persist,
        Stage::Persist => if ok {
            Stage::Notify
        } else {
            Stage::Aborted
        },
        Stage::Notify => Stage::Completed,
        Stage::Completed => Stage::Completed,
        Stage::Aborted => Stage::Aborted,
    }
}

/// Whether a run that stands at the stage is over.
pub fn is_finished(stage: Stage) -> (r: bool)
    ensures
        r == (stage == Stage::Completed || stage == Stage::Aborted),
{
    match stage {
        Stage::Completed | Stage::Aborted => true,
        _ => false,
    }
}

/// Whether the debounce gate is to note the time now: the step that just
/// ended stored the record.
pub fn stores_record(stage: Stage, ok: bool) -> (r: bool)
    ensures
        r == (stage == Stage::Persist && ok),
        r ==> is_stored(next_stage(stage, ok)),
{
    match stage {
        Stage::Persist => ok,
        _ => false,
    }
}

/// Position of a stage in the order of work.
spec fn rank(stage: Stage) -> int {
    match stage {
        Stage::PrepareFolder => 0,
        Stage::Settle => 1,
        Stage::CopySave => 2,
        Stage::TakeScreenshot => 3,
        Stage::WriteAuxiliary => 4,
        Stage::ReadClipboard => 5,
        Stage::Persist => 6,
        Stage::Notify => 7,
        Stage::Completed => 8,
        Stage::Aborted => 9,
    }
}

proof fn lemma_run_shape(outcomes: Seq<bool>)
    ensures
        ({
            let end = stage_after(Stage::PrepareFolder, outcomes);
            &&& end != Stage::Aborted && end != Stage::Completed ==> rank(end) == outcomes.len()
            &&& end == Stage::Completed ==> outcomes.len() >= 8
            &&& end != Stage::Aborted ==> {
                &&& outcomes.len() > 0 ==> outcomes[0]
                &&& outcomes.len() > 2 ==> outcomes[2]
                &&& outcomes.len() > 3 ==> outcomes[3]
                &&& outcomes.len() > 4 ==> outcomes[4]
                &&& outcomes.len() > 6 ==> outcomes[6]
            }
        }),
    decreases outcomes.len(),
{
    if outcomes.len() > 0 {
        lemma_run_shape(outcomes.drop_last());
    }
}

/// No record without its files: whenever a run has stored its record, the
/// backup folder was created, the save file was copied, the screenshot was
/// taken, the auxiliary files were written, and the store accepted the
/// record, each with success.
pub proof fn lemma_stored_only_after_copy(outcomes: Seq<bool>)
    requires
        is_stored(stage_after(Stage::PrepareFolder, outcomes)),
    ensures
        outcomes.len() >= 7,
        outcomes[0] && outcomes[2] && outcomes[3] && outcomes[4] && outcomes[6],
{
    lemma_run_shape(outcomes);
}

/// A failed copy ends the run: from then on it stays aborted, and the
/// record is never stored.
pub proof fn lemma_failed_copy_aborts(outcomes: Seq<bool>)
    requires
        outcomes.len() > 2,
        !outcomes[2],
    ensures
        !is_stored(stage_after(Stage::PrepareFolder, outcomes)),
{
    lemma_run_shape(outcomes);
}

/// How the screenshot of a snapshot is to be made.
pub enum ScreenshotAction {
    /// Crop the cached frame at `path` to the game's window.
    CropCached { path: String, origin_x: i32, origin_y: i32, rect: Rect },
    /// Copy the cached frame at `path` as it is.
    CopyCached { path: String },
    /// Capture the screen now.
    CaptureLive,
}

/// The first thing to try: the chosen cached frame, cropped where the
/// game's window was found, else whole; a live capture where no cached frame
/// was chosen.
pub open spec fn first_action(frame: Option<CachedFrame>, window: Option<Rect>) -> ScreenshotAction {
    match frame {
        Some(f) => match window {
            Some(rect) => ScreenshotAction::CropCached {
                path: f.path,
                origin_x: f.origin_x,
                origin_y: f.origin_y,
                rect,
            },
            None => ScreenshotAction::CopyCached { path: f.path },
        },
        None => ScreenshotAction::CaptureLive,
    }
}

/// What to try after an action has failed: the whole cached frame after a
/// failed crop, a live capture after a failed copy, nothing after a failed
/// live capture.
pub open spec fn fallback(failed: ScreenshotAction) -> Option<ScreenshotAction> {
    match failed {
        ScreenshotAction::CropCached { path, .. } => Some(ScreenshotAction::CopyCached { path }),
        ScreenshotAction::CopyCached { .. } => Some(ScreenshotAction::CaptureLive),
        ScreenshotAction::CaptureLive => None,
    }
}

/// Picks the first way to make the screenshot.
pub fn first_screenshot_action(frame: Option<&CachedFrame>, window: Option<Rect>) -> (r:
    ScreenshotAction)
    ensures
        r == first_action(
            match frame {
                Some(f) => Some(*f),
                None => None,
            },
            window,
        ),
{
    match frame {
        Some(f) => match window {
            Some(rect) => ScreenshotAction::CropCached {
                path: f.path.clone(),
                origin_x: f.origin_x,
                origin_y: f.origin_y,
                rect,
            },
            None => ScreenshotAction::CopyCached { path: f.path.clone() },
        },
        None => ScreenshotAction::CaptureLive,
    }
}

/// Picks the next way to make the screenshot after one has failed. `None`
/// means that nothing is left to try, and the run aborts.
pub fn next_screenshot_action(failed: ScreenshotAction) -> (r: Option<ScreenshotAction>)
    ensures
        r == fallback(failed),
{
    match failed {
        ScreenshotAction::CropCached { path, origin_x: _, origin_y: _, rect: _ } => Some(
            ScreenshotAction::CopyCached { path },
        ),
        ScreenshotAction::CopyCached { path: _ } => Some(ScreenshotAction::CaptureLive),
        ScreenshotAction::CaptureLive => None,
    }
}

/// Chooses the screenshot for a save event seen at `now`: the freshest cached
/// frame that is younger than `max_age`, cropped to the game's window where
/// one was found; a live capture where the cache holds no frame that recent.
pub fn choose_screenshot(cache: &FrameCache, now: u64, max_age: u64, window: Option<Rect>) -> (r:
    ScreenshotAction)
    ensures
        ({
            ||| exists|i: int|
                is_freshest(cache.items(), now, max_age, i) && r == first_action(
                    Some(cache.items()[i]),
                    window,
                )
            ||| {
                &&& forall|j: int|
                    0 <= j < cache.items().len() ==> !usable(
                        #[trigger] cache.items()[j],
                        now,
                        max_age,
                    )
                &&& r == ScreenshotAction::CaptureLive
            }
        }),
{
    match cache.select(now, max_age) {
        Some(i) => first_screenshot_action(Some(cache.frame(i)), window),
        None => first_screenshot_action(None, window),
    }
}

} // verus!

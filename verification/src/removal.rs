//! Removing a game: which records and which files go with it.

use crate::records::{Screenshot, Snapshot};
use vstd::prelude::*;
use vstd::string::*;

verus! {

/// What has to leave the disk when a game is removed.
pub struct RemovalPlan {
    /// The backup folders of the game's snapshots, in the order of the list.
    pub folders: Vec<String>,
    /// The image files of the game's manual screenshots, in the order of the
    /// list.
    pub files: Vec<String>,
}

/// A record that belongs to a game and is backed by a path on disk.
pub trait Owned {
    /// The identifier of the owning game, and the backing path.
    spec fn entry(&self) -> (Seq<char>, Seq<char>);

    /// The identifier of the owning game.
    fn owner_id(&self) -> (r: &String)
        ensures
            r@ == self.entry().0,
    ;

    /// The path that backs the record.
    fn backing_path(&self) -> (r: &String)
        ensures
            r@ == self.entry().1,
    ;
}

impl Owned for Snapshot {
    open spec fn entry(&self) -> (Seq<char>, Seq<char>) {
        (self.game_id@, self.backup_save_path@)
    }

    fn owner_id(&self) -> (r: &String) {
        &self.game_id
    }

    fn backing_path(&self) -> (r: &String) {
        &self.backup_save_path
    }
}

impl Owned for Screenshot {
    open spec fn entry(&self) -> (Seq<char>, Seq<char>) {
        (self.game_id@, self.image_path@)
    }

    fn owner_id(&self) -> (r: &String) {
        &self.game_id
    }

    fn backing_path(&self) -> (r: &String) {
        &self.image_path
    }
}

/// The texts of a list of strings.
pub open spec fn texts(v: Seq<String>) -> Seq<Seq<char>> {
    Seq::new(v.len(), |i: int| v[i]@)
}

/// The owners and backing paths of a list of records.
pub open spec fn entries<T: Owned>(records: Seq<T>) -> Seq<(Seq<char>, Seq<char>)> {
    Seq::new(records.len(), |i: int| records[i].entry())
}

/// The paths of those entries that belong to the owner, in their order.
pub open spec fn owned_paths(owner: Seq<char>, list: Seq<(Seq<char>, Seq<char>)>) -> Seq<Seq<char>>
    decreases list.len(),
{
    if list.len() == 0 {
        Seq::empty()
    } else if list.last().0 == owner {
        owned_paths(owner, list.drop_last()).push(list.last().1)
    } else {
        owned_paths(owner, list.drop_last())
    }
}

/// The backup folders of those snapshots that belong to the game.
pub open spec fn folders_of(game_id: Seq<char>, snapshots: Seq<Snapshot>) -> Seq<Seq<char>> {
    owned_paths(game_id, entries(snapshots))
}

/// The image files of those manual screenshots that belong to the game.
pub open spec fn files_of(game_id: Seq<char>, screenshots: Seq<Screenshot>) -> Seq<Seq<char>> {
    owned_paths(game_id, entries(screenshots))
}

fn paths_owned_by<T: Owned>(owner: &str, records: &Vec<T>) -> (r: Vec<String>)
    ensures
        texts(r@) == owned_paths(owner@, entries(records@)),
{
    let wanted = String::from_str(owner);
    let ghost list = entries(records@);
    let mut found: Vec<String> = Vec::new();
    let mut i: usize = 0;
    while i < records.len()
        invariant
            i <= records@.len(),
            wanted@ == owner@,
            list == entries(records@),
            texts(found@) == owned_paths(owner@, list.take(i as int)),
        decreases records@.len() - i,
    {
        assert(list.take(i as int + 1).drop_last() == list.take(i as int));
        assert(list.take(i as int + 1).last() == records@[i as int].entry());
        if *records[i].owner_id() == wanted {
            let ghost before = found@;
            found.push(records[i].backing_path().clone());
            assert(texts(found@) == texts(before).push(records@[i as int].entry().1));
        }
        i = i + 1;
    }
    assert(list.take(i as int) == list);
    found
}

/// Lists the folders and files that go when the game with the given
/// identifier is removed, out of all snapshots and manual screenshots on
/// record.
pub fn plan_removal(game_id: &str, snapshots: &Vec<Snapshot>, screenshots: &Vec<Screenshot>) -> (r:
    RemovalPlan)
    ensures
        texts(r.folders@) == folders_of(game_id@, snapshots@),
        texts(r.files@) == files_of(game_id@, screenshots@),
{
    RemovalPlan {
        folders: paths_owned_by(game_id, snapshots),
        files: paths_owned_by(game_id, screenshots),
    }
}

/// The owner's paths are complete and exact: the path of every entry of the
/// owner is among them, and each of them is the path of an entry of the owner.
proof fn lemma_owned_paths_are_complete(owner: Seq<char>, list: Seq<(Seq<char>, Seq<char>)>)
    ensures
        forall|i: int|
            0 <= i < list.len() && (#[trigger] list[i]).0 == owner ==> owned_paths(
                owner,
                list,
            ).contains(list[i].1),
        forall|path: Seq<char>| #[trigger]
            owned_paths(owner, list).contains(path) ==> exists|i: int|
                0 <= i < list.len() && (#[trigger] list[i]).0 == owner && list[i].1 == path,
    decreases list.len(),
{
    if list.len() > 0 {
        let init = list.drop_last();
        let found = owned_paths(owner, list);
        let before = owned_paths(owner, init);
        lemma_owned_paths_are_complete(owner, init);
        assert forall|i: int| 0 <= i < list.len() && (#[trigger] list[i]).0 == owner implies found.contains(
            list[i].1,
        ) by {
            if i < init.len() {
                assert(init[i] == list[i]);
                let at = choose|n: int| 0 <= n < before.len() && before[n] == list[i].1;
                assert(found[at] == list[i].1);
            } else {
                assert(found[found.len() - 1] == list[i].1);
            }
        }
        assert forall|path: Seq<char>| #[trigger] found.contains(path) implies exists|i: int|
            0 <= i < list.len() && (#[trigger] list[i]).0 == owner && list[i].1 == path by {
            let at = choose|n: int| 0 <= n < found.len() && found[n] == path;
            if at < before.len() {
                assert(before.contains(path));
                let i = choose|i: int|
                    0 <= i < init.len() && (#[trigger] init[i]).0 == owner && init[i].1 == path;
                assert(list[i] == init[i]);
            } else {
                assert(list[list.len() - 1].0 == owner);
            }
        }
    }
}

/// The same of records: the path of every record of the owner is among the
/// owner's paths, and each of those is the path of a record of the owner.
proof fn lemma_records_are_complete<T: Owned>(owner: Seq<char>, records: Seq<T>)
    ensures
        forall|i: int|
            0 <= i < records.len() && (#[trigger] records[i]).entry().0 == owner ==> owned_paths(
                owner,
                entries(records),
            ).contains(records[i].entry().1),
        forall|path: Seq<char>| #[trigger]
            owned_paths(owner, entries(records)).contains(path) ==> exists|i: int|
                0 <= i < records.len() && (#[trigger] records[i]).entry().0 == owner
                    && records[i].entry().1 == path,
{
    let list = entries(records);
    lemma_owned_paths_are_complete(owner, list);
    assert forall|i: int|
        0 <= i < records.len() && (#[trigger] records[i]).entry().0 == owner implies owned_paths(
        owner,
        list,
    ).contains(records[i].entry().1) by {
        assert(list[i] == records[i].entry());
    }
    assert forall|path: Seq<char>| #[trigger] owned_paths(owner, list).contains(path) implies exists|
        i: int,
    |
        0 <= i < records.len() && (#[trigger] records[i]).entry().0 == owner
            && records[i].entry().1 == path by {
        let i = choose|i: int|
            0 <= i < list.len() && (#[trigger] list[i]).0 == owner && list[i].1 == path;
        assert(list[i] == records[i].entry());
    }
}

/// Removal leaves no backup behind: the folder of every snapshot of the game
/// is on the list, and every folder on the list is that of a snapshot of the
/// game.
pub proof fn lemma_folders_are_complete(game_id: Seq<char>, snapshots: Seq<Snapshot>)
    ensures
        forall|i: int|
            0 <= i < snapshots.len() && (#[trigger] snapshots[i]).game_id@ == game_id
                ==> folders_of(game_id, snapshots).contains(snapshots[i].backup_save_path@),
        forall|folder: Seq<char>| #[trigger]
            folders_of(game_id, snapshots).contains(folder) ==> exists|i: int|
                0 <= i < snapshots.len() && (#[trigger] snapshots[i]).game_id@ == game_id
                    && snapshots[i].backup_save_path@ == folder,
{
    lemma_records_are_complete(game_id, snapshots);
}

/// Removal leaves no image behind: the file of every manual screenshot of
/// the game is on the list, and every file on the list is that of a manual
/// screenshot of the game.
pub proof fn lemma_files_are_complete(game_id: Seq<char>, screenshots: Seq<Screenshot>)
    ensures
        forall|i: int|
            0 <= i < screenshots.len() && (#[trigger] screenshots[i]).game_id@ == game_id
                ==> files_of(game_id, screenshots).contains(screenshots[i].image_path@),
        forall|file: Seq<char>| #[trigger]
            files_of(game_id, screenshots).contains(file) ==> exists|i: int|
                0 <= i < screenshots.len() && (#[trigger] screenshots[i]).game_id@ == game_id
                    && screenshots[i].image_path@ == file,
{
    lemma_records_are_complete(game_id, screenshots);
}

} // verus!

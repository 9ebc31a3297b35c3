//! Writing the wrapped key to disk.
//!
//! The file is written under a temporary name in the same directory and renamed
//! into place, so a crash mid-write never leaves a truncated key file. It is
//! created so that only the user can read it.

use crate::paths::tmp_path_for;
use crate::wrapped_key::WrappedKey;
use vstd::prelude::*;

verus! {

/// The permissions of the key file: reading and writing, for the user alone.
pub const FILE_MODE: u32 = 0o600;

/// What is written, and where.
pub struct SavePlan {
    /// The directory to create first, with those above it.
    pub directory: Option<Vec<u8>>,
    /// The temporary file. It must not exist yet.
    pub tmp: Vec<u8>,
    /// The file to replace.
    pub path: Vec<u8>,
    /// The permissions that the temporary file is created with.
    pub mode: u32,
    /// The contents.
    pub data: Vec<u8>,
}

/// A step that can fail the whole.
#[derive(Clone, Copy, Debug, PartialEq, Eq, Structural)]
pub enum SaveStage {
    CreateDirectory,
    CreateTemp,
    Write,
    Sync,
    Rename,
}

/// How far the writing has come, and whether the last step succeeded.
#[derive(Clone, Copy, Debug, PartialEq, Eq, Structural)]
pub enum SaveEvent {
    Start,
    DirectoryCreated(bool),
    TempCreated(bool),
    Written(bool),
    Synced(bool),
    /// The temporary file was removed, or could not be, after `SaveStage` failed.
    TempRemoved(SaveStage),
    Renamed(bool),
}

/// What the writing does next.
#[derive(Clone, Copy, Debug, PartialEq, Eq, Structural)]
pub enum SaveAction {
    /// Create the plan's directory.
    CreateDirectory,
    /// Create the temporary file.
    CreateTemp,
    /// Write all of the data to the temporary file.
    Write,
    /// Have the temporary file reach the disk.
    Sync,
    /// Close and remove the temporary file, because `SaveStage` failed.
    RemoveTemp(SaveStage),
    /// Close the temporary file and rename it to the plan's path.
    Rename,
    /// The key is on disk.
    Saved,
    /// The failure that this step reported is that of the whole.
    Failed(SaveStage),
}

/// The step that follows `event`.
pub open spec fn save_next(has_directory: bool, event: SaveEvent) -> SaveAction {
    match event {
        SaveEvent::Start => if has_directory {
            SaveAction::CreateDirectory
        } else {
            SaveAction::CreateTemp
        },
        SaveEvent::DirectoryCreated(ok) => if ok {
            SaveAction::CreateTemp
        } else {
            SaveAction::Failed(SaveStage::CreateDirectory)
        },
        SaveEvent::TempCreated(ok) => if ok {
            SaveAction::Write
        } else {
            SaveAction::Failed(SaveStage::CreateTemp)
        },
        SaveEvent::Written(ok) => if ok {
            SaveAction::Sync
        } else {
            SaveAction::RemoveTemp(SaveStage::Write)
        },
        SaveEvent::Synced(ok) => if ok {
            SaveAction::Rename
        } else {
            SaveAction::RemoveTemp(SaveStage::Sync)
        },
        SaveEvent::TempRemoved(stage) => SaveAction::Failed(stage),
        SaveEvent::Renamed(ok) => if ok {
            SaveAction::Saved
        } else {
            SaveAction::Failed(SaveStage::Rename)
        },
    }
}

impl SavePlan {
    /// The step that follows `event`.
    pub fn next(&self, event: SaveEvent) -> (r: SaveAction)
        ensures
            r == save_next(self.directory is Some, event),
    {
        match event {
            SaveEvent::Start => {
                if self.directory.is_some() {
                    SaveAction::CreateDirectory
                } else {
                    SaveAction::CreateTemp
                }
            },
            SaveEvent::DirectoryCreated(true) => SaveAction::CreateTemp,
            SaveEvent::DirectoryCreated(false) => SaveAction::Failed(SaveStage::CreateDirectory),
            SaveEvent::TempCreated(true) => SaveAction::Write,
            SaveEvent::TempCreated(false) => SaveAction::Failed(SaveStage::CreateTemp),
            SaveEvent::Written(true) => SaveAction::Sync,
            SaveEvent::Written(false) => SaveAction::RemoveTemp(SaveStage::Write),
            SaveEvent::Synced(true) => SaveAction::Rename,
            SaveEvent::Synced(false) => SaveAction::RemoveTemp(SaveStage::Sync),
            SaveEvent::TempRemoved(stage) => SaveAction::Failed(stage),
            SaveEvent::Renamed(true) => SaveAction::Saved,
            SaveEvent::Renamed(false) => SaveAction::Failed(SaveStage::Rename),
        }
    }
}

impl WrappedKey {
    /// How the process `pid` writes this key to `path`. `parent` is the directory
    /// part of `path`; an empty one stands for the current directory, which is
    /// there already.
    pub fn save_plan(&self, path: Vec<u8>, parent: Option<Vec<u8>>, pid: u32) -> (r: SavePlan)
        ensures
            r.directory == match parent {
                Some(dir) if dir@.len() > 0 => Some(dir),
                _ => None::<Vec<u8>>,
            },
            r.tmp@ == crate::paths::tmp_path(path@, pid),
            r.path == path,
            r.mode == FILE_MODE,
            r.mode == 0o600,
            r.data@ == self@.encode(),
    {
        let directory = match parent {
            Some(dir) => if dir.is_empty() {
                None
            } else {
                Some(dir)
            },
            None => None,
        };
        let tmp = tmp_path_for(path.as_slice(), pid);
        SavePlan { directory, tmp, path, mode: FILE_MODE, data: self.write() }
    }
}

/// The contents of a file, and whether they have reached the disk. A crash may
/// lose contents that have not.
pub struct Contents {
    pub bytes: Seq<u8>,
    pub on_disk: bool,
}

/// The two files that the writing touches; `None` for a file that does not exist.
pub struct Files {
    pub target: Option<Contents>,
    pub temp: Option<Contents>,
}

/// A file that holds the whole of `data`, which no crash can lose.
pub open spec fn complete(data: Seq<u8>) -> Option<Contents> {
    Some(Contents { bytes: data, on_disk: true })
}

/// How a step ended: whether it succeeded, and what the temporary file holds if
/// it was a write that failed half-way.
pub struct StepEnd {
    pub ok: bool,
    pub half_written: Seq<u8>,
}

/// The files after `action` ended with `end`.
pub open spec fn performed(files: Files, data: Seq<u8>, action: SaveAction, end: StepEnd) -> Files {
    match action {
        SaveAction::CreateTemp if end.ok => Files {
            temp: Some(Contents { bytes: Seq::empty(), on_disk: false }),
            ..files
        },
        SaveAction::Write => Files {
            temp: Some(
                Contents {
                    bytes: if end.ok {
                        data
                    } else {
                        end.half_written
                    },
                    on_disk: false,
                },
            ),
            ..files
        },
        SaveAction::Sync if end.ok => Files {
            temp: match files.temp {
                Some(contents) => Some(Contents { on_disk: true, ..contents }),
                None => None,
            },
            ..files
        },
        SaveAction::RemoveTemp(_) if end.ok => Files { temp: None, ..files },
        SaveAction::Rename if end.ok => Files { target: files.temp, temp: None },
        _ => files,
    }
}

/// What is reported once `action` has ended, or `None` where the writing is over.
pub open spec fn reported(action: SaveAction, ok: bool) -> Option<SaveEvent> {
    match action {
        SaveAction::CreateDirectory => Some(SaveEvent::DirectoryCreated(ok)),
        SaveAction::CreateTemp => Some(SaveEvent::TempCreated(ok)),
        SaveAction::Write => Some(SaveEvent::Written(ok)),
        SaveAction::Sync => Some(SaveEvent::Synced(ok)),
        SaveAction::RemoveTemp(stage) => Some(SaveEvent::TempRemoved(stage)),
        SaveAction::Rename => Some(SaveEvent::Renamed(ok)),
        SaveAction::Saved => None,
        SaveAction::Failed(_) => None,
    }
}

/// The files and the next step once as many steps as `ends` has were performed
/// from the start, or fewer where the writing was over before.
pub open spec fn run(has_directory: bool, data: Seq<u8>, files: Files, ends: Seq<StepEnd>) -> (
    Files,
    SaveAction,
)
    decreases ends.len(),
{
    if ends.len() == 0 {
        (files, save_next(has_directory, SaveEvent::Start))
    } else {
        let (before, action) = run(has_directory, data, files, ends.drop_last());
        match reported(action, ends.last().ok) {
            Some(event) => (
                performed(before, data, action, ends.last()),
                save_next(has_directory, event),
            ),
            None => (before, action),
        }
    }
}

/// What holds of the files at every moment, by the step that comes next.
pub open spec fn consistent(
    data: Seq<u8>,
    initial: Files,
    files: Files,
    action: SaveAction,
) -> bool {
    match action {
        SaveAction::Saved => files.target == complete(data) && files.temp is None,
        SaveAction::Sync => {
            &&& files.target == initial.target
            &&& files.temp matches Some(contents)
            &&& contents.bytes == data
        },
        SaveAction::Rename => files.target == initial.target && files.temp == complete(data),
        _ => files.target == initial.target,
    }
}

proof fn run_is_consistent(has_directory: bool, data: Seq<u8>, files: Files, ends: Seq<StepEnd>)
    ensures
        consistent(
            data,
            files,
            run(has_directory, data, files, ends).0,
            run(has_directory, data, files, ends).1,
        ),
    decreases ends.len(),
{
    if ends.len() > 0 {
        run_is_consistent(has_directory, data, files, ends.drop_last());
    }
}

/// A crash never leaves a truncated key file. Whichever steps succeed and
/// wherever the writing stops, the file at the target path is the one that was
/// there before, or the whole of the new one, which has then reached the disk.
pub proof fn target_is_never_partial(
    has_directory: bool,
    data: Seq<u8>,
    files: Files,
    ends: Seq<StepEnd>,
)
    ensures
        run(has_directory, data, files, ends).0.target == files.target || run(
            has_directory,
            data,
            files,
            ends,
        ).0.target == complete(data),
{
    run_is_consistent(has_directory, data, files, ends);
}

/// The temporary file is renamed only once it has reached the disk: the step just
/// before was to have it reach the disk, that step succeeded, and the file holds
/// the whole of the data.
pub proof fn rename_follows_sync(
    has_directory: bool,
    data: Seq<u8>,
    files: Files,
    ends: Seq<StepEnd>,
)
    requires
        run(has_directory, data, files, ends).1 is Rename,
    ensures
        ends.len() > 0,
        ends.last().ok,
        run(has_directory, data, files, ends.drop_last()).1 is Sync,
        run(has_directory, data, files, ends).0.temp == complete(data),
{
    run_is_consistent(has_directory, data, files, ends);
}

/// Success means that the key is in place: when the writing ends as saved, the
/// target holds the data on disk, and there is no temporary file; when it ends as
/// failed, the target is as it was.
pub proof fn saved_means_in_place(
    has_directory: bool,
    data: Seq<u8>,
    files: Files,
    ends: Seq<StepEnd>,
)
    ensures
        run(has_directory, data, files, ends).1 is Saved ==> run(
            has_directory,
            data,
            files,
            ends,
        ).0 == (Files { target: complete(data), temp: None }),
        run(has_directory, data, files, ends).1 is Failed ==> run(
            has_directory,
            data,
            files,
            ends,
        ).0.target == files.target,
{
    run_is_consistent(has_directory, data, files, ends);
}

/// A key that was saved can be read: the file at the target path is a wrapped key
/// file, and the key it holds is the one that was saved.
pub proof fn saved_key_is_read_back(
    key: WrappedKey,
    has_directory: bool,
    files: Files,
    ends: Seq<StepEnd>,
)
    requires
        run(has_directory, key@.encode(), files, ends).1 is Saved,
    ensures
        run(has_directory, key@.encode(), files, ends).0.target matches Some(file) && {
            &&& crate::wrapped_key::is_key_file(file.bytes)
            &&& crate::wrapped_key::holds(file.bytes, key@)
        },
{
    run_is_consistent(has_directory, key@.encode(), files, ends);
    crate::wrapped_key::read_gives_back_written(key@);
}

/// A write that failed leaves nothing behind: once the temporary file has been
/// removed it is gone, and the failure reported is that of the failed step.
pub proof fn failed_write_is_cleaned_up(
    has_directory: bool,
    data: Seq<u8>,
    files: Files,
    ends: Seq<StepEnd>,
    stage: SaveStage,
)
    requires
        run(has_directory, data, files, ends).1 == SaveAction::RemoveTemp(stage),
    ensures
        forall|end: StepEnd|
            {
                let after = #[trigger] run(has_directory, data, files, ends.push(end));
                &&& after.1 == SaveAction::Failed(stage)
                &&& end.ok ==> after.0.temp is None
            },
{
    assert forall|end: StepEnd| {
        let after = #[trigger] run(has_directory, data, files, ends.push(end));
        &&& after.1 == SaveAction::Failed(stage)
        &&& end.ok ==> after.0.temp is None
    } by {
        assert(ends.push(end).drop_last() =~= ends);
    }
}

/// The writing ends after at most five steps, and if all of them succeed it ends
/// as saved.
pub proof fn writing_ends(has_directory: bool, data: Seq<u8>, files: Files, ends: Seq<StepEnd>)
    requires
        ends.len() >= 5,
    ensures
        run(has_directory, data, files, ends).1 is Saved || run(
            has_directory,
            data,
            files,
            ends,
        ).1 is Failed,
        (forall|i: int| 0 <= i < ends.len() ==> (#[trigger] ends[i]).ok) ==> run(
            has_directory,
            data,
            files,
            ends,
        ).1 is Saved,
    decreases ends.len(),
{
    if ends.len() > 5 {
        writing_ends(has_directory, data, files, ends.drop_last());
        assert(forall|i: int|
            0 <= i < ends.len() - 1 ==> #[trigger] ends.drop_last()[i] == ends[i]);
    } else {
        let e4 = ends.drop_last();
        let e3 = e4.drop_last();
        let e2 = e3.drop_last();
        let e1 = e2.drop_last();
        assert(e1.drop_last().len() == 0);
        assert(e1.last() == ends[0] && e2.last() == ends[1] && e3.last() == ends[2] && e4.last()
            == ends[3] && ends.last() == ends[4]);
        reveal_with_fuel(run, 6);
    }
}

/// While every step succeeds the steps come in this order: the directory is created
/// where there is one to create, the temporary file is created, written, brought to
/// the disk and renamed, and the key is saved.
pub proof fn steps_come_in_order(
    has_directory: bool,
    data: Seq<u8>,
    files: Files,
    ends: Seq<StepEnd>,
)
    requires
        forall|i: int| 0 <= i < ends.len() ==> (#[trigger] ends[i]).ok,
    ensures
        run(has_directory, data, files, ends).1 == {
            let place: int = if has_directory {
                ends.len() as int
            } else {
                ends.len() + 1int
            };
            if place == 0 {
                SaveAction::CreateDirectory
            } else if place == 1 {
                SaveAction::CreateTemp
            } else if place == 2 {
                SaveAction::Write
            } else if place == 3 {
                SaveAction::Sync
            } else if place == 4 {
                SaveAction::Rename
            } else {
                SaveAction::Saved
            }
        },
    decreases ends.len(),
{
    if ends.len() > 0 {
        let before = ends.drop_last();
        assert(forall|i: int| 0 <= i < before.len() ==> #[trigger] before[i] == ends[i]);
        assert(ends.last() == ends[ends.len() - 1]);
        steps_come_in_order(has_directory, data, files, before);
    }
}

/// The first step that fails is the failure of the whole. Where a temporary file
/// was being written it is removed first, whether or not that succeeds; nothing
/// else follows, and the target is as it was.
pub proof fn first_failure_ends_writing(
    has_directory: bool,
    data: Seq<u8>,
    files: Files,
    ends: Seq<StepEnd>,
    failed: StepEnd,
    removal: StepEnd,
)
    requires
        forall|i: int| 0 <= i < ends.len() ==> (#[trigger] ends[i]).ok,
        ends.len() < 5,
        has_directory || ends.len() < 4,
        !failed.ok,
    ensures
        ({
            let place: int = if has_directory {
                ends.len() as int
            } else {
                ends.len() + 1int
            };
            let after = run(has_directory, data, files, ends.push(failed));
            let removed = run(has_directory, data, files, ends.push(failed).push(removal));
            &&& after.0.target == files.target
            &&& removed.0.target == files.target
            &&& place == 0 ==> after.1 == SaveAction::Failed(SaveStage::CreateDirectory)
            &&& place == 1 ==> after.1 == SaveAction::Failed(SaveStage::CreateTemp)
            &&& place == 2 ==> after.1 == SaveAction::RemoveTemp(SaveStage::Write) && removed.1
                == SaveAction::Failed(SaveStage::Write)
            &&& place == 3 ==> after.1 == SaveAction::RemoveTemp(SaveStage::Sync) && removed.1
                == SaveAction::Failed(SaveStage::Sync)
            &&& (place == 2 || place == 3) && removal.ok ==> removed.0.temp is None
            &&& place == 4 ==> after.1 == SaveAction::Failed(SaveStage::Rename)
            &&& place <= 1 ==> after.0.temp == files.temp
        }),
{
    steps_come_in_order(has_directory, data, files, ends);
    run_is_consistent(has_directory, data, files, ends);
    let first = ends.push(failed);
    let second = first.push(removal);
    assert(first.drop_last() =~= ends && first.last() == failed);
    assert(second.drop_last() =~= first && second.last() == removal);
    run_is_consistent(has_directory, data, files, first);
    run_is_consistent(has_directory, data, files, second);
    if ends.len() == 1 {
        assert(ends.drop_last().len() == 0);
        reveal_with_fuel(run, 3);
    }
}

} // verus!

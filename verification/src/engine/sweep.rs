//! One clean-up step as a state machine.
//!
//! A sweep names the roots to clean and how. The caller walks each root,
//! asks the sweep what to do with every entry it meets (`plan_entry`),
//! performs that removal, and hands the outcome back (`settle`), which
//! updates a running tally. The tally then becomes the step's result.
use vstd::prelude::*;
use crate::text::{opt_view, texts, debug_quoted, debug_text};
use crate::engine::scan::{is_rotated_log_name, rotated_log_name};
use crate::engine::exclusions::{ExclusionConfig, at_or_below, law_below_an_exclusion_is_shielded};
use crate::engine::os_specific::OSCleanupResult;
use crate::engine::system::SystemCleanupResult;

verus! {

/// Which entries under a root a sweep removes.
#[derive(Clone, Copy, Debug, PartialEq, Eq, Structural)]
pub enum SweepMode {
    /// Every file at any depth; directories stay.
    AllFiles,
    /// Files directly inside the root; directories stay.
    TopFiles,
    /// Files and directories directly inside the root; the root itself
    /// stays. A directory is emptied first (the walk goes all the way down,
    /// meeting what a directory holds before the directory) and then
    /// removed, which succeeds only when nothing was left in it.
    TopEntries,
    /// Files at most two levels down whose names look rotated (end in
    /// `.old` or `.gz`, or in a digit): the logs still being written stay.
    OldLogs,
    /// Each root is a file whose contents are erased.
    EmptyFiles,
}

/// What a sweep does when a root is not there.
#[derive(Clone, Copy, Debug, PartialEq, Eq, Structural)]
pub enum MissingRoot {
    /// Go on with the next root.
    Skip,
    /// Stop, and report that the directory does not exist.
    Fail,
}

/// What an entry met on a walk is. A symbolic link is never followed
/// into: the walk meets the link itself.
#[derive(Clone, Copy, Debug, PartialEq, Eq, Structural)]
pub enum EntryKind {
    File,
    Directory,
    Other,
    Missing,
    /// A symbolic link to a file.
    LinkToFile,
    /// A symbolic link to a directory.
    LinkToDirectory,
}

/// What to do with an entry.
#[derive(Clone, Copy, Debug, PartialEq, Eq, Structural)]
pub enum EntryAction {
    Skip,
    /// Remove a file (for a symbolic link, the link itself); it counts as
    /// one removed item.
    RemoveFile,
    /// Remove a directory that must be empty by now (never its contents
    /// along with it); it counts as one removed item.
    RemoveDirectory,
    /// Erase a file's contents; it counts as one removed item.
    EmptyFile,
    /// Remove a file inside a directory that is being emptied; it counts
    /// with that directory.
    RemoveNestedFile,
    /// Remove an empty directory inside a directory that is being emptied;
    /// it counts with that directory.
    RemoveNestedDirectory,
}

/// What to do with a root before walking it.
#[derive(Clone, Copy, Debug, PartialEq, Eq, Structural)]
pub enum RootAction {
    Walk,
    Skip,
    Abort,
}

/// An entry met while walking a root: its path as text, its file name
/// (empty when it has none that is valid text), its depth below the root
/// (0 for the root itself) and what it is.
pub struct WalkEntry {
    pub path: String,
    pub name: String,
    pub depth: usize,
    pub kind: EntryKind,
}

/// One clean-up step.
pub struct Sweep {
    /// The name the step reports under.
    pub category: String,
    /// The directories (or, for `EmptyFiles`, the files) to clean.
    pub roots: Vec<String>,
    pub mode: SweepMode,
    /// Whether the sizes of removed files count as freed bytes.
    pub count_bytes: bool,
    /// Whether a root must be a directory (and not just exist) to be walked.
    pub require_dir: bool,
    pub on_missing: MissingRoot,
    /// The start of the message for a file that could not be removed or
    /// emptied.
    pub file_failure: String,
    /// Whether a failure message ends with the quoted path (otherwise with
    /// the error's text).
    pub quote_path: bool,
}

/// A sweep as values.
pub struct SweepModel {
    pub category: Seq<char>,
    pub roots: Seq<Seq<char>>,
    pub mode: SweepMode,
    pub count_bytes: bool,
    pub require_dir: bool,
    pub on_missing: MissingRoot,
    pub file_failure: Seq<char>,
    pub quote_path: bool,
}

impl View for Sweep {
    type V = SweepModel;

    open spec fn view(&self) -> SweepModel {
        SweepModel {
            category: self.category@,
            roots: texts(self.roots@),
            mode: self.mode,
            count_bytes: self.count_bytes,
            require_dir: self.require_dir,
            on_missing: self.on_missing,
            file_failure: self.file_failure@,
            quote_path: self.quote_path,
        }
    }
}

/// How deep below a root the walk of each mode goes (`None`: all the way).
pub open spec fn depth_of(mode: SweepMode) -> Option<usize> {
    match mode {
        SweepMode::AllFiles => None,
        SweepMode::TopFiles => Some(1),
        SweepMode::TopEntries => None,
        SweepMode::OldLogs => Some(2),
        SweepMode::EmptyFiles => Some(0),
    }
}

/// Whether the walk of a mode meets what a directory holds before the
/// directory itself.
pub open spec fn contents_first_of(mode: SweepMode) -> bool {
    mode == SweepMode::TopEntries
}

/// Whether an action counts as one removed item.
pub open spec fn counted(action: EntryAction) -> bool {
    action == EntryAction::RemoveFile || action == EntryAction::RemoveDirectory || action == EntryAction::EmptyFile
}

/// What a sweep does with a root, given whether it exists and whether it
/// is a directory.
pub open spec fn root_action_of(s: SweepModel, exists: bool, is_dir: bool) -> RootAction {
    let present = if s.require_dir { exists && is_dir } else { exists };
    if s.mode == SweepMode::EmptyFiles || present {
        RootAction::Walk
    } else if s.on_missing == MissingRoot::Fail {
        RootAction::Abort
    } else {
        RootAction::Skip
    }
}

/// A file, or a symbolic link to one (which is removed as the link itself).
pub open spec fn is_file_like(kind: EntryKind) -> bool {
    kind == EntryKind::File || kind == EntryKind::LinkToFile
}

/// What a sweep does with an entry. A symbolic link counts as a file
/// (its removal removes the link); in a contents sweep a link to a
/// directory is removed too, as the link. Whatever is excluded, or lies below an
/// exact excluded path, is always skipped.
pub open spec fn planned_action(
    s: SweepModel,
    exclusions: ExclusionConfig,
    path: Seq<char>,
    name: Seq<char>,
    depth: int,
    kind: EntryKind,
) -> EntryAction {
    if exclusions.shields(path) {
        EntryAction::Skip
    } else {
        match s.mode {
            SweepMode::EmptyFiles => if kind != EntryKind::Missing {
                EntryAction::EmptyFile
            } else {
                EntryAction::Skip
            },
            SweepMode::TopEntries => if depth <= 0 {
                EntryAction::Skip
            } else if is_file_like(kind) || kind == EntryKind::LinkToDirectory {
                if depth == 1 {
                    EntryAction::RemoveFile
                } else {
                    EntryAction::RemoveNestedFile
                }
            } else if kind == EntryKind::Directory {
                if depth == 1 {
                    EntryAction::RemoveDirectory
                } else {
                    EntryAction::RemoveNestedDirectory
                }
            } else {
                EntryAction::Skip
            },
            SweepMode::OldLogs => if is_file_like(kind) && is_rotated_log_name(name) {
                EntryAction::RemoveFile
            } else {
                EntryAction::Skip
            },
            _ => if is_file_like(kind) {
                EntryAction::RemoveFile
            } else {
                EntryAction::Skip
            },
        }
    }
}

/// The bytes a sweep counts as freed for one action on an entry of size
/// `size`: the size of a removed file when the sweep counts sizes.
pub open spec fn freed_for(s: SweepModel, action: EntryAction, size: Option<u64>) -> Option<u64> {
    if s.count_bytes && action == EntryAction::RemoveFile {
        size
    } else {
        None
    }
}

/// The start of the message for a failed action.
pub open spec fn failure_prefix(s: SweepModel, action: EntryAction) -> Seq<char> {
    if action == EntryAction::RemoveDirectory {
        "Failed to remove directory: "@
    } else {
        s.file_failure
    }
}

/// A running tally as values.
pub struct TallyModel {
    pub items: int,
    pub bytes: int,
    pub error: Option<Seq<char>>,
}

/// The tally after one removal: `freed` bytes were counted for it, and it
/// failed with the message `failure`, or succeeded.
pub open spec fn settled(t: TallyModel, freed: Option<u64>, failure: Option<Seq<char>>) -> TallyModel {
    TallyModel {
        items: if failure is None { t.items + 1 } else { t.items },
        bytes: match freed {
            Some(n) => t.bytes + n,
            None => t.bytes,
        },
        error: if failure is Some { failure } else { t.error },
    }
}

/// The tally after a sequence of removals, each given by the bytes counted
/// for it and its failure message, if any.
pub open spec fn run_steps(t: TallyModel, steps: Seq<(Option<u64>, Option<Seq<char>>)>) -> TallyModel
    decreases steps.len(),
{
    if steps.len() == 0 {
        t
    } else {
        let last = steps.last();
        settled(run_steps(t, steps.drop_last()), last.0, last.1)
    }
}

/// How many of the removals succeeded.
pub open spec fn successes(steps: Seq<(Option<u64>, Option<Seq<char>>)>) -> int
    decreases steps.len(),
{
    if steps.len() == 0 {
        0
    } else {
        successes(steps.drop_last()) + if steps.last().1 is None { 1int } else { 0int }
    }
}

/// The bytes counted over all removals.
pub open spec fn freed_total(steps: Seq<(Option<u64>, Option<Seq<char>>)>) -> int
    decreases steps.len(),
{
    if steps.len() == 0 {
        0
    } else {
        freed_total(steps.drop_last()) + match steps.last().0 {
            Some(n) => n as int,
            None => 0int,
        }
    }
}

/// The message of the last failed removal, if any failed.
pub open spec fn last_failure(steps: Seq<(Option<u64>, Option<Seq<char>>)>) -> Option<Seq<char>>
    decreases steps.len(),
{
    if steps.len() == 0 {
        None
    } else if steps.last().1 is Some {
        steps.last().1
    } else {
        last_failure(steps.drop_last())
    }
}

/// How many items a clean-up step removed, how many bytes it freed, and
/// the message of its last failure.
pub struct CleanupTally {
    pub items_removed: u64,
    pub bytes_freed: u64,
    pub error: Option<String>,
}

impl View for CleanupTally {
    type V = TallyModel;

    open spec fn view(&self) -> TallyModel {
        TallyModel {
            items: self.items_removed as int,
            bytes: self.bytes_freed as int,
            error: opt_view(self.error),
        }
    }
}

impl CleanupTally {
    /// Nothing removed yet.
    pub fn new() -> (t: CleanupTally)
        ensures
            t@ == (TallyModel { items: 0, bytes: 0, error: None }),
    {
        CleanupTally { items_removed: 0, bytes_freed: 0, error: None }
    }
}

impl Sweep {
    /// How deep below each root the walk goes (`None`: all the way). At
    /// depth 0 the walk meets the root itself.
    pub fn walk_depth(&self) -> (d: Option<usize>)
        ensures
            d == depth_of(self.mode),
    {
        match self.mode {
            SweepMode::AllFiles => None,
            SweepMode::TopFiles => Some(1),
            SweepMode::TopEntries => None,
            SweepMode::OldLogs => Some(2),
            SweepMode::EmptyFiles => Some(0),
        }
    }

    /// Whether the walk must meet what a directory holds before the
    /// directory itself.
    pub fn walk_contents_first(&self) -> (b: bool)
        ensures
            b == contents_first_of(self.mode),
    {
        self.mode == SweepMode::TopEntries
    }

    /// What to do with a root, given whether it exists and is a directory.
    pub fn root_action(&self, exists: bool, is_dir: bool) -> (a: RootAction)
        ensures
            a == root_action_of(self@, exists, is_dir),
    {
        let present = if self.require_dir { exists && is_dir } else { exists };
        if self.mode == SweepMode::EmptyFiles || present {
            RootAction::Walk
        } else if self.on_missing == MissingRoot::Fail {
            RootAction::Abort
        } else {
            RootAction::Skip
        }
    }

    /// What to do with an entry met on the walk.
    pub fn plan_entry(&self, exclusions: &ExclusionConfig, entry: &WalkEntry) -> (a: EntryAction)
        ensures
            a == planned_action(self@, *exclusions, entry.path@, entry.name@, entry.depth as int, entry.kind),
    {
        if exclusions.is_shielded(entry.path.as_str()) {
            return EntryAction::Skip;
        }
        match self.mode {
            SweepMode::EmptyFiles => if entry.kind != EntryKind::Missing {
                EntryAction::EmptyFile
            } else {
                EntryAction::Skip
            },
            SweepMode::TopEntries => if entry.depth == 0 {
                EntryAction::Skip
            } else if entry.kind == EntryKind::File || entry.kind == EntryKind::LinkToFile
                || entry.kind == EntryKind::LinkToDirectory {
                if entry.depth == 1 {
                    EntryAction::RemoveFile
                } else {
                    EntryAction::RemoveNestedFile
                }
            } else if entry.kind == EntryKind::Directory {
                if entry.depth == 1 {
                    EntryAction::RemoveDirectory
                } else {
                    EntryAction::RemoveNestedDirectory
                }
            } else {
                EntryAction::Skip
            },
            SweepMode::OldLogs => if (entry.kind == EntryKind::File || entry.kind == EntryKind::LinkToFile)
                && rotated_log_name(entry.name.as_str()) {
                EntryAction::RemoveFile
            } else {
                EntryAction::Skip
            },
            _ => if entry.kind == EntryKind::File || entry.kind == EntryKind::LinkToFile {
                EntryAction::RemoveFile
            } else {
                EntryAction::Skip
            },
        }
    }

    /// The detail that ends the message for a failed action on `path`,
    /// whose error reads `error`: the path in its debug form (quoted and
    /// escaped, as `{:?}` gives it), when the sweep
    /// names paths in its messages, otherwise the error's text.
    pub fn failure_detail(&self, path: &str, error: String) -> (d: String)
        ensures
            d@ == (if self.quote_path { debug_text(path@) } else { error@ }),
    {
        if self.quote_path {
            debug_quoted(path)
        } else {
            error
        }
    }

    /// Whether the size of a file removed by `action` counts as freed.
    pub open spec fn counts_size(&self, action: EntryAction) -> bool {
        self.count_bytes && action == EntryAction::RemoveFile
    }

    /// Records the outcome of `action` on the entry at `path`: `size` is the
    /// entry's size when it could be read, and `outcome` the removal's
    /// result. A failure's message is the sweep's prefix followed by the
    /// detail that `failure_detail` gives: the debug-quoted path, or the
    /// error's text. Removals inside
    /// a directory that is being emptied leave the tally as it is: the
    /// directory's own removal counts, or fails, for them.
    pub fn settle(
        &self,
        tally: &mut CleanupTally,
        action: EntryAction,
        size: Option<u64>,
        path: &str,
        outcome: Result<(), String>,
    )
        requires
            action != EntryAction::Skip,
            old(tally).items_removed < u64::MAX,
            self.counts_size(action) && size is Some ==> old(tally).bytes_freed + size->0 <= u64::MAX,
        ensures
            counted(action) ==> final(tally)@ == settled(
                old(tally)@,
                freed_for(self@, action, size),
                match outcome {
                    Ok(_) => None,
                    Err(error) => Some(
                        failure_prefix(self@, action) + (if self.quote_path { debug_text(path@) } else { error@ }),
                    ),
                },
            ),
            !counted(action) ==> final(tally)@ == old(tally)@,
    {
        if action == EntryAction::RemoveNestedFile || action == EntryAction::RemoveNestedDirectory {
            return;
        }
        if self.count_bytes && action == EntryAction::RemoveFile {
            if let Some(n) = size {
                tally.bytes_freed = tally.bytes_freed + n;
            }
        }
        match outcome {
            Ok(_) => {
                tally.items_removed = tally.items_removed + 1;
            }
            Err(error) => {
                let detail = self.failure_detail(path, error);
                let mut message = if action == EntryAction::RemoveDirectory {
                    String::from_str("Failed to remove directory: ")
                } else {
                    self.file_failure.clone()
                };
                message.append(detail.as_str());
                tally.error = Some(message);
            }
        }
    }

    /// The result of a platform-specific step from its tally.
    pub fn os_result(&self, tally: &CleanupTally) -> (r: OSCleanupResult)
        ensures
            r.category@ == self.category@,
            r.cleared == (tally.items_removed > 0),
            r.items_removed == tally.items_removed,
            r.bytes_freed == tally.bytes_freed,
            r.error_text() == opt_view(tally.error),
    {
        OSCleanupResult {
            category: self.category.clone(),
            cleared: tally.items_removed > 0,
            items_removed: tally.items_removed,
            bytes_freed: tally.bytes_freed,
            error: tally.error.clone(),
        }
    }

    /// The result of a system step from its tally.
    pub fn system_result(&self, tally: &CleanupTally) -> (r: SystemCleanupResult)
        ensures
            r.category@ == self.category@,
            r.cleared == (tally.items_removed > 0),
            r.items_removed == tally.items_removed,
            r.bytes_freed == tally.bytes_freed,
            r.error_text() == opt_view(tally.error),
    {
        SystemCleanupResult {
            category: self.category.clone(),
            cleared: tally.items_removed > 0,
            items_removed: tally.items_removed,
            bytes_freed: tally.bytes_freed,
            error: tally.error.clone(),
        }
    }

    /// The result of a platform-specific step whose root is not an existing
    /// directory.
    pub fn missing_root_result(&self) -> (r: OSCleanupResult)
        ensures
            r.category@ == self.category@,
            !r.cleared,
            r.items_removed == 0,
            r.bytes_freed == 0,
            r.error_text() == Some("Directory does not exist"@),
    {
        OSCleanupResult {
            category: self.category.clone(),
            cleared: false,
            items_removed: 0,
            bytes_freed: 0,
            error: Some(String::from_str("Directory does not exist")),
        }
    }
}

/// A clean-up step never touches an excluded path (an exact one, or one
/// that a pattern matches), nor anything below an exact excluded path.
/// Directories are only removed once emptied, so a directory that holds
/// such an entry is never removed either (its removal fails, as the entry
/// stays).
pub proof fn law_excluded_entries_are_skipped(
    s: SweepModel,
    exclusions: ExclusionConfig,
    base: Seq<char>,
    path: Seq<char>,
    name: Seq<char>,
    depth: int,
    kind: EntryKind,
)
    requires
        exclusions.excludes(path) || (exclusions.excluded_set().contains(base) && at_or_below(path, base)),
    ensures
        planned_action(s, exclusions, path, name, depth, kind) == EntryAction::Skip,
{
    if !exclusions.excludes(path) {
        law_below_an_exclusion_is_shielded(exclusions, base, path);
    }
}

/// Clearing a directory's contents never removes the directory itself.
pub proof fn law_contents_sweep_keeps_root(
    s: SweepModel,
    exclusions: ExclusionConfig,
    path: Seq<char>,
    name: Seq<char>,
    kind: EntryKind,
)
    requires
        s.mode == SweepMode::TopEntries,
    ensures
        planned_action(s, exclusions, path, name, 0, kind) == EntryAction::Skip,
{
}

/// Only contents sweeps remove directories, and only emptied ones, walked
/// contents first; every other sweep removes or empties files alone.
pub proof fn law_only_contents_sweeps_remove_directories(
    s: SweepModel,
    exclusions: ExclusionConfig,
    path: Seq<char>,
    name: Seq<char>,
    depth: int,
    kind: EntryKind,
)
    ensures
        planned_action(s, exclusions, path, name, depth, kind) == EntryAction::RemoveDirectory
            ==> s.mode == SweepMode::TopEntries && kind == EntryKind::Directory && depth == 1,
        planned_action(s, exclusions, path, name, depth, kind) == EntryAction::RemoveNestedDirectory
            ==> s.mode == SweepMode::TopEntries && kind == EntryKind::Directory && depth > 1,
        planned_action(s, exclusions, path, name, depth, kind) == EntryAction::RemoveFile
            ==> is_file_like(kind) || (s.mode == SweepMode::TopEntries && kind == EntryKind::LinkToDirectory),
        planned_action(s, exclusions, path, name, depth, kind) == EntryAction::RemoveNestedFile
            ==> s.mode == SweepMode::TopEntries && (is_file_like(kind) || kind == EntryKind::LinkToDirectory)
                && depth > 1,
{
}

/// The old-log sweep removes only rotated logs (the names that the dry run
/// counts as rotated); logs still being written stay.
pub proof fn law_old_logs_only(
    s: SweepModel,
    exclusions: ExclusionConfig,
    path: Seq<char>,
    name: Seq<char>,
    depth: int,
    kind: EntryKind,
)
    requires
        s.mode == SweepMode::OldLogs,
        planned_action(s, exclusions, path, name, depth, kind) != EntryAction::Skip,
    ensures
        is_rotated_log_name(name),
{
}

/// Over any sequence of removals, the tally counts exactly the successful
/// ones, adds up exactly the counted bytes, and keeps the message of the
/// last failure (the earlier message when none failed).
pub proof fn law_tally_counts_outcomes(t: TallyModel, steps: Seq<(Option<u64>, Option<Seq<char>>)>)
    ensures
        run_steps(t, steps).items == t.items + successes(steps),
        run_steps(t, steps).bytes == t.bytes + freed_total(steps),
        run_steps(t, steps).error == (if last_failure(steps) is Some {
            last_failure(steps)
        } else {
            t.error
        }),
    decreases steps.len(),
{
    if steps.len() > 0 {
        law_tally_counts_outcomes(t, steps.drop_last());
    }
}

/// A sweep that removes files (every file, or the files directly inside
/// its roots) removes every file met directly inside a root that the
/// exclusions do not shield; a sweep of every file also removes the ones
/// met at any depth below, and its walk has no depth limit, while a sweep
/// of the top files walks one level down.
pub proof fn law_file_sweeps_remove_unshielded_files(
    s: SweepModel,
    exclusions: ExclusionConfig,
    path: Seq<char>,
    name: Seq<char>,
    depth: int,
    kind: EntryKind,
)
    requires
        s.mode == SweepMode::TopFiles || s.mode == SweepMode::AllFiles,
        !exclusions.shields(path),
        kind == EntryKind::File || kind == EntryKind::LinkToFile,
        depth == 1 || (s.mode == SweepMode::AllFiles && depth >= 1),
    ensures
        planned_action(s, exclusions, path, name, depth, kind) == EntryAction::RemoveFile,
        s.mode == SweepMode::TopFiles ==> depth_of(s.mode) == Some(1usize),
        s.mode == SweepMode::AllFiles ==> depth_of(s.mode) is None,
{
}

/// A sweep that counts sizes counts, over any run of removals of files of
/// the sizes `sizes`, exactly their sum as freed bytes, and one removed item
/// for each.
pub proof fn law_counted_removals_add_up(s: SweepModel, t: TallyModel, sizes: Seq<u64>)
    requires
        s.count_bytes,
    ensures
        run_steps(t, removal_steps(s, sizes)).bytes == t.bytes + size_sum(sizes),
        run_steps(t, removal_steps(s, sizes)).items == t.items + sizes.len(),
    decreases sizes.len(),
{
    if sizes.len() > 0 {
        law_counted_removals_add_up(s, t, sizes.drop_last());
        assert(removal_steps(s, sizes).drop_last() =~= removal_steps(s, sizes.drop_last()));
    }
}

/// The tally steps of removing, one after another and all successfully,
/// files of the sizes `sizes` in the sweep `s`.
pub open spec fn removal_steps(s: SweepModel, sizes: Seq<u64>) -> Seq<(Option<u64>, Option<Seq<char>>)> {
    Seq::new(sizes.len(), |i: int| (freed_for(s, EntryAction::RemoveFile, Some(sizes[i])), None))
}

/// The sum of the sizes.
pub open spec fn size_sum(sizes: Seq<u64>) -> int
    decreases sizes.len(),
{
    if sizes.len() == 0 {
        0
    } else {
        size_sum(sizes.drop_last()) + sizes.last()
    }
}

/// What each of the other modes removes of what it meets, when the
/// exclusions do not shield it: a contents sweep removes every file and
/// directory directly inside a root (and, contents first, what they hold);
/// the old-log sweep removes every rotated log at most two levels down; an
/// emptying sweep empties each root file that is there.
pub proof fn law_sweeps_remove_what_they_name(
    s: SweepModel,
    exclusions: ExclusionConfig,
    path: Seq<char>,
    name: Seq<char>,
    depth: int,
    kind: EntryKind,
)
    requires
        !exclusions.shields(path),
    ensures
        s.mode == SweepMode::TopEntries && depth == 1 && (kind == EntryKind::File || kind == EntryKind::LinkToFile)
            ==> planned_action(s, exclusions, path, name, depth, kind) == EntryAction::RemoveFile,
        s.mode == SweepMode::TopEntries && depth == 1 && kind == EntryKind::Directory
            ==> planned_action(s, exclusions, path, name, depth, kind) == EntryAction::RemoveDirectory,
        s.mode == SweepMode::TopEntries && depth > 1 && kind == EntryKind::Directory
            ==> planned_action(s, exclusions, path, name, depth, kind) == EntryAction::RemoveNestedDirectory,
        s.mode == SweepMode::TopEntries && depth > 1 && kind == EntryKind::File
            ==> planned_action(s, exclusions, path, name, depth, kind) == EntryAction::RemoveNestedFile,
        s.mode == SweepMode::TopEntries ==> depth_of(s.mode) is None && contents_first_of(s.mode),
        s.mode == SweepMode::OldLogs && (kind == EntryKind::File || kind == EntryKind::LinkToFile)
            && is_rotated_log_name(name) ==> planned_action(s, exclusions, path, name, depth, kind)
            == EntryAction::RemoveFile,
        s.mode == SweepMode::OldLogs ==> depth_of(s.mode) == Some(2usize),
        s.mode == SweepMode::EmptyFiles && kind != EntryKind::Missing ==> planned_action(
            s,
            exclusions,
            path,
            name,
            depth,
            kind,
        ) == EntryAction::EmptyFile,
        s.mode == SweepMode::EmptyFiles ==> depth_of(s.mode) == Some(0usize),
{
}

} // verus!

//! Dry-run analysis: what a clean-up would touch, without touching it.
//!
//! Each area lists scan targets. The caller measures every target (how many
//! files, how many bytes) and hands the measurements back; `collect_operations`
//! turns them into the operations that the dry run reports.
use vstd::prelude::*;
use crate::text::{texts, chars_of, chars_ends_with};
use crate::size::is_digit;
use crate::engine::sweep::{SweepMode, depth_of};

verus! {

/// One thing a clean-up would touch, with how much it holds.
pub struct DryRunOperation {
    pub name: String,
    pub path: String,
    pub file_count: u64,
    pub bytes: u64,
    pub would_modify: bool,
}

/// A dry-run operation as values.
pub struct OperationModel {
    pub name: Seq<char>,
    pub path: Seq<char>,
    pub file_count: u64,
    pub bytes: u64,
    pub would_modify: bool,
}

impl View for DryRunOperation {
    type V = OperationModel;

    open spec fn view(&self) -> OperationModel {
        OperationModel {
            name: self.name@,
            path: self.path@,
            file_count: self.file_count,
            bytes: self.bytes,
            would_modify: self.would_modify,
        }
    }
}

/// The operations of a vector, as values.
pub open spec fn operations_view(v: Seq<DryRunOperation>) -> Seq<OperationModel> {
    v.map_values(|o: DryRunOperation| o@)
}

/// How a target is measured.
#[derive(Clone, Copy, Debug, PartialEq, Eq, Structural)]
pub enum ScanKind {
    /// Files at any depth of an existing directory ((0, 0) otherwise).
    Tree,
    /// Files directly inside an existing directory ((0, 0) otherwise).
    Top,
    /// Files at most two levels down whose names look rotated
    /// (`rotated_log_name`).
    RotatedLogs,
    /// One file: (1, its size) when it is a readable file, (0, 0) otherwise.
    FileSize,
    /// One file: (1, its size) when it exists and its size can be read;
    /// no measurement otherwise.
    ExistingFileSize,
    /// The disk usage that `journalctl --disk-usage` reports, as (1, bytes).
    JournalUsage,
    /// The estimate of unused Flatpak runtimes, as (1, bytes).
    FlatpakUnused,
}

/// What measuring a target found.
#[derive(Clone, Copy, Debug, PartialEq, Eq, Structural)]
pub enum Measurement {
    /// `count` files holding `bytes` bytes (a directory scan).
    Files { count: u64, bytes: u64 },
    /// One file (or one figure of disk usage) of `bytes` bytes.
    OneFile(u64),
    /// Nothing there to measure.
    Absent,
}

/// A measurement as (files, bytes).
pub open spec fn measured_pair(m: Measurement) -> (u64, u64) {
    match m {
        Measurement::Files { count, bytes } => (count, bytes),
        Measurement::OneFile(bytes) => (1, bytes),
        Measurement::Absent => (0, 0),
    }
}

/// Whether a measurement is of the shape that a kind of scan gives: a
/// directory scan counts files; a single file is one file of its size (or,
/// for `FileSize`, absent); a figure of disk usage is one entry.
pub open spec fn fits(scan: ScanKind, m: Measurement) -> bool {
    match scan {
        ScanKind::Tree | ScanKind::Top | ScanKind::RotatedLogs => m is Files,
        ScanKind::FileSize => m is OneFile || m is Absent,
        ScanKind::ExistingFileSize | ScanKind::JournalUsage | ScanKind::FlatpakUnused => m is OneFile,
    }
}

impl Measurement {
    /// Whether this measurement is of the shape that `scan` gives.
    pub fn fits_scan(&self, scan: ScanKind) -> (b: bool)
        ensures
            b == fits(scan, *self),
    {
        match scan {
            ScanKind::Tree | ScanKind::Top | ScanKind::RotatedLogs => match self {
                Measurement::Files { .. } => true,
                _ => false,
            },
            ScanKind::FileSize => match self {
                Measurement::Files { .. } => false,
                _ => true,
            },
            _ => match self {
                Measurement::OneFile(_) => true,
                _ => false,
            },
        }
    }
}

/// How to measure a target.
#[derive(Clone, Copy, Debug, PartialEq, Eq, Structural)]
pub enum MeasurePlan {
    /// Its condition does not hold: no measurement.
    Skip,
    /// Count the files of the directory down to `depth` (`None`: all the
    /// way), only those with rotated-log names when `rotated_only`; a
    /// missing directory counts as no files.
    CountFiles { depth: Option<usize>, rotated_only: bool },
    /// Read one file's size. `must_be_file`: only a regular file counts;
    /// `absent_counts`: when there is no size, the target is still reported
    /// as absent (otherwise it is not measured).
    OneFile { must_be_file: bool, absent_counts: bool },
    /// Ask `journalctl` for the journal's disk usage.
    JournalUsage,
    /// Estimate the unused Flatpak runtimes.
    FlatpakUnused,
}

/// Whether a target's condition holds, given whether the path it names
/// exists.
pub open spec fn guard_holds(g: GuardModel, exists: bool) -> bool {
    match g {
        GuardModel::Always => true,
        GuardModel::IfExists(_) => exists,
        GuardModel::IfMissing(_) => !exists,
    }
}

/// How to measure a kind of scan.
pub open spec fn scan_plan(scan: ScanKind) -> MeasurePlan {
    match scan {
        ScanKind::Tree => MeasurePlan::CountFiles { depth: None, rotated_only: false },
        ScanKind::Top => MeasurePlan::CountFiles { depth: Some(1), rotated_only: false },
        ScanKind::RotatedLogs => MeasurePlan::CountFiles { depth: Some(2), rotated_only: true },
        ScanKind::FileSize => MeasurePlan::OneFile { must_be_file: true, absent_counts: true },
        ScanKind::ExistingFileSize => MeasurePlan::OneFile { must_be_file: false, absent_counts: false },
        ScanKind::JournalUsage => MeasurePlan::JournalUsage,
        ScanKind::FlatpakUnused => MeasurePlan::FlatpakUnused,
    }
}

/// How to measure a target, given whether the path its condition names
/// exists (ignored when it has no condition).
pub open spec fn measure_plan_of(t: TargetModel, guard_path_exists: bool) -> MeasurePlan {
    if guard_holds(t.guard, guard_path_exists) {
        scan_plan(t.scan)
    } else {
        MeasurePlan::Skip
    }
}

impl ScanTarget {
    /// The path that the target's condition names, if it has one.
    pub fn guard_path(&self) -> (p: Option<&String>)
        ensures
            match self.guard@ {
                GuardModel::Always => p is None,
                GuardModel::IfExists(q) => p matches Some(x) && x@ == q,
                GuardModel::IfMissing(q) => p matches Some(x) && x@ == q,
            },
    {
        match &self.guard {
            Guard::Always => None,
            Guard::IfExists(q) => Some(q),
            Guard::IfMissing(q) => Some(q),
        }
    }

    /// How to measure this target, given whether the path its condition
    /// names exists.
    pub fn measure_plan(&self, guard_path_exists: bool) -> (m: MeasurePlan)
        ensures
            m == measure_plan_of(self@, guard_path_exists),
    {
        let holds = match &self.guard {
            Guard::Always => true,
            Guard::IfExists(_) => guard_path_exists,
            Guard::IfMissing(_) => !guard_path_exists,
        };
        if !holds {
            return MeasurePlan::Skip;
        }
        match self.scan {
            ScanKind::Tree => MeasurePlan::CountFiles { depth: None, rotated_only: false },
            ScanKind::Top => MeasurePlan::CountFiles { depth: Some(1), rotated_only: false },
            ScanKind::RotatedLogs => MeasurePlan::CountFiles { depth: Some(2), rotated_only: true },
            ScanKind::FileSize => MeasurePlan::OneFile { must_be_file: true, absent_counts: true },
            ScanKind::ExistingFileSize => MeasurePlan::OneFile { must_be_file: false, absent_counts: false },
            ScanKind::JournalUsage => MeasurePlan::JournalUsage,
            ScanKind::FlatpakUnused => MeasurePlan::FlatpakUnused,
        }
    }
}

/// The measurement of one file, given its size (`None` when there is no
/// such file or its size cannot be read): one file of that size; without
/// a size, an absent target when `absent_counts`, otherwise none.
pub open spec fn one_file_measurement(absent_counts: bool, size: Option<u64>) -> Option<Measurement> {
    match size {
        Some(n) => Some(Measurement::OneFile(n)),
        None => if absent_counts {
            Some(Measurement::Absent)
        } else {
            None
        },
    }
}

/// The measurement of one file, given its size.
pub fn measure_one_file(absent_counts: bool, size: Option<u64>) -> (m: Option<Measurement>)
    ensures
        m == one_file_measurement(absent_counts, size),
{
    match size {
        Some(n) => Some(Measurement::OneFile(n)),
        None => if absent_counts {
            Some(Measurement::Absent)
        } else {
            None
        },
    }
}

/// A figure of disk usage, measured as one entry of that many bytes.
pub fn usage_measurement(bytes: u64) -> (m: Measurement)
    ensures
        m == Measurement::OneFile(bytes),
{
    Measurement::OneFile(bytes)
}

/// A measurement made by following a target's plan fits its kind.
pub proof fn law_planned_measurements_fit(t: TargetModel, size: Option<u64>, files: u64, bytes: u64, usage: u64)
    ensures
        scan_plan(t.scan) matches MeasurePlan::CountFiles { .. } ==> fits(
            t.scan,
            Measurement::Files { count: files, bytes },
        ),
        scan_plan(t.scan) matches MeasurePlan::OneFile { absent_counts, .. } ==> (one_file_measurement(
            absent_counts,
            size,
        ) matches Some(m) ==> fits(t.scan, m)),
        (scan_plan(t.scan) is JournalUsage || scan_plan(t.scan) is FlatpakUnused) ==> fits(
            t.scan,
            Measurement::OneFile(usage),
        ),
{
}

/// Whether every measurement fits the kind of its target.
pub open spec fn all_fit(targets: Seq<TargetModel>, measures: Seq<Option<Measurement>>) -> bool {
    forall|i: int|
        0 <= i < targets.len() && i < measures.len() && #[trigger] measures[i] is Some ==> fits(
            targets[i].scan,
            measures[i]->0,
        )
}

/// When a measured target becomes an operation.
#[derive(Clone, Copy, Debug, PartialEq, Eq, Structural)]
pub enum KeepRule {
    Always,
    /// When it holds a file or a byte.
    NonEmpty,
    /// When it holds a byte.
    BytesPositive,
}

/// A condition on the file system for measuring a target at all.
pub enum Guard {
    Always,
    IfExists(String),
    IfMissing(String),
}

/// A guard as values.
pub enum GuardModel {
    Always,
    IfExists(Seq<char>),
    IfMissing(Seq<char>),
}

impl View for Guard {
    type V = GuardModel;

    open spec fn view(&self) -> GuardModel {
        match self {
            Guard::Always => GuardModel::Always,
            Guard::IfExists(p) => GuardModel::IfExists(p@),
            Guard::IfMissing(p) => GuardModel::IfMissing(p@),
        }
    }
}

/// Something to measure for the dry run.
pub struct ScanTarget {
    pub name: String,
    pub path: String,
    pub scan: ScanKind,
    pub keep: KeepRule,
    pub guard: Guard,
}

/// A scan target as values.
pub struct TargetModel {
    pub name: Seq<char>,
    pub path: Seq<char>,
    pub scan: ScanKind,
    pub keep: KeepRule,
    pub guard: GuardModel,
}

impl View for ScanTarget {
    type V = TargetModel;

    open spec fn view(&self) -> TargetModel {
        TargetModel {
            name: self.name@,
            path: self.path@,
            scan: self.scan,
            keep: self.keep,
            guard: self.guard@,
        }
    }
}

/// The targets of a vector, as values.
pub open spec fn targets_view(v: Seq<ScanTarget>) -> Seq<TargetModel> {
    v.map_values(|t: ScanTarget| t@)
}

/// A target measured with no condition.
pub open spec fn plain_target(name: Seq<char>, path: Seq<char>, scan: ScanKind, keep: KeepRule) -> TargetModel {
    TargetModel { name, path, scan, keep, guard: GuardModel::Always }
}

/// Whether a measurement of `count` files and `bytes` bytes is reported.
pub open spec fn kept(keep: KeepRule, count: u64, bytes: u64) -> bool {
    match keep {
        KeepRule::Always => true,
        KeepRule::NonEmpty => count > 0 || bytes > 0,
        KeepRule::BytesPositive => bytes > 0,
    }
}

/// The operations reported for `targets` measured as `measures` (`None`
/// where a target was not measured), in order.
pub open spec fn collected(targets: Seq<TargetModel>, measures: Seq<Option<Measurement>>) -> Seq<OperationModel>
    decreases targets.len(),
{
    if targets.len() == 0 || measures.len() == 0 {
        Seq::empty()
    } else {
        let earlier = collected(targets.drop_last(), measures.drop_last());
        let t = targets.last();
        match measures.last() {
            Some(m) => if kept(t.keep, measured_pair(m).0, measured_pair(m).1) {
                earlier.push(
                    OperationModel {
                        name: t.name,
                        path: t.path,
                        file_count: measured_pair(m).0,
                        bytes: measured_pair(m).1,
                        would_modify: false,
                    },
                )
            } else {
                earlier
            },
            None => earlier,
        }
    }
}

/// A file name that looks like a rotated log: it ends in `.old` or `.gz`,
/// or its last character is a digit.
pub open spec fn is_rotated_log_name(name: Seq<char>) -> bool {
    ||| ".old"@.is_suffix_of(name)
    ||| ".gz"@.is_suffix_of(name)
    ||| (name.len() > 0 && is_digit(name.last()))
}

/// Whether a file name looks like a rotated log.
pub fn rotated_log_name(name: &str) -> (b: bool)
    ensures
        b == is_rotated_log_name(name@),
{
    proof {
        reveal_strlit(".old");
        reveal_strlit(".gz");
    }
    let n = chars_of(name);
    chars_ends_with(&n, &chars_of(".old")) || chars_ends_with(&n, &chars_of(".gz"))
        || (n.len() > 0 && '0' <= n[n.len() - 1] && n[n.len() - 1] <= '9')
}

/// The operations reported for `targets`, measured as `measures`.
/// Each measurement must fit the kind of its target (`fits`): a single
/// file is reported as one file of its size.
pub fn collect_operations(targets: &Vec<ScanTarget>, measures: &Vec<Option<Measurement>>) -> (ops: Vec<DryRunOperation>)
    requires
        targets@.len() == measures@.len(),
        all_fit(targets_view(targets@), measures@),
    ensures
        operations_view(ops@) == collected(targets_view(targets@), measures@),
{
    let mut ops: Vec<DryRunOperation> = Vec::new();
    let n = targets.len();
    let mut i: usize = 0;
    while i < n
        invariant
            n == targets@.len(),
            n == measures@.len(),
            i <= n,
            operations_view(ops@) == collected(
                targets_view(targets@).take(i as int),
                measures@.take(i as int),
            ),
        decreases n - i,
    {
        let ghost before = ops@;
        proof {
            assert(targets_view(targets@).take(i + 1).drop_last() =~= targets_view(targets@).take(i as int));
            assert(measures@.take(i + 1).drop_last() =~= measures@.take(i as int));
        }
        let t = &targets[i];
        match measures[i] {
            Some(m) => {
                let (count, bytes) = match m {
                    Measurement::Files { count, bytes } => (count, bytes),
                    Measurement::OneFile(bytes) => (1u64, bytes),
                    Measurement::Absent => (0u64, 0u64),
                };
                let keep = match t.keep {
                    KeepRule::Always => true,
                    KeepRule::NonEmpty => count > 0 || bytes > 0,
                    KeepRule::BytesPositive => bytes > 0,
                };
                if keep {
                    ops.push(
                        DryRunOperation {
                            name: t.name.clone(),
                            path: t.path.clone(),
                            file_count: count,
                            bytes,
                            would_modify: false,
                        },
                    );
                    assert(operations_view(ops@) =~= operations_view(before).push(ops@.last()@));
                }
            },
            None => {},
        }
        i = i + 1;
    }
    assert(targets_view(targets@).take(n as int) =~= targets_view(targets@));
    assert(measures@.take(n as int) =~= measures@);
    ops
}

/// Running file and byte counts of a directory measurement.
pub struct DirStats {
    pub files: u64,
    pub bytes: u64,
}

impl DirStats {
    /// Nothing counted yet.
    pub fn new() -> (s: DirStats)
        ensures
            s.files == 0,
            s.bytes == 0,
    {
        DirStats { files: 0, bytes: 0 }
    }

    /// Counts one file, with its size when it could be read.
    pub fn record_file(&mut self, size: Option<u64>)
        requires
            old(self).files < u64::MAX,
            size is Some ==> old(self).bytes + size->0 <= u64::MAX,
        ensures
            final(self).files == old(self).files + 1,
            final(self).bytes == old(self).bytes + match size {
                Some(n) => n as int,
                None => 0int,
            },
    {
        self.files = self.files + 1;
        if let Some(n) = size {
            self.bytes = self.bytes + n;
        }
    }

    /// The measurement of the files counted.
    pub fn measure(&self) -> (m: Measurement)
        ensures
            m == (Measurement::Files { count: self.files, bytes: self.bytes }),
    {
        Measurement::Files { count: self.files, bytes: self.bytes }
    }
}

/// A target with no condition.
pub fn plain(name: &str, path: String, scan: ScanKind, keep: KeepRule) -> (t: ScanTarget)
    ensures
        t@ == plain_target(name@, path@, scan, keep),
{
    ScanTarget { name: String::from_str(name), path, scan, keep, guard: Guard::Always }
}

/// A target measured only when the file-system condition holds.
pub fn guarded(name: &str, path: String, scan: ScanKind, keep: KeepRule, guard: Guard) -> (t: ScanTarget)
    ensures
        t@ == (TargetModel { name: name@, path: path@, scan, keep, guard: guard@ }),
{
    ScanTarget { name: String::from_str(name), path, scan, keep, guard }
}

/// A target whose condition holds is measured by its kind: a tree target
/// counts every file at any depth below its directory (the walk has no
/// depth limit, as the sweep that clears every file of a directory), a top
/// target only the files directly inside, rotated logs two levels down and
/// only rotated names; no directory count is ever limited to rotated names
/// but the rotated-log one. A target whose condition fails is not measured.
pub proof fn law_targets_are_measured_by_kind(t: TargetModel, guard_path_exists: bool)
    ensures
        !guard_holds(t.guard, guard_path_exists) ==> measure_plan_of(t, guard_path_exists) == MeasurePlan::Skip,
        guard_holds(t.guard, guard_path_exists) && t.scan == ScanKind::Tree ==> measure_plan_of(t, guard_path_exists)
            == (MeasurePlan::CountFiles { depth: depth_of(SweepMode::AllFiles), rotated_only: false })
            && depth_of(SweepMode::AllFiles) is None,
        guard_holds(t.guard, guard_path_exists) && t.scan == ScanKind::Top ==> measure_plan_of(t, guard_path_exists)
            == (MeasurePlan::CountFiles { depth: depth_of(SweepMode::TopFiles), rotated_only: false })
            && depth_of(SweepMode::TopFiles) == Some(1usize),
        guard_holds(t.guard, guard_path_exists) && t.scan == ScanKind::RotatedLogs ==> measure_plan_of(
            t,
            guard_path_exists,
        ) == (MeasurePlan::CountFiles { depth: depth_of(SweepMode::OldLogs), rotated_only: true })
            && depth_of(SweepMode::OldLogs) == Some(2usize),
        guard_holds(t.guard, guard_path_exists) && (t.scan == ScanKind::FileSize || t.scan
            == ScanKind::ExistingFileSize) ==> measure_plan_of(t, guard_path_exists) is OneFile,
{
}

} // verus!

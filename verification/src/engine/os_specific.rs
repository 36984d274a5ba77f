//! Platform-specific clean-up: caches, logs and dumps that only one
//! platform has.
use vstd::prelude::*;
use crate::text::opt_view;
use crate::paths::{joined, join_path};
use crate::engine::os::OS;
use crate::engine::sweep::{
    Sweep, SweepModel, SweepMode, MissingRoot, EntryKind, EntryAction, planned_action, depth_of,
    law_file_sweeps_remove_unshielded_files,
};
use crate::engine::exclusions::ExclusionConfig;
use crate::engine::scan::{
    ScanTarget, ScanKind, KeepRule, Guard, GuardModel, TargetModel, plain, guarded, plain_target,
    targets_view,
};

verus! {

/// What a platform-specific clean-up step did.
pub struct OSCleanupResult {
    pub category: String,
    pub cleared: bool,
    pub items_removed: u64,
    pub bytes_freed: u64,
    pub error: Option<String>,
}

/// A platform-specific result as values.
pub struct OsResultModel {
    pub category: Seq<char>,
    pub cleared: bool,
    pub items_removed: u64,
    pub bytes_freed: u64,
    pub error: Option<Seq<char>>,
}

impl View for OSCleanupResult {
    type V = OsResultModel;

    open spec fn view(&self) -> OsResultModel {
        OsResultModel {
            category: self.category@,
            cleared: self.cleared,
            items_removed: self.items_removed,
            bytes_freed: self.bytes_freed,
            error: opt_view(self.error),
        }
    }
}

impl OSCleanupResult {
    /// The error text, if any.
    pub open spec fn error_text(&self) -> Option<Seq<char>> {
        opt_view(self.error)
    }
}

/// A target that is reported when it holds a file or a byte.
pub open spec fn nonempty_target(name: Seq<char>, path: Seq<char>, scan: ScanKind) -> TargetModel {
    plain_target(name, path, scan, KeepRule::NonEmpty)
}

/// The dry-run targets on Windows, given the `USERPROFILE` variable.
pub open spec fn windows_targets(userprofile: Option<Seq<char>>) -> Seq<TargetModel> {
    seq![
        nonempty_target("Windows Temp Files"@, "C:\\Windows\\Temp"@, ScanKind::Top),
        nonempty_target("Prefetch Files"@, "C:\\Windows\\Prefetch"@, ScanKind::Top),
        nonempty_target("Windows Update Cache"@, "C:\\Windows\\SoftwareDistribution\\Download"@, ScanKind::Top),
    ] + (match userprofile {
        Some(u) => seq![
            nonempty_target(
                "Thumbnail Cache"@,
                u + "\\AppData\\Local\\Microsoft\\Windows\\Explorer"@,
                ScanKind::Top,
            ),
        ],
        None => Seq::empty(),
    }) + seq![
        nonempty_target("Crash Dumps"@, "C:\\Windows\\Minidump"@, ScanKind::Top),
        TargetModel {
            name: "Old Windows Installation"@,
            path: "C:\\Windows.old"@,
            scan: ScanKind::Tree,
            keep: KeepRule::NonEmpty,
            guard: GuardModel::IfExists("C:\\Windows.old"@),
        },
        nonempty_target("Windows Error Reporting"@, "C:\\ProgramData\\Microsoft\\Windows\\WER"@, ScanKind::Top),
    ]
}

/// The dry-run targets on macOS, given the home directory. The Homebrew
/// tap is measured where it is installed: under `/opt/homebrew` when that
/// tap exists, otherwise at the Intel location.
pub open spec fn macos_targets(home: Option<Seq<char>>) -> Seq<TargetModel> {
    (match home {
        Some(h) => seq![
            nonempty_target("User Cache"@, joined(h, "Library/Caches"@), ScanKind::Top),
            nonempty_target("System Cache"@, "/Library/Caches"@, ScanKind::Top),
            nonempty_target("Application Logs"@, joined(h, "Library/Logs"@), ScanKind::Top),
            nonempty_target(
                "iOS Backups"@,
                joined(h, "Library/Application Support/MobileSync/Backup"@),
                ScanKind::Top,
            ),
            nonempty_target("Xcode DerivedData"@, joined(h, "Library/Developer/Xcode/DerivedData"@), ScanKind::Top),
            nonempty_target("Adobe Cache"@, joined(h, "Library/Caches/Adobe"@), ScanKind::Top),
            TargetModel {
                name: "Homebrew Cache"@,
                path: "/opt/homebrew/Library/Taps/homebrew/homebrew-core"@,
                scan: ScanKind::Top,
                keep: KeepRule::NonEmpty,
                guard: GuardModel::IfExists("/opt/homebrew/Library/Taps/homebrew/homebrew-core/.git"@),
            },
            TargetModel {
                name: "Homebrew Cache"@,
                path: "/usr/local/Homebrew/Library/Taps/homebrew/homebrew-core"@,
                scan: ScanKind::Top,
                keep: KeepRule::NonEmpty,
                guard: GuardModel::IfMissing("/opt/homebrew/Library/Taps/homebrew/homebrew-core/.git"@),
            },
        ],
        None => Seq::empty(),
    }) + seq![plain_target("Sleep Image"@, "/private/var/vm/sleepimage"@, ScanKind::ExistingFileSize, KeepRule::Always)]
}

/// The dry-run targets on Linux, given the home directory.
pub open spec fn linux_targets(home: Option<Seq<char>>) -> Seq<TargetModel> {
    seq![
        nonempty_target("APT Package Cache"@, "/var/cache/apt/archives"@, ScanKind::Top),
        plain_target("Systemd Journal Logs"@, "/var/log/journal"@, ScanKind::JournalUsage, KeepRule::BytesPositive),
    ] + (match home {
        Some(h) => seq![
            nonempty_target("User Cache (~/.cache)"@, joined(h, ".cache"@), ScanKind::Top),
            nonempty_target("NPM Cache"@, joined(h, ".npm"@), ScanKind::Top),
            nonempty_target("Cargo Cache"@, joined(h, ".cargo"@), ScanKind::Top),
            nonempty_target("Gradle Cache"@, joined(h, ".gradle/caches"@), ScanKind::Top),
        ],
        None => Seq::empty(),
    }) + seq![
        nonempty_target("Core Dumps"@, "/var/lib/systemd/coredump"@, ScanKind::Top),
        nonempty_target("Rotated Log Files"@, "/var/log"@, ScanKind::RotatedLogs),
        plain_target("Flatpak Unused Runtimes"@, "/var/lib/flatpak"@, ScanKind::FlatpakUnused, KeepRule::BytesPositive),
    ]
}

/// The platform-specific dry-run targets.
pub open spec fn os_targets_of(os: OS, home: Option<Seq<char>>, userprofile: Option<Seq<char>>) -> Seq<TargetModel> {
    match os {
        OS::Windows => windows_targets(userprofile),
        OS::MacOS => macos_targets(home),
        OS::Linux => linux_targets(home),
    }
}

/// A target reported when it holds a file or a byte.
fn nonempty(name: &str, path: String, scan: ScanKind) -> (t: ScanTarget)
    ensures
        t@ == nonempty_target(name@, path@, scan),
{
    plain(name, path, scan, KeepRule::NonEmpty)
}

/// The platform-specific dry-run targets, given the home directory and the
/// `USERPROFILE` variable.
pub fn os_scan_targets_for(os: OS, home: &Option<String>, userprofile: &Option<String>) -> (targets: Vec<ScanTarget>)
    ensures
        targets_view(targets@) == os_targets_of(os, opt_view(*home), opt_view(*userprofile)),
{
    let mut t: Vec<ScanTarget> = Vec::new();
    match os {
        OS::Windows => {
            t.push(nonempty("Windows Temp Files", String::from_str("C:\\Windows\\Temp"), ScanKind::Top));
            t.push(nonempty("Prefetch Files", String::from_str("C:\\Windows\\Prefetch"), ScanKind::Top));
            t.push(
                nonempty(
                    "Windows Update Cache",
                    String::from_str("C:\\Windows\\SoftwareDistribution\\Download"),
                    ScanKind::Top,
                ),
            );
            if let Some(u) = userprofile {
                let mut p = u.clone();
                p.append("\\AppData\\Local\\Microsoft\\Windows\\Explorer");
                t.push(nonempty("Thumbnail Cache", p, ScanKind::Top));
            }
            t.push(nonempty("Crash Dumps", String::from_str("C:\\Windows\\Minidump"), ScanKind::Top));
            t.push(
                guarded(
                    "Old Windows Installation",
                    String::from_str("C:\\Windows.old"),
                    ScanKind::Tree,
                    KeepRule::NonEmpty,
                    Guard::IfExists(String::from_str("C:\\Windows.old")),
                ),
            );
            t.push(
                nonempty(
                    "Windows Error Reporting",
                    String::from_str("C:\\ProgramData\\Microsoft\\Windows\\WER"),
                    ScanKind::Top,
                ),
            );
        },
        OS::MacOS => {
            if let Some(h) = home {
                t.push(nonempty("User Cache", join_path(h.as_str(), "Library/Caches"), ScanKind::Top));
                t.push(nonempty("System Cache", String::from_str("/Library/Caches"), ScanKind::Top));
                t.push(nonempty("Application Logs", join_path(h.as_str(), "Library/Logs"), ScanKind::Top));
                t.push(
                    nonempty(
                        "iOS Backups",
                        join_path(h.as_str(), "Library/Application Support/MobileSync/Backup"),
                        ScanKind::Top,
                    ),
                );
                t.push(
                    nonempty(
                        "Xcode DerivedData",
                        join_path(h.as_str(), "Library/Developer/Xcode/DerivedData"),
                        ScanKind::Top,
                    ),
                );
                t.push(nonempty("Adobe Cache", join_path(h.as_str(), "Library/Caches/Adobe"), ScanKind::Top));
                t.push(
                    guarded(
                        "Homebrew Cache",
                        String::from_str("/opt/homebrew/Library/Taps/homebrew/homebrew-core"),
                        ScanKind::Top,
                        KeepRule::NonEmpty,
                        Guard::IfExists(String::from_str("/opt/homebrew/Library/Taps/homebrew/homebrew-core/.git")),
                    ),
                );
                t.push(
                    guarded(
                        "Homebrew Cache",
                        String::from_str("/usr/local/Homebrew/Library/Taps/homebrew/homebrew-core"),
                        ScanKind::Top,
                        KeepRule::NonEmpty,
                        Guard::IfMissing(String::from_str("/opt/homebrew/Library/Taps/homebrew/homebrew-core/.git")),
                    ),
                );
            }
            t.push(
                plain(
                    "Sleep Image",
                    String::from_str("/private/var/vm/sleepimage"),
                    ScanKind::ExistingFileSize,
                    KeepRule::Always,
                ),
            );
        },
        OS::Linux => {
            t.push(nonempty("APT Package Cache", String::from_str("/var/cache/apt/archives"), ScanKind::Top));
            t.push(
                plain(
                    "Systemd Journal Logs",
                    String::from_str("/var/log/journal"),
                    ScanKind::JournalUsage,
                    KeepRule::BytesPositive,
                ),
            );
            if let Some(h) = home {
                t.push(nonempty("User Cache (~/.cache)", join_path(h.as_str(), ".cache"), ScanKind::Top));
                t.push(nonempty("NPM Cache", join_path(h.as_str(), ".npm"), ScanKind::Top));
                t.push(nonempty("Cargo Cache", join_path(h.as_str(), ".cargo"), ScanKind::Top));
                t.push(nonempty("Gradle Cache", join_path(h.as_str(), ".gradle/caches"), ScanKind::Top));
            }
            t.push(nonempty("Core Dumps", String::from_str("/var/lib/systemd/coredump"), ScanKind::Top));
            t.push(nonempty("Rotated Log Files", String::from_str("/var/log"), ScanKind::RotatedLogs));
            t.push(
                plain(
                    "Flatpak Unused Runtimes",
                    String::from_str("/var/lib/flatpak"),
                    ScanKind::FlatpakUnused,
                    KeepRule::BytesPositive,
                ),
            );
        },
    }
    assert(targets_view(t@) =~= os_targets_of(os, opt_view(*home), opt_view(*userprofile)));
    t
}

/// The platform-specific dry-run targets; on macOS and Linux the home
/// directory is asked of `dirs`. `userprofile` is the `USERPROFILE`
/// variable.
pub fn analyze_os_specific(os: &OS, userprofile: &Option<String>) -> (targets: Vec<ScanTarget>)
    ensures
        *os == OS::Windows ==> targets_view(targets@) == os_targets_of(*os, None, opt_view(*userprofile)),
        exists|home: Option<Seq<char>>|
            targets_view(targets@) == #[trigger] os_targets_of(*os, home, opt_view(*userprofile)),
{
    let home = match os {
        OS::Windows => None,
        _ => crate::platform::home_dir(),
    };
    os_scan_targets_for(*os, &home, userprofile)
}

/// The rough estimate of the space held by unused Flatpak runtimes: a
/// hundred bytes per byte of the dry-run listing.
pub fn flatpak_unused_estimate(listing_len: u64) -> (bytes: u64)
    requires
        listing_len * 100 <= u64::MAX,
    ensures
        bytes == listing_len * 100,
{
    listing_len * 100
}

/// A sweep that removes every file at any depth of a directory, sizes
/// counted, and reports "Directory does not exist" when it is missing.
pub open spec fn dir_sweep_of(category: Seq<char>, root: Seq<char>) -> SweepModel {
    SweepModel {
        category,
        roots: seq![root],
        mode: SweepMode::AllFiles,
        count_bytes: true,
        require_dir: true,
        on_missing: MissingRoot::Fail,
        file_failure: "Failed to remove file: "@,
        quote_path: false,
    }
}

/// A sweep that removes the files and directories directly inside a
/// directory, keeping the directory.
pub open spec fn contents_sweep_of(category: Seq<char>, root: Seq<char>) -> SweepModel {
    SweepModel { mode: SweepMode::TopEntries, ..dir_sweep_of(category, root) }
}

/// A sweep that removes old log files at most two levels down.
pub open spec fn old_logs_sweep_of(root: Seq<char>) -> SweepModel {
    SweepModel {
        mode: SweepMode::OldLogs,
        file_failure: "Failed to remove log file: "@,
        ..dir_sweep_of("Old Logs"@, root)
    }
}

/// The sweep of the Windows temporary directories: the system one and the
/// user's, files directly inside each that exists.
pub open spec fn windows_temp_sweep_of(user_temp: Seq<char>) -> SweepModel {
    SweepModel {
        category: "Windows Temp"@,
        roots: seq!["C:\\Windows\\Temp"@, user_temp],
        mode: SweepMode::TopFiles,
        count_bytes: true,
        require_dir: true,
        on_missing: MissingRoot::Skip,
        file_failure: "Failed to remove file: "@,
        quote_path: false,
    }
}

/// A step that cannot run, with the reason.
pub open spec fn unavailable(category: Seq<char>, reason: Seq<char>) -> OsResultModel {
    OsResultModel { category, cleared: false, items_removed: 0, bytes_freed: 0, error: Some(reason) }
}

/// A step that needs the home directory, which is unknown.
pub open spec fn without_home(category: Seq<char>) -> OsResultModel {
    unavailable(category, "Could not determine home directory"@)
}

/// A platform-specific clean-up step: a sweep to run, or a result that is
/// known without touching anything.
pub enum CleanupJob {
    Run(Sweep),
    Settled(OSCleanupResult),
}

/// A clean-up step as values.
pub enum JobModel {
    Run(SweepModel),
    Settled(OsResultModel),
}

impl View for CleanupJob {
    type V = JobModel;

    open spec fn view(&self) -> JobModel {
        match self {
            CleanupJob::Run(s) => JobModel::Run(s@),
            CleanupJob::Settled(r) => JobModel::Settled(r@),
        }
    }
}

/// The steps of a vector, as values.
pub open spec fn jobs_view(v: Seq<CleanupJob>) -> Seq<JobModel> {
    v.map_values(|j: CleanupJob| j@)
}

/// The platform-specific clean-up steps, in order, given the home
/// directory, the `USERPROFILE` variable and the user's temporary
/// directory.
pub open spec fn os_plan_of(
    os: OS,
    home: Option<Seq<char>>,
    userprofile: Option<Seq<char>>,
    user_temp: Seq<char>,
) -> Seq<JobModel> {
    match os {
        OS::Windows => seq![
            JobModel::Run(windows_temp_sweep_of(user_temp)),
            JobModel::Run(dir_sweep_of("Prefetch"@, "C:\\Windows\\Prefetch"@)),
            JobModel::Run(dir_sweep_of("Windows Update Cache"@, "C:\\Windows\\SoftwareDistribution\\Download"@)),
            match userprofile {
                Some(u) => JobModel::Run(
                    dir_sweep_of("Thumbnail Cache"@, u + "\\AppData\\Local\\Microsoft\\Windows\\Explorer"@),
                ),
                None => JobModel::Settled(unavailable("Thumbnail Cache"@, "Could not determine user profile"@)),
            },
            JobModel::Run(dir_sweep_of("Crash Dumps"@, "C:\\Windows\\Minidump"@)),
            JobModel::Run(dir_sweep_of("Windows Error Reporting"@, "C:\\ProgramData\\Microsoft\\Windows\\WER"@)),
        ],
        OS::MacOS => match home {
            Some(h) => seq![
                JobModel::Run(contents_sweep_of("macOS User Cache"@, joined(h, "Library/Caches"@))),
                JobModel::Run(old_logs_sweep_of(joined(h, "Library/Logs"@))),
                JobModel::Run(dir_sweep_of("Xcode DerivedData"@, joined(h, "Library/Developer/Xcode/DerivedData"@))),
                JobModel::Run(dir_sweep_of("Adobe Cache"@, joined(h, "Library/Caches/Adobe"@))),
            ],
            None => seq![
                JobModel::Settled(without_home("macOS User Cache"@)),
                JobModel::Settled(without_home("macOS Logs"@)),
                JobModel::Settled(without_home("Xcode DerivedData"@)),
                JobModel::Settled(without_home("Adobe Cache"@)),
            ],
        },
        OS::Linux => match home {
            Some(h) => seq![
                JobModel::Run(contents_sweep_of("Linux User Cache"@, joined(h, ".cache"@))),
                JobModel::Run(dir_sweep_of("NPM Cache"@, joined(h, ".npm"@))),
                JobModel::Run(dir_sweep_of("Cargo Cache"@, joined(h, ".cargo"@))),
            ],
            None => seq![
                JobModel::Settled(without_home("Linux User Cache"@)),
                JobModel::Settled(without_home("NPM Cache"@)),
                JobModel::Settled(without_home("Cargo Cache"@)),
            ],
        },
    }
}

/// A sweep of one directory in the given mode.
fn one_dir_sweep(category: &str, root: String, mode: SweepMode, file_failure: &str) -> (s: Sweep)
    ensures
        s@ == (SweepModel { mode, file_failure: file_failure@, ..dir_sweep_of(category@, root@) }),
{
    let roots = vec![root];
    let s = Sweep {
        category: String::from_str(category),
        roots,
        mode,
        count_bytes: true,
        require_dir: true,
        on_missing: MissingRoot::Fail,
        file_failure: String::from_str(file_failure),
        quote_path: false,
    };
    assert(s@.roots =~= seq![root@]);
    s
}

/// The sweep that removes every file of a directory (`clear_directory`).
pub fn dir_sweep(category: &str, root: String) -> (s: Sweep)
    ensures
        s@ == dir_sweep_of(category@, root@),
{
    proof {
        reveal_strlit("Failed to remove file: ");
    }
    one_dir_sweep(category, root, SweepMode::AllFiles, "Failed to remove file: ")
}

/// The sweep that removes what a directory holds (`clear_directory_contents`).
pub fn contents_sweep(category: &str, root: String) -> (s: Sweep)
    ensures
        s@ == contents_sweep_of(category@, root@),
{
    one_dir_sweep(category, root, SweepMode::TopEntries, "Failed to remove file: ")
}

/// The sweep that removes old log files (`clear_old_logs`).
pub fn old_logs_sweep(root: String) -> (s: Sweep)
    ensures
        s@ == old_logs_sweep_of(root@),
{
    one_dir_sweep("Old Logs", root, SweepMode::OldLogs, "Failed to remove log file: ")
}

/// The sweep of the Windows temporary directories (`clear_windows_temp`).
pub fn windows_temp_sweep(user_temp: String) -> (s: Sweep)
    ensures
        s@ == windows_temp_sweep_of(user_temp@),
{
    let roots = vec![String::from_str("C:\\Windows\\Temp"), user_temp];
    let s = Sweep {
        category: String::from_str("Windows Temp"),
        roots,
        mode: SweepMode::TopFiles,
        count_bytes: true,
        require_dir: true,
        on_missing: MissingRoot::Skip,
        file_failure: String::from_str("Failed to remove file: "),
        quote_path: false,
    };
    assert(s@.roots =~= seq!["C:\\Windows\\Temp"@, user_temp@]);
    s
}

/// A step that cannot run, with the reason.
pub fn unavailable_result(category: &str, reason: &str) -> (r: OSCleanupResult)
    ensures
        r@ == unavailable(category@, reason@),
{
    OSCleanupResult {
        category: String::from_str(category),
        cleared: false,
        items_removed: 0,
        bytes_freed: 0,
        error: Some(String::from_str(reason)),
    }
}

/// A step that needs the home directory, which is unknown.
fn without_home_result(category: &str) -> (r: OSCleanupResult)
    ensures
        r@ == without_home(category@),
{
    unavailable_result(category, "Could not determine home directory")
}

/// The platform-specific clean-up steps, given the home directory, the
/// `USERPROFILE` variable and the user's temporary directory.
pub fn os_cleanup_plan_for(
    os: OS,
    home: &Option<String>,
    userprofile: &Option<String>,
    user_temp: String,
) -> (jobs: Vec<CleanupJob>)
    ensures
        jobs_view(jobs@) == os_plan_of(os, opt_view(*home), opt_view(*userprofile), user_temp@),
{
    let mut jobs: Vec<CleanupJob> = Vec::new();
    match os {
        OS::Windows => {
            jobs.push(CleanupJob::Run(windows_temp_sweep(user_temp)));
            jobs.push(CleanupJob::Run(dir_sweep("Prefetch", String::from_str("C:\\Windows\\Prefetch"))));
            jobs.push(
                CleanupJob::Run(
                    dir_sweep("Windows Update Cache", String::from_str("C:\\Windows\\SoftwareDistribution\\Download")),
                ),
            );
            match userprofile {
                Some(u) => {
                    let mut p = u.clone();
                    p.append("\\AppData\\Local\\Microsoft\\Windows\\Explorer");
                    jobs.push(CleanupJob::Run(dir_sweep("Thumbnail Cache", p)));
                },
                None => {
                    jobs.push(
                        CleanupJob::Settled(unavailable_result("Thumbnail Cache", "Could not determine user profile")),
                    );
                },
            }
            jobs.push(CleanupJob::Run(dir_sweep("Crash Dumps", String::from_str("C:\\Windows\\Minidump"))));
            jobs.push(
                CleanupJob::Run(
                    dir_sweep("Windows Error Reporting", String::from_str("C:\\ProgramData\\Microsoft\\Windows\\WER")),
                ),
            );
        },
        OS::MacOS => match home {
            Some(h) => {
                jobs.push(CleanupJob::Run(contents_sweep("macOS User Cache", join_path(h.as_str(), "Library/Caches"))));
                jobs.push(CleanupJob::Run(old_logs_sweep(join_path(h.as_str(), "Library/Logs"))));
                jobs.push(
                    CleanupJob::Run(
                        dir_sweep("Xcode DerivedData", join_path(h.as_str(), "Library/Developer/Xcode/DerivedData")),
                    ),
                );
                jobs.push(CleanupJob::Run(dir_sweep("Adobe Cache", join_path(h.as_str(), "Library/Caches/Adobe"))));
            },
            None => {
                jobs.push(CleanupJob::Settled(without_home_result("macOS User Cache")));
                jobs.push(CleanupJob::Settled(without_home_result("macOS Logs")));
                jobs.push(CleanupJob::Settled(without_home_result("Xcode DerivedData")));
                jobs.push(CleanupJob::Settled(without_home_result("Adobe Cache")));
            },
        },
        OS::Linux => match home {
            Some(h) => {
                jobs.push(CleanupJob::Run(contents_sweep("Linux User Cache", join_path(h.as_str(), ".cache"))));
                jobs.push(CleanupJob::Run(dir_sweep("NPM Cache", join_path(h.as_str(), ".npm"))));
                jobs.push(CleanupJob::Run(dir_sweep("Cargo Cache", join_path(h.as_str(), ".cargo"))));
            },
            None => {
                jobs.push(CleanupJob::Settled(without_home_result("Linux User Cache")));
                jobs.push(CleanupJob::Settled(without_home_result("NPM Cache")));
                jobs.push(CleanupJob::Settled(without_home_result("Cargo Cache")));
            },
        },
    }
    assert(jobs_view(jobs@) =~= os_plan_of(os, opt_view(*home), opt_view(*userprofile), user_temp@));
    jobs
}

/// The platform-specific clean-up steps; on macOS and Linux the home
/// directory is asked of `dirs`. `userprofile` is the `USERPROFILE`
/// variable and `user_temp` the user's temporary directory.
pub fn cleanup_os_specific(os: &OS, userprofile: &Option<String>, user_temp: String) -> (jobs: Vec<CleanupJob>)
    ensures
        *os == OS::Windows ==> jobs_view(jobs@) == os_plan_of(*os, None, opt_view(*userprofile), user_temp@),
        exists|home: Option<Seq<char>>|
            jobs_view(jobs@) == #[trigger] os_plan_of(*os, home, opt_view(*userprofile), user_temp@),
{
    let home = match os {
        OS::Windows => None,
        _ => crate::platform::home_dir(),
    };
    os_cleanup_plan_for(*os, &home, userprofile, user_temp)
}

/// Clearing a directory (the NPM, Cargo, Xcode, Adobe, Prefetch, update,
/// crash-dump, error-report and thumbnail caches) walks it without a depth
/// limit and removes every file that the exclusions do not shield, at any
/// depth below it, counting the bytes it frees; so do the Windows
/// temporary directories, one level down.
pub proof fn law_directory_sweeps_reach_every_depth(
    category: Seq<char>,
    root: Seq<char>,
    user_temp: Seq<char>,
    exclusions: ExclusionConfig,
    path: Seq<char>,
    name: Seq<char>,
    depth: int,
    kind: EntryKind,
)
    requires
        !exclusions.shields(path),
        kind == EntryKind::File || kind == EntryKind::LinkToFile,
        depth >= 1,
    ensures
        depth_of(dir_sweep_of(category, root).mode) is None,
        planned_action(dir_sweep_of(category, root), exclusions, path, name, depth, kind) == EntryAction::RemoveFile,
        dir_sweep_of(category, root).count_bytes,
        dir_sweep_of(category, root).roots == seq![root],
        planned_action(windows_temp_sweep_of(user_temp), exclusions, path, name, 1, kind) == EntryAction::RemoveFile,
        depth_of(windows_temp_sweep_of(user_temp).mode) == Some(1usize),
        windows_temp_sweep_of(user_temp).count_bytes,
{
    law_file_sweeps_remove_unshielded_files(dir_sweep_of(category, root), exclusions, path, name, depth, kind);
    law_file_sweeps_remove_unshielded_files(windows_temp_sweep_of(user_temp), exclusions, path, name, 1, kind);
}

/// With a home directory, the package and build caches of macOS (Xcode,
/// Adobe) and Linux (NPM, Cargo) are cleared whole: each is a step that
/// walks its directory in the home directory without a depth limit and
/// removes every unshielded file in it, counting the bytes freed; the
/// Windows caches (Prefetch, update cache, crash dumps, error reports) are
/// cleared the same way.
pub proof fn law_cache_directories_cleared_whole(
    os: OS,
    home: Seq<char>,
    userprofile: Option<Seq<char>>,
    user_temp: Seq<char>,
    i: int,
)
    requires
        (os == OS::MacOS && (i == 2 || i == 3)) || (os == OS::Linux && (i == 1 || i == 2)) || (os == OS::Windows
            && (i == 1 || i == 2 || i == 4 || i == 5)),
    ensures
        os_plan_of(os, Some(home), userprofile, user_temp)[i] matches JobModel::Run(s) && depth_of(s.mode) is None
            && s.count_bytes && s.roots.len() == 1 && (os != OS::Windows ==> home.is_prefix_of(s.roots[0])),
{
    let s = match os_plan_of(os, Some(home), userprofile, user_temp)[i] {
        JobModel::Run(s) => s,
        _ => dir_sweep_of(Seq::empty(), Seq::empty()),
    };
    if os != OS::Windows {
        let r = s.roots[0];
        assert(r.subrange(0, home.len() as int) =~= home);
    }
}

} // verus!

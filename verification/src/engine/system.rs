//! System clean-up: temporary files, the clipboard and shell history.
use vstd::prelude::*;
use crate::text::{opt_view, texts};
use crate::engine::os::{OS, temp_dir_of};
use crate::paths::{joined, join_path};
use crate::engine::sweep::{
    Sweep, SweepModel, SweepMode, MissingRoot, EntryKind, EntryAction, TallyModel, planned_action, run_steps,
    removal_steps, size_sum, law_file_sweeps_remove_unshielded_files, law_counted_removals_add_up, depth_of,
    freed_for,
};
use crate::engine::exclusions::ExclusionConfig;
use crate::engine::network::{ShellCommand, CommandOutcome};
use crate::engine::scan::{ScanTarget, ScanKind, KeepRule, TargetModel, plain, plain_target, targets_view};

verus! {

/// What a system clean-up step did.
pub struct SystemCleanupResult {
    pub category: String,
    pub cleared: bool,
    pub items_removed: u64,
    pub bytes_freed: u64,
    pub error: Option<String>,
}

impl SystemCleanupResult {
    /// The error text, if any.
    pub open spec fn error_text(&self) -> Option<Seq<char>> {
        opt_view(self.error)
    }
}

/// The shell history files of a platform, given the home directory and the
/// `USERPROFILE` variable (empty when unset); on macOS and Linux none when
/// the home directory is unknown.
pub open spec fn history_paths_of(os: OS, home: Option<Seq<char>>, userprofile: Seq<char>) -> Seq<Seq<char>> {
    match os {
        OS::Windows => seq![
            userprofile + "\\AppData\\Roaming\\Microsoft\\Windows\\PowerShell\\PSReadLine\\ConsoleHost_history.txt"@,
        ],
        _ => match home {
            Some(h) => seq![joined(h, ".bash_history"@), joined(h, ".zsh_history"@)],
            None => Seq::empty(),
        },
    }
}

/// The shell history files, given the home directory.
pub fn shell_history_paths_for(os: OS, home: &Option<String>, userprofile: &str) -> (paths: Vec<String>)
    ensures
        texts(paths@) == history_paths_of(os, opt_view(*home), userprofile@),
{
    let paths = match os {
        OS::Windows => {
            let mut p = String::from_str(userprofile);
            p.append("\\AppData\\Roaming\\Microsoft\\Windows\\PowerShell\\PSReadLine\\ConsoleHost_history.txt");
            vec![p]
        },
        _ => match home {
            Some(h) => vec![join_path(h.as_str(), ".bash_history"), join_path(h.as_str(), ".zsh_history")],
            None => Vec::new(),
        },
    };
    assert(texts(paths@) =~= history_paths_of(os, opt_view(*home), userprofile@));
    paths
}

/// The shell history files; on macOS and Linux the home directory is asked
/// of `dirs`.
pub fn get_shell_history_paths(os: &OS, userprofile: &str) -> (paths: Vec<String>)
    ensures
        *os == OS::Windows ==> texts(paths@) == history_paths_of(*os, None, userprofile@),
        exists|home: Option<Seq<char>>| texts(paths@) == #[trigger] history_paths_of(*os, home, userprofile@),
{
    let home = match os {
        OS::Windows => None,
        _ => crate::platform::home_dir(),
    };
    shell_history_paths_for(*os, &home, userprofile)
}

/// The dry-run targets of the system clean-up: the temporary directory
/// (files directly inside it) when there is one, then each shell history
/// file; all reported.
pub open spec fn system_targets_of(temp_dir: Option<Seq<char>>, history: Seq<Seq<char>>) -> Seq<TargetModel> {
    (match temp_dir {
        Some(t) => seq![plain_target("Temp Files"@, t, ScanKind::Top, KeepRule::Always)],
        None => Seq::empty(),
    }) + history.map_values(
        |p: Seq<char>| plain_target("Shell History"@, p, ScanKind::FileSize, KeepRule::Always),
    )
}

/// The dry-run targets of the system clean-up, given the temporary
/// directory and the history files.
pub fn system_scan_targets_for(temp_dir: Option<String>, history: Vec<String>) -> (targets: Vec<ScanTarget>)
    ensures
        targets_view(targets@) == system_targets_of(opt_view(temp_dir), texts(history@)),
{
    let ghost td = opt_view(temp_dir);
    let mut targets: Vec<ScanTarget> = Vec::new();
    if let Some(t) = temp_dir {
        targets.push(plain("Temp Files", t, ScanKind::Top, KeepRule::Always));
    }
    assert(targets_view(targets@) =~= system_targets_of(td, texts(history@.take(0))));
    let n = history.len();
    let mut i: usize = 0;
    while i < n
        invariant
            n == history@.len(),
            i <= n,
            targets_view(targets@) =~= system_targets_of(td, texts(history@.take(i as int))),
        decreases n - i,
    {
        let ghost before = targets_view(targets@);
        let p = history[i].clone();
        targets.push(plain("Shell History", p, ScanKind::FileSize, KeepRule::Always));
        proof {
            assert(texts(history@.take(i + 1)) =~= texts(history@.take(i as int)).push(history@[i as int]@));
            assert(targets_view(targets@) =~= before.push(targets@.last()@));
        }
        i = i + 1;
    }
    assert(history@.take(n as int) =~= history@);
    targets
}

/// The dry-run targets of the system clean-up. `temp_var` is the `TEMP`
/// variable and `userprofile` the `USERPROFILE` variable (empty when unset).
pub fn analyze_system_cleanup(os: &OS, temp_var: Option<String>, userprofile: &str) -> (targets: Vec<ScanTarget>)
    ensures
        exists|cache: Option<Seq<char>>, home: Option<Seq<char>>|
            targets_view(targets@) == #[trigger] system_targets_of(
                temp_dir_of(*os, opt_view(temp_var), cache),
                history_paths_of(*os, home, userprofile@),
            ),
{
    let ghost tv = opt_view(temp_var);
    let temp_dir = os.get_temp_dir(temp_var);
    let history = get_shell_history_paths(os, userprofile);
    let ghost tdv = opt_view(temp_dir);
    let targets = system_scan_targets_for(temp_dir, history);
    proof {
        if *os == OS::Windows {
            assert(temp_dir_of(*os, tv, None) == temp_dir_of(OS::Windows, tv, None));
        } else {
            let c = choose|c: Option<Seq<char>>| tdv == #[trigger] temp_dir_of(*os, None, c);
            assert(temp_dir_of(*os, tv, c) == temp_dir_of(*os, None, c));
        }
    }
    targets
}

/// The sweep of the temporary directory: files directly inside it, sizes
/// counted, reported under "Temp Files"; nothing happens when the directory
/// is missing.
pub open spec fn temp_sweep_of(temp_dir: Seq<char>) -> SweepModel {
    SweepModel {
        category: "Temp Files"@,
        roots: seq![temp_dir],
        mode: SweepMode::TopFiles,
        count_bytes: true,
        require_dir: true,
        on_missing: MissingRoot::Skip,
        file_failure: "Failed to remove temp file: "@,
        quote_path: false,
    }
}

/// A system clean-up step: a sweep to run, or a result known without
/// touching anything.
pub enum SystemJob {
    Run(Sweep),
    Settled(SystemCleanupResult),
}

/// The temporary-files step: the sweep of the temporary directory when
/// there is one; otherwise nothing is removed and the step reports that
/// the user's cache directory is unknown.
pub fn temp_job(temp_dir: Option<String>) -> (job: SystemJob)
    ensures
        match temp_dir {
            Some(t) => job matches SystemJob::Run(s) && s@ == temp_sweep_of(t@),
            None => job matches SystemJob::Settled(r) && r.category@ == "Temp Files"@ && !r.cleared
                && r.items_removed == 0 && r.bytes_freed == 0
                && r.error_text() == Some("Could not determine user cache directory"@),
        },
{
    match temp_dir {
        Some(t) => SystemJob::Run(temp_sweep(t)),
        None => SystemJob::Settled(
            SystemCleanupResult {
                category: String::from_str("Temp Files"),
                cleared: false,
                items_removed: 0,
                bytes_freed: 0,
                error: Some(String::from_str("Could not determine user cache directory")),
            },
        ),
    }
}

/// The sweep of the temporary directory.
pub fn temp_sweep(temp_dir: String) -> (s: Sweep)
    ensures
        s@ == temp_sweep_of(temp_dir@),
{
    let roots = vec![temp_dir];
    let s = Sweep {
        category: String::from_str("Temp Files"),
        roots,
        mode: SweepMode::TopFiles,
        count_bytes: true,
        require_dir: true,
        on_missing: MissingRoot::Skip,
        file_failure: String::from_str("Failed to remove temp file: "),
        quote_path: false,
    };
    assert(s@.roots =~= seq![temp_dir@]);
    s
}

/// The sweep that empties the shell history files that exist, reported
/// under "Shell History", with the quoted path of any file that could not
/// be emptied.
pub open spec fn history_sweep_of(history: Seq<Seq<char>>) -> SweepModel {
    SweepModel {
        category: "Shell History"@,
        roots: history,
        mode: SweepMode::EmptyFiles,
        count_bytes: false,
        require_dir: false,
        on_missing: MissingRoot::Skip,
        file_failure: "Failed to clear history file: "@,
        quote_path: true,
    }
}

/// The sweep that empties the shell history files.
pub fn history_sweep(history: Vec<String>) -> (s: Sweep)
    ensures
        s@ == history_sweep_of(texts(history@)),
{
    Sweep {
        category: String::from_str("Shell History"),
        roots: history,
        mode: SweepMode::EmptyFiles,
        count_bytes: false,
        require_dir: false,
        on_missing: MissingRoot::Skip,
        file_failure: String::from_str("Failed to clear history file: "),
        quote_path: true,
    }
}

/// The command that empties the clipboard: `clip` fed nothing on
/// Windows, `pbcopy` fed nothing on macOS, `xclip` reading `/dev/null` on
/// Linux. The command runs with no input.
pub open spec fn clipboard_clear_command_of(os: OS) -> (Seq<char>, Seq<Seq<char>>) {
    match os {
        OS::Windows => ("cmd"@, seq!["/C"@, "echo off | clip"@]),
        OS::MacOS => ("pbcopy"@, Seq::empty()),
        OS::Linux => ("xclip"@, seq!["-selection"@, "clipboard"@, "-i"@, "/dev/null"@]),
    }
}

/// The command that empties the clipboard on this platform.
pub fn clipboard_clear_command(os: &OS) -> (cmd: ShellCommand)
    ensures
        (cmd.program@, texts(cmd.args@)) == clipboard_clear_command_of(*os),
{
    match os {
        OS::Windows => {
            let args = vec![String::from_str("/C"), String::from_str("echo off | clip")];
            assert(texts(args@) =~= seq!["/C"@, "echo off | clip"@]);
            ShellCommand { program: String::from_str("cmd"), args }
        },
        OS::MacOS => {
            let args: Vec<String> = Vec::new();
            assert(texts(args@) =~= Seq::<Seq<char>>::empty());
            ShellCommand { program: String::from_str("pbcopy"), args }
        },
        OS::Linux => {
            let args = vec![
                String::from_str("-selection"),
                String::from_str("clipboard"),
                String::from_str("-i"),
                String::from_str("/dev/null"),
            ];
            assert(texts(args@) =~= seq!["-selection"@, "clipboard"@, "-i"@, "/dev/null"@]);
            ShellCommand { program: String::from_str("xclip"), args }
        },
    }
}

/// Why emptying the clipboard failed, given how its command went (`None`
/// when it succeeded): the command's error output, or why it could not
/// start.
pub open spec fn clipboard_failure(outcome: CommandOutcome) -> Option<Seq<char>> {
    match outcome {
        CommandOutcome::Ran { success, stderr } => if success {
            None
        } else {
            Some(stderr@)
        },
        CommandOutcome::NotStarted(e) => Some(e@),
    }
}

/// The clipboard step, given how the command that empties it went: one
/// item cleared when it succeeded; otherwise nothing cleared, and the
/// failure reported.
pub fn clear_clipboard(outcome: &CommandOutcome) -> (r: SystemCleanupResult)
    ensures
        r.category@ == "Clipboard"@,
        r.bytes_freed == 0,
        r.cleared == (clipboard_failure(*outcome) is None),
        r.items_removed == (if clipboard_failure(*outcome) is None { 1u64 } else { 0u64 }),
        r.error_text() == match clipboard_failure(*outcome) {
            None => None,
            Some(detail) => Some("Failed to clear clipboard: "@ + detail),
        },
{
    let failure: Option<&String> = match outcome {
        CommandOutcome::Ran { success, stderr } => if *success {
            None
        } else {
            Some(stderr)
        },
        CommandOutcome::NotStarted(e) => Some(e),
    };
    match failure {
        None => SystemCleanupResult {
            category: String::from_str("Clipboard"),
            cleared: true,
            items_removed: 1,
            bytes_freed: 0,
            error: None,
        },
        Some(detail) => {
            let mut m = String::from_str("Failed to clear clipboard: ");
            m.append(detail.as_str());
            SystemCleanupResult {
                category: String::from_str("Clipboard"),
                cleared: false,
                items_removed: 0,
                bytes_freed: 0,
                error: Some(m),
            }
        },
    }
}

/// The results of the system clean-up, in order: the temporary files, the
/// clipboard and the shell history, each from its own step.
pub fn cleanup_system(
    temp: SystemCleanupResult,
    clipboard: SystemCleanupResult,
    history: SystemCleanupResult,
) -> (r: Vec<SystemCleanupResult>)
    ensures
        r@ == seq![temp, clipboard, history],
{
    let r = vec![temp, clipboard, history];
    assert(r@ =~= seq![temp, clipboard, history]);
    r
}

/// The temporary-files sweep removes every file met directly inside the
/// temporary directory that the exclusions do not shield, and counts what
/// it frees: after any run of removals of files of the sizes `sizes`, the
/// freed bytes have grown by their sum and the removed items by their
/// number.
pub proof fn law_temp_sweep_removes_and_counts(
    temp_dir: Seq<char>,
    exclusions: ExclusionConfig,
    path: Seq<char>,
    name: Seq<char>,
    kind: EntryKind,
    t: TallyModel,
    sizes: Seq<u64>,
)
    requires
        !exclusions.shields(path),
        kind == EntryKind::File || kind == EntryKind::LinkToFile,
    ensures
        temp_sweep_of(temp_dir).roots == seq![temp_dir],
        depth_of(temp_sweep_of(temp_dir).mode) == Some(1usize),
        planned_action(temp_sweep_of(temp_dir), exclusions, path, name, 1, kind) == EntryAction::RemoveFile,
        run_steps(t, removal_steps(temp_sweep_of(temp_dir), sizes)).bytes == t.bytes + size_sum(sizes),
        run_steps(t, removal_steps(temp_sweep_of(temp_dir), sizes)).items == t.items + sizes.len(),
{
    law_file_sweeps_remove_unshielded_files(temp_sweep_of(temp_dir), exclusions, path, name, 1, kind);
    law_counted_removals_add_up(temp_sweep_of(temp_dir), t, sizes);
}

/// The shell-history sweep empties, and never removes, every history file
/// that is there and not shielded, frees no bytes by it, and names the file
/// in the message when one cannot be emptied.
pub proof fn law_history_sweep_empties_files(
    history: Seq<Seq<char>>,
    exclusions: ExclusionConfig,
    path: Seq<char>,
    name: Seq<char>,
    kind: EntryKind,
    size: Option<u64>,
)
    requires
        !exclusions.shields(path),
        kind != EntryKind::Missing,
    ensures
        history_sweep_of(history).roots == history,
        planned_action(history_sweep_of(history), exclusions, path, name, 0, kind) == EntryAction::EmptyFile,
        freed_for(history_sweep_of(history), EntryAction::EmptyFile, size) is None,
        history_sweep_of(history).quote_path,
{
}

} // verus!

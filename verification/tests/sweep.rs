use cleanslate_qa::engine::exclusions::ExclusionConfig;
use cleanslate_qa::engine::sweep::{
    CleanupTally, EntryAction, EntryKind, MissingRoot, RootAction, Sweep, SweepMode, WalkEntry,
};

fn sweep(mode: SweepMode, on_missing: MissingRoot, require_dir: bool, count_bytes: bool) -> Sweep {
    Sweep {
        category: "Test".to_string(),
        roots: vec!["/r".to_string()],
        mode,
        count_bytes,
        require_dir,
        on_missing,
        file_failure: "Failed to remove file: ".to_string(),
        quote_path: false,
    }
}

fn entry(path: &str, name: &str, depth: usize, kind: EntryKind) -> WalkEntry {
    WalkEntry { path: path.to_string(), name: name.to_string(), depth, kind }
}

#[test]
fn excluded_entries_are_skipped_in_every_mode() {
    let cfg = ExclusionConfig::default();
    for mode in [SweepMode::AllFiles, SweepMode::TopFiles, SweepMode::TopEntries, SweepMode::OldLogs, SweepMode::EmptyFiles] {
        let s = sweep(mode, MissingRoot::Skip, true, true);
        let e = entry("/r/app.log", "app.log", 1, EntryKind::File);
        assert_eq!(s.plan_entry(&cfg, &e), EntryAction::Skip);
    }
}

#[test]
fn plans_by_mode() {
    let cfg = ExclusionConfig::default();
    let all = sweep(SweepMode::AllFiles, MissingRoot::Fail, true, true);
    assert_eq!(all.plan_entry(&cfg, &entry("/r/a/b.bin", "b.bin", 2, EntryKind::File)), EntryAction::RemoveFile);
    assert_eq!(all.plan_entry(&cfg, &entry("/r/a", "a", 1, EntryKind::Directory)), EntryAction::Skip);
    let contents = sweep(SweepMode::TopEntries, MissingRoot::Fail, true, true);
    assert_eq!(contents.plan_entry(&cfg, &entry("/r", "r", 0, EntryKind::Directory)), EntryAction::Skip);
    assert_eq!(contents.plan_entry(&cfg, &entry("/r/a", "a", 1, EntryKind::Directory)), EntryAction::RemoveDirectory);
    assert_eq!(contents.plan_entry(&cfg, &entry("/r/f", "f", 1, EntryKind::File)), EntryAction::RemoveFile);
    assert_eq!(contents.plan_entry(&cfg, &entry("/r/l", "l", 1, EntryKind::Other)), EntryAction::Skip);
    assert_eq!(contents.plan_entry(&cfg, &entry("/r/a/x", "x", 2, EntryKind::File)), EntryAction::RemoveNestedFile);
    assert_eq!(contents.plan_entry(&cfg, &entry("/r/a/d", "d", 2, EntryKind::Directory)), EntryAction::RemoveNestedDirectory);
    assert_eq!(contents.plan_entry(&cfg, &entry("/r/ln", "ln", 1, EntryKind::LinkToDirectory)), EntryAction::RemoveFile);
    assert_eq!(contents.plan_entry(&cfg, &entry("/r/a/ln", "ln", 2, EntryKind::LinkToFile)), EntryAction::RemoveNestedFile);
    assert_eq!(all.plan_entry(&cfg, &entry("/r/ln", "ln", 1, EntryKind::LinkToFile)), EntryAction::RemoveFile);
    assert_eq!(all.plan_entry(&cfg, &entry("/r/ln", "ln", 1, EntryKind::LinkToDirectory)), EntryAction::Skip);
    assert!(contents.walk_contents_first());
    assert_eq!(contents.walk_depth(), None);
    assert!(!all.walk_contents_first());
    let logs = sweep(SweepMode::OldLogs, MissingRoot::Fail, true, true);
    let no_patterns = ExclusionConfig { excluded_paths: vec![], ignore_patterns: vec![] };
    assert_eq!(logs.plan_entry(&no_patterns, &entry("/r/x/a.log", "a.log", 2, EntryKind::File)), EntryAction::Skip);
    assert_eq!(logs.plan_entry(&no_patterns, &entry("/r/a.gz", "a.gz", 1, EntryKind::File)), EntryAction::RemoveFile);
    assert_eq!(logs.plan_entry(&no_patterns, &entry("/r/a.txt", "a.txt", 1, EntryKind::File)), EntryAction::Skip);
    let empty = sweep(SweepMode::EmptyFiles, MissingRoot::Skip, false, false);
    assert_eq!(empty.plan_entry(&cfg, &entry("/h/.bash_history", ".bash_history", 0, EntryKind::File)), EntryAction::EmptyFile);
    assert_eq!(empty.plan_entry(&cfg, &entry("/h/.zsh_history", ".zsh_history", 0, EntryKind::Missing)), EntryAction::Skip);
}

#[test]
fn nothing_at_or_below_an_excluded_path_is_touched() {
    let mut cfg = ExclusionConfig { excluded_paths: vec![], ignore_patterns: vec![] };
    cfg.add_exclusion("/h/.npm/keep".to_string());
    let all = sweep(SweepMode::AllFiles, MissingRoot::Fail, true, true);
    assert_eq!(all.plan_entry(&cfg, &entry("/h/.npm/keep/x", "x", 2, EntryKind::File)), EntryAction::Skip);
    assert_eq!(all.plan_entry(&cfg, &entry("/h/.npm/keep/a/b/c", "c", 4, EntryKind::File)), EntryAction::Skip);
    assert_eq!(all.plan_entry(&cfg, &entry("/h/.npm/keeper", "keeper", 1, EntryKind::File)), EntryAction::RemoveFile);
    let contents = sweep(SweepMode::TopEntries, MissingRoot::Fail, true, true);
    assert_eq!(contents.plan_entry(&cfg, &entry("/h/.npm/keep", "keep", 1, EntryKind::Directory)), EntryAction::Skip);
    assert_eq!(contents.plan_entry(&cfg, &entry("/h/.npm/keep/y", "y", 2, EntryKind::File)), EntryAction::Skip);
    assert!(cfg.is_shielded("/h/.npm/keep"));
    assert!(cfg.is_shielded("/h/.npm/keep/y"));
    assert!(!cfg.is_shielded("/h/.npm"));
    assert!(!cfg.is_shielded("/h/.npm/keeper"));
    let mut win = ExclusionConfig { excluded_paths: vec![], ignore_patterns: vec![] };
    win.add_exclusion("C:\\U\\keep".to_string());
    assert!(win.is_shielded("C:\\U\\keep\\f.txt"));
    let defaults = ExclusionConfig::default();
    assert!(defaults.is_shielded("/r/repo.git"));
    assert!(!defaults.is_shielded("/r/repo.git/config"));
    assert!(!defaults.is_shielded("/r/repo/config"));
}

#[test]
fn failure_details() {
    let mut s = sweep(SweepMode::EmptyFiles, MissingRoot::Skip, false, false);
    s.quote_path = true;
    assert_eq!(s.failure_detail("/h/.bash_history", "denied".to_string()), "\"/h/.bash_history\"");
    assert_eq!(s.failure_detail("/h/a\"b\\c\n", "x".to_string()), format!("{:?}", std::path::Path::new("/h/a\"b\\c\n")));
    assert_eq!(s.failure_detail("/h/\u{1b}x", "x".to_string()), format!("{:?}", "/h/\u{1b}x"));
    assert_eq!(s.failure_detail("/h/été", "x".to_string()), format!("{:?}", "/h/été"));
    let mut t = CleanupTally::new();
    s.settle(&mut t, EntryAction::EmptyFile, None, "/h/.zsh_history", Err("denied".to_string()));
    assert_eq!(t.error.as_deref(), Some("Failed to remove file: \"/h/.zsh_history\""));
    s.quote_path = false;
    assert_eq!(s.failure_detail("/h/x", "denied".to_string()), "denied");
}

#[test]
fn root_actions() {
    let skip = sweep(SweepMode::TopFiles, MissingRoot::Skip, true, true);
    assert_eq!(skip.root_action(true, true), RootAction::Walk);
    assert_eq!(skip.root_action(true, false), RootAction::Skip);
    assert_eq!(skip.root_action(false, false), RootAction::Skip);
    let fail = sweep(SweepMode::AllFiles, MissingRoot::Fail, true, true);
    assert_eq!(fail.root_action(false, false), RootAction::Abort);
    let exists_only = sweep(SweepMode::AllFiles, MissingRoot::Skip, false, false);
    assert_eq!(exists_only.root_action(true, false), RootAction::Walk);
    let empty = sweep(SweepMode::EmptyFiles, MissingRoot::Skip, false, false);
    assert_eq!(empty.root_action(false, false), RootAction::Walk);
    assert_eq!(skip.walk_depth(), Some(1));
    assert_eq!(fail.walk_depth(), None);
    assert_eq!(sweep(SweepMode::OldLogs, MissingRoot::Fail, true, true).walk_depth(), Some(2));
    assert_eq!(empty.walk_depth(), Some(0));
}

#[test]
fn tally_counts_successes_bytes_and_last_failure() {
    let s = sweep(SweepMode::TopEntries, MissingRoot::Fail, true, true);
    let mut t = CleanupTally::new();
    s.settle(&mut t, EntryAction::RemoveFile, Some(100), "/r/x", Ok(()));
    s.settle(&mut t, EntryAction::RemoveFile, Some(50), "/r/x", Err("permission denied".to_string()));
    s.settle(&mut t, EntryAction::RemoveDirectory, Some(999), "/r/x", Err("busy".to_string()));
    s.settle(&mut t, EntryAction::RemoveFile, None, "/r/x", Ok(()));
    s.settle(&mut t, EntryAction::RemoveNestedFile, Some(7), "/r/x", Ok(()));
    s.settle(&mut t, EntryAction::RemoveNestedDirectory, None, "/r/x", Err("nested".to_string()));
    assert_eq!(t.items_removed, 2);
    assert_eq!(t.bytes_freed, 150);
    assert_eq!(t.error.as_deref(), Some("Failed to remove directory: busy"));
    let r = s.os_result(&t);
    assert_eq!(r.category, "Test");
    assert!(r.cleared);
    assert_eq!(r.items_removed, 2);
    assert_eq!(r.bytes_freed, 150);
}

#[test]
fn uncounted_sweep_frees_no_bytes_and_reports_not_cleared() {
    let s = sweep(SweepMode::AllFiles, MissingRoot::Skip, false, false);
    let mut t = CleanupTally::new();
    s.settle(&mut t, EntryAction::RemoveFile, Some(100), "/r/x", Err("\"/r/x\"".to_string()));
    assert_eq!(t.bytes_freed, 0);
    assert_eq!(t.items_removed, 0);
    assert_eq!(t.error.as_deref(), Some("Failed to remove file: \"/r/x\""));
    let sys = s.system_result(&t);
    assert!(!sys.cleared);
}

#[test]
fn missing_root_result_says_so() {
    let s = sweep(SweepMode::AllFiles, MissingRoot::Fail, true, true);
    let r = s.missing_root_result();
    assert_eq!(r.category, "Test");
    assert!(!r.cleared);
    assert_eq!(r.error.as_deref(), Some("Directory does not exist"));
}

#[test]
fn old_logs_sweep_keeps_active_logs() {
    let logs = sweep(SweepMode::OldLogs, MissingRoot::Fail, true, true);
    let none = ExclusionConfig { excluded_paths: vec![], ignore_patterns: vec![] };
    assert_eq!(logs.plan_entry(&none, &entry("/l/app.log", "app.log", 1, EntryKind::File)), EntryAction::Skip);
    assert_eq!(logs.plan_entry(&none, &entry("/l/app.log.1", "app.log.1", 1, EntryKind::File)), EntryAction::RemoveFile);
    assert_eq!(logs.plan_entry(&none, &entry("/l/x/a.old", "a.old", 2, EntryKind::File)), EntryAction::RemoveFile);
    assert_eq!(logs.plan_entry(&none, &entry("/l/a.gz", "a.gz", 1, EntryKind::File)), EntryAction::RemoveFile);
}

use cleanslate_qa::engine::exclusions::ExclusionConfig;

fn names(cfg: &ExclusionConfig) -> Vec<String> {
    cfg.excluded_paths.clone()
}

#[test]
fn default_patterns_are_the_four_documented_ones() {
    let cfg = ExclusionConfig::default();
    assert!(cfg.excluded_paths.is_empty());
    assert_eq!(cfg.ignore_patterns, vec!["*.git", "node_modules", ".env", "*.log"]);
}

#[test]
fn default_excludes_node_modules_env_git_and_logs() {
    let cfg = ExclusionConfig::default();
    assert!(cfg.is_excluded("/home/a/project/node_modules/left-pad/index.js"));
    assert!(cfg.is_excluded("/home/a/project/.env"));
    assert!(cfg.is_excluded("/home/a/project/.env.local"));
    assert!(cfg.is_excluded("/srv/repo.git"));
    assert!(cfg.is_excluded("/var/log/app.log"));
    assert!(!cfg.is_excluded("/tmp/report.txt"));
    assert!(!cfg.is_excluded("/srv/repo.git/config"));
    assert!(!cfg.is_excluded("/var/log/app.log.1"));
}

#[test]
fn added_path_is_excluded_and_removed_path_is_not() {
    let mut cfg = ExclusionConfig::default();
    assert!(!cfg.is_excluded("/tmp/keep-me"));
    cfg.add_exclusion("/tmp/keep-me".to_string());
    assert!(cfg.is_excluded("/tmp/keep-me"));
    assert!(!cfg.is_excluded("/tmp/keep-me-not"));
    cfg.remove_exclusion("/tmp/keep-me");
    assert!(!cfg.is_excluded("/tmp/keep-me"));
    assert!(names(&cfg).is_empty());
}

#[test]
fn adding_twice_stores_once() {
    let mut cfg = ExclusionConfig::default();
    cfg.add_exclusion("/a".to_string());
    cfg.add_exclusion("/b".to_string());
    cfg.add_exclusion("/a".to_string());
    assert_eq!(names(&cfg), vec!["/a", "/b"]);
}

#[test]
fn removing_absent_path_changes_nothing() {
    let mut cfg = ExclusionConfig::default();
    cfg.add_exclusion("/a".to_string());
    cfg.remove_exclusion("/zzz");
    assert_eq!(names(&cfg), vec!["/a"]);
    assert_eq!(cfg.ignore_patterns.len(), 4);
}

#[test]
fn removed_path_still_excluded_by_pattern() {
    let mut cfg = ExclusionConfig::default();
    cfg.add_exclusion("/x/debug.log".to_string());
    cfg.remove_exclusion("/x/debug.log");
    assert!(cfg.is_excluded("/x/debug.log"));
}

#[test]
fn remove_undoes_add_keeping_order() {
    let mut cfg = ExclusionConfig::default();
    cfg.add_exclusion("/one".to_string());
    cfg.add_exclusion("/two".to_string());
    cfg.add_exclusion("/three".to_string());
    cfg.remove_exclusion("/two");
    assert_eq!(names(&cfg), vec!["/one", "/three"]);
}

#[test]
fn pattern_kinds() {
    let cfg = ExclusionConfig::default();
    assert!(cfg.matches_pattern("anything at all", "*"));
    assert!(cfg.matches_pattern("", "*"));
    assert!(cfg.matches_pattern("/cache/tmpfile", "tmp*"));
    assert!(!cfg.matches_pattern("/cache/file", "tmp*"));
    assert!(cfg.matches_pattern("a.git", "*.git"));
    assert!(!cfg.matches_pattern("git", "*.git"));
    assert!(cfg.matches_pattern("name.", "*."));
    assert!(cfg.matches_pattern("abc", ""));
    assert!(cfg.matches_pattern("/home/ümlaut/x", "ümlaut"));
    assert!(!cfg.matches_pattern("short", "much longer pattern"));
}

use cleanslate_qa::engine::browser::{analyze_browser_cache, get_chrome_cache_paths, get_edge_cache_paths, get_firefox_cache_paths};
use cleanslate_qa::engine::os::OS;
use cleanslate_qa::engine::os_specific::{analyze_os_specific, cleanup_os_specific, CleanupJob};
use cleanslate_qa::engine::system::{analyze_system_cleanup, get_shell_history_paths};
use cleanslate_qa::engine::validator::cache_check_paths;

fn in_home(p: &str, rel: &str) -> bool {
    p != "/tmp" && (p.ends_with(&format!("/{}", rel)) || p == rel)
}

#[test]
fn unix_paths_come_from_the_home_directory() {
    let c = get_chrome_cache_paths(&OS::Linux, "");
    assert!(c.len() <= 1);
    assert!(c.iter().all(|p| in_home(p, ".cache/google-chrome/Default/Cache")));
    let f = get_firefox_cache_paths(&OS::MacOS, "");
    assert!(f.iter().all(|p| in_home(p, "Library/Caches/Firefox/Profiles/*.default-release/cache2")));
    let e = get_edge_cache_paths(&OS::Windows, "C:\\U");
    assert_eq!(e, vec!["C:\\U\\AppData\\Local\\Microsoft\\Edge\\User Data\\Default\\Cache"]);
    let h = get_shell_history_paths(&OS::Linux, "");
    assert!(h.is_empty() || h.len() == 2);
    if h.len() == 2 {
        assert!(in_home(&h[0], ".bash_history"));
        assert!(in_home(&h[1], ".zsh_history"));
    }
    let checks = cache_check_paths(OS::Linux);
    assert!(checks[0].ends_with("/.cache/google-chrome/Default/Cache"));
}

#[test]
fn environment_dependent_analyses_have_fixed_shapes() {
    let b = analyze_browser_cache(&OS::Linux, "");
    let names: Vec<&str> = b.iter().map(|t| t.name.as_str()).collect();
    assert!(names == vec!["Chrome Cache", "Firefox Cache", "Edge Cache"] || names.is_empty());
    let s = analyze_system_cleanup(&OS::Windows, Some("C:\\Temp2".to_string()), "C:\\U");
    assert_eq!(s.len(), 2);
    assert_eq!(s[0].path, "C:\\Temp2");
    let o = analyze_os_specific(&OS::Windows, &None);
    assert_eq!(o.len(), 6);
    let linux = analyze_os_specific(&OS::Linux, &None);
    assert!(linux.len() == 9 || linux.len() == 5);
    assert_eq!(linux[0].name, "APT Package Cache");
}

#[test]
fn environment_dependent_plans_have_fixed_shapes() {
    let jobs = cleanup_os_specific(&OS::Linux, &None, "/tmp".to_string());
    assert_eq!(jobs.len(), 3);
    let first = match &jobs[0] {
        CleanupJob::Run(s) => s.category.clone(),
        CleanupJob::Settled(r) => r.category.clone(),
    };
    assert_eq!(first, "Linux User Cache");
    let win = cleanup_os_specific(&OS::Windows, &Some("C:\\U".to_string()), "C:\\T".to_string());
    assert_eq!(win.len(), 6);
}

use cleanslate_qa::engine::browser::clear_browser_cache;
use cleanslate_qa::engine::network::{cleanup_network, flush_dns, reset_hosts_file};
use cleanslate_qa::engine::system::{cleanup_system, SystemCleanupResult};
use cleanslate_qa::engine::browser::{
    browser_result, cache_paths_for, chromium_plan_for, firefox_plan, release_profiles, Browser, BrowserCleanupResult,
};
use cleanslate_qa::engine::network::CommandOutcome;
use cleanslate_qa::engine::sweep::CleanupTally;
use cleanslate_qa::engine::exclusions::ExclusionConfig;
use cleanslate_qa::engine::os::OS;
use cleanslate_qa::engine::os_specific::{os_cleanup_plan_for, CleanupJob};
use cleanslate_qa::engine::sweep::{MissingRoot, SweepMode};
use cleanslate_qa::engine::system::{
    clear_clipboard, clipboard_clear_command, history_sweep, shell_history_paths_for, temp_job, temp_sweep, SystemJob,
};

#[test]
fn browser_cache_paths() {
    assert_eq!(
        cache_paths_for(Browser::Chrome, OS::MacOS, &Some("/Users/a".to_string()), ""),
        vec!["/Users/a/Library/Caches/Google/Chrome/Default/Cache"]
    );
    assert_eq!(
        cache_paths_for(Browser::Edge, OS::Windows, &None, "C:\\Users\\b"),
        vec!["C:\\Users\\b\\AppData\\Local\\Microsoft\\Edge\\User Data\\Default\\Cache"]
    );
    assert!(cache_paths_for(Browser::Firefox, OS::Linux, &None, "").is_empty());
    assert_eq!(
        cache_paths_for(Browser::Firefox, OS::Windows, &None, ""),
        vec!["\\AppData\\Local\\Mozilla\\Firefox\\Profiles\\*.default-release\\cache2"]
    );
}

#[test]
fn chromium_plans() {
    let p = chromium_plan_for(Browser::Chrome, OS::Windows, &None, "C:\\Users\\a");
    assert_eq!(p.cache.category, "Chrome");
    assert_eq!(p.cache.roots, vec!["C:\\Users\\a\\AppData\\Local\\Google\\Chrome\\User Data\\Default\\Cache"]);
    assert_eq!(p.cache.mode, SweepMode::AllFiles);
    assert!(!p.cache.count_bytes && !p.cache.require_dir && p.cache.quote_path);
    assert_eq!(
        p.cookies.roots,
        vec![
            "C:\\Users\\a\\AppData\\Local\\Google\\Chrome\\User Data\\Default\\Cookies",
            "C:\\Users\\a\\AppData\\Local\\Google\\Chrome\\User Data\\Default\\Network\\Cookies"
        ]
    );
    assert_eq!(p.storage.roots, vec!["C:\\Users\\a\\AppData\\Local\\Google\\Chrome\\User Data\\Default\\Local Storage"]);
    let e = chromium_plan_for(Browser::Edge, OS::Linux, &Some("/home/a".to_string()), "");
    assert_eq!(e.cache.category, "Edge");
    assert_eq!(e.cookies.roots, vec!["/home/a/.config/microsoft-edge/Default/Cookies", "/home/a/.config/microsoft-edge/Default/Network/Cookies"]);
    assert_eq!(e.storage.roots, vec!["/home/a/.config/microsoft-edge/Default/Local Storage"]);
    let no_home = chromium_plan_for(Browser::Chrome, OS::MacOS, &None, "");
    assert!(no_home.cache.roots.is_empty() && no_home.cookies.roots.is_empty() && no_home.storage.roots.is_empty());
    let linux_no_home = chromium_plan_for(Browser::Chrome, OS::Linux, &None, "");
    assert!(linux_no_home.cache.roots.is_empty());
    assert!(shell_history_paths_for(OS::Linux, &None, "").is_empty());
}

#[test]
fn firefox_plan_from_profiles() {
    let names = vec!["abc.default-release".to_string(), "xyz.default".to_string(), "profiles.ini".to_string()];
    let profiles = release_profiles(OS::Linux, "/home/a/.mozilla/firefox", &names);
    assert_eq!(profiles, vec!["/home/a/.mozilla/firefox/abc.default-release"]);
    let caches = release_profiles(OS::Linux, "/home/a/.cache/mozilla/firefox", &names);
    let p = firefox_plan(OS::Linux, &caches, &profiles);
    assert_eq!(p.cache.roots, vec!["/home/a/.cache/mozilla/firefox/abc.default-release/cache2"]);
    assert_eq!(p.cookies.roots, vec!["/home/a/.mozilla/firefox/abc.default-release/cookies.sqlite"]);
    assert_eq!(
        p.storage.roots,
        vec!["/home/a/.mozilla/firefox/abc.default-release/webappsstore.sqlite", "/home/a/.mozilla/firefox/abc.default-release/storage"]
    );
    assert_eq!(p.cache.category, "Firefox");
    let win = release_profiles(OS::Windows, "C:\\P", &names);
    assert_eq!(win, vec!["C:\\P\\abc.default-release"]);
}

#[test]
fn browser_results_from_tallies() {
    let cache = CleanupTally { items_removed: 3, bytes_freed: 0, error: Some("Failed to remove file: \"/a\"".to_string()) };
    let cookies = CleanupTally { items_removed: 1, bytes_freed: 0, error: None };
    let storage = CleanupTally { items_removed: 0, bytes_freed: 0, error: None };
    let r = browser_result("Firefox", &cache, &cookies, &storage);
    assert_eq!(r.browser, "Firefox");
    assert!(r.cache_cleared && r.cookies_cleared && !r.local_storage_cleared);
    assert_eq!(r.items_removed, 4);
    assert_eq!(r.error.as_deref(), Some("Failed to remove file: \"/a\""));
    let later = CleanupTally { items_removed: 0, bytes_freed: 0, error: Some("later".to_string()) };
    assert_eq!(browser_result("Edge", &cache, &cookies, &later).error.as_deref(), Some("later"));
}

#[test]
fn system_sweeps_and_clipboard() {
    match temp_job(None) {
        SystemJob::Settled(r) => {
            assert_eq!(r.category, "Temp Files");
            assert!(!r.cleared);
            assert_eq!(r.error.as_deref(), Some("Could not determine user cache directory"));
        }
        SystemJob::Run(_) => panic!("without a cache directory nothing is swept"),
    }
    assert!(matches!(temp_job(Some("/c/temp".to_string())), SystemJob::Run(s) if s.roots == vec!["/c/temp"]));
    let t = temp_sweep("/home/a/.cache/temp".to_string());
    assert_eq!(t.category, "Temp Files");
    assert_eq!(t.mode, SweepMode::TopFiles);
    assert_eq!(t.file_failure, "Failed to remove temp file: ");
    let paths = shell_history_paths_for(OS::Linux, &Some("/home/a".to_string()), "");
    assert_eq!(paths, vec!["/home/a/.bash_history", "/home/a/.zsh_history"]);
    let win = shell_history_paths_for(OS::Windows, &None, "C:\\U");
    assert_eq!(win, vec!["C:\\U\\AppData\\Roaming\\Microsoft\\Windows\\PowerShell\\PSReadLine\\ConsoleHost_history.txt"]);
    let h = history_sweep(paths);
    assert_eq!(h.category, "Shell History");
    assert_eq!(h.mode, SweepMode::EmptyFiles);
    assert_eq!(h.file_failure, "Failed to clear history file: ");
    let c = clear_clipboard(&CommandOutcome::Ran { success: true, stderr: String::new() });
    assert_eq!(c.category, "Clipboard");
    assert!(c.cleared);
    assert_eq!(c.items_removed, 1);
    assert!(c.error.is_none());
    let failed = clear_clipboard(&CommandOutcome::Ran { success: false, stderr: "no display".to_string() });
    assert!(!failed.cleared);
    assert_eq!(failed.items_removed, 0);
    assert_eq!(failed.error.as_deref(), Some("Failed to clear clipboard: no display"));
    let missing = clear_clipboard(&CommandOutcome::NotStarted("not found".to_string()));
    assert_eq!(missing.error.as_deref(), Some("Failed to clear clipboard: not found"));
    let cmd = clipboard_clear_command(&OS::Linux);
    assert_eq!(cmd.program, "xclip");
    assert_eq!(cmd.args, vec!["-selection", "clipboard", "-i", "/dev/null"]);
    assert_eq!(clipboard_clear_command(&OS::MacOS).program, "pbcopy");
    assert_eq!(clipboard_clear_command(&OS::Windows).args, vec!["/C", "echo off | clip"]);
}

fn categories(jobs: &[CleanupJob]) -> Vec<String> {
    jobs.iter()
        .map(|j| match j {
            CleanupJob::Run(s) => s.category.clone(),
            CleanupJob::Settled(r) => r.category.clone(),
        })
        .collect()
}

#[test]
fn windows_plan() {
    let jobs = os_cleanup_plan_for(OS::Windows, &None, &Some("C:\\U".to_string()), "C:\\U\\Temp".to_string());
    assert_eq!(
        categories(&jobs),
        vec!["Windows Temp", "Prefetch", "Windows Update Cache", "Thumbnail Cache", "Crash Dumps", "Windows Error Reporting"]
    );
    match &jobs[0] {
        CleanupJob::Run(s) => {
            assert_eq!(s.roots, vec!["C:\\Windows\\Temp", "C:\\U\\Temp"]);
            assert_eq!(s.on_missing, MissingRoot::Skip);
        }
        _ => panic!("the temporary directories are swept"),
    }
    match &jobs[3] {
        CleanupJob::Run(s) => assert_eq!(s.roots, vec!["C:\\U\\AppData\\Local\\Microsoft\\Windows\\Explorer"]),
        _ => panic!("the thumbnail cache is swept"),
    }
    let no_profile = os_cleanup_plan_for(OS::Windows, &None, &None, "T".to_string());
    match &no_profile[3] {
        CleanupJob::Settled(r) => {
            assert_eq!(r.error.as_deref(), Some("Could not determine user profile"));
            assert!(!r.cleared);
        }
        _ => panic!("without a profile the thumbnail step cannot run"),
    }
}

#[test]
fn macos_and_linux_plans() {
    let mac = os_cleanup_plan_for(OS::MacOS, &Some("/Users/a".to_string()), &None, String::new());
    assert_eq!(categories(&mac), vec!["macOS User Cache", "Old Logs", "Xcode DerivedData", "Adobe Cache"]);
    match &mac[0] {
        CleanupJob::Run(s) => {
            assert_eq!(s.mode, SweepMode::TopEntries);
            assert_eq!(s.roots, vec!["/Users/a/Library/Caches"]);
            assert_eq!(s.on_missing, MissingRoot::Fail);
        }
        _ => panic!(),
    }
    match &mac[1] {
        CleanupJob::Run(s) => {
            assert_eq!(s.mode, SweepMode::OldLogs);
            assert_eq!(s.file_failure, "Failed to remove log file: ");
        }
        _ => panic!(),
    }
    let mac_no_home = os_cleanup_plan_for(OS::MacOS, &None, &None, String::new());
    assert_eq!(categories(&mac_no_home), vec!["macOS User Cache", "macOS Logs", "Xcode DerivedData", "Adobe Cache"]);
    let linux = os_cleanup_plan_for(OS::Linux, &Some("/home/a".to_string()), &None, String::new());
    assert_eq!(categories(&linux), vec!["Linux User Cache", "NPM Cache", "Cargo Cache"]);
    match &linux[2] {
        CleanupJob::Run(s) => assert_eq!(s.roots, vec!["/home/a/.cargo"]),
        _ => panic!(),
    }
    match &os_cleanup_plan_for(OS::Linux, &None, &None, String::new())[1] {
        CleanupJob::Settled(r) => assert_eq!(r.error.as_deref(), Some("Could not determine home directory")),
        _ => panic!(),
    }
}

#[test]
fn area_results_in_order() {
    let result = |name: &str| BrowserCleanupResult {
        browser: name.to_string(),
        cache_cleared: false,
        cookies_cleared: false,
        local_storage_cleared: false,
        items_removed: 0,
        error: None,
    };
    let b = clear_browser_cache(result("Chrome"), result("Firefox"), result("Edge"));
    let names: Vec<&str> = b.iter().map(|r| r.browser.as_str()).collect();
    assert_eq!(names, vec!["Chrome", "Firefox", "Edge"]);
    let temp = SystemCleanupResult { category: "Temp Files".to_string(), cleared: true, items_removed: 4, bytes_freed: 40, error: None };
    let hist = SystemCleanupResult { category: "Shell History".to_string(), cleared: false, items_removed: 0, bytes_freed: 0, error: None };
    let clip = clear_clipboard(&CommandOutcome::Ran { success: true, stderr: String::new() });
    let s = cleanup_system(temp, clip, hist);
    let cats: Vec<&str> = s.iter().map(|r| r.category.as_str()).collect();
    assert_eq!(cats, vec!["Temp Files", "Clipboard", "Shell History"]);
    assert_eq!(s[0].items_removed, 4);
    let n = cleanup_network(flush_dns(&None), reset_hosts_file(&None));
    assert_eq!(n[0].operation, "DNS Flush");
    assert_eq!(n[1].operation, "Hosts File Reset");
}

use cleanslate_qa::engine::os::OS;
use cleanslate_qa::engine::validator::validate_cleanup;
use cleanslate_qa::engine::validator::{
    cache_check_paths_for, check_browser_caches, check_clipboard, clipboard_read_command, check_dns_resolution, check_temp_directory,
    dns_probe_address,
};

#[test]
fn temp_directory_verdicts() {
    let few = check_temp_directory(&Ok(3));
    assert_eq!(few.check, "Temp Directory");
    assert!(few.passed);
    assert_eq!(few.details.as_deref(), Some("3 items in temp directory"));
    let edge = check_temp_directory(&Ok(10));
    assert!(!edge.passed);
    assert_eq!(edge.details.as_deref(), Some("10 items remain in temp directory"));
    let nine = check_temp_directory(&Ok(9));
    assert!(nine.passed);
    let err = check_temp_directory(&Err("No such file or directory (os error 2)".to_string()));
    assert!(!err.passed);
    assert_eq!(err.details.as_deref(), Some("Failed to read temp directory: No such file or directory (os error 2)"));
}

#[test]
fn browser_cache_verdicts() {
    let ok = check_browser_caches(99);
    assert_eq!(ok.check, "Browser Cache");
    assert!(ok.passed);
    assert_eq!(ok.details.as_deref(), Some("99 cache files found (acceptable)"));
    let bad = check_browser_caches(100);
    assert!(!bad.passed);
    assert_eq!(bad.details.as_deref(), Some("100 cache files still remain"));
    assert_eq!(check_browser_caches(0).details.as_deref(), Some("0 cache files found (acceptable)"));
}

#[test]
fn browser_cache_check_paths() {
    assert_eq!(
        cache_check_paths_for(OS::Linux, &Some("/home/a".to_string())),
        vec!["/home/a/.cache/google-chrome/Default/Cache", "/home/a/Library/Caches/Google/Chrome/Default/Cache"]
    );
    assert_eq!(
        cache_check_paths_for(OS::Linux, &None),
        vec!["/tmp/.cache/google-chrome/Default/Cache", "/tmp/Library/Caches/Google/Chrome/Default/Cache"]
    );
}

#[test]
fn clipboard_and_dns_verdicts() {
    let c = check_clipboard(&Ok(" \n".to_string()));
    assert_eq!(c.check, "Clipboard");
    assert!(c.passed);
    assert_eq!(c.details.as_deref(), Some("Clipboard cleared successfully"));
    let full = check_clipboard(&Ok("secret\n".to_string()));
    assert!(!full.passed);
    assert_eq!(full.details.as_deref(), Some("Clipboard still holds 7 characters"));
    let unreadable = check_clipboard(&Err("no display".to_string()));
    assert!(!unreadable.passed);
    assert_eq!(unreadable.details.as_deref(), Some("Failed to read clipboard: no display"));
    assert_eq!(clipboard_read_command(&OS::MacOS).program, "pbpaste");
    assert_eq!(clipboard_read_command(&OS::Linux).args, vec!["-selection", "clipboard", "-o"]);
    let ok = check_dns_resolution(&Ok(()));
    assert_eq!(ok.check, "DNS Resolution");
    assert!(ok.passed);
    assert_eq!(ok.details.as_deref(), Some("DNS resolution working correctly"));
    let bad = check_dns_resolution(&Err("failed to lookup address".to_string()));
    assert!(!bad.passed);
    assert_eq!(bad.details.as_deref(), Some("DNS resolution failed: failed to lookup address"));
    assert_eq!(dns_probe_address(), "google.com:80");
}

#[test]
fn verdicts_in_order() {
    let v = validate_cleanup(&Ok(2), 150, &Ok(String::new()), &Err("timeout".to_string()));
    let checks: Vec<&str> = v.iter().map(|r| r.check.as_str()).collect();
    assert_eq!(checks, vec!["Temp Directory", "Browser Cache", "Clipboard", "DNS Resolution"]);
    let passed: Vec<bool> = v.iter().map(|r| r.passed).collect();
    assert_eq!(passed, vec![true, false, true, false]);
    assert_eq!(v[3].details.as_deref(), Some("DNS resolution failed: timeout"));
}

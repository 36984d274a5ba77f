use cleanslate_qa::engine::scan::{
    collect_operations, measure_one_file, rotated_log_name, usage_measurement, DirStats, Guard, KeepRule, MeasurePlan,
    Measurement, ScanKind, ScanTarget,
};
use cleanslate_qa::engine::browser::browser_scan_targets_for;
use cleanslate_qa::engine::system::system_scan_targets_for;
use cleanslate_qa::engine::os_specific::{os_scan_targets_for, flatpak_unused_estimate};
use cleanslate_qa::engine::os::OS;

fn target(name: &str, keep: KeepRule) -> ScanTarget {
    ScanTarget { name: name.to_string(), path: format!("/p/{}", name), scan: ScanKind::Top, keep, guard: Guard::Always }
}

#[test]
fn collecting_keeps_by_rule() {
    let targets = vec![
        target("always", KeepRule::Always),
        target("empty", KeepRule::NonEmpty),
        target("files", KeepRule::NonEmpty),
        target("nobytes", KeepRule::BytesPositive),
        target("bytes", KeepRule::BytesPositive),
        target("unmeasured", KeepRule::Always),
    ];
    let files = |count: u64, bytes: u64| Some(Measurement::Files { count, bytes });
    let measures = vec![files(0, 0), files(0, 0), files(3, 0), files(1, 0), files(1, 10), None];
    let ops = collect_operations(&targets, &measures);
    let names: Vec<&str> = ops.iter().map(|o| o.name.as_str()).collect();
    assert_eq!(names, vec!["always", "files", "bytes"]);
    assert_eq!(ops[1].file_count, 3);
    assert_eq!(ops[2].bytes, 10);
    assert_eq!(ops[2].path, "/p/bytes");
    assert!(ops.iter().all(|o| !o.would_modify));
}

#[test]
fn single_files_count_as_one_file() {
    let one = |name: &str, scan: ScanKind, keep: KeepRule| ScanTarget {
        name: name.to_string(),
        path: format!("/p/{}", name),
        scan,
        keep,
        guard: Guard::Always,
    };
    let targets = vec![
        one("Sleep Image", ScanKind::ExistingFileSize, KeepRule::Always),
        one("Systemd Journal Logs", ScanKind::JournalUsage, KeepRule::BytesPositive),
        one("Flatpak Unused Runtimes", ScanKind::FlatpakUnused, KeepRule::BytesPositive),
        one("Shell History", ScanKind::FileSize, KeepRule::Always),
    ];
    let measures = vec![
        Some(Measurement::OneFile(0)),
        Some(Measurement::OneFile(4096)),
        Some(Measurement::OneFile(0)),
        Some(Measurement::Absent),
    ];
    for (t, m) in targets.iter().zip(measures.iter()) {
        assert!(m.unwrap().fits_scan(t.scan));
    }
    assert!(!Measurement::Files { count: 0, bytes: 0 }.fits_scan(ScanKind::ExistingFileSize));
    assert!(!Measurement::OneFile(1).fits_scan(ScanKind::Tree));
    let ops = collect_operations(&targets, &measures);
    let shape: Vec<(&str, u64, u64)> = ops.iter().map(|o| (o.name.as_str(), o.file_count, o.bytes)).collect();
    assert_eq!(shape, vec![("Sleep Image", 1, 0), ("Systemd Journal Logs", 1, 4096), ("Shell History", 0, 0)]);
}

#[test]
fn rotated_log_names() {
    assert!(rotated_log_name("syslog.1"));
    assert!(rotated_log_name("kern.log.old"));
    assert!(rotated_log_name("dmesg.0.gz"));
    assert!(!rotated_log_name("syslog"));
    assert!(!rotated_log_name(""));
    assert!(!rotated_log_name("app.log"));
}

#[test]
fn dir_stats_add_up() {
    let mut s = DirStats::new();
    s.record_file(Some(10));
    s.record_file(None);
    s.record_file(Some(5));
    assert_eq!(s.measure(), Measurement::Files { count: 3, bytes: 15 });
}

#[test]
fn browser_targets_on_linux() {
    let t = browser_scan_targets_for(OS::Linux, &Some("/home/a".to_string()), "");
    assert_eq!(t.len(), 3);
    assert_eq!(t[0].name, "Chrome Cache");
    assert_eq!(t[0].path, "/home/a/.cache/google-chrome/Default/Cache");
    assert_eq!(t[1].path, "/home/a/.cache/mozilla/firefox/*.default-release/cache2");
    assert_eq!(t[2].name, "Edge Cache");
    assert_eq!(t[2].scan, ScanKind::Tree);
    assert_eq!(t[2].keep, KeepRule::Always);
    let no_home = browser_scan_targets_for(OS::MacOS, &None, "");
    assert!(no_home.is_empty());
    let win = browser_scan_targets_for(OS::Windows, &None, "C:\\Users\\a");
    assert_eq!(win[0].path, "C:\\Users\\a\\AppData\\Local\\Google\\Chrome\\User Data\\Default\\Cache");
}

#[test]
fn system_targets() {
    let none = system_scan_targets_for(None, vec!["/h/.bash_history".to_string()]);
    assert_eq!(none.len(), 1);
    assert_eq!(none[0].name, "Shell History");
    let t = system_scan_targets_for(Some("/c/temp".to_string()), vec!["/h/.bash_history".to_string(), "/h/.zsh_history".to_string()]);
    assert_eq!(t.len(), 3);
    assert_eq!(t[0].name, "Temp Files");
    assert_eq!(t[0].scan, ScanKind::Top);
    assert_eq!(t[1].name, "Shell History");
    assert_eq!(t[2].path, "/h/.zsh_history");
    assert_eq!(t[2].scan, ScanKind::FileSize);
}

#[test]
fn os_targets_per_platform() {
    let linux = os_scan_targets_for(OS::Linux, &Some("/home/a".to_string()), &None);
    let names: Vec<&str> = linux.iter().map(|t| t.name.as_str()).collect();
    assert_eq!(
        names,
        vec![
            "APT Package Cache",
            "Systemd Journal Logs",
            "User Cache (~/.cache)",
            "NPM Cache",
            "Cargo Cache",
            "Gradle Cache",
            "Core Dumps",
            "Rotated Log Files",
            "Flatpak Unused Runtimes",
        ]
    );
    assert_eq!(linux[5].path, "/home/a/.gradle/caches");
    assert_eq!(linux[1].scan, ScanKind::JournalUsage);
    assert_eq!(linux[1].keep, KeepRule::BytesPositive);
    let linux_no_home = os_scan_targets_for(OS::Linux, &None, &None);
    assert_eq!(linux_no_home.len(), 5);
    let mac = os_scan_targets_for(OS::MacOS, &Some("/Users/a".to_string()), &None);
    assert_eq!(mac.len(), 9);
    assert_eq!(mac[3].path, "/Users/a/Library/Application Support/MobileSync/Backup");
    assert_eq!(mac[6].name, "Homebrew Cache");
    assert_eq!(mac[6].path, "/opt/homebrew/Library/Taps/homebrew/homebrew-core");
    assert!(matches!(&mac[6].guard, Guard::IfExists(p) if p == "/opt/homebrew/Library/Taps/homebrew/homebrew-core/.git"));
    assert_eq!(mac[7].path, "/usr/local/Homebrew/Library/Taps/homebrew/homebrew-core");
    assert!(matches!(&mac[7].guard, Guard::IfMissing(p) if p == "/opt/homebrew/Library/Taps/homebrew/homebrew-core/.git"));
    assert_eq!(mac[8].name, "Sleep Image");
    assert_eq!(mac[6].measure_plan(true), MeasurePlan::CountFiles { depth: Some(1), rotated_only: false });
    assert_eq!(mac[6].measure_plan(false), MeasurePlan::Skip);
    assert_eq!(mac[7].measure_plan(true), MeasurePlan::Skip);
    assert_eq!(mac[7].measure_plan(false), MeasurePlan::CountFiles { depth: Some(1), rotated_only: false });
    assert_eq!(mac[8].measure_plan(false), MeasurePlan::OneFile { must_be_file: false, absent_counts: false });
    assert_eq!(linux[7].measure_plan(true), MeasurePlan::CountFiles { depth: Some(2), rotated_only: true });
    assert_eq!(measure_one_file(true, None), Some(Measurement::Absent));
    assert_eq!(measure_one_file(false, None), None);
    assert_eq!(measure_one_file(false, Some(9)), Some(Measurement::OneFile(9)));
    assert_eq!(usage_measurement(5), Measurement::OneFile(5));
    assert_eq!(os_scan_targets_for(OS::MacOS, &None, &None).len(), 1);
    let win = os_scan_targets_for(OS::Windows, &None, &Some("C:\\Users\\a".to_string()));
    assert_eq!(win.len(), 7);
    assert_eq!(win[3].path, "C:\\Users\\a\\AppData\\Local\\Microsoft\\Windows\\Explorer");
    assert!(matches!(&win[5].guard, Guard::IfExists(p) if p == "C:\\Windows.old"));
    assert_eq!(os_scan_targets_for(OS::Windows, &None, &None).len(), 6);
}

#[test]
fn flatpak_estimate_is_a_hundred_per_byte() {
    assert_eq!(flatpak_unused_estimate(0), 0);
    assert_eq!(flatpak_unused_estimate(123), 12300);
}

use cleanslate_qa::engine::os::OS;
use cleanslate_qa::paths::{join_path, join_path_on};

#[test]
fn detect_maps_target_names() {
    assert_eq!(OS::detect("windows"), OS::Windows);
    assert_eq!(OS::detect("macos"), OS::MacOS);
    assert_eq!(OS::detect("linux"), OS::Linux);
    assert_eq!(OS::detect("freebsd"), OS::Linux);
    assert_eq!(OS::detect("Windows"), OS::Linux);
}

#[test]
fn cache_dir_templates() {
    assert_eq!(
        OS::Linux.get_cache_dirs(),
        vec![
            "~/.cache/google-chrome/Default/Cache",
            "~/.cache/mozilla/firefox/*.default-release/cache2",
            "~/.cache/microsoft-edge/Default/Cache",
        ]
    );
    assert_eq!(OS::MacOS.get_cache_dirs()[2], "~/Library/Caches/Microsoft Edge/Default/Cache");
    assert_eq!(
        OS::Windows.get_cache_dirs()[0],
        "{LOCALAPPDATA}\\Google\\Chrome\\User Data\\Default\\Cache"
    );
}

#[test]
fn hosts_file_paths() {
    assert_eq!(OS::Windows.get_hosts_file_path(), "C:\\Windows\\System32\\drivers\\etc\\hosts");
    assert_eq!(OS::MacOS.get_hosts_file_path(), "/etc/hosts");
    assert_eq!(OS::Linux.get_hosts_file_path(), "/etc/hosts");
}

#[test]
fn temp_dir_choices() {
    let some = |s: &str| Some(s.to_string());
    assert_eq!(OS::Windows.temp_dir_for(None, None), some("C:\\Temp"));
    assert_eq!(OS::Windows.temp_dir_for(some("D:\\t"), some("/c")), some("D:\\t"));
    assert_eq!(OS::Linux.temp_dir_for(some("ignored"), some("/home/a/.cache")), some("/home/a/.cache/temp"));
    assert_eq!(OS::MacOS.temp_dir_for(None, some("/Users/a/Library/Caches/")), some("/Users/a/Library/Caches/temp"));
    assert_eq!(OS::Linux.temp_dir_for(None, None), None);
    assert_eq!(OS::MacOS.temp_dir_for(some("/tmp"), None), None);
    assert_eq!(OS::Windows.get_temp_dir(some("E:\\tmp")), some("E:\\tmp"));
    assert_eq!(OS::Windows.get_temp_dir(None), some("C:\\Temp"));
}

#[test]
fn linux_temp_dir_is_never_the_system_tmp() {
    match OS::Linux.get_temp_dir(None) {
        Some(d) => assert!(d != "/tmp" && (d.ends_with("/temp") || d == "temp")),
        None => {}
    }
}

#[test]
fn names_of_platforms() {
    assert_eq!(OS::Windows.name(), "Windows");
    assert_eq!(OS::MacOS.name(), "macOS");
    assert_eq!(OS::Linux.name(), "Linux");
}

#[test]
fn joining_paths() {
    assert_eq!(join_path("", "a"), "a");
    assert_eq!(join_path("/", "a"), "/a");
    assert_eq!(join_path("/home/u", "a/b"), "/home/u/a/b");
    assert_eq!(join_path("/home/u/", "a"), "/home/u/a");
    assert_eq!(join_path_on(OS::Windows, "C:\\U", "a"), "C:\\U\\a");
    assert_eq!(join_path_on(OS::Windows, "C:\\U\\", "a"), "C:\\U\\a");
    assert_eq!(join_path_on(OS::Windows, "C:/U/", "a"), "C:/U/a");
    assert_eq!(join_path_on(OS::Linux, "/u\\", "a"), "/u\\/a");
    for (base, rel) in [("/home/u", "a/b"), ("/home/u/", ".cache/x"), ("", "a")] {
        let expected = std::path::Path::new(base).join(rel);
        assert_eq!(join_path_on(OS::Linux, base, rel), expected.to_string_lossy());
    }
}

use cleanslate_qa::engine::os::OS;
use cleanslate_qa::logger::secure_log::{
    chrono_lite_timestamp, log_closing, log_opening, new_record_id, record_text, SecureLogger,
};

fn looks_like_v4_uuid(s: &str) -> bool {
    let c: Vec<char> = s.chars().collect();
    c.len() == 36
        && c.iter().enumerate().all(|(i, ch)| {
            if [8, 13, 18, 23].contains(&i) { *ch == '-' } else { ch.is_ascii_digit() || ('a'..='f').contains(ch) }
        })
        && c[14] == '4'
        && "89ab".contains(c[19])
}

#[test]
fn log_location_for_a_session() {
    let l = SecureLogger::for_session(OS::Linux, Some("/home/a/.local/share".to_string()), "abc".to_string());
    assert_eq!(l.get_log_dir(), "/home/a/.local/share/CleanSlateQA/logs");
    assert_eq!(l.get_log_path(), "/home/a/.local/share/CleanSlateQA/logs/cleanup_abc.json");
    assert_eq!(l.get_session_id(), "abc");
    let fallback = SecureLogger::for_session(OS::Linux, None, "x".to_string());
    assert_eq!(fallback.get_log_path(), "/tmp/CleanSlateQA/logs/cleanup_x.json");
    let win = SecureLogger::for_session(OS::Windows, Some("C:\\Users\\a\\AppData\\Local".to_string()), "w".to_string());
    assert_eq!(win.get_log_path(), "C:\\Users\\a\\AppData\\Local\\CleanSlateQA\\logs\\cleanup_w.json");
}

#[test]
fn new_sessions_get_uuids_from_their_bytes() {
    let a = SecureLogger::new(OS::Linux, [0u8; 16]);
    let b = SecureLogger::new(OS::Windows, [0xffu8; 16]);
    assert_eq!(a.get_session_id(), "00000000-0000-4000-8000-000000000000");
    assert_eq!(b.get_session_id(), "ffffffff-ffff-4fff-bfff-ffffffffffff");
    assert!(looks_like_v4_uuid(a.get_session_id()));
    assert!(a.get_log_path().ends_with(&format!("cleanup_{}.json", a.get_session_id())));
    assert!(a.get_log_path().starts_with(a.get_log_dir().as_str()));
    let bytes = [0x12, 0x34, 0x56, 0x78, 0x9a, 0xbc, 0xde, 0xf0, 0x01, 0x23, 0x45, 0x67, 0x89, 0xab, 0xcd, 0xef];
    assert_eq!(new_record_id(bytes), "12345678-9abc-4ef0-8123-456789abcdef");
    assert!(looks_like_v4_uuid(&new_record_id(bytes)));
}

#[test]
fn record_framing() {
    assert_eq!(log_opening(), "[\n");
    assert_eq!(log_closing(), "]\n");
    assert_eq!(record_text(0, "{}"), "  {}\n");
    assert_eq!(record_text(2, "{}"), "  {}\n");
    assert_eq!(record_text(3, "{\"a\":1}"), ",  {\"a\":1}\n");
}

#[test]
fn closed_log_is_a_json_array() {
    let mut file = log_opening().to_string();
    for record in ["{\"n\":1}", "{\"n\":2}", "{\"n\":3}"] {
        let piece = record_text(file.len() as u64, record);
        file.push_str(&piece);
    }
    file.push_str(log_closing());
    assert_eq!(file, "[\n  {\"n\":1}\n,  {\"n\":2}\n,  {\"n\":3}\n]\n");
    let parsed: serde_json::Value = serde_json::from_str(&file).unwrap();
    assert_eq!(parsed.as_array().unwrap().len(), 3);
    let single = format!("{}{}{}", log_opening(), record_text(2, "{}"), log_closing());
    assert!(serde_json::from_str::<serde_json::Value>(&single).unwrap().is_array());
}

#[test]
fn timestamps() {
    assert_eq!(chrono_lite_timestamp(12, 5), "12.000000005");
    assert_eq!(chrono_lite_timestamp(0, 0), "0.000000000");
    assert_eq!(chrono_lite_timestamp(1700000000, 123456789), "1700000000.123456789");
    assert_eq!(chrono_lite_timestamp(1, 4_000_000_000), "1.4000000000");
    assert_eq!(chrono_lite_timestamp(5, 999_999_999).len(), 1 + 10);
}

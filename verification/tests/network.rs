use cleanslate_qa::engine::network::{
    analyze_network_cleanup, dns_flush_command, flush_dns, hosts_reset_plan, reset_hosts_file, CommandOutcome,
};
use cleanslate_qa::engine::os::OS;

#[test]
fn network_dry_run_flags_follow_actions() {
    let win = analyze_network_cleanup(&OS::Windows);
    assert_eq!(win.len(), 2);
    assert_eq!(win[0].name, "DNS Flush");
    assert_eq!(win[0].path, "system");
    assert!(win[0].would_modify && win[1].would_modify);
    assert_eq!(win[1].path, "C:\\Windows\\System32\\drivers\\etc\\hosts");
    let linux = analyze_network_cleanup(&OS::Linux);
    assert!(!linux[0].would_modify && !linux[1].would_modify);
    assert_eq!(linux[1].name, "Hosts File Reset");
    assert_eq!(linux[1].file_count, 0);
    let mac = analyze_network_cleanup(&OS::MacOS);
    assert!(mac[0].would_modify && !mac[1].would_modify);
    for os in [OS::Windows, OS::MacOS, OS::Linux] {
        let ops = analyze_network_cleanup(&os);
        assert_eq!(ops[0].would_modify, dns_flush_command(&os).is_some());
        assert_eq!(ops[1].would_modify, hosts_reset_plan(&os).is_some());
    }
}

#[test]
fn dns_flush_commands() {
    let w = dns_flush_command(&OS::Windows).unwrap();
    assert_eq!(w.program, "ipconfig");
    assert_eq!(w.args, vec!["/flushdns"]);
    let m = dns_flush_command(&OS::MacOS).unwrap();
    assert_eq!(m.program, "killall");
    assert_eq!(m.args, vec!["-HUP", "mDNSResponder"]);
    assert!(dns_flush_command(&OS::Linux).is_none());
}

#[test]
fn dns_flush_results() {
    let skipped = flush_dns(&None);
    assert_eq!(skipped.operation, "DNS Flush");
    assert!(skipped.success && skipped.error.is_none());
    let ok = flush_dns(&Some(CommandOutcome::Ran { success: true, stderr: "noise".to_string() }));
    assert!(ok.success && ok.error.is_none());
    let failed = flush_dns(&Some(CommandOutcome::Ran { success: false, stderr: "denied".to_string() }));
    assert!(!failed.success);
    assert_eq!(failed.error.as_deref(), Some("Command failed: denied"));
    let absent = flush_dns(&Some(CommandOutcome::NotStarted("No such file".to_string())));
    assert_eq!(absent.error.as_deref(), Some("Failed to execute command: No such file"));
}

#[test]
fn hosts_reset() {
    assert!(hosts_reset_plan(&OS::Linux).is_none());
    assert!(hosts_reset_plan(&OS::MacOS).is_none());
    let (path, contents) = hosts_reset_plan(&OS::Windows).unwrap();
    assert_eq!(path, "C:\\Windows\\System32\\drivers\\etc\\hosts");
    assert!(contents.starts_with("# Copyright (c) 1993-2009 Microsoft Corp.\r\n"));
    assert!(contents.ends_with("127.0.0.1       localhost\r\n::1             localhost\r\n"));
    let ok = reset_hosts_file(&None);
    assert!(ok.success);
    assert_eq!(ok.operation, "Hosts File Reset");
    assert!(reset_hosts_file(&Some(Ok(()))).success);
    let err = reset_hosts_file(&Some(Err("Access is denied.".to_string())));
    assert!(!err.success);
    assert_eq!(err.error.as_deref(), Some("Failed to reset hosts file: Access is denied."));
}

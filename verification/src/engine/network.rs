//! Network reset: flushing the DNS cache and restoring the hosts file.
//!
//! Both need elevated privileges; on macOS and Linux the hosts file is never
//! touched, and on Linux the DNS cache is not flushed either. The dry run
//! says that an operation would modify the system exactly when the
//! clean-up carries it out.
use vstd::prelude::*;
use crate::text::{opt_view, texts};
use crate::engine::os::{OS, hosts_path_of};
pub use crate::engine::scan::DryRunOperation;
use crate::engine::scan::{OperationModel, operations_view};

verus! {

/// What a network step did.
pub struct NetworkCleanupResult {
    pub operation: String,
    pub success: bool,
    pub error: Option<String>,
}

impl NetworkCleanupResult {
    /// The error text, if any.
    pub open spec fn error_text(&self) -> Option<Seq<char>> {
        opt_view(self.error)
    }
}

/// Whether the clean-up resets the hosts file: only on Windows.
pub open spec fn resets_hosts(os: OS) -> bool {
    os == OS::Windows
}

/// The dry-run operations of the network reset: the DNS flush modifies
/// the system where a flush command runs, the hosts file reset where the
/// file is rewritten.
pub open spec fn network_operations_of(os: OS) -> Seq<OperationModel> {
    seq![
        OperationModel {
            name: "DNS Flush"@,
            path: "system"@,
            file_count: 0,
            bytes: 0,
            would_modify: dns_flush_command_of(os) is Some,
        },
        OperationModel {
            name: "Hosts File Reset"@,
            path: hosts_path_of(os),
            file_count: 0,
            bytes: 0,
            would_modify: resets_hosts(os),
        },
    ]
}

/// The dry-run operations of the network reset.
pub fn analyze_network_cleanup(os: &OS) -> (ops: Vec<DryRunOperation>)
    ensures
        operations_view(ops@) == network_operations_of(*os),
{
    let flushes = *os != OS::Linux;
    let modifies = *os == OS::Windows;
    let mut ops: Vec<DryRunOperation> = Vec::new();
    ops.push(
        DryRunOperation {
            name: String::from_str("DNS Flush"),
            path: String::from_str("system"),
            file_count: 0,
            bytes: 0,
            would_modify: flushes,
        },
    );
    ops.push(
        DryRunOperation {
            name: String::from_str("Hosts File Reset"),
            path: os.get_hosts_file_path(),
            file_count: 0,
            bytes: 0,
            would_modify: modifies,
        },
    );
    assert(operations_view(ops@) =~= network_operations_of(*os));
    ops
}

/// A program to run, with its arguments.
pub struct ShellCommand {
    pub program: String,
    pub args: Vec<String>,
}

/// How running a command went.
pub enum CommandOutcome {
    /// It ran; whether it exited successfully, and its error output (as
    /// text, invalid UTF-8 replaced).
    Ran { success: bool, stderr: String },
    /// It could not be started; the error's text.
    NotStarted(String),
}

/// The command that flushes the DNS cache: `ipconfig /flushdns` on
/// Windows, `killall -HUP mDNSResponder` on macOS, none on Linux.
pub open spec fn dns_flush_command_of(os: OS) -> Option<(Seq<char>, Seq<Seq<char>>)> {
    match os {
        OS::Windows => Some(("ipconfig"@, seq!["/flushdns"@])),
        OS::MacOS => Some(("killall"@, seq!["-HUP"@, "mDNSResponder"@])),
        OS::Linux => None,
    }
}

/// The command that flushes the DNS cache on this platform, if any.
pub fn dns_flush_command(os: &OS) -> (cmd: Option<ShellCommand>)
    ensures
        match cmd {
            Some(c) => dns_flush_command_of(*os) == Some((c.program@, texts(c.args@))),
            None => dns_flush_command_of(*os) is None,
        },
{
    match os {
        OS::Windows => {
            let args = vec![String::from_str("/flushdns")];
            assert(texts(args@) =~= seq!["/flushdns"@]);
            Some(ShellCommand { program: String::from_str("ipconfig"), args })
        },
        OS::MacOS => {
            let args = vec![String::from_str("-HUP"), String::from_str("mDNSResponder")];
            assert(texts(args@) =~= seq!["-HUP"@, "mDNSResponder"@]);
            Some(ShellCommand { program: String::from_str("killall"), args })
        },
        OS::Linux => None,
    }
}

/// The result of the DNS flush: success when no command was needed or the
/// command succeeded; otherwise the failure, with the command's error
/// output or the reason it could not start.
pub fn flush_dns(outcome: &Option<CommandOutcome>) -> (r: NetworkCleanupResult)
    ensures
        r.operation@ == "DNS Flush"@,
        match outcome {
            None => r.success && r.error is None,
            Some(CommandOutcome::Ran { success, stderr }) => if *success {
                r.success && r.error is None
            } else {
                !r.success && r.error_text() == Some("Command failed: "@ + stderr@)
            },
            Some(CommandOutcome::NotStarted(e)) => !r.success && r.error_text() == Some(
                "Failed to execute command: "@ + e@,
            ),
        },
{
    let (success, error) = match outcome {
        None => (true, None),
        Some(CommandOutcome::Ran { success, stderr }) => if *success {
            (true, None)
        } else {
            let mut m = String::from_str("Command failed: ");
            m.append(stderr.as_str());
            (false, Some(m))
        },
        Some(CommandOutcome::NotStarted(e)) => {
            let mut m = String::from_str("Failed to execute command: ");
            m.append(e.as_str());
            (false, Some(m))
        },
    };
    NetworkCleanupResult { operation: String::from_str("DNS Flush"), success, error }
}

/// The hosts file that Windows ships.
pub open spec fn default_hosts_text() -> Seq<char> {
    "# Copyright (c) 1993-2009 Microsoft Corp.\r\n#\r\n# This is a sample HOSTS file used by Microsoft TCP/IP for Windows.\r\n#\r\n127.0.0.1       localhost\r\n::1             localhost\r\n"@
}

/// The file to overwrite, and its new contents, to reset the hosts file:
/// only on Windows.
pub fn hosts_reset_plan(os: &OS) -> (plan: Option<(String, String)>)
    ensures
        match plan {
            Some((path, contents)) => resets_hosts(*os) && path@ == hosts_path_of(*os)
                && contents@ == default_hosts_text(),
            None => !resets_hosts(*os),
        },
{
    match os {
        OS::Windows => Some(
            (
                os.get_hosts_file_path(),
                String::from_str(
                    "# Copyright (c) 1993-2009 Microsoft Corp.\r\n#\r\n# This is a sample HOSTS file used by Microsoft TCP/IP for Windows.\r\n#\r\n127.0.0.1       localhost\r\n::1             localhost\r\n",
                ),
            ),
        ),
        _ => None,
    }
}

/// The result of the hosts file reset: success when nothing had to be
/// written or the write succeeded; otherwise the write's error.
pub fn reset_hosts_file(outcome: &Option<Result<(), String>>) -> (r: NetworkCleanupResult)
    ensures
        r.operation@ == "Hosts File Reset"@,
        match outcome {
            None => r.success && r.error is None,
            Some(Ok(_)) => r.success && r.error is None,
            Some(Err(e)) => !r.success && r.error_text() == Some("Failed to reset hosts file: "@ + e@),
        },
{
    let (success, error) = match outcome {
        None => (true, None),
        Some(Ok(_)) => (true, None),
        Some(Err(e)) => {
            let mut m = String::from_str("Failed to reset hosts file: ");
            m.append(e.as_str());
            (false, Some(m))
        },
    };
    NetworkCleanupResult { operation: String::from_str("Hosts File Reset"), success, error }
}

/// The results of the network reset, in order: the DNS flush, then the
/// hosts file reset.
pub fn cleanup_network(dns: NetworkCleanupResult, hosts: NetworkCleanupResult) -> (r: Vec<NetworkCleanupResult>)
    ensures
        r@ == seq![dns, hosts],
{
    let r = vec![dns, hosts];
    assert(r@ =~= seq![dns, hosts]);
    r
}

} // verus!

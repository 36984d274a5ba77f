//! Verified core of a workstation clean-up utility: which paths are excluded
//! from clean-up, where each platform keeps its caches, how a clean-up pass
//! decides and tallies what it removes, and how results are reported.
use vstd::prelude::*;

pub mod text;
pub mod paths;
pub mod platform;
pub mod size;
pub mod engine;
pub mod logger;

use crate::engine::scan::{DryRunOperation, OperationModel, operations_view};
use crate::engine::browser::BrowserCleanupResult;
use crate::engine::system::SystemCleanupResult;
use crate::engine::os_specific::OSCleanupResult;
use crate::engine::network::NetworkCleanupResult;
use crate::engine::validator::ValidationResult;
use crate::engine::os::{OS, os_name, hosts_path_of, temp_dir_of};
use crate::engine::network::network_operations_of;
use crate::text::{opt_view, texts};

verus! {

/// What a dry run found: totals over everything that would be removed,
/// every operation, and warnings for operations that need privileges.
pub struct DryRunResult {
    pub estimated_files_to_remove: u64,
    pub estimated_bytes_to_free: u64,
    pub operations: Vec<DryRunOperation>,
    pub warnings: Vec<String>,
}

/// The results of a whole clean-up.
pub struct CleanupSummary {
    pub browser_results: Vec<BrowserCleanupResult>,
    pub system_results: Vec<SystemCleanupResult>,
    pub os_results: Vec<OSCleanupResult>,
    pub network_results: Vec<NetworkCleanupResult>,
    pub validation_results: Vec<ValidationResult>,
    pub log_path: String,
}

/// What the program reports about the platform it runs on.
pub struct OSInfo {
    pub name: String,
    /// The user's temporary directory; none where it cannot be determined.
    pub temp_dir: Option<String>,
    pub hosts_file: String,
}

/// The files counted by a sequence of operations.
pub open spec fn files_total(ops: Seq<OperationModel>) -> int
    decreases ops.len(),
{
    if ops.len() == 0 {
        0
    } else {
        files_total(ops.drop_last()) + ops.last().file_count
    }
}

/// The bytes counted by a sequence of operations.
pub open spec fn bytes_total(ops: Seq<OperationModel>) -> int
    decreases ops.len(),
{
    if ops.len() == 0 {
        0
    } else {
        bytes_total(ops.drop_last()) + ops.last().bytes
    }
}

/// The warning for each operation that would modify the system, in order.
pub open spec fn privilege_warnings(ops: Seq<OperationModel>) -> Seq<Seq<char>>
    decreases ops.len(),
{
    if ops.len() == 0 {
        Seq::empty()
    } else if ops.last().would_modify {
        privilege_warnings(ops.drop_last()).push(ops.last().name + " requires elevated privileges"@)
    } else {
        privilege_warnings(ops.drop_last())
    }
}

/// Appends `ops` to `all`, adding up their files and bytes.
fn absorb(all: &mut Vec<DryRunOperation>, ops: Vec<DryRunOperation>, files: &mut u64, bytes: &mut u64)
    requires
        *old(files) + files_total(operations_view(ops@)) <= u64::MAX,
        *old(bytes) + bytes_total(operations_view(ops@)) <= u64::MAX,
    ensures
        operations_view(final(all)@) == operations_view(old(all)@) + operations_view(ops@),
        *final(files) == *old(files) + files_total(operations_view(ops@)),
        *final(bytes) == *old(bytes) + bytes_total(operations_view(ops@)),
{
    let ghost f0 = *files;
    let ghost b0 = *bytes;
    let ghost v = operations_view(ops@);
    let n = ops.len();
    let mut i: usize = 0;
    while i < n
        invariant
            n == v.len(),
            v == operations_view(ops@),
            i <= n,
            *files == f0 + files_total(v.take(i as int)),
            *bytes == b0 + bytes_total(v.take(i as int)),
            f0 + files_total(v) <= u64::MAX,
            b0 + bytes_total(v) <= u64::MAX,
        decreases n - i,
    {
        proof {
            assert(v.take(i + 1).drop_last() =~= v.take(i as int));
            lemma_totals_prefix(v, i + 1);
        }
        *files = *files + ops[i].file_count;
        *bytes = *bytes + ops[i].bytes;
        i = i + 1;
    }
    assert(v.take(n as int) =~= v);
    append_operations(all, ops);
}

proof fn lemma_totals_nonnegative(v: Seq<OperationModel>)
    ensures
        files_total(v) >= 0,
        bytes_total(v) >= 0,
    decreases v.len(),
{
    if v.len() > 0 {
        lemma_totals_nonnegative(v.drop_last());
    }
}

proof fn lemma_totals_prefix(v: Seq<OperationModel>, k: int)
    requires
        0 <= k <= v.len(),
    ensures
        files_total(v.take(k)) <= files_total(v),
        bytes_total(v.take(k)) <= bytes_total(v),
    decreases v.len() - k,
{
    if k < v.len() {
        assert(v.take(k + 1).drop_last() =~= v.take(k));
        lemma_totals_prefix(v, k + 1);
    } else {
        assert(v.take(k) =~= v);
    }
}

/// The totals of two sequences of operations joined together.
pub proof fn law_totals_add_up(a: Seq<OperationModel>, b: Seq<OperationModel>)
    ensures
        files_total(a + b) == files_total(a) + files_total(b),
        bytes_total(a + b) == bytes_total(a) + bytes_total(b),
    decreases b.len(),
{
    if b.len() == 0 {
        assert(a + b =~= a);
    } else {
        assert((a + b).drop_last() =~= a + b.drop_last());
        law_totals_add_up(a, b.drop_last());
    }
}

/// Puts a dry run together from the operations of each area: every
/// operation in order (browser, system, platform-specific, network); the
/// totals count the first three areas; each network operation that would
/// modify the system gives a warning.
pub fn summarize_dry_run(
    browser_ops: Vec<DryRunOperation>,
    system_ops: Vec<DryRunOperation>,
    os_ops: Vec<DryRunOperation>,
    network_ops: Vec<DryRunOperation>,
) -> (r: DryRunResult)
    requires
        files_total(operations_view(browser_ops@) + operations_view(system_ops@) + operations_view(os_ops@))
            <= u64::MAX,
        bytes_total(operations_view(browser_ops@) + operations_view(system_ops@) + operations_view(os_ops@))
            <= u64::MAX,
    ensures
        operations_view(r.operations@) == operations_view(browser_ops@) + operations_view(system_ops@)
            + operations_view(os_ops@) + operations_view(network_ops@),
        r.estimated_files_to_remove == files_total(
            operations_view(browser_ops@) + operations_view(system_ops@) + operations_view(os_ops@),
        ),
        r.estimated_bytes_to_free == bytes_total(
            operations_view(browser_ops@) + operations_view(system_ops@) + operations_view(os_ops@),
        ),
        texts(r.warnings@) == privilege_warnings(operations_view(network_ops@)),
{
    let ghost bv = operations_view(browser_ops@);
    let ghost sv = operations_view(system_ops@);
    let ghost ov = operations_view(os_ops@);
    let ghost nv = operations_view(network_ops@);
    proof {
        law_totals_add_up(bv, sv);
        law_totals_add_up(bv + sv, ov);
        lemma_totals_nonnegative(bv);
        lemma_totals_nonnegative(sv);
        lemma_totals_nonnegative(ov);
    }
    let mut operations: Vec<DryRunOperation> = Vec::new();
    let mut files: u64 = 0;
    let mut bytes: u64 = 0;
    absorb(&mut operations, browser_ops, &mut files, &mut bytes);
    absorb(&mut operations, system_ops, &mut files, &mut bytes);
    absorb(&mut operations, os_ops, &mut files, &mut bytes);
    let mut warnings: Vec<String> = Vec::new();
    let n = network_ops.len();
    let mut i: usize = 0;
    while i < n
        invariant
            n == network_ops@.len(),
            nv == operations_view(network_ops@),
            i <= n,
            texts(warnings@) == privilege_warnings(nv.take(i as int)),
        decreases n - i,
    {
        assert(nv.take(i + 1).drop_last() =~= nv.take(i as int));
        if network_ops[i].would_modify {
            let mut w = network_ops[i].name.clone();
            w.append(" requires elevated privileges");
            let ghost before = texts(warnings@);
            warnings.push(w);
            assert(texts(warnings@) =~= before.push(w@));
        }
        i = i + 1;
    }
    assert(nv.take(n as int) =~= nv);
    append_operations(&mut operations, network_ops);
    DryRunResult { estimated_files_to_remove: files, estimated_bytes_to_free: bytes, operations, warnings }
}

/// Appends `ops` to `all`, in order.
fn append_operations(all: &mut Vec<DryRunOperation>, ops: Vec<DryRunOperation>)
    ensures
        operations_view(final(all)@) == operations_view(old(all)@) + operations_view(ops@),
{
    let mut rest = ops;
    let ghost a0 = all@;
    let ghost r0 = rest@;
    all.append(&mut rest);
    assert(operations_view(all@) =~= operations_view(a0) + operations_view(r0));
}

/// A dry run warns about privileges for exactly the network operations
/// that the clean-up carries out: the DNS flush on Windows and macOS, the
/// hosts file reset on Windows.
pub proof fn law_privilege_warnings_follow_actions(os: OS)
    ensures
        privilege_warnings(network_operations_of(os)) == (if os == OS::Windows {
            seq!["DNS Flush requires elevated privileges"@, "Hosts File Reset requires elevated privileges"@]
        } else if os == OS::MacOS {
            seq!["DNS Flush requires elevated privileges"@]
        } else {
            Seq::<Seq<char>>::empty()
        }),
{
    let ops = network_operations_of(os);
    reveal_strlit("DNS Flush");
    reveal_strlit("Hosts File Reset");
    reveal_strlit(" requires elevated privileges");
    reveal_strlit("DNS Flush requires elevated privileges");
    reveal_strlit("Hosts File Reset requires elevated privileges");
    assert(ops.drop_last().drop_last() =~= Seq::<OperationModel>::empty());
    assert(ops.drop_last() =~= seq![ops[0]]);
    let w1 = "DNS Flush"@ + " requires elevated privileges"@;
    let w2 = "Hosts File Reset"@ + " requires elevated privileges"@;
    assert(w1 =~= "DNS Flush requires elevated privileges"@);
    assert(w2 =~= "Hosts File Reset requires elevated privileges"@);
    assert(privilege_warnings(ops.drop_last().drop_last()) == Seq::<Seq<char>>::empty());
    assert(ops.drop_last().last() == ops[0]);
    assert(ops.last() == ops[1]);
    if os == OS::Windows {
        assert(privilege_warnings(ops.drop_last()) =~= seq![w1]);
        assert(privilege_warnings(ops) =~= seq![w1, w2]);
    } else if os == OS::MacOS {
        assert(privilege_warnings(ops.drop_last()) =~= seq![w1]);
        assert(privilege_warnings(ops) =~= seq![w1]);
    } else {
        assert(privilege_warnings(ops.drop_last()) =~= Seq::<Seq<char>>::empty());
    }
}

/// A clean-up runs only after its dry run has been confirmed.
pub fn confirm_cleanup(dry_run_confirmed: bool) -> (r: Result<(), String>)
    ensures
        dry_run_confirmed <==> r is Ok,
        r matches Err(e) ==> e@ == "Dry-run must be confirmed before execution"@,
{
    if dry_run_confirmed {
        Ok(())
    } else {
        Err(String::from_str("Dry-run must be confirmed before execution"))
    }
}

/// What the program reports about the platform: its name, its temporary
/// directory (`temp_var`: the `TEMP` variable) and its hosts file.
pub fn get_os_info(os: OS, temp_var: Option<String>) -> (info: OSInfo)
    ensures
        info.name@ == os_name(os),
        info.hosts_file@ == hosts_path_of(os),
        os == OS::Windows ==> opt_view(info.temp_dir) == temp_dir_of(os, opt_view(temp_var), None),
        exists|cache: Option<Seq<char>>| opt_view(info.temp_dir) == #[trigger] temp_dir_of(os, opt_view(temp_var), cache),
{
    let ghost tv = opt_view(temp_var);
    let temp_dir = os.get_temp_dir(temp_var);
    proof {
        if os != OS::Windows {
            let c = choose|c: Option<Seq<char>>| opt_view(temp_dir) == #[trigger] temp_dir_of(os, None, c);
            assert(temp_dir_of(os, tv, c) == temp_dir_of(os, None, c));
        } else {
            assert(opt_view(temp_dir) == temp_dir_of(os, tv, None));
        }
    }
    OSInfo { name: os.name(), temp_dir, hosts_file: os.get_hosts_file_path() }
}

} // verus!

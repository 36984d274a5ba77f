//! Checks that a clean-up did what it should, and their verdicts.
use vstd::prelude::*;
use crate::text::{opt_view, texts, decimal, push_decimal, chars_of};
use crate::size::{is_white_space, white_space};
use crate::engine::os::OS;
use crate::engine::network::ShellCommand;
use crate::paths::{joined_on, join_path_on};

verus! {

/// The verdict of one check.
pub struct ValidationResult {
    pub check: String,
    pub passed: bool,
    pub details: Option<String>,
}

impl ValidationResult {
    /// The details text, if any.
    pub open spec fn details_text(&self) -> Option<Seq<char>> {
        opt_view(self.details)
    }
}

/// A verdict as values.
pub struct VerdictModel {
    pub check: Seq<char>,
    pub passed: bool,
    pub details: Option<Seq<char>>,
}

impl View for ValidationResult {
    type V = VerdictModel;

    open spec fn view(&self) -> VerdictModel {
        VerdictModel { check: self.check@, passed: self.passed, details: opt_view(self.details) }
    }
}

/// The verdict on the temporary directory: it passes when fewer than ten
/// entries remain.
pub open spec fn temp_verdict(listing: Result<u64, String>) -> VerdictModel {
    match listing {
        Ok(count) => if count < 10 {
            VerdictModel {
                check: "Temp Directory"@,
                passed: true,
                details: Some(decimal(count as nat) + " items in temp directory"@),
            }
        } else {
            VerdictModel {
                check: "Temp Directory"@,
                passed: false,
                details: Some(decimal(count as nat) + " items remain in temp directory"@),
            }
        },
        Err(e) => VerdictModel {
            check: "Temp Directory"@,
            passed: false,
            details: Some("Failed to read temp directory: "@ + e@),
        },
    }
}

/// The verdict on the browser caches: it passes when fewer than a hundred
/// cache files remain.
pub open spec fn cache_verdict(total_files: u64) -> VerdictModel {
    VerdictModel {
        check: "Browser Cache"@,
        passed: total_files < 100,
        details: Some(
            if total_files < 100 {
                decimal(total_files as nat) + " cache files found (acceptable)"@
            } else {
                decimal(total_files as nat) + " cache files still remain"@
            },
        ),
    }
}

/// Whether a text holds nothing but white space.
pub open spec fn blank(s: Seq<char>) -> bool {
    forall|i: int| 0 <= i < s.len() ==> is_white_space(#[trigger] s[i])
}

/// The verdict on the clipboard, given what reading it gave (`contents`,
/// or the error's text): it passes when the clipboard holds nothing but
/// white space.
pub open spec fn clipboard_verdict(contents: Result<String, String>) -> VerdictModel {
    match contents {
        Ok(text) => if blank(text@) {
            VerdictModel { check: "Clipboard"@, passed: true, details: Some("Clipboard cleared successfully"@) }
        } else {
            VerdictModel {
                check: "Clipboard"@,
                passed: false,
                details: Some("Clipboard still holds "@ + decimal(text@.len()) + " characters"@),
            }
        },
        Err(e) => VerdictModel {
            check: "Clipboard"@,
            passed: false,
            details: Some("Failed to read clipboard: "@ + e@),
        },
    }
}

/// The command that prints the clipboard: `Get-Clipboard` in PowerShell on
/// Windows, `pbpaste` on macOS, `xclip -selection clipboard -o` on Linux.
pub open spec fn clipboard_read_command_of(os: OS) -> (Seq<char>, Seq<Seq<char>>) {
    match os {
        OS::Windows => ("powershell"@, seq!["-NoProfile"@, "-Command"@, "Get-Clipboard"@]),
        OS::MacOS => ("pbpaste"@, Seq::empty()),
        OS::Linux => ("xclip"@, seq!["-selection"@, "clipboard"@, "-o"@]),
    }
}

/// The verdict on DNS resolution: it passes when the lookup succeeded.
pub open spec fn dns_verdict(lookup: Result<(), String>) -> VerdictModel {
    match lookup {
        Ok(_) => VerdictModel {
            check: "DNS Resolution"@,
            passed: true,
            details: Some("DNS resolution working correctly"@),
        },
        Err(e) => VerdictModel {
            check: "DNS Resolution"@,
            passed: false,
            details: Some("DNS resolution failed: "@ + e@),
        },
    }
}

/// A verdict with details.
fn verdict(check: &str, passed: bool, details: String) -> (r: ValidationResult)
    ensures
        r.check@ == check@,
        r.passed == passed,
        r.details_text() == Some(details@),
{
    ValidationResult { check: String::from_str(check), passed, details: Some(details) }
}

/// The decimal rendering of `n` followed by `tail`.
fn number_then(n: u64, tail: &str) -> (t: String)
    ensures
        t@ == decimal(n as nat) + tail@,
{
    let mut t = String::new();
    push_decimal(&mut t, n);
    t.append(tail);
    assert(t@ =~= decimal(n as nat) + tail@);
    t
}

/// The temporary directory check: it passes when fewer than ten entries
/// remain, and fails when there are more or the directory cannot be read
/// (`listing` holds the entry count or the error's text).
pub fn check_temp_directory(listing: &Result<u64, String>) -> (r: ValidationResult)
    ensures
        r@ == temp_verdict(*listing),
{
    match listing {
        Ok(count) => if *count < 10 {
            verdict("Temp Directory", true, number_then(*count, " items in temp directory"))
        } else {
            verdict("Temp Directory", false, number_then(*count, " items remain in temp directory"))
        },
        Err(e) => {
            let mut m = String::from_str("Failed to read temp directory: ");
            m.append(e.as_str());
            verdict("Temp Directory", false, m)
        },
    }
}

/// The browser cache directories that the check counts, given the home
/// directory (`/tmp` when there is none); the check only reads them.
pub open spec fn cache_check_paths_of(os: OS, home: Option<Seq<char>>) -> Seq<Seq<char>> {
    let h = match home {
        Some(h) => h,
        None => "/tmp"@,
    };
    seq![
        joined_on(os, h, ".cache/google-chrome/Default/Cache"@),
        joined_on(os, h, "Library/Caches/Google/Chrome/Default/Cache"@),
    ]
}

/// The browser cache directories that the check counts, given the home
/// directory.
pub fn cache_check_paths_for(os: OS, home: &Option<String>) -> (paths: Vec<String>)
    ensures
        texts(paths@) == cache_check_paths_of(os, opt_view(*home)),
{
    let h = match home {
        Some(h) => h.clone(),
        None => String::from_str("/tmp"),
    };
    let paths = vec![
        join_path_on(os, h.as_str(), ".cache/google-chrome/Default/Cache"),
        join_path_on(os, h.as_str(), "Library/Caches/Google/Chrome/Default/Cache"),
    ];
    assert(texts(paths@) =~= cache_check_paths_of(os, opt_view(*home)));
    paths
}

/// The browser cache directories that the check counts; the home directory
/// is asked of `dirs`.
pub fn cache_check_paths(os: OS) -> (paths: Vec<String>)
    ensures
        exists|home: Option<Seq<char>>| texts(paths@) == #[trigger] cache_check_paths_of(os, home),
{
    let home = crate::platform::home_dir();
    cache_check_paths_for(os, &home)
}

/// The browser cache check: it passes when fewer than a hundred cache files
/// remain in all the cache directories together.
pub fn check_browser_caches(total_files: u64) -> (r: ValidationResult)
    ensures
        r@ == cache_verdict(total_files),
{
    if total_files < 100 {
        verdict("Browser Cache", true, number_then(total_files, " cache files found (acceptable)"))
    } else {
        verdict("Browser Cache", false, number_then(total_files, " cache files still remain"))
    }
}

/// The command that prints the clipboard on this platform.
pub fn clipboard_read_command(os: &OS) -> (cmd: ShellCommand)
    ensures
        (cmd.program@, texts(cmd.args@)) == clipboard_read_command_of(*os),
{
    match os {
        OS::Windows => {
            let args = vec![String::from_str("-NoProfile"), String::from_str("-Command"), String::from_str("Get-Clipboard")];
            assert(texts(args@) =~= seq!["-NoProfile"@, "-Command"@, "Get-Clipboard"@]);
            ShellCommand { program: String::from_str("powershell"), args }
        },
        OS::MacOS => {
            let args: Vec<String> = Vec::new();
            assert(texts(args@) =~= Seq::<Seq<char>>::empty());
            ShellCommand { program: String::from_str("pbpaste"), args }
        },
        OS::Linux => {
            let args = vec![String::from_str("-selection"), String::from_str("clipboard"), String::from_str("-o")];
            assert(texts(args@) =~= seq!["-selection"@, "clipboard"@, "-o"@]);
            ShellCommand { program: String::from_str("xclip"), args }
        },
    }
}

/// Whether a text holds nothing but white space.
fn is_blank(text: &str) -> (b: bool)
    ensures
        b == blank(text@),
{
    let cs = chars_of(text);
    let mut i: usize = 0;
    while i < cs.len()
        invariant
            cs@ == text@,
            i <= cs@.len(),
            forall|k: int| 0 <= k < i ==> is_white_space(#[trigger] cs@[k]),
        decreases cs.len() - i,
    {
        if !white_space(cs[i]) {
            return false;
        }
        i = i + 1;
    }
    true
}

/// The clipboard check, given what reading the clipboard gave: it passes
/// when the clipboard holds nothing but white space, and fails when it
/// holds more or could not be read.
pub fn check_clipboard(contents: &Result<String, String>) -> (r: ValidationResult)
    ensures
        r@ == clipboard_verdict(*contents),
{
    match contents {
        Ok(text) => if is_blank(text.as_str()) {
            verdict("Clipboard", true, String::from_str("Clipboard cleared successfully"))
        } else {
            let n = text.as_str().unicode_len();
            let mut m = String::from_str("Clipboard still holds ");
            m.append(number_then(n as u64, " characters").as_str());
            assert(m@ =~= "Clipboard still holds "@ + decimal(text@.len()) + " characters"@);
            verdict("Clipboard", false, m)
        },
        Err(e) => {
            let mut m = String::from_str("Failed to read clipboard: ");
            m.append(e.as_str());
            verdict("Clipboard", false, m)
        },
    }
}

/// The DNS check: it passes when a well-known name resolved (`lookup`
/// holds the error's text otherwise).
pub fn check_dns_resolution(lookup: &Result<(), String>) -> (r: ValidationResult)
    ensures
        r@ == dns_verdict(*lookup),
{
    match lookup {
        Ok(_) => verdict("DNS Resolution", true, String::from_str("DNS resolution working correctly")),
        Err(e) => {
            let mut m = String::from_str("DNS resolution failed: ");
            m.append(e.as_str());
            verdict("DNS Resolution", false, m)
        },
    }
}

/// The name whose resolution the DNS check tries.
pub fn dns_probe_address() -> (a: &'static str)
    ensures
        a@ == "google.com:80"@,
{
    "google.com:80"
}

/// The verdicts after a clean-up, in order: the temporary directory
/// (`temp_listing`: its entry count, or the error's text), the browser
/// caches (`cache_files` found in all), the clipboard (`clipboard`: what
/// reading it gave), and DNS resolution (`lookup`).
pub fn validate_cleanup(
    temp_listing: &Result<u64, String>,
    cache_files: u64,
    clipboard: &Result<String, String>,
    lookup: &Result<(), String>,
) -> (r: Vec<ValidationResult>)
    ensures
        r@.map_values(|v: ValidationResult| v@) == seq![
            temp_verdict(*temp_listing),
            cache_verdict(cache_files),
            clipboard_verdict(*clipboard),
            dns_verdict(*lookup),
        ],
{
    let r = vec![
        check_temp_directory(temp_listing),
        check_browser_caches(cache_files),
        check_clipboard(clipboard),
        check_dns_resolution(lookup),
    ];
    assert(r@.map_values(|v: ValidationResult| v@) =~= seq![
        temp_verdict(*temp_listing),
        cache_verdict(cache_files),
        clipboard_verdict(*clipboard),
        dns_verdict(*lookup),
    ]);
    r
}

} // verus!

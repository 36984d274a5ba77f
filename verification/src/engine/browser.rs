//! Browser data: where each browser keeps its cache, cookies and site
//! storage, what a dry run measures, how each store is swept, and what
//! clearing a browser did.
use vstd::prelude::*;
use crate::text::{opt_view, texts, chars_of, chars_ends_with};
use crate::paths::{joined, join_path};
use crate::engine::os::{OS, cache_dirs_of};
use crate::engine::sweep::{Sweep, SweepModel, SweepMode, MissingRoot, CleanupTally, depth_of};
pub use crate::engine::scan::DryRunOperation;
use crate::engine::scan::{
    ScanTarget, ScanKind, KeepRule, TargetModel, GuardModel, MeasurePlan, plain, plain_target, targets_view,
    measure_plan_of,
};

verus! {

/// What clearing one browser's data did.
pub struct BrowserCleanupResult {
    pub browser: String,
    pub cache_cleared: bool,
    pub cookies_cleared: bool,
    pub local_storage_cleared: bool,
    pub items_removed: u64,
    pub error: Option<String>,
}

impl BrowserCleanupResult {
    /// The error text, if any.
    pub open spec fn error_text(&self) -> Option<Seq<char>> {
        opt_view(self.error)
    }
}

/// The three browsers that are cleaned.
#[derive(Clone, Copy, Debug, PartialEq, Eq, Structural)]
pub enum Browser {
    Chrome,
    Firefox,
    Edge,
}

/// `rel` inside the home directory; none when the home directory is
/// unknown.
pub open spec fn in_home(home: Option<Seq<char>>, rel: Seq<char>) -> Option<Seq<char>> {
    match home {
        Some(h) => Some(joined(h, rel)),
        None => None,
    }
}

/// The cache directory of a browser on a platform, given the home
/// directory and the `USERPROFILE` variable (empty when unset); none when
/// it lies in the home directory and that is unknown.
pub open spec fn cache_path_of(b: Browser, os: OS, home: Option<Seq<char>>, userprofile: Seq<char>) -> Option<Seq<char>> {
    match os {
        OS::Windows => Some(userprofile + match b {
            Browser::Chrome => "\\AppData\\Local\\Google\\Chrome\\User Data\\Default\\Cache"@,
            Browser::Firefox => "\\AppData\\Local\\Mozilla\\Firefox\\Profiles\\*.default-release\\cache2"@,
            Browser::Edge => "\\AppData\\Local\\Microsoft\\Edge\\User Data\\Default\\Cache"@,
        }),
        OS::MacOS => in_home(home, match b {
            Browser::Chrome => "Library/Caches/Google/Chrome/Default/Cache"@,
            Browser::Firefox => "Library/Caches/Firefox/Profiles/*.default-release/cache2"@,
            Browser::Edge => "Library/Caches/Microsoft Edge/Default/Cache"@,
        }),
        OS::Linux => in_home(home, match b {
            Browser::Chrome => ".cache/google-chrome/Default/Cache"@,
            Browser::Firefox => ".cache/mozilla/firefox/*.default-release/cache2"@,
            Browser::Edge => ".cache/microsoft-edge/Default/Cache"@,
        }),
    }
}

/// `rel` inside the home directory, when it is known.
pub fn home_joined(home: &Option<String>, rel: &str) -> (p: Option<String>)
    ensures
        opt_view(p) == in_home(opt_view(*home), rel@),
{
    match home {
        Some(h) => Some(join_path(h.as_str(), rel)),
        None => None,
    }
}

/// The paths of an optional path: none or one.
pub open spec fn paths_of(p: Option<Seq<char>>) -> Seq<Seq<char>> {
    match p {
        Some(x) => seq![x],
        None => Seq::empty(),
    }
}

/// The cache directory of a browser, given the home directory and the
/// `USERPROFILE` variable.
pub fn cache_path_for(b: Browser, os: OS, home: &Option<String>, userprofile: &str) -> (path: Option<String>)
    ensures
        opt_view(path) == cache_path_of(b, os, opt_view(*home), userprofile@),
{
    match os {
        OS::Windows => {
            let mut p = String::from_str(userprofile);
            p.append(
                match b {
                    Browser::Chrome => "\\AppData\\Local\\Google\\Chrome\\User Data\\Default\\Cache",
                    Browser::Firefox => "\\AppData\\Local\\Mozilla\\Firefox\\Profiles\\*.default-release\\cache2",
                    Browser::Edge => "\\AppData\\Local\\Microsoft\\Edge\\User Data\\Default\\Cache",
                },
            );
            Some(p)
        },
        OS::MacOS => home_joined(
            home,
            match b {
                Browser::Chrome => "Library/Caches/Google/Chrome/Default/Cache",
                Browser::Firefox => "Library/Caches/Firefox/Profiles/*.default-release/cache2",
                Browser::Edge => "Library/Caches/Microsoft Edge/Default/Cache",
            },
        ),
        OS::Linux => home_joined(
            home,
            match b {
                Browser::Chrome => ".cache/google-chrome/Default/Cache",
                Browser::Firefox => ".cache/mozilla/firefox/*.default-release/cache2",
                Browser::Edge => ".cache/microsoft-edge/Default/Cache",
            },
        ),
    }
}

/// The paths of an optional path, as a vector.
fn paths_vec(p: Option<String>) -> (v: Vec<String>)
    ensures
        texts(v@) == paths_of(opt_view(p)),
{
    match p {
        Some(x) => {
            let v = vec![x];
            assert(texts(v@) =~= paths_of(opt_view(Some(x))));
            v
        },
        None => {
            let v: Vec<String> = Vec::new();
            assert(texts(v@) =~= Seq::<Seq<char>>::empty());
            v
        },
    }
}

/// The cache directories of a browser, given the home directory and the
/// `USERPROFILE` variable: none when the home directory is needed and
/// unknown.
pub fn cache_paths_for(b: Browser, os: OS, home: &Option<String>, userprofile: &str) -> (paths: Vec<String>)
    ensures
        texts(paths@) == paths_of(cache_path_of(b, os, opt_view(*home), userprofile@)),
{
    paths_vec(cache_path_for(b, os, home, userprofile))
}

/// The cache directories of a browser; on macOS and Linux the home
/// directory is asked of `dirs`.
pub fn cache_paths(b: Browser, os: &OS, userprofile: &str) -> (paths: Vec<String>)
    ensures
        *os == OS::Windows ==> texts(paths@) == paths_of(cache_path_of(b, *os, None, userprofile@)),
        exists|home: Option<Seq<char>>| texts(paths@) == paths_of(#[trigger] cache_path_of(b, *os, home, userprofile@)),
{
    match os {
        OS::Windows => cache_paths_for(b, *os, &None, userprofile),
        _ => {
            let home = crate::platform::home_dir();
            cache_paths_for(b, *os, &home, userprofile)
        }
    }
}

/// Chrome's cache directories (`userprofile`: the `USERPROFILE` variable,
/// empty when unset).
pub fn get_chrome_cache_paths(os: &OS, userprofile: &str) -> (paths: Vec<String>)
    ensures
        *os == OS::Windows ==> texts(paths@) == paths_of(cache_path_of(Browser::Chrome, *os, None, userprofile@)),
        exists|home: Option<Seq<char>>|
            texts(paths@) == paths_of(#[trigger] cache_path_of(Browser::Chrome, *os, home, userprofile@)),
{
    cache_paths(Browser::Chrome, os, userprofile)
}

/// Firefox's cache directories.
pub fn get_firefox_cache_paths(os: &OS, userprofile: &str) -> (paths: Vec<String>)
    ensures
        *os == OS::Windows ==> texts(paths@) == paths_of(cache_path_of(Browser::Firefox, *os, None, userprofile@)),
        exists|home: Option<Seq<char>>|
            texts(paths@) == paths_of(#[trigger] cache_path_of(Browser::Firefox, *os, home, userprofile@)),
{
    cache_paths(Browser::Firefox, os, userprofile)
}

/// Edge's cache directories.
pub fn get_edge_cache_paths(os: &OS, userprofile: &str) -> (paths: Vec<String>)
    ensures
        *os == OS::Windows ==> texts(paths@) == paths_of(cache_path_of(Browser::Edge, *os, None, userprofile@)),
        exists|home: Option<Seq<char>>|
            texts(paths@) == paths_of(#[trigger] cache_path_of(Browser::Edge, *os, home, userprofile@)),
{
    cache_paths(Browser::Edge, os, userprofile)
}

/// The dry-run target of one browser's cache, measured at every depth and
/// always reported; none when its directory is unknown.
pub open spec fn cache_target(name: Seq<char>, path: Option<Seq<char>>) -> Seq<TargetModel> {
    match path {
        Some(p) => seq![plain_target(name, p, ScanKind::Tree, KeepRule::Always)],
        None => Seq::empty(),
    }
}

/// The dry-run targets of the browser caches, given the home directory.
pub open spec fn browser_targets_of(os: OS, home: Option<Seq<char>>, userprofile: Seq<char>) -> Seq<TargetModel> {
    cache_target("Chrome Cache"@, cache_path_of(Browser::Chrome, os, home, userprofile))
        + cache_target("Firefox Cache"@, cache_path_of(Browser::Firefox, os, home, userprofile))
        + cache_target("Edge Cache"@, cache_path_of(Browser::Edge, os, home, userprofile))
}

/// Appends the target of one browser's cache.
fn push_cache_target(targets: &mut Vec<ScanTarget>, name: &str, path: Option<String>)
    ensures
        targets_view(final(targets)@) == targets_view(old(targets)@) + cache_target(name@, opt_view(path)),
{
    let ghost before = targets_view(targets@);
    match path {
        Some(p) => {
            targets.push(plain(name, p, ScanKind::Tree, KeepRule::Always));
            assert(targets_view(targets@) =~= before + cache_target(name@, opt_view(Some(p))));
        },
        None => {
            assert(targets_view(targets@) =~= before + Seq::<TargetModel>::empty());
        },
    }
}

/// The dry-run targets of the browser caches, given the home directory.
pub fn browser_scan_targets_for(os: OS, home: &Option<String>, userprofile: &str) -> (targets: Vec<ScanTarget>)
    ensures
        targets_view(targets@) == browser_targets_of(os, opt_view(*home), userprofile@),
{
    let mut targets: Vec<ScanTarget> = Vec::new();
    assert(targets_view(targets@) =~= Seq::<TargetModel>::empty());
    push_cache_target(&mut targets, "Chrome Cache", cache_path_for(Browser::Chrome, os, home, userprofile));
    push_cache_target(&mut targets, "Firefox Cache", cache_path_for(Browser::Firefox, os, home, userprofile));
    push_cache_target(&mut targets, "Edge Cache", cache_path_for(Browser::Edge, os, home, userprofile));
    assert(targets_view(targets@) =~= browser_targets_of(os, opt_view(*home), userprofile@));
    targets
}

/// The dry-run targets of the browser caches; on macOS and Linux the home
/// directory is asked of `dirs`.
pub fn analyze_browser_cache(os: &OS, userprofile: &str) -> (targets: Vec<ScanTarget>)
    ensures
        exists|home: Option<Seq<char>>|
            targets_view(targets@) == #[trigger] browser_targets_of(*os, home, userprofile@),
{
    let home = match os {
        OS::Windows => None,
        _ => crate::platform::home_dir(),
    };
    browser_scan_targets_for(*os, &home, userprofile)
}

/// The path separator of a platform, as text.
pub open spec fn sep_of(os: OS) -> Seq<char> {
    if os == OS::Windows {
        "\\"@
    } else {
        "/"@
    }
}

/// `rel` inside `base`, with the platform's separator.
pub open spec fn inside(os: OS, base: Seq<char>, rel: Seq<char>) -> Seq<char> {
    base + sep_of(os) + rel
}

/// `rel` inside each of `bases`, in order.
pub open spec fn inside_each(os: OS, bases: Seq<Seq<char>>, rel: Seq<char>) -> Seq<Seq<char>> {
    Seq::new(bases.len(), |i: int| inside(os, bases[i], rel))
}

/// `rel` inside the home directory, when it is known.
pub open spec fn home_dir_rel(home: Option<Seq<char>>, rel: Seq<char>) -> Option<Seq<char>> {
    match home {
        Some(h) => Some(joined(h, rel)),
        None => None,
    }
}

/// Where a browser keeps its cookies and site storage: the default
/// profile of Chrome and Edge, the directory that holds Firefox's profiles.
/// `None` when it lies in the home directory and that is unknown.
pub open spec fn profile_dir_of(b: Browser, os: OS, home: Option<Seq<char>>, userprofile: Seq<char>) -> Option<Seq<char>> {
    match os {
        OS::Windows => Some(userprofile + match b {
            Browser::Chrome => "\\AppData\\Local\\Google\\Chrome\\User Data\\Default"@,
            Browser::Firefox => "\\AppData\\Roaming\\Mozilla\\Firefox\\Profiles"@,
            Browser::Edge => "\\AppData\\Local\\Microsoft\\Edge\\User Data\\Default"@,
        }),
        OS::MacOS => home_dir_rel(home, match b {
            Browser::Chrome => "Library/Application Support/Google/Chrome/Default"@,
            Browser::Firefox => "Library/Application Support/Firefox/Profiles"@,
            Browser::Edge => "Library/Application Support/Microsoft Edge/Default"@,
        }),
        OS::Linux => home_dir_rel(home, match b {
            Browser::Chrome => ".config/google-chrome/Default"@,
            Browser::Firefox => ".mozilla/firefox"@,
            Browser::Edge => ".config/microsoft-edge/Default"@,
        }),
    }
}

/// The directory that holds Firefox's per-profile caches; `None` when it
/// lies in the home directory and that is unknown.
pub open spec fn firefox_cache_parent_of(os: OS, home: Option<Seq<char>>, userprofile: Seq<char>) -> Option<Seq<char>> {
    match os {
        OS::Windows => Some(userprofile + "\\AppData\\Local\\Mozilla\\Firefox\\Profiles"@),
        OS::MacOS => home_dir_rel(home, "Library/Caches/Firefox/Profiles"@),
        OS::Linux => home_dir_rel(home, ".cache/mozilla/firefox"@),
    }
}

/// A Firefox profile directory that is cleaned: its name ends in
/// `.default-release`, the pattern the cache paths name.
pub open spec fn is_release_profile(name: Seq<char>) -> bool {
    ".default-release"@.is_suffix_of(name)
}

/// The profile directories inside `parent`, among the entries named
/// `names`, in order.
pub open spec fn release_profiles_of(os: OS, parent: Seq<char>, names: Seq<Seq<char>>) -> Seq<Seq<char>>
    decreases names.len(),
{
    if names.len() == 0 {
        Seq::empty()
    } else {
        let earlier = release_profiles_of(os, parent, names.drop_last());
        if is_release_profile(names.last()) {
            earlier.push(inside(os, parent, names.last()))
        } else {
            earlier
        }
    }
}

/// The sweep that removes every file at any depth of the roots that exist
/// (a root that is a file is removed itself), reported under `name`, with
/// the quoted path of any file that could not be removed.
pub open spec fn browser_sweep_of(name: Seq<char>, roots: Seq<Seq<char>>) -> SweepModel {
    SweepModel {
        category: name,
        roots,
        mode: SweepMode::AllFiles,
        count_bytes: false,
        require_dir: false,
        on_missing: MissingRoot::Skip,
        file_failure: "Failed to remove file: "@,
        quote_path: true,
    }
}

/// The three sweeps that clear a browser: its cache, its cookies and its
/// site storage.
pub struct BrowserPlan {
    pub cache: Sweep,
    pub cookies: Sweep,
    pub storage: Sweep,
}

/// What a browser's cookies and site storage are, inside its profile:
/// Chrome and Edge keep cookies in `Cookies` (and `Network/Cookies`) and
/// site storage in `Local Storage`.
pub open spec fn chromium_cookie_roots(os: OS, profile: Option<Seq<char>>) -> Seq<Seq<char>> {
    match profile {
        Some(p) => seq![inside(os, p, "Cookies"@), inside(os, inside(os, p, "Network"@), "Cookies"@)],
        None => Seq::empty(),
    }
}

/// The site storage of Chrome or Edge, inside its profile.
pub open spec fn chromium_storage_roots(os: OS, profile: Option<Seq<char>>) -> Seq<Seq<char>> {
    match profile {
        Some(p) => seq![inside(os, p, "Local Storage"@)],
        None => Seq::empty(),
    }
}

/// The display name of a browser.
pub open spec fn browser_name(b: Browser) -> Seq<char> {
    match b {
        Browser::Chrome => "Chrome"@,
        Browser::Firefox => "Firefox"@,
        Browser::Edge => "Edge"@,
    }
}

/// A vector of the paths `rel` inside each of `bases`.
pub fn inside_each_for(os: OS, bases: &Vec<String>, rel: &str) -> (v: Vec<String>)
    ensures
        texts(v@) == inside_each(os, texts(bases@), rel@),
{
    let mut v: Vec<String> = Vec::new();
    let mut i: usize = 0;
    while i < bases.len()
        invariant
            i <= bases@.len(),
            texts(v@) =~= inside_each(os, texts(bases@), rel@).take(i as int),
        decreases bases.len() - i,
    {
        let ghost before = texts(v@);
        v.push(inside_for(os, bases[i].as_str(), rel));
        assert(texts(v@) =~= before.push(inside(os, texts(bases@)[i as int], rel@)));
        assert(inside_each(os, texts(bases@), rel@).take(i + 1) =~= inside_each(os, texts(bases@), rel@).take(
            i as int,
        ).push(inside(os, texts(bases@)[i as int], rel@)));
        i = i + 1;
    }
    assert(inside_each(os, texts(bases@), rel@).take(bases@.len() as int) =~= inside_each(os, texts(bases@), rel@));
    v
}

/// `rel` inside `base`, with the platform's separator.
pub fn inside_for(os: OS, base: &str, rel: &str) -> (p: String)
    ensures
        p@ == inside(os, base@, rel@),
{
    let mut p = String::from_str(base);
    proof {
        reveal_strlit("\\");
        reveal_strlit("/");
    }
    if os == OS::Windows {
        p.append("\\");
    } else {
        p.append("/");
    }
    p.append(rel);
    p
}

/// `rel` inside the home directory, when it is known.
fn home_dir_rel_for(home: &Option<String>, rel: &str) -> (p: Option<String>)
    ensures
        opt_view(p) == home_dir_rel(opt_view(*home), rel@),
{
    match home {
        Some(h) => Some(join_path(h.as_str(), rel)),
        None => None,
    }
}

/// Where a browser keeps its cookies and site storage, given the home
/// directory and the `USERPROFILE` variable.
pub fn profile_dir_for(b: Browser, os: OS, home: &Option<String>, userprofile: &str) -> (p: Option<String>)
    ensures
        opt_view(p) == profile_dir_of(b, os, opt_view(*home), userprofile@),
{
    match os {
        OS::Windows => {
            let mut p = String::from_str(userprofile);
            p.append(
                match b {
                    Browser::Chrome => "\\AppData\\Local\\Google\\Chrome\\User Data\\Default",
                    Browser::Firefox => "\\AppData\\Roaming\\Mozilla\\Firefox\\Profiles",
                    Browser::Edge => "\\AppData\\Local\\Microsoft\\Edge\\User Data\\Default",
                },
            );
            Some(p)
        },
        OS::MacOS => home_dir_rel_for(
            home,
            match b {
                Browser::Chrome => "Library/Application Support/Google/Chrome/Default",
                Browser::Firefox => "Library/Application Support/Firefox/Profiles",
                Browser::Edge => "Library/Application Support/Microsoft Edge/Default",
            },
        ),
        OS::Linux => home_dir_rel_for(
            home,
            match b {
                Browser::Chrome => ".config/google-chrome/Default",
                Browser::Firefox => ".mozilla/firefox",
                Browser::Edge => ".config/microsoft-edge/Default",
            },
        ),
    }
}

/// The directory that holds Firefox's per-profile caches.
pub fn firefox_cache_parent_for(os: OS, home: &Option<String>, userprofile: &str) -> (p: Option<String>)
    ensures
        opt_view(p) == firefox_cache_parent_of(os, opt_view(*home), userprofile@),
{
    match os {
        OS::Windows => {
            let mut p = String::from_str(userprofile);
            p.append("\\AppData\\Local\\Mozilla\\Firefox\\Profiles");
            Some(p)
        },
        OS::MacOS => home_dir_rel_for(home, "Library/Caches/Firefox/Profiles"),
        OS::Linux => home_dir_rel_for(home, ".cache/mozilla/firefox"),
    }
}

/// The directories that hold Firefox's profiles and their caches (in that
/// order); on macOS and Linux the home directory is asked of `dirs`. The
/// caller lists them and picks the profiles with `release_profiles`.
pub fn firefox_profile_parents(os: &OS, userprofile: &str) -> (r: (Option<String>, Option<String>))
    ensures
        *os == OS::Windows ==> opt_view(r.0) == profile_dir_of(Browser::Firefox, *os, None, userprofile@)
            && opt_view(r.1) == firefox_cache_parent_of(*os, None, userprofile@),
        exists|home: Option<Seq<char>>|
            opt_view(r.0) == #[trigger] profile_dir_of(Browser::Firefox, *os, home, userprofile@)
                && opt_view(r.1) == firefox_cache_parent_of(*os, home, userprofile@),
{
    let home = match os {
        OS::Windows => None,
        _ => crate::platform::home_dir(),
    };
    (profile_dir_for(Browser::Firefox, *os, &home, userprofile), firefox_cache_parent_for(*os, &home, userprofile))
}

/// The profile directories inside `parent`, given the names of its entries.
pub fn release_profiles(os: OS, parent: &str, names: &Vec<String>) -> (v: Vec<String>)
    ensures
        texts(v@) == release_profiles_of(os, parent@, texts(names@)),
{
    proof {
        reveal_strlit(".default-release");
    }
    let marker = chars_of(".default-release");
    let mut v: Vec<String> = Vec::new();
    let mut i: usize = 0;
    while i < names.len()
        invariant
            i <= names@.len(),
            marker@ == ".default-release"@,
            texts(v@) == release_profiles_of(os, parent@, texts(names@).take(i as int)),
        decreases names.len() - i,
    {
        assert(texts(names@).take(i + 1).drop_last() =~= texts(names@).take(i as int));
        assert(texts(names@).take(i + 1).last() == names@[i as int]@);
        if chars_ends_with(&chars_of(names[i].as_str()), &marker) {
            let ghost before = texts(v@);
            v.push(inside_for(os, parent, names[i].as_str()));
            assert(texts(v@) =~= before.push(v@.last()@));
        }
        i = i + 1;
    }
    assert(texts(names@).take(names@.len() as int) =~= texts(names@));
    v
}

/// A sweep of a browser's data (see `browser_sweep_of`).
pub fn browser_sweep(name: &str, roots: Vec<String>) -> (s: Sweep)
    ensures
        s@ == browser_sweep_of(name@, texts(roots@)),
{
    Sweep {
        category: String::from_str(name),
        roots,
        mode: SweepMode::AllFiles,
        count_bytes: false,
        require_dir: false,
        on_missing: MissingRoot::Skip,
        file_failure: String::from_str("Failed to remove file: "),
        quote_path: true,
    }
}

/// The plan for Chrome or Edge, given the home directory: its cache
/// directory, its cookie files and its local storage.
pub fn chromium_plan_for(b: Browser, os: OS, home: &Option<String>, userprofile: &str) -> (plan: BrowserPlan)
    requires
        b != Browser::Firefox,
    ensures
        plan.cache@ == browser_sweep_of(browser_name(b), paths_of(cache_path_of(b, os, opt_view(*home), userprofile@))),
        plan.cookies@ == browser_sweep_of(
            browser_name(b),
            chromium_cookie_roots(os, profile_dir_of(b, os, opt_view(*home), userprofile@)),
        ),
        plan.storage@ == browser_sweep_of(
            browser_name(b),
            chromium_storage_roots(os, profile_dir_of(b, os, opt_view(*home), userprofile@)),
        ),
{
    let name = if b == Browser::Chrome { "Chrome" } else { "Edge" };
    let cache = browser_sweep(name, cache_paths_for(b, os, home, userprofile));
    let profile = profile_dir_for(b, os, home, userprofile);
    let mut cookie_roots: Vec<String> = Vec::new();
    let mut storage_roots: Vec<String> = Vec::new();
    match profile {
        Some(p) => {
            cookie_roots.push(inside_for(os, p.as_str(), "Cookies"));
            let network = inside_for(os, p.as_str(), "Network");
            cookie_roots.push(inside_for(os, network.as_str(), "Cookies"));
            storage_roots.push(inside_for(os, p.as_str(), "Local Storage"));
        },
        None => {},
    }
    let ghost pv = profile_dir_of(b, os, opt_view(*home), userprofile@);
    assert(texts(cookie_roots@) =~= chromium_cookie_roots(os, pv));
    assert(texts(storage_roots@) =~= chromium_storage_roots(os, pv));
    BrowserPlan { cache, cookies: browser_sweep(name, cookie_roots), storage: browser_sweep(name, storage_roots) }
}

/// The plan for Chrome or Edge; on macOS and Linux the home directory is
/// asked of `dirs`.
pub fn chromium_plan(b: Browser, os: &OS, userprofile: &str) -> (plan: BrowserPlan)
    requires
        b != Browser::Firefox,
    ensures
        exists|home: Option<Seq<char>>|
            plan.cache@ == browser_sweep_of(browser_name(b), paths_of(#[trigger] cache_path_of(b, *os, home, userprofile@)))
                && plan.cookies@ == browser_sweep_of(
                browser_name(b),
                chromium_cookie_roots(*os, profile_dir_of(b, *os, home, userprofile@)),
            ) && plan.storage@ == browser_sweep_of(
                browser_name(b),
                chromium_storage_roots(*os, profile_dir_of(b, *os, home, userprofile@)),
            ),
{
    let home = match os {
        OS::Windows => None,
        _ => crate::platform::home_dir(),
    };
    chromium_plan_for(b, *os, &home, userprofile)
}

/// The plan for Firefox, given its profile directories (`profiles`) and
/// the directories of their caches (`cache_profiles`): every cache's
/// `cache2`, every profile's `cookies.sqlite`, and every profile's
/// `webappsstore.sqlite` and `storage` (its local storage).
pub fn firefox_plan(os: OS, cache_profiles: &Vec<String>, profiles: &Vec<String>) -> (plan: BrowserPlan)
    ensures
        plan.cache@ == browser_sweep_of("Firefox"@, inside_each(os, texts(cache_profiles@), "cache2"@)),
        plan.cookies@ == browser_sweep_of("Firefox"@, inside_each(os, texts(profiles@), "cookies.sqlite"@)),
        plan.storage@ == browser_sweep_of(
            "Firefox"@,
            inside_each(os, texts(profiles@), "webappsstore.sqlite"@) + inside_each(os, texts(profiles@), "storage"@),
        ),
{
    let cache = browser_sweep("Firefox", inside_each_for(os, cache_profiles, "cache2"));
    let cookies = browser_sweep("Firefox", inside_each_for(os, profiles, "cookies.sqlite"));
    let mut storage_roots = inside_each_for(os, profiles, "webappsstore.sqlite");
    let mut more = inside_each_for(os, profiles, "storage");
    let ghost a = storage_roots@;
    let ghost m = more@;
    storage_roots.append(&mut more);
    assert(texts(storage_roots@) =~= texts(a) + texts(m));
    BrowserPlan { cache, cookies, storage: browser_sweep("Firefox", storage_roots) }
}

/// The message of the last failure among three steps run in order.
pub open spec fn last_error(a: Option<Seq<char>>, b: Option<Seq<char>>, c: Option<Seq<char>>) -> Option<Seq<char>> {
    if c is Some {
        c
    } else if b is Some {
        b
    } else {
        a
    }
}

/// What clearing a browser did, from the tallies of its three sweeps: each
/// store counts as cleared when its sweep removed something; the items
/// add up; the error is the last one met (cache, then cookies, then
/// storage).
pub fn browser_result(name: &str, cache: &CleanupTally, cookies: &CleanupTally, storage: &CleanupTally) -> (r: BrowserCleanupResult)
    requires
        cache.items_removed + cookies.items_removed + storage.items_removed <= u64::MAX,
    ensures
        r.browser@ == name@,
        r.cache_cleared == (cache.items_removed > 0),
        r.cookies_cleared == (cookies.items_removed > 0),
        r.local_storage_cleared == (storage.items_removed > 0),
        r.items_removed == cache.items_removed + cookies.items_removed + storage.items_removed,
        r.error_text() == last_error(opt_view(cache.error), opt_view(cookies.error), opt_view(storage.error)),
{
    let error = match &storage.error {
        Some(e) => Some(e.clone()),
        None => match &cookies.error {
            Some(e) => Some(e.clone()),
            None => match &cache.error {
                Some(e) => Some(e.clone()),
                None => None,
            },
        },
    };
    BrowserCleanupResult {
        browser: String::from_str(name),
        cache_cleared: cache.items_removed > 0,
        cookies_cleared: cookies.items_removed > 0,
        local_storage_cleared: storage.items_removed > 0,
        items_removed: cache.items_removed + cookies.items_removed + storage.items_removed,
        error,
    }
}

/// The results of the browser clean-up, in order: Chrome, Firefox, Edge.
pub fn clear_browser_cache(
    chrome: BrowserCleanupResult,
    firefox: BrowserCleanupResult,
    edge: BrowserCleanupResult,
) -> (r: Vec<BrowserCleanupResult>)
    ensures
        r@ == seq![chrome, firefox, edge],
{
    let r = vec![chrome, firefox, edge];
    assert(r@ =~= seq![chrome, firefox, edge]);
    r
}

/// The place of a browser in the platform's list of cache directories.
pub open spec fn browser_index(b: Browser) -> int {
    match b {
        Browser::Chrome => 0,
        Browser::Firefox => 1,
        Browser::Edge => 2,
    }
}

/// Each browser's cache directory is the one that the platform's list of
/// cache directories (`OS::get_cache_dirs`) names for it: on macOS and
/// Linux the home directory joined with the listed path after its `~/`;
/// on Windows the user profile's `AppData\Local` followed by the listed
/// path after its `{LOCALAPPDATA}`.
pub proof fn law_cache_paths_follow_listed_dirs(b: Browser, os: OS, home: Seq<char>, userprofile: Seq<char>)
    ensures
        os != OS::Windows ==> cache_dirs_of(os)[browser_index(b)].take(2) == "~/"@ && cache_path_of(
            b,
            os,
            Some(home),
            userprofile,
        ) == Some(joined(home, cache_dirs_of(os)[browser_index(b)].skip(2))),
        os == OS::Windows ==> cache_dirs_of(os)[browser_index(b)].take(14) == "{LOCALAPPDATA}"@ && cache_path_of(
            b,
            os,
            Some(home),
            userprofile,
        ) == Some(userprofile + "\\AppData\\Local"@ + cache_dirs_of(os)[browser_index(b)].skip(14)),
{
    reveal_strlit("~/");
    reveal_strlit("{LOCALAPPDATA}");
    reveal_strlit("\\AppData\\Local");
    reveal_strlit("{LOCALAPPDATA}\\Google\\Chrome\\User Data\\Default\\Cache");
    reveal_strlit("{LOCALAPPDATA}\\Mozilla\\Firefox\\Profiles\\*.default-release\\cache2");
    reveal_strlit("{LOCALAPPDATA}\\Microsoft\\Edge\\User Data\\Default\\Cache");
    reveal_strlit("\\AppData\\Local\\Google\\Chrome\\User Data\\Default\\Cache");
    reveal_strlit("\\AppData\\Local\\Mozilla\\Firefox\\Profiles\\*.default-release\\cache2");
    reveal_strlit("\\AppData\\Local\\Microsoft\\Edge\\User Data\\Default\\Cache");
    reveal_strlit("~/Library/Caches/Google/Chrome/Default/Cache");
    reveal_strlit("~/Library/Caches/Firefox/Profiles/*.default-release/cache2");
    reveal_strlit("~/Library/Caches/Microsoft Edge/Default/Cache");
    reveal_strlit("Library/Caches/Google/Chrome/Default/Cache");
    reveal_strlit("Library/Caches/Firefox/Profiles/*.default-release/cache2");
    reveal_strlit("Library/Caches/Microsoft Edge/Default/Cache");
    reveal_strlit("~/.cache/google-chrome/Default/Cache");
    reveal_strlit("~/.cache/mozilla/firefox/*.default-release/cache2");
    reveal_strlit("~/.cache/microsoft-edge/Default/Cache");
    reveal_strlit(".cache/google-chrome/Default/Cache");
    reveal_strlit(".cache/mozilla/firefox/*.default-release/cache2");
    reveal_strlit(".cache/microsoft-edge/Default/Cache");
    let listed = cache_dirs_of(os)[browser_index(b)];
    if os == OS::Windows {
        assert(listed.take(14) =~= "{LOCALAPPDATA}"@);
        let rel = match b {
            Browser::Chrome => "\\AppData\\Local\\Google\\Chrome\\User Data\\Default\\Cache"@,
            Browser::Firefox => "\\AppData\\Local\\Mozilla\\Firefox\\Profiles\\*.default-release\\cache2"@,
            Browser::Edge => "\\AppData\\Local\\Microsoft\\Edge\\User Data\\Default\\Cache"@,
        };
        assert(rel =~= "\\AppData\\Local"@ + listed.skip(14));
        assert(userprofile + rel =~= userprofile + "\\AppData\\Local"@ + listed.skip(14));
    } else {
        assert(listed.take(2) =~= "~/"@);
        let rel = match os {
            OS::MacOS => match b {
                Browser::Chrome => "Library/Caches/Google/Chrome/Default/Cache"@,
                Browser::Firefox => "Library/Caches/Firefox/Profiles/*.default-release/cache2"@,
                Browser::Edge => "Library/Caches/Microsoft Edge/Default/Cache"@,
            },
            _ => match b {
                Browser::Chrome => ".cache/google-chrome/Default/Cache"@,
                Browser::Firefox => ".cache/mozilla/firefox/*.default-release/cache2"@,
                Browser::Edge => ".cache/microsoft-edge/Default/Cache"@,
            },
        };
        assert(rel =~= listed.skip(2));
    }
}

/// The dry run measures every browser cache as deep as the clean-up sweeps
/// it: each browser target is counted without a depth limit, the depth of
/// the walk of a browser sweep.
pub proof fn law_browser_caches_measured_as_deep_as_swept(
    os: OS,
    home: Option<Seq<char>>,
    userprofile: Seq<char>,
    i: int,
    guard_path_exists: bool,
    name: Seq<char>,
    roots: Seq<Seq<char>>,
)
    requires
        0 <= i < browser_targets_of(os, home, userprofile).len(),
    ensures
        measure_plan_of(browser_targets_of(os, home, userprofile)[i], guard_path_exists) == (MeasurePlan::CountFiles {
            depth: depth_of(browser_sweep_of(name, roots).mode),
            rotated_only: false,
        }),
        depth_of(browser_sweep_of(name, roots).mode) is None,
{
    let ts = browser_targets_of(os, home, userprofile);
    let c = cache_target("Chrome Cache"@, cache_path_of(Browser::Chrome, os, home, userprofile));
    let f = cache_target("Firefox Cache"@, cache_path_of(Browser::Firefox, os, home, userprofile));
    let e = cache_target("Edge Cache"@, cache_path_of(Browser::Edge, os, home, userprofile));
    assert(forall|j: int| 0 <= j < c.len() ==> (#[trigger] c[j]).scan == ScanKind::Tree && c[j].guard == GuardModel::Always);
    assert(forall|j: int| 0 <= j < f.len() ==> (#[trigger] f[j]).scan == ScanKind::Tree && f[j].guard == GuardModel::Always);
    assert(forall|j: int| 0 <= j < e.len() ==> (#[trigger] e[j]).scan == ScanKind::Tree && e[j].guard == GuardModel::Always);
    let t = ts[i];
    if i < c.len() {
        assert(t == c[i]);
    } else if i < c.len() + f.len() {
        assert(t == f[i - c.len()]);
    } else {
        assert(t == e[i - c.len() - f.len()]);
    }
}

} // verus!

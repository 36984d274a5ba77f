//! The three supported platforms and where each keeps its files.
use vstd::prelude::*;
use crate::text::{opt_view, texts};
use crate::paths::{joined, join_path};

verus! {

/// A supported operating system.
#[derive(Clone, Copy, Debug, PartialEq, Eq, Structural)]
pub enum OS {
    Windows,
    MacOS,
    Linux,
}

/// The platform for a target operating system name (as Rust names them):
/// `windows` and `macos` are recognised, everything else counts as Linux.
pub open spec fn os_for_target(target: Seq<char>) -> OS {
    if target == "windows"@ {
        OS::Windows
    } else if target == "macos"@ {
        OS::MacOS
    } else {
        OS::Linux
    }
}

/// The browser cache directory templates listed for each platform.
pub open spec fn cache_dirs_of(os: OS) -> Seq<Seq<char>> {
    match os {
        OS::Windows => seq![
            "{LOCALAPPDATA}\\Google\\Chrome\\User Data\\Default\\Cache"@,
            "{LOCALAPPDATA}\\Mozilla\\Firefox\\Profiles\\*.default-release\\cache2"@,
            "{LOCALAPPDATA}\\Microsoft\\Edge\\User Data\\Default\\Cache"@,
        ],
        OS::MacOS => seq![
            "~/Library/Caches/Google/Chrome/Default/Cache"@,
            "~/Library/Caches/Firefox/Profiles/*.default-release/cache2"@,
            "~/Library/Caches/Microsoft Edge/Default/Cache"@,
        ],
        OS::Linux => seq![
            "~/.cache/google-chrome/Default/Cache"@,
            "~/.cache/mozilla/firefox/*.default-release/cache2"@,
            "~/.cache/microsoft-edge/Default/Cache"@,
        ],
    }
}

/// Where each platform keeps its hosts file.
pub open spec fn hosts_path_of(os: OS) -> Seq<char> {
    match os {
        OS::Windows => "C:\\Windows\\System32\\drivers\\etc\\hosts"@,
        OS::MacOS => "/etc/hosts"@,
        OS::Linux => "/etc/hosts"@,
    }
}

/// The user-specific temporary directory: on Windows the `TEMP` variable
/// (`C:\Temp` when unset); elsewhere `temp` inside the user's cache
/// directory, and none when there is no cache directory, so that the
/// system-wide `/tmp` is never cleaned.
pub open spec fn temp_dir_of(os: OS, temp_var: Option<Seq<char>>, cache: Option<Seq<char>>) -> Option<Seq<char>> {
    match os {
        OS::Windows => Some(match temp_var {
            Some(t) => t,
            None => "C:\\Temp"@,
        }),
        _ => match cache {
            Some(c) => Some(joined(c, "temp"@)),
            None => None,
        },
    }
}

/// The display name of each platform.
pub open spec fn os_name(os: OS) -> Seq<char> {
    match os {
        OS::Windows => "Windows"@,
        OS::MacOS => "macOS"@,
        OS::Linux => "Linux"@,
    }
}

impl OS {
    /// The platform that this program runs on, from the target's operating
    /// system name (`std::env::consts::OS`).
    pub fn detect(target_os: &str) -> (os: OS)
        ensures
            os == os_for_target(target_os@),
    {
        if crate::text::str_equal(target_os, "windows") {
            OS::Windows
        } else if crate::text::str_equal(target_os, "macos") {
            OS::MacOS
        } else {
            OS::Linux
        }
    }

    /// The browser cache directory templates of this platform.
    pub fn get_cache_dirs(&self) -> (dirs: Vec<String>)
        ensures
            texts(dirs@) == cache_dirs_of(*self),
    {
        let dirs: Vec<String> = match self {
            OS::Windows => vec![
                String::from_str("{LOCALAPPDATA}\\Google\\Chrome\\User Data\\Default\\Cache"),
                String::from_str("{LOCALAPPDATA}\\Mozilla\\Firefox\\Profiles\\*.default-release\\cache2"),
                String::from_str("{LOCALAPPDATA}\\Microsoft\\Edge\\User Data\\Default\\Cache"),
            ],
            OS::MacOS => vec![
                String::from_str("~/Library/Caches/Google/Chrome/Default/Cache"),
                String::from_str("~/Library/Caches/Firefox/Profiles/*.default-release/cache2"),
                String::from_str("~/Library/Caches/Microsoft Edge/Default/Cache"),
            ],
            OS::Linux => vec![
                String::from_str("~/.cache/google-chrome/Default/Cache"),
                String::from_str("~/.cache/mozilla/firefox/*.default-release/cache2"),
                String::from_str("~/.cache/microsoft-edge/Default/Cache"),
            ],
        };
        assert(texts(dirs@) =~= cache_dirs_of(*self));
        dirs
    }

    /// The temporary directory of this platform, given the value of the
    /// `TEMP` variable and the user's cache directory.
    pub fn temp_dir_for(&self, temp_var: Option<String>, cache: Option<String>) -> (dir: Option<String>)
        ensures
            opt_view(dir) == temp_dir_of(*self, opt_view(temp_var), opt_view(cache)),
    {
        match self {
            OS::Windows => match temp_var {
                Some(t) => Some(t),
                None => Some(String::from_str("C:\\Temp")),
            },
            _ => match cache {
                Some(c) => Some(join_path(c.as_str(), "temp")),
                None => None,
            },
        }
    }

    /// The temporary directory of this platform. `temp_var` is the value of
    /// the `TEMP` variable; on macOS and Linux the user's cache directory is
    /// asked of `dirs`; without one there is no temporary directory to
    /// clean.
    pub fn get_temp_dir(&self, temp_var: Option<String>) -> (dir: Option<String>)
        ensures
            *self == OS::Windows ==> opt_view(dir) == temp_dir_of(OS::Windows, opt_view(temp_var), None),
            *self != OS::Windows ==> exists|cache: Option<Seq<char>>|
                opt_view(dir) == #[trigger] temp_dir_of(*self, None, cache),
    {
        match self {
            OS::Windows => self.temp_dir_for(temp_var, None),
            _ => {
                let cache = crate::platform::cache_dir();
                let dir = self.temp_dir_for(None, cache);
                assert(opt_view(dir) == temp_dir_of(*self, None, opt_view(cache)));
                dir
            }
        }
    }

    /// Where this platform keeps its hosts file.
    pub fn get_hosts_file_path(&self) -> (path: String)
        ensures
            path@ == hosts_path_of(*self),
    {
        match self {
            OS::Windows => String::from_str("C:\\Windows\\System32\\drivers\\etc\\hosts"),
            OS::MacOS => String::from_str("/etc/hosts"),
            OS::Linux => String::from_str("/etc/hosts"),
        }
    }

    /// The display name of this platform.
    pub fn name(&self) -> (name: String)
        ensures
            name@ == os_name(*self),
    {
        match self {
            OS::Windows => String::from_str("Windows"),
            OS::MacOS => String::from_str("macOS"),
            OS::Linux => String::from_str("Linux"),
        }
    }
}

/// On macOS and Linux the temporary directory that is cleaned lies inside
/// the user's cache directory; without a cache directory there is none.
/// Either way it is never the system-wide `/tmp`.
pub proof fn law_user_temp_inside_cache(os: OS, temp_var: Option<Seq<char>>, cache: Option<Seq<char>>)
    requires
        os != OS::Windows,
    ensures
        temp_dir_of(os, temp_var, cache) is Some <==> cache is Some,
        cache matches Some(c) ==> c.is_prefix_of(temp_dir_of(os, temp_var, cache)->0)
            && temp_dir_of(os, temp_var, cache)->0.len() > c.len(),
        temp_dir_of(os, temp_var, cache) != Some("/tmp"@),
{
    reveal_strlit("temp");
    reveal_strlit("/tmp");
    if let Some(c) = cache {
        let d = temp_dir_of(os, temp_var, cache)->0;
        assert(d.subrange(0, c.len() as int) =~= c);
        assert(d[d.len() - 3] == 'e');
        if d == "/tmp"@ {
            assert("/tmp"@[1] == 't');
        }
    }
}

} // verus!

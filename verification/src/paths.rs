//! Joining path components the way a Unix path buffer does.
use vstd::prelude::*;
use crate::engine::os::OS;

verus! {

/// `base` joined with the relative component `rel`: a `/` is put between
/// them unless `base` is empty or already ends with `/`.
pub open spec fn joined(base: Seq<char>, rel: Seq<char>) -> Seq<char> {
    if base.len() == 0 || base.last() == '/' {
        base + rel
    } else {
        base + seq!['/'] + rel
    }
}

/// Joins the relative component `rel` onto `base` with the Unix separator.
pub fn join_path(base: &str, rel: &str) -> (p: String)
    ensures
        p@ == joined(base@, rel@),
{
    let n = base.unicode_len();
    let mut p = String::from_str(base);
    if n > 0 && base.get_char(n - 1) != '/' {
        p.append("/");
        proof {
            reveal_strlit("/");
        }
    }
    p.append(rel);
    p
}

/// A path separator of a platform: `/`, and on Windows also `\`.
pub open spec fn is_separator_on(os: OS, c: char) -> bool {
    c == '/' || (os == OS::Windows && c == '\\')
}

/// `base` joined with the relative component `rel` on a platform: the
/// platform's separator (`\` on Windows, `/` elsewhere) is put between them
/// unless `base` is empty or already ends with a separator.
pub open spec fn joined_on(os: OS, base: Seq<char>, rel: Seq<char>) -> Seq<char> {
    if base.len() == 0 || is_separator_on(os, base.last()) {
        base + rel
    } else if os == OS::Windows {
        base + seq!['\\'] + rel
    } else {
        base + seq!['/'] + rel
    }
}

/// Joins the relative component `rel` onto `base` on a platform.
pub fn join_path_on(os: OS, base: &str, rel: &str) -> (p: String)
    ensures
        p@ == joined_on(os, base@, rel@),
{
    let n = base.unicode_len();
    let mut p = String::from_str(base);
    proof {
        reveal_strlit("/");
        reveal_strlit("\\");
    }
    if n > 0 {
        let last = base.get_char(n - 1);
        let ends_in_separator = last == '/' || (os == OS::Windows && last == '\\');
        if !ends_in_separator {
            if os == OS::Windows {
                p.append("\\");
            } else {
                p.append("/");
            }
        }
    }
    p.append(rel);
    p
}

/// Off Windows, joining on a platform is joining with `/`.
pub proof fn law_unix_join_is_joined(os: OS, base: Seq<char>, rel: Seq<char>)
    requires
        os != OS::Windows,
    ensures
        joined_on(os, base, rel) == joined(base, rel),
{
}

} // verus!

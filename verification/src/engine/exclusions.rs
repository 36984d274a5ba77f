//! Paths and name patterns that a clean-up pass must leave alone.
use vstd::prelude::*;
use crate::text::{chars_of, chars_equal, chars_starts_with, chars_ends_with, chars_contain, has_infix, occurs_at};

verus! {

/// A path separator (`/`, or `\\` on Windows).
pub open spec fn is_separator(c: char) -> bool {
    c == '/' || c == '\\'
}

/// `path` is `base` itself or lies below it: `base` is a non-empty prefix
/// of `path` that ends where a path component ends.
pub open spec fn at_or_below(path: Seq<char>, base: Seq<char>) -> bool {
    &&& base.len() > 0
    &&& base.is_prefix_of(path)
    &&& (path.len() == base.len() || is_separator(path[base.len() as int]) || is_separator(base.last()))
}

/// The pattern text `*.`, which marks an extension pattern.
pub open spec fn ext_marker() -> Seq<char> {
    seq!['*', '.']
}

/// Whether `path` matches one ignore pattern:
/// - `*.ext` matches every path that ends with `.ext`;
/// - `text*` matches every path that contains `text`;
/// - any other pattern matches every path that contains it.
pub open spec fn pattern_matches(path: Seq<char>, pattern: Seq<char>) -> bool {
    if ext_marker().is_prefix_of(pattern) {
        pattern.skip(1).is_suffix_of(path)
    } else if pattern.len() > 0 && pattern.last() == '*' {
        has_infix(path, pattern.drop_last())
    } else {
        has_infix(path, pattern)
    }
}

/// Whether some pattern of `patterns` matches `path`.
pub open spec fn some_pattern_matches(path: Seq<char>, patterns: Seq<Seq<char>>) -> bool {
    exists|i: int| 0 <= i < patterns.len() && pattern_matches(path, #[trigger] patterns[i])
}

/// Whether `path` is excluded by an exact entry or by a pattern.
pub open spec fn excluded_by(
    excluded: Set<Seq<char>>,
    patterns: Seq<Seq<char>>,
    path: Seq<char>,
) -> bool {
    excluded.contains(path) || some_pattern_matches(path, patterns)
}

/// Paths that must never be cleaned, and patterns of names to ignore.
///
/// `excluded_paths` is a set: the vector never holds one path twice
/// (`wf`). The set that it stands for is `excluded_set`.
pub struct ExclusionConfig {
    pub excluded_paths: Vec<String>,
    pub ignore_patterns: Vec<String>,
}

impl ExclusionConfig {
    /// The exact paths, as a set of character sequences.
    pub open spec fn excluded_set(&self) -> Set<Seq<char>> {
        self.excluded_paths.deep_view().to_set()
    }

    /// The ignore patterns, as character sequences, in order.
    pub open spec fn patterns(&self) -> Seq<Seq<char>> {
        self.ignore_patterns.deep_view()
    }

    /// No exact path is stored twice.
    pub open spec fn wf(&self) -> bool {
        self.excluded_paths.deep_view().no_duplicates()
    }

    /// Whether this configuration excludes `path`.
    pub open spec fn excludes(&self, path: Seq<char>) -> bool {
        excluded_by(self.excluded_set(), self.patterns(), path)
    }

    /// Whether `path` is excluded itself (an exact path, or one that a
    /// pattern matches) or lies below one of the exact excluded paths.
    pub open spec fn shields(&self, path: Seq<char>) -> bool {
        ||| self.excludes(path)
        ||| exists|k: int|
            1 <= k <= path.len() && #[trigger] at_or_below(path, path.take(k)) && self.excluded_set().contains(
                path.take(k),
            )
    }

    /// Whether `path` is stored among the exact paths.
    fn has_exact(&self, path: &Vec<char>) -> (b: bool)
        ensures
            b == self.excluded_set().contains(path@),
    {
        let n = self.excluded_paths.len();
        let mut i: usize = 0;
        while i < n
            invariant
                n == self.excluded_paths@.len(),
                i <= n,
                forall|k: int| 0 <= k < i ==> self.excluded_paths@[k]@ != path@,
            decreases n - i,
        {
            if chars_equal(&chars_of(self.excluded_paths[i].as_str()), path) {
                assert(self.excluded_paths.deep_view()[i as int] == path@);
                return true;
            }
            i = i + 1;
        }
        proof {
            if self.excluded_set().contains(path@) {
                let k = choose|k: int|
                    0 <= k < self.excluded_paths.deep_view().len()
                        && self.excluded_paths.deep_view()[k] == path@;
                assert(self.excluded_paths@[k]@ == path@);
            }
        }
        false
    }

    /// Whether `path` (a path rendered as text) must be left alone: it is
    /// one of the exact paths, or one of the ignore patterns matches it.
    pub fn is_excluded(&self, path: &str) -> (b: bool)
        ensures
            b == self.excludes(path@),
    {
        self.excludes_chars(&chars_of(path))
    }

    /// Whether `path` is excluded or lies below an exact excluded path.
    pub fn is_shielded(&self, path: &str) -> (b: bool)
        ensures
            b == self.shields(path@),
    {
        let p = chars_of(path);
        if self.excludes_chars(&p) {
            return true;
        }
        let n = p.len();
        let mut prefix: Vec<char> = Vec::new();
        let mut k: usize = 0;
        while k < n
            invariant
                n == p@.len(),
                p@ == path@,
                k <= n,
                prefix@ == p@.take(k as int),
                !self.excludes(p@),
                forall|j: int|
                    1 <= j <= k ==> !(#[trigger] at_or_below(p@, p@.take(j)) && self.excluded_set().contains(p@.take(j))),
            decreases n - k,
        {
            prefix.push(p[k]);
            k = k + 1;
            assert(prefix@ =~= p@.take(k as int));
            let boundary = k == n || p[k - 1] == '/' || p[k - 1] == '\\' || (k < n && (p[k] == '/' || p[k] == '\\'));
            assert(p@.take(k as int).is_prefix_of(p@)) by {
                assert(p@.subrange(0, k as int) =~= p@.take(k as int));
            }
            assert(boundary == at_or_below(p@, p@.take(k as int)));
            if boundary && self.has_exact(&prefix) {
                return true;
            }
        }
        false
    }

    /// Whether the path with the characters `path` is excluded.
    fn excludes_chars(&self, path: &Vec<char>) -> (b: bool)
        ensures
            b == self.excludes(path@),
    {
        if self.has_exact(path) {
            return true;
        }
        let n = self.ignore_patterns.len();
        let mut i: usize = 0;
        while i < n
            invariant
                n == self.ignore_patterns@.len(),
                i <= n,
                forall|k: int| 0 <= k < i ==> !pattern_matches(path@, #[trigger] self.patterns()[k]),
            decreases n - i,
        {
            if pattern_matches_chars(path, self.ignore_patterns[i].as_str()) {
                assert(pattern_matches(path@, self.patterns()[i as int]));
                return true;
            }
            i = i + 1;
        }
        false
    }

    /// Simple glob-like matching of one pattern against a path
    /// (see `pattern_matches`).
    pub fn matches_pattern(&self, path: &str, pattern: &str) -> (b: bool)
        ensures
            b == pattern_matches(path@, pattern@),
    {
        pattern_matches_chars(&chars_of(path), pattern)
    }
}

/// Whether one pattern matches the path with the characters `p`.
fn pattern_matches_chars(p: &Vec<char>, pattern: &str) -> (b: bool)
    ensures
        b == pattern_matches(p@, pattern@),
{
    {
        let pat = chars_of(pattern);
        let marker: Vec<char> = vec!['*', '.'];
        assert(marker@ =~= ext_marker());
        if chars_starts_with(&pat, &marker) {
            let mut ext: Vec<char> = Vec::new();
            let mut i: usize = 1;
            while i < pat.len()
                invariant
                    1 <= i <= pat@.len(),
                    ext@ =~= pat@.subrange(1, i as int),
                decreases pat.len() - i,
            {
                ext.push(pat[i]);
                i = i + 1;
            }
            assert(ext@ =~= pat@.skip(1));
            return chars_ends_with(p, &ext);
        }
        if pat.len() > 0 && pat[pat.len() - 1] == '*' {
            let mut prefix: Vec<char> = Vec::new();
            let mut i: usize = 0;
            while i + 1 < pat.len()
                invariant
                    pat@.len() > 0,
                    i <= pat@.len() - 1,
                    prefix@ =~= pat@.subrange(0, i as int),
                decreases pat.len() - i,
            {
                prefix.push(pat[i]);
                i = i + 1;
            }
            assert(prefix@ =~= pat@.drop_last());
            return chars_contain(p, &prefix);
        }
        chars_contain(p, &pat)
    }
}

impl ExclusionConfig {

    /// Adds `path` to the exact paths (a set: adding a present path
    /// changes nothing).
    pub fn add_exclusion(&mut self, path: String)
        ensures
            final(self).excluded_set() == old(self).excluded_set().insert(path@),
            final(self).excluded_paths.deep_view() == (if old(self).excluded_set().contains(path@) {
                old(self).excluded_paths.deep_view()
            } else {
                old(self).excluded_paths.deep_view().push(path@)
            }),
            final(self).patterns() == old(self).patterns(),
            old(self).wf() ==> final(self).wf(),
    {
        if !self.has_exact(&chars_of(path.as_str())) {
            let ghost before = self.excluded_paths.deep_view();
            self.excluded_paths.push(path);
            proof {
                let after = self.excluded_paths.deep_view();
                assert(after =~= before.push(path@));
                lemma_push_keeps_set_and_uniqueness(before, path@);
            }
        } else {
            assert(self.excluded_set().insert(path@) =~= self.excluded_set());
        }
    }

    /// Removes `path` from the exact paths (a set: removing an absent
    /// path changes nothing).
    pub fn remove_exclusion(&mut self, path: &str)
        ensures
            final(self).excluded_set() == old(self).excluded_set().remove(path@),
            final(self).excluded_paths.deep_view() == old(self).excluded_paths.deep_view().filter(
                |q: Seq<char>| q != path@,
            ),
            final(self).patterns() == old(self).patterns(),
            old(self).wf() ==> final(self).wf(),
    {
        let ghost keep = |q: Seq<char>| q != path@;
        let ghost before = self.excluded_paths.deep_view();
        let mut kept: Vec<String> = Vec::new();
        let n = self.excluded_paths.len();
        let mut i: usize = 0;
        while i < n
            invariant
                n == self.excluded_paths@.len(),
                before == self.excluded_paths.deep_view(),
                i <= n,
                kept.deep_view().to_set() == before.take(i as int).to_set().remove(path@),
                before.no_duplicates() ==> kept.deep_view().no_duplicates(),
                forall|q: Seq<char>| kept.deep_view().contains(q) ==> before.take(i as int).contains(q),
                kept.deep_view() == before.take(i as int).filter(keep),
                keep == (|q: Seq<char>| q != path@),
            decreases n - i,
        {
            let ghost kd = kept.deep_view();
            proof {
                assert(before.take(i + 1) =~= before.take(i as int).push(before[i as int]));
                assert(before.take(i + 1).drop_last() =~= before.take(i as int));
                assert(before.take(i + 1).last() == before[i as int]);
                assert(before.take(i + 1).len() == i + 1);
                reveal_with_fuel(Seq::<Seq<char>>::filter, 1);
                assert(before.take(i + 1).filter(keep) == (if keep(before[i as int]) {
                    before.take(i as int).filter(keep).push(before[i as int])
                } else {
                    before.take(i as int).filter(keep)
                }));
                before.take(i as int).lemma_push_to_set_commute(before[i as int]);
            }
            if !crate::text::str_equal(self.excluded_paths[i].as_str(), path) {
                let s = self.excluded_paths[i].clone();
                kept.push(s);
                proof {
                    assert(kept.deep_view() =~= kd.push(before[i as int]));
                    kd.lemma_push_to_set_commute(before[i as int]);
                    assert(kept.deep_view().to_set() =~= before.take(i + 1).to_set().remove(path@));
                    if before.no_duplicates() {
                        assert(!kd.contains(before[i as int])) by {
                            if kd.contains(before[i as int]) {
                                assert(before.take(i as int).contains(before[i as int]));
                                let j = choose|j: int| 0 <= j < i && before.take(i as int)[j] == before[i as int];
                                assert(before[j] == before[i as int]);
                            }
                        }
                        lemma_push_keeps_set_and_uniqueness(kd, before[i as int]);
                    }
                    assert forall|q: Seq<char>| kept.deep_view().contains(q) implies before.take(i + 1).contains(q) by {
                        let k = choose|k: int| 0 <= k < kept.deep_view().len() && kept.deep_view()[k] == q;
                        if k < kd.len() {
                            assert(kd.contains(q));
                            let j = choose|j: int| 0 <= j < i && before.take(i as int)[j] == q;
                            assert(before.take(i + 1)[j] == q);
                        } else {
                            assert(before.take(i + 1)[i as int] == q);
                        }
                    }
                }
            } else {
                proof {
                    assert(kd.to_set() =~= before.take(i + 1).to_set().remove(path@));
                    assert forall|q: Seq<char>| kd.contains(q) implies before.take(i + 1).contains(q) by {
                        let j = choose|j: int| 0 <= j < i && before.take(i as int)[j] == q;
                        assert(before.take(i + 1)[j] == q);
                    }
                }
            }
            i = i + 1;
        }
        proof {
            assert(before.take(n as int) =~= before);
            assert(before.take(0) =~= Seq::<Seq<char>>::empty());
        }
        self.excluded_paths = kept;
    }
}

/// Pushing `x` onto a sequence adds `x` to its set, and keeps it free of
/// duplicates when `x` was absent.
proof fn lemma_push_keeps_set_and_uniqueness(s: Seq<Seq<char>>, x: Seq<char>)
    ensures
        s.push(x).to_set() == s.to_set().insert(x),
        s.no_duplicates() && !s.contains(x) ==> s.push(x).no_duplicates(),
{
    s.lemma_push_to_set_commute(x);
    if s.no_duplicates() && !s.contains(x) {
        assert forall|a: int, b: int| 0 <= a < s.push(x).len() && 0 <= b < s.push(x).len() && a != b
            implies s.push(x)[a] != s.push(x)[b] by {
            if a == s.len() as int {
                assert(s[b] == s.push(x)[b]);
            } else if b == s.len() as int {
                assert(s[a] == s.push(x)[a]);
            }
        }
    }
}

impl Default for ExclusionConfig {
    /// No exact paths; the patterns `*.git`, `node_modules`, `.env`, `*.log`.
    fn default() -> (cfg: Self)
        ensures
            cfg.excluded_paths@.len() == 0,
            cfg.patterns() == seq!["*.git"@, "node_modules"@, ".env"@, "*.log"@],
    {
        let patterns: Vec<String> = vec![
            String::from_str("*.git"),
            String::from_str("node_modules"),
            String::from_str(".env"),
            String::from_str("*.log"),
        ];
        let cfg = ExclusionConfig { excluded_paths: Vec::new(), ignore_patterns: patterns };
        assert(cfg.patterns() =~= seq!["*.git"@, "node_modules"@, ".env"@, "*.log"@]);
        cfg
    }
}

/// Once a path has been added as an exclusion, it is excluded.
pub proof fn law_added_path_is_excluded(before: ExclusionConfig, after: ExclusionConfig, p: Seq<char>)
    requires
        after.excluded_set() == before.excluded_set().insert(p),
        after.patterns() == before.patterns(),
    ensures
        after.excludes(p),
{
}

/// Adding an exclusion never makes an excluded path eligible for clean-up.
pub proof fn law_adding_keeps_exclusions(before: ExclusionConfig, after: ExclusionConfig, p: Seq<char>)
    requires
        after.excluded_set() == before.excluded_set().insert(p),
        after.patterns() == before.patterns(),
    ensures
        forall|q: Seq<char>| before.excludes(q) ==> after.excludes(q),
{
}

/// After a path has been removed from the exclusions, it is excluded only
/// if one of the ignore patterns matches it.
pub proof fn law_removed_path_only_by_pattern(before: ExclusionConfig, after: ExclusionConfig, p: Seq<char>)
    requires
        after.excluded_set() == before.excluded_set().remove(p),
        after.patterns() == before.patterns(),
    ensures
        after.excludes(p) == some_pattern_matches(p, before.patterns()),
        forall|q: Seq<char>| q != p ==> (after.excludes(q) == before.excludes(q)),
{
}

/// Removing a path that was just added, and was not there before, gives
/// back the set of exact paths from before the addition.
pub proof fn law_remove_undoes_add(
    before: ExclusionConfig,
    middle: ExclusionConfig,
    after: ExclusionConfig,
    p: Seq<char>,
)
    requires
        !before.excluded_set().contains(p),
        middle.excluded_set() == before.excluded_set().insert(p),
        middle.patterns() == before.patterns(),
        after.excluded_set() == middle.excluded_set().remove(p),
        after.patterns() == middle.patterns(),
    ensures
        after.excluded_set() == before.excluded_set(),
        after.patterns() == before.patterns(),
{
    assert(after.excluded_set() =~= before.excluded_set());
}

/// The pattern `*` matches every path.
pub proof fn law_star_matches_every_path(path: Seq<char>)
    ensures
        pattern_matches(path, seq!['*']),
{
    assert(!ext_marker().is_prefix_of(seq!['*']));
    assert(seq!['*'].drop_last() =~= Seq::<char>::empty());
    assert(path.subrange(0, 0) =~= Seq::<char>::empty());
    assert(occurs_at(path, Seq::<char>::empty(), 0));
}

/// A pattern `*.ext` matches exactly the paths that end with `.ext`.
pub proof fn law_extension_pattern(path: Seq<char>, ext: Seq<char>)
    ensures
        pattern_matches(path, ext_marker() + ext) == (seq!['.'] + ext).is_suffix_of(path),
{
    let pat = ext_marker() + ext;
    assert(pat.subrange(0, 2) =~= ext_marker());
    assert(pat.skip(1) =~= seq!['.'] + ext);
}

/// A pattern without wildcards matches exactly the paths that contain it.
pub proof fn law_plain_pattern(path: Seq<char>, pattern: Seq<char>)
    requires
        forall|i: int| 0 <= i < pattern.len() ==> pattern[i] != '*',
    ensures
        pattern_matches(path, pattern) == has_infix(path, pattern),
{
    if ext_marker().is_prefix_of(pattern) {
        assert(pattern[0] == ext_marker()[0]);
    }
}

/// The default configuration leaves alone every path that mentions
/// `node_modules`, `.env`, or ends in `.git` or `.log`.
pub proof fn law_default_patterns_exclude(cfg: ExclusionConfig, path: Seq<char>)
    requires
        cfg.patterns() == seq!["*.git"@, "node_modules"@, ".env"@, "*.log"@],
        has_infix(path, "node_modules"@) || has_infix(path, ".env"@) || ".git"@.is_suffix_of(path)
            || ".log"@.is_suffix_of(path),
    ensures
        cfg.excludes(path),
{
    reveal_strlit("*.git");
    reveal_strlit("node_modules");
    reveal_strlit(".env");
    reveal_strlit("*.log");
    reveal_strlit(".git");
    reveal_strlit(".log");
    let p = cfg.patterns();
    assert(!ext_marker().is_prefix_of(p[1]));
    assert(!ext_marker().is_prefix_of(p[2]));
    assert(p[0].skip(1) =~= ".git"@);
    assert(p[3].skip(1) =~= ".log"@);
    if has_infix(path, "node_modules"@) {
        assert(pattern_matches(path, p[1]));
    } else if has_infix(path, ".env"@) {
        assert(pattern_matches(path, p[2]));
    } else if ".git"@.is_suffix_of(path) {
        assert(pattern_matches(path, p[0]));
    } else {
        assert(pattern_matches(path, p[3]));
    }
}

/// Everything at or below an exact excluded path is shielded from
/// clean-up: the path itself (when it is not empty) and every path inside
/// it. Patterns shield the paths that they match.
pub proof fn law_below_an_exclusion_is_shielded(cfg: ExclusionConfig, base: Seq<char>, path: Seq<char>)
    requires
        cfg.excluded_set().contains(base),
        at_or_below(path, base),
    ensures
        cfg.shields(path),
{
    assert(path.take(base.len() as int) =~= base);
    assert(at_or_below(path, path.take(base.len() as int)));
}

} // verus!

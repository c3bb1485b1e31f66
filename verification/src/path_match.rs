//! Recognition of plugin definition files by layout convention.
//!
//! A plugin's definition lives at `linters/<name>/plugin.toml` or
//! `plugins/linters/<name>/plugin.toml`, either at the root of a source or
//! nested one directory deeper (a "wrapped" archive layout). The `<name>`
//! and wrapping segments may be any run of characters without a separator.

use vstd::prelude::*;

verus! {

/// No separator anywhere in `p[a..b]`.
pub open spec fn no_slash(p: Seq<char>, a: int, b: int) -> bool {
    forall|m: int| a <= m < b ==> p[m] != '/'
}

/// The literal `l` occurs in `p` at offset `o`.
pub open spec fn lit_at(p: Seq<char>, o: int, l: Seq<char>) -> bool {
    0 <= o && o + l.len() <= p.len() && p.subrange(o, o + l.len()) == l
}

/// `p` ends with the file name of a plugin definition, `/plugin.toml`.
pub open spec fn ends_plugin_toml(p: Seq<char>) -> bool {
    p.len() >= 12 && lit_at(p, p.len() - 12, "/plugin.toml"@)
}

/// `linters/<segment>/plugin.toml` stands at offset `o` and reaches the end.
pub open spec fn linters_at(p: Seq<char>, o: int) -> bool {
    p.len() >= 12 && lit_at(p, o, "linters/"@) && o + 8 <= p.len() - 12 && no_slash(
        p,
        o + 8,
        p.len() - 12,
    )
}

/// `plugins/linters/<segment>/plugin.toml` stands at offset `o` and reaches
/// the end.
pub open spec fn plugins_linters_at(p: Seq<char>, o: int) -> bool {
    lit_at(p, o, "plugins/"@) && linters_at(p, o + 8)
}

/// `o` is the position right after the first separator of `p`: where a
/// layout nested one directory deeper starts.
pub open spec fn nested_offset(p: Seq<char>, o: int) -> bool {
    0 < o <= p.len() && p[o - 1] == '/' && no_slash(p, 0, o - 1)
}

/// `p` names a plugin definition file under one of the four recognized
/// layout conventions.
pub open spec fn is_plugin_toml_path(p: Seq<char>) -> bool {
    ends_plugin_toml(p) && (linters_at(p, 0) || plugins_linters_at(p, 0) || (exists|o: int|
        nested_offset(p, o) && (linters_at(p, o) || plugins_linters_at(p, o))))
}

/// Compare `path` at offset `o` against the literal `lit`, character by
/// character.
fn lit_match_at(path: &str, o: usize, lit: &str) -> (r: bool)
    requires
        o + lit@.len() <= path@.len(),
        path@.len() <= usize::MAX,
    ensures
        r == lit_at(path@, o as int, lit@),
{
    let m = lit.unicode_len();
    let mut j: usize = 0;
    while j < m
        invariant
            0 <= j <= m,
            m == lit@.len(),
            o + m <= path@.len(),
            path@.len() <= usize::MAX,
            forall|t: int| 0 <= t < j ==> path@[o + t] == lit@[t],
        decreases m - j,
    {
        if path.get_char(o + j) != lit.get_char(j) {
            proof {
                assert(path@.subrange(o as int, o + m) != lit@) by {
                    assert(path@.subrange(o as int, o + m)[j as int] == path@[o + j]);
                }
            }
            return false;
        }
        j += 1;
    }
    proof {
        assert(path@.subrange(o as int, o + m) =~= lit@);
    }
    true
}

/// Is there a separator anywhere in `path[a..b]`?
fn slash_free(path: &str, a: usize, b: usize) -> (r: bool)
    requires
        a <= b <= path@.len(),
    ensures
        r == no_slash(path@, a as int, b as int),
{
    let mut j: usize = a;
    while j < b
        invariant
            a <= j <= b <= path@.len(),
            no_slash(path@, a as int, j as int),
        decreases b - j,
    {
        if path.get_char(j) == '/' {
            return false;
        }
        j += 1;
    }
    true
}

/// Does `linters/<segment>/plugin.toml` stand at offset `o` and reach the
/// end of `path`?
fn linters_here(path: &str, o: usize) -> (r: bool)
    requires
        path@.len() >= 12,
        o <= path@.len(),
    ensures
        r == linters_at(path@, o as int),
{
    proof {
        reveal_strlit("linters/");
    }
    let n = path.unicode_len();
    let limit = n - 12;
    if o > limit {
        return false;
    }
    if limit - o < 8 {
        return false;
    }
    lit_match_at(path, o, "linters/") && slash_free(path, o + 8, limit)
}

/// Does `plugins/linters/<segment>/plugin.toml` stand at offset `o` and
/// reach the end of `path`?
fn plugins_linters_here(path: &str, o: usize) -> (r: bool)
    requires
        path@.len() >= 12,
        o <= path@.len(),
    ensures
        r == plugins_linters_at(path@, o as int),
{
    proof {
        reveal_strlit("plugins/");
    }
    let n = path.unicode_len();
    if o > n - 12 {
        return false;
    }
    if n - 12 - o < 8 {
        return false;
    }
    lit_match_at(path, o, "plugins/") && linters_here(path, o + 8)
}

/// Does `path` name a plugin definition file under one of the four
/// recognized layout conventions?
#[verifier::loop_isolation(false)]
pub fn is_plugin_toml(path: &str) -> (r: bool)
    ensures
        r == is_plugin_toml_path(path@),
{
    proof {
        reveal_strlit("/plugin.toml");
    }
    let n = path.unicode_len();
    if n < 12 {
        return false;
    }
    if !lit_match_at(path, n - 12, "/plugin.toml") {
        return false;
    }
    if linters_here(path, 0) {
        return true;
    }
    if plugins_linters_here(path, 0) {
        return true;
    }
    let mut i: usize = 0;
    while i < n
        invariant
            0 <= i <= n,
            no_slash(path@, 0, i as int),
        decreases n - i,
    {
        if path.get_char(i) == '/' {
            proof {
                assert(nested_offset(path@, i + 1));
            }
            if linters_here(path, i + 1) || plugins_linters_here(path, i + 1) {
                return true;
            }
            proof {
                assert forall|o: int|
                    nested_offset(path@, o) implies o == i + 1 by {
                    if o - 1 < i as int {
                        assert(path@[o - 1] != '/');
                    } else if o - 1 > i as int {
                        assert(path@[i as int] != '/');
                    }
                }
            }
            return false;
        }
        i += 1;
    }
    proof {
        assert forall|o: int| !nested_offset(path@, o) by {
            if 0 < o <= path@.len() {
                assert(path@[o - 1] != '/');
            }
        }
    }
    false
}

} // verus!

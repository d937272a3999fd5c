//! Resolving user-supplied paths: `~` expansion and joining onto a base directory.
//!
//! Paths are handled as text, with `/` as the separator.
use vstd::prelude::*;

verus! {

/// The path begins with `~/`.
pub open spec fn starts_with_home_prefix(p: Seq<char>) -> bool {
    p.len() >= 2 && p[0] == '~' && p[1] == '/'
}

/// The path starts at the root.
pub open spec fn is_absolute(p: Seq<char>) -> bool {
    p.len() > 0 && p[0] == '/'
}

/// `base` joined with `p`: an absolute `p` replaces `base`, otherwise `p` is appended
/// after a separator, which is added unless `base` is empty or already ends in one.
pub open spec fn path_join(base: Seq<char>, p: Seq<char>) -> Seq<char> {
    if is_absolute(p) {
        p
    } else if base.len() > 0 && base.last() != '/' {
        base + seq!['/'] + p
    } else {
        base + p
    }
}

/// `~` alone, or a leading `~/`, stands for the home directory, when it is known; only
/// that first `~` is expanded.
pub open spec fn expanded_path(p: Seq<char>, home: Option<Seq<char>>) -> Seq<char> {
    match home {
        Some(h) => if p == seq!['~'] {
            h
        } else if starts_with_home_prefix(p) {
            path_join(h, p.skip(2))
        } else {
            p
        },
        None => p,
    }
}

/// The path after `~` expansion, taken relative to `base` unless it is absolute.
pub open spec fn resolved_path(base: Seq<char>, p: Seq<char>, home: Option<Seq<char>>) -> Seq<char> {
    let e = expanded_path(p, home);
    if is_absolute(e) {
        e
    } else {
        path_join(base, e)
    }
}

/// Join `p` onto `base` as a path.
pub fn join_path(base: &str, p: &str) -> (r: String)
    ensures
        r@ == path_join(base@, p@),
{
    let pn = p.unicode_len();
    if pn > 0 && p.get_char(0) == '/' {
        return String::from_str(p);
    }
    let bn = base.unicode_len();
    let mut r = String::from_str(base);
    if bn > 0 && base.get_char(bn - 1) != '/' {
        r.append("/");
    }
    r.append(p);
    proof {
        reveal_strlit("/");
        assert(seq!['/'] =~= "/"@);
    }
    r
}

/// Replace `~` or a leading `~/` by the home directory, when it is known; the path is
/// returned unchanged otherwise.
pub fn expand_tilde(path: &str, home: Option<&str>) -> (r: String)
    ensures
        r@ == expanded_path(path@, match home {
            Some(h) => Some(h@),
            None => None,
        }),
{
    match home {
        None => String::from_str(path),
        Some(h) => {
            let n = path.unicode_len();
            if n == 1 && path.get_char(0) == '~' {
                proof {
                    assert(path@ =~= seq!['~']);
                }
                return String::from_str(h);
            }
            if n >= 2 && path.get_char(0) == '~' && path.get_char(1) == '/' {
                let rest = path.substring_char(2, n);
                proof {
                    assert(rest@ =~= path@.skip(2));
                }
                join_path(h, rest)
            } else {
                proof {
                    if path@ == seq!['~'] {
                        assert(path@.len() == 1);
                    }
                }
                String::from_str(path)
            }
        },
    }
}

/// Expand `~` in `path`, then take the result relative to `base_dir` unless it is absolute.
pub fn resolve_path(base_dir: &str, path: &str, home: Option<&str>) -> (r: String)
    ensures
        r@ == resolved_path(base_dir@, path@, match home {
            Some(h) => Some(h@),
            None => None,
        }),
{
    let expanded = expand_tilde(path, home);
    let e = expanded.as_str();
    let n = e.unicode_len();
    if n > 0 && e.get_char(0) == '/' {
        expanded
    } else {
        join_path(base_dir, e)
    }
}

/// A path resolved against an absolute base directory is absolute.
pub proof fn lemma_resolved_absolute(base: Seq<char>, p: Seq<char>, home: Option<Seq<char>>)
    requires
        is_absolute(base),
    ensures
        is_absolute(resolved_path(base, p, home)),
{
    let e = expanded_path(p, home);
    if !is_absolute(e) {
        let r = path_join(base, e);
        if base.last() != '/' {
            assert(r[0] == (base + seq!['/'] + e)[0]);
        } else {
            assert(r[0] == (base + e)[0]);
        }
    }
}

/// Resolving an absolute path that does not start with `~` gives it back unchanged.
pub proof fn lemma_resolved_keeps_absolute(base: Seq<char>, p: Seq<char>, home: Option<Seq<char>>)
    requires
        is_absolute(p),
    ensures
        resolved_path(base, p, home) == p,
{
}

} // verus!

//! Path handling on plain strings: joining, splitting, tilde expansion and
//! home-relative shortening. Paths here are treated purely as character
//! strings; resolving them against the real filesystem is the caller's
//! business. Directories are assumed to be written without a trailing
//! slash, as canonicalization produces them.
use vstd::prelude::*;
use vstd::string::StrSliceExecFns;

use crate::text::{is_prefix_of, rfind_char, str_concat, str_eq, str_starts_with};

verus! {

/// A path that names an absolute location.
pub open spec fn is_absolute(p: Seq<char>) -> bool {
    p.len() > 0 && p[0] == '/'
}

/// `dir` and `name` joined with exactly one separating slash.
pub open spec fn spec_path_join(dir: Seq<char>, name: Seq<char>) -> Seq<char> {
    if dir.len() > 0 && dir.last() == '/' {
        dir + name
    } else {
        dir + seq!['/'] + name
    }
}

/// `~/rest` expanded against a home directory, if one is known; a path
/// without a leading `~/` stands for itself.
pub open spec fn spec_expand_tilde(p: Seq<char>, home: Option<Seq<char>>) -> Option<Seq<char>> {
    if is_prefix_of(seq!['~', '/'], p) {
        match home {
            Some(h) => Some(spec_path_join(h, p.skip(2))),
            None => None,
        }
    } else {
        Some(p)
    }
}

/// `p` rewritten as `~/rest` when it equals `home` or lies below it;
/// `None` when it does not.
pub open spec fn spec_strip_home(p: Seq<char>, home: Seq<char>) -> Option<Seq<char>> {
    if p == home {
        Some(seq!['~', '/'])
    } else if is_prefix_of(home + seq!['/'], p) {
        Some(seq!['~', '/'] + p.skip(home.len() + 1 as int))
    } else {
        None
    }
}

/// The home-relative shortening of `p`: the canonical home directory is
/// tried first, then the literal one; a path below neither stands for
/// itself.
pub open spec fn spec_shorten(
    p: Seq<char>,
    home_canonical: Option<Seq<char>>,
    home_literal: Option<Seq<char>>,
) -> Option<Seq<char>> {
    match home_canonical {
        Some(h) if spec_strip_home(p, h) is Some => spec_strip_home(p, h),
        _ => match home_literal {
            Some(h) => spec_strip_home(p, h),
            None => None,
        },
    }
}

/// The index of the last occurrence of `c` in `p`, if any.
pub open spec fn spec_rfind(p: Seq<char>, c: char) -> Option<int>
    decreases p.len(),
{
    if p.len() == 0 {
        None
    } else if p[p.len() - 1] == c {
        Some(p.len() - 1)
    } else {
        spec_rfind(p.drop_last(), c)
    }
}

/// `spec_rfind` finds the last occurrence, and `None` means no occurrence.
pub proof fn lemma_spec_rfind(p: Seq<char>, c: char)
    ensures
        match spec_rfind(p, c) {
            Some(i) => 0 <= i < p.len() && p[i] == c && (forall|j: int|
                i < j < p.len() ==> p[j] != c),
            None => forall|j: int| 0 <= j < p.len() ==> p[j] != c,
        },
    decreases p.len(),
{
    if p.len() > 0 && p[p.len() - 1] != c {
        lemma_spec_rfind(p.drop_last(), c);
        assert(forall|j: int| 0 <= j < p.len() - 1 ==> p.drop_last()[j] == p[j]);
    }
}

/// The directory part of a path: everything before the last slash, or the
/// root when the last slash is the leading one.
pub open spec fn spec_parent(p: Seq<char>) -> Option<Seq<char>> {
    match spec_rfind(p, '/') {
        Some(i) => Some(
            if i == 0 {
                p.subrange(0, 1)
            } else {
                p.subrange(0, i)
            },
        ),
        None => None,
    }
}

/// The entry name of a path: everything after the last slash, or the whole
/// path when it has no slash.
pub open spec fn spec_file_name(p: Seq<char>) -> Seq<char> {
    match spec_rfind(p, '/') {
        Some(i) => p.skip(i + 1),
        None => p,
    }
}

/// Joins a directory and an entry name with exactly one slash.
pub fn path_join(dir: &str, name: &str) -> (r: String)
    ensures
        r@ == spec_path_join(dir@, name@),
{
    let dlen = dir.unicode_len();
    if dlen > 0 && dir.get_char(dlen - 1) == '/' {
        str_concat(dir, name)
    } else {
        proof {
            reveal_strlit("/");
            assert("/"@ =~= seq!['/']);
        }
        let with_sep = str_concat(dir, "/");
        str_concat(with_sep.as_str(), name)
    }
}

/// Makes a relative path absolute against a working directory; an already
/// absolute path is returned unchanged. Symlinks are not resolved.
pub fn absolute_path(path: &str, cwd: &str) -> (r: String)
    ensures
        r@ == (if is_absolute(path@) {
            path@
        } else {
            spec_path_join(cwd@, path@)
        }),
{
    let plen = path.unicode_len();
    if plen > 0 && path.get_char(0) == '/' {
        path.to_owned()
    } else {
        path_join(cwd, path)
    }
}

/// The directory part of a path: everything before the last slash, or the
/// root itself when the last slash is the leading one. A path without any
/// slash has no parent here.
pub fn path_parent(p: &str) -> (r: Option<String>)
    ensures
        match r {
            Some(par) => spec_parent(p@) == Some(par@),
            None => spec_parent(p@) is None,
        },
{
    proof {
        lemma_spec_rfind(p@, '/');
    }
    match rfind_char(p, '/') {
        Some(i) => {
            proof {
                assert(p@[i as int] == '/');
                let si = spec_rfind(p@, '/')->Some_0;
                assert(p@[si] == '/');
                assert(si == i as int);
            }
            if i == 0 {
                Some(p.substring_char(0, 1).to_owned())
            } else {
                Some(p.substring_char(0, i).to_owned())
            }
        },
        None => {
            proof {
                if spec_rfind(p@, '/') is Some {
                    let si = spec_rfind(p@, '/')->Some_0;
                    assert(p@[si] == '/');
                }
            }
            None
        },
    }
}

/// The entry name of a path: everything after the last slash, or the whole
/// path when it has no slash.
pub fn path_file_name(p: &str) -> (r: String)
    ensures
        r@ == spec_file_name(p@),
{
    proof {
        lemma_spec_rfind(p@, '/');
    }
    let len = p.unicode_len();
    match rfind_char(p, '/') {
        Some(i) => {
            proof {
                assert(p@[i as int] == '/');
                let si = spec_rfind(p@, '/')->Some_0;
                assert(p@[si] == '/');
                assert(si == i as int);
            }
            let r = p.substring_char(i + 1, len).to_owned();
            proof {
                assert(r@ =~= p@.skip(i + 1));
            }
            r
        },
        None => {
            proof {
                if spec_rfind(p@, '/') is Some {
                    let si = spec_rfind(p@, '/')->Some_0;
                    assert(p@[si] == '/');
                }
            }
            p.to_owned()
        },
    }
}

/// Expands a leading `~/` against the home directory; a path without the
/// prefix is returned as it is. Fails only on a `~/` path with no home.
pub fn expand_tilde_path(path: &str, home: Option<&str>) -> (r: Option<String>)
    ensures
        match r {
            Some(out) => spec_expand_tilde(path@, option_view(home)) == Some(out@),
            None => spec_expand_tilde(path@, option_view(home)) is None,
        },
{
    proof {
        reveal_strlit("~/");
        assert("~/"@ =~= seq!['~', '/']);
    }
    if str_starts_with(path, "~/") {
        match home {
            Some(h) => {
                let len = path.unicode_len();
                let rest = path.substring_char(2, len);
                proof {
                    assert(rest@ =~= path@.skip(2));
                }
                Some(path_join(h, rest))
            },
            None => None,
        }
    } else {
        Some(path.to_owned())
    }
}

/// The view of an optional string slice.
pub open spec fn option_view(o: Option<&str>) -> Option<Seq<char>> {
    match o {
        Some(s) => Some(s@),
        None => None,
    }
}

/// Rewrites `path` as `~/rest` when it lies in the given home directory.
pub fn shorten_path_relative_home_directory(path: &str, home: &str) -> (r: Option<String>)
    ensures
        match r {
            Some(out) => spec_strip_home(path@, home@) == Some(out@),
            None => spec_strip_home(path@, home@) is None,
        },
{
    proof {
        reveal_strlit("~/");
        assert("~/"@ =~= seq!['~', '/']);
        reveal_strlit("/");
        assert("/"@ =~= seq!['/']);
    }
    if str_eq(path, home) {
        return Some("~/".to_owned());
    }
    let below = str_concat(home, "/");
    if str_starts_with(path, below.as_str()) {
        let len = path.unicode_len();
        let blen = below.as_str().unicode_len();
        let rest = path.substring_char(blen, len);
        let out = str_concat("~/", rest);
        proof {
            assert(out@ =~= seq!['~', '/'] + path@.skip(home@.len() + 1 as int));
        }
        Some(out)
    } else {
        None
    }
}

/// Shortens a path for display: a leading `~/` is first expanded against
/// the literal home, then the result is rewritten home-relative, trying
/// the canonical home first; a path below neither home is given back
/// unchanged.
pub fn shorten_path(path: &str, home_canonical: Option<&str>, home_literal: Option<&str>) -> (r:
    String)
    requires
        spec_expand_tilde(path@, option_view(home_literal)) is Some,
    ensures
        ({
            let abs = spec_expand_tilde(path@, option_view(home_literal))->Some_0;
            r@ == (match spec_shorten(abs, option_view(home_canonical), option_view(home_literal)) {
                Some(s) => s,
                None => path@,
            })
        }),
{
    let abs = match expand_tilde_path(path, home_literal) {
        Some(a) => a,
        None => {
            proof {
                assert(false);
            }
            String::new()
        },
    };
    match home_canonical {
        Some(h) => {
            match shorten_path_relative_home_directory(abs.as_str(), h) {
                Some(s) => {
                    return s;
                },
                None => {},
            }
        },
        None => {},
    }
    match home_literal {
        Some(h) => {
            match shorten_path_relative_home_directory(abs.as_str(), h) {
                Some(s) => {
                    return s;
                },
                None => {},
            }
        },
        None => {},
    }
    path.to_owned()
}

} // verus!

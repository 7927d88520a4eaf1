//! Pure path-string logic: everything here treats a path as its sequence of
//! characters, with `/` as the separator, and is verified against the spec
//! functions below.

use vstd::prelude::*;

verus! {

/// A path string is absolute when it begins with `/`.
pub open spec fn is_abs(s: Seq<char>) -> bool {
    s.len() > 0 && s[0] == '/'
}

/// Index of the last `/` in `s`, or `-1` if `s` holds none.
pub open spec fn last_slash_at(s: Seq<char>) -> int
    decreases s.len(),
{
    if s.len() == 0 {
        -1
    } else if s[s.len() - 1] == '/' {
        s.len() - 1
    } else {
        last_slash_at(s.take(s.len() - 1))
    }
}

/// The final path component: everything after the last `/` (the whole string
/// when there is no `/`).
pub open spec fn file_name_spec(s: Seq<char>) -> Seq<char> {
    s.subrange(last_slash_at(s) + 1, s.len() as int)
}

/// The directory part of an absolute path: everything before the last `/`,
/// or `/` itself when the last `/` is the leading one.
pub open spec fn parent_spec(s: Seq<char>) -> Seq<char> {
    if last_slash_at(s) <= 0 {
        seq!['/']
    } else {
        s.take(last_slash_at(s))
    }
}

proof fn lemma_last_slash_at_bounds(s: Seq<char>)
    ensures
        -1 <= last_slash_at(s) < s.len(),
        last_slash_at(s) >= 0 ==> s[last_slash_at(s)] == '/',
    decreases s.len(),
{
    if s.len() == 0 {
    } else if s[s.len() - 1] == '/' {
    } else {
        lemma_last_slash_at_bounds(s.take(s.len() - 1));
    }
}

proof fn lemma_abs_has_slash(s: Seq<char>)
    requires
        is_abs(s),
    ensures
        0 <= last_slash_at(s) < s.len(),
    decreases s.len(),
{
    if s[s.len() - 1] == '/' {
    } else {
        lemma_abs_has_slash(s.take(s.len() - 1));
    }
}

/// Index of the last `/` in `path`, if any.
fn last_slash_index(path: &str) -> (r: Option<usize>)
    ensures
        match r {
            Some(j) => j == last_slash_at(path@) && j < path@.len(),
            None => last_slash_at(path@) == -1,
        },
{
    let n = path.unicode_len();
    let mut i = n;
    proof {
        assert(path@.take(n as int) =~= path@);
    }
    while i > 0
        invariant
            i <= n,
            n == path@.len(),
            last_slash_at(path@) == last_slash_at(path@.take(i as int)),
        decreases i,
    {
        let c = path.get_char(i - 1);
        if c == '/' {
            proof {
                lemma_last_slash_at_bounds(path@.take(i as int));
            }
            return Some(i - 1);
        }
        proof {
            assert(path@.take(i as int).take(i - 1 as int) =~= path@.take(i - 1 as int));
        }
        i = i - 1;
    }
    proof {
        assert(path@.take(0) =~= Seq::<char>::empty());
    }
    None
}

/// `s` without its leading `./` segments: `././x` and `x` name the same
/// relative path.
pub open spec fn strip_dot_segments(s: Seq<char>) -> Seq<char>
    decreases s.len(),
{
    if s.len() >= 2 && s[0] == '.' && s[1] == '/' {
        strip_dot_segments(s.skip(2))
    } else {
        s
    }
}

/// `rel` appended under the directory `dir`, inserting a `/` unless `dir`
/// already ends in one.
pub open spec fn join_spec(dir: Seq<char>, rel: Seq<char>) -> Seq<char> {
    if dir.len() > 0 && dir[dir.len() - 1] == '/' {
        dir + rel
    } else {
        dir + seq!['/'] + rel
    }
}

/// How a path-valued configuration entry is resolved: an absolute value
/// stands as it is; a relative one is placed under the configuration file's
/// directory, after its leading `./` segments are dropped.
pub open spec fn resolve_value_spec(dir: Seq<char>, value: Seq<char>) -> Seq<char> {
    if is_abs(value) {
        value
    } else {
        join_spec(dir, strip_dot_segments(value))
    }
}

/// An absolute stored value is returned unchanged, whatever the
/// configuration directory is.
pub proof fn lemma_resolve_absolute(dir: Seq<char>, value: Seq<char>)
    requires
        is_abs(value),
    ensures
        resolve_value_spec(dir, value) == value,
{
}

/// A leading `./` on a relative value does not change where it resolves.
pub proof fn lemma_resolve_dot_slash(dir: Seq<char>, rest: Seq<char>)
    requires
        !is_abs(rest),
    ensures
        resolve_value_spec(dir, seq!['.', '/'] + rest) == resolve_value_spec(dir, rest),
{
    let value = seq!['.', '/'] + rest;
    assert(value.skip(2) =~= rest);
}

/// A plain relative value (no leading `./` left) in a configuration file
/// whose directory is `dir` resolves to `dir`, a separator, and the value.
pub proof fn lemma_resolve_relative(dir: Seq<char>, value: Seq<char>)
    requires
        !is_abs(value),
        strip_dot_segments(value) == value,
        !(dir.len() > 0 && dir[dir.len() - 1] == '/'),
    ensures
        resolve_value_spec(dir, value) == dir + seq!['/'] + value,
{
}

/// The final path component of `path`, as `file_name_spec` defines it.
pub fn file_name_of(path: &str) -> (r: String)
    ensures
        r@ == file_name_spec(path@),
{
    let n = path.unicode_len();
    match last_slash_index(path) {
        Some(j) => {
            let rest = path.substring_char(j + 1, n);
            proof {
                assert(rest@ =~= file_name_spec(path@));
            }
            String::from_str(rest)
        },
        None => {
            proof {
                assert(path@.subrange(0, path@.len() as int) =~= path@);
            }
            String::from_str(path)
        },
    }
}

/// The directory part of the absolute path `path`, as `parent_spec` defines
/// it.  The result is itself absolute.
pub fn parent_of(path: &str) -> (r: String)
    requires
        is_abs(path@),
    ensures
        r@ == parent_spec(path@),
        is_abs(r@),
{
    proof {
        lemma_abs_has_slash(path@);
    }
    match last_slash_index(path) {
        Some(j) => {
            if j == 0 {
                let root = String::from_str("/");
                proof {
                    reveal_strlit("/");
                    assert(root@ =~= seq!['/']);
                }
                root
            } else {
                let dir = path.substring_char(0, j);
                proof {
                    assert(dir@ =~= path@.take(j as int));
                }
                String::from_str(dir)
            }
        },
        None => {
            proof {
                assert(false);
            }
            unreached()
        },
    }
}

/// Resolves the stored string `value` against the directory `dir`, as
/// `resolve_value_spec` defines it.
pub fn resolve_value(dir: &str, value: &str) -> (r: String)
    ensures
        r@ == resolve_value_spec(dir@, value@),
{
    let n = value.unicode_len();
    if n > 0 && value.get_char(0) == '/' {
        return String::from_str(value);
    }
    let mut i: usize = 0;
    proof {
        assert(value@.skip(0) =~= value@);
    }
    while n - i >= 2 && value.get_char(i) == '.' && value.get_char(i + 1) == '/'
        invariant
            i <= n,
            n == value@.len(),
            !is_abs(value@),
            strip_dot_segments(value@) == strip_dot_segments(value@.skip(i as int)),
        decreases n - i,
    {
        proof {
            assert(value@.skip(i as int).skip(2) =~= value@.skip(i + 2 as int));
        }
        i = i + 2;
    }
    let rest = value.substring_char(i, n);
    proof {
        assert(rest@ =~= value@.skip(i as int));
        assert(strip_dot_segments(value@.skip(i as int)) == value@.skip(i as int));
    }
    let mut out = String::from_str(dir);
    let dn = dir.unicode_len();
    if !(dn > 0 && dir.get_char(dn - 1) == '/') {
        out.append("/");
        proof {
            reveal_strlit("/");
            assert("/"@ =~= seq!['/']);
        }
    }
    out.append(rest);
    proof {
        assert(out@ =~= resolve_value_spec(dir@, value@));
    }
    out
}

} // verus!

//! Translation of locations between the real project tree and the shadow
//! tree.
//!
//! A location is an absolute path (or the path component of a URL) written
//! with `/` separators.  Translating a location from one root to the other
//! never changes which bytes inside the file are referenced; it only replaces
//! the root prefix of the path.

use vstd::prelude::*;
use crate::error::DirectoryError;
use crate::strutil::{contains_seq, contains_str, occurs_at, starts_with_str, substring, concat_str};

verus! {

/// The token embedded in every shadow-tree directory name.  Recognizing this
/// token is the sole mechanism for classifying a location as shadow-side.
pub fn lsp_temp_prefix() -> (r: &'static str)
    ensures
        r@ == temp_prefix_spec(),
{
    "SWAY_LSP_TEMP_DIR"
}

/// The characters of the shadow-tree token.
pub open spec fn temp_prefix_spec() -> Seq<char> {
    "SWAY_LSP_TEMP_DIR"@
}

/// `loc` lies under the root `root`: `root` is a prefix of `loc` and ends on
/// a path-segment boundary.
pub open spec fn under_root(loc: Seq<char>, root: Seq<char>) -> bool {
    &&& root.is_prefix_of(loc)
    &&& (loc.len() == root.len() || loc[root.len() as int] == '/')
}

/// `loc` rewritten so that its `from` prefix is replaced by `to`.
pub open spec fn translated(loc: Seq<char>, from: Seq<char>, to: Seq<char>) -> Seq<char> {
    to + loc.subrange(from.len() as int, loc.len() as int)
}

/// Rewrite `loc`, which must lie under `from_root`, so that it lies under
/// `to_root` instead.  Returns exactly which locations are translatable:
/// every location under `from_root` succeeds, and any other location is
/// reported as not under the root.
pub fn to_other_root(loc: &str, from_root: &str, to_root: &str) -> (r: Result<
    String,
    DirectoryError,
>)
    ensures
        r is Ok <==> under_root(loc@, from_root@),
        r matches Ok(t) ==> t@ == translated(loc@, from_root@, to_root@),
        r matches Err(e) ==> e matches DirectoryError::StripPrefixFailed { path } && path@
            == loc@,
{
    let loc_len = loc.unicode_len();
    let from_len = from_root.unicode_len();
    if !starts_with_str(loc, from_root) {
        return Err(DirectoryError::StripPrefixFailed { path: loc.to_owned() });
    }
    if loc_len != from_len {
        if loc.get_char(from_len) != '/' {
            return Err(DirectoryError::StripPrefixFailed { path: loc.to_owned() });
        }
    }
    let suffix = substring(loc, from_len, loc_len);
    Ok(concat_str(to_root, suffix.as_str()))
}

/// Round-trip law of path translation: translating a location from root `a`
/// to root `b` yields a location under `b`, and translating it back yields
/// the original location.
pub proof fn lemma_to_other_root_round_trip(loc: Seq<char>, a: Seq<char>, b: Seq<char>)
    requires
        under_root(loc, a),
    ensures
        under_root(translated(loc, a, b), b),
        translated(translated(loc, a, b), b, a) == loc,
{
    let t = translated(loc, a, b);
    assert(b.is_prefix_of(t)) by {
        assert(t.subrange(0, b.len() as int) =~= b);
    }
    if loc.len() != a.len() {
        assert(t[b.len() as int] == loc[a.len() as int]);
    }
    assert(translated(t, b, a) =~= loc) by {
        assert(t.subrange(b.len() as int, t.len() as int) =~= loc.subrange(
            a.len() as int,
            loc.len() as int,
        ));
    }
}

/// A location under a root that carries a token carries the token itself.
/// With the shadow root allocated under a directory that holds the
/// shadow-tree token, every location under that root is therefore classified
/// as shadow-side by [`is_path_in_temp_workspace`].
pub proof fn lemma_under_root_keeps_token(loc: Seq<char>, root: Seq<char>, tok: Seq<char>)
    requires
        under_root(loc, root),
        contains_seq(root, tok),
    ensures
        contains_seq(loc, tok),
{
    let i = choose|i: int| occurs_at(root, tok, i);
    assert(occurs_at(loc, tok, i)) by {
        assert(root.subrange(i, i + tok.len() as int) =~= loc.subrange(
            i,
            i + tok.len() as int,
        )) by {
            assert(root =~= loc.subrange(0, root.len() as int));
        }
    }
}

/// A location belongs to the shadow tree exactly when its text contains the
/// shadow-tree token.  This is a structural test: it needs no registry, so it
/// is safe on locations whose session has not been established.
pub fn is_path_in_temp_workspace(loc: &str) -> (r: bool)
    ensures
        r == contains_seq(loc@, temp_prefix_spec()),
{
    contains_str(loc, lsp_temp_prefix())
}

/// `dir` extended with the path segment `name`.
pub open spec fn joined(dir: Seq<char>, name: Seq<char>) -> Seq<char> {
    dir + seq!['/'] + name
}

/// Append the segment `name` to the directory path `dir`.
pub fn join_path(dir: &str, name: &str) -> (r: String)
    ensures
        r@ == joined(dir@, name@),
{
    let mut r = dir.to_owned();
    r.append("/");
    r.append(name);
    proof {
        reveal_strlit("/");
        assert(r@ =~= joined(dir@, name@));
    }
    r
}

/// The characters after the last `/` of `p` (all of `p` when it has none).
pub open spec fn after_last_slash(p: Seq<char>) -> Seq<char>
    decreases p.len(),
{
    if p.len() == 0 {
        Seq::empty()
    } else if p[p.len() - 1] == '/' {
        Seq::empty()
    } else {
        after_last_slash(p.drop_last()).push(p[p.len() - 1])
    }
}

/// The characters before the last `/` of `p` (empty when it has none).
pub open spec fn up_to_last_slash(p: Seq<char>) -> Seq<char>
    decreases p.len(),
{
    if p.len() == 0 {
        Seq::empty()
    } else if p[p.len() - 1] == '/' {
        p.drop_last()
    } else {
        up_to_last_slash(p.drop_last())
    }
}

/// The final path segment of `p`: the project name for a project directory.
pub fn last_segment(p: &str) -> (r: String)
    ensures
        r@ == after_last_slash(p@),
{
    let len = p.unicode_len();
    let mut end: usize = len;
    proof {
        assert(p@.subrange(0, len as int) =~= p@);
        assert(after_last_slash(p@) + p@.subrange(len as int, len as int) =~= after_last_slash(
            p@,
        ));
    }
    loop
        invariant
            len == p@.len(),
            0 <= end <= len,
            after_last_slash(p@) == after_last_slash(p@.subrange(0, end as int)) + p@.subrange(
                end as int,
                len as int,
            ),
            forall|j: int| end <= j < len ==> p@[j] != '/',
        decreases end,
    {
        if end == 0 {
            proof {
                assert(p@.subrange(0, 0) =~= Seq::<char>::empty());
                assert(after_last_slash(Seq::<char>::empty()) + p@.subrange(0, len as int) =~= p@.subrange(0, len as int));
            }
            return substring(p, 0, len);
        }
        if p.get_char(end - 1) == '/' {
            proof {
                let q = p@.subrange(0, end as int);
                assert(q[q.len() - 1] == '/');
                assert(after_last_slash(q) =~= Seq::<char>::empty());
                assert(Seq::<char>::empty() + p@.subrange(end as int, len as int) =~= p@.subrange(
                    end as int,
                    len as int,
                ));
            }
            return substring(p, end, len);
        }
        proof {
            let q = p@.subrange(0, end as int);
            let q2 = p@.subrange(0, end - 1);
            assert(q[q.len() - 1] != '/');
            assert(q.drop_last() =~= q2);
            assert(after_last_slash(q) == after_last_slash(q2).push(p@[end - 1]));
            assert(after_last_slash(q2).push(p@[end - 1]) + p@.subrange(end as int, len as int)
                =~= after_last_slash(q2) + p@.subrange(end - 1, len as int));
        }
        end -= 1;
    }
}

/// The parent directory of `p`: everything before the last `/`.
pub fn parent_dir(p: &str) -> (r: String)
    ensures
        r@ == up_to_last_slash(p@),
{
    let len = p.unicode_len();
    let mut end: usize = len;
    proof {
        assert(p@.subrange(0, len as int) =~= p@);
    }
    loop
        invariant
            len == p@.len(),
            0 <= end <= len,
            up_to_last_slash(p@) == up_to_last_slash(p@.subrange(0, end as int)),
            forall|j: int| end <= j < len ==> p@[j] != '/',
        decreases end,
    {
        if end == 0 {
            proof {
                assert(p@.subrange(0, 0) =~= Seq::<char>::empty());
            }
            return substring(p, 0, 0);
        }
        if p.get_char(end - 1) == '/' {
            proof {
                let q = p@.subrange(0, end as int);
                assert(q[q.len() - 1] == '/');
                assert(q.drop_last() =~= p@.subrange(0, end - 1));
            }
            return substring(p, 0, end - 1);
        }
        proof {
            let q = p@.subrange(0, end as int);
            assert(q[q.len() - 1] != '/');
            assert(q.drop_last() =~= p@.subrange(0, end - 1));
        }
        end -= 1;
    }
}

/// An absolute path starts with `/`.
pub open spec fn is_absolute(p: Seq<char>) -> bool {
    p.len() > 0 && p[0] == '/'
}

/// Does `p` name an absolute path?
pub fn is_absolute_path(p: &str) -> (r: bool)
    ensures
        r == is_absolute(p@),
{
    if p.unicode_len() == 0 {
        return false;
    }
    p.get_char(0) == '/'
}

} // verus!

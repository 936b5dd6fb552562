//! Slash-separated path arithmetic: final component, enclosing directory,
//! joining a directory with a child name, and the root test. Paths are plain
//! character strings; the caller resolves them against the filesystem.

use vstd::prelude::*;

verus! {

/// The index of the last `/` strictly below position `i`, or -1 when none
/// stands there.
pub open spec fn last_slash_below(p: Seq<char>, i: int) -> int
    decreases i,
{
    if i <= 0 {
        -1
    } else if p[i - 1] == '/' {
        i - 1
    } else {
        last_slash_below(p, i - 1)
    }
}

/// The index of the last `/` of the path, or -1 when the path has none.
pub open spec fn last_slash(p: Seq<char>) -> int {
    last_slash_below(p, p.len() as int)
}

/// Position and uniqueness of the last slash.
pub proof fn lemma_last_slash_below(p: Seq<char>, i: int)
    requires
        0 <= i <= p.len(),
    ensures
        -1 <= last_slash_below(p, i) < i,
        last_slash_below(p, i) >= 0 ==> p[last_slash_below(p, i)] == '/',
        forall|j: int| last_slash_below(p, i) < j < i ==> p[j] != '/',
    decreases i,
{
    if i <= 0 {
    } else if p[i - 1] == '/' {
    } else {
        lemma_last_slash_below(p, i - 1);
    }
}

/// The final path component: everything after the last `/`.
pub open spec fn file_name_of(p: Seq<char>) -> Seq<char> {
    p.subrange(last_slash(p) + 1, p.len() as int)
}

/// The enclosing directory: everything before the last `/`, the root (or a
/// path whose only `/` leads it) collapsing to the root itself.
pub open spec fn parent_of(p: Seq<char>) -> Seq<char> {
    if last_slash(p) <= 0 {
        seq!['/']
    } else {
        p.subrange(0, last_slash(p))
    }
}

/// The filesystem root, above which navigation cannot go.
pub open spec fn is_root(p: Seq<char>) -> bool {
    p.len() == 1 && p[0] == '/'
}

/// A directory joined with a child name by a `/` separator.
pub open spec fn join(d: Seq<char>, name: Seq<char>) -> Seq<char> {
    if is_root(d) {
        d + name
    } else {
        d + seq!['/'] + name
    }
}

fn last_slash_index(p: &str) -> (r: Option<usize>)
    ensures
        match r {
            Some(k) => last_slash(p@) == k as int,
            None => last_slash(p@) == -1,
        },
{
    let n = p.unicode_len();
    let mut i: usize = n;
    loop
        invariant
            i <= n,
            n == p@.len(),
            last_slash_below(p@, n as int) == last_slash_below(p@, i as int),
        decreases i,
    {
        if i == 0 {
            return None;
        }
        let c = p.get_char(i - 1);
        if c == '/' {
            return Some(i - 1);
        }
        i = i - 1;
    }
}

/// The final component of a path, the entry's name.
pub fn path_file_name(p: &str) -> (r: String)
    ensures
        r@ == file_name_of(p@),
{
    let n = p.unicode_len();
    proof {
        lemma_last_slash_below(p@, p@.len() as int);
    }
    match last_slash_index(p) {
        Some(k) => p.substring_char(k + 1, n).to_owned(),
        None => {
            proof {
                assert(p@.subrange(0, p@.len() as int) =~= p@);
            }
            p.to_owned()
        },
    }
}

/// Whether the path is the filesystem root.
pub fn path_is_root(p: &str) -> (r: bool)
    ensures
        r == is_root(p@),
{
    p.unicode_len() == 1 && p.get_char(0) == '/'
}

/// The enclosing directory of a path.
pub fn path_parent(p: &str) -> (r: String)
    ensures
        r@ == parent_of(p@),
{
    proof {
        lemma_last_slash_below(p@, p@.len() as int);
    }
    match last_slash_index(p) {
        Some(k) => {
            if k > 0 {
                p.substring_char(0, k).to_owned()
            } else {
                let r = "/".to_owned();
                proof {
                    reveal_strlit("/");
                    assert(r@ =~= seq!['/']);
                }
                r
            }
        },
        None => {
            let r = "/".to_owned();
            proof {
                reveal_strlit("/");
                assert(r@ =~= seq!['/']);
            }
            r
        },
    }
}

/// Joins a directory path with a child name.
pub fn path_join(d: &str, name: &str) -> (r: String)
    ensures
        r@ == join(d@, name@),
{
    if path_is_root(d) {
        let mut s = d.to_owned();
        s.append(name);
        s
    } else {
        let mut s = d.to_owned();
        s.append("/");
        s.append(name);
        proof {
            reveal_strlit("/");
            assert(s@ =~= d@ + seq!['/'] + name@);
        }
        s
    }
}

} // verus!

//! Slash-separated path arithmetic for the repository walk: the final
//! segment of a path, the parent of a canonical absolute path, and joining a
//! base directory with a relative or absolute path. Paths are plain strings;
//! the surrounding program hands in canonicalized absolute directories.

use vstd::prelude::*;
use vstd::string::*;

verus! {

/// The characters after the last `/` of `s`; all of `s` when it has none.
pub open spec fn after_last_slash(s: Seq<char>) -> Seq<char>
    decreases s.len(),
{
    if s.len() == 0 {
        s
    } else if s.last() == '/' {
        Seq::empty()
    } else {
        after_last_slash(s.drop_last()).push(s.last())
    }
}

proof fn lemma_after_last_slash(s: Seq<char>, k: int)
    requires
        0 <= k <= s.len(),
        forall|j: int| k <= j < s.len() ==> s[j] != '/',
        k == 0 || s[k - 1] == '/',
    ensures
        after_last_slash(s) == s.skip(k),
    decreases s.len(),
{
    if k == s.len() {
        assert(s.skip(k) =~= Seq::<char>::empty());
        if k == 0 {
            assert(after_last_slash(s) =~= s.skip(0));
        }
    } else {
        let t = s.drop_last();
        assert(s.last() != '/');
        lemma_after_last_slash(t, k);
        assert(t.skip(k).push(s.last()) =~= s.skip(k));
    }
}

/// The last path segment of `s`.
pub fn last_segment<'a>(s: &'a str) -> (r: &'a str)
    ensures
        r@ == after_last_slash(s@),
{
    let len = s.unicode_len();
    let mut k: usize = len;
    while k > 0 && s.get_char(k - 1) != '/'
        invariant
            k <= len,
            len == s@.len(),
            forall|j: int| k <= j < len ==> s@[j] != '/',
        decreases k,
    {
        k -= 1;
    }
    proof {
        lemma_after_last_slash(s@, k as int);
        assert(s@.subrange(k as int, len as int) =~= s@.skip(k as int));
    }
    s.substring_char(k, len)
}

/// `s` with its trailing separators and trailing lone-dot components
/// removed, so that the file-name component becomes the true last segment.
pub open spec fn strip_trail(s: Seq<char>) -> Seq<char>
    decreases s.len(),
{
    if s.len() > 0 && s.last() == '/' {
        strip_trail(s.drop_last())
    } else if s.len() > 0 && s.last() == '.' && (s.len() == 1 || s[s.len() - 2] == '/') {
        strip_trail(s.drop_last())
    } else {
        s
    }
}

/// The file-name component of a path: the last real segment, with trailing
/// separators and lone-dot components ignored; a path that ends in the
/// parent component, or has nothing left, has no name.
pub open spec fn file_name_spec(s: Seq<char>) -> Option<Seq<char>> {
    let t = strip_trail(s);
    if t.len() == 0 {
        None
    } else if after_last_slash(t) == seq!['.', '.'] {
        None
    } else {
        Some(after_last_slash(t))
    }
}

/// Extract the file-name component of a path.
pub fn file_name<'a>(s: &'a str) -> (r: Option<&'a str>)
    ensures
        file_name_spec(s@) is Some <==> r is Some,
        r matches Some(v) ==> file_name_spec(s@) == Some(v@),
{
    let len = s.unicode_len();
    proof {
        assert(s@.take(len as int) =~= s@);
    }
    let mut i: usize = len;
    while i > 0 && (s.get_char(i - 1) == '/' || (s.get_char(i - 1) == '.' && (i == 1 || s.get_char(
        i - 2,
    ) == '/')))
        invariant
            i <= len,
            len == s@.len(),
            strip_trail(s@) == strip_trail(s@.take(i as int)),
        decreases i,
    {
        proof {
            assert(s@.take(i as int).last() == s@[i - 1]);
            assert(s@.take(i as int).drop_last() =~= s@.take(i - 1));
        }
        i -= 1;
    }
    if i == 0 {
        proof {
            assert(s@.take(0) =~= Seq::<char>::empty());
        }
        return None;
    }
    let t = s.substring_char(0, i);
    proof {
        assert(s@.subrange(0, i as int) =~= s@.take(i as int));
        assert(t@.last() == s@[i - 1]);
        assert(t@.len() == 1 ==> t@[0] == s@[0]);
        assert(t@.len() >= 2 ==> t@[t@.len() - 2] == s@[i - 2]);
        assert(strip_trail(t@) == t@);
    }
    let seg = last_segment(t);
    proof {
        assert(after_last_slash(t@).len() > 0);
    }
    if seg.unicode_len() == 2 && seg.get_char(0) == '.' && seg.get_char(1) == '.' {
        proof {
            assert(seg@ =~= seq!['.', '.']);
        }
        None
    } else {
        proof {
            if seg@.len() == 2 {
                assert(seg@ != seq!['.', '.']) by {
                    if seg@ == seq!['.', '.'] {
                        assert(seg@[0] == '.' && seg@[1] == '.');
                    }
                }
            } else {
                assert(seg@ != seq!['.', '.']);
            }
        }
        Some(seg)
    }
}

/// The parent directory of a canonical absolute path: `None` for the root
/// itself and for a path without any `/`.
pub open spec fn parent_spec(s: Seq<char>) -> Option<Seq<char>> {
    let tail = after_last_slash(s);
    if s.len() == tail.len() {
        None
    } else if s.len() == 1 {
        None
    } else if s.len() - tail.len() == 1 {
        Some(seq!['/'])
    } else {
        Some(s.subrange(0, s.len() - tail.len() - 1))
    }
}

/// The view of an optional owned string.
pub open spec fn opt_str_view(r: Option<String>) -> Option<Seq<char>> {
    match r {
        Some(s) => Some(s@),
        None => None,
    }
}

/// Step one directory upward.
pub fn parent_of(s: &str) -> (r: Option<String>)
    ensures
        opt_str_view(r) == parent_spec(s@),
{
    let len = s.unicode_len();
    let mut k: usize = len;
    while k > 0 && s.get_char(k - 1) != '/'
        invariant
            k <= len,
            len == s@.len(),
            forall|j: int| k <= j < len ==> s@[j] != '/',
        decreases k,
    {
        k -= 1;
    }
    proof {
        lemma_after_last_slash(s@, k as int);
    }
    if k == 0 {
        None
    } else if len == 1 {
        None
    } else if k == 1 {
        let r = s.substring_char(0, 1);
        proof {
            assert(s@.subrange(0, 1) =~= seq![s@[0]]);
            assert(s@[0] == '/');
            assert(s@.subrange(0, 1) =~= seq!['/']);
        }
        Some(String::from_str(r))
    } else {
        let r = s.substring_char(0, k - 1);
        Some(String::from_str(r))
    }
}

/// Join a base directory with a further path: an absolute right-hand side
/// stands on its own; otherwise the two are joined with a `/` separator.
pub open spec fn join_spec(base: Seq<char>, rel: Seq<char>) -> Seq<char> {
    if rel.len() > 0 && rel[0] == '/' {
        rel
    } else if base.len() > 0 && base.last() == '/' {
        base + rel
    } else {
        base + seq!['/'] + rel
    }
}

/// Join a base directory with a further path.
pub fn join(base: &str, rel: &str) -> (r: String)
    ensures
        r@ == join_spec(base@, rel@),
{
    let bl = base.unicode_len();
    if rel.unicode_len() > 0 && rel.get_char(0) == '/' {
        String::from_str(rel)
    } else if bl > 0 && base.get_char(bl - 1) == '/' {
        let mut r = String::from_str(base);
        r.append(rel);
        r
    } else {
        let mut r = String::from_str(base);
        r.append("/");
        r.append(rel);
        proof {
            reveal_strlit("/");
            assert("/"@ =~= seq!['/']);
        }
        r
    }
}

/// The final segment is never longer than the whole path.
pub proof fn lemma_after_last_slash_len(s: Seq<char>)
    ensures
        after_last_slash(s).len() <= s.len(),
    decreases s.len(),
{
    if s.len() > 0 && s.last() != '/' {
        lemma_after_last_slash_len(s.drop_last());
    }
}

/// A parent path is strictly shorter, so the upward walk terminates.
pub proof fn lemma_parent_shorter(s: Seq<char>)
    ensures
        parent_spec(s) matches Some(p) ==> p.len() < s.len(),
{
    lemma_after_last_slash_len(s);
}

/// The number of upward steps from `s` to the topmost directory.
pub open spec fn height(s: Seq<char>) -> nat
    decreases s.len(),
    via height_decreases
{
    match parent_spec(s) {
        None => 0,
        Some(p) => 1 + height(p),
    }
}

#[via_fn]
proof fn height_decreases(s: Seq<char>) {
    lemma_parent_shorter(s);
}

/// The ancestor of `s` after `k` upward steps; `None` when the chain is
/// shorter than `k`.
pub open spec fn ancestor_at(s: Seq<char>, k: nat) -> Option<Seq<char>>
    decreases k,
{
    if k == 0 {
        Some(s)
    } else {
        match parent_spec(s) {
            None => None,
            Some(p) => ancestor_at(p, (k - 1) as nat),
        }
    }
}

/// What the ancestor walk does after one existence answer.
pub enum WalkNext {
    /// The marker exists here: the walk ends at the current directory.
    Found,
    /// No marker here: continue at the parent.
    Up(String),
    /// No marker here and no parent left: the walk is exhausted.
    Exhausted,
}

/// The mathematical shape of a walk step.
pub ghost enum WalkNextModel {
    Found,
    Up(Seq<char>),
    Exhausted,
}

impl View for WalkNext {
    type V = WalkNextModel;

    open spec fn view(&self) -> WalkNextModel {
        match self {
            WalkNext::Found => WalkNextModel::Found,
            WalkNext::Up(p) => WalkNextModel::Up(p@),
            WalkNext::Exhausted => WalkNextModel::Exhausted,
        }
    }
}

/// The locator's rule: stop where the marker exists, otherwise move one
/// directory upward, strictly in order, until no parent is left.
pub open spec fn walk_next_spec(dir: Seq<char>, marker_exists: bool) -> WalkNextModel {
    if marker_exists {
        WalkNextModel::Found
    } else {
        match parent_spec(dir) {
            Some(p) => WalkNextModel::Up(p),
            None => WalkNextModel::Exhausted,
        }
    }
}

/// Advance the ancestor walk by one observed existence answer.
pub fn walk_step(dir: &str, marker_exists: bool) -> (r: WalkNext)
    ensures
        r@ == walk_next_spec(dir@, marker_exists),
{
    if marker_exists {
        WalkNext::Found
    } else {
        match parent_of(dir) {
            Some(p) => WalkNext::Up(p),
            None => WalkNext::Exhausted,
        }
    }
}

} // verus!

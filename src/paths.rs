//! Path rules shared by the theme engine: which relative paths may be resolved
//! under a theme directory, and containment of canonical paths.

use vstd::prelude::*;

verus! {

/// Position `i` of `p` starts a `.` or `..` segment.
pub open spec fn dot_segment_at(p: Seq<char>, i: int) -> bool {
    &&& p[i] == '.'
    &&& i == 0 || p[i - 1] == '/'
    &&& i + 1 == p.len() || p[i + 1] == '/' || (p[i + 1] == '.' && (i + 2 == p.len() || p[i
        + 2] == '/'))
}

/// Position `i` of `p` is acceptable inside a clean relative path.
pub open spec fn clean_at(p: Seq<char>, i: int) -> bool {
    &&& p[i] != '\\'
    &&& p[i] != '\0'
    &&& !(i == 0 && p[i] == '/')
    &&& !(i + 1 == p.len() && p[i] == '/')
    &&& !(i + 1 < p.len() && p[i] == '/' && p[i + 1] == '/')
    &&& !dot_segment_at(p, i)
}

/// A non-empty relative path made of non-empty segments separated by single
/// slashes, none of them `.` or `..`, with no backslash or NUL character.
/// Such a path cannot leave the directory it is resolved against.
pub open spec fn clean_relative(p: Seq<char>) -> bool {
    &&& p.len() > 0
    &&& forall|i: int| 0 <= i < p.len() ==> #[trigger] clean_at(p, i)
}

/// A clean relative path of exactly one segment.
pub open spec fn single_segment(p: Seq<char>) -> bool {
    &&& clean_relative(p)
    &&& forall|i: int| 0 <= i < p.len() ==> #[trigger] p[i] != '/'
}

/// `candidate` is `root` itself or lies below it.
pub open spec fn path_within(root: Seq<char>, candidate: Seq<char>) -> bool {
    ||| candidate == root
    ||| {
        &&& root.len() < candidate.len()
        &&& candidate.subrange(0, root.len() as int) == root
        &&& (root.len() > 0 && root.last() == '/') || candidate[root.len() as int] == '/'
    }
}

/// Whether `path` is a clean relative path (see `clean_relative`).
pub fn is_clean_relative(path: &str) -> (r: bool)
    ensures
        r == clean_relative(path@),
{
    let n = path.unicode_len();
    if n == 0 {
        return false;
    }
    let mut i: usize = 0;
    while i < n
        invariant
            n == path@.len(),
            i <= n,
            forall|j: int| 0 <= j < i ==> #[trigger] clean_at(path@, j),
        decreases n - i,
    {
        let c = path.get_char(i);
        let prev_slash = i == 0 || path.get_char(i - 1) == '/';
        let next_end = i + 1 == n;
        let next_slash = !next_end && path.get_char(i + 1) == '/';
        let next_dot = !next_end && path.get_char(i + 1) == '.';
        let dot_dot_end = next_dot && (i + 2 == n || path.get_char(i + 2) == '/');
        let dot_seg = c == '.' && prev_slash && (next_end || next_slash || dot_dot_end);
        if c == '\\' || c == '\0' || (i == 0 && c == '/') || (next_end && c == '/') || (c == '/'
            && next_slash) || dot_seg {
            assert(!clean_at(path@, i as int));
            return false;
        }
        i = i + 1;
    }
    true
}

/// Whether `name` is usable as a theme name: one clean path segment.
pub fn is_single_segment(name: &str) -> (r: bool)
    ensures
        r == single_segment(name@),
{
    if !is_clean_relative(name) {
        return false;
    }
    let n = name.unicode_len();
    let mut i: usize = 0;
    while i < n
        invariant
            n == name@.len(),
            i <= n,
            forall|j: int| 0 <= j < i ==> #[trigger] name@[j] != '/',
        decreases n - i,
    {
        if name.get_char(i) == '/' {
            return false;
        }
        i = i + 1;
    }
    true
}

/// Whether the canonical path `candidate` is `root` or lies below it.
pub fn is_within(root: &str, candidate: &str) -> (r: bool)
    ensures
        r == path_within(root@, candidate@),
{
    let rn = root.unicode_len();
    let cn = candidate.unicode_len();
    if rn == cn {
        let mut i: usize = 0;
        while i < rn
            invariant
                rn == root@.len(),
                cn == candidate@.len(),
                rn == cn,
                i <= rn,
                forall|j: int| 0 <= j < i ==> root@[j] == candidate@[j],
            decreases rn - i,
        {
            if root.get_char(i) != candidate.get_char(i) {
                return false;
            }
            i = i + 1;
        }
        assert(candidate@ =~= root@);
        return true;
    }
    if rn > cn {
        return false;
    }
    let mut i: usize = 0;
    while i < rn
        invariant
            rn == root@.len(),
            cn == candidate@.len(),
            rn < cn,
            i <= rn,
            forall|j: int| 0 <= j < i ==> root@[j] == candidate@[j],
        decreases rn - i,
    {
        if root.get_char(i) != candidate.get_char(i) {
            assert(candidate@.subrange(0, rn as int)[i as int] != root@[i as int]);
            return false;
        }
        i = i + 1;
    }
    assert(candidate@.subrange(0, rn as int) =~= root@);
    (rn > 0 && root.get_char(rn - 1) == '/') || candidate.get_char(rn) == '/'
}

/// The segments kept so far after one more segment `seg` is read: an empty
/// segment and `.` change nothing, `..` removes the last kept segment (there
/// being none, the path climbs out and is refused), any other is kept.
pub open spec fn step_segment(kept: Option<Seq<Seq<char>>>, seg: Seq<char>) -> Option<Seq<Seq<char>>> {
    match kept {
        None => None,
        Some(k) => if seg.len() == 0 || seg == seq!['.'] {
            Some(k)
        } else if seg == seq!['.', '.'] {
            if k.len() == 0 {
                None
            } else {
                Some(k.drop_last())
            }
        } else {
            Some(k.push(seg))
        },
    }
}

/// Reads `p` left to right: the segments kept for the part before the last
/// slash, and the text after it.
pub open spec fn scan_path(p: Seq<char>) -> (Option<Seq<Seq<char>>>, Seq<char>)
    decreases p.len(),
{
    if p.len() == 0 {
        (Some(Seq::empty()), Seq::empty())
    } else {
        let (kept, cur) = scan_path(p.drop_last());
        if p.last() == '/' {
            (step_segment(kept, cur), Seq::empty())
        } else {
            (kept, cur.push(p.last()))
        }
    }
}

/// The segments of `p` once `.` and empty segments are dropped and each `..`
/// has removed the segment before it; `None` when a `..` climbs above the
/// start.
pub open spec fn normal_segments(p: Seq<char>) -> Option<Seq<Seq<char>>> {
    step_segment(scan_path(p).0, scan_path(p).1)
}

/// Segments joined by single slashes.
pub open spec fn join_segments(segs: Seq<Seq<char>>) -> Seq<char>
    decreases segs.len(),
{
    if segs.len() == 0 {
        Seq::empty()
    } else if segs.len() == 1 {
        segs[0]
    } else {
        join_segments(segs.drop_last()) + seq!['/'] + segs.last()
    }
}

/// No backslash and no NUL character in `p`.
pub open spec fn plain_chars(p: Seq<char>) -> bool {
    forall|i: int| 0 <= i < p.len() ==> #[trigger] p[i] != '\\' && p[i] != '\0'
}

/// The path that the relative path `p` resolves to below its root: `p`
/// normalized (see `normal_segments`). `None` when `p` is absolute, holds a
/// backslash or NUL, climbs above the root, or resolves to the root itself.
pub open spec fn resolve_below(p: Seq<char>) -> Option<Seq<char>> {
    if (p.len() > 0 && p[0] == '/') || !plain_chars(p) {
        None
    } else {
        match normal_segments(p) {
            Some(segs) => if segs.len() == 0 {
                None
            } else {
                Some(join_segments(segs))
            },
            None => None,
        }
    }
}

/// Once a prefix has climbed out, every longer prefix has too.
pub proof fn lemma_scan_out_stays_out(p: Seq<char>, k: int, m: int)
    requires
        0 <= k <= m <= p.len(),
        scan_path(p.subrange(0, k)).0 is None,
    ensures
        scan_path(p.subrange(0, m)).0 is None,
    decreases m - k,
{
    if m > k {
        lemma_scan_out_stays_out(p, k, m - 1);
        assert(p.subrange(0, m).drop_last() =~= p.subrange(0, m - 1));
    }
}

fn is_dot_name(p: &str, start: usize, end: usize) -> (r: (bool, bool))
    requires
        start <= end <= p@.len(),
    ensures
        r.0 == (p@.subrange(start as int, end as int) == seq!['.']),
        r.1 == (p@.subrange(start as int, end as int) == seq!['.', '.']),
{
    let ghost seg = p@.subrange(start as int, end as int);
    if end - start == 1 {
        let one = p.get_char(start) == '.';
        assert(one ==> seg =~= seq!['.']);
        assert(!one ==> seg != seq!['.']) by {
            if seg == seq!['.'] {
                assert(seg[0] == p@[start as int]);
            }
        }
        assert(seg.len() != 2);
        (one, false)
    } else if end - start == 2 {
        let two = p.get_char(start) == '.' && p.get_char(start + 1) == '.';
        assert(two ==> seg =~= seq!['.', '.']);
        assert(!two ==> seg != seq!['.', '.']) by {
            if seg == seq!['.', '.'] {
                assert(seg[0] == p@[start as int]);
                assert(seg[1] == p@[start + 1]);
            }
        }
        assert(seg.len() != 1);
        (false, two)
    } else {
        assert(seg.len() != 1 && seg.len() != 2);
        (false, false)
    }
}

/// Applies one segment, `p[start..end]`, to the kept segments.
fn push_segment(p: &str, start: usize, end: usize, kept: &mut Vec<String>, ok: &mut bool)
    requires
        start <= end <= p@.len(),
    ensures
        step_segment(
            if *old(ok) { Some(old(kept)@.map_values(|s: String| s@)) } else { None },
            p@.subrange(start as int, end as int),
        ) == if *final(ok) { Some(final(kept)@.map_values(|s: String| s@)) } else { None },
        !*old(ok) ==> !*final(ok),
{
    if !*ok {
        return;
    }
    let ghost before = kept@.map_values(|s: String| s@);
    let (dot, dotdot) = is_dot_name(p, start, end);
    if end == start || dot {
        return;
    }
    if dotdot {
        if kept.len() == 0 {
            *ok = false;
        } else {
            kept.pop();
            assert(kept@.map_values(|s: String| s@) =~= before.drop_last());
        }
        return;
    }
    kept.push(p.substring_char(start, end).to_owned());
    assert(kept@.map_values(|s: String| s@) =~= before.push(p@.subrange(start as int, end as int)));
}

/// The path that `path` resolves to below its root (see `resolve_below`).
pub fn resolve_below_root(path: &str) -> (r: Option<String>)
    ensures
        r is None <==> resolve_below(path@) is None,
        r matches Some(s) ==> resolve_below(path@) == Some(s@),
{
    let n = path.unicode_len();
    if n > 0 && path.get_char(0) == '/' {
        return None;
    }
    let mut kept: Vec<String> = Vec::new();
    let mut ok = true;
    let mut start: usize = 0;
    let mut i: usize = 0;
    assert(path@.subrange(0, 0) =~= Seq::<char>::empty());
    while i < n
        invariant
            n == path@.len(),
            start <= i <= n,
            forall|j: int| 0 <= j < i ==> #[trigger] path@[j] != '\\' && path@[j] != '\0',
            scan_path(path@.subrange(0, i as int)).1 == path@.subrange(start as int, i as int),
            scan_path(path@.subrange(0, i as int)).0 == if ok {
                Some(kept@.map_values(|s: String| s@))
            } else {
                None
            },
        decreases n - i,
    {
        let c = path.get_char(i);
        if c == '\\' || c == '\0' {
            assert(!plain_chars(path@));
            return None;
        }
        assert(path@.subrange(0, i + 1).drop_last() =~= path@.subrange(0, i as int));
        if c == '/' {
            push_segment(path, start, i, &mut kept, &mut ok);
            start = i + 1;
            assert(path@.subrange(start as int, i + 1) =~= Seq::<char>::empty());
        } else {
            assert(path@.subrange(start as int, i + 1) =~= path@.subrange(start as int, i as int).push(c));
        }
        i = i + 1;
    }
    assert(path@.subrange(0, n as int) =~= path@);
    push_segment(path, start, n, &mut kept, &mut ok);
    if !ok || kept.len() == 0 {
        return None;
    }
    let ghost segs = kept@.map_values(|s: String| s@);
    let mut out = kept[0].clone();
    let mut k: usize = 1;
    assert(segs.subrange(0, 1).drop_last() =~= Seq::<Seq<char>>::empty());
    while k < kept.len()
        invariant
            segs == kept@.map_values(|s: String| s@),
            1 <= k <= kept@.len(),
            out@ == join_segments(segs.subrange(0, k as int)),
        decreases kept@.len() - k,
    {
        out.append("/");
        out.append(kept[k].as_str());
        proof {
            reveal_strlit("/");
            assert(segs.subrange(0, k + 1).drop_last() =~= segs.subrange(0, k as int));
        }
        k = k + 1;
    }
    assert(segs.subrange(0, kept@.len() as int) =~= segs);
    Some(out)
}

} // verus!

//! Splitting a string on `/` separators, with a specification mirroring
//! `str::split('/')`: one segment between every two consecutive slashes,
//! empty segments included.

use vstd::prelude::*;

verus! {

/// Index of the first `/` in `s`, or `s.len()` if `s` holds none.
pub open spec fn first_slash(s: Seq<char>) -> nat
    decreases s.len(),
{
    if s.len() == 0 {
        0
    } else if s[0] == '/' {
        0
    } else {
        1 + first_slash(s.subrange(1, s.len() as int))
    }
}

/// `s` split on `/`, as `str::split('/')` yields it.
pub open spec fn split_slash(s: Seq<char>) -> Seq<Seq<char>>
    decreases s.len(),
{
    let i = first_slash(s);
    if i >= s.len() {
        seq![s]
    } else {
        seq![s.subrange(0, i as int)] + split_slash(s.subrange(i as int + 1, s.len() as int))
    }
}

/// The views of a vector of owned segments.
pub open spec fn seg_views(v: Seq<String>) -> Seq<Seq<char>> {
    v.map_values(|t: String| t@)
}

/// Nothing before `first_slash(s)` is a slash, and the character there is a
/// slash unless `s` holds none at all.
pub proof fn lemma_first_slash(s: Seq<char>)
    ensures
        first_slash(s) <= s.len(),
        first_slash(s) < s.len() ==> s[first_slash(s) as int] == '/',
        forall|j: int| 0 <= j < first_slash(s) ==> s[j] != '/',
    decreases s.len(),
{
    if s.len() == 0 {
    } else if s[0] == '/' {
    } else {
        let t = s.subrange(1, s.len() as int);
        lemma_first_slash(t);
        if first_slash(s) < s.len() {
            assert(s[first_slash(s) as int] == t[first_slash(t) as int]);
        }
        assert forall|j: int| 0 <= j < first_slash(s) implies s[j] != '/' by {
            if j > 0 {
                assert(s[j] == t[j - 1]);
            }
        }
    }
}

/// A position `k` with no slash before it, and a slash at it (or `k` at the
/// end with no slash anywhere), is exactly `first_slash(s)`.
pub proof fn lemma_first_slash_at(s: Seq<char>, k: int)
    requires
        0 <= k <= s.len(),
        forall|j: int| 0 <= j < k ==> s[j] != '/',
        k < s.len() ==> s[k] == '/',
    ensures
        first_slash(s) == k,
    decreases s.len(),
{
    if s.len() == 0 {
    } else if s[0] == '/' {
        if k > 0 {
            assert(s[0] != '/');
        }
    } else {
        let t = s.subrange(1, s.len() as int);
        assert forall|j: int| 0 <= j < k - 1 implies t[j] != '/' by {
            assert(t[j] == s[j + 1]);
        }
        if k - 1 < t.len() {
            assert(t[k - 1] == s[k]);
        }
        lemma_first_slash_at(t, k - 1);
    }
}

/// A slash-free string is a single segment.
pub proof fn lemma_split_slash_whole(a: Seq<char>)
    requires
        forall|j: int| 0 <= j < a.len() ==> a[j] != '/',
    ensures
        split_slash(a) == seq![a],
{
    lemma_first_slash_at(a, a.len() as int);
}

/// A slash-free head `a` followed by a slash is the first segment; the rest
/// of the split is the split of what follows the slash.
pub proof fn lemma_split_slash_step(a: Seq<char>, b: Seq<char>)
    requires
        forall|j: int| 0 <= j < a.len() ==> a[j] != '/',
    ensures
        split_slash(a + seq!['/'] + b) == seq![a] + split_slash(b),
{
    let s = a + seq!['/'] + b;
    assert forall|j: int| 0 <= j < a.len() implies s[j] != '/' by {
        assert(s[j] == a[j]);
    }
    assert(s[a.len() as int] == '/');
    lemma_first_slash_at(s, a.len() as int);
    assert(s.subrange(0, a.len() as int) =~= a);
    assert(s.subrange(a.len() as int + 1, s.len() as int) =~= b);
}

/// Splits `s` on `/` exactly as `str::split('/')` does, returning the
/// segments as owned strings.
pub fn split_slash_exec(s: &str) -> (segs: Vec<String>)
    ensures
        seg_views(segs@) == split_slash(s@),
{
    let n = s.unicode_len();
    let mut segs: Vec<String> = Vec::new();
    let mut cur: String = String::new();
    let mut i: usize = 0;
    proof {
        assert(seg_views(segs@) =~= Seq::<Seq<char>>::empty());
        assert(cur@ + s@.subrange(0, n as int) =~= s@);
        assert(seg_views(segs@) + split_slash(s@) =~= split_slash(s@));
    }
    while i < n
        invariant
            i <= n,
            n == s@.len(),
            forall|j: int| 0 <= j < cur@.len() ==> cur@[j] != '/',
            split_slash(s@) == seg_views(segs@) + split_slash(cur@ + s@.subrange(i as int, n as int)),
        decreases n - i,
    {
        let ghost rest = s@.subrange(i as int + 1, n as int);
        let ghost prev_cur = cur@;
        let ghost prev_views = seg_views(segs@);
        let c = s.get_char(i);
        if c == '/' {
            segs.push(cur);
            cur = String::new();
            proof {
                assert(prev_cur + s@.subrange(i as int, n as int) =~= (prev_cur + seq!['/']) + rest);
                lemma_split_slash_step(prev_cur, rest);
                assert(seg_views(segs@) =~= prev_views.push(prev_cur));
                assert(prev_views + (seq![prev_cur] + split_slash(rest)) =~= prev_views.push(prev_cur)
                    + split_slash(rest));
                assert(cur@ + rest =~= rest);
            }
        } else {
            let piece = s.substring_char(i, i + 1);
            cur.append(piece);
            proof {
                assert(cur@ =~= prev_cur.push(s@[i as int]));
                assert(cur@ + rest =~= prev_cur + s@.subrange(i as int, n as int));
            }
        }
        i = i + 1;
    }
    let ghost prev_views = seg_views(segs@);
    let ghost last_seg = cur@;
    proof {
        assert(cur@ + s@.subrange(i as int, n as int) =~= cur@);
        lemma_split_slash_whole(cur@);
    }
    segs.push(cur);
    proof {
        assert(seg_views(segs@) =~= prev_views.push(last_seg));
        assert(prev_views.push(last_seg) =~= prev_views + seq![last_seg]);
    }
    segs
}

} // verus!

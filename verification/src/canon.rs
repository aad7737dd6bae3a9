//! Lexical path canonicalization.
//!
//! A raw path is made absolute by joining it onto the current working
//! directory, and the joined string is normalized segment by segment:
//! empty segments and `.` are dropped, and `..` removes the segment
//! before it (or nothing, at the root).  The filesystem is never
//! consulted, and symbolic links are not resolved.

use vstd::prelude::*;

use crate::is_abs;

verus! {

/// Index of the first `/` in `s`, or `s.len()` when there is none.
pub open spec fn first_slash(s: Seq<char>) -> nat
    decreases s.len(),
{
    if s.len() == 0 {
        0
    } else if s[0] == '/' {
        0
    } else {
        1 + first_slash(s.skip(1))
    }
}

/// The segments of `s`, split on `/`.  Empty segments are kept, so the
/// result always holds at least one element: `split_slash("") == [""]`,
/// and `split_slash("/") == ["", ""]`.
pub open spec fn split_slash(s: Seq<char>) -> Seq<Seq<char>>
    decreases s.len(),
{
    let i = first_slash(s);
    if i >= s.len() {
        seq![s]
    } else {
        seq![s.take(i as int)] + split_slash(s.skip(i as int + 1))
    }
}

/// Segment normalization: a left-to-right fold that drops empty and `.`
/// segments, pops on `..`, and keeps everything else.
pub open spec fn norm_segs(segs: Seq<Seq<char>>) -> Seq<Seq<char>>
    decreases segs.len(),
{
    if segs.len() == 0 {
        Seq::empty()
    } else {
        let prev = norm_segs(segs.drop_last());
        let last = segs.last();
        if last.len() == 0 || last == seq!['.'] {
            prev
        } else if last == seq!['.', '.'] {
            if prev.len() > 0 {
                prev.drop_last()
            } else {
                prev
            }
        } else {
            prev.push(last)
        }
    }
}

/// `/seg0/seg1/.../segn`; the empty sequence of segments joins to the
/// empty string.
pub open spec fn join_slash(segs: Seq<Seq<char>>) -> Seq<char>
    decreases segs.len(),
{
    if segs.len() == 0 {
        Seq::empty()
    } else {
        join_slash(segs.drop_last()) + seq!['/'] + segs.last()
    }
}

/// The canonical form of an already-absolute (or cwd-joined) path
/// string: split, normalize, and rejoin; the root alone is `/`.
pub open spec fn canonical_of(s: Seq<char>) -> Seq<char> {
    let segs = norm_segs(split_slash(s));
    if segs.len() == 0 {
        seq!['/']
    } else {
        join_slash(segs)
    }
}

/// Full canonicalization of a raw path: a relative path is first joined
/// onto the working directory `cwd`.
pub open spec fn spec_canonicalize(path: Seq<char>, cwd: Seq<char>) -> Seq<char> {
    if is_abs(path) {
        canonical_of(path)
    } else {
        canonical_of(cwd + seq!['/'] + path)
    }
}

/// `s` holds no `/`.
pub open spec fn seg_no_slash(s: Seq<char>) -> bool {
    forall|k: int| 0 <= k < s.len() ==> s[k] != '/'
}

/// A segment that normalization leaves alone: non-empty, not a dot
/// segment, and free of `/`.
pub open spec fn seg_ok(s: Seq<char>) -> bool {
    &&& s.len() > 0
    &&& s != seq!['.']
    &&& s != seq!['.', '.']
    &&& seg_no_slash(s)
}

pub proof fn lemma_first_slash(s: Seq<char>)
    ensures
        first_slash(s) <= s.len(),
        forall|k: int| 0 <= k < first_slash(s) ==> s[k] != '/',
        first_slash(s) < s.len() ==> s[first_slash(s) as int] == '/',
    decreases s.len(),
{
    if s.len() == 0 {
    } else if s[0] == '/' {
    } else {
        lemma_first_slash(s.skip(1));
        assert forall|k: int| 0 <= k < first_slash(s) implies s[k] != '/' by {
            if k > 0 {
                assert(s.skip(1)[k - 1] == s[k]);
            }
        }
        if first_slash(s) < s.len() {
            assert(s.skip(1)[first_slash(s.skip(1)) as int] == s[first_slash(s) as int]);
        }
    }
}

/// Pins `first_slash` at a known position: the first slash is at `m`
/// when `s[m]` is a slash and nothing before it is.
pub proof fn lemma_first_slash_at(s: Seq<char>, m: int)
    requires
        0 <= m < s.len(),
        s[m] == '/',
        forall|k: int| 0 <= k < m ==> s[k] != '/',
    ensures
        first_slash(s) == m,
    decreases m,
{
    if m == 0 {
    } else {
        assert(s[0] != '/');
        let t = s.skip(1);
        assert(t[m - 1] == s[m]);
        assert forall|k: int| 0 <= k < m - 1 implies t[k] != '/' by {
            assert(t[k] == s[k + 1]);
        }
        lemma_first_slash_at(t, m - 1);
    }
}

/// Splitting distributes over a slash: cutting `a + "/" + b` yields the
/// cuts of `a` followed by the cuts of `b`.
pub proof fn lemma_split_app(a: Seq<char>, b: Seq<char>)
    ensures
        split_slash(a + seq!['/'] + b) == split_slash(a) + split_slash(b),
    decreases a.len(),
{
    let s = a + seq!['/'] + b;
    let i = first_slash(a);
    lemma_first_slash(a);
    if i >= a.len() {
        lemma_first_slash_at(s, a.len() as int);
        assert(s.take(a.len() as int) =~= a);
        assert(s.skip(a.len() as int + 1) =~= b);
        assert(split_slash(s) =~= seq![a] + split_slash(b));
    } else {
        lemma_first_slash_at(s, i as int);
        assert(s.take(i as int) =~= a.take(i as int));
        assert(s.skip(i as int + 1) =~= a.skip(i as int + 1) + seq!['/'] + b);
        lemma_split_app(a.skip(i as int + 1), b);
        assert(split_slash(s) =~= split_slash(a) + split_slash(b));
    }
}

/// Every segment that splitting produces is free of `/`.
pub proof fn lemma_split_no_slash(s: Seq<char>)
    ensures
        forall|j: int|
            0 <= j < split_slash(s).len() ==> #[trigger] seg_no_slash(split_slash(s)[j]),
    decreases s.len(),
{
    let i = first_slash(s);
    lemma_first_slash(s);
    if i >= s.len() {
        assert(seg_no_slash(s)) by {
            assert(forall|k: int| 0 <= k < s.len() ==> s[k] != '/');
        }
    } else {
        assert(seg_no_slash(s.take(i as int)));
        lemma_split_no_slash(s.skip(i as int + 1));
        assert forall|j: int|
            0 <= j < split_slash(s).len() implies #[trigger] seg_no_slash(split_slash(s)[j]) by {
            if j > 0 {
                assert(split_slash(s)[j] == split_slash(s.skip(i as int + 1))[j - 1]);
            }
        }
    }
}

/// Every segment that normalization produces is `seg_ok`, provided the
/// input segments held no `/`.
pub proof fn lemma_norm_segs_ok(segs: Seq<Seq<char>>)
    requires
        forall|k: int| 0 <= k < segs.len() ==> #[trigger] seg_no_slash(segs[k]),
    ensures
        forall|j: int|
            0 <= j < norm_segs(segs).len() ==> #[trigger] seg_ok(norm_segs(segs)[j]),
    decreases segs.len(),
{
    if segs.len() == 0 {
    } else {
        let init = segs.drop_last();
        assert(forall|k: int| 0 <= k < init.len() ==> #[trigger] seg_no_slash(init[k]));
        lemma_norm_segs_ok(init);
        let prev = norm_segs(init);
        let last = segs.last();
        if last.len() == 0 || last == seq!['.'] {
        } else if last == seq!['.', '.'] {
            if prev.len() > 0 {
                assert(forall|j: int|
                    0 <= j < prev.drop_last().len() ==> prev.drop_last()[j] == prev[j]);
            }
        } else {
            assert(seg_no_slash(last));
            assert(seg_ok(last));
            assert(forall|j: int| 0 <= j < prev.len() ==> prev.push(last)[j] == prev[j]);
        }
    }
}

/// A joined non-empty segment list starts with `/`.
pub proof fn lemma_join_abs(segs: Seq<Seq<char>>)
    requires
        segs.len() > 0,
    ensures
        is_abs(join_slash(segs)),
    decreases segs.len(),
{
    if segs.drop_last().len() == 0 {
        assert(join_slash(segs.drop_last()) == Seq::<char>::empty());
        assert(join_slash(segs)[0] == '/');
    } else {
        lemma_join_abs(segs.drop_last());
        assert(join_slash(segs)[0] == join_slash(segs.drop_last())[0]);
    }
}

/// The canonical form of any string is an absolute path.
pub proof fn lemma_canonical_abs(s: Seq<char>)
    ensures
        is_abs(canonical_of(s)),
{
    let segs = norm_segs(split_slash(s));
    if segs.len() == 0 {
        assert(canonical_of(s) == seq!['/']);
    } else {
        lemma_join_abs(segs);
    }
}

/// Splitting a joined segment list recovers the segments, preceded by
/// the empty segment that the leading `/` cuts off.
pub proof fn lemma_split_join(segs: Seq<Seq<char>>)
    requires
        segs.len() > 0,
        forall|k: int| 0 <= k < segs.len() ==> #[trigger] seg_no_slash(segs[k]),
    ensures
        split_slash(join_slash(segs)) == seq![Seq::<char>::empty()] + segs,
    decreases segs.len(),
{
    let init = segs.drop_last();
    let last = segs.last();
    lemma_split_app(join_slash(init), last);
    lemma_first_slash(last);
    assert(seg_no_slash(segs[segs.len() - 1]));
    assert(first_slash(last) >= last.len()) by {
        if first_slash(last) < last.len() {
            assert(last[first_slash(last) as int] == '/');
        }
    }
    assert(split_slash(last) == seq![last]);
    if init.len() == 0 {
        assert(join_slash(init) == Seq::<char>::empty());
        assert(first_slash(Seq::<char>::empty()) == 0);
        assert(split_slash(Seq::<char>::empty()) == seq![Seq::<char>::empty()]);
        assert(split_slash(join_slash(segs)) =~= seq![Seq::<char>::empty()] + segs);
    } else {
        assert(forall|k: int| 0 <= k < init.len() ==> #[trigger] seg_no_slash(init[k]));
        lemma_split_join(init);
        assert(split_slash(join_slash(segs)) =~= seq![Seq::<char>::empty()] + segs);
    }
}

/// Normalization passes a list of `seg_ok` segments through unchanged,
/// dropping only the leading empty segment.
pub proof fn lemma_norm_pass(segs: Seq<Seq<char>>)
    requires
        forall|j: int| 0 <= j < segs.len() ==> #[trigger] seg_ok(segs[j]),
    ensures
        norm_segs(seq![Seq::<char>::empty()] + segs) == segs,
    decreases segs.len(),
{
    let whole = seq![Seq::<char>::empty()] + segs;
    if segs.len() == 0 {
        assert(whole.last().len() == 0);
        assert(whole.drop_last() =~= Seq::<Seq<char>>::empty());
        assert(norm_segs(Seq::<Seq<char>>::empty()) == Seq::<Seq<char>>::empty());
        assert(norm_segs(whole) =~= segs);
    } else {
        let init = segs.drop_last();
        assert(forall|j: int| 0 <= j < init.len() ==> #[trigger] seg_ok(init[j]));
        lemma_norm_pass(init);
        assert(whole.drop_last() =~= seq![Seq::<char>::empty()] + init);
        assert(whole.last() == segs.last());
        assert(seg_ok(segs.last()));
        assert(norm_segs(whole) =~= init.push(segs.last()));
        assert(init.push(segs.last()) =~= segs);
    }
}

/// Canonicalizing an already-canonical string returns it unchanged.
pub proof fn lemma_canonical_idem(s: Seq<char>)
    ensures
        canonical_of(canonical_of(s)) == canonical_of(s),
{
    lemma_split_no_slash(s);
    let sp = split_slash(s);
    lemma_norm_segs_ok(sp);
    let ns = norm_segs(sp);
    if ns.len() == 0 {
        let root = seq!['/'];
        assert(root =~= Seq::<char>::empty() + seq!['/'] + Seq::<char>::empty());
        lemma_split_app(Seq::<char>::empty(), Seq::<char>::empty());
        assert(first_slash(Seq::<char>::empty()) == 0);
        let e = Seq::<char>::empty();
        assert(split_slash(e) == seq![e]);
        let two = seq![e] + seq![e];
        assert(split_slash(root) == two);
        assert(two.last().len() == 0);
        assert(two.drop_last() =~= seq![e]);
        assert(seq![e].last().len() == 0);
        assert(seq![e].drop_last() =~= Seq::<Seq<char>>::empty());
        assert(norm_segs(Seq::<Seq<char>>::empty()) == Seq::<Seq<char>>::empty());
        assert(norm_segs(seq![e]) == Seq::<Seq<char>>::empty());
        assert(norm_segs(two) =~= Seq::<Seq<char>>::empty());
        assert(canonical_of(root) == root);
    } else {
        assert(forall|j: int| 0 <= j < ns.len() ==> #[trigger] seg_ok(ns[j]));
        assert forall|k: int| 0 <= k < ns.len() implies #[trigger] seg_no_slash(ns[k]) by {
            assert(seg_ok(ns[k]));
        }
        lemma_split_join(ns);
        lemma_norm_pass(ns);
        assert(canonical_of(join_slash(ns)) == join_slash(ns));
    }
}

/// Idempotence of canonicalization: once a path has been
/// canonicalized, canonicalizing it again (against any working
/// directory) changes nothing.
pub proof fn lemma_canonicalize_idempotent(path: Seq<char>, cwd: Seq<char>)
    ensures
        spec_canonicalize(spec_canonicalize(path, cwd), cwd) == spec_canonicalize(path, cwd),
{
    if is_abs(path) {
        lemma_canonical_abs(path);
        lemma_canonical_idem(path);
    } else {
        let joined = cwd + seq!['/'] + path;
        lemma_canonical_abs(joined);
        lemma_canonical_idem(joined);
    }
}

/// Cuts `s` at every `/`.
pub fn split_slash_str(s: &str) -> (segs: Vec<String>)
    ensures
        segs.deep_view() == split_slash(s@),
{
    let n = s.unicode_len();
    let mut segs: Vec<String> = Vec::new();
    let mut start: usize = 0;
    let mut i: usize = 0;
    proof {
        assert(s@.skip(0) =~= s@);
        assert(segs.deep_view() =~= Seq::<Seq<char>>::empty());
        assert(segs.deep_view() + split_slash(s@) =~= split_slash(s@));
    }
    while i < n
        invariant
            start <= i <= n,
            n == s@.len(),
            forall|k: int| start <= k < i ==> s@[k] != '/',
            split_slash(s@) == segs.deep_view() + split_slash(s@.skip(start as int)),
        decreases n - i,
    {
        if s.get_char(i) == '/' {
            let ghost tail = s@.skip(start as int);
            let ghost olddv = segs.deep_view();
            proof {
                assert(tail[i - start as int] == '/');
                assert(forall|k: int| 0 <= k < i - start as int ==> tail[k] == s@[k + start]);
                lemma_first_slash_at(tail, i - start as int);
                assert(tail.take(i - start as int) =~= s@.subrange(start as int, i as int));
                assert(tail.skip(i - start as int + 1) =~= s@.skip(i as int + 1));
            }
            let seg = String::from_str(s.substring_char(start, i));
            segs.push(seg);
            proof {
                assert(segs.deep_view() =~= olddv.push(s@.subrange(start as int, i as int)));
                assert(olddv + split_slash(tail) =~= segs.deep_view() + split_slash(
                    s@.skip(i as int + 1),
                ));
            }
            start = i + 1;
        }
        i += 1;
    }
    let ghost tail = s@.skip(start as int);
    let ghost olddv = segs.deep_view();
    proof {
        lemma_first_slash(tail);
        assert(first_slash(tail) >= tail.len()) by {
            if first_slash(tail) < tail.len() {
                assert(tail[first_slash(tail) as int] == s@[first_slash(tail) + start]);
            }
        }
        assert(split_slash(tail) == seq![tail]);
    }
    let seg = String::from_str(s.substring_char(start, n));
    segs.push(seg);
    proof {
        assert(tail =~= s@.subrange(start as int, n as int));
        assert(segs.deep_view() =~= olddv.push(tail));
        assert(segs.deep_view() =~= olddv + seq![tail]);
    }
    segs
}

/// Folds the segment list left to right, dropping empty and `.`
/// segments and popping on `..`.
pub fn normalize_segments(segs: &Vec<String>) -> (out: Vec<String>)
    ensures
        out.deep_view() == norm_segs(segs.deep_view()),
{
    let ghost dv = segs.deep_view();
    proof {
        reveal_strlit(".");
        reveal_strlit("..");
    }
    let dot = String::from_str(".");
    let dotdot = String::from_str("..");
    proof {
        assert(dot@ =~= seq!['.']);
        assert(dotdot@ =~= seq!['.', '.']);
    }
    let mut out: Vec<String> = Vec::new();
    let mut i: usize = 0;
    while i < segs.len()
        invariant
            i <= segs.len(),
            dv == segs.deep_view(),
            dot@ == seq!['.'],
            dotdot@ == seq!['.', '.'],
            out.deep_view() == norm_segs(dv.take(i as int)),
        decreases segs.len() - i,
    {
        let ghost olddv = out.deep_view();
        proof {
            assert(dv.take(i as int + 1).drop_last() =~= dv.take(i as int));
            assert(dv.take(i as int + 1).last() == segs@[i as int]@);
        }
        let seg = &segs[i];
        if seg.as_str().unicode_len() == 0 || *seg == dot {
        } else if *seg == dotdot {
            if out.len() > 0 {
                out.pop();
                proof {
                    assert(out.deep_view() =~= olddv.drop_last());
                }
            }
        } else {
            out.push(seg.clone());
            proof {
                assert(out.deep_view() =~= olddv.push(segs@[i as int]@));
            }
        }
        i += 1;
    }
    proof {
        assert(dv.take(segs.len() as int) =~= dv);
    }
    out
}

/// Joins the segments back into `/seg0/seg1/...`; an empty list joins
/// to the root `/`.
pub fn join_segments(segs: &Vec<String>) -> (out: String)
    ensures
        out@ == if segs.deep_view().len() == 0 {
            seq!['/']
        } else {
            join_slash(segs.deep_view())
        },
{
    let ghost dv = segs.deep_view();
    proof {
        reveal_strlit("/");
        assert("/"@ =~= seq!['/']);
    }
    if segs.len() == 0 {
        return String::from_str("/");
    }
    let mut out = String::new();
    let mut i: usize = 0;
    while i < segs.len()
        invariant
            i <= segs.len(),
            segs.len() > 0,
            dv == segs.deep_view(),
            out@ == join_slash(dv.take(i as int)),
        decreases segs.len() - i,
    {
        let ghost oldview = out@;
        proof {
            reveal_strlit("/");
            assert("/"@ =~= seq!['/']);
            assert(dv.take(i as int + 1).drop_last() =~= dv.take(i as int));
            assert(dv.take(i as int + 1).last() == segs@[i as int]@);
        }
        out.append("/");
        out.append(segs[i].as_str());
        i += 1;
        proof {
            assert(out@ =~= oldview + seq!['/'] + segs@[i - 1]@);
        }
    }
    proof {
        assert(dv.take(segs.len() as int) =~= dv);
    }
    out
}

/// Canonicalizes `path` against the working directory `cwd`: the path
/// is made absolute and lexically normalized, without touching the
/// filesystem.
pub fn canonicalize_str(path: &str, cwd: &str) -> (r: String)
    ensures
        r@ == spec_canonicalize(path@, cwd@),
        is_abs(r@),
{
    proof {
        reveal_strlit("/");
        assert("/"@ =~= seq!['/']);
    }
    let joined: String = if path.unicode_len() > 0 && path.get_char(0) == '/' {
        String::from_str(path)
    } else {
        let mut j = String::from_str(cwd);
        j.append("/");
        j.append(path);
        j
    };
    proof {
        if is_abs(path@) {
            assert(joined@ == path@);
        } else {
            assert(joined@ == cwd@ + seq!['/'] + path@);
        }
        lemma_canonical_abs(joined@);
    }
    let segs = split_slash_str(joined.as_str());
    let ns = normalize_segments(&segs);
    join_segments(&ns)
}

/// Relies on `path_absolutize::Absolutize::absolutize`: resolving the
/// relative path `.` yields the process's current working directory,
/// and the crate promises an absolute result.  The lookup is
/// environmental, so nothing more is stated of the value.
#[verifier::external_body]
pub(crate) fn current_dir_string() -> (r: Option<String>)
    ensures
        r matches Some(c) ==> is_abs(c@),
{
    match path_absolutize::Absolutize::absolutize(std::path::Path::new(".")) {
        Ok(p) => match p.to_str() {
            Some(s) => Some(s.to_owned()),
            None => None,
        },
        Err(_) => None,
    }
}

} // verus!

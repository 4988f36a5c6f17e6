//! Case-insensitive glob matching over MIME strings.
//!
//! `*` matches any run of bytes (possibly empty), `?` matches exactly one
//! byte, and every other byte matches only itself.

use vstd::prelude::*;
use vstd::string::*;

verus! {

pub const STAR: u8 = 42;

pub const QUESTION: u8 = 63;

/// Whether the glob `p` matches all of `v`.
pub open spec fn glob_matches(p: Seq<u8>, v: Seq<u8>) -> bool
    decreases p.len(), v.len(),
{
    if p.len() == 0 {
        v.len() == 0
    } else if p[0] == STAR {
        // the star stands for nothing, or for one more byte of the value
        glob_matches(p.drop_first(), v) || (v.len() > 0 && glob_matches(p, v.drop_first()))
    } else if p[0] == QUESTION {
        v.len() > 0 && glob_matches(p.drop_first(), v.drop_first())
    } else {
        v.len() > 0 && v[0] == p[0] && glob_matches(p.drop_first(), v.drop_first())
    }
}

/// The empty pattern matches the empty value and nothing else.
pub proof fn lemma_empty_pattern(v: Seq<u8>)
    ensures
        glob_matches(Seq::empty(), v) <==> v.len() == 0,
{
}

/// A lone `*` matches every value, the empty one included.
pub proof fn lemma_star_matches_all(v: Seq<u8>)
    ensures
        glob_matches(seq![STAR], v),
    decreases v.len(),
{
    let p = seq![STAR];
    assert(p.len() == 1 && p[0] == STAR);
    assert(p.drop_first() =~= Seq::<u8>::empty());
    if v.len() > 0 {
        lemma_star_matches_all(v.drop_first());
    } else {
        assert(glob_matches(p.drop_first(), v));
    }
}

/// A leading star matches exactly what the rest of the glob matches after
/// skipping some prefix of the value.
proof fn lemma_star(q: Seq<u8>, w: Seq<u8>)
    requires
        q.len() > 0,
        q[0] == STAR,
    ensures
        glob_matches(q, w) <==> exists|k: int|
            0 <= k <= w.len() && #[trigger] glob_matches(q.drop_first(), w.subrange(k, w.len() as int)),
    decreases w.len(),
{
    let q1 = q.drop_first();
    assert(w.subrange(0, w.len() as int) =~= w);
    if glob_matches(q1, w) {
        assert(glob_matches(q1, w.subrange(0, w.len() as int)));
    }
    if w.len() > 0 {
        let w1 = w.drop_first();
        lemma_star(q, w1);
        if glob_matches(q, w) && !glob_matches(q1, w) {
            let k = choose|k: int|
                0 <= k <= w1.len() && #[trigger] glob_matches(q1, w1.subrange(k, w1.len() as int));
            assert(w1.subrange(k, w1.len() as int) =~= w.subrange(k + 1, w.len() as int));
            assert(glob_matches(q1, w.subrange(k + 1, w.len() as int)));
        }
        if exists|k: int|
            0 <= k <= w.len() && #[trigger] glob_matches(q1, w.subrange(k, w.len() as int)) {
            let k = choose|k: int|
                0 <= k <= w.len() && #[trigger] glob_matches(q1, w.subrange(k, w.len() as int));
            if k > 0 {
                assert(w1.subrange(k - 1, w1.len() as int) =~= w.subrange(k, w.len() as int));
                assert(glob_matches(q, w1));
            }
        }
    }
}

/// A run of `n` leading stars matches exactly what "the rest of the glob,
/// after skipping any prefix of the value" matches.
proof fn lemma_star_run(q: Seq<u8>, n: int, w: Seq<u8>)
    requires
        1 <= n <= q.len(),
        forall|i: int| 0 <= i < n ==> q[i] == STAR,
    ensures
        glob_matches(q, w) <==> exists|k: int|
            0 <= k <= w.len() && #[trigger] glob_matches(
                q.subrange(n, q.len() as int),
                w.subrange(k, w.len() as int),
            ),
    decreases n,
{
    let rest = q.subrange(n, q.len() as int);
    let q1 = q.drop_first();
    lemma_star(q, w);
    if n == 1 {
        assert(q1 =~= rest);
    } else {
        assert(q1.subrange(n - 1, q1.len() as int) =~= rest);
        if glob_matches(q, w) {
            let k = choose|k: int|
                0 <= k <= w.len() && #[trigger] glob_matches(q1, w.subrange(k, w.len() as int));
            let wk = w.subrange(k, w.len() as int);
            lemma_star_run(q1, n - 1, wk);
            let j = choose|j: int|
                0 <= j <= wk.len() && #[trigger] glob_matches(
                    q1.subrange(n - 1, q1.len() as int),
                    wk.subrange(j, wk.len() as int),
                );
            assert(wk.subrange(j, wk.len() as int) =~= w.subrange(k + j, w.len() as int));
        }
        if exists|k: int|
            0 <= k <= w.len() && #[trigger] glob_matches(rest, w.subrange(k, w.len() as int)) {
            let m = choose|k: int|
                0 <= k <= w.len() && #[trigger] glob_matches(rest, w.subrange(k, w.len() as int));
            let wm = w.subrange(m, w.len() as int);
            lemma_star_run(q1, n - 1, wm);
            assert(wm.subrange(0, wm.len() as int) =~= wm);
            assert(glob_matches(q1, wm));
        }
    }
}

/// Matches `p[pi..]` against `v[vi..]`.
fn glob_from(p: &[u8], pi: usize, v: &[u8], vi: usize) -> (r: bool)
    requires
        pi <= p@.len(),
        vi <= v@.len(),
    ensures
        r == glob_matches(p@.subrange(pi as int, p@.len() as int), v@.subrange(vi as int, v@.len() as int)),
    decreases p@.len() - pi,
{
    let ghost q = p@.subrange(pi as int, p@.len() as int);
    let ghost w = v@.subrange(vi as int, v@.len() as int);
    if pi == p.len() {
        return vi == v.len();
    }
    assert(q.drop_first() =~= p@.subrange(pi + 1, p@.len() as int));
    if p[pi] == STAR {
        let mut idx: usize = pi + 1;
        while idx < p.len() && p[idx] == STAR
            invariant
                pi < idx <= p@.len(),
                forall|i: int| pi <= i < idx ==> p@[i] == STAR,
            decreases p@.len() - idx,
        {
            idx = idx + 1;
        }
        let ghost rest = p@.subrange(idx as int, p@.len() as int);
        proof {
            assert(q.subrange(idx - pi, q.len() as int) =~= rest);
            lemma_star_run(q, idx - pi, w);
        }
        if idx == p.len() {
            proof {
                assert(w.subrange(w.len() as int, w.len() as int) =~= Seq::<u8>::empty());
                assert(glob_matches(rest, w.subrange(w.len() as int, w.len() as int)));
            }
            return true;
        }
        let mut off: usize = vi;
        loop
            invariant
                vi <= off <= v@.len(),
                pi < idx < p@.len(),
                rest == p@.subrange(idx as int, p@.len() as int),
                q == p@.subrange(pi as int, p@.len() as int),
                w == v@.subrange(vi as int, v@.len() as int),
                glob_matches(q, w) <==> exists|k: int|
                    0 <= k <= w.len() && #[trigger] glob_matches(rest, w.subrange(k, w.len() as int)),
                forall|o: int|
                    vi <= o < off ==> !glob_matches(rest, #[trigger] v@.subrange(o, v@.len() as int)),
            decreases v@.len() - off,
        {
            assert(w.subrange(off - vi, w.len() as int) =~= v@.subrange(off as int, v@.len() as int));
            if glob_from(p, idx, v, off) {
                return true;
            }
            if off == v.len() {
                proof {
                    assert forall|k: int| 0 <= k <= w.len() implies !#[trigger] glob_matches(
                        rest,
                        w.subrange(k, w.len() as int),
                    ) by {
                        assert(w.subrange(k, w.len() as int) =~= v@.subrange(vi + k, v@.len() as int));
                    }
                }
                return false;
            }
            off = off + 1;
        }
    } else if p[pi] == QUESTION {
        if vi == v.len() {
            return false;
        }
        assert(w.drop_first() =~= v@.subrange(vi + 1, v@.len() as int));
        glob_from(p, pi + 1, v, vi + 1)
    } else {
        if vi == v.len() || v[vi] != p[pi] {
            return false;
        }
        assert(w.drop_first() =~= v@.subrange(vi + 1, v@.len() as int));
        glob_from(p, pi + 1, v, vi + 1)
    }
}

/// Byte-wise glob match of `pattern` against the whole of `value`.
pub fn matches_pattern_bytes(pattern: &[u8], value: &[u8]) -> (r: bool)
    ensures
        r == glob_matches(pattern@, value@),
{
    assert(pattern@.subrange(0, pattern@.len() as int) =~= pattern@);
    assert(value@.subrange(0, value@.len() as int) =~= value@);
    glob_from(pattern, 0, value, 0)
}

/// Glob match of `pattern` against `value`, over their UTF-8 bytes.
pub fn matches_pattern(pattern: &str, value: &str) -> (r: bool)
    ensures
        r == glob_matches(pattern.spec_bytes(), value.spec_bytes()),
{
    matches_pattern_bytes(pattern.as_bytes(), value.as_bytes())
}

} // verus!

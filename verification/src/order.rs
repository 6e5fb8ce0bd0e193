//! The order in which followers are listed: by lowercased handle, then by
//! ID, then by position, and the stable merge sort that produces it.
use vstd::prelude::*;

verus! {

/// Lexicographic order on character sequences, by code point; a proper
/// prefix comes first. This is the order of `str`'s `Ord`.
pub open spec fn seq_lt(a: Seq<char>, b: Seq<char>) -> bool
    decreases a.len(),
{
    if a.len() == 0 {
        b.len() > 0
    } else if b.len() == 0 {
        false
    } else if a[0] < b[0] {
        true
    } else if a[0] > b[0] {
        false
    } else {
        seq_lt(a.drop_first(), b.drop_first())
    }
}

pub proof fn lemma_seq_lt_irreflexive(a: Seq<char>)
    ensures
        !seq_lt(a, a),
    decreases a.len(),
{
    if a.len() > 0 {
        lemma_seq_lt_irreflexive(a.drop_first());
    }
}

pub proof fn lemma_seq_lt_asymmetric(a: Seq<char>, b: Seq<char>)
    requires
        seq_lt(a, b),
    ensures
        !seq_lt(b, a),
    decreases a.len(),
{
    if a.len() > 0 && b.len() > 0 && a[0] == b[0] {
        lemma_seq_lt_asymmetric(a.drop_first(), b.drop_first());
    }
}

pub proof fn lemma_seq_lt_transitive(a: Seq<char>, b: Seq<char>, c: Seq<char>)
    requires
        seq_lt(a, b),
        seq_lt(b, c),
    ensures
        seq_lt(a, c),
    decreases a.len(),
{
    if a.len() > 0 && b.len() > 0 && c.len() > 0 {
        if a[0] == b[0] && b[0] == c[0] {
            lemma_seq_lt_transitive(a.drop_first(), b.drop_first(), c.drop_first());
        }
    }
}

pub proof fn lemma_seq_lt_total(a: Seq<char>, b: Seq<char>)
    requires
        a != b,
    ensures
        seq_lt(a, b) || seq_lt(b, a),
    decreases a.len(),
{
    if a.len() > 0 && b.len() > 0 {
        if a[0] == b[0] {
            if a.drop_first() == b.drop_first() {
                assert(a =~= seq![a[0]] + a.drop_first());
                assert(b =~= seq![b[0]] + b.drop_first());
            }
            lemma_seq_lt_total(a.drop_first(), b.drop_first());
        }
    } else if a.len() == 0 && b.len() == 0 {
        assert(a =~= b);
    }
}

/// Compares two character sequences: -1, 0 or 1.
pub fn compare_chars(a: &Vec<char>, b: &Vec<char>) -> (r: i8)
    ensures
        r == 0 <==> a@ == b@,
        r < 0 <==> seq_lt(a@, b@),
        r > 0 <==> seq_lt(b@, a@),
{
    let mut i: usize = 0;
    assert(a@.skip(0) =~= a@);
    assert(b@.skip(0) =~= b@);
    assert(a@.take(0) =~= b@.take(0));
    while i < a.len() && i < b.len()
        invariant
            i <= a@.len(),
            i <= b@.len(),
            a@.take(i as int) == b@.take(i as int),
            seq_lt(a@, b@) == seq_lt(a@.skip(i as int), b@.skip(i as int)),
            seq_lt(b@, a@) == seq_lt(b@.skip(i as int), a@.skip(i as int)),
        decreases a@.len() - i,
    {
        let x = a[i];
        let y = b[i];
        proof {
            assert(a@.skip(i as int)[0] == x);
            assert(b@.skip(i as int)[0] == y);
            assert(a@.skip(i as int).drop_first() =~= a@.skip(i + 1));
            assert(b@.skip(i as int).drop_first() =~= b@.skip(i + 1));
        }
        if x < y {
            proof {
                lemma_seq_lt_asymmetric(a@, b@);
                if a@ == b@ {
                    lemma_seq_lt_irreflexive(a@);
                }
            }
            return -1;
        }
        if x > y {
            proof {
                lemma_seq_lt_asymmetric(b@, a@);
                if a@ == b@ {
                    lemma_seq_lt_irreflexive(a@);
                }
            }
            return 1;
        }
        proof {
            assert(a@.take(i + 1) =~= a@.take(i as int).push(x));
            assert(b@.take(i + 1) =~= b@.take(i as int).push(y));
        }
        i = i + 1;
    }
    if a.len() == b.len() {
        proof {
            assert(a@ =~= a@.take(i as int));
            assert(b@ =~= b@.take(i as int));
            lemma_seq_lt_irreflexive(a@);
        }
        0
    } else if a.len() < b.len() {
        proof {
            assert(a@.skip(i as int).len() == 0);
            assert(b@.skip(i as int).len() > 0);
            if a@ == b@ {
                assert(false);
            }
        }
        -1
    } else {
        proof {
            assert(b@.skip(i as int).len() == 0);
            assert(a@.skip(i as int).len() > 0);
            if a@ == b@ {
                assert(false);
            }
        }
        1
    }
}


/// Position `i` comes before position `j`: by key, then by ID, then by
/// position, so that the order is strict and total on distinct positions.
pub open spec fn key_before(keys: Seq<Vec<char>>, ids: Seq<Vec<char>>, i: int, j: int) -> bool {
    seq_lt(keys[i]@, keys[j]@) || (keys[i]@ == keys[j]@ && (seq_lt(ids[i]@, ids[j]@) || (ids[i]@
        == ids[j]@ && i < j)))
}

pub proof fn lemma_key_before_strict(keys: Seq<Vec<char>>, ids: Seq<Vec<char>>, i: int, j: int)
    ensures
        key_before(keys, ids, i, j) ==> !key_before(keys, ids, j, i),
        i != j ==> key_before(keys, ids, i, j) || key_before(keys, ids, j, i),
        !key_before(keys, ids, i, i),
{
    lemma_seq_lt_irreflexive(keys[i]@);
    lemma_seq_lt_irreflexive(ids[i]@);
    if seq_lt(keys[i]@, keys[j]@) {
        lemma_seq_lt_asymmetric(keys[i]@, keys[j]@);
    }
    if seq_lt(keys[j]@, keys[i]@) {
        lemma_seq_lt_asymmetric(keys[j]@, keys[i]@);
    }
    if seq_lt(ids[i]@, ids[j]@) {
        lemma_seq_lt_asymmetric(ids[i]@, ids[j]@);
    }
    if seq_lt(ids[j]@, ids[i]@) {
        lemma_seq_lt_asymmetric(ids[j]@, ids[i]@);
    }
    if keys[i]@ != keys[j]@ {
        lemma_seq_lt_total(keys[i]@, keys[j]@);
    }
    if ids[i]@ != ids[j]@ {
        lemma_seq_lt_total(ids[i]@, ids[j]@);
    }
}

pub proof fn lemma_key_before_transitive(keys: Seq<Vec<char>>, ids: Seq<Vec<char>>, i: int, j: int, k: int)
    requires
        key_before(keys, ids, i, j),
        key_before(keys, ids, j, k),
    ensures
        key_before(keys, ids, i, k),
{
    if seq_lt(keys[i]@, keys[j]@) && seq_lt(keys[j]@, keys[k]@) {
        lemma_seq_lt_transitive(keys[i]@, keys[j]@, keys[k]@);
    }
    if keys[i]@ == keys[j]@ && keys[j]@ == keys[k]@ {
        if seq_lt(ids[i]@, ids[j]@) && seq_lt(ids[j]@, ids[k]@) {
            lemma_seq_lt_transitive(ids[i]@, ids[j]@, ids[k]@);
        }
    }
}

/// `s` is strictly increasing in the listing order.
pub open spec fn sorted_by_key(s: Seq<usize>, keys: Seq<Vec<char>>, ids: Seq<Vec<char>>) -> bool {
    forall|a: int, b: int|
        0 <= a < b < s.len() ==> key_before(keys, ids, #[trigger] s[a] as int, #[trigger] s[b] as int)
}

/// Every position in `s` has a key and an ID.
pub open spec fn in_bounds(s: Seq<usize>, n: int) -> bool {
    forall|a: int| 0 <= a < s.len() ==> #[trigger] s[a] < n
}

proof fn lemma_push_contains(s: Seq<usize>, x: usize, y: usize)
    ensures
        s.push(x).contains(y) <==> (s.contains(y) || y == x),
{
    if s.contains(y) {
        let p = choose|p: int| 0 <= p < s.len() && s[p] == y;
        assert(s.push(x)[p] == y);
    }
    if y == x {
        assert(s.push(x)[s.len() as int] == y);
    }
    if s.push(x).contains(y) {
        let p = choose|p: int| 0 <= p < s.push(x).len() && s.push(x)[p] == y;
        if p < s.len() {
            assert(s[p] == y);
        }
    }
}

/// Whether position `i` comes before position `j` in the listing order.
pub fn before(keys: &Vec<Vec<char>>, ids: &Vec<Vec<char>>, i: usize, j: usize) -> (r: bool)
    requires
        i < keys@.len(),
        j < keys@.len(),
        keys@.len() == ids@.len(),
    ensures
        r == key_before(keys@, ids@, i as int, j as int),
{
    let c = compare_chars(&keys[i], &keys[j]);
    if c != 0 {
        return c < 0;
    }
    let d = compare_chars(&ids[i], &ids[j]);
    if d != 0 {
        return d < 0;
    }
    i < j
}

/// Sorts `cands[lo..hi]` into the listing order, stably.
pub fn sort_by_key(cands: &Vec<usize>, lo: usize, hi: usize, keys: &Vec<Vec<char>>, ids: &Vec<Vec<char>>) -> (r: Vec<usize>)
    requires
        lo <= hi <= cands@.len(),
        keys@.len() == ids@.len(),
        in_bounds(cands@, keys@.len() as int),
        forall|a: int, b: int| 0 <= a < b < cands@.len() ==> cands@[a] != cands@[b],
    ensures
        r@.len() == hi - lo,
        sorted_by_key(r@, keys@, ids@),
        in_bounds(r@, keys@.len() as int),
        forall|x: usize| r@.contains(x) <==> cands@.subrange(lo as int, hi as int).contains(x),
    decreases hi - lo,
{
    if hi - lo <= 1 {
        let mut r: Vec<usize> = Vec::new();
        if hi - lo == 1 {
            r.push(cands[lo]);
            assert(r@ =~= cands@.subrange(lo as int, hi as int));
        } else {
            assert(r@ =~= cands@.subrange(lo as int, hi as int));
        }
        return r;
    }
    let mid = lo + (hi - lo) / 2;
    let a = sort_by_key(cands, lo, mid, keys, ids);
    let b = sort_by_key(cands, mid, hi, keys, ids);
    proof {
        assert forall|x: usize| a@.contains(x) implies !b@.contains(x) by {
            assert(cands@.subrange(lo as int, mid as int).contains(x));
            let p = choose|p: int| 0 <= p < mid - lo && cands@.subrange(lo as int, mid as int)[p] == x;
            assert(cands@.subrange(mid as int, hi as int).contains(x) ==> {
                let q = choose|q: int| 0 <= q < hi - mid && cands@.subrange(mid as int, hi as int)[q] == x;
                cands@[lo + p] == cands@[mid + q]
            });
        }
    }
    let mut out: Vec<usize> = Vec::new();
    let mut i: usize = 0;
    let mut j: usize = 0;
    while i < a.len() || j < b.len()
        invariant
            i <= a@.len(),
            j <= b@.len(),
            out@.len() == i + j,
            keys@.len() == ids@.len(),
            sorted_by_key(a@, keys@, ids@),
            sorted_by_key(b@, keys@, ids@),
            in_bounds(a@, keys@.len() as int),
            in_bounds(b@, keys@.len() as int),
            forall|x: usize| a@.contains(x) ==> !b@.contains(x),
            sorted_by_key(out@, keys@, ids@),
            in_bounds(out@, keys@.len() as int),
            forall|x: usize| out@.contains(x) <==> (a@.take(i as int).contains(x) || b@.take(j as int).contains(x)),
            out@.len() > 0 ==> forall|k: int| i <= k < a@.len() ==> key_before(keys@, ids@, out@.last() as int, #[trigger] a@[k] as int),
            out@.len() > 0 ==> forall|k: int| j <= k < b@.len() ==> key_before(keys@, ids@, out@.last() as int, #[trigger] b@[k] as int),
        decreases a@.len() + b@.len() - i - j,
    {
        let take_a = if i == a.len() {
            false
        } else if j == b.len() {
            true
        } else {
            before(keys, ids, a[i], b[j])
        };
        let x = if take_a { a[i] } else { b[j] };
        proof {
            if take_a {
                if j < b@.len() {
                    assert(key_before(keys@, ids@, a@[i as int] as int, b@[j as int] as int));
                }
                assert forall|k: int| j <= k < b@.len() implies key_before(keys@, ids@, x as int, #[trigger] b@[k] as int) by {
                    if k > j {
                        lemma_key_before_transitive(keys@, ids@, x as int, b@[j as int] as int, b@[k] as int);
                    }
                }
                assert forall|k: int| i + 1 <= k < a@.len() implies key_before(keys@, ids@, x as int, #[trigger] a@[k] as int) by {}
            } else {
                if i < a@.len() {
                    assert(a@.contains(a@[i as int]));
                    assert(a@[i as int] != b@[j as int]);
                    lemma_key_before_strict(keys@, ids@, a@[i as int] as int, b@[j as int] as int);
                    assert(key_before(keys@, ids@, b@[j as int] as int, a@[i as int] as int));
                }
                assert forall|k: int| i <= k < a@.len() implies key_before(keys@, ids@, x as int, #[trigger] a@[k] as int) by {
                    if k > i {
                        lemma_key_before_transitive(keys@, ids@, x as int, a@[i as int] as int, a@[k] as int);
                    }
                }
                assert forall|k: int| j + 1 <= k < b@.len() implies key_before(keys@, ids@, x as int, #[trigger] b@[k] as int) by {}
            }
        }
        let ghost old_out = out@;
        out.push(x);
        proof {
            assert forall|p: int, q: int| 0 <= p < q < out@.len() implies key_before(keys@, ids@, #[trigger] out@[p] as int, #[trigger] out@[q] as int) by {
                if q == out@.len() - 1 && p < old_out.len() {
                    assert(old_out.contains(old_out[p]));
                    if old_out[p] != old_out.last() {
                        lemma_key_before_transitive(keys@, ids@, old_out[p] as int, old_out.last() as int, x as int);
                    }
                    if p < old_out.len() - 1 {
                        assert(key_before(keys@, ids@, old_out[p] as int, old_out.last() as int));
                        lemma_key_before_transitive(keys@, ids@, old_out[p] as int, old_out.last() as int, x as int);
                    }
                }
            }
        }
        let ghost ai = a@.take(i as int);
        let ghost bj = b@.take(j as int);
        if take_a {
            proof {
                assert(a@.take(i + 1) =~= ai.push(x));
            }
            i = i + 1;
        } else {
            proof {
                assert(b@.take(j + 1) =~= bj.push(x));
            }
            j = j + 1;
        }
        proof {
            assert forall|y: usize| #![trigger out@.contains(y)] out@.contains(y) <==> (a@.take(i as int).contains(y) || b@.take(j as int).contains(y)) by {
                lemma_push_contains(old_out, x, y);
                lemma_push_contains(ai, x, y);
                lemma_push_contains(bj, x, y);
                assert(old_out.contains(y) <==> (ai.contains(y) || bj.contains(y)));
            }
        }
    }
    proof {
        assert(a@.take(a@.len() as int) =~= a@);
        assert(b@.take(b@.len() as int) =~= b@);
        assert forall|x: usize| out@.contains(x) <==> cands@.subrange(lo as int, hi as int).contains(x) by {
            let whole = cands@.subrange(lo as int, hi as int);
            let left = cands@.subrange(lo as int, mid as int);
            let right = cands@.subrange(mid as int, hi as int);
            assert(whole =~= left + right);
            if left.contains(x) {
                let p = choose|p: int| 0 <= p < left.len() && left[p] == x;
                assert(whole[p] == x);
            }
            if right.contains(x) {
                let p = choose|p: int| 0 <= p < right.len() && right[p] == x;
                assert(whole[left.len() + p] == x);
            }
            if whole.contains(x) {
                let p = choose|p: int| 0 <= p < whole.len() && whole[p] == x;
                if p < left.len() {
                    assert(left[p] == x);
                } else {
                    assert(right[p - left.len()] == x);
                }
            }
        }
    }
    out
}

} // verus!

//! The first and the last element of a sequence that pass a test.

use vstd::prelude::*;

verus! {

/// Whether `i` is the position of the first element of `s` that passes
/// `pred`.
pub open spec fn first_at<A>(s: Seq<A>, pred: spec_fn(A) -> bool, i: int) -> bool {
    &&& 0 <= i < s.len()
    &&& pred(s[i])
    &&& forall|j: int| 0 <= j < i ==> !pred(#[trigger] s[j])
}

/// Whether `i` is the position of the last element of `s` that passes
/// `pred`.
pub open spec fn last_at<A>(s: Seq<A>, pred: spec_fn(A) -> bool, i: int) -> bool {
    &&& 0 <= i < s.len()
    &&& pred(s[i])
    &&& forall|j: int| i < j < s.len() ==> !pred(#[trigger] s[j])
}

/// Whether some element of `s` passes `pred`.
pub open spec fn any_where<A>(s: Seq<A>, pred: spec_fn(A) -> bool) -> bool {
    exists|i: int| 0 <= i < s.len() && pred(#[trigger] s[i])
}

/// The first element of `s` that passes `pred`, if there is one.
pub open spec fn first_where<A>(s: Seq<A>, pred: spec_fn(A) -> bool) -> Option<A> {
    if exists|i: int| first_at(s, pred, i) {
        Some(s[choose|i: int| first_at(s, pred, i)])
    } else {
        None
    }
}

/// The last element of `s` that passes `pred`, if there is one.
pub open spec fn last_where<A>(s: Seq<A>, pred: spec_fn(A) -> bool) -> Option<A> {
    if exists|i: int| last_at(s, pred, i) {
        Some(s[choose|i: int| last_at(s, pred, i)])
    } else {
        None
    }
}

/// The first passing element is the one at the first passing position.
pub proof fn lemma_first_where<A>(s: Seq<A>, pred: spec_fn(A) -> bool, i: int)
    requires
        first_at(s, pred, i),
    ensures
        first_where(s, pred) == Some(s[i]),
{
    let k = choose|k: int| first_at(s, pred, k);
    assert(first_at(s, pred, k));
    if k < i {
        assert(!pred(s[k]));
    }
    if i < k {
        assert(!pred(s[i]));
    }
}

/// The last passing element is the one at the last passing position.
pub proof fn lemma_last_where<A>(s: Seq<A>, pred: spec_fn(A) -> bool, i: int)
    requires
        last_at(s, pred, i),
    ensures
        last_where(s, pred) == Some(s[i]),
{
    let k = choose|k: int| last_at(s, pred, k);
    assert(last_at(s, pred, k));
    if k < i {
        assert(!pred(s[i]));
    }
    if i < k {
        assert(!pred(s[k]));
    }
}

/// There is a first passing element exactly if some element passes, and it
/// passes.
pub proof fn lemma_first_where_some<A>(s: Seq<A>, pred: spec_fn(A) -> bool)
    ensures
        first_where(s, pred) is Some <==> any_where(s, pred),
        first_where(s, pred) matches Some(found) ==> pred(found) && s.contains(found),
    decreases s.len(),
{
    if first_where(s, pred) is Some {
        let k = choose|k: int| first_at(s, pred, k);
        assert(pred(s[k]));
    }
    if any_where(s, pred) {
        let i = choose|i: int| 0 <= i < s.len() && pred(#[trigger] s[i]);
        let front = s.take(i);
        lemma_first_where_some(front, pred);
        if any_where(front, pred) {
            let k = choose|k: int| first_at(front, pred, k);
            assert(first_at(front, pred, k));
            assert forall|j: int| 0 <= j < k implies !pred(#[trigger] s[j]) by {
                assert(front[j] == s[j]);
            }
            assert(front[k] == s[k]);
            assert(first_at(s, pred, k));
        } else {
            assert forall|j: int| 0 <= j < i implies !pred(#[trigger] s[j]) by {
                assert(front[j] == s[j]);
            }
            assert(first_at(s, pred, i));
        }
    }
}

/// There is a last passing element exactly if some element passes, and it
/// passes.
pub proof fn lemma_last_where_some<A>(s: Seq<A>, pred: spec_fn(A) -> bool)
    ensures
        last_where(s, pred) is Some <==> any_where(s, pred),
        last_where(s, pred) matches Some(found) ==> pred(found) && s.contains(found),
    decreases s.len(),
{
    if last_where(s, pred) is Some {
        let k = choose|k: int| last_at(s, pred, k);
        assert(pred(s[k]));
    }
    if any_where(s, pred) {
        let i = choose|i: int| 0 <= i < s.len() && pred(#[trigger] s[i]);
        let back = s.skip(i + 1);
        lemma_last_where_some(back, pred);
        if any_where(back, pred) {
            let k = choose|k: int| last_at(back, pred, k);
            assert(last_at(back, pred, k));
            assert forall|j: int| i + 1 + k < j < s.len() implies !pred(#[trigger] s[j]) by {
                assert(back[j - i - 1] == s[j]);
            }
            assert(back[k] == s[i + 1 + k]);
            assert(last_at(s, pred, i + 1 + k));
        } else {
            assert forall|j: int| i < j < s.len() implies !pred(#[trigger] s[j]) by {
                assert(back[j - i - 1] == s[j]);
            }
            assert(last_at(s, pred, i));
        }
    }
}

/// Reading one more element: it is the last passing one if it passes, and
/// else the last passing one is what it was.
pub proof fn lemma_last_where_step<A>(s: Seq<A>, pred: spec_fn(A) -> bool, n: int)
    requires
        0 <= n < s.len(),
    ensures
        last_where(s.take(n + 1), pred) == if pred(s[n]) {
            Some(s[n])
        } else {
            last_where(s.take(n), pred)
        },
{
    let shorter = s.take(n);
    let longer = s.take(n + 1);
    assert(longer[n] == s[n]);
    if pred(s[n]) {
        assert(last_at(longer, pred, n));
        lemma_last_where(longer, pred, n);
    } else {
        if exists|i: int| last_at(shorter, pred, i) {
            let i = choose|i: int| last_at(shorter, pred, i);
            assert(shorter[i] == longer[i]);
            assert forall|j: int| i < j < longer.len() implies !pred(#[trigger] longer[j]) by {
                if j < n {
                    assert(shorter[j] == longer[j]);
                }
            }
            assert(last_at(longer, pred, i));
            lemma_last_where(longer, pred, i);
        } else {
            if exists|i: int| last_at(longer, pred, i) {
                let i = choose|i: int| last_at(longer, pred, i);
                assert(i < n);
                assert(shorter[i] == longer[i]);
                assert forall|j: int| i < j < shorter.len() implies !pred(
                    #[trigger] shorter[j],
                ) by {
                    assert(shorter[j] == longer[j]);
                }
                assert(last_at(shorter, pred, i));
            }
        }
    }
}

/// Putting in an element that does not pass leaves the last passing element
/// what it was.
pub proof fn lemma_last_where_insert<A>(s: Seq<A>, pred: spec_fn(A) -> bool, p: int, e: A)
    requires
        0 <= p <= s.len(),
        !pred(e),
    ensures
        last_where(s.insert(p, e), pred) == last_where(s, pred),
{
    let longer = s.insert(p, e);
    if exists|i: int| last_at(s, pred, i) {
        let i = choose|i: int| last_at(s, pred, i);
        let moved = if i < p {
            i
        } else {
            i + 1
        };
        assert(longer[moved] == s[i]);
        assert forall|j: int| moved < j < longer.len() implies !pred(#[trigger] longer[j]) by {
            if j < p {
                assert(longer[j] == s[j]);
            } else if j > p {
                assert(longer[j] == s[j - 1]);
            }
        }
        assert(last_at(longer, pred, moved));
        lemma_last_where(longer, pred, moved);
        lemma_last_where(s, pred, i);
    } else {
        if exists|k: int| last_at(longer, pred, k) {
            let k = choose|k: int| last_at(longer, pred, k);
            let back = if k < p {
                k
            } else {
                k - 1
            };
            assert(longer[k] == s[back]);
            assert forall|j: int| back < j < s.len() implies !pred(#[trigger] s[j]) by {
                if j < p {
                    assert(longer[j] == s[j]);
                } else {
                    assert(longer[j + 1] == s[j]);
                }
            }
            assert(last_at(s, pred, back));
        }
    }
}

} // verus!

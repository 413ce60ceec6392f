//! First-match search over a sequence, the way the managers look entries
//! up in catalog query results: the earliest element satisfying a
//! predicate decides, later ones are shadowed.

use vstd::prelude::*;

verus! {

/// The position of the first element satisfying `pred`, `-1` if none.
pub open spec fn first_where<T>(s: Seq<T>, pred: spec_fn(T) -> bool) -> int
    decreases s.len(),
{
    if s.len() == 0 {
        -1
    } else if pred(s[0]) {
        0
    } else {
        let r = first_where(s.drop_first(), pred);
        if r < 0 {
            -1
        } else {
            r + 1
        }
    }
}

pub proof fn lemma_first_where_at<T>(s: Seq<T>, pred: spec_fn(T) -> bool, i: int)
    requires
        0 <= i < s.len(),
        forall|k: int| 0 <= k < i ==> !#[trigger] pred(s[k]),
        pred(s[i]),
    ensures
        first_where(s, pred) == i,
    decreases i,
{
    if i > 0 {
        lemma_first_where_at(s.drop_first(), pred, i - 1);
    }
}

pub proof fn lemma_first_where_none<T>(s: Seq<T>, pred: spec_fn(T) -> bool)
    requires
        forall|k: int| 0 <= k < s.len() ==> !#[trigger] pred(s[k]),
    ensures
        first_where(s, pred) == -1,
    decreases s.len(),
{
    if s.len() > 0 {
        lemma_first_where_none(s.drop_first(), pred);
    }
}

/// A non-negative result points at an element satisfying the predicate.
pub proof fn lemma_first_where_props<T>(s: Seq<T>, pred: spec_fn(T) -> bool)
    ensures
        first_where(s, pred) >= 0 ==> 0 <= first_where(s, pred) < s.len() && pred(
            s[first_where(s, pred)],
        ),
    decreases s.len(),
{
    if s.len() > 0 && !pred(s[0]) {
        lemma_first_where_props(s.drop_first(), pred);
    }
}

/// Sequences whose elements match in lockstep share their first match.
pub proof fn lemma_first_where_pointwise<T, U>(
    s: Seq<T>,
    t: Seq<U>,
    p: spec_fn(T) -> bool,
    q: spec_fn(U) -> bool,
)
    requires
        s.len() == t.len(),
        forall|k: int| 0 <= k < s.len() ==> #[trigger] p(s[k]) == q(t[k]),
    ensures
        first_where(s, p) == first_where(t, q),
    decreases s.len(),
{
    if s.len() > 0 && !p(s[0]) {
        assert forall|k: int| 0 <= k < s.drop_first().len() implies #[trigger] p(
            s.drop_first()[k],
        ) == q(t.drop_first()[k]) by {
            assert(s.drop_first()[k] == s[k + 1]);
            assert(t.drop_first()[k] == t[k + 1]);
        }
        lemma_first_where_pointwise(s.drop_first(), t.drop_first(), p, q);
    }
}

/// No first match means no match anywhere.
pub proof fn lemma_first_where_all_not<T>(s: Seq<T>, pred: spec_fn(T) -> bool)
    requires
        first_where(s, pred) == -1,
    ensures
        forall|k: int| 0 <= k < s.len() ==> !#[trigger] pred(s[k]),
    decreases s.len(),
{
    if s.len() > 0 {
        lemma_first_where_all_not(s.drop_first(), pred);
        assert forall|k: int| 0 <= k < s.len() implies !pred(s[k]) by {
            if k > 0 {
                assert(s.drop_first()[k - 1] == s[k]);
            }
        }
    }
}

/// A match anywhere means the first match exists.
pub proof fn lemma_first_where_found<T>(s: Seq<T>, pred: spec_fn(T) -> bool, k: int)
    requires
        0 <= k < s.len(),
        pred(s[k]),
    ensures
        first_where(s, pred) >= 0,
    decreases k,
{
    if !pred(s[0]) {
        lemma_first_where_found(s.drop_first(), pred, k - 1);
    }
}

/// No element before the first match satisfies the predicate.
pub proof fn lemma_first_where_no_earlier<T>(s: Seq<T>, pred: spec_fn(T) -> bool)
    ensures
        forall|k: int| 0 <= k < first_where(s, pred) ==> !#[trigger] pred(s[k]),
    decreases s.len(),
{
    if s.len() > 0 && !pred(s[0]) {
        lemma_first_where_props(s, pred);
        lemma_first_where_no_earlier(s.drop_first(), pred);
        assert forall|k: int| 0 <= k < first_where(s, pred) implies !pred(s[k]) by {
            if k > 0 {
                assert(first_where(s, pred) >= 0);
                assert(first_where(s, pred) < s.len());
                assert(s.drop_first()[k - 1] == s[k]);
                assert(k - 1 < first_where(s.drop_first(), pred));
            }
        }
    }
}

/// Inserting a non-matching element moves the first match past the
/// insertion point by one and leaves earlier matches where they were.
pub proof fn lemma_first_where_insert_no_match<T>(s: Seq<T>, i: int, e: T, pred: spec_fn(T) -> bool)
    requires
        0 <= i <= s.len(),
        !pred(e),
    ensures
        first_where(s.insert(i, e), pred) == if first_where(s, pred) < i {
            first_where(s, pred)
        } else {
            first_where(s, pred) + 1
        },
    decreases s.len(),
{
    let t = s.insert(i, e);
    if i == 0 {
        assert(t.drop_first() =~= s);
    } else {
        assert(t[0] == s[0]);
        if pred(s[0]) {
        } else {
            assert(t.drop_first() =~= s.drop_first().insert(i - 1, e));
            lemma_first_where_insert_no_match(s.drop_first(), i - 1, e, pred);
        }
    }
}

/// Inserting the only matching element makes its position the first
/// match.
pub proof fn lemma_first_where_insert_only_match<T>(
    s: Seq<T>,
    i: int,
    e: T,
    pred: spec_fn(T) -> bool,
)
    requires
        0 <= i <= s.len(),
        pred(e),
        forall|k: int| 0 <= k < s.len() ==> !#[trigger] pred(s[k]),
    ensures
        first_where(s.insert(i, e), pred) == i,
    decreases s.len(),
{
    let t = s.insert(i, e);
    if i == 0 {
    } else {
        assert(t[0] == s[0]);
        assert(!pred(s[0]));
        assert(t.drop_first() =~= s.drop_first().insert(i - 1, e));
        assert(forall|k: int|
            0 <= k < s.drop_first().len() ==> !#[trigger] pred(s.drop_first()[k]));
        lemma_first_where_insert_only_match(s.drop_first(), i - 1, e, pred);
    }
}

/// Replacing an element without changing whether it matches keeps the
/// first match where it was.
pub proof fn lemma_first_where_update<T>(s: Seq<T>, i: int, e: T, pred: spec_fn(T) -> bool)
    requires
        0 <= i < s.len(),
        pred(e) == pred(s[i]),
    ensures
        first_where(s.update(i, e), pred) == first_where(s, pred),
    decreases s.len(),
{
    let t = s.update(i, e);
    if i == 0 {
        if !pred(s[0]) {
            assert(t.drop_first() =~= s.drop_first());
        }
    } else {
        assert(t[0] == s[0]);
        if !pred(s[0]) {
            assert(t.drop_first() =~= s.drop_first().update(i - 1, e));
            lemma_first_where_update(s.drop_first(), i - 1, e, pred);
        }
    }
}

/// Removing a non-matching element moves the first match before the
/// removal point not at all, one past it back by one.
pub proof fn lemma_first_where_remove<T>(s: Seq<T>, i: int, pred: spec_fn(T) -> bool)
    requires
        0 <= i < s.len(),
        !pred(s[i]),
    ensures
        first_where(s.remove(i), pred) == if first_where(s, pred) == -1 {
            -1
        } else if first_where(s, pred) < i {
            first_where(s, pred)
        } else {
            first_where(s, pred) - 1
        },
    decreases s.len(),
{
    let t = s.remove(i);
    lemma_first_where_props(s, pred);
    if i == 0 {
        assert(t =~= s.drop_first());
    } else {
        assert(t[0] == s[0]);
        if !pred(s[0]) {
            assert(t.drop_first() =~= s.drop_first().remove(i - 1));
            lemma_first_where_remove(s.drop_first(), i - 1, pred);
        }
    }
}

} // verus!

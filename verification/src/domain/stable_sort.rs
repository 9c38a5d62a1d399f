//! A stable insertion sort by an integer key, used to put item histories in
//! time order and board columns in their display order.
use vstd::prelude::*;

verus! {

/// A value that sorts by an integer key.
pub trait SortKey: Sized {
    /// The key that orders the value.
    spec fn sort_key(&self) -> int;

    /// The key, computed.
    fn key(&self) -> (k: i128)
        ensures
            k == self.sort_key(),
    ;
}

/// `x` put into `sorted` after every element whose key is not greater than
/// its own.
pub open spec fn insert_by_key<T: SortKey>(sorted: Seq<T>, x: T) -> Seq<T>
    decreases sorted.len(),
{
    if sorted.len() == 0 {
        seq![x]
    } else if sorted.last().sort_key() <= x.sort_key() {
        sorted.push(x)
    } else {
        insert_by_key(sorted.drop_last(), x).push(sorted.last())
    }
}

/// `s` sorted by key; elements with equal keys keep their order in `s` (a
/// stable sort).
pub open spec fn sorted_by_key<T: SortKey>(s: Seq<T>) -> Seq<T>
    decreases s.len(),
{
    if s.len() == 0 {
        s
    } else {
        insert_by_key(sorted_by_key(s.drop_last()), s.last())
    }
}

/// The keys of `s` never decrease.
pub open spec fn key_ordered<T: SortKey>(s: Seq<T>) -> bool {
    forall|i: int, j: int|
        0 <= i <= j < s.len() ==> #[trigger] s[i].sort_key() <= #[trigger] s[j].sort_key()
}

/// Inserting `x` at position `k`, past every element whose key is not
/// greater and before every greater one, is `insert_by_key`.
pub proof fn lemma_insert_by_key_at<T: SortKey>(s: Seq<T>, x: T, k: int)
    requires
        0 <= k <= s.len(),
        forall|t: int| k <= t < s.len() ==> #[trigger] s[t].sort_key() > x.sort_key(),
        k == 0 || s[k - 1].sort_key() <= x.sort_key(),
    ensures
        insert_by_key(s, x) == s.insert(k, x),
    decreases s.len(),
{
    if s.len() == 0 {
        assert(s.insert(k, x) =~= seq![x]);
    } else if s.last().sort_key() <= x.sort_key() {
        assert(k == s.len());
        assert(s.insert(k, x) =~= s.push(x));
    } else {
        assert(k < s.len());
        lemma_insert_by_key_at(s.drop_last(), x, k);
        assert(s.insert(k, x) =~= s.drop_last().insert(k, x).push(s.last()));
    }
}

/// `insert_by_key` keeps a key-ordered sequence key-ordered and adds exactly
/// `x`.
pub proof fn lemma_insert_by_key_ordered<T: SortKey>(s: Seq<T>, x: T)
    requires
        key_ordered(s),
    ensures
        key_ordered(insert_by_key(s, x)),
        insert_by_key(s, x).to_multiset() == s.to_multiset().insert(x),
        insert_by_key(s, x).len() == s.len() + 1,
    decreases s.len(),
{
    broadcast use vstd::seq_lib::group_to_multiset_ensures;

    if s.len() == 0 {
        assert(s.push(x) =~= seq![x]);
    } else if s.last().sort_key() <= x.sort_key() {
    } else {
        let d = s.drop_last();
        assert(key_ordered(d));
        lemma_insert_by_key_ordered(d, x);
        let t = insert_by_key(d, x);
        assert(s =~= d.push(s.last()));
        assert forall|i: int| 0 <= i < t.len() implies #[trigger] t[i].sort_key()
            <= s.last().sort_key() by {
            assert(t.to_multiset().count(t[i]) > 0);
            assert(d.to_multiset().insert(x).count(t[i]) > 0);
            if t[i] != x {
                assert(d.to_multiset().count(t[i]) > 0);
                assert(d.contains(t[i]));
                let j = choose|j: int| 0 <= j < d.len() && d[j] == t[i];
                assert(s[j] == d[j]);
            }
        }
        assert(d.push(s.last()).to_multiset() == d.to_multiset().insert(s.last()));
        assert(t.push(s.last()).to_multiset() == t.to_multiset().insert(s.last()));
        assert(d.to_multiset().insert(x).insert(s.last()) =~= d.to_multiset().insert(
            s.last(),
        ).insert(x));
    }
}

/// A stable sort: its result is ordered by key and holds exactly the
/// elements it was given.
pub proof fn law_sorted_by_key_orders_and_keeps<T: SortKey>(s: Seq<T>)
    ensures
        key_ordered(sorted_by_key(s)),
        sorted_by_key(s).to_multiset() == s.to_multiset(),
        sorted_by_key(s).len() == s.len(),
    decreases s.len(),
{
    broadcast use vstd::seq_lib::group_to_multiset_ensures;

    if s.len() == 0 {
    } else {
        law_sorted_by_key_orders_and_keeps(s.drop_last());
        lemma_insert_by_key_ordered(sorted_by_key(s.drop_last()), s.last());
        assert(s =~= s.drop_last().push(s.last()));
    }
}

/// A sequence already ordered by key is its own sort.
pub proof fn lemma_sorted_of_ordered<T: SortKey>(s: Seq<T>)
    requires
        key_ordered(s),
    ensures
        sorted_by_key(s) == s,
    decreases s.len(),
{
    if s.len() > 0 {
        let d = s.drop_last();
        assert(key_ordered(d));
        lemma_sorted_of_ordered(d);
        if d.len() == 0 {
            assert(s =~= seq![s.last()]);
        } else {
            assert(d.last() == s[s.len() - 2]);
            assert(d.last().sort_key() <= s.last().sort_key());
            assert(s =~= d.push(s.last()));
        }
    }
}

/// The elements of `s` whose key is `k`, in their order.
pub open spec fn with_key<T: SortKey>(s: Seq<T>, k: int) -> Seq<T> {
    s.filter(|x: T| x.sort_key() == k)
}

/// Inserting `x` by key keeps the elements of each key in their order and
/// puts `x` after those of its own key.
pub proof fn lemma_insert_by_key_with_key<T: SortKey>(t: Seq<T>, x: T, k: int)
    ensures
        with_key(insert_by_key(t, x), k) == if x.sort_key() == k {
            with_key(t, k).push(x)
        } else {
            with_key(t, k)
        },
    decreases t.len(),
{
    reveal(Seq::filter);
    let r = insert_by_key(t, x);
    if t.len() == 0 {
        assert(r =~= seq![x]);
        assert(r.drop_last() =~= Seq::<T>::empty());
        assert(with_key(r.drop_last(), k) =~= Seq::<T>::empty());
        assert(with_key(t, k) =~= Seq::<T>::empty());
        assert(with_key(r, k) == (if x.sort_key() == k { with_key(t, k).push(x) } else { with_key(t, k) }));
    } else if t.last().sort_key() <= x.sort_key() {
        assert(r == t.push(x));
        assert(r.drop_last() =~= t);
        assert(r.last() == x);
        assert(with_key(r, k) == (if x.sort_key() == k { with_key(t, k).push(x) } else { with_key(t, k) }));
    } else {
        let d = t.drop_last();
        lemma_insert_by_key_with_key(d, x, k);
        let rd = insert_by_key(d, x);
        assert(r == rd.push(t.last()));
        assert(r.drop_last() =~= rd);
        assert(r.last() == t.last());
        assert(with_key(r, k) == (if x.sort_key() == k { with_key(t, k).push(x) } else { with_key(t, k) }));
    }
}

/// The sort is stable: the elements of any one key come out in the order
/// they were given.
pub proof fn law_sorted_by_key_is_stable<T: SortKey>(s: Seq<T>, k: int)
    ensures
        with_key(sorted_by_key(s), k) == with_key(s, k),
    decreases s.len(),
{
    reveal(Seq::filter);
    if s.len() > 0 {
        law_sorted_by_key_is_stable(s.drop_last(), k);
        lemma_insert_by_key_with_key(sorted_by_key(s.drop_last()), s.last(), k);
    }
}

/// Sorts `v` by key, stably.
pub fn stable_sort_by_key<T: SortKey>(v: Vec<T>) -> (r: Vec<T>)
    ensures
        r@ == sorted_by_key(v@),
{
    let ghost orig = v@;
    let mut input = v;
    let mut sorted: Vec<T> = Vec::new();
    let n = input.len();
    let mut i: usize = 0;
    while i < n
        invariant
            0 <= i <= n,
            n == orig.len(),
            input@ == orig.skip(i as int),
            sorted@ == sorted_by_key(orig.take(i as int)),
            sorted@.len() == i,
        decreases n - i,
    {
        proof {
            law_sorted_by_key_orders_and_keeps(orig.take(i as int));
        }
        let x = input.remove(0);
        let x_key = x.key();
        let mut k = sorted.len();
        while k > 0 && sorted[k - 1].key() > x_key
            invariant
                0 <= k <= sorted@.len(),
                x_key == x.sort_key(),
                forall|t: int| k <= t < sorted@.len() ==> #[trigger] sorted@[t].sort_key() > x.sort_key(),
            decreases k,
        {
            k = k - 1;
        }
        proof {
            lemma_insert_by_key_at(sorted@, x, k as int);
            assert(orig.take(i + 1).drop_last() =~= orig.take(i as int));
            assert(orig.take(i + 1).last() == x);
            assert(orig.skip(i + 1) =~= orig.skip(i as int).drop_first());
        }
        sorted.insert(k, x);
        i = i + 1;
    }
    proof {
        assert(orig.take(n as int) =~= orig);
    }
    sorted
}

} // verus!

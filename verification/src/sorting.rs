//! The order of listing rows, and a stable sort by it.
//!
//! A row is ordered by a key of two parts: a rank, which groups the rows
//! (the parent marker, folders, files), and the case-folded name. Rows with
//! equal keys keep the order in which they were handed in.

use vstd::prelude::*;
use crate::text::{
    chars_before, chars_of, lemma_text_lt_irreflexive, lemma_text_lt_total,
    lemma_text_lt_transitive, text_before, text_lt,
};

verus! {

/// The mathematical key of a row.
pub struct RowKey {
    pub rank: nat,
    pub folded: Seq<char>,
}

/// The key of a row as the sort holds it.
pub struct SortKey {
    pub rank: u8,
    pub folded: String,
}

impl View for SortKey {
    type V = RowKey;

    open spec fn view(&self) -> RowKey {
        RowKey { rank: self.rank as nat, folded: self.folded@ }
    }
}

/// The views of a sequence of keys.
pub open spec fn key_views(keys: Seq<SortKey>) -> Seq<RowKey> {
    keys.map_values(|k: SortKey| k@)
}

/// Strict order of keys: by rank, then by folded name.
pub open spec fn key_lt(a: RowKey, b: RowKey) -> bool {
    a.rank < b.rank || (a.rank == b.rank && text_lt(a.folded, b.folded))
}

/// Whether the row at index `a` belongs before the row at index `b`: its key
/// is smaller, or the keys are equal and it was handed in earlier.
pub open spec fn comes_first(keys: Seq<RowKey>, a: int, b: int) -> bool {
    key_lt(keys[a], keys[b]) || (!key_lt(keys[b], keys[a]) && a < b)
}

/// `order` lists the indices of `keys` sorted by key, ties in index order.
pub open spec fn is_stable_order(keys: Seq<RowKey>, order: Seq<usize>) -> bool {
    &&& order.len() == keys.len()
    &&& forall|i: int| 0 <= i < order.len() ==> (#[trigger] order[i] as int) < keys.len()
    &&& forall|k: int| 0 <= k < keys.len() ==> #[trigger] places(order, k)
    &&& forall|i: int, j: int|
        0 <= i < j < order.len() ==> comes_first(keys, #[trigger] order[i] as int, #[trigger] order[j] as int)
}

/// Whether index `k` occurs in `order`.
pub open spec fn places(order: Seq<usize>, k: int) -> bool {
    exists|p: int| 0 <= p < order.len() && #[trigger] order[p] as int == k
}

/// No key comes before itself.
pub proof fn lemma_key_lt_irreflexive(a: RowKey)
    ensures
        !key_lt(a, a),
{
    lemma_text_lt_irreflexive(a.folded);
}

/// The order of keys is transitive.
pub proof fn lemma_key_lt_transitive(a: RowKey, b: RowKey, c: RowKey)
    requires
        key_lt(a, b),
        key_lt(b, c),
    ensures
        key_lt(a, c),
{
    if a.rank == b.rank && b.rank == c.rank {
        lemma_text_lt_transitive(a.folded, b.folded, c.folded);
    }
}

/// Two keys of which neither comes before the other are equal.
pub proof fn lemma_key_lt_total(a: RowKey, b: RowKey)
    requires
        !key_lt(a, b),
        !key_lt(b, a),
    ensures
        a == b,
{
    lemma_text_lt_total(a.folded, b.folded);
}

/// `comes_first` is a strict total order on the indices of `keys`: of two
/// different rows exactly one belongs before the other, and the relation is
/// transitive.
pub proof fn lemma_comes_first_order(keys: Seq<RowKey>, a: int, b: int, c: int)
    ensures
        !comes_first(keys, a, a),
        a != b ==> (comes_first(keys, a, b) <==> !comes_first(keys, b, a)),
        comes_first(keys, a, b) && comes_first(keys, b, c) ==> comes_first(keys, a, c),
{
    lemma_key_lt_irreflexive(keys[a]);
    if key_lt(keys[a], keys[b]) && key_lt(keys[b], keys[a]) {
        lemma_key_lt_transitive(keys[a], keys[b], keys[a]);
    }
    if comes_first(keys, a, b) && comes_first(keys, b, c) {
        if key_lt(keys[a], keys[b]) {
            if key_lt(keys[b], keys[c]) {
                lemma_key_lt_transitive(keys[a], keys[b], keys[c]);
            } else {
                lemma_key_lt_total(keys[b], keys[c]);
            }
        } else {
            lemma_key_lt_total(keys[a], keys[b]);
            if !key_lt(keys[b], keys[c]) {
                lemma_key_lt_total(keys[b], keys[c]);
            }
        }
    }
}

/// Compares two keys.
pub fn key_before(a: &SortKey, b: &SortKey) -> (r: bool)
    ensures
        r == key_lt(a@, b@),
{
    if a.rank != b.rank {
        a.rank < b.rank
    } else {
        text_before(a.folded.as_str(), b.folded.as_str())
    }
}

/// Compares two keys whose folded names are at hand as characters.
fn rank_and_name_before(
    rank_a: u8,
    name_a: &Vec<char>,
    rank_b: u8,
    name_b: &Vec<char>,
) -> (r: bool)
    ensures
        r == key_lt(
            RowKey { rank: rank_a as nat, folded: name_a@ },
            RowKey { rank: rank_b as nat, folded: name_b@ },
        ),
{
    if rank_a != rank_b {
        rank_a < rank_b
    } else {
        chars_before(name_a, name_b)
    }
}

/// The folded names of `keys` as characters, so that each name is walked
/// once however often it is compared.
fn folded_names(keys: &Vec<SortKey>) -> (names: Vec<Vec<char>>)
    ensures
        names.len() == keys.len(),
        forall|k: int| 0 <= k < keys.len() ==> (#[trigger] names[k])@ == keys[k].folded@,
{
    let mut names: Vec<Vec<char>> = Vec::new();
    let mut i: usize = 0;
    while i < keys.len()
        invariant
            i <= keys.len(),
            names.len() == i,
            forall|k: int| 0 <= k < i ==> (#[trigger] names[k])@ == keys[k].folded@,
        decreases keys.len() - i,
    {
        names.push(chars_of(keys[i].folded.as_str()));
        i = i + 1;
    }
    names
}

/// Sorts the indices of `keys` by key, keeping the order of equal keys.
pub fn stable_order(keys: &Vec<SortKey>) -> (order: Vec<usize>)
    ensures
        is_stable_order(key_views(keys@), order@),
{
    let ghost kv = key_views(keys@);
    let names = folded_names(keys);
    let mut order: Vec<usize> = Vec::new();
    let mut i: usize = 0;
    while i < keys.len()
        invariant
            i <= keys.len(),
            kv == key_views(keys@),
            names.len() == keys.len(),
            forall|k: int| 0 <= k < keys.len() ==> (#[trigger] names[k])@ == keys[k].folded@,
            order.len() == i,
            forall|p: int| 0 <= p < order.len() ==> (#[trigger] order[p] as int) < i,
            forall|k: int| 0 <= k < i ==> #[trigger] places(order@, k),
            forall|p: int, q: int|
                0 <= p < q < order.len() ==> comes_first(kv, #[trigger] order[p] as int, #[trigger] order[q] as int),
        decreases keys.len() - i,
    {
        let mut j: usize = order.len();
        while j > 0
            invariant
                j <= order.len(),
                order.len() == i,
                i < keys.len(),
                kv == key_views(keys@),
                names.len() == keys.len(),
                forall|k: int| 0 <= k < keys.len() ==> (#[trigger] names[k])@ == keys[k].folded@,
                forall|p: int| 0 <= p < order.len() ==> (#[trigger] order[p] as int) < i,
                forall|p: int| j <= p < order.len() ==> key_lt(kv[i as int], kv[#[trigger] order[p] as int]),
            ensures
                j <= order.len(),
                j > 0 ==> !key_lt(kv[i as int], kv[order[j - 1] as int]),
                forall|p: int| j <= p < order.len() ==> key_lt(kv[i as int], kv[#[trigger] order[p] as int]),
            decreases j,
        {
            let e = order[j - 1];
            assert(kv[i as int] == (RowKey { rank: keys[i as int].rank as nat, folded: names[i as int]@ }));
            assert(kv[e as int] == (RowKey { rank: keys[e as int].rank as nat, folded: names[e as int]@ }));
            if !rank_and_name_before(keys[i].rank, &names[i], keys[e].rank, &names[e]) {
                break;
            }
            j = j - 1;
        }
        let ghost before = order@;
        order.insert(j, i);
        proof {
            assert forall|k: int| 0 <= k < i + 1 implies #[trigger] places(order@, k) by {
                if k == i {
                    assert(order[j as int] as int == k);
                } else {
                    assert(places(before, k));
                    let p = choose|p: int| 0 <= p < before.len() && #[trigger] before[p] as int == k;
                    if p < j {
                        assert(order[p] as int == k);
                    } else {
                        assert(order[p + 1] as int == k);
                    }
                }
            }
            assert forall|p: int, q: int| 0 <= p < q < order.len() implies comes_first(
                kv,
                #[trigger] order[p] as int,
                #[trigger] order[q] as int,
            ) by {
                if q == j {
                    // the row before the gap, and all rows before that one
                    let e = before[j - 1] as int;
                    let x = before[p] as int;
                    if p < j - 1 {
                        assert(comes_first(kv, x, e));
                        if key_lt(kv[i as int], kv[x]) {
                            if key_lt(kv[x], kv[e]) {
                                lemma_key_lt_transitive(kv[i as int], kv[x], kv[e]);
                            } else {
                                lemma_key_lt_total(kv[x], kv[e]);
                            }
                        }
                    }
                } else if p == j {
                    assert(order[q] == before[q - 1]);
                } else {
                    let pp = if p < j { p } else { p - 1 };
                    let qq = if q < j { q } else { q - 1 };
                    assert(order[p] == before[pp]);
                    assert(order[q] == before[qq]);
                }
            }
        }
        i = i + 1;
    }
    order
}

/// The rows of `rows` in the order that `order` gives.
pub open spec fn arranged<T>(rows: Seq<T>, order: Seq<usize>) -> Seq<T> {
    Seq::new(order.len(), |i: int| rows[order[i] as int])
}

/// `out` holds the rows of `rows` sorted by `keys`, rows of equal keys in
/// the order in which `rows` has them.
pub open spec fn is_sorted_by<T>(rows: Seq<T>, keys: Seq<RowKey>, out: Seq<T>) -> bool {
    exists|order: Seq<usize>| is_stable_order(keys, order) && out == #[trigger] arranged(rows, order)
}

/// In a stable order no later row has a smaller key than an earlier one,
/// and rows of equal keys stand in the order of their indices.
pub proof fn lemma_stable_order_sorted(keys: Seq<RowKey>, order: Seq<usize>, i: int, j: int)
    requires
        is_stable_order(keys, order),
        0 <= i < j < order.len(),
    ensures
        !key_lt(keys[order[j] as int], keys[order[i] as int]),
        keys[order[i] as int].rank <= keys[order[j] as int].rank,
        keys[order[i] as int] == keys[order[j] as int] ==> order[i] < order[j],
        order[i] != order[j],
{
    let a = order[i] as int;
    let b = order[j] as int;
    assert(comes_first(keys, a, b));
    lemma_comes_first_order(keys, a, b, a);
    lemma_key_lt_irreflexive(keys[a]);
}

/// A row whose key is smaller than every other key stands first in a
/// stable order.
pub proof fn lemma_stable_order_least_first(keys: Seq<RowKey>, order: Seq<usize>, least: int)
    requires
        is_stable_order(keys, order),
        0 <= least < keys.len(),
        forall|k: int| 0 <= k < keys.len() && k != least ==> key_lt(keys[least], #[trigger] keys[k]),
    ensures
        order[0] as int == least,
{
    assert(places(order, least));
    let p = choose|p: int| 0 <= p < order.len() && #[trigger] order[p] as int == least;
    if p != 0 {
        let first = order[0] as int;
        assert(comes_first(keys, first, order[p] as int));
        lemma_comes_first_order(keys, first, least, first);
        assert(key_lt(keys[least], keys[first]));
    }
}

/// Two stable orders of the same keys agree up to and including position
/// `i`.
proof fn lemma_orders_agree(keys: Seq<RowKey>, a: Seq<usize>, b: Seq<usize>, i: int)
    requires
        is_stable_order(keys, a),
        is_stable_order(keys, b),
        0 <= i < keys.len(),
    ensures
        forall|p: int| 0 <= p <= i ==> a[p] == b[p],
    decreases i,
{
    if i > 0 {
        lemma_orders_agree(keys, a, b, i - 1);
    }
    let x = a[i] as int;
    let y = b[i] as int;
    if x != y {
        assert(places(b, x));
        let q = choose|q: int| 0 <= q < b.len() && #[trigger] b[q] as int == x;
        assert(places(a, y));
        let r = choose|r: int| 0 <= r < a.len() && #[trigger] a[r] as int == y;
        if q < i {
            assert(a[q] == b[q]);
            lemma_stable_order_sorted(keys, a, q, i);
        }
        if r < i {
            assert(a[r] == b[r]);
            lemma_stable_order_sorted(keys, b, r, i);
        }
        assert(comes_first(keys, b[i] as int, b[q] as int));
        assert(comes_first(keys, a[i] as int, a[r] as int));
        lemma_comes_first_order(keys, x, y, x);
    }
}

/// The stable order of a sequence of keys is unique: sorting pins down the
/// place of every row.
pub proof fn lemma_stable_order_unique(keys: Seq<RowKey>, a: Seq<usize>, b: Seq<usize>)
    requires
        is_stable_order(keys, a),
        is_stable_order(keys, b),
    ensures
        a == b,
{
    if keys.len() > 0 {
        lemma_orders_agree(keys, a, b, keys.len() - 1);
    }
    assert(a =~= b);
}

/// Sorting by key has one result.
pub proof fn lemma_sorted_by_unique<T>(rows: Seq<T>, keys: Seq<RowKey>, a: Seq<T>, b: Seq<T>)
    requires
        is_sorted_by(rows, keys, a),
        is_sorted_by(rows, keys, b),
    ensures
        a == b,
{
    let oa = choose|o: Seq<usize>| is_stable_order(keys, o) && a == #[trigger] arranged(rows, o);
    let ob = choose|o: Seq<usize>| is_stable_order(keys, o) && b == #[trigger] arranged(rows, o);
    lemma_stable_order_unique(keys, oa, ob);
}

} // verus!

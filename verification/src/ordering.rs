//! Stable ordering of listings: keys made of a rank and a text, the order they
//! induce, and a merge sort that returns the positions of the keys in that order.

use vstd::prelude::*;

verus! {

/// `a` comes no later than `b` in the lexicographic order of the characters'
/// code points; a proper prefix comes first.
pub open spec fn lex_le(a: Seq<char>, b: Seq<char>) -> bool
    decreases a.len(),
{
    if a.len() == 0 {
        true
    } else if b.len() == 0 {
        false
    } else if a[0] != b[0] {
        (a[0] as u32) < (b[0] as u32)
    } else {
        lex_le(a.drop_first(), b.drop_first())
    }
}

/// Any two texts are comparable.
pub proof fn lemma_lex_le_total(a: Seq<char>, b: Seq<char>)
    ensures
        lex_le(a, b) || lex_le(b, a),
    decreases a.len(),
{
    if a.len() != 0 && b.len() != 0 {
        if a[0] == b[0] {
            lemma_lex_le_total(a.drop_first(), b.drop_first());
        } else {
            vstd::utf8::char_u32_cast(a[0], a[0] as u32);
            vstd::utf8::char_u32_cast(b[0], b[0] as u32);
        }
    }
}

/// The lexicographic order is transitive.
pub proof fn lemma_lex_le_transitive(a: Seq<char>, b: Seq<char>, c: Seq<char>)
    requires
        lex_le(a, b),
        lex_le(b, c),
    ensures
        lex_le(a, c),
    decreases a.len(),
{
    if a.len() != 0 && b.len() != 0 && c.len() != 0 {
        if a[0] == b[0] && b[0] == c[0] {
            lemma_lex_le_transitive(a.drop_first(), b.drop_first(), c.drop_first());
        }
    }
}

/// Every text is comparable with itself.
pub proof fn lemma_lex_le_reflexive(a: Seq<char>)
    ensures
        lex_le(a, a),
    decreases a.len(),
{
    if a.len() != 0 {
        lemma_lex_le_reflexive(a.drop_first());
    }
}

proof fn lemma_lex_le_step(a: Seq<char>, b: Seq<char>, i: int)
    requires
        0 <= i < a.len(),
        i < b.len(),
        a[i] == b[i],
    ensures
        lex_le(a.skip(i), b.skip(i)) == lex_le(a.skip(i + 1), b.skip(i + 1)),
{
    assert(a.skip(i).drop_first() =~= a.skip(i + 1));
    assert(b.skip(i).drop_first() =~= b.skip(i + 1));
}

/// Decides the lexicographic order of two texts.
pub fn chars_le(a: &Vec<char>, b: &Vec<char>) -> (r: bool)
    ensures
        r == lex_le(a@, b@),
{
    let mut i: usize = 0;
    proof {
        assert(a@.skip(0) =~= a@);
        assert(b@.skip(0) =~= b@);
    }
    while i < a.len() && i < b.len()
        invariant
            i <= a.len(),
            i <= b.len(),
            lex_le(a@, b@) == lex_le(a@.skip(i as int), b@.skip(i as int)),
        decreases a.len() - i,
    {
        if a[i] != b[i] {
            return (a[i] as u32) < (b[i] as u32);
        }
        proof {
            lemma_lex_le_step(a@, b@, i as int);
        }
        i += 1;
    }
    i == a.len()
}

/// What an entry is ordered by: entries of a lower rank come first, entries of
/// one rank in the lexicographic order of their texts.
pub struct SortKey {
    pub rank: u8,
    pub text: Vec<char>,
}

/// What a `SortKey` holds.
pub struct KeyView {
    pub rank: u8,
    pub text: Seq<char>,
}

impl View for SortKey {
    type V = KeyView;

    open spec fn view(&self) -> KeyView {
        KeyView { rank: self.rank, text: self.text@ }
    }
}

/// The keys that a vector of keys holds, in order.
pub open spec fn key_views(v: Seq<SortKey>) -> Seq<KeyView> {
    v.map_values(|k: SortKey| k@)
}

/// The key `a` comes no later than the key `b`.
pub open spec fn key_le(a: KeyView, b: KeyView) -> bool {
    a.rank < b.rank || (a.rank == b.rank && lex_le(a.text, b.text))
}

/// Any two keys are comparable.
pub proof fn lemma_key_le_total(a: KeyView, b: KeyView)
    ensures
        key_le(a, b) || key_le(b, a),
{
    lemma_lex_le_total(a.text, b.text);
}

/// The order of the keys is transitive.
pub proof fn lemma_key_le_transitive(a: KeyView, b: KeyView, c: KeyView)
    requires
        key_le(a, b),
        key_le(b, c),
    ensures
        key_le(a, c),
{
    if a.rank == b.rank && b.rank == c.rank {
        lemma_lex_le_transitive(a.text, b.text, c.text);
    }
}

/// Decides the order of two keys.
pub fn key_no_later(a: &SortKey, b: &SortKey) -> (r: bool)
    ensures
        r == key_le(a@, b@),
{
    if a.rank != b.rank {
        a.rank < b.rank
    } else {
        chars_le(&a.text, &b.text)
    }
}

/// In a stable ordering of `keys`, the entry at position `x` goes before the
/// one at position `y`: an earlier entry unless its key is strictly greater, a
/// later one only if its key is strictly smaller.
pub open spec fn before(keys: Seq<KeyView>, x: int, y: int) -> bool {
    if x < y {
        key_le(keys[x], keys[y])
    } else {
        x != y && !key_le(keys[y], keys[x])
    }
}

/// `order` lists each position from `lo` up to `hi` once, every one before
/// those that follow it.
pub open spec fn orders_range(keys: Seq<KeyView>, order: Seq<usize>, lo: int, hi: int) -> bool {
    &&& order.len() == hi - lo
    &&& forall|i: int| 0 <= i < order.len() ==> lo <= #[trigger] order[i] < hi
    &&& forall|i: int, j: int|
        0 <= i < j < order.len() ==> before(keys, #[trigger] order[i] as int, #[trigger] order[j] as int)
}

/// `order` is the stable ordering of all of `keys`.
pub open spec fn is_stable_order(keys: Seq<KeyView>, order: Seq<usize>) -> bool {
    orders_range(keys, order, 0, keys.len() as int)
}

/// No position occurs twice in an ordering.
pub proof fn lemma_order_has_no_repeats(keys: Seq<KeyView>, order: Seq<usize>, i: int, j: int)
    requires
        is_stable_order(keys, order),
        0 <= i < j < order.len(),
    ensures
        order[i] != order[j],
{
    assert(before(keys, order[i] as int, order[j] as int));
}

/// The keys come out of an ordering in ascending order.
pub proof fn lemma_order_is_ascending(keys: Seq<KeyView>, order: Seq<usize>, i: int, j: int)
    requires
        is_stable_order(keys, order),
        0 <= i < j < order.len(),
    ensures
        key_le(keys[order[i] as int], keys[order[j] as int]),
{
    assert(before(keys, order[i] as int, order[j] as int));
    lemma_key_le_total(keys[order[i] as int], keys[order[j] as int]);
}

/// Entries with equal keys keep the order they came in.
pub proof fn lemma_order_is_stable(keys: Seq<KeyView>, order: Seq<usize>, i: int, j: int)
    requires
        is_stable_order(keys, order),
        0 <= i < j < order.len(),
        key_le(keys[order[j] as int], keys[order[i] as int]),
    ensures
        order[i] < order[j],
{
    assert(before(keys, order[i] as int, order[j] as int));
}

proof fn lemma_before_gives_le(keys: Seq<KeyView>, x: int, y: int)
    requires
        before(keys, x, y),
    ensures
        key_le(keys[x], keys[y]),
{
    lemma_key_le_total(keys[x], keys[y]);
}

fn merge_orders(
    keys: &Vec<SortKey>,
    a: &Vec<usize>,
    b: &Vec<usize>,
    Ghost(lo): Ghost<int>,
    Ghost(mid): Ghost<int>,
    Ghost(hi): Ghost<int>,
) -> (out: Vec<usize>)
    requires
        0 <= lo <= mid <= hi <= keys.len(),
        orders_range(key_views(keys@), a@, lo, mid),
        orders_range(key_views(keys@), b@, mid, hi),
    ensures
        orders_range(key_views(keys@), out@, lo, hi),
{
    let mut out: Vec<usize> = Vec::new();
    let mut i: usize = 0;
    let mut j: usize = 0;
    while i < a.len() || j < b.len()
        invariant
            0 <= lo <= mid <= hi <= keys.len(),
            orders_range(key_views(keys@), a@, lo, mid),
            orders_range(key_views(keys@), b@, mid, hi),
            i <= a.len(),
            j <= b.len(),
            out.len() == i + j,
            forall|k: int| 0 <= k < out.len() ==> lo <= #[trigger] out@[k] < hi,
            forall|k: int, l: int|
                0 <= k < l < out.len() ==> before(key_views(keys@), #[trigger] out@[k] as int, #[trigger] out@[l] as int),
            forall|k: int, m: int|
                0 <= k < out.len() && i <= m < a.len() ==> before(
                    key_views(keys@),
                    #[trigger] out@[k] as int,
                    #[trigger] a@[m] as int,
                ),
            forall|k: int, m: int|
                0 <= k < out.len() && j <= m < b.len() ==> before(
                    key_views(keys@),
                    #[trigger] out@[k] as int,
                    #[trigger] b@[m] as int,
                ),
        decreases a.len() - i + b.len() - j,
    {
        let take_left = if i >= a.len() {
            false
        } else if j >= b.len() {
            true
        } else {
            assert(lo <= a@[i as int] < mid);
            assert(mid <= b@[j as int] < hi);
            key_no_later(&keys[a[i]], &keys[b[j]])
        };
        if take_left {
            let x = a[i];
            assert(lo <= a@[i as int] < mid);
            proof {
                assert forall|m: int| i < m < a.len() implies before(
                    key_views(keys@),
                    x as int,
                    #[trigger] a@[m] as int,
                ) by {
                    assert(before(key_views(keys@), a@[i as int] as int, a@[m] as int));
                }
                assert forall|m: int| j <= m < b.len() implies before(
                    key_views(keys@),
                    x as int,
                    #[trigger] b@[m] as int,
                ) by {
                    assert(mid <= b@[m] < hi);
                    assert(mid <= b@[j as int] < hi);
                    if m > j {
                        assert(before(key_views(keys@), b@[j as int] as int, b@[m] as int));
                        lemma_before_gives_le(key_views(keys@), b@[j as int] as int, b@[m] as int);
                        lemma_key_le_transitive(
                            key_views(keys@)[x as int],
                            key_views(keys@)[b@[j as int] as int],
                            key_views(keys@)[b@[m] as int],
                        );
                    }
                }
            }
            out.push(x);
            i += 1;
        } else {
            let y = b[j];
            assert(mid <= b@[j as int] < hi);
            proof {
                assert forall|m: int| j < m < b.len() implies before(
                    key_views(keys@),
                    y as int,
                    #[trigger] b@[m] as int,
                ) by {
                    assert(before(key_views(keys@), b@[j as int] as int, b@[m] as int));
                }
                assert forall|m: int| i <= m < a.len() implies before(
                    key_views(keys@),
                    y as int,
                    #[trigger] a@[m] as int,
                ) by {
                    assert(lo <= a@[m] < mid);
                    assert(lo <= a@[i as int] < mid);
                    if m > i {
                        assert(before(key_views(keys@), a@[i as int] as int, a@[m] as int));
                        lemma_before_gives_le(key_views(keys@), a@[i as int] as int, a@[m] as int);
                        if key_le(key_views(keys@)[a@[m] as int], key_views(keys@)[y as int]) {
                            lemma_key_le_transitive(
                                key_views(keys@)[a@[i as int] as int],
                                key_views(keys@)[a@[m] as int],
                                key_views(keys@)[y as int],
                            );
                        }
                    }
                }
            }
            out.push(y);
            j += 1;
        }
    }
    out
}

fn order_range(keys: &Vec<SortKey>, lo: usize, hi: usize) -> (out: Vec<usize>)
    requires
        lo <= hi <= keys.len(),
    ensures
        orders_range(key_views(keys@), out@, lo as int, hi as int),
    decreases hi - lo,
{
    let mut out: Vec<usize> = Vec::new();
    if hi - lo == 0 {
        return out;
    }
    if hi - lo == 1 {
        out.push(lo);
        return out;
    }
    let mid: usize = lo + (hi - lo) / 2;
    let left = order_range(keys, lo, mid);
    let right = order_range(keys, mid, hi);
    merge_orders(keys, &left, &right, Ghost(lo as int), Ghost(mid as int), Ghost(hi as int))
}

/// The positions of `keys` in their stable ordering: ascending by key, and
/// entries with equal keys in the order they came in.
pub fn stable_order(keys: &Vec<SortKey>) -> (order: Vec<usize>)
    ensures
        is_stable_order(key_views(keys@), order@),
{
    order_range(keys, 0, keys.len())
}

} // verus!

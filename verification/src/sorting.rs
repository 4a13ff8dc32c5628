//! A stable sort of positions by key, with the lemmas that make its result
//! the only one possible.

use vstd::prelude::*;

verus! {

/// What a listing is sorted by: a group, lower groups first, and within a
/// group a text, in the order of its characters' code points.
pub struct SortKey {
    pub group: u32,
    pub text: Vec<char>,
}

/// A sort key as the contracts speak of it.
pub ghost struct KeyView {
    pub group: int,
    pub text: Seq<char>,
}

impl View for SortKey {
    type V = KeyView;

    open spec fn view(&self) -> KeyView {
        KeyView { group: self.group as int, text: self.text@ }
    }
}

/// The views of a sequence of keys.
pub open spec fn key_views(keys: Seq<SortKey>) -> Seq<KeyView> {
    Seq::new(keys.len(), |i: int| keys[i]@)
}

/// `a` stands before `b` when read from position `i` on, both being equal up
/// to there: at the first position where they differ `a` has the lower code
/// point, or `a` ends there and `b` goes on.
pub open spec fn text_before_from(a: Seq<char>, b: Seq<char>, i: int) -> bool
    decreases b.len() - i,
{
    if i < 0 || i >= b.len() {
        false
    } else if i >= a.len() {
        true
    } else if a[i] != b[i] {
        (a[i] as int) < (b[i] as int)
    } else {
        text_before_from(a, b, i + 1)
    }
}

/// Lexicographic order of texts by code point, strict.
pub open spec fn text_before(a: Seq<char>, b: Seq<char>) -> bool {
    text_before_from(a, b, 0)
}

/// Strict order of sort keys: by group, then by text.
pub open spec fn key_before(a: KeyView, b: KeyView) -> bool {
    a.group < b.group || (a.group == b.group && text_before(a.text, b.text))
}

/// Position `i` comes before position `j` in the sorted listing: its key is
/// lower, or the keys are equal and `i` was listed first.
pub open spec fn position_before(keys: Seq<KeyView>, i: int, j: int) -> bool {
    key_before(keys[i], keys[j]) || (!key_before(keys[j], keys[i]) && i < j)
}

/// `order` lists the positions below `n`, each once, sorted by key; positions
/// with equal keys keep their order.
pub open spec fn is_sorted_order(keys: Seq<KeyView>, n: int, order: Seq<usize>) -> bool {
    &&& order.len() == n
    &&& forall|k: int| 0 <= k < order.len() ==> (#[trigger] order[k]) < n
    &&& forall|i: int| 0 <= i < n ==> order.contains(#[trigger] (i as usize))
    &&& sorted_by_key(keys, order)
}

/// No text stands before itself, and of two texts at most one stands before
/// the other.
pub proof fn lemma_text_before_asymmetric(a: Seq<char>, b: Seq<char>, i: int)
    requires
        0 <= i,
    ensures
        !(text_before_from(a, b, i) && text_before_from(b, a, i)),
    decreases b.len() - i,
{
    if i < b.len() && i < a.len() && a[i] == b[i] {
        lemma_text_before_asymmetric(a, b, i + 1);
    }
}

/// If `c` stands before `a`, then any `b` has `c` before it or stands before
/// `a` itself.
pub proof fn lemma_text_before_splits(a: Seq<char>, b: Seq<char>, c: Seq<char>, i: int)
    requires
        0 <= i,
        text_before_from(c, a, i),
    ensures
        text_before_from(c, b, i) || text_before_from(b, a, i),
    decreases a.len() - i,
{
    if i < b.len() && i < c.len() && i < a.len() && c[i] == a[i] && b[i] == a[i] {
        lemma_text_before_splits(a, b, c, i + 1);
    }
}

/// The order of keys is asymmetric, and a key below another is below any
/// third key or has the third below the other.
proof fn lemma_key_order(a: KeyView, b: KeyView, c: KeyView)
    ensures
        !(key_before(a, b) && key_before(b, a)),
        key_before(c, a) ==> key_before(c, b) || key_before(b, a),
{
    lemma_text_before_asymmetric(a.text, b.text, 0);
    if text_before(c.text, a.text) {
        lemma_text_before_splits(a.text, b.text, c.text, 0);
    }
}

/// Each position of `r` comes before all that follow it.
pub open spec fn in_order(before: spec_fn(int, int) -> bool, r: Seq<usize>) -> bool {
    forall|k: int, l: int|
        0 <= k < l < r.len() ==> before(#[trigger] r[k] as int, #[trigger] r[l] as int)
}

/// Of two positions at most one comes before the other, and none before
/// itself.
pub open spec fn is_asymmetric(before: spec_fn(int, int) -> bool) -> bool {
    forall|i: int, j: int| !(#[trigger] before(i, j) && before(j, i))
}

/// Two sequences that hold the same positions, each in order, are equal: an
/// order of positions leaves no choice.
pub proof fn lemma_order_unique(before: spec_fn(int, int) -> bool, a: Seq<usize>, b: Seq<usize>)
    requires
        is_asymmetric(before),
        in_order(before, a),
        in_order(before, b),
        forall|x: usize| a.contains(x) <==> b.contains(x),
    ensures
        a == b,
    decreases a.len(),
{
    if a.len() == 0 {
        if b.len() > 0 {
            assert(b.contains(b[0]));
        }
        assert(a =~= b);
    } else if b.len() == 0 {
        assert(a.contains(a[0]));
    } else {
        assert(a.contains(a[0]));
        assert(b.contains(b[0]));
        let j = choose|j: int| 0 <= j < b.len() && b[j] == a[0];
        let i = choose|i: int| 0 <= i < a.len() && a[i] == b[0];
        if a[0] != b[0] {
            assert(before(a[0] as int, a[i] as int));
            assert(before(b[0] as int, b[j] as int));
        }
        let a_rest = a.drop_first();
        let b_rest = b.drop_first();
        assert forall|x: usize| a_rest.contains(x) <==> b_rest.contains(x) by {
            if a_rest.contains(x) {
                let k = choose|k: int| 0 <= k < a_rest.len() && a_rest[k] == x;
                assert(a[k + 1] == x);
                assert(before(a[0] as int, a[k + 1] as int));
                assert(a.contains(x));
                let m = choose|m: int| 0 <= m < b.len() && b[m] == x;
                assert(m > 0);
                assert(b_rest[m - 1] == x);
            }
            if b_rest.contains(x) {
                let k = choose|k: int| 0 <= k < b_rest.len() && b_rest[k] == x;
                assert(b[k + 1] == x);
                assert(before(b[0] as int, b[k + 1] as int));
                assert(b.contains(x));
                let m = choose|m: int| 0 <= m < a.len() && a[m] == x;
                assert(m > 0);
                assert(a_rest[m - 1] == x);
            }
        }
        assert forall|k: int, l: int| 0 <= k < l < a_rest.len() implies before(
            #[trigger] a_rest[k] as int,
            #[trigger] a_rest[l] as int,
        ) by {
            assert(before(a[k + 1] as int, a[l + 1] as int));
        }
        assert forall|k: int, l: int| 0 <= k < l < b_rest.len() implies before(
            #[trigger] b_rest[k] as int,
            #[trigger] b_rest[l] as int,
        ) by {
            assert(before(b[k + 1] as int, b[l + 1] as int));
        }
        lemma_order_unique(before, a_rest, b_rest);
        assert(a =~= seq![a[0]] + a_rest);
        assert(b =~= seq![b[0]] + b_rest);
    }
}

/// A listing has one sorted order.
pub proof fn lemma_sorted_order_unique(keys: Seq<KeyView>, n: int, a: Seq<usize>, b: Seq<usize>)
    requires
        is_sorted_order(keys, n, a),
        is_sorted_order(keys, n, b),
    ensures
        a == b,
{
    let before = |i: int, j: int| position_before(keys, i, j);
    assert forall|i: int, j: int| !(#[trigger] before(i, j) && before(j, i)) by {
        lemma_key_order(keys[i], keys[j], keys[i]);
    }
    assert forall|x: usize| a.contains(x) <==> b.contains(x) by {
        if a.contains(x) {
            let k = choose|k: int| 0 <= k < a.len() && a[k] == x;
            assert(a[k] < n);
            assert(b.contains(x as int as usize));
        }
        if b.contains(x) {
            let k = choose|k: int| 0 <= k < b.len() && b[k] == x;
            assert(b[k] < n);
            assert(a.contains(x as int as usize));
        }
    }
    assert forall|k: int, l: int| 0 <= k < l < a.len() implies before(
        #[trigger] a[k] as int,
        #[trigger] a[l] as int,
    ) by {
        assert(position_before(keys, a[k] as int, a[l] as int));
    }
    assert forall|k: int, l: int| 0 <= k < l < b.len() implies before(
        #[trigger] b[k] as int,
        #[trigger] b[l] as int,
    ) by {
        assert(position_before(keys, b[k] as int, b[l] as int));
    }
    lemma_order_unique(before, a, b);
}

/// Whether text `a` stands before text `b`.
pub fn text_less(a: &Vec<char>, b: &Vec<char>) -> (r: bool)
    ensures
        r == text_before(a@, b@),
{
    let mut i: usize = 0;
    while i < a.len() && i < b.len()
        invariant
            i <= a.len(),
            i <= b.len(),
            text_before(a@, b@) == text_before_from(a@, b@, i as int),
        decreases a.len() - i,
    {
        let x: char = a[i];
        let y: char = b[i];
        if x != y {
            return x < y;
        }
        i += 1;
    }
    i < b.len()
}

/// Whether key `a` stands before key `b`.
pub fn key_less(a: &SortKey, b: &SortKey) -> (r: bool)
    ensures
        r == key_before(a@, b@),
{
    if a.group < b.group {
        true
    } else if a.group == b.group {
        text_less(&a.text, &b.text)
    } else {
        false
    }
}

/// The positions of `s` are sorted by key, equal keys by position.
pub open spec fn sorted_by_key(keys: Seq<KeyView>, s: Seq<usize>) -> bool {
    forall|k: int, l: int|
        0 <= k < l < s.len() ==> position_before(keys, #[trigger] s[k] as int, #[trigger] s[l] as int)
}

/// Every position of `a` occurs in `b`.
pub open spec fn all_among(a: Seq<usize>, b: Seq<usize>) -> bool {
    forall|k: int| 0 <= k < a.len() ==> b.contains(#[trigger] a[k])
}

/// The positions of `s` lie below `n` and none occurs twice.
pub open spec fn distinct_below(s: Seq<usize>, n: int) -> bool {
    &&& forall|k: int| 0 <= k < s.len() ==> (#[trigger] s[k]) < n
    &&& forall|k: int, l: int| 0 <= k < l < s.len() ==> (#[trigger] s[k]) != (#[trigger] s[l])
}

/// No position occurs in both sequences.
pub open spec fn apart(a: Seq<usize>, b: Seq<usize>) -> bool {
    forall|k: int, l: int|
        0 <= k < a.len() && 0 <= l < b.len() ==> (#[trigger] a[k]) != (#[trigger] b[l])
}

/// The order of positions is a strict total order: of two different
/// positions exactly one comes before the other, and what comes before a
/// position comes before all that follow it.
proof fn lemma_position_order(keys: Seq<KeyView>, i: int, j: int, k: int)
    ensures
        !(position_before(keys, i, j) && position_before(keys, j, i)),
        i != j ==> position_before(keys, i, j) || position_before(keys, j, i),
        position_before(keys, i, j) && position_before(keys, j, k) ==> position_before(keys, i, k),
{
    lemma_key_order(keys[i], keys[j], keys[k]);
    lemma_key_order(keys[j], keys[i], keys[k]);
    lemma_key_order(keys[k], keys[j], keys[i]);
    lemma_key_order(keys[j], keys[k], keys[i]);
    lemma_key_order(keys[i], keys[k], keys[j]);
    lemma_key_order(keys[k], keys[i], keys[j]);
}

/// A position that follows the last of a sorted sequence may be added at
/// its end.
proof fn lemma_push_keeps_sorted(keys: Seq<KeyView>, s: Seq<usize>, x: usize)
    requires
        sorted_by_key(keys, s),
        s.len() > 0 ==> position_before(keys, s.last() as int, x as int),
    ensures
        sorted_by_key(keys, s.push(x)),
{
    let t = s.push(x);
    assert forall|k: int, l: int| 0 <= k < l < t.len() implies position_before(
        keys,
        #[trigger] t[k] as int,
        #[trigger] t[l] as int,
    ) by {
        if l < s.len() {
            assert(t[k] == s[k] && t[l] == s[l]);
        } else {
            assert(t[k] == s[k]);
            if k < s.len() - 1 {
                assert(position_before(keys, s[k] as int, s[s.len() - 1] as int));
                lemma_position_order(keys, s[k] as int, s.last() as int, x as int);
            }
        }
    }
}

/// Adding a position at the end loses none that was there.
proof fn lemma_push_keeps_members(a: Seq<usize>, n: int, s: Seq<usize>, x: usize)
    requires
        0 <= n <= a.len(),
        forall|k: int| 0 <= k < n ==> s.contains(#[trigger] a[k]),
    ensures
        forall|k: int| 0 <= k < n ==> s.push(x).contains(#[trigger] a[k]),
        s.push(x).contains(x),
{
    let t = s.push(x);
    assert(t[s.len() as int] == x);
    assert forall|k: int| 0 <= k < n implies t.contains(#[trigger] a[k]) by {
        let at = choose|at: int| 0 <= at < s.len() && s[at] == a[k];
        assert(t[at] == a[k]);
    }
}

/// Whether position `i` comes before position `j`.
fn position_less(keys: &Vec<SortKey>, i: usize, j: usize) -> (r: bool)
    requires
        i < keys.len(),
        j < keys.len(),
    ensures
        r == position_before(key_views(keys@), i as int, j as int),
{
    if key_less(&keys[i], &keys[j]) {
        true
    } else if key_less(&keys[j], &keys[i]) {
        false
    } else {
        i < j
    }
}

/// Merges two sorted sequences of positions that share no position.
fn merge(keys: &Vec<SortKey>, a: &Vec<usize>, b: &Vec<usize>) -> (out: Vec<usize>)
    requires
        distinct_below(a@, keys@.len() as int),
        distinct_below(b@, keys@.len() as int),
        sorted_by_key(key_views(keys@), a@),
        sorted_by_key(key_views(keys@), b@),
        apart(a@, b@),
        a@.len() + b@.len() <= usize::MAX,
    ensures
        out@.len() == a@.len() + b@.len(),
        sorted_by_key(key_views(keys@), out@),
        forall|k: int| 0 <= k < out@.len() ==> a@.contains(#[trigger] out@[k]) || b@.contains(out@[k]),
        all_among(a@, out@),
        all_among(b@, out@),
{
    let ghost views = key_views(keys@);
    let mut out: Vec<usize> = Vec::new();
    let mut i: usize = 0;
    let mut j: usize = 0;
    while i < a.len() || j < b.len()
        invariant
            i <= a.len(),
            j <= b.len(),
            out@.len() == i + j,
            a@.len() + b@.len() <= usize::MAX,
            views == key_views(keys@),
            distinct_below(a@, keys@.len() as int),
            distinct_below(b@, keys@.len() as int),
            sorted_by_key(views, a@),
            sorted_by_key(views, b@),
            apart(a@, b@),
            sorted_by_key(views, out@),
            forall|k: int|
                0 <= k < out@.len() ==> a@.contains(#[trigger] out@[k]) || b@.contains(out@[k]),
            forall|k: int| 0 <= k < i ==> out@.contains(#[trigger] a@[k]),
            forall|k: int| 0 <= k < j ==> out@.contains(#[trigger] b@[k]),
            out@.len() > 0 && i < a.len() ==> position_before(
                views,
                out@.last() as int,
                a@[i as int] as int,
            ),
            out@.len() > 0 && j < b.len() ==> position_before(
                views,
                out@.last() as int,
                b@[j as int] as int,
            ),
        decreases a.len() - i + (b.len() - j),
    {
        let from_a = if i == a.len() {
            false
        } else if j == b.len() {
            true
        } else {
            !position_less(keys, b[j], a[i])
        };
        let ghost before = out@;
        if from_a {
            let x = a[i];
            proof {
                lemma_push_keeps_sorted(views, before, x);
                lemma_push_keeps_members(a@, i as int, before, x);
                lemma_push_keeps_members(b@, j as int, before, x);
                if j < b.len() {
                    lemma_position_order(views, x as int, b@[j as int] as int, x as int);
                }
                if i + 1 < a.len() {
                    assert(position_before(views, a@[i as int] as int, a@[i + 1] as int));
                }
            }
            out.push(x);
            assert(a@.contains(a@[i as int]));
            i += 1;
        } else {
            let y = b[j];
            proof {
                lemma_push_keeps_sorted(views, before, y);
                lemma_push_keeps_members(a@, i as int, before, y);
                lemma_push_keeps_members(b@, j as int, before, y);
                if j + 1 < b.len() {
                    assert(position_before(views, b@[j as int] as int, b@[j + 1] as int));
                }
            }
            out.push(y);
            assert(b@.contains(b@[j as int]));
            j += 1;
        }
    }
    out
}

/// Sorts positions by key, equal keys by position.
fn merge_sort(keys: &Vec<SortKey>, positions: Vec<usize>) -> (out: Vec<usize>)
    requires
        distinct_below(positions@, keys@.len() as int),
    ensures
        out@.len() == positions@.len(),
        sorted_by_key(key_views(keys@), out@),
        all_among(out@, positions@),
        all_among(positions@, out@),
        distinct_below(out@, keys@.len() as int),
    decreases positions@.len(),
{
    let ghost views = key_views(keys@);
    if positions.len() <= 1 {
        assert forall|k: int| 0 <= k < positions@.len() implies positions@.contains(
            #[trigger] positions@[k],
        ) by {}
        return positions;
    }
    let ghost all = positions@;
    let mut left = positions;
    let mid = left.len() / 2;
    let right = left.split_off(mid);
    assert forall|k: int| 0 <= k < left@.len() implies (#[trigger] left@[k]) == all[k] by {}
    assert forall|k: int| 0 <= k < right@.len() implies (#[trigger] right@[k]) == all[mid + k] by {}
    let ghost left_part = left@;
    let ghost right_part = right@;
    let a = merge_sort(keys, left);
    let b = merge_sort(keys, right);
    proof {
        assert forall|k: int, l: int| 0 <= k < a@.len() && 0 <= l < b@.len() implies (
        #[trigger] a@[k]) != (#[trigger] b@[l]) by {
            assert(left_part.contains(a@[k]));
            assert(right_part.contains(b@[l]));
            let p = choose|p: int| 0 <= p < left_part.len() && left_part[p] == a@[k];
            let q = choose|q: int| 0 <= q < right_part.len() && right_part[q] == b@[l];
            assert(all[p] == a@[k] && all[mid + q] == b@[l]);
        }
    }
    let out = merge(keys, &a, &b);
    proof {
        assert forall|k: int| 0 <= k < out@.len() implies all.contains(#[trigger] out@[k]) by {
            if a@.contains(out@[k]) {
                let p = choose|p: int| 0 <= p < a@.len() && a@[p] == out@[k];
                assert(left_part.contains(a@[p]));
                let q = choose|q: int| 0 <= q < left_part.len() && left_part[q] == a@[p];
                assert(all[q] == out@[k]);
            } else {
                let p = choose|p: int| 0 <= p < b@.len() && b@[p] == out@[k];
                assert(right_part.contains(b@[p]));
                let q = choose|q: int| 0 <= q < right_part.len() && right_part[q] == b@[p];
                assert(all[mid + q] == out@[k]);
            }
        }
        assert forall|k: int| 0 <= k < all.len() implies out@.contains(#[trigger] all[k]) by {
            if k < mid {
                assert(left_part[k] == all[k]);
                assert(a@.contains(left_part[k]));
                let p = choose|p: int| 0 <= p < a@.len() && a@[p] == all[k];
                assert(out@.contains(a@[p]));
            } else {
                assert(right_part[k - mid] == all[k]);
                assert(b@.contains(right_part[k - mid]));
                let p = choose|p: int| 0 <= p < b@.len() && b@[p] == all[k];
                assert(out@.contains(b@[p]));
            }
        }
        assert forall|k: int| 0 <= k < out@.len() implies (#[trigger] out@[k]) < keys@.len() by {
            assert(all.contains(out@[k]));
            let p = choose|p: int| 0 <= p < all.len() && all[p] == out@[k];
        }
        assert forall|k: int, l: int| 0 <= k < l < out@.len() implies (#[trigger] out@[k]) != (
        #[trigger] out@[l]) by {
            assert(position_before(views, out@[k] as int, out@[l] as int));
            lemma_position_order(views, out@[k] as int, out@[l] as int, out@[k] as int);
        }
    }
    out
}

/// The positions `0, 1, .., n - 1`.
fn all_positions(n: usize) -> (r: Vec<usize>)
    ensures
        r@.len() == n,
        forall|k: int| 0 <= k < n ==> (#[trigger] r@[k]) == k,
{
    let mut out: Vec<usize> = Vec::new();
    let mut i: usize = 0;
    while i < n
        invariant
            i <= n,
            out@.len() == i,
            forall|k: int| 0 <= k < i ==> (#[trigger] out@[k]) == k,
        decreases n - i,
    {
        out.push(i);
        i += 1;
    }
    out
}

/// The positions of the keys in sorted order. Positions with equal keys keep
/// their order.
pub fn sorted_order(keys: &Vec<SortKey>) -> (order: Vec<usize>)
    ensures
        is_sorted_order(key_views(keys@), keys@.len() as int, order@),
{
    let positions = all_positions(keys.len());
    let ghost all = positions@;
    let order = merge_sort(keys, positions);
    proof {
        assert forall|k: int| 0 <= k < order@.len() implies (#[trigger] order@[k]) < keys@.len() by {}
        assert forall|i: int| 0 <= i < keys@.len() implies order@.contains(#[trigger] (i as usize)) by {
            assert(all[i] == i as usize);
            assert(order@.contains(all[i]));
        }
    }
    order
}

} // verus!

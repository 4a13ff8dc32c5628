//! Listings and the visible sets computed from them: the substring filter,
//! the fuzzy ranking, and the order in which a directory is shown.

use vstd::prelude::*;
use crate::fuzzy::{contains_chars, fuzzy_score, is_substring, saturated, score_chars};
use crate::sorting::{
    is_sorted_order, key_views, lemma_order_unique, lemma_sorted_order_unique, position_before,
    sorted_order, text_before, KeyView, SortKey,
};
use crate::text::{chars_of, lowercase, to_lowercase};

verus! {

/// What the filters read of a listed file: its name, its path, and a way to
/// copy it into a result.
pub trait Entry: Sized {
    /// The name, which the substring filter and the sort read.
    spec fn name_chars(&self) -> Seq<char>;

    /// The path, which the fuzzy scorer reads.
    spec fn path_chars(&self) -> Seq<char>;

    fn entry_name(&self) -> (r: &str)
        ensures
            r@ == self.name_chars(),
    ;

    fn entry_path(&self) -> (r: &str)
        ensures
            r@ == self.path_chars(),
    ;

    fn duplicate(&self) -> (r: Self)
        ensures
            r == *self,
    ;

    /// Whether the entry is a directory.
    spec fn is_dir_spec(&self) -> bool;

    fn is_dir(&self) -> (r: bool)
        ensures
            r == self.is_dir_spec(),
    ;
}

/// The positions `0, 1, .., n - 1`.
pub open spec fn all_indices(n: int) -> Seq<usize> {
    Seq::new(
        if n < 0 {
            0
        } else {
            n as nat
        },
        |i: int| i as usize,
    )
}

/// The entries at the given positions, in the order of the positions.
pub open spec fn picked<E>(entries: Seq<E>, indices: Seq<usize>) -> Seq<E> {
    Seq::new(indices.len(), |k: int| entries[indices[k] as int])
}

/// Every position is one of a listing with `len` entries.
pub open spec fn indices_below(indices: Seq<usize>, len: int) -> bool {
    forall|k: int| 0 <= k < indices.len() ==> (#[trigger] indices[k]) < len
}

/// A name matches a query when, both in lower case, the query occurs in the
/// name as a contiguous piece.
pub open spec fn name_matches(name: Seq<char>, query: Seq<char>) -> bool {
    is_substring(lowercase(query), lowercase(name))
}

/// The positions below `n` of the entries whose names match the query, in
/// ascending order.
pub open spec fn matching_below<E: Entry>(entries: Seq<E>, query: Seq<char>, n: int) -> Seq<usize>
    decreases n,
{
    if n <= 0 {
        Seq::empty()
    } else {
        let before = matching_below(entries, query, n - 1);
        if name_matches(entries[n - 1].name_chars(), query) {
            before.push((n - 1) as usize)
        } else {
            before
        }
    }
}

/// The visible set of a substring search: every position for the empty query,
/// else the positions of the matching names in listing order.
pub open spec fn search_indices<E: Entry>(entries: Seq<E>, query: Seq<char>) -> Seq<usize> {
    if query.len() == 0 {
        all_indices(entries.len() as int)
    } else {
        matching_below(entries, query, entries.len() as int)
    }
}

/// Score of an entry's path against a query, as the scorer reports it.
pub open spec fn path_score<E: Entry>(entry: E, query: Seq<char>) -> int {
    saturated(fuzzy_score(entry.path_chars(), query))
}

/// The entry at position `a` is shown before the one at `b`: it scores higher,
/// or scores the same and was found earlier.
pub open spec fn ranks_before<E: Entry>(entries: Seq<E>, query: Seq<char>, a: int, b: int) -> bool {
    let score_a = path_score(entries[a], query);
    let score_b = path_score(entries[b], query);
    score_a > score_b || (score_a == score_b && a < b)
}

/// Each position of `r` is shown before all that follow it.
pub open spec fn ordered_by_rank<E: Entry>(entries: Seq<E>, query: Seq<char>, r: Seq<usize>) -> bool {
    forall|k: int, l: int|
        0 <= k < l < r.len() ==> ranks_before(entries, query, #[trigger] r[k] as int, #[trigger] r[l] as int)
}

/// `r` ranks the first `n` entries: it holds exactly the positions below `n`
/// whose paths score above zero, by descending score, equal scores in listing
/// order.
pub open spec fn is_ranking<E: Entry>(entries: Seq<E>, query: Seq<char>, n: int, r: Seq<usize>) -> bool {
    &&& forall|k: int|
        0 <= k < r.len() ==> (#[trigger] r[k]) < n && path_score(entries[r[k] as int], query) > 0
    &&& forall|i: int|
        0 <= i < n && #[trigger] path_score(entries[i], query) > 0 ==> r.contains(i as usize)
    &&& ordered_by_rank(entries, query, r)
}

/// The ranking of a whole listing.
pub open spec fn ranking<E: Entry>(entries: Seq<E>, query: Seq<char>) -> Seq<usize> {
    choose|r: Seq<usize>| is_ranking(entries, query, entries.len() as int, r)
}

/// The visible set of a fuzzy search: every position for the empty query,
/// else the ranking.
pub open spec fn fuzzy_indices<E: Entry>(entries: Seq<E>, query: Seq<char>) -> Seq<usize> {
    if query.len() == 0 {
        all_indices(entries.len() as int)
    } else {
        ranking(entries, query)
    }
}

/// Picking every position gives the listing itself.
pub proof fn lemma_pick_all<E>(entries: Seq<E>)
    requires
        entries.len() <= usize::MAX,
    ensures
        picked(entries, all_indices(entries.len() as int)) == entries,
{
    assert(picked(entries, all_indices(entries.len() as int)) =~= entries);
}

/// The matching positions lie in the listing and ascend.
pub proof fn lemma_matching_ascends<E: Entry>(entries: Seq<E>, query: Seq<char>, n: int)
    requires
        n <= usize::MAX,
    ensures
        matching_below(entries, query, n).len() <= if n < 0 { 0 } else { n },
        forall|k: int|
            0 <= k < matching_below(entries, query, n).len() ==> (#[trigger] matching_below(
                entries,
                query,
                n,
            )[k]) < n,
        forall|k: int, l: int|
            0 <= k < l < matching_below(entries, query, n).len() ==> (#[trigger] matching_below(
                entries,
                query,
                n,
            )[k]) < (#[trigger] matching_below(entries, query, n)[l]),
        forall|i: int|
            0 <= i < n && name_matches(#[trigger] entries[i].name_chars(), query)
                ==> matching_below(entries, query, n).contains(i as usize),
        forall|k: int|
            0 <= k < matching_below(entries, query, n).len() ==> name_matches(
                entries[(#[trigger] matching_below(entries, query, n)[k]) as int].name_chars(),
                query,
            ),
    decreases n,
{
    if n > 0 {
        lemma_matching_ascends(entries, query, n - 1);
        let before = matching_below(entries, query, n - 1);
        let now = matching_below(entries, query, n);
        assert forall|i: int|
            0 <= i < n && name_matches(#[trigger] entries[i].name_chars(), query) implies now.contains(
            i as usize,
        ) by {
            if i < n - 1 {
                assert(before.contains(i as usize));
                let k = choose|k: int| 0 <= k < before.len() && before[k] == i as usize;
                assert(now[k] == i as usize);
            } else {
                assert(now[now.len() - 1] == i as usize);
            }
        }
    }
}

/// A listing has one ranking: the order of the visible set is determined by
/// the entries and the query alone.
pub proof fn lemma_ranking_unique<E: Entry>(
    entries: Seq<E>,
    query: Seq<char>,
    n: int,
    a: Seq<usize>,
    b: Seq<usize>,
)
    requires
        is_ranking(entries, query, n, a),
        is_ranking(entries, query, n, b),
    ensures
        a == b,
{
    let before = |i: int, j: int| ranks_before(entries, query, i, j);
    assert forall|x: usize| a.contains(x) <==> b.contains(x) by {
        if a.contains(x) {
            let k = choose|k: int| 0 <= k < a.len() && a[k] == x;
            assert(path_score(entries[a[k] as int], query) > 0);
        }
        if b.contains(x) {
            let k = choose|k: int| 0 <= k < b.len() && b[k] == x;
            assert(path_score(entries[b[k] as int], query) > 0);
        }
    }
    assert forall|k: int, l: int| 0 <= k < l < a.len() implies before(
        #[trigger] a[k] as int,
        #[trigger] a[l] as int,
    ) by {
        assert(ranks_before(entries, query, a[k] as int, a[l] as int));
    }
    assert forall|k: int, l: int| 0 <= k < l < b.len() implies before(
        #[trigger] b[k] as int,
        #[trigger] b[l] as int,
    ) by {
        assert(ranks_before(entries, query, b[k] as int, b[l] as int));
    }
    lemma_order_unique(before, a, b);
}

/// The position in a ranking, from `from` on, of the first entry that scores
/// less than `score`.
spec fn first_lower<E: Entry>(
    entries: Seq<E>,
    query: Seq<char>,
    r: Seq<usize>,
    score: int,
    from: int,
) -> int
    decreases r.len() - from,
{
    if from < 0 || from >= r.len() || path_score(entries[r[from] as int], query) < score {
        from
    } else {
        first_lower(entries, query, r, score, from + 1)
    }
}

/// `first_lower` stops behind the entries that score at least `score` and
/// before one that scores less.
proof fn lemma_first_lower<E: Entry>(
    entries: Seq<E>,
    query: Seq<char>,
    r: Seq<usize>,
    score: int,
    from: int,
)
    requires
        0 <= from <= r.len(),
    ensures
        from <= first_lower(entries, query, r, score, from) <= r.len(),
        forall|k: int|
            from <= k < first_lower(entries, query, r, score, from) ==> path_score(
                entries[(#[trigger] r[k]) as int],
                query,
            ) >= score,
        first_lower(entries, query, r, score, from) < r.len() ==> path_score(
            entries[r[first_lower(entries, query, r, score, from)] as int],
            query,
        ) < score,
    decreases r.len() - from,
{
    if from < r.len() && path_score(entries[r[from] as int], query) >= score {
        lemma_first_lower(entries, query, r, score, from + 1);
    }
}

/// Every listing has a ranking.
pub proof fn lemma_ranking_exists<E: Entry>(entries: Seq<E>, query: Seq<char>, n: int)
    requires
        n <= usize::MAX,
    ensures
        exists|r: Seq<usize>| is_ranking(entries, query, n, r),
    decreases n,
{
    if n <= 0 {
        assert(is_ranking(entries, query, n, Seq::<usize>::empty()));
    } else {
        let m = n - 1;
        lemma_ranking_exists(entries, query, m);
        let r = choose|r: Seq<usize>| is_ranking(entries, query, m, r);
        let score = path_score(entries[m], query);
        if score > 0 {
            let p = first_lower(entries, query, r, score, 0);
            lemma_first_lower(entries, query, r, score, 0);
            lemma_insert_keeps_ranking(entries, query, m, r, p);
            assert(is_ranking(entries, query, n, r.insert(p, m as usize)));
        } else {
            assert(is_ranking(entries, query, n, r));
        }
    }
}

/// The ranking of a listing ranks it.
pub proof fn lemma_ranking_ranks<E: Entry>(entries: Seq<E>, query: Seq<char>)
    requires
        entries.len() <= usize::MAX,
    ensures
        is_ranking(entries, query, entries.len() as int, ranking(entries, query)),
        indices_below(ranking(entries, query), entries.len() as int),
{
    lemma_ranking_exists(entries, query, entries.len() as int);
}

/// Placing position `n` into a ranking of the first `n` entries, behind the
/// entries that score at least as high and before those that score less,
/// gives the ranking of the first `n + 1`.
proof fn lemma_insert_keeps_ranking<E: Entry>(
    entries: Seq<E>,
    query: Seq<char>,
    n: int,
    r: Seq<usize>,
    p: int,
)
    requires
        0 <= n <= usize::MAX,
        is_ranking(entries, query, n, r),
        path_score(entries[n], query) > 0,
        0 <= p <= r.len(),
        forall|k: int|
            0 <= k < p ==> path_score(entries[(#[trigger] r[k]) as int], query) >= path_score(
                entries[n],
                query,
            ),
        p < r.len() ==> path_score(entries[r[p] as int], query) < path_score(entries[n], query),
    ensures
        is_ranking(entries, query, n + 1, r.insert(p, n as usize)),
{
    let after = r.insert(p, n as usize);
    assert forall|k: int| 0 <= k < after.len() implies (#[trigger] after[k]) < n + 1 && path_score(
        entries[after[k] as int],
        query,
    ) > 0 by {
        if k < p {
            assert(after[k] == r[k]);
        } else if k > p {
            assert(after[k] == r[k - 1]);
        }
    }
    assert forall|i: int| 0 <= i < n + 1 && #[trigger] path_score(entries[i], query) > 0 implies after.contains(
        i as usize,
    ) by {
        if i < n {
            assert(r.contains(i as usize));
            let k = choose|k: int| 0 <= k < r.len() && r[k] == i as usize;
            if k < p {
                assert(after[k] == i as usize);
            } else {
                assert(after[k + 1] == i as usize);
            }
        } else {
            assert(after[p] == i as usize);
        }
    }
    assert forall|k: int, l: int| 0 <= k < l < after.len() implies ranks_before(
        entries,
        query,
        #[trigger] after[k] as int,
        #[trigger] after[l] as int,
    ) by {
        if l < p {
            assert(after[k] == r[k] && after[l] == r[l]);
        } else if l == p {
            assert(after[k] == r[k]);
            assert(r[k] < n);
        } else if k == p {
            assert(after[l] == r[l - 1]);
            if l - 1 > p {
                assert(ranks_before(entries, query, r[p] as int, r[l - 1] as int));
            }
        } else if k > p {
            assert(after[k] == r[k - 1] && after[l] == r[l - 1]);
            assert(ranks_before(entries, query, r[k - 1] as int, r[l - 1] as int));
        } else {
            assert(after[k] == r[k] && after[l] == r[l - 1]);
            if k < l - 1 {
                assert(ranks_before(entries, query, r[k] as int, r[l - 1] as int));
            }
        }
    }
}

/// The positions `0, 1, .., n - 1`.
pub fn index_range(n: usize) -> (r: Vec<usize>)
    ensures
        r@ == all_indices(n as int),
{
    let mut out: Vec<usize> = Vec::new();
    let mut i: usize = 0;
    while i < n
        invariant
            i <= n,
            out@ == all_indices(i as int),
        decreases n - i,
    {
        out.push(i);
        assert(out@ =~= all_indices(i + 1));
        i += 1;
    }
    out
}

/// Copies a listing.
pub fn copy_all<E: Entry>(entries: &Vec<E>) -> (r: Vec<E>)
    ensures
        r@ == entries@,
{
    let mut out: Vec<E> = Vec::new();
    let mut k: usize = 0;
    while k < entries.len()
        invariant
            k <= entries.len(),
            out@ == entries@.take(k as int),
        decreases entries.len() - k,
    {
        out.push(entries[k].duplicate());
        assert(out@ =~= entries@.take(k + 1));
        k += 1;
    }
    assert(entries@.take(entries@.len() as int) =~= entries@);
    out
}

/// Copies the entries at the given positions.
pub fn pick<E: Entry>(entries: &Vec<E>, indices: &Vec<usize>) -> (r: Vec<E>)
    requires
        indices_below(indices@, entries@.len() as int),
    ensures
        r@ == picked(entries@, indices@),
{
    let mut out: Vec<E> = Vec::new();
    let mut k: usize = 0;
    while k < indices.len()
        invariant
            k <= indices.len(),
            indices_below(indices@, entries@.len() as int),
            out@ == picked(entries@, indices@.take(k as int)),
        decreases indices.len() - k,
    {
        out.push(entries[indices[k]].duplicate());
        assert(out@ =~= picked(entries@, indices@.take(k + 1)));
        k += 1;
    }
    assert(indices@.take(indices@.len() as int) =~= indices@);
    out
}

/// The positions of the entries whose names contain the query, compared
/// without regard to case, in listing order.
pub fn matching_positions<E: Entry>(entries: &Vec<E>, query: &str) -> (r: Vec<usize>)
    ensures
        r@ == matching_below(entries@, query@, entries@.len() as int),
        indices_below(r@, entries@.len() as int),
{
    let query_lower = to_lowercase(query);
    let needle = chars_of(query_lower.as_str());
    let mut out: Vec<usize> = Vec::new();
    let mut i: usize = 0;
    while i < entries.len()
        invariant
            i <= entries.len(),
            needle@ == lowercase(query@),
            out@ == matching_below(entries@, query@, i as int),
        decreases entries.len() - i,
    {
        let name_lower = to_lowercase(entries[i].entry_name());
        let name = chars_of(name_lower.as_str());
        if contains_chars(&name, &needle) {
            out.push(i);
        }
        i += 1;
    }
    proof {
        lemma_matching_ascends(entries@, query@, entries@.len() as int);
    }
    out
}

/// The visible set of a substring search over a listing.
pub fn search_positions<E: Entry>(entries: &Vec<E>, query: &str) -> (r: Vec<usize>)
    ensures
        r@ == search_indices(entries@, query@),
        indices_below(r@, entries@.len() as int),
{
    if query.is_empty() {
        index_range(entries.len())
    } else {
        matching_positions(entries, query)
    }
}

/// The positions of the entries whose paths score above zero against the
/// query, best first; entries that score the same stay in listing order.
pub fn ranked_positions<E: Entry>(entries: &Vec<E>, query: &str) -> (r: Vec<usize>)
    ensures
        is_ranking(entries@, query@, entries@.len() as int, r@),
        r@ == ranking(entries@, query@),
        indices_below(r@, entries@.len() as int),
{
    if query.is_empty() {
        let all = index_range(entries.len());
        proof {
            assert forall|i: int|
                0 <= i < entries@.len() && #[trigger] path_score(entries@[i], query@)
                    > 0 implies all@.contains(i as usize) by {
                assert(all@[i] == i as usize);
            }
            assert(is_ranking(entries@, query@, entries@.len() as int, all@));
            lemma_ranking_unique(
                entries@,
                query@,
                entries@.len() as int,
                all@,
                ranking(entries@, query@),
            );
        }
        return all;
    }
    let query_lower = to_lowercase(query);
    let needle = chars_of(query_lower.as_str());
    let mut matches: Vec<usize> = Vec::new();
    let mut keys: Vec<SortKey> = Vec::new();
    let mut i: usize = 0;
    while i < entries.len()
        invariant
            i <= entries.len(),
            query@.len() > 0,
            needle@ == lowercase(query@),
            keys@.len() == matches@.len(),
            forall|k: int| 0 <= k < matches@.len() ==> (#[trigger] matches@[k]) < i,
            forall|k: int, l: int|
                0 <= k < l < matches@.len() ==> (#[trigger] matches@[k]) < (#[trigger] matches@[l]),
            forall|k: int|
                0 <= k < matches@.len() ==> scored(
                    path_score(entries@[matches@[k] as int], query@),
                    #[trigger] keys@[k],
                ),
            forall|j: int|
                0 <= j < i && #[trigger] path_score(entries@[j], query@) > 0 ==> matches@.contains(
                    j as usize,
                ),
        decreases entries.len() - i,
    {
        let path_lower = to_lowercase(entries[i].entry_path());
        let path = chars_of(path_lower.as_str());
        let score = score_chars(&path, &needle);
        if score > 0 {
            let ghost before = matches@;
            matches.push(i);
            keys.push(SortKey { group: (i32::MAX - score) as u32, text: Vec::new() });
            assert forall|j: int|
                0 <= j < i + 1 && #[trigger] path_score(entries@[j], query@) > 0 implies matches@.contains(
                j as usize,
            ) by {
                if j < i {
                    let at = choose|at: int| 0 <= at < before.len() && before[at] == j as usize;
                    assert(matches@[at] == j as usize);
                } else {
                    assert(matches@[before.len() as int] == j as usize);
                }
            }
        }
        i += 1;
    }
    let order = sorted_order(&keys);
    let ghost views = key_views(keys@);
    let mut ranked: Vec<usize> = Vec::new();
    let mut k: usize = 0;
    while k < order.len()
        invariant
            k <= order.len(),
            ranked@.len() == k,
            is_sorted_order(views, matches@.len() as int, order@),
            forall|at: int| 0 <= at < k ==> (#[trigger] ranked@[at]) == matches@[order@[at] as int],
        decreases order.len() - k,
    {
        ranked.push(matches[order[k]]);
        k += 1;
    }
    proof {
        assert forall|at: int| 0 <= at < ranked@.len() implies (#[trigger] ranked@[at])
            < entries@.len() && path_score(entries@[ranked@[at] as int], query@) > 0 by {
            let a = order@[at] as int;
            assert(scored(path_score(entries@[matches@[a] as int], query@), keys@[a]));
        }
        assert forall|i: int|
            0 <= i < entries@.len() && #[trigger] path_score(entries@[i], query@) > 0 implies ranked@.contains(
            i as usize,
        ) by {
            let m = choose|m: int| 0 <= m < matches@.len() && matches@[m] == i as usize;
            assert(order@.contains(m as usize));
            let at = choose|at: int| 0 <= at < order@.len() && order@[at] == m as usize;
            assert(ranked@[at] == i as usize);
        }
        assert forall|at: int, to: int| 0 <= at < to < ranked@.len() implies ranks_before(
            entries@,
            query@,
            #[trigger] ranked@[at] as int,
            #[trigger] ranked@[to] as int,
        ) by {
            let a = order@[at] as int;
            let b = order@[to] as int;
            assert(position_before(views, a, b));
            assert(views[a] == keys@[a]@ && views[b] == keys@[b]@);
            assert(scored(path_score(entries@[matches@[a] as int], query@), keys@[a]));
            assert(scored(path_score(entries@[matches@[b] as int], query@), keys@[b]));
            assert(!text_before(Seq::<char>::empty(), Seq::<char>::empty()));
            assert(keys@[a]@.text =~= Seq::<char>::empty());
            assert(keys@[b]@.text =~= Seq::<char>::empty());
            if a < b {
                assert(matches@[a] < matches@[b]);
            }
        }
        assert(ordered_by_rank(entries@, query@, ranked@));
        assert(is_ranking(entries@, query@, entries@.len() as int, ranked@));
        lemma_ranking_unique(
            entries@,
            query@,
            entries@.len() as int,
            ranked@,
            ranking(entries@, query@),
        );
    }
    ranked
}

/// `key` is the sort key of an entry with this score: a higher score gives a
/// lower group, so that sorting by key puts the best match first.
pub open spec fn scored(score: int, key: SortKey) -> bool {
    &&& 0 < score <= i32::MAX
    &&& key@.group == i32::MAX - score
    &&& key@.text.len() == 0
}

/// The keys of directory order: directories before files, then by name without
/// regard to case.
pub open spec fn directory_keys<E: Entry>(entries: Seq<E>) -> Seq<KeyView> {
    Seq::new(
        entries.len(),
        |i: int|
            KeyView {
                group: if entries[i].is_dir_spec() {
                    0
                } else {
                    1
                },
                text: lowercase(entries[i].name_chars()),
            },
    )
}

/// `sorted` is the listing `entries` in directory order: directories first,
/// then by name without regard to case; entries that compare equal keep
/// their order.
pub open spec fn is_directory_sorted<E: Entry>(entries: Seq<E>, sorted: Seq<E>) -> bool {
    exists|order: Seq<usize>|
        is_sorted_order(directory_keys(entries), entries.len() as int, order) && sorted == picked(
            entries,
            order,
        )
}

/// A listing has one directory order: sorting it again, or sorting another
/// reading with the same entries in the same order, gives the same result.
pub proof fn lemma_directory_sorted_unique<E: Entry>(entries: Seq<E>, a: Seq<E>, b: Seq<E>)
    requires
        is_directory_sorted(entries, a),
        is_directory_sorted(entries, b),
    ensures
        a == b,
{
    let keys = directory_keys(entries);
    let n = entries.len() as int;
    let order_a = choose|order: Seq<usize>| is_sorted_order(keys, n, order) && a == picked(entries, order);
    let order_b = choose|order: Seq<usize>| is_sorted_order(keys, n, order) && b == picked(entries, order);
    lemma_sorted_order_unique(keys, n, order_a, order_b);
}

/// The positions of a listing in directory order.
pub fn directory_order<E: Entry>(entries: &Vec<E>) -> (order: Vec<usize>)
    ensures
        is_sorted_order(directory_keys(entries@), entries@.len() as int, order@),
        indices_below(order@, entries@.len() as int),
{
    let mut keys: Vec<SortKey> = Vec::new();
    let mut i: usize = 0;
    while i < entries.len()
        invariant
            i <= entries.len(),
            keys.len() == i,
            forall|j: int| 0 <= j < i ==> (#[trigger] keys@[j])@ == directory_keys(entries@)[j],
        decreases entries.len() - i,
    {
        let name_lower = to_lowercase(entries[i].entry_name());
        let group: u32 = if entries[i].is_dir() {
            0
        } else {
            1
        };
        keys.push(SortKey { group, text: chars_of(name_lower.as_str()) });
        i += 1;
    }
    assert(key_views(keys@) =~= directory_keys(entries@));
    sorted_order(&keys)
}

/// Sorts a listing as a directory is shown: directories first, then by name
/// without regard to case. Entries that compare equal keep their order.
pub fn sort_listing<E: Entry>(entries: &Vec<E>) -> (sorted: Vec<E>)
    ensures
        is_directory_sorted(entries@, sorted@),
        sorted@.len() == entries@.len(),
{
    let order = directory_order(entries);
    pick(entries, &order)
}

/// No position occurs twice.
pub open spec fn each_once(s: Seq<usize>) -> bool {
    forall|k: int, l: int| 0 <= k < l < s.len() ==> (#[trigger] s[k]) != (#[trigger] s[l])
}

/// The visible set of a fuzzy search over a scanned file set.
pub fn fuzzy_positions<E: Entry>(entries: &Vec<E>, query: &str) -> (r: Vec<usize>)
    ensures
        r@ == fuzzy_indices(entries@, query@),
        indices_below(r@, entries@.len() as int),
        each_once(r@),
{
    if query.is_empty() {
        index_range(entries.len())
    } else {
        let ranked = ranked_positions(entries, query);
        assert forall|k: int, l: int| 0 <= k < l < ranked@.len() implies (#[trigger] ranked@[k]) != (
        #[trigger] ranked@[l]) by {
            assert(ranks_before(entries@, query@, ranked@[k] as int, ranked@[l] as int));
        }
        ranked
    }
}

} // verus!

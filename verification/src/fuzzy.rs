//! The fuzzy scorer: how well a path matches a query whose characters
//! need not stand side by side.

use vstd::prelude::*;
use crate::text::{chars_of, lowercase, to_lowercase};

verus! {

/// Score of a candidate against the empty query.
pub const EMPTY_QUERY_SCORE: i32 = 100;

/// Points for each query character found in the candidate.
pub const MATCH_POINTS: i32 = 10;

/// Bonus when the query occurs in the candidate as one piece.
pub const SUBSTRING_BONUS: i32 = 50;

/// The character whose occurrences in a candidate are counted against it.
pub const PATH_SEPARATOR: char = '/';

/// Progress of the left-to-right scan of a candidate: how many query
/// characters were consumed, the length of the current run of consecutive
/// matches, and the points collected.
pub ghost struct Scan {
    pub next: int,
    pub run: int,
    pub points: int,
}

/// State of the scan after the first `n` characters of `text`. A character
/// equal to the next query character consumes it and earns ten points plus the
/// length of the run so far; any other character ends the run. Once the whole
/// query is consumed the rest of the candidate is not read.
pub open spec fn scan(text: Seq<char>, pattern: Seq<char>, n: int) -> Scan
    decreases n,
{
    if n <= 0 {
        Scan { next: 0, run: 0, points: 0 }
    } else {
        let before = scan(text, pattern, n - 1);
        if before.next >= pattern.len() {
            before
        } else if text[n - 1] == pattern[before.next] {
            Scan {
                next: before.next + 1,
                run: before.run + 1,
                points: before.points + MATCH_POINTS + before.run,
            }
        } else {
            Scan { next: before.next, run: 0, points: before.points }
        }
    }
}

/// Number of occurrences of `c` among the first `n` characters of `text`.
pub open spec fn occurrences(text: Seq<char>, c: char, n: int) -> int
    decreases n,
{
    if n <= 0 {
        0
    } else {
        occurrences(text, c, n - 1) + if text[n - 1] == c { 1int } else { 0int }
    }
}

/// `needle` stands in `hay` at position `at`.
pub open spec fn occurs_at(needle: Seq<char>, hay: Seq<char>, at: int) -> bool {
    &&& 0 <= at
    &&& at + needle.len() <= hay.len()
    &&& hay.subrange(at, at + needle.len()) == needle
}

/// `needle` occurs in `hay` as a contiguous piece.
pub open spec fn is_substring(needle: Seq<char>, hay: Seq<char>) -> bool {
    exists|at: int| occurs_at(needle, hay, at)
}

/// Score of a candidate against a query, both already in lower case: 100 for
/// the empty query, 0 when the scan does not consume the whole query, and
/// otherwise the points of the scan less one per path separator, plus the
/// substring bonus, but never below 1.
pub open spec fn match_score(text: Seq<char>, pattern: Seq<char>) -> int {
    if pattern.len() == 0 {
        EMPTY_QUERY_SCORE as int
    } else {
        let end = scan(text, pattern, text.len() as int);
        if end.next == pattern.len() {
            let bonus = if is_substring(pattern, text) {
                SUBSTRING_BONUS as int
            } else {
                0int
            };
            let total = end.points - occurrences(text, PATH_SEPARATOR, text.len() as int) + bonus;
            if total < 1 {
                1
            } else {
                total
            }
        } else {
            0
        }
    }
}

/// Score of a candidate path against a query: 100 for the empty query, which
/// every candidate matches, and otherwise the score of the two in lower case.
pub open spec fn fuzzy_score(text: Seq<char>, pattern: Seq<char>) -> int {
    if pattern.len() == 0 {
        EMPTY_QUERY_SCORE as int
    } else {
        match_score(lowercase(text), lowercase(pattern))
    }
}

/// A score as it fits the result type: scores beyond `i32::MAX` are reported
/// as `i32::MAX`.
pub open spec fn saturated(score: int) -> int {
    if score > i32::MAX {
        i32::MAX as int
    } else {
        score
    }
}

/// The characters of `pattern` stand in `text` at `positions`, in order.
pub open spec fn embeds(pattern: Seq<char>, text: Seq<char>, positions: Seq<int>) -> bool {
    &&& positions.len() == pattern.len()
    &&& forall|k: int|
        0 <= k < positions.len() ==> 0 <= #[trigger] positions[k] < text.len()
            && text[positions[k]] == pattern[k]
    &&& forall|j: int, k: int|
        0 <= j < k < positions.len() ==> (#[trigger] positions[j]) < (#[trigger] positions[k])
}

/// `pattern` is a subsequence of `text`: its characters occur in `text` in
/// order, not necessarily side by side.
pub open spec fn is_subsequence(pattern: Seq<char>, text: Seq<char>) -> bool {
    exists|positions: Seq<int>| embeds(pattern, text, positions)
}

/// Wherever the first `k` characters of the query can be found in order
/// among the first `n` characters of the candidate, the scan has consumed at
/// least `k` characters by then.
proof fn lemma_scan_dominates(
    text: Seq<char>,
    pattern: Seq<char>,
    n: int,
    k: int,
    positions: Seq<int>,
)
    requires
        0 <= k <= pattern.len(),
        positions.len() == k,
        forall|j: int|
            0 <= j < k ==> 0 <= #[trigger] positions[j] < n && text[positions[j]] == pattern[j],
        forall|i: int, j: int| 0 <= i < j < k ==> (#[trigger] positions[i]) < (#[trigger] positions[j]),
    ensures
        scan(text, pattern, n).next >= k,
    decreases n,
{
    lemma_scan_bounds(text, pattern, n);
    if k > 0 {
        assert(0 <= positions[k - 1] < n);
        let shorter = positions.take(k - 1);
        if positions[k - 1] < n - 1 {
            lemma_scan_dominates(text, pattern, n - 1, k, positions);
        } else {
            assert forall|j: int| 0 <= j < k - 1 implies 0 <= #[trigger] shorter[j] < n - 1
                && text[shorter[j]] == pattern[j] by {
                assert(shorter[j] == positions[j]);
                assert(positions[j] < positions[k - 1]);
            }
            assert forall|i: int, j: int| 0 <= i < j < k - 1 implies (#[trigger] shorter[i]) < (
            #[trigger] shorter[j]) by {
                assert(shorter[i] == positions[i] && shorter[j] == positions[j]);
            }
            lemma_scan_dominates(text, pattern, n - 1, k - 1, shorter);
            lemma_scan_bounds(text, pattern, n - 1);
        }
    }
}

/// The places where the scan of the first `n` characters found the query
/// characters that it consumed.
proof fn lemma_scan_positions(text: Seq<char>, pattern: Seq<char>, n: int) -> (positions: Seq<int>)
    requires
        n <= text.len(),
    ensures
        positions.len() == scan(text, pattern, n).next,
        forall|j: int|
            0 <= j < positions.len() ==> 0 <= #[trigger] positions[j] < n && text[positions[j]]
                == pattern[j],
        forall|i: int, j: int|
            0 <= i < j < positions.len() ==> (#[trigger] positions[i]) < (#[trigger] positions[j]),
    decreases n,
{
    if n <= 0 {
        Seq::empty()
    } else {
        let before = lemma_scan_positions(text, pattern, n - 1);
        lemma_scan_bounds(text, pattern, n - 1);
        if scan(text, pattern, n).next == scan(text, pattern, n - 1).next {
            before
        } else {
            before.push(n - 1)
        }
    }
}

/// The scan consumes the whole query exactly when the query is a subsequence
/// of the candidate.
pub proof fn lemma_scan_finds_subsequences(text: Seq<char>, pattern: Seq<char>)
    ensures
        scan(text, pattern, text.len() as int).next == pattern.len() <==> is_subsequence(
            pattern,
            text,
        ),
{
    lemma_scan_bounds(text, pattern, text.len() as int);
    if scan(text, pattern, text.len() as int).next == pattern.len() {
        let positions = lemma_scan_positions(text, pattern, text.len() as int);
        assert(embeds(pattern, text, positions));
    }
    if is_subsequence(pattern, text) {
        let positions = choose|positions: Seq<int>| embeds(pattern, text, positions);
        lemma_scan_dominates(text, pattern, text.len() as int, pattern.len() as int, positions);
    }
}

/// The empty query gives every candidate the score 100. Under any other
/// query a candidate scores 0 exactly when the query, in lower case, is not a
/// subsequence of the candidate in lower case, and at least 1 otherwise.
pub proof fn lemma_score_rejects_non_subsequences(text: Seq<char>, pattern: Seq<char>)
    ensures
        pattern.len() == 0 ==> fuzzy_score(text, pattern) == 100,
        pattern.len() > 0 && !is_subsequence(lowercase(pattern), lowercase(text)) ==> fuzzy_score(
            text,
            pattern,
        ) == 0,
        pattern.len() > 0 && is_subsequence(lowercase(pattern), lowercase(text)) ==> fuzzy_score(
            text,
            pattern,
        ) >= 1,
        pattern.len() > 0 ==> (saturated(fuzzy_score(text, pattern)) == 0 <==> !is_subsequence(
            lowercase(pattern),
            lowercase(text),
        )),
{
    lemma_scan_finds_subsequences(lowercase(text), lowercase(pattern));
    if lowercase(pattern).len() == 0 {
        assert(embeds(lowercase(pattern), lowercase(text), Seq::<int>::empty()));
    }
}

/// The scan consumes no more than the query holds, its run is no longer than
/// what it consumed, and its points are not negative.
proof fn lemma_scan_bounds(text: Seq<char>, pattern: Seq<char>, n: int)
    ensures
        0 <= scan(text, pattern, n).next <= pattern.len(),
        0 <= scan(text, pattern, n).run <= scan(text, pattern, n).next,
        0 <= scan(text, pattern, n).points,
    decreases n,
{
    if n > 0 {
        lemma_scan_bounds(text, pattern, n - 1);
    }
}

/// Once the whole query is consumed the scan does not change any more.
proof fn lemma_scan_stays_complete(text: Seq<char>, pattern: Seq<char>, n: int, m: int)
    requires
        0 <= n <= m,
        scan(text, pattern, n).next >= pattern.len(),
    ensures
        scan(text, pattern, m) == scan(text, pattern, n),
    decreases m - n,
{
    if n < m {
        lemma_scan_stays_complete(text, pattern, n, m - 1);
    }
}

/// Whether `needle` stands in `hay` at position `at`.
fn occurs_at_position(needle: &Vec<char>, hay: &Vec<char>, at: usize) -> (r: bool)
    requires
        at + needle.len() <= hay.len(),
    ensures
        r == occurs_at(needle@, hay@, at as int),
{
    let mut k: usize = 0;
    while k < needle.len()
        invariant
            k <= needle.len(),
            at + needle.len() <= hay.len(),
            forall|j: int| 0 <= j < k ==> hay@[at + j] == needle@[j],
        decreases needle.len() - k,
    {
        if hay[at + k] != needle[k] {
            assert(hay@.subrange(at as int, at + needle@.len())[k as int] == hay@[at + k]);
            return false;
        }
        k += 1;
    }
    assert(hay@.subrange(at as int, at + needle@.len()) =~= needle@);
    true
}

/// Whether `needle` occurs in `hay` as a contiguous piece.
pub fn contains_chars(hay: &Vec<char>, needle: &Vec<char>) -> (r: bool)
    ensures
        r == is_substring(needle@, hay@),
{
    if needle.len() > hay.len() {
        return false;
    }
    if needle.len() == 0 {
        assert(hay@.subrange(0, 0) =~= needle@);
        assert(occurs_at(needle@, hay@, 0));
        return true;
    }
    let last: usize = hay.len() - needle.len();
    let mut at: usize = 0;
    while at <= last
        invariant
            last == hay.len() - needle.len(),
            last < usize::MAX,
            at <= last + 1,
            forall|j: int| 0 <= j < at ==> !occurs_at(needle@, hay@, j),
        decreases last + 1 - at,
    {
        if occurs_at_position(needle, hay, at) {
            return true;
        }
        at += 1;
    }
    false
}

/// Number of occurrences of `c` in `text`.
pub fn count_char(text: &Vec<char>, c: char) -> (r: usize)
    ensures
        r == occurrences(text@, c, text@.len() as int),
{
    let mut count: usize = 0;
    let mut i: usize = 0;
    while i < text.len()
        invariant
            i <= text.len(),
            count <= i,
            count == occurrences(text@, c, i as int),
        decreases text.len() - i,
    {
        if text[i] == c {
            count += 1;
        }
        i += 1;
    }
    count
}

/// Scores a candidate against a query, both given as lower-case characters.
pub fn score_chars(text: &Vec<char>, pattern: &Vec<char>) -> (score: i32)
    ensures
        score == saturated(match_score(text@, pattern@)),
{
    if pattern.len() == 0 {
        return EMPTY_QUERY_SCORE;
    }
    let mut points: u128 = 0;
    let mut run: usize = 0;
    let mut ti: usize = 0;
    let mut pi: usize = 0;
    while ti < text.len() && pi < pattern.len()
        invariant
            ti <= text.len(),
            pi <= pattern.len(),
            scan(text@, pattern@, ti as int).next == pi,
            scan(text@, pattern@, ti as int).run == run,
            scan(text@, pattern@, ti as int).points == points,
            run <= pi,
            2 * points <= pi * (pi + 19),
        decreases text.len() - ti,
    {
        if text[ti] == pattern[pi] {
            assert(2 * (points + 10 + run) <= (pi + 1) * (pi + 1 + 19)) by (nonlinear_arith)
                requires
                    2 * points <= pi * (pi + 19),
                    run <= pi,
            ;
            assert((pi + 1) * (pi + 1 + 19) <= 0x1_0000_0000_0000_0000 * (
            0x1_0000_0000_0000_0000 + 19)) by (nonlinear_arith)
                requires
                    0 <= pi + 1 <= 0x1_0000_0000_0000_0000,
            ;
            points = points + MATCH_POINTS as u128 + run as u128;
            run += 1;
            pi += 1;
        } else {
            run = 0;
        }
        ti += 1;
    }
    proof {
        lemma_scan_bounds(text@, pattern@, ti as int);
        if pi == pattern.len() {
            lemma_scan_stays_complete(text@, pattern@, ti as int, text@.len() as int);
        }
    }
    if pi == pattern.len() {
        let separators = count_char(text, PATH_SEPARATOR);
        let bonus: u128 = if contains_chars(text, pattern) {
            SUBSTRING_BONUS as u128
        } else {
            0
        };
        assert(pi * (pi + 19) <= 0x1_0000_0000_0000_0000 * (0x1_0000_0000_0000_0000 + 19))
            by (nonlinear_arith)
            requires
                0 <= pi <= 0x1_0000_0000_0000_0000,
        ;
        let gain: u128 = points + bonus;
        if gain <= separators as u128 {
            1
        } else {
            let total: u128 = gain - separators as u128;
            if total > i32::MAX as u128 {
                i32::MAX
            } else {
                total as i32
            }
        }
    } else {
        0
    }
}

/// Scores a candidate path against a query without regard to case. The empty
/// query scores 100; under any other query the result is 0 exactly when the
/// candidate is rejected.
pub fn fuzzy_match(text: &str, pattern: &str) -> (score: i32)
    ensures
        score == saturated(fuzzy_score(text@, pattern@)),
        pattern@.len() == 0 ==> score == 100,
{
    if pattern.is_empty() {
        return EMPTY_QUERY_SCORE;
    }
    let text_lower = to_lowercase(text);
    let pattern_lower = to_lowercase(pattern);
    let text_chars = chars_of(text_lower.as_str());
    let pattern_chars = chars_of(pattern_lower.as_str());
    score_chars(&text_chars, &pattern_chars)
}

} // verus!

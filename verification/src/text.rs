//! Texts as sequences of characters: lower case, the edits of a query, and
//! decimal numerals.

use vstd::prelude::*;
use vstd::string::*;

verus! {

/// The lower-case form of a text as the standard library computes it. The
/// mapping follows the Unicode tables and may change the number of characters.
pub uninterp spec fn lowercase(text: Seq<char>) -> Seq<char>;

/// Calls `str::to_lowercase`. Trusted: the result is the lower-case form of the
/// argument, a function of the argument's characters alone.
#[verifier::external_body]
pub(crate) fn to_lowercase(text: &str) -> (r: String)
    ensures
        r@ == lowercase(text@),
{
    text.to_lowercase()
}

/// `String::push` appends one character and changes nothing else.
pub assume_specification[ String::push ](s: &mut String, c: char)
    ensures
        final(s)@ == old(s)@.push(c),
;

/// `String::pop` removes the last character and returns it, or returns `None`
/// and leaves an empty string as it is.
pub assume_specification[ String::pop ](s: &mut String) -> (r: Option<char>)
    ensures
        old(s)@.len() == 0 ==> r is None && final(s)@ == old(s)@,
        old(s)@.len() > 0 ==> r == Some(old(s)@.last()) && final(s)@ == old(s)@.drop_last(),
;

/// The characters of a text, in order.
pub fn chars_of(text: &str) -> (r: Vec<char>)
    ensures
        r@ == text@,
{
    broadcast use vstd::string::axiom_spec_iter;

    let mut out: Vec<char> = Vec::new();
    for c in it: text.chars()
        invariant
            it.seq() == text@,
            out@ == text@.take(it.index()),
    {
        out.push(c);
    }
    assert(text@.take(text@.len() as int) == text@);
    out
}

/// Whether two sequences of characters are equal.
pub fn same_chars(a: &Vec<char>, b: &Vec<char>) -> (r: bool)
    ensures
        r == (a@ == b@),
{
    if a.len() != b.len() {
        return false;
    }
    let mut i: usize = 0;
    while i < a.len()
        invariant
            i <= a.len(),
            a.len() == b.len(),
            forall|j: int| 0 <= j < i ==> a@[j] == b@[j],
        decreases a.len() - i,
    {
        if a[i] != b[i] {
            return false;
        }
        i += 1;
    }
    assert(a@ =~= b@);
    true
}

/// Whether the characters are those of `text`.
pub fn chars_are(chars: &Vec<char>, text: &str) -> (r: bool)
    ensures
        r == (chars@ == text@),
{
    let other = chars_of(text);
    same_chars(chars, &other)
}

/// Position of the last occurrence of `c` in `text`, if there is one.
pub open spec fn last_index_of(text: Seq<char>, c: char) -> Option<int>
    decreases text.len(),
{
    if text.len() == 0 {
        None
    } else if text.last() == c {
        Some(text.len() - 1)
    } else {
        last_index_of(text.drop_last(), c)
    }
}

/// A query after deleting backward to the previous space: what stands before
/// its last space, or nothing when it holds no space.
pub open spec fn without_last_word(query: Seq<char>) -> Seq<char> {
    match last_index_of(query, ' ') {
        Some(at) => query.take(at),
        None => Seq::empty(),
    }
}

/// A query after removing its last character, if it has one.
pub open spec fn without_last_char(query: Seq<char>) -> Seq<char> {
    if query.len() == 0 {
        query
    } else {
        query.drop_last()
    }
}

/// The position that `last_index_of` gives lies in the text and holds `c`.
pub proof fn lemma_last_index_in_range(text: Seq<char>, c: char)
    ensures
        last_index_of(text, c) matches Some(at) ==> 0 <= at < text.len() && text[at] == c,
    decreases text.len(),
{
    if text.len() > 0 && text.last() != c {
        lemma_last_index_in_range(text.drop_last(), c);
    }
}

/// Finds the last occurrence of `c` in `text`, counted in characters.
pub fn find_last(text: &str, c: char) -> (r: Option<usize>)
    ensures
        match r {
            Some(at) => last_index_of(text@, c) == Some(at as int),
            None => last_index_of(text@, c) is None,
        },
{
    let chars = chars_of(text);
    let mut i: usize = chars.len();
    assert(text@.take(i as int) =~= text@);
    while i > 0
        invariant
            i <= chars.len(),
            chars@ == text@,
            last_index_of(text@, c) == last_index_of(text@.take(i as int), c),
        decreases i,
    {
        assert(text@.take(i as int).drop_last() =~= text@.take(i - 1));
        if chars[i - 1] == c {
            return Some(i - 1);
        }
        i -= 1;
    }
    None
}

/// Deletes backward to the previous space, as Ctrl-W does in a line editor.
pub fn delete_last_word(query: &mut String)
    ensures
        final(query)@ == without_last_word(old(query)@),
{
    match find_last(query.as_str(), ' ') {
        Some(at) => {
            proof {
                lemma_last_index_in_range(query@, ' ');
            }
            let kept = String::from_str(query.as_str().substring_char(0, at));
            *query = kept;
        },
        None => {
            *query = String::new();
        },
    }
}

/// The character of a decimal digit.
pub open spec fn digit_char(d: int) -> char {
    if d == 0 {
        '0'
    } else if d == 1 {
        '1'
    } else if d == 2 {
        '2'
    } else if d == 3 {
        '3'
    } else if d == 4 {
        '4'
    } else if d == 5 {
        '5'
    } else if d == 6 {
        '6'
    } else if d == 7 {
        '7'
    } else if d == 8 {
        '8'
    } else {
        '9'
    }
}

/// The decimal numeral of `n`, without leading zeros.
pub open spec fn decimal(n: nat) -> Seq<char>
    decreases n,
{
    if n < 10 {
        seq![digit_char(n as int)]
    } else {
        decimal(n / 10).push(digit_char((n % 10) as int))
    }
}

/// The character of a decimal digit.
fn digit(d: u64) -> (c: char)
    requires
        d < 10,
    ensures
        c == digit_char(d as int),
{
    if d == 0 {
        '0'
    } else if d == 1 {
        '1'
    } else if d == 2 {
        '2'
    } else if d == 3 {
        '3'
    } else if d == 4 {
        '4'
    } else if d == 5 {
        '5'
    } else if d == 6 {
        '6'
    } else if d == 7 {
        '7'
    } else if d == 8 {
        '8'
    } else {
        '9'
    }
}

/// Writes a number as a decimal numeral.
pub fn decimal_string(n: u64) -> (r: String)
    ensures
        r@ == decimal(n as nat),
{
    let mut digits: Vec<char> = Vec::new();
    let mut rest: u64 = n;
    while rest >= 10
        invariant
            decimal(n as nat) == decimal(rest as nat) + digits@.reverse(),
        decreases rest,
    {
        let ghost before = digits@;
        digits.push(digit(rest % 10));
        proof {
            let d = digit_char((rest % 10) as int);
            assert(digits@.reverse() =~= seq![d] + before.reverse());
            assert(decimal(rest as nat) == decimal((rest / 10) as nat).push(d));
            assert(decimal((rest / 10) as nat).push(d) + before.reverse() =~= decimal(
                (rest / 10) as nat,
            ) + (seq![d] + before.reverse()));
        }
        rest = rest / 10;
    }
    let mut out = String::new();
    out.push(digit(rest));
    let mut k: usize = digits.len();
    while k > 0
        invariant
            k <= digits.len(),
            rest < 10,
            out@ == decimal(rest as nat) + digits@.reverse().take(digits.len() - k),
        decreases k,
    {
        let ghost before = out@;
        out.push(digits[k - 1]);
        proof {
            let rev = digits@.reverse();
            assert(rev[digits.len() - k] == digits@[k - 1]);
            assert(rev.take(digits.len() - k + 1) =~= rev.take(digits.len() - k).push(
                digits@[k - 1],
            ));
            assert(out@ =~= decimal(rest as nat) + rev.take(digits.len() - k + 1));
        }
        k -= 1;
    }
    assert(digits@.reverse().take(digits.len() as int) =~= digits@.reverse());
    out
}

} // verus!

//! String helpers: capitalizing the first letter, finding the first
//! word, and counting words.
//!
//! Word boundaries follow the Unicode White_Space set, written out in
//! [`is_space`]; uppercasing follows the full Unicode mapping, reached
//! through `char::to_uppercase` and named by [`upper_of`].

use vstd::prelude::*;

verus! {

/// The Unicode uppercase mapping of one character: the sequence of
/// characters that `char::to_uppercase` yields for it (one character
/// for most letters, more for a few, the character itself when it has
/// no uppercase).
pub uninterp spec fn upper_of(c: char) -> Seq<char>;

/// Relies on char::to_uppercase: the Unicode uppercase mapping of the
/// character, which depends on the character alone and yields at least
/// one character (the character itself when it has no mapping).
#[verifier::external_body]
fn to_uppercase_str(c: char) -> (r: String)
    ensures
        r@ == upper_of(c),
        r@.len() >= 1,
{
    c.to_uppercase().collect()
}

/// `s` with its first character replaced by that character's Unicode
/// uppercase mapping; the empty string stays empty.
pub open spec fn spec_capitalize(s: Seq<char>) -> Seq<char> {
    if s.len() == 0 {
        s
    } else {
        upper_of(s[0]) + s.drop_first()
    }
}

/// Capitalizes the first character of `s`, leaving the rest of the
/// string untouched. The result is empty exactly when `s` is.
pub fn capitalize(s: &str) -> (r: String)
    ensures
        r@ == spec_capitalize(s@),
        r@.len() == 0 <==> s@.len() == 0,
{
    let n = s.unicode_len();
    if n == 0 {
        return String::new();
    }
    let first = s.get_char(0);
    let mut out = to_uppercase_str(first);
    out.append(s.substring_char(1, n));
    proof {
        assert(out@ =~= spec_capitalize(s@));
    }
    out
}

/// True for the characters with the Unicode White_Space property — the
/// set `char::is_whitespace` recognizes and `split_whitespace` splits
/// on: the ASCII whitespace controls and space, next line, no-break
/// space, ogham space mark, the en-quad..hair-space range, line and
/// paragraph separators, narrow no-break space, medium mathematical
/// space, and ideographic space.
pub open spec fn is_space(c: char) -> bool {
    let u = c as u32;
    ||| 0x09 <= u <= 0x0D
    ||| u == 0x20
    ||| u == 0x85
    ||| u == 0xA0
    ||| u == 0x1680
    ||| 0x2000 <= u <= 0x200A
    ||| u == 0x2028
    ||| u == 0x2029
    ||| u == 0x202F
    ||| u == 0x205F
    ||| u == 0x3000
}

/// Whether `c` has the White_Space property of [`is_space`].
fn is_space_char(c: char) -> (r: bool)
    ensures
        r == is_space(c),
{
    let u = c as u32;
    (0x09 <= u && u <= 0x0D) || u == 0x20 || u == 0x85 || u == 0xA0 || u == 0x1680 || (0x2000 <= u
        && u <= 0x200A) || u == 0x2028 || u == 0x2029 || u == 0x202F || u == 0x205F || u == 0x3000
}

/// The position of the first plain space character `' '`, or the length
/// when there is none.
pub open spec fn first_space_at(s: Seq<char>) -> int
    decreases s.len(),
{
    if s.len() == 0 {
        0
    } else if s.first() == ' ' {
        0
    } else {
        1 + first_space_at(s.drop_first())
    }
}

/// The position of the first whitespace character, or the length when
/// there is none.
pub open spec fn first_whitespace_at(s: Seq<char>) -> int
    decreases s.len(),
{
    if s.len() == 0 {
        0
    } else if is_space(s.first()) {
        0
    } else {
        1 + first_whitespace_at(s.drop_first())
    }
}

/// The position of the first non-whitespace character, or the length
/// when there is none.
pub open spec fn first_nonwhitespace_at(s: Seq<char>) -> int
    decreases s.len(),
{
    if s.len() == 0 {
        0
    } else if !is_space(s.first()) {
        0
    } else {
        1 + first_nonwhitespace_at(s.drop_first())
    }
}

/// A position with no plain space before it, and a plain space (or the
/// end) at it, is where the first plain space sits.
proof fn lemma_first_space_at(s: Seq<char>, k: int)
    requires
        0 <= k <= s.len(),
        forall|j: int| 0 <= j < k ==> s[j] != ' ',
        k < s.len() ==> s[k] == ' ',
    ensures
        first_space_at(s) == k,
    decreases k,
{
    if k > 0 {
        let t = s.drop_first();
        assert(forall|j: int| 0 <= j < k - 1 ==> t[j] == s[j + 1] && t[j] != ' ');
        if k - 1 < t.len() {
            assert(t[k - 1] == s[k]);
        }
        lemma_first_space_at(t, k - 1);
    }
}

/// A position with no whitespace before it, and whitespace (or the end)
/// at it, is where the first whitespace sits.
proof fn lemma_first_whitespace_at(s: Seq<char>, k: int)
    requires
        0 <= k <= s.len(),
        forall|j: int| 0 <= j < k ==> !is_space(s[j]),
        k < s.len() ==> is_space(s[k]),
    ensures
        first_whitespace_at(s) == k,
    decreases k,
{
    if k > 0 {
        let t = s.drop_first();
        assert(forall|j: int| 0 <= j < k - 1 ==> t[j] == s[j + 1] && !is_space(t[j]));
        if k - 1 < t.len() {
            assert(t[k - 1] == s[k]);
        }
        lemma_first_whitespace_at(t, k - 1);
    }
}

/// A position with only whitespace before it, and a non-whitespace (or
/// the end) at it, is where the first non-whitespace sits.
proof fn lemma_first_nonwhitespace_at(s: Seq<char>, k: int)
    requires
        0 <= k <= s.len(),
        forall|j: int| 0 <= j < k ==> is_space(s[j]),
        k < s.len() ==> !is_space(s[k]),
    ensures
        first_nonwhitespace_at(s) == k,
    decreases k,
{
    if k > 0 {
        let t = s.drop_first();
        assert(forall|j: int| 0 <= j < k - 1 ==> t[j] == s[j + 1] && is_space(t[j]));
        if k - 1 < t.len() {
            assert(t[k - 1] == s[k]);
        }
        lemma_first_nonwhitespace_at(t, k - 1);
    }
}

/// The prefix of `s` up to (not including) its first plain space
/// character `' '`; all of `s` when it has none. Only the space
/// character ends the word here — tabs and newlines do not.
pub fn first_word(s: &str) -> (r: &str)
    ensures
        r@ == s@.take(first_space_at(s@)),
{
    let n = s.unicode_len();
    let mut k: usize = 0;
    while k < n && s.get_char(k) != ' '
        invariant
            k <= n,
            n == s@.len(),
            forall|j: int| 0 <= j < k ==> s@[j] != ' ',
        decreases n - k,
    {
        k = k + 1;
    }
    proof {
        lemma_first_space_at(s@, k as int);
    }
    s.substring_char(0, k)
}

/// The first whitespace-separated word of `s`: leading whitespace is
/// skipped, and `None` comes back when the string holds no word at all.
pub fn find_first_word(s: &str) -> (r: Option<&str>)
    ensures
        ({
            let start = first_nonwhitespace_at(s@);
            let run = first_whitespace_at(s@.skip(start));
            if start < s@.len() {
                r matches Some(w) && w@ == s@.subrange(start, start + run)
            } else {
                r is None
            }
        }),
{
    let n = s.unicode_len();
    let mut start: usize = 0;
    while start < n && is_space_char(s.get_char(start))
        invariant
            start <= n,
            n == s@.len(),
            forall|j: int| 0 <= j < start ==> is_space(s@[j]),
        decreases n - start,
    {
        start = start + 1;
    }
    proof {
        lemma_first_nonwhitespace_at(s@, start as int);
    }
    if start == n {
        return None;
    }
    let mut end: usize = start;
    while end < n && !is_space_char(s.get_char(end))
        invariant
            start <= end <= n,
            n == s@.len(),
            forall|j: int| start <= j < end ==> !is_space(s@[j]),
        decreases n - end,
    {
        end = end + 1;
    }
    proof {
        let t = s@.skip(start as int);
        assert(forall|j: int| 0 <= j < end - start ==> t[j] == s@[j + start] && !is_space(t[j]));
        if end < n {
            assert(t[end - start] == s@[end as int]);
        }
        lemma_first_whitespace_at(t, end - start);
        assert(s@.subrange(start as int, end as int) =~= t.subrange(0, end - start));
    }
    Some(s.substring_char(start, end))
}

/// The number of words in `s`: a word starts at a non-whitespace
/// character that sits at the front or right after whitespace.
pub open spec fn spec_word_count(s: Seq<char>) -> nat
    decreases s.len(),
{
    if s.len() == 0 {
        0
    } else {
        spec_word_count(s.drop_last()) + if !is_space(s.last()) && (s.len() == 1 || is_space(
            s[s.len() - 2],
        )) {
            1nat
        } else {
            0nat
        }
    }
}

/// Counts the words of `s`: maximal runs of non-whitespace characters.
pub fn word_count(s: &str) -> (count: usize)
    ensures
        count == spec_word_count(s@),
{
    let n = s.unicode_len();
    let mut count: usize = 0;
    let mut i: usize = 0;
    let mut prev_space = true;
    while i < n
        invariant
            i <= n,
            n == s@.len(),
            count == spec_word_count(s@.take(i as int)),
            count <= i,
            prev_space == (i == 0 || is_space(s@[i - 1])),
        decreases n - i,
    {
        let space = is_space_char(s.get_char(i));
        proof {
            assert(s@.take(i + 1).drop_last() =~= s@.take(i as int));
            assert(s@.take(i + 1).last() == s@[i as int]);
        }
        if !space && prev_space {
            count = count + 1;
        }
        prev_space = space;
        i = i + 1;
    }
    proof {
        assert(s@.take(n as int) =~= s@);
    }
    count
}

} // verus!

//! Extraction of the first space-delimited token of a text buffer.
//!
//! The library offers one operation, [`first_word`], which returns the
//! longest prefix of its input that contains no space character, as a
//! borrowed view into the original buffer rather than a copy.

use vstd::prelude::*;
use vstd::string::StrSliceExecFns;

verus! {

/// The number of leading characters of `s` before the first space:
/// the length of the longest prefix of `s` that contains no space.
pub open spec fn word_end(s: Seq<char>) -> int
    decreases s.len(),
{
    if s.len() == 0 || s[0] == ' ' {
        0
    } else {
        1 + word_end(s.subrange(1, s.len() as int))
    }
}

/// The first word of `s`: its longest prefix with no space character.
pub open spec fn first_word_of(s: Seq<char>) -> Seq<char> {
    s.subrange(0, word_end(s))
}

/// `word_end(s)` is exactly the position `i` of the first space of `s`,
/// or `s.len()` when `s` has no space.
pub proof fn lemma_word_end_characterization(s: Seq<char>, i: int)
    requires
        0 <= i <= s.len(),
        forall|j: int| 0 <= j < i ==> s[j] != ' ',
        i < s.len() ==> s[i] == ' ',
    ensures
        word_end(s) == i,
    decreases s.len(),
{
    if s.len() == 0 || s[0] == ' ' {
        assert(i == 0);
    } else {
        let t = s.subrange(1, s.len() as int);
        assert(i >= 1);
        assert(forall|j: int| 0 <= j < i - 1 ==> t[j] == s[j + 1] && t[j] != ' ');
        lemma_word_end_characterization(t, i - 1);
    }
}

/// A buffer with no space character is its own first word.
pub proof fn lemma_first_word_no_space(s: Seq<char>)
    requires
        forall|i: int| 0 <= i < s.len() ==> s[i] != ' ',
    ensures
        first_word_of(s) == s,
{
    lemma_word_end_characterization(s, s.len() as int);
    assert(first_word_of(s) =~= s);
}

/// The first word of `a + " " + b` is `a`, whenever `a` itself contains
/// no space character.
pub proof fn lemma_first_word_before_space(a: Seq<char>, b: Seq<char>)
    requires
        forall|i: int| 0 <= i < a.len() ==> a[i] != ' ',
    ensures
        first_word_of(a + seq![' '] + b) == a,
{
    let s = a + seq![' '] + b;
    assert(forall|i: int| 0 <= i < a.len() ==> s[i] == a[i] && s[i] != ' ');
    assert(s[a.len() as int] == ' ');
    lemma_word_end_characterization(s, a.len() as int);
    assert(first_word_of(s) =~= a);
}

/// Returns the longest prefix of `s` that contains no space character
/// (the first space-delimited word), as a borrowed view into `s`.
///
/// The result is empty when `s` is empty or starts with a space, and is
/// all of `s` when `s` contains no space.
pub fn first_word<'a>(s: &'a str) -> (r: &'a str)
    ensures
        r@ == first_word_of(s@),
{
    let n = s.unicode_len();
    let mut i: usize = 0;
    while i < n
        invariant
            n == s@.len(),
            i <= n,
            forall|j: int| 0 <= j < i ==> s@[j] != ' ',
        decreases n - i,
    {
        if s.get_char(i) == ' ' {
            proof {
                lemma_word_end_characterization(s@, i as int);
            }
            return s.substring_char(0, i);
        }
        i = i + 1;
    }
    proof {
        lemma_word_end_characterization(s@, n as int);
    }
    s.substring_char(0, n)
}

} // verus!

//! Comparing a typed answer with a word: surrounding white space is dropped
//! and ASCII letters are compared without regard to case.

use vstd::prelude::*;

verus! {

/// The code points that carry the Unicode property `White_Space`.
pub open spec fn is_space(c: char) -> bool {
    let n = c as u32;
    ||| 0x09 <= n <= 0x0D
    ||| n == 0x20
    ||| n == 0x85
    ||| n == 0xA0
    ||| n == 0x1680
    ||| 0x2000 <= n <= 0x200A
    ||| n == 0x2028
    ||| n == 0x2029
    ||| n == 0x202F
    ||| n == 0x205F
    ||| n == 0x3000
}

/// The code of a character after an ASCII capital is replaced by its small
/// letter; every other character keeps its code.
pub open spec fn folded(c: char) -> int {
    let n = c as u32 as int;
    if 0x41 <= n <= 0x5A {
        n + 0x20
    } else {
        n
    }
}

/// The first position at or after `from` that holds no white space, or the
/// length of `s` when only white space follows.
pub open spec fn skip_spaces(s: Seq<char>, from: int) -> int
    decreases s.len() - from,
{
    if 0 <= from < s.len() && is_space(s[from]) {
        skip_spaces(s, from + 1)
    } else {
        from
    }
}

/// The end of the text that is left in `s[floor..upto]` once trailing white
/// space is dropped.
pub open spec fn drop_spaces(s: Seq<char>, floor: int, upto: int) -> int
    decreases upto - floor,
{
    if floor < upto <= s.len() && is_space(s[upto - 1]) {
        drop_spaces(s, floor, upto - 1)
    } else {
        upto
    }
}

/// Where the trimmed text starts in `s`.
pub open spec fn trim_start(s: Seq<char>) -> int {
    skip_spaces(s, 0)
}

/// Where the trimmed text ends in `s` (one past its last character).
pub open spec fn trim_end(s: Seq<char>) -> int {
    drop_spaces(s, trim_start(s), s.len() as int)
}

/// `s` without its leading and trailing white space.
pub open spec fn trimmed(s: Seq<char>) -> Seq<char> {
    s.subrange(trim_start(s), trim_end(s))
}

/// Two texts are the same up to the case of ASCII letters.
pub open spec fn same_ignoring_case(a: Seq<char>, b: Seq<char>) -> bool {
    &&& a.len() == b.len()
    &&& forall|i: int| 0 <= i < a.len() ==> folded(#[trigger] a[i]) == folded(b[i])
}

/// An answer is right when, once trimmed, it equals the word up to the case of
/// ASCII letters.
pub open spec fn answer_is_right(input: Seq<char>, word: Seq<char>) -> bool {
    same_ignoring_case(trimmed(input), word)
}

/// `skip_spaces` stops inside the text, passes over white space only, and
/// stops at a character that is none.
pub proof fn lemma_skip_spaces(s: Seq<char>, from: int)
    requires
        0 <= from <= s.len(),
    ensures
        from <= skip_spaces(s, from) <= s.len(),
        forall|i: int| from <= i < skip_spaces(s, from) ==> is_space(#[trigger] s[i]),
        skip_spaces(s, from) < s.len() ==> !is_space(s[skip_spaces(s, from)]),
    decreases s.len() - from,
{
    if from < s.len() && is_space(s[from]) {
        lemma_skip_spaces(s, from + 1);
    }
}

/// `drop_spaces` stops at or above the floor, passes over white space only,
/// and stops behind a character that is none.
pub proof fn lemma_drop_spaces(s: Seq<char>, floor: int, upto: int)
    requires
        0 <= floor <= upto <= s.len(),
    ensures
        floor <= drop_spaces(s, floor, upto) <= upto,
        forall|i: int| drop_spaces(s, floor, upto) <= i < upto ==> is_space(#[trigger] s[i]),
        floor < drop_spaces(s, floor, upto) ==> !is_space(s[drop_spaces(s, floor, upto) - 1]),
    decreases upto - floor,
{
    if floor < upto && is_space(s[upto - 1]) {
        lemma_drop_spaces(s, floor, upto - 1);
    }
}

/// Trimming keeps one contiguous piece of the text: all that lies outside it
/// is white space, and the piece neither starts nor ends with white space.
pub proof fn lemma_trimmed(s: Seq<char>)
    ensures
        0 <= trim_start(s) <= trim_end(s) <= s.len(),
        forall|i: int| 0 <= i < trim_start(s) ==> is_space(#[trigger] s[i]),
        forall|i: int| trim_end(s) <= i < s.len() ==> is_space(#[trigger] s[i]),
        trimmed(s).len() > 0 ==> !is_space(trimmed(s).first()) && !is_space(trimmed(s).last()),
{
    lemma_skip_spaces(s, 0);
    lemma_drop_spaces(s, trim_start(s), s.len() as int);
}

/// Whether a character is white space.
pub fn is_whitespace(c: char) -> (b: bool)
    ensures
        b == is_space(c),
{
    let n: u32 = c as u32;
    (0x09 <= n && n <= 0x0D) || n == 0x20 || n == 0x85 || n == 0xA0 || n == 0x1680 || (0x2000 <= n
        && n <= 0x200A) || n == 0x2028 || n == 0x2029 || n == 0x202F || n == 0x205F || n == 0x3000
}

/// The code of a character with ASCII capitals made small.
pub fn fold_case(c: char) -> (n: u32)
    ensures
        n == folded(c),
{
    let n: u32 = c as u32;
    if 0x41 <= n && n <= 0x5A {
        n + 0x20
    } else {
        n
    }
}

/// The characters of a text, one by one.
pub fn characters(s: &str) -> (v: Vec<char>)
    ensures
        v@ == s@,
{
    let mut v: Vec<char> = Vec::new();
    let chars = s.chars();
    for c in it: chars
        invariant
            it.seq() == s@,
            v@ == s@.subrange(0, it.index()),
    {
        v.push(c);
    }
    v
}

/// Whether the typed `input` is a right answer for `word`.
pub fn answer_matches(input: &str, word: &str) -> (right: bool)
    ensures
        right == answer_is_right(input@, word@),
{
    let typed = characters(input);
    let wanted = characters(word);
    let n = typed.len();
    let mut lo: usize = 0;
    while lo < n && is_whitespace(typed[lo])
        invariant
            n == typed.len(),
            lo <= n,
            skip_spaces(typed@, lo as int) == trim_start(typed@),
        decreases n - lo,
    {
        lo += 1;
    }
    let mut hi: usize = n;
    while hi > lo && is_whitespace(typed[hi - 1])
        invariant
            n == typed.len(),
            lo <= hi <= n,
            lo == trim_start(typed@),
            drop_spaces(typed@, lo as int, hi as int) == trim_end(typed@),
        decreases hi - lo,
    {
        hi -= 1;
    }
    if hi - lo != wanted.len() {
        return false;
    }
    let mut k: usize = 0;
    while k < wanted.len()
        invariant
            typed@ == input@,
            wanted@ == word@,
            lo <= hi <= typed.len(),
            hi - lo == wanted.len(),
            k <= wanted.len(),
            lo == trim_start(typed@),
            hi == trim_end(typed@),
            forall|i: int| 0 <= i < k ==> folded(#[trigger] trimmed(typed@)[i]) == folded(wanted@[i]),
        decreases wanted.len() - k,
    {
        assert(trimmed(typed@)[k as int] == typed@[lo + k]);
        if fold_case(typed[lo + k]) != fold_case(wanted[k]) {
            assert(!same_ignoring_case(trimmed(typed@), wanted@)) by {
                assert(folded(trimmed(typed@)[k as int]) != folded(wanted@[k as int]));
            }
            return false;
        }
        k += 1;
    }
    true
}

} // verus!
